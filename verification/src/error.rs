//! What can go wrong, and how it is reported: an exit code, a kind and a
//! message, and for some kinds further fields.
use crate::download::{
    conflict_json_spec, conflicts_view, Conflict, ConflictView, COLLISION_REPORT_LIMIT,
};
use crate::json::{
    get_spec, items_view, lemma_items_push, number_view, str_view, strs_view, Json, JsonView,
    NumberView,
};
use crate::text;
use crate::text::{decimal_spec, head_within_spec, texts};
use vstd::prelude::*;
use vstd::utf8::encode_utf8;

verus! {

/// One row of the `available` list of an ambiguous artifact: what a caller
/// can choose by.
#[derive(Debug)]
pub struct AvailableVariant {
    pub engine_versions: Vec<String>,
    pub target_platforms: Vec<String>,
}

/// The mathematical value of an [`AvailableVariant`].
#[verifier::ext_equal]
pub struct VariantView {
    pub engine_versions: Seq<Seq<char>>,
    pub target_platforms: Seq<Seq<char>>,
}

impl View for AvailableVariant {
    type V = VariantView;

    open spec fn view(&self) -> VariantView {
        VariantView {
            engine_versions: texts(self.engine_versions@),
            target_platforms: texts(self.target_platforms@),
        }
    }
}

/// The values of a list of variants.
pub open spec fn variants_view(v: Seq<AvailableVariant>) -> Seq<VariantView> {
    v.map_values(|x: AvailableVariant| x@)
}

/// An error of the program.
#[derive(Debug)]
pub enum FabCliError {
    Generic(String),
    AuthRequired(String),
    NotFound(String),
    RateLimited(String),
    Network(String),
    InvalidArgs(String),
    /// The output directory holds files that a download would write.
    OutputCollision {
        message: String,
        conflicts: Vec<Conflict>,
        total_conflicts: usize,
        output_dir: String,
    },
    /// An empty output directory was asked for, and it is not empty.
    OutputNotEmpty { message: String, unexpected_entries: Vec<String>, output_dir: String },
    /// The listing is not in the caller's library: claim or buy it, a new
    /// login does not help.
    NotOwned { message: String, uid: String },
    /// The listing has several versions or platforms, and the caller did not
    /// say enough to choose one.
    AmbiguousArtifact { message: String, uid: String, available: Vec<AvailableVariant> },
}

/// The mathematical value of a [`FabCliError`].
#[verifier::ext_equal]
pub enum ErrorView {
    Generic(Seq<char>),
    AuthRequired(Seq<char>),
    NotFound(Seq<char>),
    RateLimited(Seq<char>),
    Network(Seq<char>),
    InvalidArgs(Seq<char>),
    OutputCollision {
        message: Seq<char>,
        conflicts: Seq<ConflictView>,
        total_conflicts: usize,
        output_dir: Seq<char>,
    },
    OutputNotEmpty {
        message: Seq<char>,
        unexpected_entries: Seq<Seq<char>>,
        output_dir: Seq<char>,
    },
    NotOwned { message: Seq<char>, uid: Seq<char> },
    AmbiguousArtifact { message: Seq<char>, uid: Seq<char>, available: Seq<VariantView> },
}

impl View for FabCliError {
    type V = ErrorView;

    open spec fn view(&self) -> ErrorView {
        match self {
            FabCliError::Generic(m) => ErrorView::Generic(m@),
            FabCliError::AuthRequired(m) => ErrorView::AuthRequired(m@),
            FabCliError::NotFound(m) => ErrorView::NotFound(m@),
            FabCliError::RateLimited(m) => ErrorView::RateLimited(m@),
            FabCliError::Network(m) => ErrorView::Network(m@),
            FabCliError::InvalidArgs(m) => ErrorView::InvalidArgs(m@),
            FabCliError::OutputCollision { message, conflicts, total_conflicts, output_dir } =>
                ErrorView::OutputCollision {
                message: message@,
                conflicts: conflicts_view(conflicts@),
                total_conflicts: *total_conflicts,
                output_dir: output_dir@,
            },
            FabCliError::OutputNotEmpty { message, unexpected_entries, output_dir } =>
                ErrorView::OutputNotEmpty {
                message: message@,
                unexpected_entries: texts(unexpected_entries@),
                output_dir: output_dir@,
            },
            FabCliError::NotOwned { message, uid } => ErrorView::NotOwned {
                message: message@,
                uid: uid@,
            },
            FabCliError::AmbiguousArtifact { message, uid, available } =>
                ErrorView::AmbiguousArtifact {
                message: message@,
                uid: uid@,
                available: variants_view(available@),
            },
        }
    }
}

/// The process exit code of `e`.
pub open spec fn exit_code_spec(e: ErrorView) -> i32 {
    match e {
        ErrorView::Generic(_) => 1,
        ErrorView::AuthRequired(_) => 2,
        ErrorView::NotFound(_) => 3,
        ErrorView::RateLimited(_) => 4,
        ErrorView::Network(_) => 5,
        ErrorView::InvalidArgs(_) => 6,
        ErrorView::OutputCollision { .. } => 6,
        ErrorView::OutputNotEmpty { .. } => 6,
        ErrorView::NotOwned { .. } => 2,
        ErrorView::AmbiguousArtifact { .. } => 6,
    }
}

/// The word by which `e` is told apart.
pub open spec fn kind_spec(e: ErrorView) -> Seq<char> {
    match e {
        ErrorView::Generic(_) => "generic"@,
        ErrorView::AuthRequired(_) => "auth_required"@,
        ErrorView::NotFound(_) => "not_found"@,
        ErrorView::RateLimited(_) => "rate_limited"@,
        ErrorView::Network(_) => "network"@,
        ErrorView::InvalidArgs(_) => "invalid_args"@,
        ErrorView::OutputCollision { .. } => "output_collision"@,
        ErrorView::OutputNotEmpty { .. } => "output_not_empty"@,
        ErrorView::NotOwned { .. } => "not_owned"@,
        ErrorView::AmbiguousArtifact { .. } => "ambiguous_artifact"@,
    }
}

/// The message of `e`.
pub open spec fn message_spec(e: ErrorView) -> Seq<char> {
    match e {
        ErrorView::Generic(m) => m,
        ErrorView::AuthRequired(m) => m,
        ErrorView::NotFound(m) => m,
        ErrorView::RateLimited(m) => m,
        ErrorView::Network(m) => m,
        ErrorView::InvalidArgs(m) => m,
        ErrorView::OutputCollision { message, .. } => message,
        ErrorView::OutputNotEmpty { message, .. } => message,
        ErrorView::NotOwned { message, .. } => message,
        ErrorView::AmbiguousArtifact { message, .. } => message,
    }
}

/// A row of the `available` list as JSON.
pub open spec fn variant_json_spec(v: VariantView) -> JsonView {
    JsonView::Object(
        map![
            "engine_versions"@ => strs_view(v.engine_versions),
            "target_platforms"@ => strs_view(v.target_platforms),
        ],
    )
}

/// The conflicts that a report lists: no more than the limit.
pub open spec fn listed_conflicts(conflicts: Seq<ConflictView>) -> Seq<ConflictView> {
    if conflicts.len() > COLLISION_REPORT_LIMIT {
        conflicts.take(COLLISION_REPORT_LIMIT as int)
    } else {
        conflicts
    }
}

/// The report of `e` as JSON: kind and message, and the fields of its kind.
pub open spec fn error_json_spec(e: ErrorView) -> JsonView {
    let base = map!["kind"@ => str_view(kind_spec(e)), "message"@ => str_view(message_spec(e))];
    JsonView::Object(
        match e {
            ErrorView::OutputCollision { conflicts, total_conflicts, output_dir, .. } =>
                base.insert(
                "conflicts"@,
                JsonView::Array(
                    listed_conflicts(conflicts).map_values(
                        |c: ConflictView| conflict_json_spec(c),
                    ),
                ),
            ).insert("total_conflicts"@, number_view(total_conflicts as u64)).insert(
                "output_dir"@,
                str_view(output_dir),
            ),
            ErrorView::OutputNotEmpty { unexpected_entries, output_dir, .. } => base.insert(
                "unexpected_entries"@,
                strs_view(unexpected_entries),
            ).insert("output_dir"@, str_view(output_dir)),
            ErrorView::NotOwned { uid, .. } => base.insert("uid"@, str_view(uid)),
            ErrorView::AmbiguousArtifact { uid, available, .. } => base.insert(
                "uid"@,
                str_view(uid),
            ).insert(
                "available"@,
                JsonView::Array(available.map_values(|v: VariantView| variant_json_spec(v))),
            ),
            _ => base,
        },
    )
}

fn variants_json(v: &Vec<AvailableVariant>) -> (r: Json)
    ensures
        r@ == JsonView::Array(
            variants_view(v@).map_values(|x: VariantView| variant_json_spec(x)),
        ),
{
    let mut items: Vec<Json> = Vec::new();
    let mut i: usize = 0;
    let ghost whole = variants_view(v@).map_values(|x: VariantView| variant_json_spec(x));
    while i < v.len()
        invariant
            i <= v@.len(),
            whole == variants_view(v@).map_values(|x: VariantView| variant_json_spec(x)),
            items_view(items@) == whole.take(i as int),
        decreases v.len() - i,
    {
        let row = Json::object().with("engine_versions", Json::texts(&v[i].engine_versions)).with(
            "target_platforms",
            Json::texts(&v[i].target_platforms),
        );
        proof {
            lemma_items_push(items@, row);
            assert(whole.take(i + 1) =~= whole.take(i as int).push(row@));
        }
        items.push(row);
        i = i + 1;
    }
    assert(whole.take(v@.len() as int) =~= whole);
    Json::Array(items)
}

fn conflicts_json(v: &Vec<Conflict>) -> (r: Json)
    ensures
        r@ == JsonView::Array(
            listed_conflicts(conflicts_view(v@)).map_values(
                |c: ConflictView| conflict_json_spec(c),
            ),
        ),
{
    let listed: usize = if v.len() > COLLISION_REPORT_LIMIT {
        COLLISION_REPORT_LIMIT
    } else {
        v.len()
    };
    let mut items: Vec<Json> = Vec::new();
    let mut i: usize = 0;
    let ghost whole = listed_conflicts(conflicts_view(v@)).map_values(
        |c: ConflictView| conflict_json_spec(c),
    );
    while i < listed
        invariant
            i <= listed <= v@.len(),
            whole.len() == listed,
            forall|j: int|
                0 <= j < listed ==> #[trigger] whole[j] == conflict_json_spec(v@[j]@),
            items_view(items@) == whole.take(i as int),
        decreases listed - i,
    {
        let row = v[i].to_json();
        proof {
            lemma_items_push(items@, row);
            assert(whole.take(i + 1) =~= whole.take(i as int).push(row@));
        }
        items.push(row);
        i = i + 1;
    }
    assert(whole.take(listed as int) =~= whole);
    Json::Array(items)
}

impl FabCliError {
    /// The exit code, the kind and the message of the error.
    pub fn to_output(&self) -> (r: (i32, &'static str, String))
        ensures
            r.0 == exit_code_spec(self@),
            r.1@ == kind_spec(self@),
            r.2@ == message_spec(self@),
    {
        match self {
            FabCliError::Generic(m) => (1, "generic", m.clone()),
            FabCliError::AuthRequired(m) => (2, "auth_required", m.clone()),
            FabCliError::NotFound(m) => (3, "not_found", m.clone()),
            FabCliError::RateLimited(m) => (4, "rate_limited", m.clone()),
            FabCliError::Network(m) => (5, "network", m.clone()),
            FabCliError::InvalidArgs(m) => (6, "invalid_args", m.clone()),
            FabCliError::OutputCollision { message, .. } => {
                (6, "output_collision", message.clone())
            },
            FabCliError::OutputNotEmpty { message, .. } => {
                (6, "output_not_empty", message.clone())
            },
            FabCliError::NotOwned { message, .. } => (2, "not_owned", message.clone()),
            FabCliError::AmbiguousArtifact { message, .. } => {
                (6, "ambiguous_artifact", message.clone())
            },
        }
    }

    /// The whole report as a JSON object.
    pub fn to_json(&self) -> (r: Json)
        ensures
            r@ == error_json_spec(self@),
    {
        let (_, kind, message) = self.to_output();
        let base = Json::object().with("kind", Json::text(kind)).with(
            "message",
            Json::text(message.as_str()),
        );
        match self {
            FabCliError::OutputCollision { conflicts, total_conflicts, output_dir, .. } => {
                base.with("conflicts", conflicts_json(conflicts)).with(
                    "total_conflicts",
                    Json::number(*total_conflicts as u64),
                ).with("output_dir", Json::text(output_dir.as_str()))
            },
            FabCliError::OutputNotEmpty { unexpected_entries, output_dir, .. } => {
                base.with("unexpected_entries", Json::texts(unexpected_entries)).with(
                    "output_dir",
                    Json::text(output_dir.as_str()),
                )
            },
            FabCliError::NotOwned { uid, .. } => base.with("uid", Json::text(uid.as_str())),
            FabCliError::AmbiguousArtifact { uid, available, .. } => {
                base.with("uid", Json::text(uid.as_str())).with(
                    "available",
                    variants_json(available),
                )
            },
            _ => base,
        }
    }

    /// The error in one line: its kind, a colon and its message.
    pub fn to_text(&self) -> (r: String)
        ensures
            r@ == kind_spec(self@) + ": "@ + message_spec(self@),
    {
        let (_, kind, message) = self.to_output();
        let mut line = kind.to_owned();
        line.append(": ");
        line.append(message.as_str());
        line
    }

    /// The error for a failed read or write of a file.
    pub fn from_io(message: &str) -> (r: FabCliError)
        ensures
            r@ == ErrorView::Generic("io error: "@ + message@),
    {
        let mut m = "io error: ".to_owned();
        m.append(message);
        FabCliError::Generic(m)
    }

    /// The error for text that is no JSON.
    pub fn from_json(message: &str) -> (r: FabCliError)
        ensures
            r@ == ErrorView::Generic("json error: "@ + message@),
    {
        let mut m = "json error: ".to_owned();
        m.append(message);
        FabCliError::Generic(m)
    }
}

/// The exit code of an error follows from its kind.
pub proof fn kind_determines_exit_code(a: ErrorView, b: ErrorView)
    requires
        kind_spec(a) == kind_spec(b),
    ensures
        exit_code_spec(a) == exit_code_spec(b),
{
    reveal_strlit("generic");
    reveal_strlit("auth_required");
    reveal_strlit("not_found");
    reveal_strlit("rate_limited");
    reveal_strlit("network");
    reveal_strlit("invalid_args");
    reveal_strlit("output_collision");
    reveal_strlit("output_not_empty");
    reveal_strlit("not_owned");
    reveal_strlit("ambiguous_artifact");
    assert("generic"@.len() == 7);
    assert("auth_required"@.len() == 13);
    assert("not_found"@.len() == 9);
    assert("rate_limited"@.len() == 12);
    assert("network"@.len() == 7);
    assert("invalid_args"@.len() == 12);
    assert("output_collision"@.len() == 16);
    assert("output_not_empty"@.len() == 16);
    assert("not_owned"@.len() == 9);
    assert("ambiguous_artifact"@.len() == 18);
    assert("generic"@[0] != "network"@[0]);
    assert("not_found"@[4] != "not_owned"@[4]);
    assert("rate_limited"@[0] != "invalid_args"@[0]);
    assert(kind_spec(a).len() == kind_spec(b).len());
}

/// No error exits as success does, and each exit code is one of six.
pub proof fn exit_codes_are_failures(e: ErrorView)
    ensures
        1 <= exit_code_spec(e) <= 6,
{
}

/// A collision report lists at most the limit, and names the total.
pub proof fn collision_report_is_bounded(e: ErrorView)
    requires
        e is OutputCollision,
    ensures
        crate::json::get_array_spec(error_json_spec(e), "conflicts"@) matches Some(items)
            && items.len() <= COLLISION_REPORT_LIMIT && items.len() <= e->conflicts.len(),
        crate::json::get_spec(error_json_spec(e), "total_conflicts"@) == Some(
            number_view(e->total_conflicts as u64),
        ),
{
    reveal_strlit("conflicts");
    reveal_strlit("total_conflicts");
    reveal_strlit("output_dir");
    reveal_strlit("kind");
    reveal_strlit("message");
    assert("conflicts"@.len() != "total_conflicts"@.len());
    assert("conflicts"@.len() != "output_dir"@.len());
    assert("total_conflicts"@.len() != "output_dir"@.len());
}

// ---------------------------------------------------------------------------
// Errors of the marketplace's service
// ---------------------------------------------------------------------------

/// A failure that the service's client reports.
#[derive(Debug)]
pub enum EpicError {
    InvalidCredentials,
    Http { status: u16 },
    Network(String),
    Deserialization(String),
    Api(String),
    Server,
    InvalidParams,
    FabTimeout,
}

/// How many bytes of a service message are passed on.
pub const API_MESSAGE_LIMIT: usize = 120;

/// What is kept of a long message: the characters that fit in the limit.
pub open spec fn kept_message(message: Seq<char>) -> Seq<char> {
    head_within_spec(message, API_MESSAGE_LIMIT as int)
}

/// A service message as it is passed on: cut where it is long, since it can
/// repeat what was submitted.
pub open spec fn cut_message(message: Seq<char>) -> Seq<char> {
    if encode_utf8(message).len() > API_MESSAGE_LIMIT {
        kept_message(message) + "…(truncated)"@
    } else {
        message
    }
}

/// Of a long message its beginning is passed on, no longer than the limit, and
/// never the whole of it.
pub proof fn long_messages_are_cut(message: Seq<char>)
    requires
        encode_utf8(message).len() > API_MESSAGE_LIMIT,
    ensures
        cut_message(message) == kept_message(message) + "…(truncated)"@,
        kept_message(message).is_prefix_of(message),
        kept_message(message) != message,
        encode_utf8(kept_message(message)).len() <= API_MESSAGE_LIMIT,
{
    text::heads_are_prefixes(message, API_MESSAGE_LIMIT as int);
    if kept_message(message) == message {
        assert(encode_utf8(message).len() <= API_MESSAGE_LIMIT);
    }
}

/// The error for an HTTP status of the service.
pub open spec fn http_status_error(status: u16) -> ErrorView {
    let line = "HTTP "@ + decimal_spec(status as nat) + " from upstream"@;
    if status == 429 {
        ErrorView::RateLimited("HTTP 429 from upstream"@)
    } else if status == 404 {
        ErrorView::NotFound("HTTP 404 from upstream"@)
    } else if status == 401 || status == 403 {
        ErrorView::AuthRequired(line)
    } else {
        ErrorView::Generic(line)
    }
}

/// The error that `e` is reported as.
pub open spec fn epic_error_spec(e: EpicError) -> ErrorView {
    match e {
        EpicError::InvalidCredentials => ErrorView::AuthRequired("invalid credentials"@),
        EpicError::Http { status } => http_status_error(status),
        EpicError::Network(m) => ErrorView::Network(m@),
        EpicError::Deserialization(m) => ErrorView::Generic("deserialization error: "@ + m@),
        EpicError::Api(m) => ErrorView::Generic("API error: "@ + cut_message(m@)),
        EpicError::Server => ErrorView::Generic("upstream server error"@),
        EpicError::InvalidParams => ErrorView::InvalidArgs("invalid parameters"@),
        EpicError::FabTimeout => ErrorView::Network("Fab timeout"@),
    }
}

fn cut(message: &str) -> (r: String)
    ensures
        r@ == cut_message(message@),
{
    let bytes = message.as_bytes();
    if bytes.len() > API_MESSAGE_LIMIT {
        let (mut m, _) = text::head_within(message, API_MESSAGE_LIMIT);
        m.append("…(truncated)");
        m
    } else {
        message.to_owned()
    }
}

impl FabCliError {
    /// The error that a failure of the service is reported as. What the
    /// service sent along with an HTTP status is not passed on: it can repeat
    /// submitted credentials.
    pub fn from_epic(e: EpicError) -> (r: FabCliError)
        ensures
            r@ == epic_error_spec(e),
    {
        match e {
            EpicError::InvalidCredentials => {
                FabCliError::AuthRequired("invalid credentials".to_owned())
            },
            EpicError::Http { status } => {
                if status == 429 {
                    FabCliError::RateLimited("HTTP 429 from upstream".to_owned())
                } else if status == 404 {
                    FabCliError::NotFound("HTTP 404 from upstream".to_owned())
                } else {
                    let mut line = "HTTP ".to_owned();
                    line.append(text::decimal(status as u64).as_str());
                    line.append(" from upstream");
                    if status == 401 || status == 403 {
                        FabCliError::AuthRequired(line)
                    } else {
                        FabCliError::Generic(line)
                    }
                }
            },
            EpicError::Network(m) => FabCliError::Network(m),
            EpicError::Deserialization(m) => {
                let mut line = "deserialization error: ".to_owned();
                line.append(m.as_str());
                FabCliError::Generic(line)
            },
            EpicError::Api(m) => {
                let mut line = "API error: ".to_owned();
                line.append(cut(m.as_str()).as_str());
                FabCliError::Generic(line)
            },
            EpicError::Server => FabCliError::Generic("upstream server error".to_owned()),
            EpicError::InvalidParams => FabCliError::InvalidArgs("invalid parameters".to_owned()),
            EpicError::FabTimeout => FabCliError::Network("Fab timeout".to_owned()),
        }
    }
}

proof fn lemma_error_keys()
    ensures
        "kind"@ != "message"@,
        "kind"@ != "conflicts"@,
        "kind"@ != "total_conflicts"@,
        "kind"@ != "output_dir"@,
        "kind"@ != "unexpected_entries"@,
        "kind"@ != "uid"@,
        "kind"@ != "available"@,
        "message"@ != "conflicts"@,
        "message"@ != "total_conflicts"@,
        "message"@ != "output_dir"@,
        "message"@ != "unexpected_entries"@,
        "message"@ != "uid"@,
        "message"@ != "available"@,
        "conflicts"@ != "total_conflicts"@,
        "conflicts"@ != "output_dir"@,
        "conflicts"@ != "unexpected_entries"@,
        "conflicts"@ != "uid"@,
        "conflicts"@ != "available"@,
        "total_conflicts"@ != "output_dir"@,
        "total_conflicts"@ != "unexpected_entries"@,
        "total_conflicts"@ != "uid"@,
        "total_conflicts"@ != "available"@,
        "output_dir"@ != "unexpected_entries"@,
        "output_dir"@ != "uid"@,
        "output_dir"@ != "available"@,
        "unexpected_entries"@ != "uid"@,
        "unexpected_entries"@ != "available"@,
        "uid"@ != "available"@,
{
    reveal_strlit("kind");
    reveal_strlit("message");
    reveal_strlit("conflicts");
    reveal_strlit("total_conflicts");
    reveal_strlit("output_dir");
    reveal_strlit("unexpected_entries");
    reveal_strlit("uid");
    reveal_strlit("available");
    assert("kind"@.len() == 4);
    assert("message"@.len() == 7);
    assert("conflicts"@.len() == 9);
    assert("total_conflicts"@.len() == 15);
    assert("output_dir"@.len() == 10);
    assert("unexpected_entries"@.len() == 18);
    assert("uid"@.len() == 3);
    assert("available"@.len() == 9);
    assert("conflicts"@[0] != "available"@[0]);
}

/// What each kind of error ends the program with.
pub proof fn exit_codes_tell_kinds_apart(e: ErrorView)
    ensures
        exit_code_spec(e) == 1 <==> e is Generic,
        exit_code_spec(e) == 2 <==> e is AuthRequired || e is NotOwned,
        exit_code_spec(e) == 3 <==> e is NotFound,
        exit_code_spec(e) == 4 <==> e is RateLimited,
        exit_code_spec(e) == 5 <==> e is Network,
        exit_code_spec(e) == 6 <==> e is InvalidArgs || e is OutputCollision || e is OutputNotEmpty
            || e is AmbiguousArtifact,
{
}

/// An error's report names its kind and holds its message, and what the kind
/// adds: the conflicts with their number and the directory, the entries with the
/// directory, the listing, or the listing with its versions.
pub proof fn reports_hold_what_the_error_holds(e: ErrorView, i: int)
    ensures
        get_spec(error_json_spec(e), "kind"@) == Some(JsonView::Str(kind_spec(e))),
        get_spec(error_json_spec(e), "message"@) == Some(JsonView::Str(message_spec(e))),
        e matches ErrorView::OutputCollision { conflicts, total_conflicts, output_dir, .. } ==> {
            &&& get_spec(error_json_spec(e), "total_conflicts"@) == Some(
                JsonView::Number(NumberView::Unsigned(total_conflicts as u64)),
            )
            &&& get_spec(error_json_spec(e), "output_dir"@) == Some(JsonView::Str(output_dir))
            &&& 0 <= i < conflicts.len() && i < 20 ==> (get_spec(error_json_spec(e), "conflicts"@)
                matches Some(JsonView::Array(rows)) && i < rows.len() && rows[i]
                == conflict_json_spec(conflicts[i]))
        },
        e matches ErrorView::OutputNotEmpty { unexpected_entries, output_dir, .. } ==> {
            &&& get_spec(error_json_spec(e), "output_dir"@) == Some(JsonView::Str(output_dir))
            &&& 0 <= i < unexpected_entries.len() ==> (get_spec(
                error_json_spec(e),
                "unexpected_entries"@,
            ) matches Some(JsonView::Array(rows)) && rows.len() == unexpected_entries.len()
                && rows[i] == JsonView::Str(unexpected_entries[i]))
        },
        e matches ErrorView::NotOwned { uid, .. } ==> get_spec(error_json_spec(e), "uid"@) == Some(
            JsonView::Str(uid),
        ),
        e matches ErrorView::AmbiguousArtifact { uid, available, .. } ==> {
            &&& get_spec(error_json_spec(e), "uid"@) == Some(JsonView::Str(uid))
            &&& 0 <= i < available.len() ==> (get_spec(error_json_spec(e), "available"@) matches Some(
                JsonView::Array(rows),
            ) && rows.len() == available.len() && rows[i] == variant_json_spec(available[i]))
        },
{
    lemma_error_keys();
}

/// What the service's own errors become: a missing login for refused
/// credentials and for status 401 and 403, a missing thing for 404, too many
/// requests for 429, trouble with the network for what the network or a timeout
/// did, wrong arguments for wrong parameters, and a failure for the rest.
pub proof fn service_errors_are_told_apart(e: EpicError)
    ensures
        epic_error_spec(e) is AuthRequired <==> e is InvalidCredentials || (e matches
            EpicError::Http { status } && (status == 401 || status == 403)),
        epic_error_spec(e) is NotFound <==> (e matches EpicError::Http { status } && status == 404),
        epic_error_spec(e) is RateLimited <==> (e matches EpicError::Http { status } && status
            == 429),
        epic_error_spec(e) is Network <==> e is Network || e is FabTimeout,
        epic_error_spec(e) is InvalidArgs <==> e is InvalidParams,
        e matches EpicError::Network(m) ==> message_spec(epic_error_spec(e)) == m@,
        e matches EpicError::Deserialization(m) ==> message_spec(epic_error_spec(e))
            == "deserialization error: "@ + m@,
        e matches EpicError::Http { status } ==> message_spec(epic_error_spec(e)) == "HTTP "@
            + decimal_spec(status as nat) + " from upstream"@,
        e matches EpicError::Api(m) ==> (encode_utf8(m@).len() <= 120 ==> message_spec(
            epic_error_spec(e),
        ) == "API error: "@ + m@),
{
    if let EpicError::Http { status } = e {
        lemma_status_texts();
    }
}

proof fn lemma_status_texts()
    ensures
        "HTTP 429 from upstream"@ == "HTTP "@ + decimal_spec(429) + " from upstream"@,
        "HTTP 404 from upstream"@ == "HTTP "@ + decimal_spec(404) + " from upstream"@,
{
    reveal_strlit("HTTP 429 from upstream");
    reveal_strlit("HTTP 404 from upstream");
    reveal_strlit("HTTP ");
    reveal_strlit(" from upstream");
    reveal_with_fuel(decimal_spec, 4);
    assert(decimal_spec(4) =~= seq!['4']);
    assert(decimal_spec(42) =~= seq!['4', '2']);
    assert(decimal_spec(429) =~= seq!['4', '2', '9']);
    assert(decimal_spec(40) =~= seq!['4', '0']);
    assert(decimal_spec(404) =~= seq!['4', '0', '4']);
    assert("HTTP 429 from upstream"@ =~= "HTTP "@ + decimal_spec(429) + " from upstream"@);
    assert("HTTP 404 from upstream"@ =~= "HTTP "@ + decimal_spec(404) + " from upstream"@);
}

proof fn lemma_kind_names()
    ensures
        "generic"@ != "auth_required"@,
        "generic"@ != "not_found"@,
        "generic"@ != "rate_limited"@,
        "generic"@ != "network"@,
        "generic"@ != "invalid_args"@,
        "generic"@ != "output_collision"@,
        "generic"@ != "output_not_empty"@,
        "generic"@ != "not_owned"@,
        "generic"@ != "ambiguous_artifact"@,
        "auth_required"@ != "not_found"@,
        "auth_required"@ != "rate_limited"@,
        "auth_required"@ != "network"@,
        "auth_required"@ != "invalid_args"@,
        "auth_required"@ != "output_collision"@,
        "auth_required"@ != "output_not_empty"@,
        "auth_required"@ != "not_owned"@,
        "auth_required"@ != "ambiguous_artifact"@,
        "not_found"@ != "rate_limited"@,
        "not_found"@ != "network"@,
        "not_found"@ != "invalid_args"@,
        "not_found"@ != "output_collision"@,
        "not_found"@ != "output_not_empty"@,
        "not_found"@ != "not_owned"@,
        "not_found"@ != "ambiguous_artifact"@,
        "rate_limited"@ != "network"@,
        "rate_limited"@ != "invalid_args"@,
        "rate_limited"@ != "output_collision"@,
        "rate_limited"@ != "output_not_empty"@,
        "rate_limited"@ != "not_owned"@,
        "rate_limited"@ != "ambiguous_artifact"@,
        "network"@ != "invalid_args"@,
        "network"@ != "output_collision"@,
        "network"@ != "output_not_empty"@,
        "network"@ != "not_owned"@,
        "network"@ != "ambiguous_artifact"@,
        "invalid_args"@ != "output_collision"@,
        "invalid_args"@ != "output_not_empty"@,
        "invalid_args"@ != "not_owned"@,
        "invalid_args"@ != "ambiguous_artifact"@,
        "output_collision"@ != "output_not_empty"@,
        "output_collision"@ != "not_owned"@,
        "output_collision"@ != "ambiguous_artifact"@,
        "output_not_empty"@ != "not_owned"@,
        "output_not_empty"@ != "ambiguous_artifact"@,
        "not_owned"@ != "ambiguous_artifact"@,
{
    reveal_strlit("generic");
    reveal_strlit("auth_required");
    reveal_strlit("not_found");
    reveal_strlit("rate_limited");
    reveal_strlit("network");
    reveal_strlit("invalid_args");
    reveal_strlit("output_collision");
    reveal_strlit("output_not_empty");
    reveal_strlit("not_owned");
    reveal_strlit("ambiguous_artifact");
    assert("generic"@.len() == 7);
    assert("auth_required"@.len() == 13);
    assert("not_found"@.len() == 9);
    assert("rate_limited"@.len() == 12);
    assert("network"@.len() == 7);
    assert("invalid_args"@.len() == 12);
    assert("output_collision"@.len() == 16);
    assert("output_not_empty"@.len() == 16);
    assert("not_owned"@.len() == 9);
    assert("ambiguous_artifact"@.len() == 18);
    assert("generic"@[0] != "network"@[0]);
    assert("not_found"@[4] != "not_owned"@[4]);
    assert("rate_limited"@[0] != "invalid_args"@[0]);
    assert("output_collision"@[7] != "output_not_empty"@[7]);
}

/// Each kind of error has its own name.
pub proof fn kinds_have_their_names(e: ErrorView)
    ensures
        kind_spec(e) == "generic"@ <==> e is Generic,
        kind_spec(e) == "auth_required"@ <==> e is AuthRequired,
        kind_spec(e) == "not_found"@ <==> e is NotFound,
        kind_spec(e) == "rate_limited"@ <==> e is RateLimited,
        kind_spec(e) == "network"@ <==> e is Network,
        kind_spec(e) == "invalid_args"@ <==> e is InvalidArgs,
        kind_spec(e) == "output_collision"@ <==> e is OutputCollision,
        kind_spec(e) == "output_not_empty"@ <==> e is OutputNotEmpty,
        kind_spec(e) == "not_owned"@ <==> e is NotOwned,
        kind_spec(e) == "ambiguous_artifact"@ <==> e is AmbiguousArtifact,
{
    lemma_kind_names();
}

/// An error's message is the one it was made with, whatever its kind.
pub proof fn messages_are_kept(m: Seq<char>, dir: Seq<char>, uid: Seq<char>)
    ensures
        message_spec(ErrorView::Generic(m)) == m,
        message_spec(ErrorView::AuthRequired(m)) == m,
        message_spec(ErrorView::NotFound(m)) == m,
        message_spec(ErrorView::RateLimited(m)) == m,
        message_spec(ErrorView::Network(m)) == m,
        message_spec(ErrorView::InvalidArgs(m)) == m,
        message_spec(
            ErrorView::OutputNotEmpty {
                message: m,
                unexpected_entries: Seq::empty(),
                output_dir: dir,
            },
        ) == m,
        message_spec(
            ErrorView::OutputCollision {
                message: m,
                conflicts: Seq::empty(),
                total_conflicts: 0,
                output_dir: dir,
            },
        ) == m,
        message_spec(ErrorView::NotOwned { message: m, uid }) == m,
        message_spec(ErrorView::AmbiguousArtifact { message: m, uid, available: Seq::empty() })
            == m,
{
}

proof fn lemma_variant_keys()
    ensures
        "engine_versions"@ != "target_platforms"@,
        "engine_versions"@ != "path"@,
        "engine_versions"@ != "kind"@,
        "target_platforms"@ != "path"@,
        "target_platforms"@ != "kind"@,
        "path"@ != "kind"@,
{
    reveal_strlit("engine_versions");
    reveal_strlit("target_platforms");
    reveal_strlit("path");
    reveal_strlit("kind");
    assert("engine_versions"@.len() == 15);
    assert("target_platforms"@.len() == 16);
    assert("path"@.len() == 4);
    assert("kind"@.len() == 4);
    assert("path"@[0] != "kind"@[0]);
}

/// A version's row lists its engines and its platforms, and a conflict's row
/// its path and what is in the way.
pub proof fn rows_hold_their_lists(v: VariantView, c: ConflictView, i: int)
    ensures
        get_spec(variant_json_spec(v), "engine_versions"@) matches Some(JsonView::Array(engines))
            && engines.len() == v.engine_versions.len() && (0 <= i < engines.len() ==> engines[i]
            == JsonView::Str(v.engine_versions[i])),
        get_spec(variant_json_spec(v), "target_platforms"@) matches Some(
            JsonView::Array(platforms),
        ) && platforms.len() == v.target_platforms.len() && (0 <= i < platforms.len()
            ==> platforms[i] == JsonView::Str(v.target_platforms[i])),
        get_spec(conflict_json_spec(c), "path"@) == Some(JsonView::Str(c.path)),
        get_spec(conflict_json_spec(c), "kind"@) == Some(
            JsonView::Str(
                match c.kind {
                    crate::download::ConflictKind::FileExists => "file_exists"@,
                    crate::download::ConflictKind::IsDirectory => "is_directory"@,
                    crate::download::ConflictKind::ParentIsFile => "parent_is_file"@,
                },
            ),
        ),
{
    lemma_variant_keys();
}

/// All conflicts are listed up to twenty; of more the first twenty.
pub proof fn the_first_conflicts_are_listed(conflicts: Seq<ConflictView>, i: int)
    ensures
        conflicts.len() <= 20 ==> listed_conflicts(conflicts) == conflicts,
        conflicts.len() > 20 ==> listed_conflicts(conflicts).len() == 20,
        0 <= i < listed_conflicts(conflicts).len() ==> listed_conflicts(conflicts)[i]
            == conflicts[i],
{
}

} // verus!
