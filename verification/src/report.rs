//! What the program writes out at the end.
use crate::error::{error_json_spec, FabCliError};
use crate::json;
use crate::json::{json_text, number_view, str_view, strs_view, Json, JsonView, Number};
use crate::text;
use crate::text::{decimal_spec, head_within_spec, last_boundary, sorted_unique_spec, texts};
use vstd::prelude::*;
use vstd::utf8::encode_utf8;

verus! {

/// The name of the file that describes a downloaded asset.
pub const SIDECAR_NAME: &'static str = ".fabcli-asset.json";

/// The line that reports an error on standard error.
pub fn error_line(e: &FabCliError) -> (r: String)
    ensures
        r@ == json_text(JsonView::Object(map!["error"@ => error_json_spec(e@)])),
{
    json::render(&Json::object().with("error", e.to_json()))
}

/// The exit code for a command line that was not understood; zero where only
/// help or the version was asked for.
pub fn usage_exit_code(asked_for_help: bool) -> (r: i32)
    ensures
        r == usage_code_spec(asked_for_help),
{
    if asked_for_help {
        0
    } else {
        6
    }
}

/// A version of a listing's format, as the service describes it.
#[derive(Debug)]
pub struct FormatVersion {
    pub engine_versions: Option<Vec<String>>,
    pub target_platforms: Option<Vec<String>>,
}

/// The texts of a list that may be there.
pub open spec fn opt_texts(list: Option<Vec<String>>) -> Seq<Seq<char>> {
    match list {
        Some(l) => texts(l@),
        None => Seq::empty(),
    }
}

/// The engine versions of `versions`, one behind the other.
pub open spec fn listed_engines(versions: Seq<FormatVersion>) -> Seq<Seq<char>>
    decreases versions.len(),
{
    if versions.len() == 0 {
        Seq::empty()
    } else {
        listed_engines(versions.drop_last()) + opt_texts(versions.last().engine_versions)
    }
}

/// The platforms of `versions`, one behind the other.
pub open spec fn listed_platforms(versions: Seq<FormatVersion>) -> Seq<Seq<char>>
    decreases versions.len(),
{
    if versions.len() == 0 {
        Seq::empty()
    } else {
        listed_platforms(versions.drop_last()) + opt_texts(versions.last().target_platforms)
    }
}

fn add_texts(all: &mut Vec<String>, list: &Option<Vec<String>>)
    ensures
        texts(final(all)@) == texts(old(all)@) + opt_texts(*list),
{
    match list {
        Some(l) => {
            let mut more = text::copy_texts(l);
            let ghost prior = all@;
            let ghost added = more@;
            all.append(&mut more);
            assert(texts(all@) =~= texts(prior) + texts(added));
        },
        None => {
            assert(texts(all@) + Seq::<Seq<char>>::empty() =~= texts(all@));
        },
    }
}

fn listed(versions: &Vec<FormatVersion>) -> (r: (Vec<String>, Vec<String>))
    ensures
        texts(r.0@) == listed_engines(versions@),
        texts(r.1@) == listed_platforms(versions@),
{
    let mut engines: Vec<String> = Vec::new();
    let mut platforms: Vec<String> = Vec::new();
    let mut i: usize = 0;
    assert(texts(engines@) =~= listed_engines(versions@.take(0)));
    assert(texts(platforms@) =~= listed_platforms(versions@.take(0)));
    while i < versions.len()
        invariant
            i <= versions@.len(),
            texts(engines@) == listed_engines(versions@.take(i as int)),
            texts(platforms@) == listed_platforms(versions@.take(i as int)),
        decreases versions.len() - i,
    {
        assert(versions@.take(i + 1).drop_last() =~= versions@.take(i as int));
        assert(versions@.take(i + 1).last() == versions@[i as int]);
        add_texts(&mut engines, &versions[i].engine_versions);
        add_texts(&mut platforms, &versions[i].target_platforms);
        i = i + 1;
    }
    assert(versions@.take(versions@.len() as int) =~= versions@);
    (engines, platforms)
}

/// What is known of a downloaded asset.
#[derive(Debug)]
pub struct AssetFacts {
    pub fabcli_version: String,
    pub listing_uid: String,
    pub title: String,
    pub distribution_method: String,
    /// The versions of the listing's format; none where they are not known.
    pub versions: Vec<FormatVersion>,
    pub file_count: usize,
    pub total_bytes: u64,
    pub downloaded_at: String,
}

/// The description of a downloaded asset: the engine versions and the platforms
/// of all its versions, each once and in order.
pub open spec fn sidecar_spec(a: AssetFacts) -> JsonView {
    JsonView::Object(
        map![
            "fabcli_version"@ => str_view(a.fabcli_version@),
            "listing_uid"@ => str_view(a.listing_uid@),
            "title"@ => str_view(a.title@),
            "distribution_method"@ => str_view(a.distribution_method@),
            "engine_versions"@ => strs_view(sorted_unique_spec(listed_engines(a.versions@))),
            "platforms"@ => strs_view(sorted_unique_spec(listed_platforms(a.versions@))),
            "file_count"@ => number_view(a.file_count as u64),
            "total_bytes"@ => number_view(a.total_bytes),
            "downloaded_at"@ => str_view(a.downloaded_at@),
        ],
    )
}

/// The description of a downloaded asset.
pub fn sidecar(a: &AssetFacts) -> (r: Json)
    ensures
        r@ == sidecar_spec(*a),
{
    let (all_engines, all_platforms) = listed(&a.versions);
    let engines = text::sorted_unique(&all_engines);
    let platforms = text::sorted_unique(&all_platforms);
    Json::object().with("fabcli_version", Json::text(a.fabcli_version.as_str())).with(
        "listing_uid",
        Json::text(a.listing_uid.as_str()),
    ).with("title", Json::text(a.title.as_str())).with(
        "distribution_method",
        Json::text(a.distribution_method.as_str()),
    ).with("engine_versions", Json::texts(&engines)).with(
        "platforms",
        Json::texts(&platforms),
    ).with("file_count", Json::number(a.file_count as u64)).with(
        "total_bytes",
        Json::number(a.total_bytes),
    ).with("downloaded_at", Json::text(a.downloaded_at.as_str()))
}

/// The report of a download; `seconds` is how long it took.
pub fn download_report(files: usize, total_bytes: u64, seconds: Number, output_dir: &str) -> (r:
    Json)
    ensures
        r@ == download_report_spec(files, total_bytes, seconds@, output_dir@),
{
    Json::object().with("ok", Json::Bool(true)).with("files", Json::number(files as u64)).with(
        "total_bytes",
        Json::number(total_bytes),
    ).with("elapsed_seconds", Json::Number(seconds)).with(
        "output_dir",
        Json::text(output_dir),
    ).with("sidecar", Json::text(SIDECAR_NAME))
}

/// Where the description of one of a listing's formats comes from.
#[derive(Debug, Clone, Copy, PartialEq, Eq, Structural)]
pub enum FormatSource {
    /// From the request for that format.
    Detail,
    /// From the list of formats.
    Summary,
    /// It is left out.
    Dropped,
}

/// Where the description of a format comes from: a format with a code is asked
/// for by itself, and left out where that fails; one without a code stays as
/// the list gives it.
pub fn format_source(has_code: bool, fetched: bool) -> (r: FormatSource)
    ensures
        r == format_source_spec(has_code, fetched),
{
    if !has_code {
        FormatSource::Summary
    } else if fetched {
        FormatSource::Detail
    } else {
        FormatSource::Dropped
    }
}

/// How many bytes of an answer a probe shows.
pub const PROBE_LIMIT: usize = 400;

/// The beginning of an answer, as many characters as fit, and how many bytes are
/// left out.
pub fn probe_preview(body: &str) -> (r: String)
    ensures
        r@ == probe_preview_spec(body@),
{
    let bytes = body.as_bytes();
    let n = bytes.len();
    if n > PROBE_LIMIT {
        let (mut m, shown) = text::head_within(body, PROBE_LIMIT);
        m.append("…(+");
        m.append(text::decimal((n - shown) as u64).as_str());
        m.append(" bytes)");
        m
    } else {
        body.to_owned()
    }
}

/// The line that a probe writes to standard output.
pub fn probe_line(status: u16, body: &str, path: &str) -> (r: String)
    ensures
        r@ == probe_line_spec(status, body@, path@),
{
    let body_bytes = body.as_bytes();
    let path_bytes = path.as_bytes();
    let mut m = "{\"status\":".to_owned();
    m.append(text::decimal(status as u64).as_str());
    m.append(",\"body_len\":");
    m.append(text::decimal(body_bytes.len() as u64).as_str());
    m.append(",\"url_len\":");
    m.append(text::decimal(path_bytes.len() as u64).as_str());
    m.append("}");
    m
}

// ---------------------------------------------------------------------------
// What the reports say
// ---------------------------------------------------------------------------

proof fn lemma_sidecar_keys()
    ensures
        "fabcli_version"@ != "listing_uid"@,
        "fabcli_version"@ != "title"@,
        "fabcli_version"@ != "distribution_method"@,
        "fabcli_version"@ != "engine_versions"@,
        "fabcli_version"@ != "platforms"@,
        "fabcli_version"@ != "file_count"@,
        "fabcli_version"@ != "total_bytes"@,
        "fabcli_version"@ != "downloaded_at"@,
        "listing_uid"@ != "title"@,
        "listing_uid"@ != "distribution_method"@,
        "listing_uid"@ != "engine_versions"@,
        "listing_uid"@ != "platforms"@,
        "listing_uid"@ != "file_count"@,
        "listing_uid"@ != "total_bytes"@,
        "listing_uid"@ != "downloaded_at"@,
        "title"@ != "distribution_method"@,
        "title"@ != "engine_versions"@,
        "title"@ != "platforms"@,
        "title"@ != "file_count"@,
        "title"@ != "total_bytes"@,
        "title"@ != "downloaded_at"@,
        "distribution_method"@ != "engine_versions"@,
        "distribution_method"@ != "platforms"@,
        "distribution_method"@ != "file_count"@,
        "distribution_method"@ != "total_bytes"@,
        "distribution_method"@ != "downloaded_at"@,
        "engine_versions"@ != "platforms"@,
        "engine_versions"@ != "file_count"@,
        "engine_versions"@ != "total_bytes"@,
        "engine_versions"@ != "downloaded_at"@,
        "platforms"@ != "file_count"@,
        "platforms"@ != "total_bytes"@,
        "platforms"@ != "downloaded_at"@,
        "file_count"@ != "total_bytes"@,
        "file_count"@ != "downloaded_at"@,
        "total_bytes"@ != "downloaded_at"@,
{
    reveal_strlit("fabcli_version");
    reveal_strlit("listing_uid");
    reveal_strlit("title");
    reveal_strlit("distribution_method");
    reveal_strlit("engine_versions");
    reveal_strlit("platforms");
    reveal_strlit("file_count");
    reveal_strlit("total_bytes");
    reveal_strlit("downloaded_at");
    assert("fabcli_version"@.len() == 14);
    assert("listing_uid"@.len() == 11);
    assert("title"@.len() == 5);
    assert("distribution_method"@.len() == 19);
    assert("engine_versions"@.len() == 15);
    assert("platforms"@.len() == 9);
    assert("file_count"@.len() == 10);
    assert("total_bytes"@.len() == 11);
    assert("downloaded_at"@.len() == 13);
    assert("listing_uid"@[0] != "total_bytes"@[0]);
}

proof fn lemma_download_keys()
    ensures
        "ok"@ != "files"@,
        "ok"@ != "total_bytes"@,
        "ok"@ != "elapsed_seconds"@,
        "ok"@ != "output_dir"@,
        "ok"@ != "sidecar"@,
        "files"@ != "total_bytes"@,
        "files"@ != "elapsed_seconds"@,
        "files"@ != "output_dir"@,
        "files"@ != "sidecar"@,
        "total_bytes"@ != "elapsed_seconds"@,
        "total_bytes"@ != "output_dir"@,
        "total_bytes"@ != "sidecar"@,
        "elapsed_seconds"@ != "output_dir"@,
        "elapsed_seconds"@ != "sidecar"@,
        "output_dir"@ != "sidecar"@,
{
    reveal_strlit("ok");
    reveal_strlit("files");
    reveal_strlit("total_bytes");
    reveal_strlit("elapsed_seconds");
    reveal_strlit("output_dir");
    reveal_strlit("sidecar");
    assert("ok"@.len() == 2);
    assert("files"@.len() == 5);
    assert("total_bytes"@.len() == 11);
    assert("elapsed_seconds"@.len() == 15);
    assert("output_dir"@.len() == 10);
    assert("sidecar"@.len() == 7);
}

/// Where the facts of a format come from.
pub open spec fn format_source_spec(has_code: bool, fetched: bool) -> FormatSource {
    if !has_code {
        FormatSource::Summary
    } else if fetched {
        FormatSource::Detail
    } else {
        FormatSource::Dropped
    }
}

/// A format without a code is told of by its summary, one with a code by its
/// details, and not at all where those could not be fetched.
pub proof fn formats_are_told_of_by_their_details(has_code: bool, fetched: bool)
    ensures
        format_source_spec(has_code, fetched) == FormatSource::Summary <==> !has_code,
        format_source_spec(has_code, fetched) == FormatSource::Detail <==> has_code && fetched,
        format_source_spec(has_code, fetched) == FormatSource::Dropped <==> has_code && !fetched,
{
}

/// The report of a download.
pub open spec fn download_report_spec(
    files: usize,
    total_bytes: u64,
    seconds: json::NumberView,
    output_dir: Seq<char>,
) -> JsonView {
    JsonView::Object(
        map![
            "ok"@ => JsonView::Bool(true),
            "files"@ => number_view(files as u64),
            "total_bytes"@ => number_view(total_bytes),
            "elapsed_seconds"@ => JsonView::Number(seconds),
            "output_dir"@ => str_view(output_dir),
            "sidecar"@ => str_view(SIDECAR_NAME@),
        ],
    )
}

/// The report of a download says how many files and bytes there were, how long
/// it took, and where they and the facts about them are.
pub proof fn downloads_report_their_numbers(
    files: usize,
    total_bytes: u64,
    seconds: json::NumberView,
    output_dir: Seq<char>,
)
    ensures
        json::get_spec(download_report_spec(files, total_bytes, seconds, output_dir), "ok"@)
            == Some(JsonView::Bool(true)),
        json::get_spec(download_report_spec(files, total_bytes, seconds, output_dir), "files"@)
            == Some(JsonView::Number(json::NumberView::Unsigned(files as u64))),
        json::get_spec(
            download_report_spec(files, total_bytes, seconds, output_dir),
            "total_bytes"@,
        ) == Some(JsonView::Number(json::NumberView::Unsigned(total_bytes))),
        json::get_spec(
            download_report_spec(files, total_bytes, seconds, output_dir),
            "elapsed_seconds"@,
        ) == Some(JsonView::Number(seconds)),
        json::get_spec(
            download_report_spec(files, total_bytes, seconds, output_dir),
            "output_dir"@,
        ) == Some(JsonView::Str(output_dir)),
        json::get_spec(download_report_spec(files, total_bytes, seconds, output_dir), "sidecar"@)
            == Some(JsonView::Str(".fabcli-asset.json"@)),
{
    lemma_download_keys();
}

/// What is shown of an answer's body.
pub open spec fn probe_preview_spec(body: Seq<char>) -> Seq<char> {
    if encode_utf8(body).len() > PROBE_LIMIT {
        head_within_spec(body, PROBE_LIMIT as int) + "…(+"@ + decimal_spec(
            (encode_utf8(body).len() - last_boundary(encode_utf8(body), PROBE_LIMIT as int)) as nat,
        ) + " bytes)"@
    } else {
        body
    }
}

/// A body of no more than four hundred bytes is shown as it is; a longer one by
/// its beginning.
pub proof fn short_bodies_are_shown_whole(body: Seq<char>)
    ensures
        encode_utf8(body).len() <= 400 ==> probe_preview_spec(body) == body,
        encode_utf8(body).len() > 400 ==> text::starts_with_spec(
            probe_preview_spec(body),
            head_within_spec(body, 400),
        ),
{
    if encode_utf8(body).len() > 400 {
        let head = head_within_spec(body, 400);
        let shown = probe_preview_spec(body);
        assert(shown.take(head.len() as int) =~= head);
    }
}

/// The line on a probe.
pub open spec fn probe_line_spec(status: u16, body: Seq<char>, path: Seq<char>) -> Seq<char> {
    "{\"status\":"@ + decimal_spec(status as nat) + ",\"body_len\":"@ + decimal_spec(
        encode_utf8(body).len(),
    ) + ",\"url_len\":"@ + decimal_spec(encode_utf8(path).len()) + "}"@
}

/// Two probes' lines differ only where status, length of the body or length of
/// the address do; each begins with the status.
pub proof fn probes_begin_with_their_status(
    status: u16,
    body: Seq<char>,
    path: Seq<char>,
    body2: Seq<char>,
    path2: Seq<char>,
)
    ensures
        encode_utf8(body).len() == encode_utf8(body2).len() && encode_utf8(path).len()
            == encode_utf8(path2).len() ==> probe_line_spec(status, body, path)
            == probe_line_spec(status, body2, path2),
        text::starts_with_spec(
            probe_line_spec(status, body, path),
            "{\"status\":"@ + decimal_spec(status as nat) + ",\"body_len\":"@ + decimal_spec(
                encode_utf8(body).len(),
            ) + ",\"url_len\":"@ + decimal_spec(encode_utf8(path).len()),
        ),
{
    let head = "{\"status\":"@ + decimal_spec(status as nat) + ",\"body_len\":"@ + decimal_spec(
        encode_utf8(body).len(),
    ) + ",\"url_len\":"@ + decimal_spec(encode_utf8(path).len());
    assert(probe_line_spec(status, body, path).take(head.len() as int) =~= head);
}

/// What the program ends with where its arguments are not those of a command.
pub open spec fn usage_code_spec(asked_for_help: bool) -> i32 {
    if asked_for_help {
        0
    } else {
        6
    }
}

/// Asking for help is no failure; wrong arguments end as any other wrong
/// argument does.
pub proof fn help_is_no_failure(m: Seq<char>)
    ensures
        usage_code_spec(true) == 0,
        usage_code_spec(false) == crate::error::exit_code_spec(
            crate::error::ErrorView::InvalidArgs(m),
        ),
{
}

proof fn lemma_listed(versions: Seq<FormatVersion>, x: Seq<char>)
    ensures
        listed_engines(versions).contains(x) <==> exists|i: int|
            0 <= i < versions.len() && opt_texts(
                (#[trigger] versions[i]).engine_versions,
            ).contains(x),
        listed_platforms(versions).contains(x) <==> exists|i: int|
            0 <= i < versions.len() && opt_texts(
                (#[trigger] versions[i]).target_platforms,
            ).contains(x),
    decreases versions.len(),
{
    if versions.len() > 0 {
        let head = versions.drop_last();
        let last = versions[versions.len() - 1];
        lemma_listed(head, x);
        lemma_concat_contains(listed_engines(head), opt_texts(last.engine_versions), x);
        lemma_concat_contains(listed_platforms(head), opt_texts(last.target_platforms), x);
        if exists|i: int|
            0 <= i < head.len() && opt_texts((#[trigger] head[i]).engine_versions).contains(x) {
            let i = choose|i: int|
                0 <= i < head.len() && opt_texts((#[trigger] head[i]).engine_versions).contains(x);
            assert(versions[i] == head[i]);
        }
        if exists|i: int|
            0 <= i < head.len() && opt_texts((#[trigger] head[i]).target_platforms).contains(x) {
            let i = choose|i: int|
                0 <= i < head.len() && opt_texts((#[trigger] head[i]).target_platforms).contains(
                    x,
                );
            assert(versions[i] == head[i]);
        }
        if exists|i: int|
            0 <= i < versions.len() && opt_texts((#[trigger] versions[i]).engine_versions).contains(
                x,
            ) {
            let i = choose|i: int|
                0 <= i < versions.len() && opt_texts(
                    (#[trigger] versions[i]).engine_versions,
                ).contains(x);
            if i < head.len() {
                assert(head[i] == versions[i]);
            }
        }
        if exists|i: int|
            0 <= i < versions.len() && opt_texts(
                (#[trigger] versions[i]).target_platforms,
            ).contains(x) {
            let i = choose|i: int|
                0 <= i < versions.len() && opt_texts(
                    (#[trigger] versions[i]).target_platforms,
                ).contains(x);
            if i < head.len() {
                assert(head[i] == versions[i]);
            }
        }
    }
}

proof fn lemma_concat_contains(a: Seq<Seq<char>>, b: Seq<Seq<char>>, x: Seq<char>)
    ensures
        (a + b).contains(x) <==> a.contains(x) || b.contains(x),
{
    if (a + b).contains(x) {
        let k = choose|k: int| 0 <= k < (a + b).len() && (a + b)[k] == x;
        if k < a.len() {
            assert(a[k] == x);
        } else {
            assert(b[k - a.len()] == x);
        }
    }
    if a.contains(x) {
        let k = choose|k: int| 0 <= k < a.len() && a[k] == x;
        assert((a + b)[k] == x);
    }
    if b.contains(x) {
        let k = choose|k: int| 0 <= k < b.len() && b[k] == x;
        assert((a + b)[a.len() + k] == x);
    }
}

/// The facts that are kept beside a download: each under its name, and of
/// engines and platforms all that any version is for.
pub proof fn sidecars_hold_the_facts(a: AssetFacts, x: Seq<char>)
    ensures
        json::get_spec(sidecar_spec(a), "fabcli_version"@) == Some(
            JsonView::Str(a.fabcli_version@),
        ),
        json::get_spec(sidecar_spec(a), "listing_uid"@) == Some(JsonView::Str(a.listing_uid@)),
        json::get_spec(sidecar_spec(a), "title"@) == Some(JsonView::Str(a.title@)),
        json::get_spec(sidecar_spec(a), "distribution_method"@) == Some(
            JsonView::Str(a.distribution_method@),
        ),
        json::get_spec(sidecar_spec(a), "file_count"@) == Some(
            JsonView::Number(json::NumberView::Unsigned(a.file_count as u64)),
        ),
        json::get_spec(sidecar_spec(a), "total_bytes"@) == Some(
            JsonView::Number(json::NumberView::Unsigned(a.total_bytes)),
        ),
        json::get_spec(sidecar_spec(a), "downloaded_at"@) == Some(JsonView::Str(a.downloaded_at@)),
        json::get_spec(sidecar_spec(a), "engine_versions"@) matches Some(JsonView::Array(engines))
            && (engines.contains(JsonView::Str(x)) <==> exists|i: int|
            0 <= i < a.versions@.len() && opt_texts(
                (#[trigger] a.versions@[i]).engine_versions,
            ).contains(x)),
        json::get_spec(sidecar_spec(a), "platforms"@) matches Some(JsonView::Array(platforms)) && (
        platforms.contains(JsonView::Str(x)) <==> exists|i: int|
            0 <= i < a.versions@.len() && opt_texts(
                (#[trigger] a.versions@[i]).target_platforms,
            ).contains(x)),
{
    lemma_sidecar_keys();
    lemma_listed(a.versions@, x);
    let engines = sorted_unique_spec(listed_engines(a.versions@));
    let platforms = sorted_unique_spec(listed_platforms(a.versions@));
    text::sorted_lists_hold_everything_once(listed_engines(a.versions@), x);
    text::sorted_lists_hold_everything_once(listed_platforms(a.versions@), x);
    lemma_texts_listed(engines, x);
    lemma_texts_listed(platforms, x);
}

proof fn lemma_texts_listed(s: Seq<Seq<char>>, x: Seq<char>)
    ensures
        s.map_values(|t: Seq<char>| str_view(t)).contains(JsonView::Str(x)) <==> s.contains(x),
{
    let views = s.map_values(|t: Seq<char>| str_view(t));
    if views.contains(JsonView::Str(x)) {
        let k = choose|k: int| 0 <= k < views.len() && views[k] == JsonView::Str(x);
        assert(s[k] == x);
    }
    if s.contains(x) {
        let k = choose|k: int| 0 <= k < s.len() && s[k] == x;
        assert(views[k] == JsonView::Str(x));
    }
}

} // verus!
