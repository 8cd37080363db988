//! Claiming many listings: where their identifiers come from, and the report.
use crate::args::ClaimBatchArgs;
use crate::error::{kind_spec, message_spec, ErrorView, FabCliError};
use crate::json;
use crate::json::{
    as_str_spec, get_array_spec, get_bool_spec, get_spec, get_str_spec, items_view,
    lemma_items_index, number_view, parse_view, parsed_json, str_view, Json, JsonView, NumberView,
};
use crate::text;
use crate::text::{decimal_spec, lines_spec, split_spec, texts, trim_spec};
use vstd::prelude::*;

verus! {

/// Those of `pieces` that are not white space alone, without the white space
/// around them.
pub open spec fn trimmed_nonempty(pieces: Seq<Seq<char>>) -> Seq<Seq<char>>
    decreases pieces.len(),
{
    if pieces.len() == 0 {
        Seq::empty()
    } else {
        let before = trimmed_nonempty(pieces.drop_last());
        if trim_spec(pieces.last()).len() == 0 {
            before
        } else {
            before.push(trim_spec(pieces.last()))
        }
    }
}

fn trim_nonempty(pieces: &Vec<String>) -> (r: Vec<String>)
    ensures
        texts(r@) == trimmed_nonempty(texts(pieces@)),
{
    let mut out: Vec<String> = Vec::new();
    let mut i: usize = 0;
    let ghost all = texts(pieces@);
    assert(texts(out@) =~= trimmed_nonempty(all.take(0)));
    while i < pieces.len()
        invariant
            i <= pieces@.len(),
            all == texts(pieces@),
            texts(out@) == trimmed_nonempty(all.take(i as int)),
        decreases pieces.len() - i,
    {
        assert(all.take(i + 1).drop_last() =~= all.take(i as int));
        assert(all.take(i + 1).last() == pieces@[i as int]@);
        let piece = text::trim(pieces[i].as_str());
        if !piece.as_str().is_empty() {
            proof {
                text::lemma_texts_push(out@, piece);
            }
            out.push(piece);
        }
        i = i + 1;
    }
    assert(all.take(all.len() as int) =~= all);
    out
}

/// The identifiers between the commas of `s`.
pub fn parse_csv(s: &str) -> (r: Vec<String>)
    ensures
        texts(r@) == trimmed_nonempty(split_spec(s@, ',')),
{
    let pieces = text::split(s, ',');
    trim_nonempty(&pieces)
}

/// The identifiers on the lines of `s`.
pub fn parse_lines(s: &str) -> (r: Vec<String>)
    ensures
        texts(r@) == trimmed_nonempty(lines_spec(s@)),
{
    let pieces = text::lines(s);
    trim_nonempty(&pieces)
}

/// The identifiers of those of `items` that have one or are one, in order.
pub open spec fn item_uids(items: Seq<JsonView>) -> Seq<Seq<char>>
    decreases items.len(),
{
    if items.len() == 0 {
        Seq::empty()
    } else {
        let before = item_uids(items.drop_last());
        match get_str_spec(items.last(), "uid"@) {
            Some(uid) => before.push(uid),
            None => match as_str_spec(items.last()) {
                Some(s) => before.push(s),
                None => before,
            },
        }
    }
}

/// The identifiers in JSON input: a search result, or a bare list.
pub open spec fn stdin_uids_spec(input: Result<JsonView, Seq<char>>) -> Result<
    Seq<Seq<char>>,
    ErrorView,
> {
    match input {
        Err(e) => Err(ErrorView::InvalidArgs("--from-stdin-json parse error: "@ + e)),
        Ok(v) => match get_array_spec(v, "results"@) {
            Some(items) => Ok(item_uids(items)),
            None => match v {
                JsonView::Array(items) => Ok(item_uids(items)),
                _ => Err(
                    ErrorView::InvalidArgs(
                        "--from-stdin-json: expected `{results:[…]}` or `[…]`"@,
                    ),
                ),
            },
        },
    }
}

/// Texts or an error, by their value.
pub open spec fn uids_view(r: Result<Vec<String>, FabCliError>) -> Result<
    Seq<Seq<char>>,
    ErrorView,
> {
    match r {
        Ok(v) => Ok(texts(v@)),
        Err(e) => Err(e@),
    }
}

fn collect_uids(items: &Vec<Json>) -> (r: Vec<String>)
    ensures
        texts(r@) == item_uids(items_view(items@)),
{
    let mut out: Vec<String> = Vec::new();
    let mut i: usize = 0;
    let ghost views = items_view(items@);
    proof {
        lemma_items_index(items@);
    }
    assert(texts(out@) =~= item_uids(views.take(0)));
    while i < items.len()
        invariant
            i <= items@.len(),
            views.len() == items@.len(),
            forall|j: int| 0 <= j < items@.len() ==> #[trigger] views[j] == items@[j]@,
            texts(out@) == item_uids(views.take(i as int)),
        decreases items.len() - i,
    {
        assert(views.take(i + 1).drop_last() =~= views.take(i as int));
        assert(views.take(i + 1).last() == items@[i as int]@);
        let found = match items[i].get_str("uid") {
            Some(uid) => Some(uid),
            None => items[i].as_str(),
        };
        match found {
            Some(uid) => {
                let item = uid.to_owned();
                proof {
                    text::lemma_texts_push(out@, item);
                }
                out.push(item);
            },
            None => {},
        }
        i = i + 1;
    }
    assert(views.take(views.len() as int) =~= views);
    out
}

/// The identifiers in input that was read as JSON.
pub fn uids_from_json(input: &Result<Json, String>) -> (r: Result<Vec<String>, FabCliError>)
    ensures
        uids_view(r) == stdin_uids_spec(parse_view(*input)),
{
    match input {
        Err(e) => {
            let mut m = "--from-stdin-json parse error: ".to_owned();
            m.append(e.as_str());
            Err(FabCliError::InvalidArgs(m))
        },
        Ok(v) => match v.get_array("results") {
            Some(items) => Ok(collect_uids(items)),
            None => match v.as_array() {
                Some(items) => Ok(collect_uids(items)),
                None => Err(
                    FabCliError::InvalidArgs(
                        "--from-stdin-json: expected `{results:[…]}` or `[…]`".to_owned(),
                    ),
                ),
            },
        },
    }
}

/// The identifiers in JSON text: those of a search result, or of a bare list,
/// whose items have one or are one.
pub fn parse_stdin_json(s: &str) -> (r: Result<Vec<String>, FabCliError>)
    ensures
        uids_view(r) == stdin_uids_spec(parsed_json(trim_spec(s@))),
{
    let trimmed = text::trim(s);
    let input = json::parse(trimmed.as_str());
    uids_from_json(&input)
}

/// Where the identifiers come from.
#[derive(Debug)]
pub enum UidSource {
    /// The comma-separated text.
    List(String),
    /// Lines of standard input.
    Lines,
    /// JSON on standard input.
    StdinJson,
    /// The library.
    Library,
}

/// The mathematical value of a [`UidSource`].
pub enum SourceView {
    List(Seq<char>),
    Lines,
    StdinJson,
    Library,
}

impl View for UidSource {
    type V = SourceView;

    open spec fn view(&self) -> SourceView {
        match self {
            UidSource::List(s) => SourceView::List(s@),
            UidSource::Lines => SourceView::Lines,
            UidSource::StdinJson => SourceView::StdinJson,
            UidSource::Library => SourceView::Library,
        }
    }
}

/// A source or an error, by its value.
pub open spec fn source_view(r: Result<UidSource, FabCliError>) -> Result<SourceView, ErrorView> {
    match r {
        Ok(s) => Ok(s@),
        Err(e) => Err(e@),
    }
}

/// Where the identifiers come from: the first source that the caller named.
pub fn input_mode(args: &ClaimBatchArgs) -> (r: Result<UidSource, FabCliError>)
    ensures
        source_view(r) == input_mode_spec(*args),
{
    if let Some(csv) = &args.uids {
        return Ok(UidSource::List(csv.clone()));
    }
    if args.stdin {
        return Ok(UidSource::Lines);
    }
    if args.from_stdin_json {
        return Ok(UidSource::StdinJson);
    }
    if args.from_library {
        return Ok(UidSource::Library);
    }
    Err(
        FabCliError::InvalidArgs(
            "no UIDs provided (use --uids, --stdin, --from-stdin-json, or --from-library)".to_owned(),
        ),
    )
}

/// Refuses a source without identifiers.
pub fn check_uids(uids: &Vec<String>) -> (r: Result<(), FabCliError>)
    ensures
        r is Err <==> uids@.len() == 0,
        r matches Err(e) ==> e@ == ErrorView::InvalidArgs("input source was empty"@),
{
    if uids.len() == 0 {
        Err(FabCliError::InvalidArgs("input source was empty".to_owned()))
    } else {
        Ok(())
    }
}

// ---------------------------------------------------------------------------
// The report
// ---------------------------------------------------------------------------

/// The entry for a claim that failed.
pub open spec fn failed_entry_spec(uid: Seq<char>, e: ErrorView) -> JsonView {
    JsonView::Object(
        map![
            "ok"@ => JsonView::Bool(false),
            "uid"@ => str_view(uid),
            "error"@ => JsonView::Object(
                map![
                    "kind"@ => str_view(kind_spec(e)),
                    "message"@ => str_view(message_spec(e)),
                ],
            ),
        ],
    )
}

/// The entry for a claim that failed.
pub fn failed_entry(uid: &str, e: &FabCliError) -> (r: Json)
    ensures
        r@ == failed_entry_spec(uid@, e@),
{
    let (_, kind, message) = e.to_output();
    Json::object().with("ok", Json::Bool(false)).with("uid", Json::text(uid)).with(
        "error",
        Json::object().with("kind", Json::text(kind)).with("message", Json::Str(message)),
    )
}

/// How claims ended.
#[derive(Debug, Clone, Copy, PartialEq, Eq, Structural)]
pub struct Tally {
    pub claimed: u32,
    pub already_owned: u32,
    pub skipped_paid: u32,
    pub failed: u32,
}

/// How one claim ended.
#[derive(Debug, Clone, Copy, PartialEq, Eq, Structural)]
pub enum Outcome {
    Claimed,
    AlreadyOwned,
    SkippedPaid,
    Failed,
    /// A success that says neither.
    Other,
}

/// How the claim of an entry ended.
pub open spec fn outcome_spec(entry: JsonView) -> Outcome {
    if get_bool_spec(entry, "ok"@) == Some(true) {
        if get_bool_spec(entry, "claimed"@) == Some(true) {
            Outcome::Claimed
        } else if get_bool_spec(entry, "already_owned"@) == Some(true) {
            Outcome::AlreadyOwned
        } else {
            Outcome::Other
        }
    } else if get_str_spec(entry, "reason"@) == Some("not_free"@) {
        Outcome::SkippedPaid
    } else {
        Outcome::Failed
    }
}

/// How many of `entries` ended with `outcome`.
pub open spec fn count_outcomes(entries: Seq<JsonView>, outcome: Outcome) -> nat
    decreases entries.len(),
{
    if entries.len() == 0 {
        0
    } else {
        let n = count_outcomes(entries.drop_last(), outcome);
        if outcome_spec(entries.last()) == outcome {
            n + 1
        } else {
            n
        }
    }
}

/// `t` counts how `entries` ended.
pub open spec fn tallies(t: Tally, entries: Seq<JsonView>) -> bool {
    &&& t.claimed == count_outcomes(entries, Outcome::Claimed)
    &&& t.already_owned == count_outcomes(entries, Outcome::AlreadyOwned)
    &&& t.skipped_paid == count_outcomes(entries, Outcome::SkippedPaid)
    &&& t.failed == count_outcomes(entries, Outcome::Failed)
}

fn is_true(b: Option<bool>) -> (r: bool)
    ensures
        r == (b == Some(true)),
{
    match b {
        Some(x) => x,
        None => false,
    }
}

/// How the claim of an entry ended.
pub fn outcome_of(entry: &Json) -> (r: Outcome)
    ensures
        r == outcome_spec(entry@),
{
    if is_true(entry.get_bool("ok")) {
        if is_true(entry.get_bool("claimed")) {
            Outcome::Claimed
        } else if is_true(entry.get_bool("already_owned")) {
            Outcome::AlreadyOwned
        } else {
            Outcome::Other
        }
    } else {
        match entry.get_str("reason") {
            Some(reason) => if text::same(reason, "not_free") {
                Outcome::SkippedPaid
            } else {
                Outcome::Failed
            },
            None => Outcome::Failed,
        }
    }
}

proof fn lemma_counts_bounded(entries: Seq<JsonView>, outcome: Outcome)
    ensures
        count_outcomes(entries, outcome) <= entries.len(),
    decreases entries.len(),
{
    if entries.len() > 0 {
        lemma_counts_bounded(entries.drop_last(), outcome);
    }
}

/// Counts how `entries` ended.
pub fn tally(entries: &Vec<Json>) -> (r: Tally)
    requires
        entries@.len() <= u32::MAX,
    ensures
        tallies(r, items_view(entries@)),
{
    let mut t = Tally { claimed: 0, already_owned: 0, skipped_paid: 0, failed: 0 };
    let mut i: usize = 0;
    let ghost views = items_view(entries@);
    proof {
        lemma_items_index(entries@);
    }
    while i < entries.len()
        invariant
            i <= entries@.len(),
            entries@.len() <= u32::MAX,
            views.len() == entries@.len(),
            forall|j: int| 0 <= j < entries@.len() ==> #[trigger] views[j] == entries@[j]@,
            tallies(t, views.take(i as int)),
        decreases entries.len() - i,
    {
        let ghost head = views.take(i as int);
        proof {
            assert(views.take(i + 1).drop_last() =~= head);
            assert(views.take(i + 1).last() == entries@[i as int]@);
            lemma_counts_bounded(head, Outcome::Claimed);
            lemma_counts_bounded(head, Outcome::AlreadyOwned);
            lemma_counts_bounded(head, Outcome::SkippedPaid);
            lemma_counts_bounded(head, Outcome::Failed);
        }
        match outcome_of(&entries[i]) {
            Outcome::Claimed => {
                t.claimed = t.claimed + 1;
            },
            Outcome::AlreadyOwned => {
                t.already_owned = t.already_owned + 1;
            },
            Outcome::SkippedPaid => {
                t.skipped_paid = t.skipped_paid + 1;
            },
            Outcome::Failed => {
                t.failed = t.failed + 1;
            },
            Outcome::Other => {},
        }
        i = i + 1;
    }
    assert(views.take(views.len() as int) =~= views);
    t
}

/// The report on a batch of claims.
pub open spec fn batch_report_spec(entries: Seq<JsonView>, t: Tally) -> JsonView {
    JsonView::Object(
        map![
            "ok"@ => JsonView::Bool(t.failed == 0),
            "results"@ => JsonView::Array(entries),
            "meta"@ => JsonView::Object(
                map![
                    "total"@ => number_view(entries.len() as u64),
                    "claimed"@ => number_view(t.claimed as u64),
                    "already_owned"@ => number_view(t.already_owned as u64),
                    "skipped_paid"@ => number_view(t.skipped_paid as u64),
                    "failed"@ => number_view(t.failed as u64),
                ],
            ),
        ],
    )
}

/// What a batch of claims ends with.
#[derive(Debug)]
pub struct BatchEnd {
    pub report: Json,
    /// Something was claimed: the cached library is out of date.
    pub invalidate: bool,
    /// The error that the command ends with, where a claim failed.
    pub error: Option<FabCliError>,
}

/// Ends a batch of claims: the report on all entries, one for each identifier;
/// where any failed, an error as well.
pub fn finish_batch(entries: Vec<Json>) -> (r: BatchEnd)
    requires
        entries@.len() <= u32::MAX,
    ensures
        exists|t: Tally| #[trigger]
            tallies(t, items_view(entries@)) && r.report@ == batch_report_spec(
                items_view(entries@),
                t,
            ),
        r.invalidate == invalidates_spec(items_view(entries@)),
        crate::chunks::opt_error(r.error) == batch_error_spec(items_view(entries@)),
        r.error is Some <==> count_outcomes(items_view(entries@), Outcome::Failed) > 0,
        r.error matches Some(e) ==> e@ == ErrorView::Generic(
            decimal_spec(count_outcomes(items_view(entries@), Outcome::Failed)) + " of "@
                + decimal_spec(entries@.len()) + " UIDs failed"@,
        ),
{
    let t = tally(&entries);
    let total = entries.len();
    proof {
        lemma_items_index(entries@);
    }
    let meta = Json::object().with("total", Json::number(total as u64)).with(
        "claimed",
        Json::number(t.claimed as u64),
    ).with("already_owned", Json::number(t.already_owned as u64)).with(
        "skipped_paid",
        Json::number(t.skipped_paid as u64),
    ).with("failed", Json::number(t.failed as u64));
    let ghost views = items_view(entries@);
    let report = Json::object().with("ok", Json::Bool(t.failed == 0)).with(
        "results",
        Json::Array(entries),
    ).with("meta", meta);
    assert(report@ == batch_report_spec(views, t));
    let error = if t.failed > 0 {
        let mut m = text::decimal(t.failed as u64);
        m.append(" of ");
        m.append(text::decimal(total as u64).as_str());
        m.append(" UIDs failed");
        Some(FabCliError::Generic(m))
    } else {
        None
    };
    BatchEnd { report, invalidate: t.claimed > 0, error }
}

/// Every entry is counted under exactly one outcome.
pub proof fn outcomes_add_up(entries: Seq<JsonView>)
    ensures
        count_outcomes(entries, Outcome::Claimed) + count_outcomes(entries, Outcome::AlreadyOwned)
            + count_outcomes(entries, Outcome::SkippedPaid) + count_outcomes(
            entries,
            Outcome::Failed,
        ) + count_outcomes(entries, Outcome::Other) == entries.len(),
    decreases entries.len(),
{
    if entries.len() > 0 {
        outcomes_add_up(entries.drop_last());
    }
}

proof fn lemma_entry_keys()
    ensures
        "ok"@.len() == 2,
        "uid"@.len() == 3,
        "error"@.len() == 5,
        "reason"@.len() == 6,
        "title"@.len() == 5,
        "price"@.len() == 5,
        "currency"@.len() == 8,
        "purchase_url"@.len() == 12,
        "claimed"@.len() == 7,
        "already_owned"@.len() == 13,
{
    reveal_strlit("ok");
    reveal_strlit("uid");
    reveal_strlit("error");
    reveal_strlit("reason");
    reveal_strlit("title");
    reveal_strlit("price");
    reveal_strlit("currency");
    reveal_strlit("purchase_url");
    reveal_strlit("claimed");
    reveal_strlit("already_owned");
}

/// The entries that claims end with are counted as what they are: a refused
/// paid listing as skipped, an owned one as owned, a claimed one as claimed,
/// and an error as failed.
pub proof fn claims_are_counted_as_they_ended(
    uid: Seq<char>,
    title: Seq<char>,
    listing: crate::claim::Listing,
    price: crate::json::NumberView,
    e: ErrorView,
)
    ensures
        outcome_spec(crate::claim::claimed_report(uid, title)) == Outcome::Claimed,
        outcome_spec(crate::claim::already_owned_report(uid, title)) == Outcome::AlreadyOwned,
        outcome_spec(crate::claim::not_free_report(uid, listing, price)) == Outcome::SkippedPaid,
        outcome_spec(failed_entry_spec(uid, e)) == Outcome::Failed,
{
    lemma_entry_keys();
}

// ---------------------------------------------------------------------------
// What is read and what is counted
// ---------------------------------------------------------------------------

proof fn lemma_batch_keys()
    ensures
        "ok"@ != "results"@,
        "ok"@ != "meta"@,
        "ok"@ != "total"@,
        "ok"@ != "claimed"@,
        "ok"@ != "already_owned"@,
        "ok"@ != "skipped_paid"@,
        "ok"@ != "failed"@,
        "ok"@ != "uid"@,
        "ok"@ != "error"@,
        "ok"@ != "kind"@,
        "ok"@ != "message"@,
        "results"@ != "meta"@,
        "results"@ != "total"@,
        "results"@ != "claimed"@,
        "results"@ != "already_owned"@,
        "results"@ != "skipped_paid"@,
        "results"@ != "failed"@,
        "results"@ != "uid"@,
        "results"@ != "error"@,
        "results"@ != "kind"@,
        "results"@ != "message"@,
        "meta"@ != "total"@,
        "meta"@ != "claimed"@,
        "meta"@ != "already_owned"@,
        "meta"@ != "skipped_paid"@,
        "meta"@ != "failed"@,
        "meta"@ != "uid"@,
        "meta"@ != "error"@,
        "meta"@ != "kind"@,
        "meta"@ != "message"@,
        "total"@ != "claimed"@,
        "total"@ != "already_owned"@,
        "total"@ != "skipped_paid"@,
        "total"@ != "failed"@,
        "total"@ != "uid"@,
        "total"@ != "error"@,
        "total"@ != "kind"@,
        "total"@ != "message"@,
        "claimed"@ != "already_owned"@,
        "claimed"@ != "skipped_paid"@,
        "claimed"@ != "failed"@,
        "claimed"@ != "uid"@,
        "claimed"@ != "error"@,
        "claimed"@ != "kind"@,
        "claimed"@ != "message"@,
        "already_owned"@ != "skipped_paid"@,
        "already_owned"@ != "failed"@,
        "already_owned"@ != "uid"@,
        "already_owned"@ != "error"@,
        "already_owned"@ != "kind"@,
        "already_owned"@ != "message"@,
        "skipped_paid"@ != "failed"@,
        "skipped_paid"@ != "uid"@,
        "skipped_paid"@ != "error"@,
        "skipped_paid"@ != "kind"@,
        "skipped_paid"@ != "message"@,
        "failed"@ != "uid"@,
        "failed"@ != "error"@,
        "failed"@ != "kind"@,
        "failed"@ != "message"@,
        "uid"@ != "error"@,
        "uid"@ != "kind"@,
        "uid"@ != "message"@,
        "error"@ != "kind"@,
        "error"@ != "message"@,
        "kind"@ != "message"@,
{
    reveal_strlit("ok");
    reveal_strlit("results");
    reveal_strlit("meta");
    reveal_strlit("total");
    reveal_strlit("claimed");
    reveal_strlit("already_owned");
    reveal_strlit("skipped_paid");
    reveal_strlit("failed");
    reveal_strlit("uid");
    reveal_strlit("error");
    reveal_strlit("kind");
    reveal_strlit("message");
    assert("ok"@.len() == 2);
    assert("results"@.len() == 7);
    assert("meta"@.len() == 4);
    assert("total"@.len() == 5);
    assert("claimed"@.len() == 7);
    assert("already_owned"@.len() == 13);
    assert("skipped_paid"@.len() == 12);
    assert("failed"@.len() == 6);
    assert("uid"@.len() == 3);
    assert("error"@.len() == 5);
    assert("kind"@.len() == 4);
    assert("message"@.len() == 7);
    assert("results"@[0] != "claimed"@[0]);
    assert("results"@[0] != "message"@[0]);
    assert("meta"@[0] != "kind"@[0]);
    assert("total"@[0] != "error"@[0]);
    assert("claimed"@[0] != "message"@[0]);
}

/// A list's uids are its pieces without white space around them; an empty piece
/// is passed over, and the order is kept.
pub proof fn pieces_are_trimmed(a: Seq<Seq<char>>, b: Seq<Seq<char>>, piece: Seq<char>)
    ensures
        trimmed_nonempty(a + b) == trimmed_nonempty(a) + trimmed_nonempty(b),
        trimmed_nonempty(seq![piece]) == if trim_spec(piece).len() > 0 {
            seq![trim_spec(piece)]
        } else {
            Seq::empty()
        },
    decreases b.len(),
{
    assert(seq![piece].drop_last() =~= Seq::<Seq<char>>::empty());
    assert(trimmed_nonempty(seq![piece].drop_last()) =~= Seq::<Seq<char>>::empty());
    assert(trimmed_nonempty(seq![piece]) =~= if trim_spec(piece).len() > 0 {
        seq![trim_spec(piece)]
    } else {
        Seq::empty()
    });
    if b.len() == 0 {
        assert(a + b =~= a);
        assert(trimmed_nonempty(a) + trimmed_nonempty(b) =~= trimmed_nonempty(a));
    } else {
        pieces_are_trimmed(a, b.drop_last(), piece);
        assert((a + b).drop_last() =~= a + b.drop_last());
        assert((a + b).last() == b.last());
        assert(trimmed_nonempty(a + b) =~= trimmed_nonempty(a) + trimmed_nonempty(b));
    }
}

/// The uids of a JSON list are its items' uids, in their order: the field uid
/// where that is text, the item itself where it is text, and else none.
pub proof fn items_give_their_uid(a: Seq<JsonView>, b: Seq<JsonView>, item: JsonView)
    ensures
        item_uids(a + b) == item_uids(a) + item_uids(b),
        item_uids(seq![item]) == match item {
            JsonView::Str(s) => seq![s],
            _ => match get_spec(item, "uid"@) {
                Some(JsonView::Str(uid)) => seq![uid],
                _ => Seq::empty(),
            },
        },
    decreases b.len(),
{
    assert(seq![item].drop_last() =~= Seq::<JsonView>::empty());
    assert(item_uids(seq![item].drop_last()) =~= Seq::<Seq<char>>::empty());
    assert(item_uids(seq![item]) =~= match item {
        JsonView::Str(s) => seq![s],
        _ => match get_spec(item, "uid"@) {
            Some(JsonView::Str(uid)) => seq![uid],
            _ => Seq::empty(),
        },
    });
    if b.len() == 0 {
        assert(a + b =~= a);
        assert(item_uids(a) + item_uids(b) =~= item_uids(a));
    } else {
        items_give_their_uid(a, b.drop_last(), item);
        assert((a + b).drop_last() =~= a + b.drop_last());
        assert((a + b).last() == b.last());
        assert(item_uids(a + b) =~= item_uids(a) + item_uids(b));
    }
}

/// Standard input is read as a list of items, or as an object whose results are
/// one; anything else is refused.
pub proof fn input_is_a_list_or_holds_one(j: JsonView, items: Seq<JsonView>, message: Seq<char>)
    ensures
        stdin_uids_spec(Ok(JsonView::Array(items))) == Ok::<Seq<Seq<char>>, ErrorView>(
            item_uids(items),
        ),
        get_spec(j, "results"@) == Some(JsonView::Array(items)) ==> stdin_uids_spec(Ok(j)) == Ok::<
            Seq<Seq<char>>,
            ErrorView,
        >(item_uids(items)),
        !(j is Array) && !(get_spec(j, "results"@) matches Some(JsonView::Array(_)))
            ==> stdin_uids_spec(Ok(j)) matches Err(ErrorView::InvalidArgs(_)),
        stdin_uids_spec(Err(message)) matches Err(ErrorView::InvalidArgs(_)),
{
}

/// How an entry counts: by its fields ok, claimed and already_owned where they
/// are true, and by a reason that is not_free; each entry in one way only.
pub proof fn entries_count_by_their_fields(entry: JsonView)
    ensures
        outcome_spec(entry) == Outcome::Claimed <==> get_spec(entry, "ok"@) == Some(
            JsonView::Bool(true),
        ) && get_spec(entry, "claimed"@) == Some(JsonView::Bool(true)),
        outcome_spec(entry) == Outcome::AlreadyOwned <==> get_spec(entry, "ok"@) == Some(
            JsonView::Bool(true),
        ) && get_spec(entry, "claimed"@) != Some(JsonView::Bool(true)) && get_spec(
            entry,
            "already_owned"@,
        ) == Some(JsonView::Bool(true)),
        outcome_spec(entry) == Outcome::SkippedPaid <==> get_spec(entry, "ok"@) != Some(
            JsonView::Bool(true),
        ) && get_spec(entry, "reason"@) == Some(JsonView::Str("not_free"@)),
        outcome_spec(entry) == Outcome::Failed <==> get_spec(entry, "ok"@) != Some(
            JsonView::Bool(true),
        ) && get_spec(entry, "reason"@) != Some(JsonView::Str("not_free"@)),
{
}

/// The number of entries with an outcome is that among the one half and that
/// among the other; one entry counts once.
pub proof fn counts_add_up(
    a: Seq<JsonView>,
    b: Seq<JsonView>,
    entry: JsonView,
    outcome: Outcome,
)
    ensures
        count_outcomes(a + b, outcome) == count_outcomes(a, outcome) + count_outcomes(b, outcome),
        count_outcomes(seq![entry], outcome) == if outcome_spec(entry) == outcome {
            1nat
        } else {
            0nat
        },
    decreases b.len(),
{
    assert(seq![entry].drop_last() =~= Seq::<JsonView>::empty());
    assert(count_outcomes(seq![entry].drop_last(), outcome) == 0);
    if b.len() == 0 {
        assert(a + b =~= a);
    } else {
        counts_add_up(a, b.drop_last(), entry, outcome);
        assert((a + b).drop_last() =~= a + b.drop_last());
        assert((a + b).last() == b.last());
    }
}

/// A batch's report holds its entries as they are and the five numbers under
/// their names, and says that all went well exactly where nothing failed.
pub proof fn batches_report_their_numbers(entries: Seq<JsonView>, t: Tally)
    requires
        entries.len() <= u64::MAX,
    ensures
        get_spec(batch_report_spec(entries, t), "ok"@) == Some(JsonView::Bool(t.failed == 0)),
        get_spec(batch_report_spec(entries, t), "results"@) == Some(JsonView::Array(entries)),
        get_spec(batch_report_spec(entries, t), "meta"@) matches Some(meta) && {
            &&& get_spec(meta, "total"@) == Some(
                JsonView::Number(NumberView::Unsigned(entries.len() as u64)),
            )
            &&& get_spec(meta, "claimed"@) == Some(
                JsonView::Number(NumberView::Unsigned(t.claimed as u64)),
            )
            &&& get_spec(meta, "already_owned"@) == Some(
                JsonView::Number(NumberView::Unsigned(t.already_owned as u64)),
            )
            &&& get_spec(meta, "skipped_paid"@) == Some(
                JsonView::Number(NumberView::Unsigned(t.skipped_paid as u64)),
            )
            &&& get_spec(meta, "failed"@) == Some(
                JsonView::Number(NumberView::Unsigned(t.failed as u64)),
            )
        },
{
    lemma_batch_keys();
}

/// The entry of a claim that failed names the listing, and the error's kind and
/// message.
pub proof fn failures_are_entered_with_their_error(uid: Seq<char>, e: ErrorView)
    ensures
        get_spec(failed_entry_spec(uid, e), "ok"@) == Some(JsonView::Bool(false)),
        get_spec(failed_entry_spec(uid, e), "uid"@) == Some(JsonView::Str(uid)),
        get_spec(failed_entry_spec(uid, e), "error"@) matches Some(error) && get_spec(
            error,
            "kind"@,
        ) == Some(JsonView::Str(kind_spec(e))) && get_spec(error, "message"@) == Some(
            JsonView::Str(message_spec(e)),
        ),
{
    lemma_batch_keys();
}

/// Where a batch takes its uids from.
pub open spec fn input_mode_spec(args: ClaimBatchArgs) -> Result<SourceView, ErrorView> {
    match args.uids {
        Some(csv) => Ok(SourceView::List(csv@)),
        None => if args.stdin {
            Ok(SourceView::Lines)
        } else if args.from_stdin_json {
            Ok(SourceView::StdinJson)
        } else if args.from_library {
            Ok(SourceView::Library)
        } else {
            Err(
                ErrorView::InvalidArgs(
                    "no UIDs provided (use --uids, --stdin, --from-stdin-json, or --from-library)"@,
                ),
            )
        },
    }
}

/// A batch takes its uids from the list that is given, else from the one source
/// that is asked for; without any it is refused.
pub proof fn batches_have_one_source(args: ClaimBatchArgs)
    ensures
        args.uids matches Some(csv) ==> input_mode_spec(args) == Ok::<SourceView, ErrorView>(
            SourceView::List(csv@),
        ),
        args.uids is None ==> {
            &&& input_mode_spec(args) == Ok::<SourceView, ErrorView>(SourceView::Lines)
                <==> args.stdin
            &&& input_mode_spec(args) == Ok::<SourceView, ErrorView>(SourceView::StdinJson)
                <==> args.from_stdin_json && !args.stdin
            &&& input_mode_spec(args) == Ok::<SourceView, ErrorView>(SourceView::Library)
                <==> args.from_library && !args.stdin && !args.from_stdin_json
            &&& (input_mode_spec(args) matches Err(ErrorView::InvalidArgs(_))) <==> !args.stdin
                && !args.from_stdin_json && !args.from_library
        },
{
}

/// Whether a batch makes the stored library stale.
pub open spec fn invalidates_spec(entries: Seq<JsonView>) -> bool {
    count_outcomes(entries, Outcome::Claimed) > 0
}

/// What a batch ends with.
pub open spec fn batch_error_spec(entries: Seq<JsonView>) -> Option<ErrorView> {
    if count_outcomes(entries, Outcome::Failed) > 0 {
        Some(
            ErrorView::Generic(
                decimal_spec(count_outcomes(entries, Outcome::Failed)) + " of "@ + decimal_spec(
                    entries.len(),
                ) + " UIDs failed"@,
            ),
        )
    } else {
        None
    }
}

proof fn lemma_counted(entries: Seq<JsonView>, outcome: Outcome)
    ensures
        count_outcomes(entries, outcome) > 0 <==> exists|i: int|
            0 <= i < entries.len() && outcome_spec(#[trigger] entries[i]) == outcome,
    decreases entries.len(),
{
    if entries.len() > 0 {
        let head = entries.drop_last();
        lemma_counted(head, outcome);
        if outcome_spec(entries.last()) == outcome {
            assert(outcome_spec(entries[entries.len() - 1]) == outcome);
        }
        if exists|i: int| 0 <= i < head.len() && outcome_spec(#[trigger] head[i]) == outcome {
            let i = choose|i: int| 0 <= i < head.len() && outcome_spec(#[trigger] head[i]) == outcome;
            assert(entries[i] == head[i]);
        }
        if exists|i: int| 0 <= i < entries.len() && outcome_spec(#[trigger] entries[i]) == outcome {
            let i = choose|i: int|
                0 <= i < entries.len() && outcome_spec(#[trigger] entries[i]) == outcome;
            if i < head.len() {
                assert(head[i] == entries[i]);
            }
        }
    }
}

/// The stored library is stale exactly where something was claimed, and a batch
/// ends as a failure exactly where something failed.
pub proof fn batches_end_as_their_entries_did(entries: Seq<JsonView>)
    ensures
        invalidates_spec(entries) <==> exists|i: int|
            0 <= i < entries.len() && get_spec(#[trigger] entries[i], "ok"@) == Some(
                JsonView::Bool(true),
            ) && get_spec(entries[i], "claimed"@) == Some(JsonView::Bool(true)),
        batch_error_spec(entries) is Some <==> exists|i: int|
            0 <= i < entries.len() && get_spec(#[trigger] entries[i], "ok"@) != Some(
                JsonView::Bool(true),
            ) && get_spec(entries[i], "reason"@) != Some(JsonView::Str("not_free"@)),
        batch_error_spec(entries) matches Some(e) ==> e is Generic,
{
    lemma_counted(entries, Outcome::Claimed);
    lemma_counted(entries, Outcome::Failed);
    if invalidates_spec(entries) {
        let i = choose|i: int|
            0 <= i < entries.len() && outcome_spec(#[trigger] entries[i]) == Outcome::Claimed;
        assert(get_spec(entries[i], "ok"@) == Some(JsonView::Bool(true)));
    }
    if exists|i: int|
        0 <= i < entries.len() && get_spec(#[trigger] entries[i], "ok"@) == Some(
            JsonView::Bool(true),
        ) && get_spec(entries[i], "claimed"@) == Some(JsonView::Bool(true)) {
        let i = choose|i: int|
            0 <= i < entries.len() && get_spec(#[trigger] entries[i], "ok"@) == Some(
                JsonView::Bool(true),
            ) && get_spec(entries[i], "claimed"@) == Some(JsonView::Bool(true));
        assert(outcome_spec(entries[i]) == Outcome::Claimed);
    }
    if batch_error_spec(entries) is Some {
        let i = choose|i: int|
            0 <= i < entries.len() && outcome_spec(#[trigger] entries[i]) == Outcome::Failed;
        assert(get_spec(entries[i], "ok"@) != Some(JsonView::Bool(true)));
    }
    if exists|i: int|
        0 <= i < entries.len() && get_spec(#[trigger] entries[i], "ok"@) != Some(
            JsonView::Bool(true),
        ) && get_spec(entries[i], "reason"@) != Some(JsonView::Str("not_free"@)) {
        let i = choose|i: int|
            0 <= i < entries.len() && get_spec(#[trigger] entries[i], "ok"@) != Some(
                JsonView::Bool(true),
            ) && get_spec(entries[i], "reason"@) != Some(JsonView::Str("not_free"@));
        assert(outcome_spec(entries[i]) == Outcome::Failed);
    }
}

/// A tally counts each outcome under its own name.
pub proof fn tallies_count_by_name(t: Tally, entry: JsonView)
    requires
        tallies(t, seq![entry]),
    ensures
        t.claimed == (if outcome_spec(entry) == Outcome::Claimed {
            1u32
        } else {
            0u32
        }),
        t.already_owned == (if outcome_spec(entry) == Outcome::AlreadyOwned {
            1u32
        } else {
            0u32
        }),
        t.skipped_paid == (if outcome_spec(entry) == Outcome::SkippedPaid {
            1u32
        } else {
            0u32
        }),
        t.failed == (if outcome_spec(entry) == Outcome::Failed {
            1u32
        } else {
            0u32
        }),
{
    counts_add_up(Seq::empty(), Seq::empty(), entry, Outcome::Claimed);
    counts_add_up(Seq::empty(), Seq::empty(), entry, Outcome::AlreadyOwned);
    counts_add_up(Seq::empty(), Seq::empty(), entry, Outcome::SkippedPaid);
    counts_add_up(Seq::empty(), Seq::empty(), entry, Outcome::Failed);
}

} // verus!
