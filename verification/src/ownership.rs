//! Who owns what: the marketplace's answers on many listings at once.
use crate::args::OwnershipArgs;
use crate::download_resolver::FabLibrary;
use crate::error::{ErrorView, FabCliError};
use crate::json;
use crate::json::{
    field_spec, fields_view, find_field, get_bool_spec, get_str_spec, items_view,
    lemma_fields_concat, lemma_fields_push, lemma_items_index, lemma_items_push, number_view,
    parsed_json, str_view, Json, JsonView,
};
use crate::text;
use crate::text::{decimal_spec, join_spec, lookup_spec, opt_text, preview_spec, texts};
use vstd::prelude::*;

verus! {

/// How many listings one request can ask for; the service refuses more.
pub const MAX_BULK_STATES: usize = 24;

/// How many listings of the library the program asks for at once.
pub const INTERNAL_LIBRARY_PAGE_SIZE: u32 = 500;

/// The query that asks for one listing.
pub open spec fn listing_queries(uids: Seq<Seq<char>>) -> Seq<Seq<char>> {
    uids.map_values(|u: Seq<char>| "listingIds="@ + u)
}

/// The path that asks for the state of `uids`.
pub open spec fn bulk_path_spec(uids: Seq<Seq<char>>) -> Seq<char> {
    "/i/users/me/listings-states?"@ + join_spec(listing_queries(uids), "&"@)
}

/// The path that asks for the state of `uids`: each has a query parameter of
/// its own, in order.
pub fn build_bulk_states_path(uids: &Vec<String>) -> (r: String)
    ensures
        r@ == bulk_path_spec(texts(uids@)),
{
    let mut queries: Vec<String> = Vec::new();
    let mut i: usize = 0;
    let ghost whole = listing_queries(texts(uids@));
    while i < uids.len()
        invariant
            i <= uids@.len(),
            whole == listing_queries(texts(uids@)),
            texts(queries@) == whole.take(i as int),
        decreases uids.len() - i,
    {
        let mut q = "listingIds=".to_owned();
        q.append(uids[i].as_str());
        proof {
            text::lemma_texts_push(queries@, q);
            assert(whole.take(i + 1) =~= whole.take(i as int).push(q@));
        }
        queries.push(q);
        i = i + 1;
    }
    assert(whole.take(uids@.len() as int) =~= whole);
    let mut path = "/i/users/me/listings-states?".to_owned();
    path.append(text::join(&queries, "&").as_str());
    path
}

/// `uids` in groups of the size that one request can ask for, in order.
pub open spec fn bulk_chunks_spec(uids: Seq<Seq<char>>) -> Seq<Seq<Seq<char>>>
    decreases uids.len(),
{
    if uids.len() == 0 {
        Seq::empty()
    } else if uids.len() <= MAX_BULK_STATES {
        seq![uids]
    } else {
        seq![uids.take(MAX_BULK_STATES as int)] + bulk_chunks_spec(
            uids.skip(MAX_BULK_STATES as int),
        )
    }
}

/// The texts of a list of groups.
pub open spec fn groups_view(groups: Seq<Vec<String>>) -> Seq<Seq<Seq<char>>> {
    groups.map_values(|g: Vec<String>| texts(g@))
}

/// `uids` in groups of the size that one request can ask for, in order.
pub fn bulk_chunks(uids: &Vec<String>) -> (r: Vec<Vec<String>>)
    ensures
        groups_view(r@) == bulk_chunks_spec(texts(uids@)),
{
    let mut groups: Vec<Vec<String>> = Vec::new();
    let mut i: usize = 0;
    let ghost all = texts(uids@);
    assert(all.skip(0) =~= all);
    assert(groups_view(groups@) + bulk_chunks_spec(all.skip(0)) =~= bulk_chunks_spec(all));
    while i < uids.len()
        invariant
            i <= uids@.len(),
            all == texts(uids@),
            groups_view(groups@) + bulk_chunks_spec(all.skip(i as int)) == bulk_chunks_spec(all),
        decreases uids.len() - i,
    {
        let end: usize = if uids.len() - i <= MAX_BULK_STATES {
            uids.len()
        } else {
            i + MAX_BULK_STATES
        };
        let mut group: Vec<String> = Vec::new();
        let mut j: usize = i;
        assert(texts(group@) =~= all.subrange(i as int, j as int));
        while j < end
            invariant
                i <= j <= end <= uids@.len(),
                all == texts(uids@),
                texts(group@) == all.subrange(i as int, j as int),
            decreases end - j,
        {
            let uid = uids[j].clone();
            proof {
                text::lemma_texts_push(group@, uid);
                assert(all.subrange(i as int, j + 1) =~= all.subrange(i as int, j as int).push(
                    uid@,
                ));
            }
            group.push(uid);
            j = j + 1;
        }
        proof {
            let rest = all.skip(i as int);
            if uids@.len() - i <= MAX_BULK_STATES {
                assert(all.subrange(i as int, end as int) =~= rest);
                assert(all.skip(end as int) =~= Seq::<Seq<char>>::empty());
            } else {
                assert(all.subrange(i as int, end as int) =~= rest.take(MAX_BULK_STATES as int));
                assert(all.skip(end as int) =~= rest.skip(MAX_BULK_STATES as int));
            }
            assert(bulk_chunks_spec(rest) =~= seq![texts(group@)] + bulk_chunks_spec(
                all.skip(end as int),
            ));
        }
        let ghost prior = groups@;
        groups.push(group);
        assert(groups_view(groups@) =~= groups_view(prior).push(texts(group@)));
        assert(groups_view(groups@) + bulk_chunks_spec(all.skip(end as int)) =~= groups_view(
            prior,
        ) + (seq![texts(group@)] + bulk_chunks_spec(all.skip(end as int))));
        i = end;
    }
    assert(all.skip(i as int) =~= Seq::<Seq<char>>::empty());
    assert(groups_view(groups@) + bulk_chunks_spec(all.skip(i as int)) =~= groups_view(groups@));
    groups
}

/// All groups one behind the other.
pub open spec fn flatten(groups: Seq<Seq<Seq<char>>>) -> Seq<Seq<char>>
    decreases groups.len(),
{
    if groups.len() == 0 {
        Seq::empty()
    } else {
        groups[0] + flatten(groups.skip(1))
    }
}

/// The groups hold every listing once and in order, and none holds more than
/// the service takes; there are no more of them than that needs.
pub proof fn bulk_chunks_keep_order(uids: Seq<Seq<char>>)
    ensures
        flatten(bulk_chunks_spec(uids)) == uids,
        bulk_chunks_spec(uids).len() == (uids.len() + MAX_BULK_STATES - 1) / MAX_BULK_STATES as int,
        forall|i: int|
            0 <= i < bulk_chunks_spec(uids).len() ==> 0 < (#[trigger] bulk_chunks_spec(
                uids,
            )[i]).len() <= MAX_BULK_STATES,
    decreases uids.len(),
{
    let groups = bulk_chunks_spec(uids);
    if uids.len() == 0 {
        assert(flatten(groups) =~= uids);
    } else if uids.len() <= MAX_BULK_STATES {
        assert(groups.skip(1) =~= Seq::<Seq<Seq<char>>>::empty());
        assert(flatten(groups.skip(1)) =~= Seq::<Seq<char>>::empty());
        assert(flatten(groups) =~= uids);
    } else {
        let rest = uids.skip(MAX_BULK_STATES as int);
        bulk_chunks_keep_order(rest);
        assert(groups.skip(1) =~= bulk_chunks_spec(rest));
        assert(flatten(groups) =~= uids);
        assert forall|i: int| 0 <= i < groups.len() implies 0 < (#[trigger] groups[i]).len()
            <= MAX_BULK_STATES by {
            if i > 0 {
                assert(groups[i] == bulk_chunks_spec(rest)[i - 1]);
            }
        }
    }
}

/// The states that the entries of an answer give, by listing; an entry without
/// a listing gives none.
pub open spec fn states_of_items(items: Seq<JsonView>) -> Map<Seq<char>, JsonView>
    decreases items.len(),
{
    if items.len() == 0 {
        Map::empty()
    } else {
        match get_str_spec(items.last(), "uid"@) {
            Some(uid) => states_of_items(items.drop_last()).insert(uid, items.last()),
            None => states_of_items(items.drop_last()),
        }
    }
}

/// The states that an answer gives: none where it is no list.
pub open spec fn states_of_answer(answer: Result<JsonView, Seq<char>>) -> Map<
    Seq<char>,
    JsonView,
> {
    match answer {
        Ok(JsonView::Array(items)) => states_of_items(items),
        _ => Map::empty(),
    }
}

/// The states that an answer, read as JSON, gives by listing.
pub fn states_from(answer: &Result<Json, String>) -> (r: Vec<(String, Json)>)
    ensures
        fields_view(r@) == states_of_answer(json::parse_view(*answer)),
{
    let mut out: Vec<(String, Json)> = Vec::new();
    match answer {
        Ok(Json::Array(items)) => {
            let mut i: usize = 0;
            let ghost views = items_view(items@);
            proof {
                lemma_items_index(items@);
            }
            while i < items.len()
                invariant
                    i <= items@.len(),
                    views.len() == items@.len(),
                    forall|j: int| 0 <= j < items@.len() ==> #[trigger] views[j] == items@[j]@,
                    fields_view(out@) == states_of_items(views.take(i as int)),
                decreases items.len() - i,
            {
                assert(views.take(i + 1).drop_last() =~= views.take(i as int));
                assert(views.take(i + 1).last() == items@[i as int]@);
                match items[i].get_str("uid") {
                    Some(uid) => {
                        let key = uid.to_owned();
                        let entry = items[i].copy();
                        proof {
                            lemma_fields_push(out@, key, entry);
                        }
                        out.push((key, entry));
                    },
                    None => {},
                }
                i = i + 1;
            }
            assert(views.take(views.len() as int) =~= views);
            out
        },
        _ => out,
    }
}

/// The states that the body of an answer gives, by listing. A body that is no
/// JSON list gives none.
pub fn parse_bulk_states(body: &str) -> (r: Vec<(String, Json)>)
    ensures
        fields_view(r@) == states_of_answer(parsed_json(body@)),
{
    let answer = json::parse(body);
    states_from(&answer)
}

/// The error for an answer that is no success.
pub open spec fn bulk_error(status: u16, body: Seq<char>) -> ErrorView {
    ErrorView::Generic(
        "bulk listings-states returned HTTP "@ + decimal_spec(status as nat) + ": "@
            + preview_spec(body, 200),
    )
}

/// Takes up the answer to the request for one group: the states so far and
/// those of the answer, or the error for an answer that is no success.
pub fn absorb_states(states: Vec<(String, Json)>, status: u16, body: &str) -> (r: Result<
    Vec<(String, Json)>,
    FabCliError,
>)
    ensures
        r is Ok <==> 200 <= status < 300,
        r matches Ok(all) ==> fields_view(all@) == fields_view(states@).union_prefer_right(
            states_of_answer(parsed_json(body@)),
        ),
        r matches Err(e) ==> e@ == bulk_error(status, body@),
{
    if !(200 <= status && status < 300) {
        let mut m = "bulk listings-states returned HTTP ".to_owned();
        m.append(text::decimal(status as u64).as_str());
        m.append(": ");
        m.append(text::preview(body, 200).as_str());
        return Err(FabCliError::Generic(m));
    }
    let mut all = states;
    let mut more = parse_bulk_states(body);
    proof {
        lemma_fields_concat(all@, more@);
    }
    all.append(&mut more);
    Ok(all)
}

/// A state says that the listing is owned.
pub open spec fn is_acquired(state: JsonView) -> bool {
    get_bool_spec(state, "acquired"@) == Some(true)
}

/// The listing `uid` is owned by what `states` say.
pub open spec fn is_owned(states: Map<Seq<char>, JsonView>, uid: Seq<char>) -> bool {
    states.dom().contains(uid) && is_acquired(states[uid])
}

proof fn lemma_key_listed(fields: Seq<(String, Json)>, key: Seq<char>)
    requires
        fields_view(fields).dom().contains(key),
    ensures
        exists|i: int| 0 <= i < fields.len() && (#[trigger] fields[i]).0@ == key,
    decreases fields.len(),
{
    if fields.last().0@ == key {
        assert(fields[fields.len() - 1].0@ == key);
    } else {
        lemma_key_listed(fields.drop_last(), key);
        let i = choose|i: int|
            0 <= i < fields.drop_last().len() && (#[trigger] fields.drop_last()[i]).0@ == key;
        assert(fields[i].0@ == key);
    }
}

/// The listings that are owned by what `states` say.
pub fn owned_uids(states: &Vec<(String, Json)>) -> (r: Vec<String>)
    ensures
        forall|uid: Seq<char>| #[trigger]
            texts(r@).contains(uid) <==> is_owned(fields_view(states@), uid),
        forall|uid: Seq<char>| #[trigger]
            texts(r@).contains(uid) <==> fields_view(states@).dom().contains(uid)
                && json::get_spec(fields_view(states@)[uid], "acquired"@) == Some(
                JsonView::Bool(true),
            ),
{
    let mut out: Vec<String> = Vec::new();
    let mut i: usize = 0;
    let ghost map = fields_view(states@);
    while i < states.len()
        invariant
            i <= states@.len(),
            map == fields_view(states@),
            forall|uid: Seq<char>| #[trigger] texts(out@).contains(uid) ==> is_owned(map, uid),
            forall|j: int|
                0 <= j < i && is_owned(map, (#[trigger] states@[j]).0@) ==> texts(out@).contains(
                    states@[j].0@,
                ),
        decreases states.len() - i,
    {
        let uid = &states[i].0;
        let acquired = match find_field(states, uid.as_str()) {
            Some(state) => state.get_bool("acquired"),
            None => None,
        };
        let ghost prior = texts(out@);
        match acquired {
            Some(true) => {
                let item = uid.clone();
                proof {
                    text::lemma_texts_push(out@, item);
                    assert(prior.push(item@)[prior.len() as int] == item@);
                    assert forall|x: Seq<char>| #[trigger] prior.push(item@).contains(
                        x,
                    ) implies prior.contains(x) || x == item@ by {
                        let k = choose|k: int|
                            0 <= k < prior.push(item@).len() && prior.push(item@)[k] == x;
                        if k < prior.len() {
                            assert(prior[k] == x);
                        }
                    }
                    assert forall|x: Seq<char>| prior.contains(x) implies #[trigger] prior.push(
                        item@,
                    ).contains(x) by {
                        let k = choose|k: int| 0 <= k < prior.len() && prior[k] == x;
                        assert(prior.push(item@)[k] == x);
                    }
                }
                out.push(item);
            },
            _ => {},
        }
        i = i + 1;
    }
    proof {
        assert forall|uid: Seq<char>| is_owned(map, uid) implies #[trigger] texts(
            out@,
        ).contains(uid) by {
            lemma_key_listed(states@, uid);
            let k = choose|k: int| 0 <= k < states@.len() && (#[trigger] states@[k]).0@ == uid;
            assert(texts(out@).contains(states@[k].0@));
        }
    }
    out
}

/// What is reported of the listing `uid`: owned or not, and the state where
/// the service knows the listing.
pub open spec fn ownership_row_spec(uid: Seq<char>, states: Map<Seq<char>, JsonView>) -> JsonView {
    match field_spec(states, uid) {
        Some(state) => JsonView::Object(
            map![
                "listingUid"@ => str_view(uid),
                "owned"@ => JsonView::Bool(is_acquired(state)),
                "source"@ => str_view("fab_session"@),
                "state"@ => state,
            ],
        ),
        None => JsonView::Object(
            map![
                "listingUid"@ => str_view(uid),
                "owned"@ => JsonView::Bool(false),
                "source"@ => str_view("fab_session"@),
            ],
        ),
    }
}

/// What is reported of the listing `uid`. A listing that the service does not
/// know is not owned, and has no state.
pub fn build_ownership_row(uid: &str, states: &Vec<(String, Json)>) -> (r: Json)
    ensures
        r@ == ownership_row_spec(uid@, fields_view(states@)),
{
    match find_field(states, uid) {
        Some(state) => {
            let owned = match state.get_bool("acquired") {
                Some(b) => b,
                None => false,
            };
            Json::object().with("listingUid", Json::text(uid)).with(
                "owned",
                Json::Bool(owned),
            ).with("source", Json::text("fab_session")).with("state", state.copy())
        },
        None => Json::object().with("listingUid", Json::text(uid)).with(
            "owned",
            Json::Bool(false),
        ).with("source", Json::text("fab_session")),
    }
}

/// A listing is reported as owned exactly where the service says that it was
/// acquired, and with a state exactly where the service knows it.
pub proof fn ownership_row_follows_the_service(uid: Seq<char>, states: Map<Seq<char>, JsonView>)
    ensures
        get_bool_spec(ownership_row_spec(uid, states), "owned"@) == Some(is_owned(states, uid)),
        json::get_spec(ownership_row_spec(uid, states), "state"@) == field_spec(states, uid),
{
    reveal_strlit("listingUid");
    reveal_strlit("owned");
    reveal_strlit("source");
    reveal_strlit("state");
    assert("listingUid"@.len() == 10);
    assert("owned"@.len() == 5);
    assert("source"@.len() == 6);
    assert("state"@.len() == 5);
    assert("owned"@[0] != "state"@[0]);
}

/// The rows for `uids`, in order.
pub open spec fn ownership_rows(uids: Seq<Seq<char>>, states: Map<Seq<char>, JsonView>) -> Seq<
    JsonView,
> {
    uids.map_values(|u: Seq<char>| ownership_row_spec(u, states))
}

/// The answer to a question on ownership: a list with a total where a list was
/// asked for, else the one row.
pub open spec fn ownership_report_spec(
    uids: Seq<Seq<char>>,
    states: Map<Seq<char>, JsonView>,
    batch: bool,
) -> JsonView {
    if batch {
        JsonView::Object(
            map![
                "ok"@ => JsonView::Bool(true),
                "results"@ => JsonView::Array(ownership_rows(uids, states)),
                "meta"@ => JsonView::Object(map!["total"@ => number_view(uids.len() as u64)]),
            ],
        )
    } else {
        ownership_row_spec(uids[0], states)
    }
}

/// The answer to a question on the ownership of `uids`.
pub fn ownership_report(uids: &Vec<String>, states: &Vec<(String, Json)>, batch: bool) -> (r: Json)
    requires
        batch || uids@.len() > 0,
    ensures
        r@ == ownership_report_spec(texts(uids@), fields_view(states@), batch),
{
    if !batch {
        return build_ownership_row(uids[0].as_str(), states);
    }
    let mut rows: Vec<Json> = Vec::new();
    let mut i: usize = 0;
    let ghost whole = ownership_rows(texts(uids@), fields_view(states@));
    while i < uids.len()
        invariant
            i <= uids@.len(),
            whole == ownership_rows(texts(uids@), fields_view(states@)),
            items_view(rows@) == whole.take(i as int),
        decreases uids.len() - i,
    {
        let row = build_ownership_row(uids[i].as_str(), states);
        proof {
            lemma_items_push(rows@, row);
            assert(whole.take(i + 1) =~= whole.take(i as int).push(row@));
        }
        rows.push(row);
        i = i + 1;
    }
    assert(whole.take(uids@.len() as int) =~= whole);
    Json::object().with("ok", Json::Bool(true)).with("results", Json::Array(rows)).with(
        "meta",
        Json::object().with("total", Json::number(uids.len() as u64)),
    )
}

/// The listing that a group of attributes names first.
pub open spec fn first_identifier(groups: Seq<Vec<(String, String)>>) -> Option<Seq<char>>
    decreases groups.len(),
{
    if groups.len() == 0 {
        None
    } else {
        match lookup_spec(groups[0]@, "ListingIdentifier"@) {
            Some(v) => Some(v),
            None => first_identifier(groups.skip(1)),
        }
    }
}

/// The listings of those of the library's entries that name one, in order.
pub open spec fn library_uids_spec(
    results: Seq<crate::download_resolver::FabAsset>,
) -> Seq<Seq<char>>
    decreases results.len(),
{
    if results.len() == 0 {
        Seq::empty()
    } else {
        match first_identifier(results.last().custom_attributes@) {
            Some(uid) => library_uids_spec(results.drop_last()).push(uid),
            None => library_uids_spec(results.drop_last()),
        }
    }
}

fn find_identifier(groups: &Vec<Vec<(String, String)>>) -> (r: Option<String>)
    ensures
        opt_text(r) == first_identifier(groups@),
{
    let mut i: usize = 0;
    assert(groups@.skip(0) =~= groups@);
    while i < groups.len()
        invariant
            i <= groups@.len(),
            first_identifier(groups@) == first_identifier(groups@.skip(i as int)),
        decreases groups.len() - i,
    {
        match text::lookup(&groups[i], "ListingIdentifier") {
            Some(v) => {
                return Some(v);
            },
            None => {},
        }
        assert(groups@.skip(i as int).skip(1) =~= groups@.skip(i + 1));
        i = i + 1;
    }
    None
}

/// The listings in the library: of each entry the first `ListingIdentifier`
/// among its attributes; an entry without one is left out.
pub fn uids_from_library(library: &FabLibrary) -> (r: Vec<String>)
    ensures
        texts(r@) == library_uids_spec(library.results@),
{
    let results = &library.results;
    let mut out: Vec<String> = Vec::new();
    let mut i: usize = 0;
    assert(texts(out@) =~= library_uids_spec(results@.take(0)));
    while i < results.len()
        invariant
            i <= results@.len(),
            *results == library.results,
            texts(out@) == library_uids_spec(results@.take(i as int)),
        decreases results.len() - i,
    {
        assert(results@.take(i + 1).drop_last() =~= results@.take(i as int));
        assert(results@.take(i + 1).last() == results@[i as int]);
        match find_identifier(&results[i].custom_attributes) {
            Some(uid) => {
                proof {
                    text::lemma_texts_push(out@, uid);
                }
                out.push(uid);
            },
            None => {},
        }
        i = i + 1;
    }
    assert(results@.take(results@.len() as int) =~= results@);
    out
}

/// Where the listings of a question on ownership come from.
#[derive(Debug)]
pub enum OwnershipSource {
    /// The comma-separated text.
    List(String),
    /// Lines of standard input.
    Lines,
    /// The library.
    Library,
    /// One listing, given or read as a line.
    One,
}

/// The mathematical value of an [`OwnershipSource`].
pub enum OwnershipSourceView {
    List(Seq<char>),
    Lines,
    Library,
    One,
}

impl View for OwnershipSource {
    type V = OwnershipSourceView;

    open spec fn view(&self) -> OwnershipSourceView {
        match self {
            OwnershipSource::List(s) => OwnershipSourceView::List(s@),
            OwnershipSource::Lines => OwnershipSourceView::Lines,
            OwnershipSource::Library => OwnershipSourceView::Library,
            OwnershipSource::One => OwnershipSourceView::One,
        }
    }
}

/// Where the listings of a question on ownership come from, and whether the
/// answer is a list.
pub fn ownership_source(args: &OwnershipArgs) -> (r: (OwnershipSource, bool))
    ensures
        r.0@ == ownership_source_spec(*args),
        r.1 == !(r.0@ is One),
{
    if let Some(csv) = &args.batch {
        return (OwnershipSource::List(csv.clone()), true);
    }
    if args.from_stdin {
        return (OwnershipSource::Lines, true);
    }
    if args.from_library {
        return (OwnershipSource::Library, true);
    }
    (OwnershipSource::One, false)
}

// ---------------------------------------------------------------------------
// What the service's answers mean
// ---------------------------------------------------------------------------

proof fn lemma_row_keys()
    ensures
        "listingUid"@ != "owned"@,
        "listingUid"@ != "source"@,
        "listingUid"@ != "state"@,
        "listingUid"@ != "ok"@,
        "listingUid"@ != "results"@,
        "listingUid"@ != "meta"@,
        "listingUid"@ != "total"@,
        "owned"@ != "source"@,
        "owned"@ != "state"@,
        "owned"@ != "ok"@,
        "owned"@ != "results"@,
        "owned"@ != "meta"@,
        "owned"@ != "total"@,
        "source"@ != "state"@,
        "source"@ != "ok"@,
        "source"@ != "results"@,
        "source"@ != "meta"@,
        "source"@ != "total"@,
        "state"@ != "ok"@,
        "state"@ != "results"@,
        "state"@ != "meta"@,
        "state"@ != "total"@,
        "ok"@ != "results"@,
        "ok"@ != "meta"@,
        "ok"@ != "total"@,
        "results"@ != "meta"@,
        "results"@ != "total"@,
        "meta"@ != "total"@,
{
    reveal_strlit("listingUid");
    reveal_strlit("owned");
    reveal_strlit("source");
    reveal_strlit("state");
    reveal_strlit("ok");
    reveal_strlit("results");
    reveal_strlit("meta");
    reveal_strlit("total");
    assert("listingUid"@.len() == 10);
    assert("owned"@.len() == 5);
    assert("source"@.len() == 6);
    assert("state"@.len() == 5);
    assert("ok"@.len() == 2);
    assert("results"@.len() == 7);
    assert("meta"@.len() == 4);
    assert("total"@.len() == 5);
    assert("owned"@[0] != "state"@[0]);
    assert("owned"@[0] != "total"@[0]);
    assert("state"@[0] != "total"@[0]);
}

/// A row says that a listing is owned exactly where the service has a state for
/// it whose field acquired is true; no other field of the state counts.
pub proof fn rows_say_owned_where_acquired(uid: Seq<char>, states: Map<Seq<char>, JsonView>)
    ensures
        get_bool_spec(ownership_row_spec(uid, states), "owned"@) == Some(
            states.dom().contains(uid) && get_bool_spec(states[uid], "acquired"@) == Some(true),
        ),
        json::get_spec(ownership_row_spec(uid, states), "owned"@) == Some(
            JsonView::Bool(
                states.dom().contains(uid) && json::get_spec(states[uid], "acquired"@) == Some(
                    JsonView::Bool(true),
                ),
            ),
        ),
        json::get_spec(ownership_row_spec(uid, states), "listingUid"@) == Some(JsonView::Str(uid)),
        json::get_spec(ownership_row_spec(uid, states), "source"@) == Some(
            JsonView::Str("fab_session"@),
        ),
        states.dom().contains(uid) ==> json::get_spec(ownership_row_spec(uid, states), "state"@)
            == Some(states[uid]),
        !states.dom().contains(uid) ==> json::get_spec(ownership_row_spec(uid, states), "state"@)
            is None,
{
    lemma_row_keys();
}

/// A listing is owned exactly where the service has a state for it whose field
/// acquired is true.
pub proof fn owned_is_acquired(states: Map<Seq<char>, JsonView>, uid: Seq<char>)
    ensures
        is_owned(states, uid) <==> states.dom().contains(uid) && json::get_spec(
            states[uid],
            "acquired"@,
        ) == Some(JsonView::Bool(true)),
{
}

/// A report on several listings has a row for each, in their order, and says how
/// many they are; a report on one is its row.
pub proof fn reports_have_a_row_per_listing(
    uids: Seq<Seq<char>>,
    states: Map<Seq<char>, JsonView>,
    i: int,
)
    requires
        0 <= i < uids.len() <= u64::MAX,
    ensures
        json::get_spec(ownership_report_spec(uids, states, true), "ok"@) == Some(
            JsonView::Bool(true),
        ),
        json::get_spec(ownership_report_spec(uids, states, true), "results"@) matches Some(
            JsonView::Array(rows),
        ) && rows.len() == uids.len() && json::get_spec(rows[i], "listingUid"@) == Some(
            JsonView::Str(uids[i]),
        ) && json::get_spec(rows[i], "owned"@) == Some(
            JsonView::Bool(
                states.dom().contains(uids[i]) && json::get_spec(states[uids[i]], "acquired"@)
                    == Some(JsonView::Bool(true)),
            ),
        ),
        json::get_spec(ownership_report_spec(uids, states, true), "meta"@) matches Some(meta)
            && json::get_spec(meta, "total"@) == Some(
            JsonView::Number(json::NumberView::Unsigned(uids.len() as u64)),
        ),
        json::get_spec(ownership_report_spec(uids, states, false), "listingUid"@) == Some(
            JsonView::Str(uids[0]),
        ),
        json::get_spec(ownership_report_spec(uids, states, false), "owned"@) == Some(
            JsonView::Bool(
                states.dom().contains(uids[0]) && json::get_spec(states[uids[0]], "acquired"@)
                    == Some(JsonView::Bool(true)),
            ),
        ),
{
    lemma_row_keys();
}

/// The state of a listing is the last item of the answer that has its uid.
pub proof fn states_are_found_by_uid(items: Seq<JsonView>, k: int, uid: Seq<char>)
    requires
        0 <= k < items.len(),
        json::get_spec(items[k], "uid"@) == Some(JsonView::Str(uid)),
        forall|j: int|
            k < j < items.len() ==> json::get_spec(#[trigger] items[j], "uid"@) != Some(
                JsonView::Str(uid),
            ),
    ensures
        states_of_answer(Ok(JsonView::Array(items))).dom().contains(uid),
        states_of_answer(Ok(JsonView::Array(items)))[uid] == items[k],
    decreases items.len(),
{
    if k < items.len() - 1 {
        let head = items.drop_last();
        assert(json::get_spec(items[items.len() - 1], "uid"@) != Some(JsonView::Str(uid)));
        assert forall|j: int| k < j < head.len() implies json::get_spec(#[trigger] head[j], "uid"@)
            != Some(JsonView::Str(uid)) by {
            assert(head[j] == items[j]);
        }
        assert(head[k] == items[k]);
        states_are_found_by_uid(head, k, uid);
    }
}

/// A listing that no item of the answer is of has no state, and an answer that
/// is no list has none for any.
pub proof fn other_listings_have_no_state(
    items: Seq<JsonView>,
    uid: Seq<char>,
    other: JsonView,
    message: Seq<char>,
)
    requires
        forall|j: int|
            0 <= j < items.len() ==> json::get_spec(#[trigger] items[j], "uid"@) != Some(
                JsonView::Str(uid),
            ),
        !(other is Array),
    ensures
        !states_of_answer(Ok(JsonView::Array(items))).dom().contains(uid),
        !states_of_answer(Ok(other)).dom().contains(uid),
        !states_of_answer(Err(message)).dom().contains(uid),
    decreases items.len(),
{
    if items.len() > 0 {
        let head = items.drop_last();
        assert(json::get_spec(items[items.len() - 1], "uid"@) != Some(JsonView::Str(uid)));
        assert forall|j: int| 0 <= j < head.len() implies json::get_spec(#[trigger] head[j], "uid"@)
            != Some(JsonView::Str(uid)) by {
            assert(head[j] == items[j]);
        }
        other_listings_have_no_state(head, uid, other, message);
    }
}

/// A request for the states of several listings names each in a parameter of
/// its own, in their order.
pub proof fn requests_name_every_listing(uids: Seq<Seq<char>>, uid: Seq<char>)
    ensures
        bulk_path_spec(seq![uid]) == "/i/users/me/listings-states?"@ + ("listingIds="@ + uid),
        uids.len() > 0 ==> bulk_path_spec(uids.push(uid)) == bulk_path_spec(uids) + "&"@ + (
        "listingIds="@ + uid),
{
    assert(listing_queries(seq![uid]) =~= seq!["listingIds="@ + uid]);
    if uids.len() > 0 {
        let queries = listing_queries(uids);
        let grown = listing_queries(uids.push(uid));
        assert(grown.drop_last() =~= queries);
        assert(grown.last() == "listingIds="@ + uid);
        assert(bulk_path_spec(uids.push(uid)) =~= bulk_path_spec(uids) + "&"@ + ("listingIds="@
            + uid));
    }
}

/// Listings are asked for in groups of twenty-four; only the last may be
/// smaller.
pub proof fn groups_are_filled(uids: Seq<Seq<char>>, i: int)
    requires
        0 <= i < bulk_chunks_spec(uids).len(),
    ensures
        i < bulk_chunks_spec(uids).len() - 1 ==> bulk_chunks_spec(uids)[i].len() == 24,
        0 < bulk_chunks_spec(uids)[i].len() <= 24,
        forall|j: int|
            0 <= j < bulk_chunks_spec(uids)[i].len() ==> #[trigger] bulk_chunks_spec(uids)[i][j]
                == uids[24 * i + j],
    decreases uids.len(),
{
    if uids.len() > 24 && i > 0 {
        let rest = uids.skip(24);
        assert(bulk_chunks_spec(uids)[i] == bulk_chunks_spec(rest)[i - 1]);
        groups_are_filled(rest, i - 1);
        let group = bulk_chunks_spec(uids)[i];
        assert forall|j: int| 0 <= j < group.len() implies #[trigger] group[j] == uids[24 * i
            + j] by {
            assert(bulk_chunks_spec(rest)[i - 1][j] == rest[24 * (i - 1) + j]);
            lemma_group_range(rest, i - 1, j);
        }
    }
}

proof fn lemma_group_range(uids: Seq<Seq<char>>, i: int, j: int)
    requires
        0 <= i < bulk_chunks_spec(uids).len(),
        0 <= j < bulk_chunks_spec(uids)[i].len(),
    ensures
        0 <= 24 * i + j < uids.len(),
    decreases uids.len(),
{
    if uids.len() > 24 && i > 0 {
        let rest = uids.skip(24);
        assert(bulk_chunks_spec(uids)[i] == bulk_chunks_spec(rest)[i - 1]);
        lemma_group_range(rest, i - 1, j);
    }
}

/// The identifier of an entry is the first ListingIdentifier among its
/// attributes.
pub proof fn identifiers_come_first(groups: Seq<Vec<(String, String)>>, k: int)
    requires
        0 <= k < groups.len(),
        lookup_spec(groups[k]@, "ListingIdentifier"@) is Some,
        forall|j: int|
            0 <= j < k ==> lookup_spec((#[trigger] groups[j])@, "ListingIdentifier"@) is None,
    ensures
        first_identifier(groups) == lookup_spec(groups[k]@, "ListingIdentifier"@),
    decreases groups.len(),
{
    if k > 0 {
        let rest = groups.skip(1);
        assert(lookup_spec(groups[0]@, "ListingIdentifier"@) is None);
        assert forall|j: int| 0 <= j < k - 1 implies lookup_spec(
            (#[trigger] rest[j])@,
            "ListingIdentifier"@,
        ) is None by {
            assert(rest[j] == groups[j + 1]);
        }
        assert(rest[k - 1] == groups[k]);
        identifiers_come_first(rest, k - 1);
    }
}

/// Entries without the attribute have no identifier.
pub proof fn entries_may_lack_an_identifier(groups: Seq<Vec<(String, String)>>)
    requires
        forall|j: int|
            0 <= j < groups.len() ==> lookup_spec((#[trigger] groups[j])@, "ListingIdentifier"@)
                is None,
    ensures
        first_identifier(groups) is None,
    decreases groups.len(),
{
    if groups.len() > 0 {
        let rest = groups.skip(1);
        assert(lookup_spec(groups[0]@, "ListingIdentifier"@) is None);
        assert forall|j: int| 0 <= j < rest.len() implies lookup_spec(
            (#[trigger] rest[j])@,
            "ListingIdentifier"@,
        ) is None by {
            assert(rest[j] == groups[j + 1]);
        }
        entries_may_lack_an_identifier(rest);
    }
}

/// The uids of a library are those of its entries, one behind the other: an
/// entry has its identifier, or none.
pub proof fn libraries_list_every_entry(
    a: Seq<crate::download_resolver::FabAsset>,
    b: Seq<crate::download_resolver::FabAsset>,
    entry: crate::download_resolver::FabAsset,
)
    ensures
        library_uids_spec(a + b) == library_uids_spec(a) + library_uids_spec(b),
        library_uids_spec(seq![entry]) == match first_identifier(entry.custom_attributes@) {
            Some(uid) => seq![uid],
            None => Seq::empty(),
        },
    decreases b.len(),
{
    assert(seq![entry].drop_last() =~= Seq::<crate::download_resolver::FabAsset>::empty());
    assert(library_uids_spec(seq![entry].drop_last()) =~= Seq::<Seq<char>>::empty());
    assert(library_uids_spec(seq![entry]) =~= match first_identifier(entry.custom_attributes@) {
        Some(uid) => seq![uid],
        None => Seq::empty(),
    });
    if b.len() == 0 {
        assert(a + b =~= a);
        assert(library_uids_spec(a) + library_uids_spec(b) =~= library_uids_spec(a));
    } else {
        libraries_list_every_entry(a, b.drop_last(), entry);
        assert((a + b).drop_last() =~= a + b.drop_last());
        assert((a + b).last() == b.last());
        assert(library_uids_spec(a + b) =~= library_uids_spec(a) + library_uids_spec(b));
    }
}

/// Which listings an ownership is asked of.
pub open spec fn ownership_source_spec(args: OwnershipArgs) -> OwnershipSourceView {
    match args.batch {
        Some(csv) => OwnershipSourceView::List(csv@),
        None => if args.from_stdin {
            OwnershipSourceView::Lines
        } else if args.from_library {
            OwnershipSourceView::Library
        } else {
            OwnershipSourceView::One
        },
    }
}

/// The listings are those of the list that is given, else those of the one
/// source that is asked for, else the one listing.
pub proof fn listings_have_one_source(args: OwnershipArgs)
    ensures
        args.batch matches Some(csv) ==> ownership_source_spec(args) == OwnershipSourceView::List(
            csv@,
        ),
        ownership_source_spec(args) is Lines <==> args.batch is None && args.from_stdin,
        ownership_source_spec(args) is Library <==> args.batch is None && !args.from_stdin
            && args.from_library,
        ownership_source_spec(args) is One <==> args.batch is None && !args.from_stdin
            && !args.from_library,
{
}

} // verus!
