//! Searching the marketplace: filters, and the rows of a result.
use crate::args::SearchArgs;
use crate::json::{
    float_number, get_array_spec, get_bool_spec, get_number_spec, get_spec, get_str_spec, items_view,
    lemma_items_index, lemma_items_push, opt_number, str_view, to_float, Json, JsonView, Number,
    NumberView,
};
use crate::text;
use crate::text::{decimal_spec, free_of, opt_text, splits_once, texts, trim_spec};
use vstd::prelude::*;

verus! {

/// A pair of texts or a message, by its value.
pub open spec fn pair_view(r: Result<(String, String), String>) -> Result<
    (Seq<char>, Seq<char>),
    Seq<char>,
> {
    match r {
        Ok(p) => Ok((p.0@, p.1@)),
        Err(e) => Err(e@),
    }
}

/// What a filter of key `key` and value `value`, written as `raw`, stands for.
pub open spec fn kv_spec(raw: Seq<char>, key: Seq<char>, value: Seq<char>) -> Result<
    (Seq<char>, Seq<char>),
    Seq<char>,
> {
    if key.len() == 0 {
        Err("--filter: empty key in `"@ + raw + "` (expected `KEY=VALUE`)"@)
    } else if value.len() == 0 {
        Err("--filter: empty value for key `"@ + key + "` (expected `KEY=VALUE`)"@)
    } else {
        Ok((key, value))
    }
}

/// Reads a filter `KEY=VALUE`. The first `=` parts the two, so that a value can
/// hold further ones. Neither may be empty.
pub fn parse_kv(raw: &str) -> (r: Result<(String, String), String>)
    ensures
        raw@.len() == 0 ==> pair_view(r) == Err::<(Seq<char>, Seq<char>), Seq<char>>(
            "--filter: expected `KEY=VALUE`, got empty argument"@,
        ),
        raw@.len() > 0 && free_of(raw@, '=') ==> pair_view(r) == Err::<
            (Seq<char>, Seq<char>),
            Seq<char>,
        >("--filter: expected `KEY=VALUE` (missing `=` in `"@ + raw@ + "`)"@),
        forall|key: Seq<char>, value: Seq<char>| #[trigger]
            splits_once(raw@, '=', key, value) ==> pair_view(r) == kv_spec(raw@, key, value),
{
    if raw.is_empty() {
        assert forall|key: Seq<char>, value: Seq<char>| !#[trigger] splits_once(
            raw@,
            '=',
            key,
            value,
        ) by {
            assert((key.push('=') + value).len() > 0);
        }
        return Err("--filter: expected `KEY=VALUE`, got empty argument".to_owned());
    }
    match text::split_once(raw, '=') {
        None => {
            assert forall|key: Seq<char>, value: Seq<char>| !#[trigger] splits_once(
                raw@,
                '=',
                key,
                value,
            ) by {
                if splits_once(raw@, '=', key, value) {
                    assert((key.push('=') + value)[key.len() as int] == '=');
                }
            }
            let mut m = "--filter: expected `KEY=VALUE` (missing `=` in `".to_owned();
            m.append(raw);
            m.append("`)");
            Err(m)
        },
        Some((k, v)) => {
            assert forall|key: Seq<char>, value: Seq<char>| #[trigger]
                splits_once(raw@, '=', key, value) implies key == k@ && value == v@ by {
                text::split_once_unique(raw@, '=', key, value, k@, v@);
            }
            assert((k@.push('=') + v@)[k@.len() as int] == '=');
            if k.as_str().is_empty() {
                let mut m = "--filter: empty key in `".to_owned();
                m.append(raw);
                m.append("` (expected `KEY=VALUE`)");
                return Err(m);
            }
            if v.as_str().is_empty() {
                let mut m = "--filter: empty value for key `".to_owned();
                m.append(k.as_str());
                m.append("` (expected `KEY=VALUE`)");
                return Err(m);
            }
            Ok((k, v))
        },
    }
}

/// An accepted filter is what was written: its key, an equals sign and its
/// value, the key without an equals sign and neither of them empty.
pub proof fn accepted_filters_read_back(raw: Seq<char>, key: Seq<char>, value: Seq<char>)
    requires
        splits_once(raw, '=', key, value),
        kv_spec(raw, key, value) is Ok,
    ensures
        raw == key.push('=') + value,
        free_of(key, '='),
        key.len() > 0 && value.len() > 0,
{
}

// ---------------------------------------------------------------------------
// Rows
// ---------------------------------------------------------------------------

/// The seller's name of a row, without white space around it.
pub open spec fn seller_spec(item: JsonView) -> Option<Seq<char>> {
    match get_spec(item, "user"@) {
        None => None,
        Some(user) => match get_str_spec(user, "sellerName"@) {
            None => None,
            Some(name) => if trim_spec(name).len() == 0 {
                None
            } else {
                Some(trim_spec(name))
            },
        },
    }
}

/// The seller's name of a row; `None` where there is none, or only white space.
pub fn coalesce_seller(item: &Json) -> (r: Option<String>)
    ensures
        opt_text(r) == seller_spec(item@),
{
    match item.get("user") {
        None => None,
        Some(user) => match user.get_str("sellerName") {
            None => None,
            Some(name) => {
                let trimmed = text::trim(name);
                if trimmed.as_str().is_empty() {
                    None
                } else {
                    Some(trimmed)
                }
            },
        },
    }
}

/// The average rating of a row, as a floating-point number.
pub open spec fn rating_spec(item: JsonView) -> Option<NumberView> {
    match get_spec(item, "ratings"@) {
        None => None,
        Some(ratings) => match get_number_spec(ratings, "averageRating"@) {
            None => None,
            Some(n) => float_number(n),
        },
    }
}

/// The average rating of a row; `None` where there is none, or it is no number.
pub fn coalesce_rating(item: &Json) -> (r: Option<Number>)
    ensures
        opt_number(r) == rating_spec(item@),
{
    match item.get("ratings") {
        None => None,
        Some(ratings) => match ratings.get_number("averageRating") {
            None => None,
            Some(n) => to_float(n),
        },
    }
}

/// The value of a text that may be there; null where it is not.
pub open spec fn str_or_null(s: Option<Seq<char>>) -> JsonView {
    match s {
        Some(t) => str_view(t),
        None => JsonView::Null,
    }
}

/// The value of a number that may be there; null where it is not.
pub open spec fn number_or_null(n: Option<NumberView>) -> JsonView {
    match n {
        Some(x) => JsonView::Number(x),
        None => JsonView::Null,
    }
}

/// A row with its seller and its rating beside what it holds; what is no
/// object stays as it is.
pub open spec fn coalesced_row(item: JsonView, rating: Option<NumberView>) -> JsonView {
    match item {
        JsonView::Object(m) => JsonView::Object(
            m.insert("seller"@, str_or_null(seller_spec(item))).insert(
                "rating"@,
                number_or_null(rating),
            ),
        ),
        other => other,
    }
}

/// A result with its rows so changed; what has no rows stays as it is.
pub open spec fn coalesced_result(json: JsonView) -> JsonView {
    match json {
        JsonView::Object(m) => match get_array_spec(json, "results"@) {
            Some(rows) => JsonView::Object(
                m.insert(
                    "results"@,
                    JsonView::Array(
                        rows.map_values(|row: JsonView| coalesced_row(row, rating_spec(row))),
                    ),
                ),
            ),
            None => json,
        },
        other => other,
    }
}

/// A row with its seller and the rating `rating` beside what it holds.
pub fn coalesce_row(item: &Json, rating: Option<Number>) -> (r: Json)
    ensures
        r@ == coalesced_row(item@, opt_number(rating)),
{
    match item {
        Json::Object(_) => {
            let seller = match coalesce_seller(item) {
                Some(s) => Json::Str(s),
                None => Json::Null,
            };
            let rated = match rating {
                Some(n) => Json::Number(n),
                None => Json::Null,
            };
            item.copy().with("seller", seller).with("rating", rated)
        },
        _ => item.copy(),
    }
}

/// Adds to each row of a result its seller and its rating, each null where the
/// row has none.
pub fn inject_coalesced_fields(json: &mut Json)
    ensures
        final(json)@ == coalesced_result(old(json)@),
{
    let mut out: Vec<Json> = Vec::new();
    match json.get_array("results") {
        None => {
            return;
        },
        Some(rows) => {
            let mut i: usize = 0;
            let ghost whole = items_view(rows@).map_values(
                |row: JsonView| coalesced_row(row, rating_spec(row)),
            );
            proof {
                lemma_items_index(rows@);
            }
            while i < rows.len()
                invariant
                    i <= rows@.len(),
                    whole.len() == rows@.len(),
                    forall|j: int|
                        0 <= j < rows@.len() ==> #[trigger] whole[j] == coalesced_row(
                            rows@[j]@,
                            rating_spec(rows@[j]@),
                        ),
                    items_view(out@) == whole.take(i as int),
                decreases rows.len() - i,
            {
                let row = coalesce_row(&rows[i], coalesce_rating(&rows[i]));
                proof {
                    lemma_items_push(out@, row);
                    assert(whole.take(i + 1) =~= whole.take(i as int).push(row@));
                }
                out.push(row);
                i = i + 1;
            }
            assert(whole.take(rows@.len() as int) =~= whole);
        },
    }
    *json = json.copy().with("results", Json::Array(out));
}

/// A row that says whether it is owned; what is no object stays as it is.
pub open spec fn owned_row(row: JsonView, owned: Seq<Seq<char>>) -> JsonView {
    match row {
        JsonView::Object(m) => JsonView::Object(
            m.insert(
                "owned"@,
                JsonView::Bool(
                    match get_str_spec(row, "uid"@) {
                        Some(uid) => owned.contains(uid),
                        None => false,
                    },
                ),
            ),
        ),
        other => other,
    }
}

/// Adds to each row whether its identifier is one of `owned`.
pub fn inject_owned_field(rows: &mut Vec<Json>, owned: &Vec<String>)
    ensures
        items_view(final(rows)@) == items_view(old(rows)@).map_values(
            |row: JsonView| owned_row(row, texts(owned@)),
        ),
{
    let mut out: Vec<Json> = Vec::new();
    let mut i: usize = 0;
    let ghost whole = items_view(rows@).map_values(|row: JsonView| owned_row(row, texts(owned@)));
    proof {
        lemma_items_index(rows@);
    }
    while i < rows.len()
        invariant
            i <= rows@.len(),
            rows@ == old(rows)@,
            whole.len() == rows@.len(),
            forall|j: int|
                0 <= j < rows@.len() ==> #[trigger] whole[j] == owned_row(
                    rows@[j]@,
                    texts(owned@),
                ),
            items_view(out@) == whole.take(i as int),
        decreases rows.len() - i,
    {
        let row = match &rows[i] {
            Json::Object(_) => {
                let is_owned = match rows[i].get_str("uid") {
                    Some(uid) => text::is_one_of(owned, uid),
                    None => false,
                };
                rows[i].copy().with("owned", Json::Bool(is_owned))
            },
            _ => rows[i].copy(),
        };
        proof {
            lemma_items_push(out@, row);
            assert(whole.take(i + 1) =~= whole.take(i as int).push(row@));
        }
        out.push(row);
        i = i + 1;
    }
    assert(whole.take(rows@.len() as int) =~= whole);
    *rows = out;
}

/// The identifiers of those of `rows` that have one, in order.
pub open spec fn row_uids(rows: Seq<JsonView>) -> Seq<Seq<char>>
    decreases rows.len(),
{
    if rows.len() == 0 {
        Seq::empty()
    } else {
        match get_str_spec(rows.last(), "uid"@) {
            Some(uid) => row_uids(rows.drop_last()).push(uid),
            None => row_uids(rows.drop_last()),
        }
    }
}

/// The identifiers in a result.
pub open spec fn result_uids_spec(json: JsonView) -> Seq<Seq<char>> {
    match get_array_spec(json, "results"@) {
        Some(rows) => row_uids(rows),
        None => Seq::empty(),
    }
}

/// The identifiers of the rows of a result, in order.
pub fn result_uids(json: &Json) -> (r: Vec<String>)
    ensures
        texts(r@) == result_uids_spec(json@),
{
    let mut out: Vec<String> = Vec::new();
    assert(texts(out@) =~= Seq::<Seq<char>>::empty());
    match json.get_array("results") {
        None => out,
        Some(rows) => {
            let mut i: usize = 0;
            let ghost views = items_view(rows@);
            proof {
                lemma_items_index(rows@);
            }
            while i < rows.len()
                invariant
                    i <= rows@.len(),
                    views.len() == rows@.len(),
                    forall|j: int| 0 <= j < rows@.len() ==> #[trigger] views[j] == rows@[j]@,
                    texts(out@) == row_uids(views.take(i as int)),
                decreases rows.len() - i,
            {
                assert(views.take(i + 1).drop_last() =~= views.take(i as int));
                assert(views.take(i + 1).last() == rows@[i as int]@);
                match rows[i].get_str("uid") {
                    Some(uid) => {
                        let item = uid.to_owned();
                        proof {
                            text::lemma_texts_push(out@, item);
                        }
                        out.push(item);
                    },
                    None => {},
                }
                i = i + 1;
            }
            assert(views.take(views.len() as int) =~= views);
            out
        },
    }
}

/// A search result with ownership: its rows say whether they are owned; what
/// has no rows stays as it is.
pub open spec fn with_ownership_spec(json: JsonView, owned: Seq<Seq<char>>) -> JsonView {
    match json {
        JsonView::Object(m) => match get_array_spec(json, "results"@) {
            Some(rows) => JsonView::Object(
                m.insert(
                    "results"@,
                    JsonView::Array(rows.map_values(|row: JsonView| owned_row(row, owned))),
                ),
            ),
            None => json,
        },
        other => other,
    }
}

/// Adds to each row of a result whether it is owned.
pub fn add_ownership(json: &mut Json, owned: &Vec<String>)
    ensures
        final(json)@ == with_ownership_spec(old(json)@, texts(owned@)),
{
    let mut copy: Vec<Json> = Vec::new();
    match json.get_array("results") {
        None => {
            return;
        },
        Some(rows) => {
            copy = copy_items(rows);
        },
    }
    inject_owned_field(&mut copy, owned);
    *json = json.copy().with("results", Json::Array(copy));
}

/// A row of a search keeps what the service said: the program adds the seller,
/// the rating and the ownership, and changes nothing else.
pub proof fn rows_keep_their_fields(
    row: JsonView,
    rating: Option<NumberView>,
    owned: Seq<Seq<char>>,
    key: Seq<char>,
)
    requires
        key != "seller"@ && key != "rating"@ && key != "owned"@,
    ensures
        get_spec(owned_row(coalesced_row(row, rating), owned), key) == get_spec(row, key),
{
}

/// Every row that is an object says whether it is owned: yes exactly where its
/// identifier is one of the owned ones.
pub proof fn rows_say_whether_they_are_owned(row: JsonView, owned: Seq<Seq<char>>)
    requires
        row is Object,
    ensures
        get_bool_spec(owned_row(row, owned), "owned"@) == Some(
            get_str_spec(row, "uid"@) matches Some(uid) && owned.contains(uid),
        ),
{
}

fn copy_items(rows: &Vec<Json>) -> (r: Vec<Json>)
    ensures
        items_view(r@) == items_view(rows@),
{
    let mut out: Vec<Json> = Vec::new();
    let mut i: usize = 0;
    while i < rows.len()
        invariant
            i <= rows@.len(),
            items_view(out@) == items_view(rows@.take(i as int)),
        decreases rows.len() - i,
    {
        let row = rows[i].copy();
        proof {
            lemma_items_push(out@, row);
            lemma_items_push(rows@.take(i as int), rows@[i as int]);
            assert(rows@.take(i + 1) =~= rows@.take(i as int).push(rows@[i as int]));
        }
        out.push(row);
        i = i + 1;
    }
    assert(rows@.take(rows@.len() as int) =~= rows@);
    out
}

// ---------------------------------------------------------------------------
// What a search asks for
// ---------------------------------------------------------------------------

/// The values of a list of parameters.
pub open spec fn params_view(params: Seq<(String, String)>) -> Seq<(Seq<char>, Seq<char>)> {
    params.map_values(|p: (String, String)| (p.0@, p.1@))
}

/// The parameter `key`, where it has a value.
pub open spec fn param_spec(key: Seq<char>, value: Option<Seq<char>>) -> Seq<
    (Seq<char>, Seq<char>),
> {
    match value {
        Some(v) => seq![(key, v)],
        None => Seq::empty(),
    }
}

/// The parameters of a search: those of the arguments that are there, and then
/// the filters in their order.
pub open spec fn search_query_spec(args: SearchArgs) -> Seq<(Seq<char>, Seq<char>)> {
    param_spec("q"@, opt_text(args.query)) + param_spec("sort_by"@, opt_text(args.sort))
        + param_spec(
        "count"@,
        match args.count {
            Some(n) => Some(decimal_spec(n as nat)),
            None => None,
        },
    ) + param_spec("cursor"@, opt_text(args.cursor)) + params_view(args.filter@)
}

fn put_param(params: &mut Vec<(String, String)>, key: &str, value: Option<String>)
    ensures
        params_view(final(params)@) == params_view(old(params)@) + param_spec(
            key@,
            opt_text(value),
        ),
{
    match value {
        Some(v) => {
            let p = (key.to_owned(), v);
            params.push(p);
        },
        None => {},
    }
    assert(params_view(params@) =~= params_view(old(params)@) + param_spec(key@, opt_text(value)));
}

/// The parameters of a search.
pub fn search_query(args: &SearchArgs) -> (r: Vec<(String, String)>)
    ensures
        params_view(r@) == search_query_spec(*args),
{
    let mut out: Vec<(String, String)> = Vec::new();
    assert(params_view(out@) =~= Seq::empty());
    put_param(&mut out, "q", args.query.clone());
    put_param(&mut out, "sort_by", args.sort.clone());
    let count = match args.count {
        Some(n) => Some(text::decimal(n as u64)),
        None => None,
    };
    put_param(&mut out, "count", count);
    put_param(&mut out, "cursor", args.cursor.clone());
    let ghost front = params_view(out@);
    let ghost filters = params_view(args.filter@);
    let mut i: usize = 0;
    assert(front + filters.take(0) =~= front);
    while i < args.filter.len()
        invariant
            i <= args.filter@.len(),
            filters == params_view(args.filter@),
            params_view(out@) == front + filters.take(i as int),
        decreases args.filter.len() - i,
    {
        let p = (args.filter[i].0.clone(), args.filter[i].1.clone());
        let ghost prior = out@;
        out.push(p);
        assert(params_view(out@) =~= params_view(prior).push((p.0@, p.1@)));
        assert(filters.take(i + 1) =~= filters.take(i as int).push(filters[i as int]));
        i = i + 1;
    }
    assert(filters.take(filters.len() as int) =~= filters);
    assert(params_view(out@) =~= search_query_spec(*args));
    out
}

// ---------------------------------------------------------------------------
// What is asked for, and what comes back
// ---------------------------------------------------------------------------

proof fn lemma_query_names()
    ensures
        "q"@ != "sort_by"@,
        "q"@ != "count"@,
        "q"@ != "cursor"@,
        "sort_by"@ != "count"@,
        "sort_by"@ != "cursor"@,
        "count"@ != "cursor"@,
{
    reveal_strlit("q");
    reveal_strlit("sort_by");
    reveal_strlit("count");
    reveal_strlit("cursor");
    assert("q"@.len() == 1);
    assert("sort_by"@.len() == 7);
    assert("count"@.len() == 5);
    assert("cursor"@.len() == 6);
}

/// `pairs` is what `value` asks for under `name`: a pair with both where it is
/// there, and no pair of that name where it is not.
pub open spec fn asks_for(
    pairs: Seq<(Seq<char>, Seq<char>)>,
    name: Seq<char>,
    value: Option<Seq<char>>,
) -> bool {
    match value {
        Some(v) => pairs.contains((name, v)) && forall|i: int|
            0 <= i < pairs.len() && (#[trigger] pairs[i]).0 == name ==> pairs[i].1 == v,
        None => forall|i: int| 0 <= i < pairs.len() ==> (#[trigger] pairs[i]).0 != name,
    }
}

/// Each of text, order, number and cursor that is given is sent under its name,
/// whatever else is given; one that is not given is not sent; and the filters
/// follow, all of them and in their order.
pub proof fn given_arguments_are_sent(args: SearchArgs)
    ensures
        search_query_spec(args).len() >= args.filter@.len(),
        ({
            let n = search_query_spec(args).len() - args.filter@.len();
            let own = search_query_spec(args).take(n);
            &&& asks_for(own, "q"@, opt_text(args.query))
            &&& asks_for(own, "sort_by"@, opt_text(args.sort))
            &&& asks_for(
                own,
                "count"@,
                match args.count {
                    Some(c) => Some(decimal_spec(c as nat)),
                    None => None,
                },
            )
            &&& asks_for(own, "cursor"@, opt_text(args.cursor))
            &&& forall|i: int|
                0 <= i < own.len() ==> (#[trigger] own[i]).0 == "q"@ || own[i].0 == "sort_by"@
                    || own[i].0 == "count"@ || own[i].0 == "cursor"@
            &&& forall|i: int|
                0 <= i < args.filter@.len() ==> search_query_spec(args)[n + i] == (
                    (#[trigger] args.filter@[i]).0@,
                    args.filter@[i].1@,
                )
        }),
        args.query matches Some(v) ==> search_query_spec(args).contains(("q"@, v@)),
        args.sort matches Some(v) ==> search_query_spec(args).contains(("sort_by"@, v@)),
        args.count matches Some(c) ==> search_query_spec(args).contains(
            ("count"@, decimal_spec(c as nat)),
        ),
        args.cursor matches Some(v) ==> search_query_spec(args).contains(("cursor"@, v@)),
{
    lemma_query_names();
    let all = search_query_spec(args);
    let filters = params_view(args.filter@);
    let count = match args.count {
        Some(c) => Some(decimal_spec(c as nat)),
        None => None,
    };
    let p1 = param_spec("q"@, opt_text(args.query));
    let p2 = param_spec("sort_by"@, opt_text(args.sort));
    let p3 = param_spec("count"@, count);
    let p4 = param_spec("cursor"@, opt_text(args.cursor));
    let n = all.len() - args.filter@.len();
    let own = all.take(n);
    assert(all == p1 + p2 + p3 + p4 + filters);
    assert(own =~= p1 + p2 + p3 + p4);
    let n1 = p1.len() as int;
    let n2 = n1 + p2.len();
    let n3 = n2 + p3.len();
    assert forall|i: int| 0 <= i < own.len() implies (#[trigger] own[i]) == if i < n1 {
        p1[i]
    } else if i < n2 {
        p2[i - n1]
    } else if i < n3 {
        p3[i - n2]
    } else {
        p4[i - n3]
    } by {}
    if args.query is Some {
        assert(own[0] == p1[0]);
        assert(all[0] == own[0]);
    }
    if args.sort is Some {
        assert(own[n1] == p2[0]);
        assert(all[n1] == own[n1]);
    }
    if args.count is Some {
        assert(own[n2] == p3[0]);
        assert(all[n2] == own[n2]);
    }
    if args.cursor is Some {
        assert(own[n3] == p4[0]);
        assert(all[n3] == own[n3]);
    }
    assert forall|i: int| 0 <= i < args.filter@.len() implies all[n + i] == (
        (#[trigger] args.filter@[i]).0@,
        args.filter@[i].1@,
    ) by {
        assert(all[n + i] == filters[i]);
    }
}

proof fn lemma_row_names()
    ensures
        "seller"@ != "rating"@,
        "seller"@ != "owned"@,
        "seller"@ != "results"@,
        "rating"@ != "owned"@,
        "rating"@ != "results"@,
        "owned"@ != "results"@,
{
    reveal_strlit("seller");
    reveal_strlit("rating");
    reveal_strlit("owned");
    reveal_strlit("results");
    assert("seller"@.len() == 6);
    assert("rating"@.len() == 6);
    assert("owned"@.len() == 5);
    assert("results"@.len() == 7);
    assert("seller"@[0] != "rating"@[0]);
}

/// A row that is an object gets the seller's name without white space around it,
/// null where there is none, and the rating; every other field stays.
pub proof fn rows_name_their_seller(
    m: Map<Seq<char>, JsonView>,
    rating: Option<NumberView>,
    user: JsonView,
    name: Seq<char>,
    key: Seq<char>,
)
    ensures
        get_spec(JsonView::Object(m), "user"@) == Some(user) && get_spec(user, "sellerName"@)
            == Some(JsonView::Str(name)) && trim_spec(name).len() > 0 ==> get_spec(
            coalesced_row(JsonView::Object(m), rating),
            "seller"@,
        ) == Some(JsonView::Str(trim_spec(name))),
        get_spec(JsonView::Object(m), "user"@) == Some(user) && get_spec(user, "sellerName"@)
            == Some(JsonView::Str(name)) && trim_spec(name).len() == 0 ==> get_spec(
            coalesced_row(JsonView::Object(m), rating),
            "seller"@,
        ) == Some(JsonView::Null),
        get_spec(JsonView::Object(m), "user"@) is None ==> get_spec(
            coalesced_row(JsonView::Object(m), rating),
            "seller"@,
        ) == Some(JsonView::Null),
        get_spec(JsonView::Object(m), "user"@) == Some(user) && !(get_spec(user, "sellerName"@)
            matches Some(JsonView::Str(_))) ==> get_spec(
            coalesced_row(JsonView::Object(m), rating),
            "seller"@,
        ) == Some(JsonView::Null),
        rating matches Some(n) ==> get_spec(coalesced_row(JsonView::Object(m), rating), "rating"@)
            == Some(JsonView::Number(n)),
        rating is None ==> get_spec(coalesced_row(JsonView::Object(m), rating), "rating"@) == Some(
            JsonView::Null,
        ),
        key != "seller"@ && key != "rating"@ ==> get_spec(
            coalesced_row(JsonView::Object(m), rating),
            key,
        ) == get_spec(JsonView::Object(m), key),
{
    lemma_row_names();
}

/// The rating of a row is the average of its ratings, where there is one.
pub proof fn ratings_are_averages(item: JsonView, ratings: JsonView, n: NumberView)
    ensures
        get_spec(item, "ratings"@) == Some(ratings) && get_spec(ratings, "averageRating"@) == Some(
            JsonView::Number(n),
        ) ==> rating_spec(item) == float_number(n),
        get_spec(item, "ratings"@) is None ==> rating_spec(item) is None,
        get_spec(item, "ratings"@) == Some(ratings) && !(get_spec(ratings, "averageRating"@)
            matches Some(JsonView::Number(_))) ==> rating_spec(item) is None,
{
}

/// A result keeps its rows in their number and order, each with its seller and
/// rating, and all its other fields.
pub proof fn results_keep_their_rows(
    m: Map<Seq<char>, JsonView>,
    rows: Seq<JsonView>,
    owned: Seq<Seq<char>>,
    i: int,
    key: Seq<char>,
)
    requires
        get_spec(JsonView::Object(m), "results"@) == Some(JsonView::Array(rows)),
        0 <= i < rows.len(),
    ensures
        get_spec(coalesced_result(JsonView::Object(m)), "results"@) matches Some(
            JsonView::Array(out),
        ) && out.len() == rows.len() && out[i] == coalesced_row(rows[i], rating_spec(rows[i])),
        get_spec(with_ownership_spec(JsonView::Object(m), owned), "results"@) matches Some(
            JsonView::Array(out),
        ) && out.len() == rows.len() && out[i] == owned_row(rows[i], owned),
        key != "results"@ ==> get_spec(coalesced_result(JsonView::Object(m)), key) == get_spec(
            JsonView::Object(m),
            key,
        ) && get_spec(with_ownership_spec(JsonView::Object(m), owned), key) == get_spec(
            JsonView::Object(m),
            key,
        ),
{
}

/// An answer without a list of results is handed on as it is.
pub proof fn other_answers_are_handed_on(j: JsonView, owned: Seq<Seq<char>>)
    requires
        !(get_spec(j, "results"@) matches Some(JsonView::Array(_))),
    ensures
        coalesced_result(j) == j,
        with_ownership_spec(j, owned) == j,
        result_uids_spec(j) == Seq::<Seq<char>>::empty(),
{
}

/// A row says that it is owned exactly where its uid is among the owned ones,
/// and keeps its other fields; a row that is no object is handed on.
pub proof fn rows_are_owned_by_uid(
    m: Map<Seq<char>, JsonView>,
    owned: Seq<Seq<char>>,
    uid: Seq<char>,
    key: Seq<char>,
    other: JsonView,
)
    ensures
        get_spec(JsonView::Object(m), "uid"@) == Some(JsonView::Str(uid)) ==> get_spec(
            owned_row(JsonView::Object(m), owned),
            "owned"@,
        ) == Some(JsonView::Bool(owned.contains(uid))),
        !(get_spec(JsonView::Object(m), "uid"@) matches Some(JsonView::Str(_))) ==> get_spec(
            owned_row(JsonView::Object(m), owned),
            "owned"@,
        ) == Some(JsonView::Bool(false)),
        key != "owned"@ ==> get_spec(owned_row(JsonView::Object(m), owned), key) == get_spec(
            JsonView::Object(m),
            key,
        ),
        !(other is Object) ==> owned_row(other, owned) == other && coalesced_row(other, None)
            == other,
{
}

/// The uids of a result are those of its rows, in their order; a row without
/// one is passed over.
pub proof fn uids_come_from_every_row(a: Seq<JsonView>, b: Seq<JsonView>, row: JsonView)
    ensures
        row_uids(a + b) == row_uids(a) + row_uids(b),
        row_uids(seq![row]) == match get_spec(row, "uid"@) {
            Some(JsonView::Str(uid)) => seq![uid],
            _ => Seq::empty(),
        },
    decreases b.len(),
{
    assert(seq![row].drop_last() =~= Seq::<JsonView>::empty());
    assert(row_uids(seq![row].drop_last()) =~= Seq::<Seq<char>>::empty());
    assert(row_uids(seq![row]) =~= match get_spec(row, "uid"@) {
        Some(JsonView::Str(uid)) => seq![uid],
        _ => Seq::empty(),
    });
    if b.len() == 0 {
        assert(a + b =~= a);
        assert(row_uids(a) + row_uids(b) =~= row_uids(a));
    } else {
        uids_come_from_every_row(a, b.drop_last(), row);
        assert((a + b).drop_last() =~= a + b.drop_last());
        assert((a + b).last() == b.last());
        assert(row_uids(a + b) =~= row_uids(a) + row_uids(b));
    }
}

/// A filter is taken where both its key and its value hold something, and then
/// as it was given.
pub proof fn filters_need_key_and_value(raw: Seq<char>, key: Seq<char>, value: Seq<char>)
    ensures
        kv_spec(raw, key, value) is Ok <==> key.len() > 0 && value.len() > 0,
        kv_spec(raw, key, value) matches Ok(pair) ==> pair.0 == key && pair.1 == value,
{
}

} // verus!
