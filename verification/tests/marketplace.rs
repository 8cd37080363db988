use fabcli::args::{
    price_query, read_download_uid, read_id_or_stdin, wants_line, DownloadArgs, PriceQuery,
};
use fabcli::claim::{
    answer_says_acquired, claim_next, http_error_to_fabcli, is_effectively_free,
    select_claim_offer_id, ClaimAction, ClaimAnswers, Listing, PriceInfo, Reply,
};
use fabcli::claim_batch::{
    check_uids, failed_entry, finish_batch, input_mode, outcome_of, parse_csv, parse_lines,
    parse_stdin_json, tally, Outcome, UidSource,
};
use fabcli::args::ClaimBatchArgs;
use fabcli::download::OverwriteMode;
use fabcli::download_resolver::{explicit_coords, ResolvedCoords};
use fabcli::error::FabCliError;
use fabcli::json::{is_zero, parse_json, print_json, Json, Number};
use fabcli::ownership::{
    absorb_states, build_bulk_states_path, build_ownership_row, bulk_chunks, owned_uids,
    ownership_report, ownership_source, parse_bulk_states, uids_from_library, OwnershipSource,
    MAX_BULK_STATES,
};
use fabcli::args::{OwnershipArgs, SearchArgs};
use fabcli::download_resolver::{FabAsset, FabLibrary};
use fabcli::search::{
    add_ownership, coalesce_rating, coalesce_row, coalesce_seller, inject_coalesced_fields,
    inject_owned_field, parse_kv, result_uids, search_query,
};

fn j(text: &str) -> Json {
    parse_json(text).unwrap()
}

fn s(input: &str) -> String {
    input.to_string()
}

fn strings(items: &[&str]) -> Vec<String> {
    items.iter().map(|x| x.to_string()).collect()
}

fn compact(v: &Json) -> String {
    print_json(v, false)
}

// ── parse_kv ──

#[test]
fn parse_kv_round_trip() {
    assert_eq!(parse_kv("foo=bar").unwrap(), ("foo".to_string(), "bar".to_string()));
}

#[test]
fn parse_kv_splits_on_first_equals() {
    assert_eq!(parse_kv("foo=a=b").unwrap(), ("foo".to_string(), "a=b".to_string()));
}

#[test]
fn parse_kv_rejects_missing_equals() {
    let err = parse_kv("foo").unwrap_err();
    assert!(err.contains("missing `=`"), "got: {}", err);
    assert!(err.contains("foo"), "got: {}", err);
}

#[test]
fn parse_kv_rejects_empty_key() {
    let err = parse_kv("=bar").unwrap_err();
    assert!(err.contains("empty key"), "got: {}", err);
}

#[test]
fn parse_kv_rejects_empty_value() {
    let err = parse_kv("foo=").unwrap_err();
    assert!(err.contains("empty value"), "got: {}", err);
    assert!(err.contains("foo"), "got: {}", err);
}

#[test]
fn parse_kv_rejects_empty_string() {
    let err = parse_kv("").unwrap_err();
    assert!(err.contains("empty argument"), "got: {}", err);
}

// ── rows of a search ──

#[test]
fn seller_from_seller_name() {
    let v = j(r#"{"user": {"sellerName": "ACME Studios"}}"#);
    assert_eq!(coalesce_seller(&v), Some("ACME Studios".into()));
}

#[test]
fn seller_trims_whitespace() {
    let v = j(r#"{"user": {"sellerName": "  Real Name  "}}"#);
    assert_eq!(coalesce_seller(&v), Some("Real Name".into()));
}

#[test]
fn seller_whitespace_only_is_none() {
    let v = j(r#"{"user": {"sellerName": "   "}}"#);
    assert_eq!(coalesce_seller(&v), None);
}

#[test]
fn seller_returns_none_when_absent() {
    assert_eq!(coalesce_seller(&j(r#"{"user": {}}"#)), None);
    assert_eq!(coalesce_seller(&j("{}")), None);
    assert_eq!(coalesce_seller(&j(r#"{"user": {"sellerName": null}}"#)), None);
}

#[test]
fn rating_numeric_returned() {
    let v = j(r#"{"ratings": {"averageRating": 4.5}}"#);
    assert_eq!(coalesce_rating(&v), Some(Number::Decimal(s("4.5"))));
}

#[test]
fn rating_integer_also_works() {
    let v = j(r#"{"ratings": {"averageRating": 5}}"#);
    assert_eq!(coalesce_rating(&v), Some(Number::Decimal(s("5.0"))));
}

#[test]
fn rating_missing_returns_none() {
    assert_eq!(coalesce_rating(&j(r#"{"ratings": {}}"#)), None);
    assert_eq!(coalesce_rating(&j("{}")), None);
}

#[test]
fn rating_string_returns_none() {
    let v = j(r#"{"ratings": {"averageRating": "4.5"}}"#);
    assert_eq!(coalesce_rating(&v), None);
}

#[test]
fn inject_adds_seller_and_rating_alongside_raw() {
    let mut v = j(
        r#"{"results": [
            {"uid": "a", "user": {"sellerName": "S"}, "ratings": {"averageRating": 4.0}},
            {"uid": "b", "user": {"sellerName": ""}},
            {"uid": "c"}
        ]}"#,
    );
    inject_coalesced_fields(&mut v);
    let r = v.get_array("results").unwrap();
    assert_eq!(r[0].get_str("seller"), Some("S"));
    assert_eq!(r[0].get("rating"), Some(&Json::Number(Number::Decimal(s("4.0")))));
    assert_eq!(r[0].get("user").unwrap().get_str("sellerName"), Some("S"));
    assert_eq!(r[1].get("seller"), Some(&Json::Null));
    assert_eq!(r[1].get("rating"), Some(&Json::Null));
    assert_eq!(r[2].get("seller"), Some(&Json::Null));
    assert_eq!(r[2].get("rating"), Some(&Json::Null));
}

#[test]
fn inject_is_noop_when_no_results_array() {
    let mut v = j(r#"{"error": "oops"}"#);
    inject_coalesced_fields(&mut v);
    assert_eq!(v, j(r#"{"error": "oops"}"#));
}

#[test]
fn rows_take_the_rating_they_are_given() {
    let row = coalesce_row(&j(r#"{"user": {"sellerName": "S"}}"#), Some(Number::Unsigned(3)));
    assert_eq!(compact(&row), r#"{"rating":3,"seller":"S","user":{"sellerName":"S"}}"#);
    assert_eq!(coalesce_row(&Json::Null, None), Json::Null);
}

#[test]
fn inject_owned_marks_owned_and_unowned_rows() {
    let mut rows = vec![
        j(r#"{"uid": "a", "title": "A"}"#),
        j(r#"{"uid": "b", "title": "B"}"#),
        j(r#"{"uid": "c", "title": "C"}"#),
    ];
    inject_owned_field(&mut rows, &strings(&["a", "c", "z"]));
    assert_eq!(rows[0].get("owned"), Some(&Json::Bool(true)));
    assert_eq!(rows[1].get("owned"), Some(&Json::Bool(false)));
    assert_eq!(rows[2].get("owned"), Some(&Json::Bool(true)));
}

#[test]
fn inject_owned_passes_through_non_object_rows() {
    let mut rows = vec![j(r#"{"uid": "a"}"#), j(r#""not-an-object""#), Json::Null];
    inject_owned_field(&mut rows, &strings(&["a"]));
    assert_eq!(rows[0].get("owned"), Some(&Json::Bool(true)));
    assert_eq!(rows[1], Json::Str(s("not-an-object")));
    assert_eq!(rows[2], Json::Null);
}

#[test]
fn inject_owned_handles_empty_inputs() {
    let mut rows: Vec<Json> = vec![];
    inject_owned_field(&mut rows, &vec![]);
    assert!(rows.is_empty());

    let mut rows = vec![j(r#"{"uid": "a"}"#), j(r#"{"uid": "b"}"#)];
    inject_owned_field(&mut rows, &vec![]);
    assert_eq!(rows[0].get("owned"), Some(&Json::Bool(false)));
    assert_eq!(rows[1].get("owned"), Some(&Json::Bool(false)));
}

#[test]
fn inject_owned_treats_missing_uid_as_unowned() {
    let mut rows = vec![j(r#"{"title": "no-uid-here"}"#)];
    inject_owned_field(&mut rows, &strings(&["a"]));
    assert_eq!(rows[0].get("owned"), Some(&Json::Bool(false)));
}

#[test]
fn search_results_say_what_is_owned() {
    let mut v = j(r#"{"results": [{"uid": "a"}, 7, {"uid": "b"}, {"title": "t"}], "next": null}"#);
    assert_eq!(result_uids(&v), strings(&["a", "b"]));
    add_ownership(&mut v, &strings(&["b"]));
    assert_eq!(
        compact(&v),
        r#"{"next":null,"results":[{"owned":false,"uid":"a"},7,{"owned":true,"uid":"b"},{"owned":false,"title":"t"}]}"#
    );
    let mut other = j("[1]");
    add_ownership(&mut other, &strings(&["b"]));
    assert_eq!(other, j("[1]"));
    assert!(result_uids(&other).is_empty());
}

// ── bulk listing states ──

#[test]
fn chunk_size_constant_matches_probed_cap() {
    assert_eq!(MAX_BULK_STATES, 24);
}

#[test]
fn chunks_for_various_sizes() {
    let cases: &[(usize, &[usize])] = &[
        (0, &[]),
        (1, &[1]),
        (23, &[23]),
        (24, &[24]),
        (25, &[24, 1]),
        (48, &[24, 24]),
        (100, &[24, 24, 24, 24, 4]),
    ];
    for (n, expected) in cases {
        let uids: Vec<String> = (0..*n).map(|i| format!("uid-{:03}", i)).collect();
        let groups = bulk_chunks(&uids);
        let shape: Vec<usize> = groups.iter().map(|c| c.len()).collect();
        assert_eq!(shape, *expected, "for n={}", n);
        let flat: Vec<String> = groups.into_iter().flatten().collect();
        assert_eq!(flat, uids);
    }
}

#[test]
fn build_bulk_states_path_uses_repeated_query_params() {
    let path = build_bulk_states_path(&strings(&["a", "b", "c"]));
    assert_eq!(path, "/i/users/me/listings-states?listingIds=a&listingIds=b&listingIds=c");
    assert!(!path.contains(','), "comma-separated form is rejected by Fab");
}

#[test]
fn build_bulk_states_path_preserves_order() {
    let path = build_bulk_states_path(&strings(&["zzz", "aaa", "mmm"]));
    let pos_zzz = path.find("zzz").unwrap();
    let pos_aaa = path.find("aaa").unwrap();
    let pos_mmm = path.find("mmm").unwrap();
    assert!(pos_zzz < pos_aaa && pos_aaa < pos_mmm);
}

fn state<'a>(states: &'a Vec<(String, Json)>, uid: &str) -> &'a Json {
    &states.iter().find(|e| e.0 == uid).unwrap().1
}

#[test]
fn parse_bulk_states_keeps_full_state_per_uid() {
    let body = r#"[
            {"uid":"a","acquired":true,"entitlementId":"e1","wishlisted":false},
            {"uid":"b","acquired":false,"entitlementId":null,"wishlisted":false},
            {"uid":"c","acquired":true,"entitlementId":"e2","wishlisted":true}
        ]"#;
    let states = parse_bulk_states(body);
    assert_eq!(states.len(), 3);
    assert_eq!(state(&states, "a").get_bool("acquired"), Some(true));
    assert_eq!(state(&states, "a").get_str("entitlementId"), Some("e1"));
    assert_eq!(state(&states, "b").get_bool("acquired"), Some(false));
    assert_eq!(state(&states, "c").get_bool("wishlisted"), Some(true));
    assert_eq!(owned_uids(&states), strings(&["a", "c"]));
}

#[test]
fn parse_bulk_states_skips_entries_without_uid() {
    let body = r#"[
            {"uid":"a","acquired":true},
            {"acquired":true},
            "not-an-object",
            {"uid":"d","acquired":true}
        ]"#;
    let states = parse_bulk_states(body);
    assert!(states.iter().any(|e| e.0 == "a"));
    assert!(states.iter().any(|e| e.0 == "d"));
    assert_eq!(states.len(), 2);
}

#[test]
fn parse_bulk_states_handles_empty_and_malformed_bodies() {
    assert!(parse_bulk_states("[]").is_empty());
    assert!(parse_bulk_states("not json").is_empty());
    assert!(parse_bulk_states(r#"{"acquired":true}"#).is_empty());
    assert!(parse_bulk_states("").is_empty());
}

#[test]
fn later_answers_on_a_listing_count() {
    let first = absorb_states(vec![], 200, r#"[{"uid":"a","acquired":false}]"#).unwrap();
    let both = absorb_states(first, 299, r#"[{"uid":"a","acquired":true}]"#).unwrap();
    assert_eq!(
        compact(&build_ownership_row("a", &both)),
        r#"{"listingUid":"a","owned":true,"source":"fab_session","state":{"acquired":true,"uid":"a"}}"#
    );
    assert!(owned_uids(&both).contains(&s("a")));
    let long = "é".repeat(250);
    match absorb_states(both, 300, &long).unwrap_err() {
        FabCliError::Generic(m) => {
            assert_eq!(m, format!("bulk listings-states returned HTTP 300: {}", "é".repeat(200)))
        }
        other => panic!("{:?}", other),
    }
}

#[test]
fn build_ownership_row_acquired_uid() {
    let states = vec![(
        s("a"),
        j(r#"{"uid":"a","acquired":true,"entitlementId":"e1","wishlisted":false}"#),
    )];
    let row = build_ownership_row("a", &states);
    assert_eq!(row.get_str("listingUid"), Some("a"));
    assert_eq!(row.get_bool("owned"), Some(true));
    assert_eq!(row.get_str("source"), Some("fab_session"));
    assert_eq!(row.get("state").unwrap().get_str("entitlementId"), Some("e1"));
}

#[test]
fn build_ownership_row_unowned_uid() {
    let states = vec![(
        s("a"),
        j(r#"{"uid":"a","acquired":false,"entitlementId":null,"wishlisted":false}"#),
    )];
    let row = build_ownership_row("a", &states);
    assert_eq!(row.get_bool("owned"), Some(false));
    assert_eq!(row.get_str("source"), Some("fab_session"));
    assert_eq!(row.get("state").unwrap().get_bool("acquired"), Some(false));
}

#[test]
fn build_ownership_row_unknown_uid_no_state() {
    let row = build_ownership_row("bogus", &vec![]);
    assert_eq!(row.get_str("listingUid"), Some("bogus"));
    assert_eq!(row.get_bool("owned"), Some(false));
    assert_eq!(row.get_str("source"), Some("fab_session"));
    assert!(row.get("state").is_none());
}

#[test]
fn ownership_reports_one_row_or_a_list() {
    let uids = strings(&["a", "b"]);
    let states = vec![(s("b"), j(r#"{"acquired":true}"#))];
    assert_eq!(
        compact(&ownership_report(&uids, &states, false)),
        r#"{"listingUid":"a","owned":false,"source":"fab_session"}"#
    );
    assert_eq!(
        compact(&ownership_report(&uids, &states, true)),
        r#"{"meta":{"total":2},"ok":true,"results":[{"listingUid":"a","owned":false,"source":"fab_session"},{"listingUid":"b","owned":true,"source":"fab_session","state":{"acquired":true}}]}"#
    );
}

fn ownership_args() -> OwnershipArgs {
    OwnershipArgs { uid: None, stdin: false, batch: None, from_stdin: false, from_library: false }
}

#[test]
fn ownership_sources_in_their_order() {
    let mut args = ownership_args();
    assert!(matches!(ownership_source(&args), (OwnershipSource::One, false)));
    args.from_library = true;
    assert!(matches!(ownership_source(&args), (OwnershipSource::Library, true)));
    args.from_stdin = true;
    assert!(matches!(ownership_source(&args), (OwnershipSource::Lines, true)));
    args.batch = Some(s("a,b"));
    match ownership_source(&args) {
        (OwnershipSource::List(csv), true) => assert_eq!(csv, "a,b"),
        other => panic!("{:?}", other),
    }
}

#[test]
fn library_listings_come_from_the_first_identifier() {
    let asset = |groups: Vec<Vec<(String, String)>>| FabAsset {
        asset_id: s("x"),
        asset_namespace: s("n"),
        custom_attributes: groups,
        url: s("https://www.fab.com/listings/u"),
        project_versions: vec![],
    };
    let id = |v: &str| (s("ListingIdentifier"), s(v));
    let library = FabLibrary {
        results: vec![
            asset(vec![vec![(s("Other"), s("o"))], vec![id("one"), id("two")]]),
            asset(vec![]),
            asset(vec![vec![id("three")]]),
        ],
    };
    assert_eq!(uids_from_library(&library), strings(&["one", "three"]));
}

// ── free or not ──

#[test]
fn free_flag_alone_is_enough() {
    assert!(is_effectively_free(Some(true), None));
    assert!(is_effectively_free(
        Some(true),
        Some(&j(r#"{"price": 99.0, "discountedPrice": 50.0}"#)),
    ));
}

#[test]
fn zero_price_counts_as_free_even_when_flag_is_false() {
    let sp = j(r#"{"price": 0.0, "currencyCode": "USD"}"#);
    assert!(is_effectively_free(Some(false), Some(&sp)));
    assert!(is_effectively_free(None, Some(&sp)));
}

#[test]
fn zero_discounted_price_counts_as_free() {
    let sp = j(r#"{"price": 19.99, "discountedPrice": 0.0, "currencyCode": "USD"}"#);
    assert!(is_effectively_free(Some(false), Some(&sp)));
}

#[test]
fn paid_asset_is_not_free() {
    let sp = j(r#"{"price": 3771.99, "discountedPrice": 3771.99, "currencyCode": "TWD"}"#);
    assert!(!is_effectively_free(Some(false), Some(&sp)));
    assert!(!is_effectively_free(None, Some(&sp)));
}

#[test]
fn discounted_nonzero_is_not_free() {
    let sp = j(r#"{"price": 20.0, "discountedPrice": 5.0}"#);
    assert!(!is_effectively_free(Some(false), Some(&sp)));
}

#[test]
fn missing_price_and_not_flagged_is_not_free() {
    assert!(!is_effectively_free(Some(false), None));
    assert!(!is_effectively_free(None, None));
}

#[test]
fn empty_starting_price_object_is_not_free() {
    let sp = j("{}");
    assert!(!is_effectively_free(Some(false), Some(&sp)));
}

#[test]
fn non_numeric_price_fields_ignored() {
    let sp = j(r#"{"price": "free", "discountedPrice": null}"#);
    assert!(!is_effectively_free(Some(false), Some(&sp)));
}

#[test]
fn zero_is_zero_however_it_is_written() {
    for text in ["0", "0.0", "-0", "-0.0", "0e5", "1e-400"] {
        match j(text) {
            Json::Number(n) => assert!(is_zero(&n), "{}", text),
            other => panic!("{:?}", other),
        }
    }
    for text in ["1", "-1", "0.001", "5e-324"] {
        match j(text) {
            Json::Number(n) => assert!(!is_zero(&n), "{}", text),
            other => panic!("{:?}", other),
        }
    }
}

fn price(v: Option<f64>) -> Option<Number> {
    v.map(|x| match j(&format!("{:?}", x)) {
        Json::Number(n) => n,
        other => panic!("{:?}", other),
    })
}

fn offer(id: &str, price_of: Option<f64>, discounted: Option<f64>) -> PriceInfo {
    PriceInfo {
        offer_id: Some(id.to_string()),
        price: price(price_of),
        discounted_price: price(discounted),
    }
}

#[test]
fn select_picks_free_offer_when_paid_first() {
    let offers = vec![
        offer("paid-pro", Some(32.87), Some(32.87)),
        offer("free-personal", Some(0.0), Some(0.0)),
    ];
    assert_eq!(select_claim_offer_id(&offers).as_deref(), Some("free-personal"));
}

#[test]
fn select_picks_zero_discounted_offer() {
    let offers = vec![
        offer("paid", Some(20.0), Some(20.0)),
        offer("promo", Some(19.99), Some(0.0)),
    ];
    assert_eq!(select_claim_offer_id(&offers).as_deref(), Some("promo"));
}

#[test]
fn select_falls_back_to_first_when_no_zero_priced() {
    let offers = vec![offer("only", None, None)];
    assert_eq!(select_claim_offer_id(&offers).as_deref(), Some("only"));
}

#[test]
fn select_returns_none_for_empty_offers() {
    let offers: Vec<PriceInfo> = vec![];
    assert_eq!(select_claim_offer_id(&offers), None);
}

#[test]
fn select_prefers_the_discounted_price() {
    // A zero price with a discounted price above zero does not count.
    let offers = vec![offer("odd", Some(0.0), Some(1.0)), offer("free", None, Some(0.0))];
    assert_eq!(select_claim_offer_id(&offers).as_deref(), Some("free"));
    // A free offer without an identifier falls back to the first that has one.
    let mut nameless = offer("x", Some(0.0), None);
    nameless.offer_id = None;
    assert_eq!(select_claim_offer_id(&vec![nameless, offer("b", Some(2.0), None)]).as_deref(), Some("b"));
}

// ── a claim ──

fn free_listing() -> Listing {
    Listing { title: Some(s("T")), is_free: Some(true), starting_price: None }
}

fn answers(listing: Listing) -> ClaimAnswers {
    ClaimAnswers { listing, state: None, prices: None, post: None, verify: None }
}

fn reply(status: u16, body: &str) -> Reply {
    Reply { status, body: s(body) }
}

#[test]
fn claim_goes_through_its_steps() {
    let mut a = answers(free_listing());
    match claim_next("u", &a) {
        ClaimAction::AskState { path } => assert_eq!(path, "/i/users/me/listings-states/u"),
        other => panic!("{:?}", other),
    }
    a.state = Some(Some(reply(200, r#"{"acquired":false}"#)));
    assert!(matches!(claim_next("u", &a), ClaimAction::FetchPrices));
    a.prices = Some(vec![offer("o\"1", Some(0.0), None)]);
    match claim_next("u", &a) {
        ClaimAction::Post { path, body } => {
            assert_eq!(path, "/i/listings/u/add-to-library");
            assert_eq!(body, r#"{"offerId":"o\"1"}"#);
        }
        other => panic!("{:?}", other),
    }
    a.post = Some(reply(204, ""));
    match claim_next("u", &a) {
        ClaimAction::Verify { path } => assert_eq!(path, "/i/users/me/listings-states/u"),
        other => panic!("{:?}", other),
    }
    a.verify = Some(reply(500, r#"{"acquired":true}"#));
    match claim_next("u", &a) {
        ClaimAction::Done { result, claimed } => {
            assert!(claimed);
            assert_eq!(compact(&result), r#"{"claimed":true,"ok":true,"title":"T","uid":"u"}"#);
            assert_eq!(outcome_of(&result), Outcome::Claimed);
        }
        other => panic!("{:?}", other),
    }
    a.verify = Some(reply(200, "nonsense"));
    match claim_next("u", &a) {
        ClaimAction::Fail(FabCliError::Generic(m)) => {
            assert_eq!(m, "claim POST succeeded but ownership could not be verified")
        }
        other => panic!("{:?}", other),
    }
}

#[test]
fn paid_listing_is_never_posted() {
    let mut a = answers(Listing {
        title: None,
        is_free: Some(false),
        starting_price: Some(j(r#"{"price": 20, "discountedPrice": 7.5, "currencyCode": "EUR"}"#)),
    });
    a.state = Some(None);
    a.prices = Some(vec![offer("o", Some(0.0), None)]);
    match claim_next("u", &a) {
        ClaimAction::Done { result, claimed } => {
            assert!(!claimed);
            assert_eq!(
                compact(&result),
                r#"{"currency":"EUR","ok":false,"price":7.5,"purchase_url":"https://www.fab.com/listings/u","reason":"not_free","title":"","uid":"u"}"#
            );
            assert_eq!(outcome_of(&result), Outcome::SkippedPaid);
        }
        other => panic!("{:?}", other),
    }
    let b = answers(Listing { title: None, is_free: None, starting_price: Some(j(r#"{"price": 20}"#)) });
    match claim_next("u", &b) {
        ClaimAction::Done { result, .. } => {
            assert_eq!(result.get("price"), Some(&Json::Number(Number::Decimal(s("20.0")))));
            assert_eq!(result.get_str("currency"), Some("USD"));
        }
        other => panic!("{:?}", other),
    }
    let c = answers(Listing { title: None, is_free: None, starting_price: None });
    match claim_next("u", &c) {
        ClaimAction::Done { result, .. } => {
            assert_eq!(result.get("price"), Some(&Json::Number(Number::Decimal(s("0.0")))));
        }
        other => panic!("{:?}", other),
    }
}

#[test]
fn owned_listing_is_not_posted() {
    let mut a = answers(free_listing());
    a.state = Some(Some(reply(200, r#"{"acquired":true}"#)));
    a.prices = Some(vec![offer("o", Some(0.0), None)]);
    match claim_next("u", &a) {
        ClaimAction::Done { result, claimed } => {
            assert!(!claimed);
            assert_eq!(compact(&result), r#"{"already_owned":true,"ok":true,"title":"T","uid":"u"}"#);
            assert_eq!(outcome_of(&result), Outcome::AlreadyOwned);
        }
        other => panic!("{:?}", other),
    }
    // Another status does not count as an answer.
    a.state = Some(Some(reply(201, r#"{"acquired":true}"#)));
    assert!(matches!(claim_next("u", &a), ClaimAction::Post { .. }));
}

#[test]
fn claim_without_offers_fails() {
    let mut a = answers(free_listing());
    a.state = Some(None);
    a.prices = Some(vec![]);
    match claim_next("u", &a) {
        ClaimAction::Fail(FabCliError::Generic(m)) => {
            assert_eq!(m, "listing u has no offers — cannot claim")
        }
        other => panic!("{:?}", other),
    }
}

#[test]
fn refused_post_keeps_its_kind() {
    let mut a = answers(free_listing());
    a.state = Some(None);
    a.prices = Some(vec![offer("o", None, None)]);
    a.post = Some(reply(403, "no"));
    match claim_next("u", &a) {
        ClaimAction::Fail(FabCliError::AuthRequired(m)) => {
            assert_eq!(m, "claim POST returned HTTP 403: no")
        }
        other => panic!("{:?}", other),
    }
    assert!(matches!(http_error_to_fabcli(401, "x", ""), FabCliError::AuthRequired(_)));
    assert!(matches!(http_error_to_fabcli(404, "x", ""), FabCliError::NotFound(_)));
    assert!(matches!(http_error_to_fabcli(429, "x", ""), FabCliError::RateLimited(_)));
    assert!(matches!(http_error_to_fabcli(500, "x", ""), FabCliError::Generic(_)));
}

#[test]
fn only_true_says_acquired() {
    assert!(answer_says_acquired(&parse_json(r#"{"acquired":true}"#)));
    assert!(!answer_says_acquired(&parse_json(r#"{"acquired":1}"#)));
    assert!(!answer_says_acquired(&parse_json("")));
}

// ── many claims ──

#[test]
fn csv_parses_trimmed_non_empty() {
    assert_eq!(parse_csv(" a , b ,,c ,"), vec!["a", "b", "c"]);
}

#[test]
fn lines_parses_trimmed_non_empty() {
    assert_eq!(parse_lines(" a\n\n  b\nc\n"), vec!["a", "b", "c"]);
}

#[test]
fn stdin_json_accepts_results_shape() {
    let input = r#"{"results":[{"uid":"a"},{"uid":"b"}]}"#;
    assert_eq!(parse_stdin_json(input).unwrap(), vec!["a", "b"]);
}

#[test]
fn stdin_json_accepts_bare_array() {
    let input = r#"[{"uid":"a"},{"uid":"b"}]"#;
    assert_eq!(parse_stdin_json(input).unwrap(), vec!["a", "b"]);
}

#[test]
fn stdin_json_accepts_string_array() {
    let input = r#"["a","b"]"#;
    assert_eq!(parse_stdin_json(input).unwrap(), vec!["a", "b"]);
}

#[test]
fn stdin_json_rejects_garbage() {
    assert!(parse_stdin_json("{not json").is_err());
}

#[test]
fn stdin_json_errors_say_what_was_expected() {
    match parse_stdin_json(r#"{"results":{}}"#).unwrap_err() {
        FabCliError::InvalidArgs(m) => {
            assert_eq!(m, "--from-stdin-json: expected `{results:[…]}` or `[…]`")
        }
        other => panic!("{:?}", other),
    }
    match parse_stdin_json("{not json").unwrap_err() {
        FabCliError::InvalidArgs(m) => {
            assert_eq!(m, "--from-stdin-json parse error: key must be a string at line 1 column 2")
        }
        other => panic!("{:?}", other),
    }
}

fn batch_args() -> ClaimBatchArgs {
    ClaimBatchArgs { uids: None, stdin: false, from_stdin_json: false, from_library: false }
}

#[test]
fn claim_batch_without_input_mode_exits_six() {
    let err = input_mode(&batch_args()).unwrap_err();
    let (code, kind, message) = err.to_output();
    assert_eq!(code, 6);
    assert_eq!(kind, "invalid_args");
    assert!(message.contains("no UIDs provided"));
}

#[test]
fn claim_batch_sources_in_their_order() {
    let mut args = batch_args();
    args.from_library = true;
    assert!(matches!(input_mode(&args).unwrap(), UidSource::Library));
    args.from_stdin_json = true;
    assert!(matches!(input_mode(&args).unwrap(), UidSource::StdinJson));
    args.stdin = true;
    assert!(matches!(input_mode(&args).unwrap(), UidSource::Lines));
    args.uids = Some(s("a"));
    assert!(matches!(input_mode(&args).unwrap(), UidSource::List(_)));
    assert!(check_uids(&vec![]).is_err());
    assert!(check_uids(&strings(&["a"])).is_ok());
}

#[test]
fn batches_count_every_entry() {
    let entries = vec![
        j(r#"{"ok":true,"claimed":true}"#),
        j(r#"{"ok":true,"already_owned":true}"#),
        j(r#"{"ok":false,"reason":"not_free"}"#),
        failed_entry("u", &FabCliError::NotFound(s("gone"))),
        j(r#"{"ok":true}"#),
    ];
    let t = tally(&entries);
    assert_eq!((t.claimed, t.already_owned, t.skipped_paid, t.failed), (1, 1, 1, 1));
    let end = finish_batch(entries);
    assert!(end.invalidate);
    assert_eq!(
        compact(end.report.get("meta").unwrap()),
        r#"{"already_owned":1,"claimed":1,"failed":1,"skipped_paid":1,"total":5}"#
    );
    assert_eq!(end.report.get_bool("ok"), Some(false));
    assert_eq!(
        compact(&end.report.get_array("results").unwrap()[3]),
        r#"{"error":{"kind":"not_found","message":"gone"},"ok":false,"uid":"u"}"#
    );
    match end.error {
        Some(FabCliError::Generic(m)) => assert_eq!(m, "1 of 5 UIDs failed"),
        other => panic!("{:?}", other),
    }
    let fine = finish_batch(vec![j(r#"{"ok":true,"already_owned":true}"#)]);
    assert!(!fine.invalidate && fine.error.is_none());
    assert_eq!(fine.report.get_bool("ok"), Some(true));
}

// ── arguments ──

#[test]
fn read_id_returns_positional_when_provided() {
    let result = read_id_or_stdin(Some("abc123".into()), false, "").unwrap();
    assert_eq!(result, "abc123");
}

#[test]
fn read_id_positional_takes_priority_over_stdin_flag() {
    let result = read_id_or_stdin(Some("abc123".into()), true, "").unwrap();
    assert_eq!(result, "abc123");
}

#[test]
fn read_id_no_positional_no_stdin_is_error() {
    let err = read_id_or_stdin(None, false, "");
    assert!(err.is_err());
}

#[test]
fn listing_stdin_with_empty_input_fails() {
    let (code, kind, message) = read_id_or_stdin(None, true, " \n").unwrap_err().to_output();
    assert_eq!((code, kind, message.as_str()), (6, "invalid_args", "empty ID from stdin"));
    assert_eq!(read_id_or_stdin(None, true, "\u{a0} id \r\n").unwrap(), "id");
    assert!(wants_line(&None, true));
    assert!(!wants_line(&Some(s("x")), true));
    assert!(!wants_line(&None, false));
}

fn download_args() -> DownloadArgs {
    DownloadArgs {
        uid: None,
        uid_flag: None,
        stdin: false,
        artifact_id: None,
        namespace: None,
        asset_id: None,
        engine: None,
        output: s("out"),
        platform: None,
        jobs: 8,
        force: false,
        into_empty: false,
    }
}

#[test]
fn download_uid_flag_form_parses_same_as_positional() {
    let mut args = download_args();
    assert_eq!(read_download_uid(&args, "").unwrap(), None);
    args.stdin = true;
    assert_eq!(read_download_uid(&args, " u \n").unwrap().as_deref(), Some("u"));
    assert!(read_download_uid(&args, "\n").is_err());
    args.uid_flag = Some(s("flag"));
    assert_eq!(read_download_uid(&args, "").unwrap().as_deref(), Some("flag"));
    args.uid = Some(s("positional"));
    assert_eq!(read_download_uid(&args, "").unwrap().as_deref(), Some("positional"));
}

#[test]
fn overwrite_mode_follows_the_flags() {
    let mut args = download_args();
    assert_eq!(args.overwrite_mode(), OverwriteMode::Default);
    args.into_empty = true;
    assert_eq!(args.overwrite_mode(), OverwriteMode::IntoEmpty);
    args.force = true;
    assert_eq!(args.overwrite_mode(), OverwriteMode::Force);
}

#[test]
fn prices_without_uid_or_offer_ids_fails() {
    let (code, kind, message) = price_query(None, None).unwrap_err().to_output();
    assert_eq!((code, kind), (6, "invalid_args"));
    assert_eq!(message, "provide a listing UID or --offer-ids");
    match price_query(Some(s("u")), Some(s(" a ,, b"))).unwrap() {
        PriceQuery::Offers(ids) => assert_eq!(ids, vec!["a", "", "b"]),
        other => panic!("{:?}", other),
    }
    match price_query(Some(s("u")), None).unwrap() {
        PriceQuery::Listing(uid) => assert_eq!(uid, "u"),
        other => panic!("{:?}", other),
    }
}

#[test]
fn explicit_coordinates_need_all_three_identifiers() {
    let mut args = download_args();
    args.artifact_id = Some(s("art"));
    args.namespace = Some(s("ns"));
    assert_eq!(explicit_coords(&args), None);
    args.asset_id = Some(s("asset"));
    args.platform = Some(s("Windows"));
    let wanted = ResolvedCoords {
        artifact_id: s("art"),
        namespace: s("ns"),
        asset_id: s("asset"),
        platform: Some(s("Windows")),
    };
    assert_eq!(explicit_coords(&args), Some(wanted));
}

#[test]
fn rows_keep_what_the_service_said() {
    let text = r#"{"count":1,"results":[{"uid":"a","title":"T","user":{"sellerName":" S "}},7]}"#;
    let mut v = parse_json(text).unwrap();
    inject_coalesced_fields(&mut v);
    add_ownership(&mut v, &vec![s("a")]);
    let row = r#"{"owned":true,"rating":null,"seller":"S","title":"T","uid":"a","user":{"sellerName":" S "}}"#;
    assert_eq!(print_json(&v, false), format!(r#"{{"count":1,"results":[{},7]}}"#, row));
}

#[test]
fn searches_ask_for_what_was_given() {
    let mut args = SearchArgs {
        query: Some(s("rocks")),
        sort: None,
        count: Some(24),
        cursor: Some(s("c")),
        filter: vec![(s("is_free"), s("1")), (s("q"), s("x"))],
        with_ownership: false,
    };
    let pair = |k: &str, v: &str| (s(k), s(v));
    assert_eq!(
        search_query(&args),
        vec![
            pair("q", "rocks"),
            pair("count", "24"),
            pair("cursor", "c"),
            pair("is_free", "1"),
            pair("q", "x")
        ]
    );
    args.sort = Some(s("-createdAt"));
    assert_eq!(search_query(&args)[1], pair("sort_by", "-createdAt"));
}
