//! Claiming a free listing.
//!
//! A claim asks for the listing, then whether it is owned already, then for its
//! offers; posts the offer that costs nothing; and asks once more whether the
//! listing is owned. What comes next is decided by the answers so far.
use crate::download_resolver::LISTING_URL;
use crate::error::{ErrorView, FabCliError};
use crate::json;
use crate::json::{
    float_number, get_bool_spec, get_number_spec, get_str_spec, is_zero_number, json_text,
    opt_number, parse_view, parsed_json, str_view, Json, JsonView, Number, NumberView,
};
use crate::text;
use crate::text::{decimal_spec, opt_text, preview_spec};
use vstd::prelude::*;

verus! {

/// The value of a JSON value that may be there.
pub open spec fn opt_json(j: Option<Json>) -> Option<JsonView> {
    match j {
        Some(x) => Some(x@),
        None => None,
    }
}

/// The value of a JSON value that may be there.
pub open spec fn opt_json_ref(j: Option<&Json>) -> Option<JsonView> {
    match j {
        Some(x) => Some(x@),
        None => None,
    }
}

/// A number under `key` that equals zero.
pub open spec fn is_zero_field(j: JsonView, key: Seq<char>) -> bool {
    match get_number_spec(j, key) {
        Some(n) => is_zero_number(n),
        None => false,
    }
}

/// A listing that costs nothing: it says so, or its price or its discounted
/// price is zero. A listing without any of these is taken to cost something.
pub open spec fn free_spec(is_free: Option<bool>, starting_price: Option<JsonView>) -> bool {
    is_free == Some(true) || match starting_price {
        Some(p) => is_zero_field(p, "price"@) || is_zero_field(p, "discountedPrice"@),
        None => false,
    }
}

fn zero_field(j: &Json, key: &str) -> (r: bool)
    ensures
        r == is_zero_field(j@, key@),
{
    match j.get_number(key) {
        Some(n) => json::is_zero(n),
        None => false,
    }
}

/// Whether a listing costs nothing.
pub fn is_effectively_free(is_free: Option<bool>, starting_price: Option<&Json>) -> (r: bool)
    ensures
        r == free_spec(is_free, opt_json_ref(starting_price)),
{
    if let Some(true) = is_free {
        return true;
    }
    match starting_price {
        Some(p) => zero_field(p, "price") || zero_field(p, "discountedPrice"),
        None => false,
    }
}

/// The error for an HTTP status that is no success.
pub open spec fn http_error_spec(status: u16, context: Seq<char>, body: Seq<char>) -> ErrorView {
    let message = context + " returned HTTP "@ + decimal_spec(status as nat) + ": "@
        + preview_spec(body, 200);
    if status == 401 || status == 403 {
        ErrorView::AuthRequired(message)
    } else if status == 404 {
        ErrorView::NotFound(message)
    } else if status == 429 {
        ErrorView::RateLimited(message)
    } else {
        ErrorView::Generic(message)
    }
}

/// The error for an HTTP status that is no success, with the beginning of what
/// was answered.
pub fn http_error_to_fabcli(status: u16, context: &str, body: &str) -> (r: FabCliError)
    ensures
        r@ == http_error_spec(status, context@, body@),
{
    let mut m = context.to_owned();
    m.append(" returned HTTP ");
    m.append(text::decimal(status as u64).as_str());
    m.append(": ");
    m.append(text::preview(body, 200).as_str());
    if status == 401 || status == 403 {
        FabCliError::AuthRequired(m)
    } else if status == 404 {
        FabCliError::NotFound(m)
    } else if status == 429 {
        FabCliError::RateLimited(m)
    } else {
        FabCliError::Generic(m)
    }
}

/// One offer of a listing.
#[derive(Debug)]
pub struct PriceInfo {
    pub offer_id: Option<String>,
    pub price: Option<Number>,
    pub discounted_price: Option<Number>,
}

/// An offer that costs nothing: its discounted price is zero, or without one
/// its price.
pub open spec fn is_free_offer(o: PriceInfo) -> bool {
    match opt_number(o.discounted_price) {
        Some(n) => is_zero_number(n),
        None => match opt_number(o.price) {
            Some(n) => is_zero_number(n),
            None => false,
        },
    }
}

/// The first offer that costs nothing.
pub open spec fn first_free_offer(offers: Seq<PriceInfo>) -> Option<PriceInfo>
    decreases offers.len(),
{
    if offers.len() == 0 {
        None
    } else if is_free_offer(offers[0]) {
        Some(offers[0])
    } else {
        first_free_offer(offers.skip(1))
    }
}

/// The first identifier among the offers.
pub open spec fn first_offer_id(offers: Seq<PriceInfo>) -> Option<Seq<char>>
    decreases offers.len(),
{
    if offers.len() == 0 {
        None
    } else if offers[0].offer_id is Some {
        opt_text(offers[0].offer_id)
    } else {
        first_offer_id(offers.skip(1))
    }
}

/// The offer that a claim asks for: the first that costs nothing, or where
/// that has no identifier the first that has one.
pub open spec fn claim_offer_spec(offers: Seq<PriceInfo>) -> Option<Seq<char>> {
    match first_free_offer(offers) {
        Some(o) => match opt_text(o.offer_id) {
            Some(id) => Some(id),
            None => first_offer_id(offers),
        },
        None => first_offer_id(offers),
    }
}

fn offer_is_free(o: &PriceInfo) -> (r: bool)
    ensures
        r == is_free_offer(*o),
{
    match &o.discounted_price {
        Some(n) => json::is_zero(n),
        None => match &o.price {
            Some(n) => json::is_zero(n),
            None => false,
        },
    }
}

/// The identifier of the offer that a claim asks for.
pub fn select_claim_offer_id(offers: &Vec<PriceInfo>) -> (r: Option<String>)
    ensures
        opt_text(r) == claim_offer_spec(offers@),
{
    let mut i: usize = 0;
    assert(offers@.skip(0) =~= offers@);
    while i < offers.len() && !offer_is_free(&offers[i])
        invariant
            i <= offers@.len(),
            first_free_offer(offers@) == first_free_offer(offers@.skip(i as int)),
        decreases offers.len() - i,
    {
        assert(offers@.skip(i as int).skip(1) =~= offers@.skip(i + 1));
        i = i + 1;
    }
    if i < offers.len() {
        match &offers[i].offer_id {
            Some(id) => {
                return Some(id.clone());
            },
            None => {},
        }
    }
    let mut j: usize = 0;
    while j < offers.len()
        invariant
            j <= offers@.len(),
            claim_offer_spec(offers@) == first_offer_id(offers@),
            first_offer_id(offers@) == first_offer_id(offers@.skip(j as int)),
        decreases offers.len() - j,
    {
        match &offers[j].offer_id {
            Some(id) => {
                return Some(id.clone());
            },
            None => {},
        }
        assert(offers@.skip(j as int).skip(1) =~= offers@.skip(j + 1));
        j = j + 1;
    }
    None
}

/// What the public listing says.
#[derive(Debug)]
pub struct Listing {
    pub title: Option<String>,
    pub is_free: Option<bool>,
    pub starting_price: Option<Json>,
}

/// The answer to a request made through the browser session.
#[derive(Debug)]
pub struct Reply {
    pub status: u16,
    pub body: String,
}

/// The answers that a claim has got so far.
#[derive(Debug)]
pub struct ClaimAnswers {
    pub listing: Listing,
    /// Whether the listing is owned, asked before the claim; the inner value
    /// is missing where the request failed.
    pub state: Option<Option<Reply>>,
    pub prices: Option<Vec<PriceInfo>>,
    pub post: Option<Reply>,
    pub verify: Option<Reply>,
}

/// What a claim does next.
#[derive(Debug)]
pub enum ClaimAction {
    /// Ask whether the listing is owned already.
    AskState { path: String },
    /// Ask for the listing's offers.
    FetchPrices,
    /// Add the listing to the library.
    Post { path: String, body: String },
    /// Ask whether the listing is owned now.
    Verify { path: String },
    /// Report; where something was claimed the cached library is out of date.
    Done { result: Json, claimed: bool },
    Fail(FabCliError),
}

/// The mathematical value of a [`ClaimAction`].
#[verifier::ext_equal]
pub enum ActionView {
    AskState { path: Seq<char> },
    FetchPrices,
    Post { path: Seq<char>, body: Seq<char> },
    Verify { path: Seq<char> },
    Done { result: JsonView, claimed: bool },
    Fail(ErrorView),
}

impl View for ClaimAction {
    type V = ActionView;

    open spec fn view(&self) -> ActionView {
        match self {
            ClaimAction::AskState { path } => ActionView::AskState { path: path@ },
            ClaimAction::FetchPrices => ActionView::FetchPrices,
            ClaimAction::Post { path, body } => ActionView::Post { path: path@, body: body@ },
            ClaimAction::Verify { path } => ActionView::Verify { path: path@ },
            ClaimAction::Done { result, claimed } => ActionView::Done {
                result: result@,
                claimed: *claimed,
            },
            ClaimAction::Fail(e) => ActionView::Fail(e@),
        }
    }
}

/// The path under which the state of a listing is asked for.
pub open spec fn state_path_spec(uid: Seq<char>) -> Seq<char> {
    "/i/users/me/listings-states/"@ + uid
}

/// The title of a listing, empty where it has none.
pub open spec fn title_spec(listing: Listing) -> Seq<char> {
    match listing.title {
        Some(t) => t@,
        None => Seq::empty(),
    }
}

/// The listing costs nothing.
pub open spec fn listing_is_free(listing: Listing) -> bool {
    free_spec(listing.is_free, opt_json(listing.starting_price))
}

/// A field of the listing's price as a floating-point number.
pub open spec fn price_field(listing: Listing, key: Seq<char>) -> Option<NumberView> {
    match opt_json(listing.starting_price) {
        Some(p) => match get_number_spec(p, key) {
            Some(n) => float_number(n),
            None => None,
        },
        None => None,
    }
}

/// The price that is reported of two: the discounted one, else the full one,
/// else zero.
pub open spec fn reported_price(
    discounted: Option<NumberView>,
    price: Option<NumberView>,
) -> NumberView {
    match discounted {
        Some(n) => n,
        None => match price {
            Some(n) => n,
            None => NumberView::Decimal("0.0"@),
        },
    }
}

/// The currency of a listing's price.
pub open spec fn currency_spec(listing: Listing) -> Seq<char> {
    match opt_json(listing.starting_price) {
        Some(p) => match get_str_spec(p, "currencyCode"@) {
            Some(c) => c,
            None => "USD"@,
        },
        None => "USD"@,
    }
}

/// The report on a listing that costs something.
pub open spec fn not_free_report(uid: Seq<char>, listing: Listing, price: NumberView) -> JsonView {
    JsonView::Object(
        map![
            "ok"@ => JsonView::Bool(false),
            "reason"@ => str_view("not_free"@),
            "uid"@ => str_view(uid),
            "title"@ => str_view(title_spec(listing)),
            "price"@ => JsonView::Number(price),
            "currency"@ => str_view(currency_spec(listing)),
            "purchase_url"@ => str_view(LISTING_URL@ + uid),
        ],
    )
}

/// The report on a listing that was owned before.
pub open spec fn already_owned_report(uid: Seq<char>, title: Seq<char>) -> JsonView {
    JsonView::Object(
        map![
            "ok"@ => JsonView::Bool(true),
            "already_owned"@ => JsonView::Bool(true),
            "uid"@ => str_view(uid),
            "title"@ => str_view(title),
        ],
    )
}

/// The report on a claimed listing.
pub open spec fn claimed_report(uid: Seq<char>, title: Seq<char>) -> JsonView {
    JsonView::Object(
        map![
            "ok"@ => JsonView::Bool(true),
            "claimed"@ => JsonView::Bool(true),
            "uid"@ => str_view(uid),
            "title"@ => str_view(title),
        ],
    )
}

/// What is posted for the offer `offer_id`.
pub open spec fn claim_body(offer_id: Seq<char>) -> Seq<char> {
    json_text(JsonView::Object(map!["offerId"@ => str_view(offer_id)]))
}

/// An answer, read as JSON, that says that the listing is owned.
pub open spec fn says_acquired(answer: Result<JsonView, Seq<char>>) -> bool {
    match answer {
        Ok(j) => get_bool_spec(j, "acquired"@) == Some(true),
        Err(_) => false,
    }
}

/// The first question on ownership was answered with yes.
pub open spec fn owned_before(state: Option<Reply>) -> bool {
    match state {
        Some(reply) => reply.status == 200 && says_acquired(parsed_json(reply.body@)),
        None => false,
    }
}

/// What a claim of the listing `uid` does next, by the answers so far.
pub open spec fn claim_next_spec(uid: Seq<char>, a: ClaimAnswers) -> ActionView {
    let title = title_spec(a.listing);
    if !listing_is_free(a.listing) {
        ActionView::Done {
            result: not_free_report(
                uid,
                a.listing,
                reported_price(
                    price_field(a.listing, "discountedPrice"@),
                    price_field(a.listing, "price"@),
                ),
            ),
            claimed: false,
        }
    } else {
        match a.state {
            None => ActionView::AskState { path: state_path_spec(uid) },
            Some(state) => if owned_before(state) {
                ActionView::Done { result: already_owned_report(uid, title), claimed: false }
            } else {
                match a.prices {
                    None => ActionView::FetchPrices,
                    Some(offers) => match claim_offer_spec(offers@) {
                        None => ActionView::Fail(
                            ErrorView::Generic(
                                "listing "@ + uid + " has no offers — cannot claim"@,
                            ),
                        ),
                        Some(offer_id) => match a.post {
                            None => ActionView::Post {
                                path: "/i/listings/"@ + uid + "/add-to-library"@,
                                body: claim_body(offer_id),
                            },
                            Some(post) => if !(200 <= post.status < 300) {
                                ActionView::Fail(
                                    http_error_spec(post.status, "claim POST"@, post.body@),
                                )
                            } else {
                                match a.verify {
                                    None => ActionView::Verify { path: state_path_spec(uid) },
                                    Some(verify) => if says_acquired(parsed_json(verify.body@)) {
                                        ActionView::Done {
                                            result: claimed_report(uid, title),
                                            claimed: true,
                                        }
                                    } else {
                                        ActionView::Fail(
                                            ErrorView::Generic(
                                                "claim POST succeeded but ownership could not be verified"@,
                                            ),
                                        )
                                    },
                                }
                            },
                        },
                    },
                }
            },
        }
    }
}

/// Whether an answer, read as JSON, says that the listing is owned.
pub fn answer_says_acquired(answer: &Result<Json, String>) -> (r: bool)
    ensures
        r == says_acquired(parse_view(*answer)),
{
    match answer {
        Ok(j) => match j.get_bool("acquired") {
            Some(b) => b,
            None => false,
        },
        Err(_) => false,
    }
}

fn body_says_acquired(body: &str) -> (r: bool)
    ensures
        r == says_acquired(parsed_json(body@)),
{
    let answer = json::parse(body);
    answer_says_acquired(&answer)
}

fn state_path(uid: &str) -> (r: String)
    ensures
        r@ == state_path_spec(uid@),
{
    let mut path = "/i/users/me/listings-states/".to_owned();
    path.append(uid);
    path
}

fn title_of(listing: &Listing) -> (r: String)
    ensures
        r@ == title_spec(*listing),
{
    match &listing.title {
        Some(t) => t.clone(),
        None => {
            let empty = String::new();
            assert(empty@ =~= Seq::<char>::empty());
            empty
        },
    }
}

fn float_field(listing: &Listing, key: &str) -> (r: Option<Number>)
    ensures
        opt_number(r) == price_field(*listing, key@),
{
    match &listing.starting_price {
        Some(p) => match p.get_number(key) {
            Some(n) => json::to_float(n),
            None => None,
        },
        None => None,
    }
}

/// The report on a listing that costs something: `discounted` and `price` are
/// its two prices as floating-point numbers.
pub fn report_not_free(
    uid: &str,
    listing: &Listing,
    discounted: Option<Number>,
    price: Option<Number>,
) -> (r: Json)
    ensures
        r@ == not_free_report(
            uid@,
            *listing,
            reported_price(opt_number(discounted), opt_number(price)),
        ),
{
    let shown = match discounted {
        Some(n) => n,
        None => match price {
            Some(n) => n,
            None => Number::Decimal("0.0".to_owned()),
        },
    };
    let currency = match &listing.starting_price {
        Some(p) => match p.get_str("currencyCode") {
            Some(c) => c,
            None => "USD",
        },
        None => "USD",
    };
    let mut url = LISTING_URL.to_owned();
    url.append(uid);
    Json::object().with("ok", Json::Bool(false)).with("reason", Json::text("not_free")).with(
        "uid",
        Json::text(uid),
    ).with("title", Json::Str(title_of(listing))).with("price", Json::Number(shown)).with(
        "currency",
        Json::text(currency),
    ).with("purchase_url", Json::Str(url))
}

/// What a claim of the listing `uid` does next, by the answers so far. A
/// listing that costs something is reported and nothing is posted.
pub fn claim_next(uid: &str, a: &ClaimAnswers) -> (r: ClaimAction)
    ensures
        r@ == claim_next_spec(uid@, *a),
{
    let free = match &a.listing.starting_price {
        Some(p) => is_effectively_free(a.listing.is_free, Some(p)),
        None => is_effectively_free(a.listing.is_free, None),
    };
    if !free {
        let discounted = float_field(&a.listing, "discountedPrice");
        let price = float_field(&a.listing, "price");
        return ClaimAction::Done {
            result: report_not_free(uid, &a.listing, discounted, price),
            claimed: false,
        };
    }
    let title = title_of(&a.listing);
    match &a.state {
        None => {
            return ClaimAction::AskState { path: state_path(uid) };
        },
        Some(state) => {
            let owned = match state {
                Some(reply) => reply.status == 200 && body_says_acquired(reply.body.as_str()),
                None => false,
            };
            if owned {
                return ClaimAction::Done {
                    result: Json::object().with("ok", Json::Bool(true)).with(
                        "already_owned",
                        Json::Bool(true),
                    ).with("uid", Json::text(uid)).with("title", Json::Str(title)),
                    claimed: false,
                };
            }
        },
    }
    let offer_id = match &a.prices {
        None => {
            return ClaimAction::FetchPrices;
        },
        Some(offers) => match select_claim_offer_id(offers) {
            Some(id) => id,
            None => {
                let mut m = "listing ".to_owned();
                m.append(uid);
                m.append(" has no offers — cannot claim");
                return ClaimAction::Fail(FabCliError::Generic(m));
            },
        },
    };
    match &a.post {
        None => {
            let mut path = "/i/listings/".to_owned();
            path.append(uid);
            path.append("/add-to-library");
            let body = json::render(
                &Json::object().with("offerId", Json::text(offer_id.as_str())),
            );
            ClaimAction::Post { path, body }
        },
        Some(post) => {
            if !(200 <= post.status && post.status < 300) {
                return ClaimAction::Fail(
                    http_error_to_fabcli(post.status, "claim POST", post.body.as_str()),
                );
            }
            match &a.verify {
                None => ClaimAction::Verify { path: state_path(uid) },
                Some(verify) => {
                    if body_says_acquired(verify.body.as_str()) {
                        ClaimAction::Done {
                            result: Json::object().with("ok", Json::Bool(true)).with(
                                "claimed",
                                Json::Bool(true),
                            ).with("uid", Json::text(uid)).with("title", Json::Str(title)),
                            claimed: true,
                        }
                    } else {
                        ClaimAction::Fail(
                            FabCliError::Generic(
                                "claim POST succeeded but ownership could not be verified".to_owned(),
                            ),
                        )
                    }
                },
            }
        },
    }
}

/// Nothing is posted for a listing that costs something, whatever else was
/// answered: the claim reports `not_free` at once.
pub proof fn paid_listings_are_never_claimed(uid: Seq<char>, a: ClaimAnswers)
    requires
        !listing_is_free(a.listing),
    ensures
        claim_next_spec(uid, a) matches ActionView::Done { result, claimed } && !claimed
            && get_bool_spec(result, "ok"@) == Some(false) && get_str_spec(result, "reason"@)
            == Some("not_free"@),
{
    reveal_strlit("ok");
    reveal_strlit("reason");
    reveal_strlit("uid");
    reveal_strlit("title");
    reveal_strlit("price");
    reveal_strlit("currency");
    reveal_strlit("purchase_url");
    assert("ok"@.len() == 2);
    assert("reason"@.len() == 6);
    assert("uid"@.len() == 3);
    assert("title"@.len() == 5);
    assert("price"@.len() == 5);
    assert("currency"@.len() == 8);
    assert("purchase_url"@.len() == 12);
}

/// A claim posts only for a listing that costs nothing and that was not owned
/// when asked, only where it has got an offer, and not a second time. What it
/// posts adds that offer to the library, and nothing else.
pub proof fn posts_are_guarded(uid: Seq<char>, a: ClaimAnswers)
    requires
        claim_next_spec(uid, a) is Post,
    ensures
        listing_is_free(a.listing),
        a.state matches Some(state) && !owned_before(state),
        a.prices matches Some(offers) && (claim_offer_spec(offers@) matches Some(offer_id)
            && claim_next_spec(uid, a) == (ActionView::Post {
            path: "/i/listings/"@ + uid + "/add-to-library"@,
            body: claim_body(offer_id),
        })),
        a.post is None,
{
}

/// Where the first offer that costs nothing has an identifier, that offer is
/// asked for.
pub proof fn free_offers_are_preferred(offers: Seq<PriceInfo>)
    requires
        first_free_offer(offers) matches Some(o) && o.offer_id is Some,
    ensures
        claim_offer_spec(offers) == opt_text(first_free_offer(offers)->0.offer_id),
        is_free_offer(first_free_offer(offers)->0),
        offers.contains(first_free_offer(offers)->0),
{
    lemma_first_free(offers);
}

proof fn lemma_first_free(offers: Seq<PriceInfo>)
    ensures
        first_free_offer(offers) matches Some(o) ==> is_free_offer(o) && offers.contains(o),
    decreases offers.len(),
{
    if offers.len() > 0 {
        lemma_first_free(offers.skip(1));
        if is_free_offer(offers[0]) {
            assert(offers.contains(offers[0]));
        } else if first_free_offer(offers.skip(1)) is Some {
            let o = first_free_offer(offers.skip(1))->0;
            let k = choose|k: int| 0 <= k < offers.skip(1).len() && offers.skip(1)[k] == o;
            assert(offers[k + 1] == o);
        }
    }
}

/// A listing is reported as claimed only after a successful post and an answer
/// that says that it is owned.
pub proof fn claims_are_verified(uid: Seq<char>, a: ClaimAnswers)
    requires
        claim_next_spec(uid, a) matches ActionView::Done { claimed, .. } && claimed,
    ensures
        a.post matches Some(post) && 200 <= post.status < 300,
        a.verify matches Some(verify) && says_acquired(parsed_json(verify.body@)),
{
}

// ---------------------------------------------------------------------------
// What the answers mean
// ---------------------------------------------------------------------------

proof fn lemma_report_keys()
    ensures
        "ok"@ != "reason"@,
        "ok"@ != "uid"@,
        "ok"@ != "title"@,
        "ok"@ != "price"@,
        "ok"@ != "currency"@,
        "ok"@ != "purchase_url"@,
        "ok"@ != "already_owned"@,
        "ok"@ != "claimed"@,
        "reason"@ != "uid"@,
        "reason"@ != "title"@,
        "reason"@ != "price"@,
        "reason"@ != "currency"@,
        "reason"@ != "purchase_url"@,
        "reason"@ != "already_owned"@,
        "reason"@ != "claimed"@,
        "uid"@ != "title"@,
        "uid"@ != "price"@,
        "uid"@ != "currency"@,
        "uid"@ != "purchase_url"@,
        "uid"@ != "already_owned"@,
        "uid"@ != "claimed"@,
        "title"@ != "price"@,
        "title"@ != "currency"@,
        "title"@ != "purchase_url"@,
        "title"@ != "already_owned"@,
        "title"@ != "claimed"@,
        "price"@ != "currency"@,
        "price"@ != "purchase_url"@,
        "price"@ != "already_owned"@,
        "price"@ != "claimed"@,
        "currency"@ != "purchase_url"@,
        "currency"@ != "already_owned"@,
        "currency"@ != "claimed"@,
        "purchase_url"@ != "already_owned"@,
        "purchase_url"@ != "claimed"@,
        "already_owned"@ != "claimed"@,
{
    reveal_strlit("ok");
    reveal_strlit("reason");
    reveal_strlit("uid");
    reveal_strlit("title");
    reveal_strlit("price");
    reveal_strlit("currency");
    reveal_strlit("purchase_url");
    reveal_strlit("already_owned");
    reveal_strlit("claimed");
    assert("ok"@.len() == 2);
    assert("reason"@.len() == 6);
    assert("uid"@.len() == 3);
    assert("title"@.len() == 5);
    assert("price"@.len() == 5);
    assert("currency"@.len() == 8);
    assert("purchase_url"@.len() == 12);
    assert("already_owned"@.len() == 13);
    assert("claimed"@.len() == 7);
    assert("title"@[0] != "price"@[0]);
}

/// The field acquired alone says that a listing is acquired, and only by being
/// true; an answer that is no JSON says nothing.
pub proof fn acquired_alone_counts(j: JsonView, message: Seq<char>)
    ensures
        says_acquired(Ok(j)) <==> crate::json::get_spec(j, "acquired"@) == Some(
            JsonView::Bool(true),
        ),
        !says_acquired(Err(message)),
{
}

/// `reply` is JSON whose field acquired is true.
pub open spec fn tells_of_ownership(reply: Reply) -> bool {
    parsed_json(reply.body@) matches Ok(j) && crate::json::get_spec(j, "acquired"@) == Some(
        JsonView::Bool(true),
    )
}

/// A claim reports that the listing was owned already exactly where the service
/// answered so, with status 200 and the field acquired true; it then has claimed
/// nothing.
pub proof fn owned_listings_are_left_alone(uid: Seq<char>, a: ClaimAnswers)
    requires
        listing_is_free(a.listing),
    ensures
        (a.state matches Some(Some(reply)) && reply.status == 200 && tells_of_ownership(reply))
            <==> (claim_next_spec(uid, a) matches ActionView::Done { result, claimed }
            && crate::json::get_spec(result, "already_owned"@) == Some(JsonView::Bool(true))),
        claim_next_spec(uid, a) matches ActionView::Done { result, claimed } ==> {
            &&& crate::json::get_spec(result, "ok"@) == Some(JsonView::Bool(true))
            &&& crate::json::get_spec(result, "uid"@) == Some(JsonView::Str(uid))
            &&& crate::json::get_spec(result, "title"@) == Some(
                JsonView::Str(title_spec(a.listing)),
            )
            &&& crate::json::get_spec(result, "already_owned"@) is Some ==> !claimed
            &&& claimed <==> crate::json::get_spec(result, "claimed"@) == Some(
                JsonView::Bool(true),
            )
        },
{
    lemma_report_keys();
    if let Some(Some(reply)) = a.state {
        acquired_alone_counts(parsed_json(reply.body@)->Ok_0, Seq::empty());
    }
}

/// A listing counts as claimed only where it is free, was not owned before, the
/// service took the request, and the answer after that says that it is acquired.
pub proof fn claimed_listings_were_verified(uid: Seq<char>, a: ClaimAnswers)
    ensures
        (claim_next_spec(uid, a) matches ActionView::Done { claimed: true, .. }) <==> {
            &&& listing_is_free(a.listing)
            &&& a.state matches Some(state)
            &&& !(state matches Some(reply) && reply.status == 200 && tells_of_ownership(reply))
            &&& a.prices matches Some(offers)
            &&& claim_offer_spec(offers@) is Some
            &&& a.post matches Some(post)
            &&& 200 <= post.status < 300
            &&& a.verify matches Some(verify)
            &&& tells_of_ownership(verify)
        },
{
    lemma_report_keys();
}

/// A listing is free where it says so, or where its price or its discounted
/// price is zero; and nowhere else.
pub proof fn free_listings_cost_nothing(listing: Listing)
    ensures
        listing_is_free(listing) <==> listing.is_free == Some(true) || (
        listing.starting_price matches Some(p) && (is_zero_price(p@, "price"@) || is_zero_price(
            p@,
            "discountedPrice"@,
        ))),
{
}

/// The field `key` of `j` is a number, and zero.
pub open spec fn is_zero_price(j: JsonView, key: Seq<char>) -> bool {
    crate::json::get_spec(j, key) matches Some(JsonView::Number(n)) && (n
        == NumberView::Unsigned(0) || n == NumberView::Negative(0) || n == NumberView::Decimal(
        "0.0"@,
    ) || n == NumberView::Decimal("-0.0"@))
}

/// What is reported of a listing that is not free: its uid, title and page, the
/// discounted price where there is one, else the price, and the currency of the
/// price, dollars where it names none.
pub proof fn prices_are_reported_as_given(uid: Seq<char>, a: ClaimAnswers, p: Json, n: NumberView)
    requires
        !listing_is_free(a.listing),
        a.listing.starting_price == Some(p),
    ensures
        claim_next_spec(uid, a) matches ActionView::Done { result, claimed } && {
            &&& !claimed
            &&& crate::json::get_spec(result, "ok"@) == Some(JsonView::Bool(false))
            &&& crate::json::get_spec(result, "reason"@) == Some(JsonView::Str("not_free"@))
            &&& crate::json::get_spec(result, "uid"@) == Some(JsonView::Str(uid))
            &&& crate::json::get_spec(result, "title"@) == Some(
                JsonView::Str(title_spec(a.listing)),
            )
            &&& crate::json::get_spec(result, "purchase_url"@) == Some(
                JsonView::Str("https://www.fab.com/listings/"@ + uid),
            )
            &&& crate::json::get_spec(p@, "discountedPrice"@) == Some(JsonView::Number(n))
                && float_number(n) is Some ==> crate::json::get_spec(result, "price"@) == Some(
                JsonView::Number(float_number(n)->0),
            )
            &&& crate::json::get_spec(p@, "discountedPrice"@) is None && crate::json::get_spec(
                p@,
                "price"@,
            ) == Some(JsonView::Number(n)) && float_number(n) is Some ==> crate::json::get_spec(
                result,
                "price"@,
            ) == Some(JsonView::Number(float_number(n)->0))
            &&& crate::json::get_spec(result, "currency"@) == Some(
                match crate::json::get_spec(p@, "currencyCode"@) {
                    Some(JsonView::Str(c)) => JsonView::Str(c),
                    _ => JsonView::Str("USD"@),
                },
            )
        },
{
    lemma_report_keys();
}

/// A refused request is reported by its status: as a missing login for 401 and
/// 403, as a missing thing for 404, as too many requests for 429, and else as a
/// failure, always with the beginning of what the service said.
pub proof fn refusals_are_told_apart(status: u16, context: Seq<char>, body: Seq<char>)
    ensures
        http_error_spec(status, context, body) is AuthRequired <==> status == 401 || status == 403,
        http_error_spec(status, context, body) is NotFound <==> status == 404,
        http_error_spec(status, context, body) is RateLimited <==> status == 429,
        http_error_spec(status, context, body) is Generic <==> !(status == 401 || status == 403
            || status == 404 || status == 429),
        crate::error::message_spec(http_error_spec(status, context, body)) == context
            + " returned HTTP "@ + decimal_spec(status as nat) + ": "@ + preview_spec(body, 200),
{
}

/// An offer is free where its discounted price is zero, or where it has none and
/// its price is zero.
pub proof fn free_offers_cost_nothing(o: PriceInfo)
    ensures
        is_free_offer(o) <==> if o.discounted_price is Some {
            is_zero_number(o.discounted_price->0@)
        } else {
            o.price is Some && is_zero_number(o.price->0@)
        },
{
}

proof fn lemma_free_at(offers: Seq<PriceInfo>, k: int)
    requires
        0 <= k < offers.len(),
        is_free_offer(offers[k]),
        forall|j: int| 0 <= j < k ==> !is_free_offer(#[trigger] offers[j]),
    ensures
        first_free_offer(offers) == Some(offers[k]),
    decreases offers.len(),
{
    if k > 0 {
        let rest = offers.skip(1);
        assert(!is_free_offer(offers[0]));
        assert forall|j: int| 0 <= j < k - 1 implies !is_free_offer(#[trigger] rest[j]) by {
            assert(rest[j] == offers[j + 1]);
        }
        assert(rest[k - 1] == offers[k]);
        lemma_free_at(rest, k - 1);
    }
}

proof fn lemma_no_free(offers: Seq<PriceInfo>)
    requires
        forall|j: int| 0 <= j < offers.len() ==> !is_free_offer(#[trigger] offers[j]),
    ensures
        first_free_offer(offers) is None,
    decreases offers.len(),
{
    if offers.len() > 0 {
        let rest = offers.skip(1);
        assert(!is_free_offer(offers[0]));
        assert forall|j: int| 0 <= j < rest.len() implies !is_free_offer(#[trigger] rest[j]) by {
            assert(rest[j] == offers[j + 1]);
        }
        lemma_no_free(rest);
    }
}

proof fn lemma_id_at(offers: Seq<PriceInfo>, k: int)
    requires
        0 <= k < offers.len(),
        offers[k].offer_id is Some,
        forall|j: int| 0 <= j < k ==> (#[trigger] offers[j]).offer_id is None,
    ensures
        first_offer_id(offers) == opt_text(offers[k].offer_id),
    decreases offers.len(),
{
    if k > 0 {
        let rest = offers.skip(1);
        assert(offers[0].offer_id is None);
        assert forall|j: int| 0 <= j < k - 1 implies (#[trigger] rest[j]).offer_id is None by {
            assert(rest[j] == offers[j + 1]);
        }
        assert(rest[k - 1] == offers[k]);
        lemma_id_at(rest, k - 1);
    }
}

proof fn lemma_no_id(offers: Seq<PriceInfo>)
    requires
        forall|j: int| 0 <= j < offers.len() ==> (#[trigger] offers[j]).offer_id is None,
    ensures
        first_offer_id(offers) is None,
    decreases offers.len(),
{
    if offers.len() > 0 {
        let rest = offers.skip(1);
        assert(offers[0].offer_id is None);
        assert forall|j: int| 0 <= j < rest.len() implies (#[trigger] rest[j]).offer_id is None by {
            assert(rest[j] == offers[j + 1]);
        }
        lemma_no_id(rest);
    }
}

/// The offer that is claimed is the first free one, where that has an id.
pub proof fn the_first_free_offer_is_claimed(offers: Seq<PriceInfo>, k: int)
    requires
        0 <= k < offers.len(),
        is_free_offer(offers[k]),
        forall|j: int| 0 <= j < k ==> !is_free_offer(#[trigger] offers[j]),
        offers[k].offer_id is Some,
    ensures
        claim_offer_spec(offers) == Some(offers[k].offer_id->0@),
{
    lemma_free_at(offers, k);
}

/// Where no offer is free, or the first free one has no id, the offer that is
/// claimed is the first with an id.
pub proof fn else_the_first_offer_is_claimed(offers: Seq<PriceInfo>, k: int)
    requires
        0 <= k < offers.len(),
        offers[k].offer_id is Some,
        forall|j: int| 0 <= j < k ==> (#[trigger] offers[j]).offer_id is None,
        (forall|j: int| 0 <= j < offers.len() ==> !is_free_offer(#[trigger] offers[j])) || (
        exists|f: int|
            0 <= f < offers.len() && is_free_offer(#[trigger] offers[f]) && offers[f].offer_id
                is None && forall|j: int| 0 <= j < f ==> !is_free_offer(#[trigger] offers[j])),
    ensures
        claim_offer_spec(offers) == Some(offers[k].offer_id->0@),
{
    lemma_id_at(offers, k);
    if forall|j: int| 0 <= j < offers.len() ==> !is_free_offer(#[trigger] offers[j]) {
        lemma_no_free(offers);
    } else {
        let f = choose|f: int|
            0 <= f < offers.len() && is_free_offer(#[trigger] offers[f]) && offers[f].offer_id
                is None && forall|j: int| 0 <= j < f ==> !is_free_offer(#[trigger] offers[j]);
        lemma_free_at(offers, f);
    }
}

/// Where no offer has an id, nothing can be claimed.
pub proof fn offers_without_ids_cannot_be_claimed(offers: Seq<PriceInfo>)
    requires
        forall|j: int| 0 <= j < offers.len() ==> (#[trigger] offers[j]).offer_id is None,
    ensures
        claim_offer_spec(offers) is None,
    decreases offers.len(),
{
    lemma_no_id(offers);
    lemma_first_free_member(offers);
}

proof fn lemma_first_free_member(offers: Seq<PriceInfo>)
    ensures
        first_free_offer(offers) matches Some(o) ==> exists|j: int|
            0 <= j < offers.len() && #[trigger] offers[j] == o,
    decreases offers.len(),
{
    if offers.len() > 0 && !is_free_offer(offers[0]) {
        let rest = offers.skip(1);
        lemma_first_free_member(rest);
        if let Some(o) = first_free_offer(rest) {
            let j = choose|j: int| 0 <= j < rest.len() && #[trigger] rest[j] == o;
            assert(offers[j + 1] == o);
        }
    }
}

/// The course of a claim of a free listing that is not owned: the state is
/// asked for, then the offers, then the offer is claimed at the listing's own
/// address with a body that holds its id and nothing else, and then the state is
/// asked for again; each only where the answer before it is there.
pub proof fn claims_take_their_course(uid: Seq<char>, a: ClaimAnswers)
    requires
        listing_is_free(a.listing),
    ensures
        a.state is None ==> claim_next_spec(uid, a) == (ActionView::AskState {
            path: "/i/users/me/listings-states/"@ + uid,
        }),
        a.state matches Some(state) ==> (!(state matches Some(reply) && reply.status == 200
            && tells_of_ownership(reply)) ==> match a.prices {
            None => claim_next_spec(uid, a) is FetchPrices,
            Some(offers) => match claim_offer_spec(offers@) {
                None => claim_next_spec(uid, a) is Fail,
                Some(id) => match a.post {
                    None => claim_next_spec(uid, a) matches ActionView::Post { path, body } && path
                        == "/i/listings/"@ + uid + "/add-to-library"@ && body == json_text(
                        JsonView::Object(
                            Map::<Seq<char>, JsonView>::empty().insert(
                                "offerId"@,
                                JsonView::Str(id),
                            ),
                        ),
                    ),
                    Some(post) => if post.status < 200 || post.status >= 300 {
                        claim_next_spec(uid, a) == ActionView::Fail(
                            http_error_spec(post.status, "claim POST"@, post.body@),
                        )
                    } else {
                        match a.verify {
                            None => claim_next_spec(uid, a) == (ActionView::Verify {
                                path: "/i/users/me/listings-states/"@ + uid,
                            }),
                            Some(verify) => !tells_of_ownership(verify) ==> claim_next_spec(
                                uid,
                                a,
                            ) is Fail,
                        }
                    },
                },
            },
        }),
{
}

/// Of a listing that is not free and has no price at all, zero is reported, in
/// dollars; and where the discounted price is no number, the price is.
pub proof fn missing_prices_are_reported(uid: Seq<char>, a: ClaimAnswers, p: Json, n: NumberView)
    requires
        !listing_is_free(a.listing),
    ensures
        a.listing.starting_price is None ==> (claim_next_spec(uid, a) matches ActionView::Done {
            result,
            claimed,
        } && !claimed && crate::json::get_spec(result, "price"@) == Some(
            JsonView::Number(NumberView::Decimal("0.0"@)),
        ) && crate::json::get_spec(result, "currency"@) == Some(JsonView::Str("USD"@))),
        a.listing.starting_price == Some(p) && !(crate::json::get_spec(p@, "discountedPrice"@)
            matches Some(JsonView::Number(_))) && crate::json::get_spec(p@, "price"@) == Some(
            JsonView::Number(n),
        ) && float_number(n) is Some ==> (claim_next_spec(uid, a) matches ActionView::Done {
            result,
            claimed,
        } && crate::json::get_spec(result, "price"@) == Some(
            JsonView::Number(float_number(n)->0),
        )),
{
    lemma_report_keys();
}

/// The title that is reported is the listing's; one without a title has an empty
/// one.
pub proof fn titles_are_reported_as_given(listing: Listing)
    ensures
        listing.title matches Some(t) ==> title_spec(listing) == t@,
        listing.title is None ==> title_spec(listing).len() == 0,
{
}

/// A claim that fails says of which listing, or what the service said.
pub proof fn failed_claims_say_why(uid: Seq<char>, a: ClaimAnswers)
    ensures
        claim_next_spec(uid, a) matches ActionView::Fail(e) ==> {
            ||| crate::text::contains_spec(crate::error::message_spec(e), uid)
            ||| a.post matches Some(post) && e == http_error_spec(
                post.status,
                "claim POST"@,
                post.body@,
            )
            ||| a.verify is Some && e is Generic
        },
{
    crate::text::parts_are_found("listing "@, uid, " has no offers — cannot claim"@, Seq::empty());
}

} // verus!
