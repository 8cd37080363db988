//! Logging in and out.
use crate::clock::{can_add_days, days_in_nanos, days_span, rfc3339, rfc3339_text, Timestamp};
use crate::error::{epic_error_spec, EpicError, ErrorView, FabCliError};
use crate::fab_session::{time_json, time_to_json, FabSession};
use crate::json;
use crate::json::{get_str_spec, parse_view, parsed_json, str_view, Json, JsonView};
use crate::text;
use crate::text::{
    free_of, opt_text, remove_char_spec, split_spec, splits_once, starts_with_spec,
    strip_prefix_spec, texts, trim_spec,
};
use vstd::prelude::*;

verus! {

/// The page that a login begins with.
pub const LOGIN_URL: &'static str =
    "https://www.epicgames.com/id/login?redirectUrl=https%3A%2F%2Fwww.epicgames.com%2Fid%2Fapi%2Fredirect%3FclientId%3D34a02cf8f4414e29b15921876da36f9a%26responseType%3Dcode";

/// The page that the marketplace's own login begins with.
pub const FAB_LOGIN_URL: &'static str = "https://www.fab.com/social/login/epic/";

/// The pages that are no longer part of the marketplace's login.
pub open spec fn flow_complete_spec(url: Seq<char>) -> bool {
    &&& starts_with_spec(url, "https://www.fab.com/"@)
    &&& !starts_with_spec(url, "https://www.fab.com/social/login/"@)
    &&& !starts_with_spec(url, "https://www.fab.com/social/complete/"@)
    &&& !starts_with_spec(url, "https://www.fab.com/login"@)
}

/// Whether the marketplace's login is over: a page of the marketplace is shown
/// that is not part of it.
pub fn is_fab_flow_complete(url: &str) -> (r: bool)
    ensures
        r == flow_complete_spec(url@),
{
    text::starts_with(url, "https://www.fab.com/") && !text::starts_with(
        url,
        "https://www.fab.com/social/login/",
    ) && !text::starts_with(url, "https://www.fab.com/social/complete/") && !text::starts_with(
        url,
        "https://www.fab.com/login",
    )
}

/// The code in the first of `pairs` that is one, up to a fragment.
pub open spec fn code_in_pairs(pairs: Seq<Seq<char>>) -> Option<Seq<char>>
    decreases pairs.len(),
{
    if pairs.len() == 0 {
        None
    } else {
        match strip_prefix_spec(pairs[0], "code="@) {
            Some(v) => Some(split_spec(v, '#')[0]),
            None => code_in_pairs(pairs.skip(1)),
        }
    }
}

/// `r` is the code in the query of `url`: the part behind the first question
/// mark, between its ampersands.
pub open spec fn is_code_of_url(url: Seq<char>, r: Option<Seq<char>>) -> bool {
    &&& free_of(url, '?') ==> r is None
    &&& forall|head: Seq<char>, query: Seq<char>| #[trigger]
        splits_once(url, '?', head, query) ==> r == code_in_pairs(split_spec(query, '&'))
}

/// The code in the query of a redirection's URL.
pub fn extract_code_from_redirect_url(url: &str) -> (r: Option<String>)
    ensures
        is_code_of_url(url@, opt_text(r)),
{
    match text::split_once(url, '?') {
        None => {
            assert forall|head: Seq<char>, query: Seq<char>| !#[trigger] splits_once(
                url@,
                '?',
                head,
                query,
            ) by {
                if splits_once(url@, '?', head, query) {
                    assert((head.push('?') + query)[head.len() as int] == '?');
                }
            }
            None
        },
        Some((before, query)) => {
            assert forall|head: Seq<char>, q: Seq<char>| #[trigger]
                splits_once(url@, '?', head, q) implies q == query@ by {
                text::split_once_unique(url@, '?', head, q, before@, query@);
            }
            assert((before@.push('?') + query@)[before@.len() as int] == '?');
            code_in_query(query.as_str())
        },
    }
}

fn code_in_query(query: &str) -> (r: Option<String>)
    ensures
        opt_text(r) == code_in_pairs(split_spec(query@, '&')),
{
    let pairs = text::split(query, '&');
    let ghost all = texts(pairs@);
    let mut i: usize = 0;
    assert(all.skip(0) =~= all);
    while i < pairs.len()
        invariant
            i <= pairs@.len(),
            all == texts(pairs@),
            all == split_spec(query@, '&'),
            code_in_pairs(all) == code_in_pairs(all.skip(i as int)),
        decreases pairs.len() - i,
    {
        assert(all.skip(i as int)[0] == pairs@[i as int]@);
        match text::strip_prefix(pairs[i].as_str(), "code=") {
            Some(v) => {
                let pieces = text::split(v.as_str(), '#');
                assert(texts(pieces@)[0] == pieces@[0]@);
                return Some(pieces[0].clone());
            },
            None => {},
        }
        assert(all.skip(i as int).skip(1) =~= all.skip(i + 1));
        i = i + 1;
    }
    None
}

/// `r` is the code in what the login page posted: the field of its own, else
/// that in the URL of the redirection.
pub open spec fn is_posted_code(posted: Result<JsonView, Seq<char>>, r: Option<Seq<char>>) -> bool {
    match posted {
        Err(_) => r is None,
        Ok(v) => match get_str_spec(v, "authorizationCode"@) {
            Some(code) => r == Some(code),
            None => match get_str_spec(v, "redirectUrl"@) {
                Some(url) => is_code_of_url(url, r),
                None => r is None,
            },
        },
    }
}

/// The code in what the login page posted, read as JSON.
pub fn code_from_post(posted: &Result<Json, String>) -> (r: Option<String>)
    ensures
        is_posted_code(parse_view(*posted), opt_text(r)),
{
    match posted {
        Err(_) => None,
        Ok(v) => match v.get_str("authorizationCode") {
            Some(code) => Some(code.to_owned()),
            None => match v.get_str("redirectUrl") {
                Some(url) => extract_code_from_redirect_url(url),
                None => None,
            },
        },
    }
}

/// The code in what the login page posted.
pub fn code_from_ipc(body: &str) -> (r: Option<String>)
    ensures
        is_posted_code(parsed_json(body@), opt_text(r)),
{
    let posted = json::parse(body);
    code_from_post(&posted)
}

/// The error for a login whose window was closed.
pub fn login_cancelled() -> (r: FabCliError)
    ensures
        r@ == ErrorView::Generic(
            "login cancelled — window closed without completing login"@,
        ),
{
    FabCliError::Generic("login cancelled — window closed without completing login".to_owned())
}

/// The error for a login to the marketplace whose window was closed.
pub fn fab_login_cancelled() -> (r: FabCliError)
    ensures
        r@ == ErrorView::Generic(
            "Fab login cancelled — window closed without completing the SSO flow"@,
        ),
{
    FabCliError::Generic(
        "Fab login cancelled — window closed without completing the SSO flow".to_owned(),
    )
}

// ---------------------------------------------------------------------------
// The session
// ---------------------------------------------------------------------------

/// How renewing the session with its refresh token went.
#[derive(Debug)]
pub enum Refresh {
    /// It was not needed.
    NotNeeded,
    Done,
    Rejected,
    Failed(EpicError),
}

/// The error for a session that cannot be renewed.
pub open spec fn refresh_expired_error() -> ErrorView {
    ErrorView::AuthRequired("refresh token expired — re-run 'fabcli auth login'"@)
}

/// Whether a session can be used, and whether it was renewed.
pub open spec fn loaded_spec(stored: bool, refresh: Refresh) -> Result<bool, ErrorView> {
    if !stored {
        Err(ErrorView::AuthRequired("no session — run 'fabcli auth login' first"@))
    } else {
        match refresh {
            Refresh::NotNeeded => Ok(false),
            Refresh::Done => Ok(true),
            Refresh::Rejected => Err(refresh_expired_error()),
            Refresh::Failed(EpicError::InvalidCredentials) => Err(refresh_expired_error()),
            Refresh::Failed(EpicError::Api(_)) => Err(refresh_expired_error()),
            Refresh::Failed(e) => Err(epic_error_spec(e)),
        }
    }
}

/// A truth value or an error, by its value.
pub open spec fn bool_result(r: Result<bool, FabCliError>) -> Result<bool, ErrorView> {
    match r {
        Ok(b) => Ok(b),
        Err(e) => Err(e@),
    }
}

fn refresh_expired() -> (r: FabCliError)
    ensures
        r@ == refresh_expired_error(),
{
    FabCliError::AuthRequired("refresh token expired — re-run 'fabcli auth login'".to_owned())
}

/// Whether a session can be used, and whether it was renewed and has to be
/// stored again. `stored` is whether there is a session at all. Where the
/// service refuses to renew it, a new login is needed.
pub fn load_session(stored: bool, refresh: Refresh) -> (r: Result<bool, FabCliError>)
    ensures
        bool_result(r) == loaded_spec(stored, refresh),
{
    if !stored {
        return Err(
            FabCliError::AuthRequired("no session — run 'fabcli auth login' first".to_owned()),
        );
    }
    match refresh {
        Refresh::NotNeeded => Ok(false),
        Refresh::Done => Ok(true),
        Refresh::Rejected => Err(refresh_expired()),
        Refresh::Failed(EpicError::InvalidCredentials) => Err(refresh_expired()),
        Refresh::Failed(EpicError::Api(_)) => Err(refresh_expired()),
        Refresh::Failed(e) => Err(FabCliError::from_epic(e)),
    }
}

/// Whose session it is.
#[derive(Debug)]
pub struct Account {
    pub account_id: Option<String>,
    pub display_name: Option<String>,
    pub expires_at: Option<Timestamp>,
}

/// The text of a point in time that may be there.
pub open spec fn opt_time(t: Option<Timestamp>) -> Option<Seq<char>> {
    match t {
        Some(x) => rfc3339_text(x.secs, x.nanos),
        None => None,
    }
}

fn time_text(t: Option<Timestamp>) -> (r: Option<String>)
    ensures
        opt_text(r) == opt_time(t),
{
    match t {
        Some(x) => rfc3339(x),
        None => None,
    }
}

/// The end of a web session that may be there.
pub open spec fn fab_end(s: Option<FabSession>) -> Option<Timestamp> {
    match s {
        Some(fs) => Some(fs.expires_at),
        None => None,
    }
}

fn fab_end_text(s: Option<FabSession>) -> (r: Option<String>)
    ensures
        opt_text(r) == opt_time(fab_end(s)),
{
    match s {
        Some(fs) => time_text(Some(fs.expires_at)),
        None => None,
    }
}

fn opt_copy(s: &Option<String>) -> (r: Option<String>)
    ensures
        opt_text(r) == opt_text(*s),
{
    match s {
        Some(t) => Some(t.clone()),
        None => None,
    }
}

/// What a report on an account begins with.
pub open spec fn account_fields(a: Account) -> Map<Seq<char>, JsonView> {
    map![
        "ok"@ => JsonView::Bool(true),
        "account_id"@ => time_json(opt_text(a.account_id)),
        "display_name"@ => time_json(opt_text(a.display_name)),
    ]
}

fn account_json(a: &Account) -> (r: Json)
    ensures
        r@ == JsonView::Object(account_fields(*a)),
{
    Json::object().with("ok", Json::Bool(true)).with(
        "account_id",
        time_to_json(opt_copy(&a.account_id)),
    ).with("display_name", time_to_json(opt_copy(&a.display_name)))
}

/// The report that nothing had to be done; the two times are those at which the
/// sessions end.
pub open spec fn authenticated_spec(
    a: Account,
    epic_end: Option<Seq<char>>,
    fab_end_text: Option<Seq<char>>,
) -> JsonView {
    JsonView::Object(
        account_fields(a).insert("already_authenticated"@, JsonView::Bool(true)).insert(
            "epic_expires_at"@,
            time_json(epic_end),
        ).insert("fab_expires_at"@, time_json(fab_end_text)),
    )
}

/// The report that nothing had to be done.
pub fn authenticated_report(a: &Account, fab: Option<FabSession>) -> (r: Json)
    ensures
        r@ == authenticated_spec(*a, opt_time(a.expires_at), opt_time(fab_end(fab))),
{
    authenticated_json(a, time_text(a.expires_at), fab_end_text(fab))
}

/// The report that nothing had to be done, with the two times at which the
/// sessions end.
pub fn authenticated_json(a: &Account, epic_end: Option<String>, fab_end: Option<String>) -> (r:
    Json)
    ensures
        r@ == authenticated_spec(*a, opt_text(epic_end), opt_text(fab_end)),
{
    account_json(a).with("already_authenticated", Json::Bool(true)).with(
        "epic_expires_at",
        time_to_json(epic_end),
    ).with("fab_expires_at", time_to_json(fab_end))
}

/// The report of a renewed web session.
pub fn renewed_report(a: &Account) -> (r: Json)
    ensures
        r@ == renewed_spec(*a),
{
    account_json(a).with("epic_auth", Json::Bool(true)).with("fab_session", Json::Bool(true))
}

/// The report of a whole login; the two times are those at which the sessions
/// end.
pub open spec fn combined_spec(
    a: Account,
    epic_end: Option<Seq<char>>,
    fab_ok: bool,
    fab_end_text: Option<Seq<char>>,
) -> JsonView {
    JsonView::Object(
        account_fields(a).insert("epic_auth"@, JsonView::Bool(true)).insert(
            "epic_expires_at"@,
            time_json(epic_end),
        ).insert("fab_session"@, JsonView::Bool(fab_ok)).insert(
            "fab_expires_at"@,
            time_json(fab_end_text),
        ),
    )
}

/// The report of a whole login, of which the second half may have failed.
pub fn combined_report(a: &Account, fab: Option<FabSession>) -> (r: Json)
    ensures
        r@ == combined_spec(*a, opt_time(a.expires_at), fab is Some, opt_time(fab_end(fab))),
{
    combined_json(a, time_text(a.expires_at), fab.is_some(), fab_end_text(fab))
}

/// The report of a whole login, with the two times at which the sessions end.
pub fn combined_json(
    a: &Account,
    epic_end: Option<String>,
    fab_ok: bool,
    fab_end_text: Option<String>,
) -> (r: Json)
    ensures
        r@ == combined_spec(*a, opt_text(epic_end), fab_ok, opt_text(fab_end_text)),
{
    account_json(a).with("epic_auth", Json::Bool(true)).with(
        "epic_expires_at",
        time_to_json(epic_end),
    ).with("fab_session", Json::Bool(fab_ok)).with("fab_expires_at", time_to_json(fab_end_text))
}

/// The report of a login without a web session.
pub fn simple_report(a: &Account) -> (r: Json)
    ensures
        r@ == JsonView::Object(account_fields(*a)),
{
    account_json(a)
}

/// The report on an account.
pub fn whoami_report(a: &Account, email: Option<String>) -> (r: Json)
    ensures
        r@ == whoami_spec(*a, opt_text(email)),
{
    Json::object().with("account_id", time_to_json(opt_copy(&a.account_id))).with(
        "display_name",
        time_to_json(opt_copy(&a.display_name)),
    ).with("email", time_to_json(email))
}

/// The report on the sessions; `fab` is that on the web session.
pub fn status_report(expires_at: Option<String>, refreshed: bool, fab: Json) -> (r: Json)
    ensures
        r@ == status_json_spec(opt_text(expires_at), refreshed, fab@),
{
    Json::object().with("authenticated", Json::Bool(true)).with(
        "expires_at",
        time_to_json(expires_at),
    ).with("refreshed", Json::Bool(refreshed)).with("fab", fab)
}

/// The end of an account's session as text; null where it has none.
pub fn expiry_of(a: &Account) -> (r: Option<String>)
    ensures
        opt_text(r) == opt_time(a.expires_at),
{
    time_text(a.expires_at)
}

/// The report of a logout.
pub open spec fn logout_json_spec(had_session: bool) -> JsonView {
    JsonView::Object(
        if had_session {
            map!["ok"@ => JsonView::Bool(true)]
        } else {
            map!["ok"@ => JsonView::Bool(true), "note"@ => str_view("no session"@)]
        },
    )
}

/// The report of a logout.
pub fn logout_report(had_session: bool) -> (r: Json)
    ensures
        r@ == logout_json_spec(had_session),
{
    let base = Json::object().with("ok", Json::Bool(true));
    if had_session {
        base
    } else {
        base.with("note", Json::text("no session"))
    }
}

/// The error for a code that the service rejected.
pub open spec fn rejected_code_error() -> ErrorView {
    ErrorView::AuthRequired("authorization code rejected by Epic"@)
}

/// Refuses a code that the service rejected.
pub fn check_exchange(accepted: bool) -> (r: Result<(), FabCliError>)
    ensures
        r is Ok <==> accepted,
        r matches Err(e) ==> e@ == rejected_code_error(),
{
    if accepted {
        Ok(())
    } else {
        Err(FabCliError::AuthRequired("authorization code rejected by Epic".to_owned()))
    }
}

// ---------------------------------------------------------------------------
// The login
// ---------------------------------------------------------------------------

/// Before how many days of its end a web session is renewed by a login.
pub const RENEW_DAYS: i64 = 7;

/// What is known in the course of a login.
#[derive(Debug)]
pub struct LoginProgress {
    /// The caller asked for a pasted code.
    pub manual: bool,
    /// The session that is there, with its web session, and the time.
    pub session: Option<(Account, Option<FabSession>, Timestamp)>,
    /// How renewing the web session went.
    pub renewed: Option<Result<(), String>>,
    /// What the web view came to: a code, or why there is none.
    pub web_view: Option<Result<String, String>>,
    /// Somebody can be asked.
    pub terminal: bool,
    /// The line that was pasted.
    pub pasted: Option<String>,
}

/// What a login does next.
#[derive(Debug)]
pub enum LoginAction {
    /// Both sessions are there: report.
    AlreadyAuthenticated,
    /// Renew the web session.
    RenewFab,
    /// The web session was renewed: report.
    Renewed,
    /// Show the web view.
    ShowWebView,
    /// Exchange the code, and log in to the marketplace as well.
    FinishCombined { code: String },
    /// Ask for a code.
    AskForCode,
    /// Exchange the code.
    FinishSimple { code: String },
    Fail(FabCliError),
}

/// The mathematical value of a [`LoginAction`].
#[allow(inconsistent_fields)]
#[verifier::ext_equal]
pub enum LoginView {
    AlreadyAuthenticated,
    RenewFab,
    Renewed,
    ShowWebView,
    FinishCombined { code: Seq<char> },
    AskForCode,
    FinishSimple { code: Seq<char> },
    Fail(ErrorView),
}

impl View for LoginAction {
    type V = LoginView;

    open spec fn view(&self) -> LoginView {
        match self {
            LoginAction::AlreadyAuthenticated => LoginView::AlreadyAuthenticated,
            LoginAction::RenewFab => LoginView::RenewFab,
            LoginAction::Renewed => LoginView::Renewed,
            LoginAction::ShowWebView => LoginView::ShowWebView,
            LoginAction::FinishCombined { code } => LoginView::FinishCombined { code: code@ },
            LoginAction::AskForCode => LoginView::AskForCode,
            LoginAction::FinishSimple { code } => LoginView::FinishSimple { code: code@ },
            LoginAction::Fail(e) => LoginView::Fail(e@),
        }
    }
}

/// A web session that lasts long enough to be kept.
pub open spec fn fab_is_fresh(fab: Option<FabSession>, now: Timestamp) -> bool {
    match fab {
        Some(fs) => !fs.ends_within(now, days_in_nanos(RENEW_DAYS as int)),
        None => false,
    }
}

/// The code that a pasted line holds.
pub open spec fn pasted_code(line: Seq<char>) -> Seq<char> {
    remove_char_spec(trim_spec(line), '"')
}

/// What a login by a pasted code does next.
pub open spec fn manual_spec(p: LoginProgress) -> LoginView {
    if !p.terminal {
        LoginView::Fail(
            ErrorView::Generic(
                "manual login requires an interactive TTY on stdin (try without --manual for WebView login)"@,
            ),
        )
    } else {
        match p.pasted {
            None => LoginView::AskForCode,
            Some(line) => if pasted_code(line@).len() == 0 {
                LoginView::Fail(ErrorView::Generic("no authorization code provided"@))
            } else {
                LoginView::FinishSimple { code: pasted_code(line@) }
            },
        }
    }
}

/// What a whole login does next.
pub open spec fn full_login_spec(p: LoginProgress) -> LoginView {
    if p.manual {
        manual_spec(p)
    } else {
        match p.web_view {
            None => LoginView::ShowWebView,
            Some(Ok(code)) => LoginView::FinishCombined { code: code@ },
            Some(Err(_)) => manual_spec(p),
        }
    }
}

/// What a login does next.
pub open spec fn login_spec(p: LoginProgress) -> LoginView {
    match p.session {
        None => full_login_spec(p),
        Some((_, fab, now)) => if fab_is_fresh(fab, now) {
            LoginView::AlreadyAuthenticated
        } else {
            match p.renewed {
                None => LoginView::RenewFab,
                Some(Ok(_)) => LoginView::Renewed,
                Some(Err(_)) => full_login_spec(p),
            }
        },
    }
}

fn manual_next(p: &LoginProgress) -> (r: LoginAction)
    ensures
        r@ == manual_spec(*p),
{
    if !p.terminal {
        return LoginAction::Fail(
            FabCliError::Generic(
                "manual login requires an interactive TTY on stdin (try without --manual for WebView login)".to_owned(),
            ),
        );
    }
    match &p.pasted {
        None => LoginAction::AskForCode,
        Some(line) => {
            let trimmed = text::trim(line.as_str());
            let code = text::remove_char(trimmed.as_str(), '"');
            if code.as_str().is_empty() {
                return LoginAction::Fail(
                    FabCliError::Generic("no authorization code provided".to_owned()),
                );
            }
            LoginAction::FinishSimple { code }
        },
    }
}

fn full_login_next(p: &LoginProgress) -> (r: LoginAction)
    ensures
        r@ == full_login_spec(*p),
{
    if p.manual {
        return manual_next(p);
    }
    match &p.web_view {
        None => LoginAction::ShowWebView,
        Some(Ok(code)) => LoginAction::FinishCombined { code: code.clone() },
        Some(Err(_)) => manual_next(p),
    }
}

/// What a login does next. Where both sessions last long enough nothing is
/// done; where only the web session does not, that one is renewed; else the
/// web view is shown, and where that fails or was not wanted a code is asked
/// for.
pub fn login(p: &LoginProgress) -> (r: LoginAction)
    requires
        p.session matches Some(s) ==> (s.1 is Some ==> can_add_days(s.2, RENEW_DAYS as int)),
    ensures
        r@ == login_spec(*p),
{
    match &p.session {
        None => full_login_next(p),
        Some((_, fab, now)) => {
            let fresh = match fab {
                Some(fs) => !fs.expires_within(*now, days_span(RENEW_DAYS)),
                None => false,
            };
            if fresh {
                return LoginAction::AlreadyAuthenticated;
            }
            match &p.renewed {
                None => LoginAction::RenewFab,
                Some(Ok(_)) => LoginAction::Renewed,
                Some(Err(_)) => full_login_next(p),
            }
        },
    }
}

/// Where both sessions are there and the web session is good for a while, a
/// login shows no window and asks for nothing.
pub proof fn valid_sessions_are_kept(p: LoginProgress)
    requires
        p.session matches Some(s) && fab_is_fresh(s.1, s.2),
    ensures
        login_spec(p) == LoginView::AlreadyAuthenticated,
{
}

/// A login by a pasted code never shows the web view, once renewing the web
/// session was tried or is not needed.
pub proof fn manual_logins_show_no_web_view(p: LoginProgress)
    requires
        p.manual,
    ensures
        login_spec(p) != LoginView::ShowWebView,
        !(login_spec(p) is FinishCombined),
{
}

/// What is known once a login has its code.
#[derive(Debug)]
pub struct FinishProgress {
    /// A web session is wanted too.
    pub combined: bool,
    /// Whether the service accepted the code.
    pub accepted: Option<bool>,
    /// The session is stored.
    pub saved: bool,
    /// Whether the marketplace gave a web session.
    pub fab: Option<bool>,
    /// The session is stored with its web session.
    pub saved_with_fab: bool,
}

/// What a login with a code does next.
#[derive(Debug)]
pub enum FinishAction {
    /// Exchange the code for a session.
    Exchange,
    /// Store the session without a web session.
    Save,
    /// Log in to the marketplace.
    ObtainFab,
    /// Store the session with its web session.
    SaveWithFab,
    Report,
    Fail(FabCliError),
}

/// The mathematical value of a [`FinishAction`].
#[verifier::ext_equal]
pub enum FinishView {
    Exchange,
    Save,
    ObtainFab,
    SaveWithFab,
    Report,
    Fail(ErrorView),
}

impl View for FinishAction {
    type V = FinishView;

    open spec fn view(&self) -> FinishView {
        match self {
            FinishAction::Exchange => FinishView::Exchange,
            FinishAction::Save => FinishView::Save,
            FinishAction::ObtainFab => FinishView::ObtainFab,
            FinishAction::SaveWithFab => FinishView::SaveWithFab,
            FinishAction::Report => FinishView::Report,
            FinishAction::Fail(e) => FinishView::Fail(e@),
        }
    }
}

/// What a login with a code does next.
pub open spec fn finish_spec(p: FinishProgress) -> FinishView {
    match p.accepted {
        None => FinishView::Exchange,
        Some(false) => FinishView::Fail(rejected_code_error()),
        Some(true) => if !p.saved {
            FinishView::Save
        } else if !p.combined {
            FinishView::Report
        } else {
            match p.fab {
                None => FinishView::ObtainFab,
                Some(true) => if p.saved_with_fab {
                    FinishView::Report
                } else {
                    FinishView::SaveWithFab
                },
                Some(false) => FinishView::Report,
            }
        },
    }
}

/// What a login with a code does next. The session is stored before the
/// marketplace is asked for a web session, so that it is there where that fails.
pub fn finish_login(p: &FinishProgress) -> (r: FinishAction)
    ensures
        r@ == finish_spec(*p),
{
    match p.accepted {
        None => FinishAction::Exchange,
        Some(accepted) => match check_exchange(accepted) {
            Err(e) => FinishAction::Fail(e),
            Ok(_) => {
                if !p.saved {
                    return FinishAction::Save;
                }
                if !p.combined {
                    return FinishAction::Report;
                }
                match p.fab {
                    None => FinishAction::ObtainFab,
                    Some(true) => {
                        if p.saved_with_fab {
                            FinishAction::Report
                        } else {
                            FinishAction::SaveWithFab
                        }
                    },
                    Some(false) => FinishAction::Report,
                }
            },
        },
    }
}

/// The marketplace is asked for a web session only once the session is stored,
/// and where it gives none the login succeeds all the same.
pub proof fn sessions_are_stored_first(p: FinishProgress)
    ensures
        finish_spec(p) == FinishView::ObtainFab ==> p.accepted == Some(true) && p.saved,
        finish_spec(p) == FinishView::Report ==> p.accepted == Some(true) && p.saved,
        p.accepted == Some(true) && p.saved && p.fab == Some(false) ==> finish_spec(p)
            == FinishView::Report,
{
}

// ---------------------------------------------------------------------------
// The logout
// ---------------------------------------------------------------------------

/// How far a logout has come.
#[derive(Debug)]
pub struct LogoutProgress {
    /// A daemon may be running on this platform.
    pub has_daemon: bool,
    /// Whether the stored session could be read.
    pub readable: Option<bool>,
    /// The service was told.
    pub told: bool,
    /// The stored session is gone.
    pub token_gone: bool,
    /// The daemon was stopped.
    pub daemon_stopped: bool,
    /// The browser's data are gone.
    pub browser_gone: bool,
    /// The key is gone from the keystore.
    pub key_gone: bool,
    /// The cached library is gone.
    pub cache_gone: bool,
}

/// What a logout does next.
#[derive(Debug)]
pub enum LogoutAction {
    ReadToken,
    /// Tell the service; whether it listens does not matter.
    TellService,
    DeleteToken,
    StopDaemon,
    DeleteBrowserData,
    DeleteKey,
    DeleteCache,
    Report(Json),
}

/// The mathematical value of a [`LogoutAction`].
#[verifier::ext_equal]
pub enum LogoutView {
    ReadToken,
    TellService,
    DeleteToken,
    StopDaemon,
    DeleteBrowserData,
    DeleteKey,
    DeleteCache,
    Report(JsonView),
}

impl View for LogoutAction {
    type V = LogoutView;

    open spec fn view(&self) -> LogoutView {
        match self {
            LogoutAction::ReadToken => LogoutView::ReadToken,
            LogoutAction::TellService => LogoutView::TellService,
            LogoutAction::DeleteToken => LogoutView::DeleteToken,
            LogoutAction::StopDaemon => LogoutView::StopDaemon,
            LogoutAction::DeleteBrowserData => LogoutView::DeleteBrowserData,
            LogoutAction::DeleteKey => LogoutView::DeleteKey,
            LogoutAction::DeleteCache => LogoutView::DeleteCache,
            LogoutAction::Report(j) => LogoutView::Report(j@),
        }
    }
}

/// What a logout does next.
pub open spec fn logout_spec(p: LogoutProgress) -> LogoutView {
    match p.readable {
        None => LogoutView::ReadToken,
        Some(had_session) => if had_session && !p.told {
            LogoutView::TellService
        } else if !p.token_gone {
            LogoutView::DeleteToken
        } else if p.has_daemon && !p.daemon_stopped {
            LogoutView::StopDaemon
        } else if !p.browser_gone {
            LogoutView::DeleteBrowserData
        } else if !p.key_gone {
            LogoutView::DeleteKey
        } else if !p.cache_gone {
            LogoutView::DeleteCache
        } else {
            LogoutView::Report(logout_json_spec(had_session))
        },
    }
}

/// What a logout does next. A stored session that cannot be read does not stop
/// it: the service is not told, and everything that is stored goes all the same.
/// The daemon is stopped before the browser's data go, which it holds open.
pub fn logout(p: &LogoutProgress) -> (r: LogoutAction)
    ensures
        r@ == logout_spec(*p),
{
    match p.readable {
        None => LogoutAction::ReadToken,
        Some(had_session) => {
            if had_session && !p.told {
                LogoutAction::TellService
            } else if !p.token_gone {
                LogoutAction::DeleteToken
            } else if p.has_daemon && !p.daemon_stopped {
                LogoutAction::StopDaemon
            } else if !p.browser_gone {
                LogoutAction::DeleteBrowserData
            } else if !p.key_gone {
                LogoutAction::DeleteKey
            } else if !p.cache_gone {
                LogoutAction::DeleteCache
            } else {
                LogoutAction::Report(logout_report(had_session))
            }
        },
    }
}

/// A logout that reports has removed everything, whether or not the stored
/// session could be read; and it stops the daemon before it removes the
/// browser's data.
pub proof fn logouts_remove_everything(p: LogoutProgress)
    ensures
        logout_spec(p) is Report ==> p.token_gone && p.browser_gone && p.key_gone && p.cache_gone,
        logout_spec(p) is DeleteBrowserData ==> (p.has_daemon ==> p.daemon_stopped),
        p.readable == Some(false) && !p.token_gone ==> logout_spec(p) == LogoutView::DeleteToken,
{
}

// ---------------------------------------------------------------------------
// What a login reads, does and reports
// ---------------------------------------------------------------------------

proof fn lemma_auth_keys()
    ensures
        "ok"@ != "account_id"@,
        "ok"@ != "display_name"@,
        "ok"@ != "already_authenticated"@,
        "ok"@ != "epic_expires_at"@,
        "ok"@ != "fab_expires_at"@,
        "ok"@ != "epic_auth"@,
        "ok"@ != "fab_session"@,
        "ok"@ != "email"@,
        "ok"@ != "authenticated"@,
        "ok"@ != "expires_at"@,
        "ok"@ != "refreshed"@,
        "ok"@ != "fab"@,
        "ok"@ != "note"@,
        "account_id"@ != "display_name"@,
        "account_id"@ != "already_authenticated"@,
        "account_id"@ != "epic_expires_at"@,
        "account_id"@ != "fab_expires_at"@,
        "account_id"@ != "epic_auth"@,
        "account_id"@ != "fab_session"@,
        "account_id"@ != "email"@,
        "account_id"@ != "authenticated"@,
        "account_id"@ != "expires_at"@,
        "account_id"@ != "refreshed"@,
        "account_id"@ != "fab"@,
        "account_id"@ != "note"@,
        "display_name"@ != "already_authenticated"@,
        "display_name"@ != "epic_expires_at"@,
        "display_name"@ != "fab_expires_at"@,
        "display_name"@ != "epic_auth"@,
        "display_name"@ != "fab_session"@,
        "display_name"@ != "email"@,
        "display_name"@ != "authenticated"@,
        "display_name"@ != "expires_at"@,
        "display_name"@ != "refreshed"@,
        "display_name"@ != "fab"@,
        "display_name"@ != "note"@,
        "already_authenticated"@ != "epic_expires_at"@,
        "already_authenticated"@ != "fab_expires_at"@,
        "already_authenticated"@ != "epic_auth"@,
        "already_authenticated"@ != "fab_session"@,
        "already_authenticated"@ != "email"@,
        "already_authenticated"@ != "authenticated"@,
        "already_authenticated"@ != "expires_at"@,
        "already_authenticated"@ != "refreshed"@,
        "already_authenticated"@ != "fab"@,
        "already_authenticated"@ != "note"@,
        "epic_expires_at"@ != "fab_expires_at"@,
        "epic_expires_at"@ != "epic_auth"@,
        "epic_expires_at"@ != "fab_session"@,
        "epic_expires_at"@ != "email"@,
        "epic_expires_at"@ != "authenticated"@,
        "epic_expires_at"@ != "expires_at"@,
        "epic_expires_at"@ != "refreshed"@,
        "epic_expires_at"@ != "fab"@,
        "epic_expires_at"@ != "note"@,
        "fab_expires_at"@ != "epic_auth"@,
        "fab_expires_at"@ != "fab_session"@,
        "fab_expires_at"@ != "email"@,
        "fab_expires_at"@ != "authenticated"@,
        "fab_expires_at"@ != "expires_at"@,
        "fab_expires_at"@ != "refreshed"@,
        "fab_expires_at"@ != "fab"@,
        "fab_expires_at"@ != "note"@,
        "epic_auth"@ != "fab_session"@,
        "epic_auth"@ != "email"@,
        "epic_auth"@ != "authenticated"@,
        "epic_auth"@ != "expires_at"@,
        "epic_auth"@ != "refreshed"@,
        "epic_auth"@ != "fab"@,
        "epic_auth"@ != "note"@,
        "fab_session"@ != "email"@,
        "fab_session"@ != "authenticated"@,
        "fab_session"@ != "expires_at"@,
        "fab_session"@ != "refreshed"@,
        "fab_session"@ != "fab"@,
        "fab_session"@ != "note"@,
        "email"@ != "authenticated"@,
        "email"@ != "expires_at"@,
        "email"@ != "refreshed"@,
        "email"@ != "fab"@,
        "email"@ != "note"@,
        "authenticated"@ != "expires_at"@,
        "authenticated"@ != "refreshed"@,
        "authenticated"@ != "fab"@,
        "authenticated"@ != "note"@,
        "expires_at"@ != "refreshed"@,
        "expires_at"@ != "fab"@,
        "expires_at"@ != "note"@,
        "refreshed"@ != "fab"@,
        "refreshed"@ != "note"@,
        "fab"@ != "note"@,
{
    reveal_strlit("ok");
    reveal_strlit("account_id");
    reveal_strlit("display_name");
    reveal_strlit("already_authenticated");
    reveal_strlit("epic_expires_at");
    reveal_strlit("fab_expires_at");
    reveal_strlit("epic_auth");
    reveal_strlit("fab_session");
    reveal_strlit("email");
    reveal_strlit("authenticated");
    reveal_strlit("expires_at");
    reveal_strlit("refreshed");
    reveal_strlit("fab");
    reveal_strlit("note");
    assert("ok"@.len() == 2);
    assert("account_id"@.len() == 10);
    assert("display_name"@.len() == 12);
    assert("already_authenticated"@.len() == 21);
    assert("epic_expires_at"@.len() == 15);
    assert("fab_expires_at"@.len() == 14);
    assert("epic_auth"@.len() == 9);
    assert("fab_session"@.len() == 11);
    assert("email"@.len() == 5);
    assert("authenticated"@.len() == 13);
    assert("expires_at"@.len() == 10);
    assert("refreshed"@.len() == 9);
    assert("fab"@.len() == 3);
    assert("note"@.len() == 4);
    assert("account_id"@[0] != "expires_at"@[0]);
    assert("epic_auth"@[0] != "refreshed"@[0]);
}

/// The report of a renewed web session.
pub open spec fn renewed_spec(a: Account) -> JsonView {
    JsonView::Object(
        account_fields(a).insert("epic_auth"@, JsonView::Bool(true)).insert(
            "fab_session"@,
            JsonView::Bool(true),
        ),
    )
}

/// The report on an account.
pub open spec fn whoami_spec(a: Account, email: Option<Seq<char>>) -> JsonView {
    JsonView::Object(
        map![
            "account_id"@ => time_json(opt_text(a.account_id)),
            "display_name"@ => time_json(opt_text(a.display_name)),
            "email"@ => time_json(email),
        ],
    )
}

/// The report on the sessions.
pub open spec fn status_json_spec(
    expires_at: Option<Seq<char>>,
    refreshed: bool,
    fab: JsonView,
) -> JsonView {
    JsonView::Object(
        map![
            "authenticated"@ => JsonView::Bool(true),
            "expires_at"@ => time_json(expires_at),
            "refreshed"@ => JsonView::Bool(refreshed),
            "fab"@ => fab,
        ],
    )
}

/// A text that may be missing, as a report holds it: null where it is.
pub open spec fn text_or_null(s: Option<Seq<char>>) -> JsonView {
    match s {
        Some(t) => JsonView::Str(t),
        None => JsonView::Null,
    }
}

/// Every report on an account names its id and its name.
pub proof fn accounts_are_named(a: Account, x: Option<Seq<char>>, y: Option<Seq<char>>, b: bool)
    ensures
        names_the_account(JsonView::Object(account_fields(a)), a),
        names_the_account(authenticated_spec(a, x, y), a),
        names_the_account(combined_spec(a, x, b, y), a),
        names_the_account(renewed_spec(a), a),
        names_the_account(whoami_spec(a, x), a),
        json::get_spec(whoami_spec(a, x), "email"@) == Some(text_or_null(x)),
{
    lemma_auth_keys();
}

/// `report` names id and name of the account `a`.
pub open spec fn names_the_account(report: JsonView, a: Account) -> bool {
    &&& json::get_spec(report, "account_id"@) == Some(text_or_null(opt_text(a.account_id)))
    &&& json::get_spec(report, "display_name"@) == Some(text_or_null(opt_text(a.display_name)))
}

/// The reports of logins say when both sessions end, that the first is there,
/// and of the second whether it is.
pub proof fn logins_report_both_sessions(
    a: Account,
    epic_end: Option<Seq<char>>,
    fab_ok: bool,
    fab_end_text: Option<Seq<char>>,
)
    ensures
        json::get_spec(authenticated_spec(a, epic_end, fab_end_text), "ok"@) == Some(
            JsonView::Bool(true),
        ),
        json::get_spec(authenticated_spec(a, epic_end, fab_end_text), "already_authenticated"@)
            == Some(JsonView::Bool(true)),
        json::get_spec(authenticated_spec(a, epic_end, fab_end_text), "epic_expires_at"@) == Some(
            text_or_null(epic_end),
        ),
        json::get_spec(authenticated_spec(a, epic_end, fab_end_text), "fab_expires_at"@) == Some(
            text_or_null(fab_end_text),
        ),
        json::get_spec(combined_spec(a, epic_end, fab_ok, fab_end_text), "ok"@) == Some(
            JsonView::Bool(true),
        ),
        json::get_spec(combined_spec(a, epic_end, fab_ok, fab_end_text), "epic_auth"@) == Some(
            JsonView::Bool(true),
        ),
        json::get_spec(combined_spec(a, epic_end, fab_ok, fab_end_text), "fab_session"@) == Some(
            JsonView::Bool(fab_ok),
        ),
        json::get_spec(combined_spec(a, epic_end, fab_ok, fab_end_text), "epic_expires_at"@)
            == Some(text_or_null(epic_end)),
        json::get_spec(combined_spec(a, epic_end, fab_ok, fab_end_text), "fab_expires_at"@)
            == Some(text_or_null(fab_end_text)),
        json::get_spec(renewed_spec(a), "ok"@) == Some(JsonView::Bool(true)),
        json::get_spec(renewed_spec(a), "epic_auth"@) == Some(JsonView::Bool(true)),
        json::get_spec(renewed_spec(a), "fab_session"@) == Some(JsonView::Bool(true)),
{
    lemma_auth_keys();
}

/// The status says when the session ends, whether it was renewed, and what is
/// known of the web session; a logout says where there was no session.
pub proof fn status_and_logout_report(
    expires_at: Option<Seq<char>>,
    refreshed: bool,
    fab: JsonView,
)
    ensures
        json::get_spec(status_json_spec(expires_at, refreshed, fab), "authenticated"@) == Some(
            JsonView::Bool(true),
        ),
        json::get_spec(status_json_spec(expires_at, refreshed, fab), "expires_at"@) == Some(
            text_or_null(expires_at),
        ),
        json::get_spec(status_json_spec(expires_at, refreshed, fab), "refreshed"@) == Some(
            JsonView::Bool(refreshed),
        ),
        json::get_spec(status_json_spec(expires_at, refreshed, fab), "fab"@) == Some(fab),
        json::get_spec(logout_json_spec(true), "ok"@) == Some(JsonView::Bool(true)),
        json::get_spec(logout_json_spec(true), "note"@) is None,
        json::get_spec(logout_json_spec(false), "ok"@) == Some(JsonView::Bool(true)),
        json::get_spec(logout_json_spec(false), "note"@) == Some(JsonView::Str("no session"@)),
{
    lemma_auth_keys();
}

/// A login to the marketplace is over on a page of the marketplace, except on
/// those that the login itself goes through.
pub proof fn logins_end_on_other_pages(rest: Seq<char>, url: Seq<char>)
    ensures
        !flow_complete_spec("https://www.fab.com/social/login/"@ + rest),
        !flow_complete_spec("https://www.fab.com/social/complete/"@ + rest),
        !flow_complete_spec("https://www.fab.com/login"@ + rest),
        flow_complete_spec(url) ==> starts_with_spec(url, "https://www.fab.com/"@),
        starts_with_spec(url, "https://www.fab.com/"@) && !flow_complete_spec(url)
            ==> starts_with_spec(url, "https://www.fab.com/social/login/"@) || starts_with_spec(
            url,
            "https://www.fab.com/social/complete/"@,
        ) || starts_with_spec(url, "https://www.fab.com/login"@),
{
    text::prefixes_come_off("https://www.fab.com/social/login/"@, rest);
    text::prefixes_come_off("https://www.fab.com/social/complete/"@, rest);
    text::prefixes_come_off("https://www.fab.com/login"@, rest);
}

/// The code is the value of the first parameter of that name, up to a number
/// sign.
pub proof fn codes_are_the_first_of_their_name(
    pairs: Seq<Seq<char>>,
    k: int,
    code: Seq<char>,
    fragment: Seq<char>,
)
    requires
        0 <= k < pairs.len(),
        free_of(code, '#'),
        pairs[k] == "code="@ + code || pairs[k] == "code="@ + (code.push('#') + fragment),
        forall|j: int| 0 <= j < k ==> !starts_with_spec(#[trigger] pairs[j], "code="@),
    ensures
        code_in_pairs(pairs) == Some(code),
    decreases pairs.len(),
{
    if k == 0 {
        text::prefixes_come_off("code="@, code);
        text::prefixes_come_off("code="@, code.push('#') + fragment);
        text::pieces_end_at_the_separator(code, '#', fragment);
        text::lemma_split_nonempty(fragment, '#');
        assert((seq![code] + split_spec(fragment, '#'))[0] == code);
        assert(seq![code][0] == code);
    } else {
        let rest = pairs.skip(1);
        assert(!starts_with_spec(pairs[0], "code="@));
        assert forall|j: int| 0 <= j < k - 1 implies !starts_with_spec(
            #[trigger] rest[j],
            "code="@,
        ) by {
            assert(rest[j] == pairs[j + 1]);
        }
        assert(rest[k - 1] == pairs[k]);
        codes_are_the_first_of_their_name(rest, k - 1, code, fragment);
    }
}

/// Without a parameter of that name there is no code.
pub proof fn other_parameters_are_no_code(pairs: Seq<Seq<char>>)
    requires
        forall|j: int| 0 <= j < pairs.len() ==> !starts_with_spec(#[trigger] pairs[j], "code="@),
    ensures
        code_in_pairs(pairs) is None,
    decreases pairs.len(),
{
    if pairs.len() > 0 {
        let rest = pairs.skip(1);
        assert(!starts_with_spec(pairs[0], "code="@));
        assert forall|j: int| 0 <= j < rest.len() implies !starts_with_spec(
            #[trigger] rest[j],
            "code="@,
        ) by {
            assert(rest[j] == pairs[j + 1]);
        }
        other_parameters_are_no_code(rest);
    }
}

/// The code of an address is among the parameters behind its first question
/// mark; an address without one has none.
pub proof fn codes_stand_in_the_query(
    head: Seq<char>,
    query: Seq<char>,
    url: Seq<char>,
    r: Option<Seq<char>>,
)
    requires
        free_of(head, '?'),
    ensures
        is_code_of_url(head.push('?') + query, r) ==> r == code_in_pairs(split_spec(query, '&')),
        free_of(url, '?') && is_code_of_url(url, r) ==> r is None,
{
    assert(splits_once(head.push('?') + query, '?', head, query));
}

/// What the login page posted gives its own code, else that of the address it
/// was sent on to; what is no JSON, or has neither, gives none.
pub proof fn posts_give_their_own_code(
    j: JsonView,
    code: Seq<char>,
    url: Seq<char>,
    message: Seq<char>,
    r: Option<Seq<char>>,
)
    ensures
        json::get_spec(j, "authorizationCode"@) == Some(JsonView::Str(code)) && is_posted_code(
            Ok(j),
            r,
        ) ==> r == Some(code),
        !(json::get_spec(j, "authorizationCode"@) matches Some(JsonView::Str(_)))
            && json::get_spec(j, "redirectUrl"@) == Some(JsonView::Str(url)) ==> (is_posted_code(
            Ok(j),
            r,
        ) <==> is_code_of_url(url, r)),
        !(json::get_spec(j, "authorizationCode"@) matches Some(JsonView::Str(_))) && !(
        json::get_spec(j, "redirectUrl"@) matches Some(JsonView::Str(_))) && is_posted_code(
            Ok(j),
            r,
        ) ==> r is None,
        is_posted_code(Err(message), r) ==> r is None,
{
}

/// A session can be used exactly where there is one and renewing it was not
/// needed or went well; it was renewed exactly in the second case. Where the
/// service refused, or there is none, a login is needed; other failures stay
/// what they are.
pub proof fn sessions_are_renewed_or_refused(stored: bool, refresh: Refresh)
    ensures
        loaded_spec(stored, refresh) == Ok::<bool, ErrorView>(true) <==> stored && refresh is Done,
        loaded_spec(stored, refresh) == Ok::<bool, ErrorView>(false) <==> stored && refresh
            is NotNeeded,
        !stored || refresh is Rejected ==> (loaded_spec(stored, refresh) matches Err(e) && e
            is AuthRequired),
        refresh matches Refresh::Failed(f) ==> {
            &&& f is InvalidCredentials || f is Api ==> (loaded_spec(stored, refresh) matches Err(e)
                && e is AuthRequired)
            &&& stored && !(f is InvalidCredentials) && !(f is Api) ==> loaded_spec(stored, refresh)
                == Err::<bool, ErrorView>(epic_error_spec(f))
        },
{
}

/// The code that was pasted is taken without white space around it and without
/// quotation marks.
pub proof fn pasted_codes_are_cleaned(lead: Seq<char>, code: Seq<char>, trail: Seq<char>)
    requires
        forall|i: int| 0 <= i < lead.len() ==> text::is_space_spec(#[trigger] lead[i]),
        forall|i: int| 0 <= i < trail.len() ==> text::is_space_spec(#[trigger] trail[i]),
        code.len() > 0,
        !text::is_space_spec(code[0]),
        !text::is_space_spec(code.last()),
        free_of(code, '"'),
    ensures
        pasted_code(lead + code + trail) == code,
        pasted_code(lead + (seq!['"'] + code + seq!['"']) + trail) == code,
{
    text::trimming_takes_space_off_both_ends(lead, code, trail);
    let quoted = seq!['"'] + code + seq!['"'];
    assert(quoted[0] == '"' && quoted.last() == '"');
    text::trimming_takes_space_off_both_ends(lead, quoted, trail);
    text::removed_characters_are_gone(code, Seq::empty(), '"');
    text::removed_characters_are_gone(seq!['"'], code, '"');
    text::removed_characters_are_gone(seq!['"'] + code, seq!['"'], '"');
    assert(remove_char_spec(quoted, '"') =~= code);
}

/// The course of a login. With a session whose web session lasts more than seven
/// days nothing is done; with one whose web session does not, that is renewed;
/// and where that fails, or there is no session, the whole login begins: the web
/// view unless a pasted code is wanted, and a pasted code where that is wanted or
/// the web view failed, for which somebody has to be there.
pub proof fn logins_take_their_course(p: LoginProgress)
    ensures
        login_spec(p) is AlreadyAuthenticated <==> (p.session matches Some(s) && (s.1 matches Some(
            fs,
        ) && crate::clock::nanos_of(s.2) + 7 * 86_400 * 1_000_000_000 < crate::clock::nanos_of(
            fs.expires_at,
        ))),
        login_spec(p) is RenewFab <==> p.session is Some && !(login_spec(p)
            is AlreadyAuthenticated) && p.renewed is None,
        login_spec(p) is Renewed <==> p.session is Some && !(login_spec(p) is AlreadyAuthenticated)
            && (p.renewed matches Some(r) && r is Ok),
        is_whole_login(p) ==> {
            &&& login_spec(p) is ShowWebView <==> !p.manual && p.web_view is None
            &&& p.web_view matches Some(w) ==> (w matches Ok(code) ==> (!p.manual ==> login_spec(p)
                == (LoginView::FinishCombined { code: code@ })))
            &&& wants_paste(p) && !p.terminal ==> login_spec(p) is Fail
            &&& wants_paste(p) && p.terminal && p.pasted is None ==> login_spec(p) is AskForCode
            &&& wants_paste(p) && p.terminal ==> (p.pasted matches Some(line) ==> (pasted_code(
                line@,
            ).len() > 0 ==> login_spec(p) == (LoginView::FinishSimple {
                code: pasted_code(line@),
            })))
            &&& wants_paste(p) && p.terminal ==> (p.pasted matches Some(line) ==> (pasted_code(
                line@,
            ).len() == 0 ==> login_spec(p) is Fail))
        },
{
}

/// A login that cannot go by what is there: there is no session, or its web
/// session does not last and could not be renewed.
pub open spec fn is_whole_login(p: LoginProgress) -> bool {
    match p.session {
        None => true,
        Some(s) => !(s.1 matches Some(fs) && crate::clock::nanos_of(s.2) + 7 * 86_400
            * 1_000_000_000 < crate::clock::nanos_of(fs.expires_at)) && (p.renewed matches Some(r)
            && r is Err),
    }
}

/// A code has to be pasted: that was asked for, or the web view failed.
pub open spec fn wants_paste(p: LoginProgress) -> bool {
    p.manual || (p.web_view matches Some(w) && w is Err)
}

/// The course of a login with a code: it is exchanged, the session is stored,
/// and where a web session is wanted too that is asked for, and stored where it
/// came; then it is reported. A rejected code is a missing login.
pub proof fn codes_become_sessions(p: FinishProgress)
    ensures
        finish_spec(p) is Exchange <==> p.accepted is None,
        finish_spec(p) is Fail <==> p.accepted == Some(false),
        finish_spec(p) matches FinishView::Fail(e) ==> e is AuthRequired,
        finish_spec(p) is Save <==> p.accepted == Some(true) && !p.saved,
        finish_spec(p) is ObtainFab <==> p.accepted == Some(true) && p.saved && p.combined && p.fab
            is None,
        finish_spec(p) is SaveWithFab <==> p.accepted == Some(true) && p.saved && p.combined
            && p.fab == Some(true) && !p.saved_with_fab,
        finish_spec(p) is Report <==> p.accepted == Some(true) && p.saved && (!p.combined || p.fab
            == Some(false) || (p.fab == Some(true) && p.saved_with_fab)),
{
}

/// The course of a logout: the stored session is read, the service is told
/// exactly where it could be, and then everything goes, one after the other.
pub proof fn logouts_take_their_course(p: LogoutProgress)
    ensures
        logout_spec(p) is ReadToken <==> p.readable is None,
        logout_spec(p) is TellService <==> p.readable == Some(true) && !p.told,
        logout_spec(p) is DeleteToken ==> !p.token_gone,
        logout_spec(p) is StopDaemon ==> p.has_daemon && !p.daemon_stopped && p.token_gone,
        logout_spec(p) is DeleteBrowserData ==> !p.browser_gone && p.token_gone,
        logout_spec(p) is DeleteKey ==> !p.key_gone && p.browser_gone,
        logout_spec(p) is DeleteCache ==> !p.cache_gone && p.key_gone,
        p.readable is Some && (p.told || p.readable == Some(false)) && p.token_gone && (
        p.daemon_stopped || !p.has_daemon) && p.browser_gone && p.key_gone && p.cache_gone
            <==> logout_spec(p) is Report,
        logout_spec(p) matches LogoutView::Report(report) ==> (json::get_spec(report, "note"@)
            is Some <==> p.readable == Some(false)),
{
    lemma_auth_keys();
}

} // verus!
