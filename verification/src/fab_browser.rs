//! Requests to the marketplace in the browser session: through the daemon, or
//! through a page of this process.
use crate::error::{ErrorView, FabCliError};
use crate::fab_daemon::{
    posted_body, posted_parts, posted_status, Request, Response, ResponseView, CALL_TIMEOUT_SECS,
};
use crate::json;
use crate::json::{parsed_json, Json};
use crate::text;
use crate::text::{decimal_spec, opt_str, opt_text, starts_with_spec};
use vstd::prelude::*;

verus! {

/// What the marketplace answered.
#[derive(Debug)]
pub struct FabApiResponse {
    pub status: u16,
    pub body: String,
}

/// The mathematical value of a [`FabApiResponse`].
#[verifier::ext_equal]
pub struct ApiView {
    pub status: u16,
    pub body: Seq<char>,
}

impl View for FabApiResponse {
    type V = ApiView;

    open spec fn view(&self) -> ApiView {
        ApiView { status: self.status, body: self.body@ }
    }
}

/// The page that a browser session begins with.
pub const BOOTSTRAP_URL: &'static str = "https://www.fab.com/robots.txt";

/// Whether a finished page is one of the marketplace, so that requests can be
/// sent from it.
pub fn is_bootstrap_page(url: &str) -> (r: bool)
    ensures
        r == starts_with_spec(url@, "https://www.fab.com/"@),
{
    text::starts_with(url, "https://www.fab.com/")
}

/// A platform.
#[derive(Debug, Clone, Copy, PartialEq, Eq, Structural)]
pub enum Platform {
    Windows,
    Linux,
    Other,
}

/// How a request is sent.
#[derive(Debug, Clone, Copy, PartialEq, Eq, Structural)]
pub enum Transport {
    /// Through the daemon, and where that fails through a page.
    DaemonFirst,
    /// Through a page of this process.
    InProcess,
    /// Not at all.
    Unsupported,
}

/// How a request is sent; `no_daemon` is whether the environment forbids the
/// daemon.
pub fn transport(platform: Platform, no_daemon: bool) -> (r: Transport)
    ensures
        r == transport_spec(platform, no_daemon),
{
    match platform {
        Platform::Windows => {
            if no_daemon {
                Transport::InProcess
            } else {
                Transport::DaemonFirst
            }
        },
        Platform::Linux => Transport::InProcess,
        Platform::Other => Transport::Unsupported,
    }
}

/// The error where no request can be sent.
pub fn unsupported_error() -> (r: FabCliError)
    ensures
        r@ == ErrorView::Generic(
            "in-WebView Fab API calls are not supported on this platform (Windows and Linux only)."@,
        ),
{
    FabCliError::Generic(
        "in-WebView Fab API calls are not supported on this platform (Windows and Linux only).".to_owned(),
    )
}

/// The line that is logged where the daemon fails and a page takes over.
pub fn fallback_line(error: &FabCliError) -> (r: String)
    ensures
        r@ == "daemon path failed, falling back: "@ + (crate::error::kind_spec(error@) + ": "@
            + crate::error::message_spec(error@)),
{
    let mut m = "daemon path failed, falling back: ".to_owned();
    m.append(error.to_text().as_str());
    m
}

/// The error where there is no browser session.
pub open spec fn no_session_error() -> ErrorView {
    ErrorView::AuthRequired("no Fab session found — run 'fabcli auth login' first."@)
}

/// Refuses a request where the browser's data directory is not there.
pub fn check_session_dir(exists: bool) -> (r: Result<(), FabCliError>)
    ensures
        r is Ok <==> exists,
        r matches Err(e) ==> e@ == no_session_error(),
{
    if exists {
        Ok(())
    } else {
        Err(
            FabCliError::AuthRequired(
                "no Fab session found — run 'fabcli auth login' first.".to_owned(),
            ),
        )
    }
}

/// An answer of the marketplace or an error, by its value.
pub open spec fn api_result(r: Result<FabApiResponse, FabCliError>) -> Result<ApiView, ErrorView> {
    match r {
        Ok(a) => Ok(a@),
        Err(e) => Err(e@),
    }
}

/// What the daemon's answer to a request means.
pub open spec fn resp_to_api_spec(resp: ResponseView) -> Result<ApiView, ErrorView> {
    match resp {
        ResponseView::CallOk { status, body, .. } => Ok(ApiView { status, body }),
        ResponseView::Failed { error, .. } => Err(ErrorView::Generic(error)),
        ResponseView::Pong { .. } => Err(
            ErrorView::Generic("daemon returned pong for a call; protocol error"@),
        ),
    }
}

/// What the daemon's answer to a request means.
pub fn resp_to_api(resp: &Response) -> (r: Result<FabApiResponse, FabCliError>)
    ensures
        api_result(r) == resp_to_api_spec(resp@),
{
    match resp {
        Response::CallOk { status, body, .. } => Ok(
            FabApiResponse { status: *status, body: body.clone() },
        ),
        Response::Failed { error, .. } => Err(FabCliError::Generic(error.clone())),
        Response::Pong { .. } => Err(
            FabCliError::Generic("daemon returned pong for a call; protocol error".to_owned()),
        ),
    }
}

/// The request that is sent to the daemon.
pub fn daemon_request(method: &str, path: &str, body_json: Option<&str>) -> (r: Request)
    ensures
        r matches Request::Call { method: m, path: p, body: b } && m@ == method@ && p@ == path@
            && opt_text(b) == opt_str(body_json),
{
    Request::Call {
        method: method.to_owned(),
        path: path.to_owned(),
        body: match body_json {
            Some(b) => Some(b.to_owned()),
            None => None,
        },
    }
}

/// How many seconds a new daemon has to open its pipe.
pub const SPAWN_TIMEOUT_SECS: u64 = 5;

/// One try with a new daemon.
#[derive(Debug)]
pub struct Attempt {
    /// Whether the daemon was started.
    pub spawned: Option<Result<(), String>>,
    /// Whether its pipe appeared in time.
    pub pipe_appeared: Option<bool>,
    /// What came of the request.
    pub called: Option<Result<Response, String>>,
}

/// How far a request through the daemon has come.
#[derive(Debug)]
pub struct DaemonProgress {
    /// Whether the browser's data directory is there.
    pub session_dir: bool,
    /// What came of the request to a daemon that may run already; the inner
    /// value is missing where none answered.
    pub probe: Option<Option<Response>>,
    pub first: Attempt,
    pub second: Attempt,
}

/// What a request through the daemon does next.
#[derive(Debug)]
pub enum CallAction {
    /// Send the request to a daemon that may run already.
    Probe,
    /// Start a daemon; where `log` holds a line, it is logged first.
    Spawn { log: Option<String> },
    /// Wait for the daemon's pipe.
    AwaitPipe,
    /// Send the request.
    Send,
    Return(FabApiResponse),
    Fail(FabCliError),
}

/// The mathematical value of a [`CallAction`].
#[verifier::ext_equal]
pub enum CallView {
    Probe,
    Spawn { log: Option<Seq<char>> },
    AwaitPipe,
    Send,
    Return(ApiView),
    Fail(ErrorView),
}

impl View for CallAction {
    type V = CallView;

    open spec fn view(&self) -> CallView {
        match self {
            CallAction::Probe => CallView::Probe,
            CallAction::Spawn { log } => CallView::Spawn { log: opt_text(*log) },
            CallAction::AwaitPipe => CallView::AwaitPipe,
            CallAction::Send => CallView::Send,
            CallAction::Return(a) => CallView::Return(a@),
            CallAction::Fail(e) => CallView::Fail(e@),
        }
    }
}

/// What the meaning of a daemon's answer ends a request with.
pub open spec fn answered_spec(resp: ResponseView) -> CallView {
    match resp_to_api_spec(resp) {
        Ok(a) => CallView::Return(a),
        Err(e) => CallView::Fail(e),
    }
}

/// What a try does next, up to the request's outcome; `log` is said before the
/// daemon is started.
pub open spec fn attempt_spec(a: Attempt, log: Option<Seq<char>>) -> CallView {
    match a.spawned {
        None => CallView::Spawn { log },
        Some(Err(e)) => CallView::Fail(ErrorView::Generic(e@)),
        Some(Ok(_)) => match a.pipe_appeared {
            None => CallView::AwaitPipe,
            Some(false) => CallView::Fail(
                ErrorView::Generic(
                    "daemon pipe did not appear within "@ + decimal_spec(
                        SPAWN_TIMEOUT_SECS as nat,
                    ) + "s"@,
                ),
            ),
            Some(true) => CallView::Send,
        },
    }
}

/// What a request through the daemon does next.
pub open spec fn call_spec(p: DaemonProgress) -> CallView {
    if !p.session_dir {
        CallView::Fail(no_session_error())
    } else {
        match p.probe {
            None => CallView::Probe,
            Some(Some(resp)) => answered_spec(resp@),
            Some(None) => match (attempt_spec(p.first, None), p.first.called) {
                (CallView::Send, Some(Ok(resp))) => answered_spec(resp@),
                (CallView::Send, Some(Err(e))) => {
                    let log = Some(
                        "daemon call failed ("@ + e@ + "); retrying with fresh spawn"@,
                    );
                    match (attempt_spec(p.second, log), p.second.called) {
                        (CallView::Send, Some(Ok(resp))) => answered_spec(resp@),
                        (CallView::Send, Some(Err(e2))) => CallView::Fail(
                            ErrorView::Generic("daemon retry failed: "@ + e2@),
                        ),
                        (next, _) => next,
                    }
                },
                (next, _) => next,
            },
        }
    }
}

fn attempt_step(a: &Attempt, log: Option<String>) -> (r: CallAction)
    ensures
        r@ == attempt_spec(*a, opt_text(log)),
{
    match &a.spawned {
        None => CallAction::Spawn { log },
        Some(Err(e)) => CallAction::Fail(FabCliError::Generic(e.clone())),
        Some(Ok(_)) => match a.pipe_appeared {
            None => CallAction::AwaitPipe,
            Some(false) => {
                let mut m = "daemon pipe did not appear within ".to_owned();
                m.append(text::decimal(SPAWN_TIMEOUT_SECS).as_str());
                m.append("s");
                CallAction::Fail(FabCliError::Generic(m))
            },
            Some(true) => CallAction::Send,
        },
    }
}

fn answered(resp: &Response) -> (r: CallAction)
    ensures
        r@ == answered_spec(resp@),
{
    match resp_to_api(resp) {
        Ok(a) => CallAction::Return(a),
        Err(e) => CallAction::Fail(e),
    }
}

/// What a request through the daemon does next. A running daemon is tried
/// first, then a new one, and where that breaks down one more.
pub fn call(p: &DaemonProgress) -> (r: CallAction)
    ensures
        r@ == call_spec(*p),
{
    if !p.session_dir {
        return CallAction::Fail(
            FabCliError::AuthRequired(
                "no Fab session found — run 'fabcli auth login' first.".to_owned(),
            ),
        );
    }
    match &p.probe {
        None => {
            return CallAction::Probe;
        },
        Some(Some(resp)) => {
            return answered(resp);
        },
        Some(None) => {},
    }
    let next = attempt_step(&p.first, None);
    if !matches!(next, CallAction::Send) {
        return next;
    }
    match &p.first.called {
        None => next,
        Some(Ok(resp)) => answered(resp),
        Some(Err(e)) => {
            let mut log = "daemon call failed (".to_owned();
            log.append(e.as_str());
            log.append("); retrying with fresh spawn");
            let again = attempt_step(&p.second, Some(log));
            if !matches!(again, CallAction::Send) {
                return again;
            }
            match &p.second.called {
                None => again,
                Some(Ok(resp)) => answered(resp),
                Some(Err(e2)) => {
                    let mut m = "daemon retry failed: ".to_owned();
                    m.append(e2.as_str());
                    CallAction::Fail(FabCliError::Generic(m))
                },
            }
        },
    }
}

/// No more than two daemons are started for one request.
pub proof fn at_most_two_daemons(p: DaemonProgress)
    requires
        p.first.spawned is Some,
        p.second.spawned is Some,
    ensures
        !(call_spec(p) is Spawn),
{
}

// ---------------------------------------------------------------------------
// Through a page of this process
// ---------------------------------------------------------------------------

/// The answer that a page posted, read as JSON; nothing where it is none.
pub fn api_from_post(posted: &Result<Json, String>) -> (r: Option<FabApiResponse>)
    ensures
        r is Some <==> posted is Ok,
        r matches Some(a) ==> a@ == (ApiView {
            status: posted_status(posted->Ok_0@),
            body: posted_body(posted->Ok_0@),
        }),
{
    match posted {
        Ok(v) => {
            let (status, body) = posted_parts(v);
            Some(FabApiResponse { status, body })
        },
        Err(_) => None,
    }
}

/// The answer that a page posted.
pub fn api_from_payload(payload: &str) -> (r: Option<FabApiResponse>)
    ensures
        r is Some <==> parsed_json(payload@) is Ok,
        r matches Some(a) ==> (parsed_json(payload@) matches Ok(v) && a@ == (ApiView {
            status: posted_status(v),
            body: posted_body(v),
        })),
{
    let posted = json::parse(payload);
    api_from_post(&posted)
}

/// What a request through a page does next.
#[derive(Debug)]
pub enum PageAction {
    Return(FabApiResponse),
    Fail(FabCliError),
    /// Hand the script to the page.
    Inject,
    /// Let the page run on.
    Pump,
}

/// The mathematical value of a [`PageAction`].
#[verifier::ext_equal]
pub enum PageView {
    Return(ApiView),
    Fail(ErrorView),
    Inject,
    Pump,
}

impl View for PageAction {
    type V = PageView;

    open spec fn view(&self) -> PageView {
        match self {
            PageAction::Return(a) => PageView::Return(a@),
            PageAction::Fail(e) => PageView::Fail(e@),
            PageAction::Inject => PageView::Inject,
            PageAction::Pump => PageView::Pump,
        }
    }
}

/// What a request through a page does next: it has an answer, its window was
/// closed, its time is over, or it waits.
pub fn page_call(
    answer: Option<FabApiResponse>,
    closed: bool,
    late: bool,
    injected: bool,
    bootstrapped: bool,
) -> (r: PageAction)
    ensures
        r@ == page_spec(opt_api(answer), closed, late, injected, bootstrapped),
{
    match answer {
        Some(a) => PageAction::Return(a),
        None => {
            if closed {
                PageAction::Fail(
                    FabCliError::Generic(
                        "fab API call returned no response (window closed unexpectedly)".to_owned(),
                    ),
                )
            } else if late {
                let mut m = "fab API call timed out after ".to_owned();
                m.append(text::decimal(CALL_TIMEOUT_SECS).as_str());
                m.append("s");
                PageAction::Fail(FabCliError::Generic(m))
            } else if !injected && bootstrapped {
                PageAction::Inject
            } else {
                PageAction::Pump
            }
        },
    }
}

// ---------------------------------------------------------------------------
// How requests go
// ---------------------------------------------------------------------------

/// How a request is sent.
pub open spec fn transport_spec(platform: Platform, no_daemon: bool) -> Transport {
    match platform {
        Platform::Windows => if no_daemon {
            Transport::InProcess
        } else {
            Transport::DaemonFirst
        },
        Platform::Linux => Transport::InProcess,
        Platform::Other => Transport::Unsupported,
    }
}

/// The daemon is used exactly on Windows where it is not forbidden, and no
/// request can be sent exactly where the platform is neither Windows nor Linux.
pub proof fn daemons_are_for_windows(platform: Platform, no_daemon: bool)
    ensures
        transport_spec(platform, no_daemon) == Transport::DaemonFirst <==> platform
            == Platform::Windows && !no_daemon,
        transport_spec(platform, no_daemon) == Transport::Unsupported <==> platform
            == Platform::Other,
        transport_spec(platform, no_daemon) == Transport::InProcess <==> platform
            == Platform::Linux || (platform == Platform::Windows && no_daemon),
{
}

/// An answer that may be there, by its value.
pub open spec fn opt_api(a: Option<FabApiResponse>) -> Option<ApiView> {
    match a {
        Some(x) => Some(x@),
        None => None,
    }
}

/// What a request through a page does next.
pub open spec fn page_spec(
    answer: Option<ApiView>,
    closed: bool,
    late: bool,
    injected: bool,
    bootstrapped: bool,
) -> PageView {
    match answer {
        Some(a) => PageView::Return(a),
        None => if closed {
            PageView::Fail(
                ErrorView::Generic(
                    "fab API call returned no response (window closed unexpectedly)"@,
                ),
            )
        } else if late {
            PageView::Fail(
                ErrorView::Generic(
                    "fab API call timed out after "@ + decimal_spec(CALL_TIMEOUT_SECS as nat)
                        + "s"@,
                ),
            )
        } else if !injected && bootstrapped {
            PageView::Inject
        } else {
            PageView::Pump
        },
    }
}

/// An answer that is there is returned, whatever else happened; without one the
/// request fails exactly where the window is closed or the time is over, and the
/// script is handed over once, when the page is there.
pub proof fn pages_answer_or_fail(
    answer: Option<ApiView>,
    closed: bool,
    late: bool,
    injected: bool,
    bootstrapped: bool,
)
    ensures
        answer matches Some(a) ==> page_spec(answer, closed, late, injected, bootstrapped)
            == PageView::Return(a),
        page_spec(answer, closed, late, injected, bootstrapped) is Return <==> answer is Some,
        page_spec(answer, closed, late, injected, bootstrapped) is Fail <==> answer is None && (
        closed || late),
        page_spec(answer, closed, late, injected, bootstrapped) is Inject <==> answer is None
            && !closed && !late && !injected && bootstrapped,
{
}

/// The daemon's answer to a request is handed on with its status and body; where
/// it failed, or answered something else, the request fails.
pub proof fn answers_are_handed_on(ok: bool, status: u16, body: Seq<char>, pong: bool)
    ensures
        resp_to_api_spec(ResponseView::CallOk { ok, status, body }) == Ok::<ApiView, ErrorView>(
            ApiView { status, body },
        ),
        resp_to_api_spec(ResponseView::Failed { ok, error: body }) == Err::<ApiView, ErrorView>(
            ErrorView::Generic(body),
        ),
        resp_to_api_spec(ResponseView::Pong { ok, pong }) is Err,
{
}

/// The course of one try: the daemon is started, then its pipe is waited for,
/// then the request is sent; a failure on the way ends it.
pub proof fn tries_take_their_course(a: Attempt, log: Option<Seq<char>>)
    ensures
        attempt_spec(a, log) == (CallView::Spawn { log }) <==> a.spawned is None,
        attempt_spec(a, log) is AwaitPipe <==> (a.spawned matches Some(s) && s is Ok)
            && a.pipe_appeared is None,
        attempt_spec(a, log) is Send <==> (a.spawned matches Some(s) && s is Ok) && a.pipe_appeared
            == Some(true),
        attempt_spec(a, log) is Fail <==> (a.spawned matches Some(s) && (s is Err
            || a.pipe_appeared == Some(false))),
{
}

/// The course of a request through the daemon: without a browser session it
/// fails as a missing login; a running daemon is tried first; then a new one;
/// and only where the request to that broke down, one more.
pub proof fn requests_take_their_course(p: DaemonProgress)
    ensures
        !p.session_dir ==> (call_spec(p) matches CallView::Fail(e) && e is AuthRequired),
        p.session_dir && p.probe is None ==> call_spec(p) is Probe,
        p.session_dir ==> (p.probe matches Some(answer) ==> (answer matches Some(resp)
            ==> call_spec(p) == answered_spec(resp@))),
        p.session_dir && p.probe == Some(None::<Response>) ==> {
            &&& !(attempt_spec(p.first, None) is Send) ==> call_spec(p) == attempt_spec(
                p.first,
                None,
            )
            &&& attempt_spec(p.first, None) is Send ==> {
                &&& p.first.called is None ==> call_spec(p) is Send
                &&& p.first.called matches Some(out) ==> (out matches Ok(resp) ==> call_spec(p)
                    == answered_spec(resp@))
                &&& p.first.called matches Some(out) ==> (out is Err && p.second.spawned is None
                    ==> call_spec(p) is Spawn)
                &&& p.first.called matches Some(out) ==> (out is Err && p.second.called is None
                    && attempt_spec(p.second, None) is Send ==> call_spec(p) is Send)
                &&& p.first.called matches Some(out) ==> (out is Err && attempt_spec(
                    p.second,
                    None,
                ) is Send ==> (p.second.called matches Some(again) ==> (again matches Ok(resp)
                    ==> call_spec(p) == answered_spec(resp@))))
                &&& p.first.called matches Some(out) ==> (out is Err && attempt_spec(
                    p.second,
                    None,
                ) is Send ==> (p.second.called matches Some(again) ==> (again is Err
                    ==> call_spec(p) is Fail)))
            }
        },
        forall|resp: ResponseView|
            #[trigger] answered_spec(resp) is Return <==> resp is CallOk,
{
}

} // verus!
