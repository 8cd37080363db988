//! The browser daemon: a background process that holds one browser session and
//! answers requests over a named pipe, one line of JSON each way.
use crate::digest::{sha256_hex, sha256_of};
use crate::json;
use crate::json::{as_u64_spec, get_spec, get_str_spec, parse_view, parsed_json, Json, JsonView};
use crate::script::{build_fetch_script, script_spec};
use crate::text;
use crate::text::{decimal_spec, opt_text, parse_u64_spec, trim_spec};
use vstd::prelude::*;
use vstd::utf8::encode_utf8;

verus! {

/// A request to the daemon.
#[derive(Debug, PartialEq, Eq)]
pub enum Request {
    /// Send a request to the marketplace in the browser session.
    Call { method: String, path: String, body: Option<String> },
    /// Stop.
    Shutdown,
    /// Say that you are there.
    Ping,
}

/// The daemon's answer.
#[derive(Debug, PartialEq, Eq)]
pub enum Response {
    /// The marketplace answered, with whatever status.
    CallOk { ok: bool, status: u16, body: String },
    /// The daemon is there.
    Pong { ok: bool, pong: bool },
    /// The request could not be carried out.
    Failed { ok: bool, error: String },
}

/// The mathematical value of a [`Response`].
#[verifier::ext_equal]
pub enum ResponseView {
    CallOk { ok: bool, status: u16, body: Seq<char> },
    Pong { ok: bool, pong: bool },
    Failed { ok: bool, error: Seq<char> },
}

impl View for Response {
    type V = ResponseView;

    open spec fn view(&self) -> ResponseView {
        match self {
            Response::CallOk { ok, status, body } => ResponseView::CallOk {
                ok: *ok,
                status: *status,
                body: body@,
            },
            Response::Pong { ok, pong } => ResponseView::Pong { ok: *ok, pong: *pong },
            Response::Failed { ok, error } => ResponseView::Failed { ok: *ok, error: error@ },
        }
    }
}

/// The answer of the marketplace.
pub open spec fn call_ok_spec(status: u16, body: Seq<char>) -> ResponseView {
    ResponseView::CallOk { ok: true, status, body }
}

/// The answer that something failed.
pub open spec fn err_spec(message: Seq<char>) -> ResponseView {
    ResponseView::Failed { ok: false, error: message }
}

impl Response {
    /// The marketplace's answer.
    pub fn call_ok(status: u16, body: String) -> (r: Response)
        ensures
            r@ == call_ok_spec(status, body@),
    {
        Response::CallOk { ok: true, status, body }
    }

    /// The answer that the daemon is there.
    pub fn pong() -> (r: Response)
        ensures
            r@ == (ResponseView::Pong { ok: true, pong: true }),
    {
        Response::Pong { ok: true, pong: true }
    }

    /// The answer that something failed.
    pub fn err(msg: &str) -> (r: Response)
        ensures
            r@ == err_spec(msg@),
    {
        Response::Failed { ok: false, error: msg.to_owned() }
    }

    /// A second answer equal to `self`.
    pub fn copy(&self) -> (r: Response)
        ensures
            r@ == self@,
    {
        match self {
            Response::CallOk { ok, status, body } => Response::CallOk {
                ok: *ok,
                status: *status,
                body: body.clone(),
            },
            Response::Pong { ok, pong } => Response::Pong { ok: *ok, pong: *pong },
            Response::Failed { ok, error } => Response::Failed { ok: *ok, error: error.clone() },
        }
    }
}

/// What the name of every daemon's pipe begins with.
pub const PIPE_PREFIX: &'static str = r"\\.\pipe\fabcli-browser-";

/// The name of the daemon's pipe for a browser data directory: the same for
/// the same directory, from the first twelve bytes of its SHA-256.
pub fn pipe_name(data_dir: &str) -> (r: String)
    ensures
        r@ == PIPE_PREFIX@ + sha256_hex(encode_utf8(data_dir@)).take(24),
        r@.len() == PIPE_PREFIX@.len() + 24,
{
    let hex = sha256_of(data_dir.as_bytes());
    let chars = text::to_chars(hex.as_str());
    let head = text::slice_text(&chars, 0, 24);
    assert(head@ =~= hex@.take(24));
    let mut name = PIPE_PREFIX.to_owned();
    name.append(head.as_str());
    name
}

/// The access rules of the daemon's pipe: nothing inherited, all rights for the
/// user `sid` and for the system, none for anybody else.
pub fn build_sddl_for_sid(sid: &str) -> (r: String)
    ensures
        r@ == "D:P(A;;GA;;;"@ + sid@ + ")(A;;GA;;;SY)"@,
{
    let mut rules = "D:P(A;;GA;;;".to_owned();
    rules.append(sid);
    rules.append(")(A;;GA;;;SY)");
    rules
}

/// The process that the daemon's process file names.
pub fn pid_of(content: &str) -> (r: Option<u32>)
    ensures
        r is Some <==> (parse_u64_spec(trim_spec(content@)) matches Some(n) && n <= u32::MAX),
        r matches Some(pid) ==> parse_u64_spec(trim_spec(content@)) == Some(pid as u64),
{
    let trimmed = text::trim(content);
    match text::parse_u64(trimmed.as_str()) {
        Some(n) => {
            if n <= u32::MAX as u64 {
                Some(n as u32)
            } else {
                None
            }
        },
        None => None,
    }
}

// ---------------------------------------------------------------------------
// The answer of the page
// ---------------------------------------------------------------------------

/// The status in what the page posted.
pub open spec fn posted_status(v: JsonView) -> u16 {
    match get_spec(v, "status"@) {
        Some(s) => match as_u64_spec(s) {
            Some(n) => n as u16,
            None => 0,
        },
        None => 0,
    }
}

/// The body in what the page posted.
pub open spec fn posted_body(v: JsonView) -> Seq<char> {
    match get_str_spec(v, "body"@) {
        Some(b) => b,
        None => Seq::empty(),
    }
}

/// The answer that what the page posted stands for.
pub open spec fn ipc_spec(posted: Result<JsonView, Seq<char>>) -> ResponseView {
    match posted {
        Ok(v) => call_ok_spec(posted_status(v), posted_body(v)),
        Err(_) => err_spec("webview returned non-JSON payload"@),
    }
}

/// The status and the body in what the page posted; zero and nothing where
/// they are missing.
pub fn posted_parts(v: &Json) -> (r: (u16, String))
    ensures
        r.0 == posted_status(v@),
        r.1@ == posted_body(v@),
{
    let status: u16 = match v.get("status") {
        Some(s) => match s.as_u64() {
            Some(n) => #[verifier::truncate] (n as u16),
            None => 0,
        },
        None => 0,
    };
    let body = match v.get_str("body") {
        Some(b) => b.to_owned(),
        None => {
            let empty = String::new();
            assert(empty@ =~= Seq::<char>::empty());
            empty
        },
    };
    (status, body)
}

/// The answer that what the page posted, read as JSON, stands for.
pub fn ipc_response(posted: &Result<Json, String>) -> (r: Response)
    ensures
        r@ == ipc_spec(parse_view(*posted)),
{
    match posted {
        Ok(v) => {
            let (status, body) = posted_parts(v);
            Response::call_ok(status, body)
        },
        Err(_) => Response::err("webview returned non-JSON payload"),
    }
}

/// The answer that what the page posted stands for.
pub fn ipc_answer(payload: &str) -> (r: Response)
    ensures
        r@ == ipc_spec(parsed_json(payload@)),
{
    let posted = json::parse(payload);
    ipc_response(&posted)
}

// ---------------------------------------------------------------------------
// One request
// ---------------------------------------------------------------------------

/// How many seconds the daemon waits for the page.
pub const CALL_TIMEOUT_SECS: u64 = 30;

/// How far a request has come.
#[derive(Debug)]
pub struct CallProgress {
    /// Whether the script was handed to the page.
    pub evaluated: Option<Result<(), String>>,
    /// Whether the page answered in time.
    pub answered: Option<bool>,
    /// What the page answered.
    pub slot: Option<Response>,
}

/// What a request does next.
#[derive(Debug)]
pub enum RequestAction {
    Reply(Response),
    /// Hand the script to the page.
    Evaluate { script: String },
    /// Wait for the page.
    Wait,
}

/// The mathematical value of a [`RequestAction`].
#[verifier::ext_equal]
pub enum RequestView {
    Reply(ResponseView),
    Evaluate { script: Seq<char> },
    Wait,
}

impl View for RequestAction {
    type V = RequestView;

    open spec fn view(&self) -> RequestView {
        match self {
            RequestAction::Reply(x) => RequestView::Reply(x@),
            RequestAction::Evaluate { script } => RequestView::Evaluate { script: script@ },
            RequestAction::Wait => RequestView::Wait,
        }
    }
}

/// What the request `request` does next.
pub open spec fn request_next_spec(request: Request, p: CallProgress) -> RequestView {
    match request {
        Request::Ping => RequestView::Reply(ResponseView::Pong { ok: true, pong: true }),
        Request::Shutdown => RequestView::Reply(call_ok_spec(200, Seq::empty())),
        Request::Call { method, path, body } => match p.evaluated {
            None => RequestView::Evaluate { script: script_spec(method@, path@, opt_text(body)) },
            Some(Err(e)) => RequestView::Reply(err_spec("evaluate_script failed: "@ + e@)),
            Some(Ok(_)) => match p.answered {
                None => RequestView::Wait,
                Some(false) => RequestView::Reply(
                    err_spec(
                        "fab API call timed out after "@ + decimal_spec(CALL_TIMEOUT_SECS as nat)
                            + "s"@,
                    ),
                ),
                Some(true) => match p.slot {
                    Some(x) => RequestView::Reply(x@),
                    None => RequestView::Reply(err_spec("ipc response vanished"@)),
                },
            },
        },
    }
}

/// What the request `request` does next: hand its script to the page, wait, or
/// answer.
pub fn handle_request(request: &Request, p: &CallProgress) -> (r: RequestAction)
    ensures
        r@ == request_next_spec(*request, *p),
{
    match request {
        Request::Ping => RequestAction::Reply(Response::pong()),
        Request::Shutdown => {
            let empty = String::new();
            assert(empty@ =~= Seq::<char>::empty());
            RequestAction::Reply(Response::call_ok(200, empty))
        },
        Request::Call { method, path, body } => match &p.evaluated {
            None => {
                let script = match body {
                    Some(b) => build_fetch_script(method.as_str(), path.as_str(), Some(b.as_str())),
                    None => build_fetch_script(method.as_str(), path.as_str(), None),
                };
                RequestAction::Evaluate { script }
            },
            Some(Err(e)) => {
                let mut m = "evaluate_script failed: ".to_owned();
                m.append(e.as_str());
                RequestAction::Reply(Response::err(m.as_str()))
            },
            Some(Ok(_)) => match p.answered {
                None => RequestAction::Wait,
                Some(false) => {
                    let mut m = "fab API call timed out after ".to_owned();
                    m.append(text::decimal(CALL_TIMEOUT_SECS).as_str());
                    m.append("s");
                    RequestAction::Reply(Response::err(m.as_str()))
                },
                Some(true) => match &p.slot {
                    Some(x) => RequestAction::Reply(x.copy()),
                    None => RequestAction::Reply(Response::err("ipc response vanished")),
                },
            },
        },
    }
}

// ---------------------------------------------------------------------------
// The daemon's life
// ---------------------------------------------------------------------------

/// A step of the daemon's beginning, and how it went.
#[derive(Debug)]
pub enum StartupStep {
    Com(Result<(), String>),
    Window(Result<(), String>),
    WebView(Result<(), String>),
    Bootstrap { in_time: bool },
}

/// The line that is logged where a step fails. The daemon then ends with exit
/// code one.
pub open spec fn startup_failure_spec(step: StartupStep) -> Option<Seq<char>> {
    match step {
        StartupStep::Com(Err(e)) => Some("CoInitializeEx failed: "@ + e@),
        StartupStep::Window(Err(e)) => Some("create hidden window failed: "@ + e@),
        StartupStep::WebView(Err(e)) => Some("WebView build failed: "@ + e@),
        StartupStep::Bootstrap { in_time } => if in_time {
            None
        } else {
            Some("bootstrap navigation timed out"@)
        },
        _ => None,
    }
}

fn with_message(prefix: &str, message: &str) -> (r: Option<String>)
    ensures
        opt_text(r) == Some(prefix@ + message@),
{
    let mut m = prefix.to_owned();
    m.append(message);
    Some(m)
}

/// The line that is logged where a step of the daemon's beginning fails;
/// nothing where it went well.
pub fn startup_failure(step: &StartupStep) -> (r: Option<String>)
    ensures
        opt_text(r) == startup_failure_spec(*step),
{
    match step {
        StartupStep::Com(Err(e)) => with_message("CoInitializeEx failed: ", e.as_str()),
        StartupStep::Window(Err(e)) => with_message("create hidden window failed: ", e.as_str()),
        StartupStep::WebView(Err(e)) => with_message("WebView build failed: ", e.as_str()),
        StartupStep::Bootstrap { in_time } => {
            if *in_time {
                None
            } else {
                Some("bootstrap navigation timed out".to_owned())
            }
        },
        _ => None,
    }
}

/// The line that is logged at the daemon's beginning.
pub fn starting_line(pipe: &str, idle_secs: u64) -> (r: String)
    ensures
        r@ == "daemon starting pipe="@ + pipe@ + " idle_secs="@ + decimal_spec(idle_secs as nat),
{
    let mut m = "daemon starting pipe=".to_owned();
    m.append(pipe);
    m.append(" idle_secs=");
    m.append(text::decimal(idle_secs).as_str());
    m
}

/// What a turn of the daemon's loop found.
#[derive(Debug, Clone, Copy, PartialEq, Eq, Structural)]
pub enum LoopEvent {
    /// A request, at a time; whether it asks to stop.
    Request { at: u64, shutdown: bool },
    /// Nothing.
    Empty,
    /// The other thread is gone.
    Disconnected,
}

/// Why the daemon ends.
#[derive(Debug, Clone, Copy, PartialEq, Eq, Structural)]
pub enum StopReason {
    Asked,
    Disconnected,
    Idle,
}

/// The time of the last request after a turn of the loop.
pub open spec fn activity_spec(last: u64, event: LoopEvent) -> u64 {
    match event {
        LoopEvent::Request { at, .. } => at,
        _ => last,
    }
}

/// Whether the daemon ends after a turn of the loop, and why.
pub open spec fn loop_spec(last: u64, event: LoopEvent, now: u64, idle: u64) -> Option<StopReason> {
    match event {
        LoopEvent::Request { shutdown: true, .. } => Some(StopReason::Asked),
        LoopEvent::Disconnected => Some(StopReason::Disconnected),
        _ => if now - activity_spec(last, event) > idle {
            Some(StopReason::Idle)
        } else {
            None
        },
    }
}

/// One turn of the daemon's loop: `last` is the time of the last request,
/// `event` what was found, `now` the time after it was dealt with, and `idle`
/// how long the daemon stays without requests, all in one unit. It ends where
/// it is asked to, where the other thread is gone, or when it was idle for too
/// long.
pub fn loop_step(last: &mut u64, event: LoopEvent, now: u64, idle: u64) -> (r: Option<StopReason>)
    requires
        activity_spec(*old(last), event) <= now,
    ensures
        r == loop_spec(*old(last), event, now, idle),
        *final(last) == activity_spec(*old(last), event),
{
    match event {
        LoopEvent::Request { at, shutdown } => {
            *last = at;
            if shutdown {
                return Some(StopReason::Asked);
            }
        },
        LoopEvent::Empty => {},
        LoopEvent::Disconnected => {
            return Some(StopReason::Disconnected);
        },
    }
    if now - *last > idle {
        return Some(StopReason::Idle);
    }
    None
}

/// The line that is logged when the daemon ends.
pub fn stop_line(reason: StopReason) -> (r: &'static str)
    ensures
        r@ == (match reason {
            StopReason::Asked => "shutdown requested by client"@,
            StopReason::Disconnected => "pipe worker disconnected; exiting"@,
            StopReason::Idle => "idle timeout reached; shutting down"@,
        }),
{
    match reason {
        StopReason::Asked => "shutdown requested by client",
        StopReason::Disconnected => "pipe worker disconnected; exiting",
        StopReason::Idle => "idle timeout reached; shutting down",
    }
}

/// A daemon that has just answered a request does not end for idleness, and
/// one that is asked to stop does.
pub proof fn requests_keep_the_daemon_alive(last: u64, at: u64, idle: u64)
    ensures
        loop_spec(last, LoopEvent::Request { at, shutdown: false }, at, idle) is None,
        loop_spec(last, LoopEvent::Request { at, shutdown: true }, at, idle) == Some(
            StopReason::Asked,
        ),
{
}

// ---------------------------------------------------------------------------
// The pipe
// ---------------------------------------------------------------------------

/// What happened at the daemon's pipe.
#[derive(Debug)]
pub enum PipeEvent {
    /// The first instance could not be created.
    FirstFailed(String),
    /// An instance is there for the next client.
    Ready,
    /// A client is connected.
    Connected,
    /// The instance for the next client was created, or could not be.
    Next(Result<(), String>),
}

/// What the daemon does at its pipe.
#[derive(Debug)]
#[allow(inconsistent_fields)]
pub enum PipeAction {
    /// Wait for a client.
    Listen,
    /// Create the instance for the next client.
    CreateNext,
    /// Serve the client, and wait for the next.
    Serve,
    /// Serve the client, ask the daemon to end, and stop; say why.
    ServeLast { log: String },
    /// Stop; ask the daemon to end where `end` says so, and say why.
    Stop { end: bool, log: Option<String> },
}

/// The mathematical value of a [`PipeAction`].
#[allow(inconsistent_fields)]
#[verifier::ext_equal]
pub enum PipeView {
    Listen,
    CreateNext,
    Serve,
    ServeLast { log: Seq<char> },
    Stop { end: bool, log: Option<Seq<char>> },
}

impl View for PipeAction {
    type V = PipeView;

    open spec fn view(&self) -> PipeView {
        match self {
            PipeAction::Listen => PipeView::Listen,
            PipeAction::CreateNext => PipeView::CreateNext,
            PipeAction::Serve => PipeView::Serve,
            PipeAction::ServeLast { log } => PipeView::ServeLast { log: log@ },
            PipeAction::Stop { end, log } => PipeView::Stop { end: *end, log: opt_text(*log) },
        }
    }
}

/// What the daemon does at its pipe after `event`; `stopping` is whether it was
/// asked to end.
pub open spec fn pipe_spec(event: PipeEvent, stopping: bool) -> PipeView {
    match event {
        PipeEvent::FirstFailed(e) => PipeView::Stop {
            end: true,
            log: Some(
                "first pipe instance unavailable ("@ + e@ + "); exiting silently"@,
            ),
        },
        PipeEvent::Ready => if stopping {
            PipeView::Stop { end: false, log: None }
        } else {
            PipeView::Listen
        },
        PipeEvent::Connected => PipeView::CreateNext,
        PipeEvent::Next(Ok(_)) => PipeView::Serve,
        PipeEvent::Next(Err(e)) => PipeView::ServeLast {
            log: "next pipe instance creation failed: "@ + e@,
        },
    }
}

/// What the daemon does at its pipe after `event`. Where another daemon holds
/// the pipe already, this one ends; where no further instance can be made, it
/// serves the client that is there and ends.
pub fn pipe_step(event: &PipeEvent, stopping: bool) -> (r: PipeAction)
    ensures
        r@ == pipe_spec(*event, stopping),
{
    match event {
        PipeEvent::FirstFailed(e) => {
            let mut m = "first pipe instance unavailable (".to_owned();
            m.append(e.as_str());
            m.append("); exiting silently");
            PipeAction::Stop { end: true, log: Some(m) }
        },
        PipeEvent::Ready => {
            if stopping {
                PipeAction::Stop { end: false, log: None }
            } else {
                PipeAction::Listen
            }
        },
        PipeEvent::Connected => PipeAction::CreateNext,
        PipeEvent::Next(Ok(_)) => PipeAction::Serve,
        PipeEvent::Next(Err(e)) => {
            let mut m = "next pipe instance creation failed: ".to_owned();
            m.append(e.as_str());
            PipeAction::ServeLast { log: m }
        },
    }
}

/// What a connection does with a line.
#[derive(Debug)]
pub enum LineAction {
    /// Close the connection.
    Close,
    /// Answer, and read on.
    Reply(Response),
    /// Hand the request on and answer with what comes back; where `last` says
    /// so, close the connection then.
    Dispatch { last: bool },
}

/// The mathematical value of a [`LineAction`].
#[verifier::ext_equal]
pub enum LineView {
    Close,
    Reply(ResponseView),
    Dispatch { last: bool },
}

impl View for LineAction {
    type V = LineView;

    open spec fn view(&self) -> LineView {
        match self {
            LineAction::Close => LineView::Close,
            LineAction::Reply(x) => LineView::Reply(x@),
            LineAction::Dispatch { last } => LineView::Dispatch { last: *last },
        }
    }
}

/// What a connection does with a line that was read as `request`.
pub open spec fn line_spec(stopping: bool, request: Result<Request, String>) -> LineView {
    if stopping {
        LineView::Close
    } else {
        match request {
            Err(e) => LineView::Reply(err_spec("malformed request: "@ + e@)),
            Ok(r) => LineView::Dispatch { last: r is Shutdown },
        }
    }
}

/// What a connection does with a line that was read as `request`, or could not
/// be read: a malformed request is answered, and the connection stays.
pub fn handle_line(stopping: bool, request: &Result<Request, String>) -> (r: LineAction)
    ensures
        r@ == line_spec(stopping, *request),
{
    if stopping {
        return LineAction::Close;
    }
    match request {
        Err(e) => {
            let mut m = "malformed request: ".to_owned();
            m.append(e.as_str());
            LineAction::Reply(Response::err(m.as_str()))
        },
        Ok(Request::Shutdown) => LineAction::Dispatch { last: true },
        Ok(_) => LineAction::Dispatch { last: false },
    }
}

/// The answer to a request that was handed on; `reply` is missing where nobody
/// answered.
pub fn dispatched_reply(reply: Option<Response>) -> (r: Response)
    ensures
        r@ == dispatched_spec(opt_response(reply)),
{
    match reply {
        Some(x) => x,
        None => Response::err("dispatch channel closed"),
    }
}

// ---------------------------------------------------------------------------
// Stopping a daemon
// ---------------------------------------------------------------------------

/// What stopping the daemon does next.
#[derive(Debug, Clone, Copy, PartialEq, Eq, Structural)]
pub enum StopAction {
    /// Ask it to stop.
    Ask,
    /// Find its process.
    FindProcess,
    /// End the process.
    Kill(u32),
    Done,
}

/// What stopping the daemon does next: it is asked first, and its process is
/// ended only where it gave no answer. `acked` is whether it answered, `process`
/// the process that its file names.
pub fn stop_daemon(acked: Option<bool>, process: Option<Option<u32>>) -> (r: StopAction)
    ensures
        r == stop_spec(acked, process),
{
    match acked {
        None => StopAction::Ask,
        Some(true) => StopAction::Done,
        Some(false) => match process {
            None => StopAction::FindProcess,
            Some(Some(pid)) => StopAction::Kill(pid),
            Some(None) => StopAction::Done,
        },
    }
}

// ---------------------------------------------------------------------------
// How the daemon answers
// ---------------------------------------------------------------------------

/// What the page posted is answered with its status and body; a missing status
/// is zero, a missing body is empty, and what is no JSON is a failure.
pub proof fn posts_are_answered_as_posted(
    j: JsonView,
    status: u16,
    body: Seq<char>,
    message: Seq<char>,
)
    ensures
        get_spec(j, "status"@) == Some(
            JsonView::Number(json::NumberView::Unsigned(status as u64)),
        ) && get_spec(j, "body"@) == Some(JsonView::Str(body)) ==> ipc_spec(Ok(j)) == (
        ResponseView::CallOk { ok: true, status, body }),
        get_spec(j, "status"@) is None ==> posted_status(j) == 0,
        !(get_spec(j, "body"@) matches Some(JsonView::Str(_))) ==> posted_body(j) == Seq::<
            char,
        >::empty(),
        ipc_spec(Err(message)) matches ResponseView::Failed { ok: false, .. },
{
}

/// A request for a sign of life and one to stop are answered at once; one to the
/// marketplace is handed to the page, waited for, and answered with what the
/// page answered, or with a failure where that went wrong.
pub proof fn requests_are_answered(request: Request, p: CallProgress)
    ensures
        request is Ping ==> request_next_spec(request, p) == RequestView::Reply(
            ResponseView::Pong { ok: true, pong: true },
        ),
        request is Shutdown ==> (request_next_spec(request, p) matches RequestView::Reply(
            ResponseView::CallOk { ok: true, status: 200, .. },
        )),
        request matches Request::Call { method, path, body } ==> {
            &&& p.evaluated is None ==> request_next_spec(request, p) == (RequestView::Evaluate {
                script: script_spec(method@, path@, opt_text(body)),
            })
            &&& p.evaluated matches Some(e) ==> (e is Err ==> (request_next_spec(request, p)
                matches RequestView::Reply(ResponseView::Failed { ok: false, .. })))
            &&& p.evaluated matches Some(e) ==> (e is Ok && p.answered is None
                ==> request_next_spec(request, p) is Wait)
            &&& p.evaluated matches Some(e) ==> (e is Ok && p.answered == Some(false) ==> (
            request_next_spec(request, p) matches RequestView::Reply(
                ResponseView::Failed { ok: false, .. },
            )))
            &&& p.evaluated matches Some(e) ==> (e is Ok && p.answered == Some(true) ==> (
            p.slot matches Some(x) ==> request_next_spec(request, p) == RequestView::Reply(x@)))
        },
{
}

/// A step of the daemon's beginning is a failure exactly where it failed or came
/// too late.
pub proof fn failed_beginnings_are_told(step: StartupStep)
    ensures
        startup_failure_spec(step) is Some <==> match step {
            StartupStep::Com(r) => r is Err,
            StartupStep::Window(r) => r is Err,
            StartupStep::WebView(r) => r is Err,
            StartupStep::Bootstrap { in_time } => !in_time,
        },
{
}

/// The daemon ends where it is asked to, where the other thread is gone, and
/// where the last request is longer ago than it may be idle; else it goes on.
pub proof fn daemons_end_when_they_must(last: u64, event: LoopEvent, now: u64, idle: u64)
    ensures
        loop_spec(last, event, now, idle) == Some(StopReason::Asked) <==> (event matches
            LoopEvent::Request { shutdown: true, .. }),
        loop_spec(last, event, now, idle) == Some(StopReason::Disconnected) <==> event
            == LoopEvent::Disconnected,
        event == LoopEvent::Empty ==> (loop_spec(last, event, now, idle) == Some(StopReason::Idle)
            <==> now > last + idle),
        event == LoopEvent::Empty && now <= last + idle ==> loop_spec(last, event, now, idle)
            is None,
        event matches LoopEvent::Request { at, shutdown: false } ==> (loop_spec(
            last,
            event,
            now,
            idle,
        ) is None <==> now <= at + idle),
        event matches LoopEvent::Request { at, .. } ==> activity_spec(last, event) == at,
        !(event is Request) ==> activity_spec(last, event) == last,
{
}

/// What the daemon does at its pipe: it listens unless it is stopping, makes the
/// next instance once a client is there, and serves that client; it asks to end
/// where another holds the pipe.
pub proof fn clients_are_served(event: PipeEvent, stopping: bool)
    ensures
        pipe_spec(event, stopping) is Listen <==> event is Ready && !stopping,
        pipe_spec(event, stopping) is CreateNext <==> event is Connected,
        pipe_spec(event, stopping) is Serve <==> (event matches PipeEvent::Next(r) && r is Ok),
        pipe_spec(event, stopping) is ServeLast <==> (event matches PipeEvent::Next(r) && r
            is Err),
        pipe_spec(event, stopping) matches PipeView::Stop { end, .. } ==> (end <==> event
            is FirstFailed),
        pipe_spec(event, stopping) is Stop <==> event is FirstFailed || (event is Ready
            && stopping),
{
}

/// A line is handed on where it is a request, as the last where it asks to stop;
/// one that is none is answered with a failure; and a stopping daemon closes.
pub proof fn lines_are_handed_on(stopping: bool, request: Result<Request, String>)
    ensures
        line_spec(stopping, request) is Close <==> stopping,
        line_spec(stopping, request) is Reply <==> !stopping && request is Err,
        line_spec(stopping, request) matches LineView::Reply(x) ==> (x matches
            ResponseView::Failed { ok: false, .. }),
        line_spec(stopping, request) matches LineView::Dispatch { last } ==> (request matches Ok(r)
            && (last <==> r is Shutdown)),
{
}

/// An answer that may be there, by its value.
pub open spec fn opt_response(r: Option<Response>) -> Option<ResponseView> {
    match r {
        Some(x) => Some(x@),
        None => None,
    }
}

/// The answer to a request that was handed on.
pub open spec fn dispatched_spec(reply: Option<ResponseView>) -> ResponseView {
    match reply {
        Some(x) => x,
        None => err_spec("dispatch channel closed"@),
    }
}

/// What comes back is answered as it is; where nothing does, that is a failure.
pub proof fn replies_are_passed_on(x: ResponseView)
    ensures
        dispatched_spec(Some(x)) == x,
        dispatched_spec(None) matches ResponseView::Failed { ok: false, .. },
{
}

/// What stopping the daemon does next.
pub open spec fn stop_spec(acked: Option<bool>, process: Option<Option<u32>>) -> StopAction {
    match acked {
        None => StopAction::Ask,
        Some(true) => StopAction::Done,
        Some(false) => match process {
            None => StopAction::FindProcess,
            Some(Some(pid)) => StopAction::Kill(pid),
            Some(None) => StopAction::Done,
        },
    }
}

/// A daemon is asked to stop first, and a process is ended only where the daemon
/// did not answer, and then the one that its file names.
pub proof fn daemons_are_asked_before_they_are_ended(
    acked: Option<bool>,
    process: Option<Option<u32>>,
    pid: u32,
)
    ensures
        stop_spec(acked, process) == StopAction::Ask <==> acked is None,
        stop_spec(acked, process) == StopAction::Kill(pid) <==> acked == Some(false) && process
            == Some(Some(pid)),
        stop_spec(acked, process) == StopAction::FindProcess <==> acked == Some(false) && process
            is None,
{
}

/// A status that is no whole number counts as zero.
pub proof fn posts_without_a_status_have_none(j: JsonView)
    ensures
        !(get_spec(j, "status"@) matches Some(JsonView::Number(json::NumberView::Unsigned(_))))
            ==> posted_status(j) == 0,
{
}

} // verus!
