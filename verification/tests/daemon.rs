use fabcli::auth::{
    authenticated_json, check_exchange, code_from_ipc, combined_json, extract_code_from_redirect_url,
    is_fab_flow_complete, load_session, login, logout_report, status_report, whoami_report, Account,
    LoginAction, LoginProgress, Refresh, LOGIN_URL,
};
use fabcli::clock::Timestamp;
use fabcli::error::{EpicError, FabCliError};
use fabcli::fab_browser::{
    api_from_payload, call, check_session_dir, daemon_request, fallback_line, is_bootstrap_page,
    page_call, resp_to_api, transport, unsupported_error, Attempt, CallAction, DaemonProgress,
    FabApiResponse, PageAction, Platform, Transport,
};
use fabcli::fab_daemon::{
    build_sddl_for_sid, dispatched_reply, handle_line, handle_request, ipc_answer, loop_step,
    pid_of, pipe_name, pipe_step, starting_line, startup_failure, stop_line, CallProgress,
    LineAction, LoopEvent, PipeAction, PipeEvent, Request, RequestAction, Response, StartupStep,
    StopReason,
};
use fabcli::fab_session::{new_session, FabSession};
use fabcli::json::{print_json, Json, Number};
use fabcli::log::{log_path, needs_rotation, pid_path, MAX_BYTES};
use fabcli::report::{
    download_report, error_line, format_source, probe_line, probe_preview, sidecar,
    usage_exit_code, AssetFacts, FormatSource, FormatVersion,
};
use fabcli::script::build_fetch_script;
use fabcli::webview_host::{unsupported, WindowOptions};

fn s(input: &str) -> String {
    input.to_string()
}

// ── the daemon's pipe ──

#[test]
fn pipe_name_is_stable() {
    let p = r"C:\Users\alice\AppData\Roaming\fabcli\webview";
    assert_eq!(pipe_name(p), pipe_name(p));
}

#[test]
fn pipe_name_differs_per_path() {
    let a = r"C:\Users\alice\AppData\Roaming\fabcli\webview";
    let b = r"C:\Users\bob\AppData\Roaming\fabcli\webview";
    assert_ne!(pipe_name(a), pipe_name(b));
}

#[test]
fn pipe_name_has_expected_prefix() {
    let name = pipe_name(r"C:\x");
    assert!(name.starts_with(r"\\.\pipe\fabcli-browser-"));
    assert_eq!(name.len(), r"\\.\pipe\fabcli-browser-".len() + 24);
    assert_eq!(pipe_name("abc"), r"\\.\pipe\fabcli-browser-ba7816bf8f01cfea414140de");
}

#[test]
fn sddl_includes_user_sid_and_system_only() {
    let fake_sid = "S-1-5-21-1-2-3-1000";
    let sddl = build_sddl_for_sid(fake_sid);
    assert!(sddl.contains(fake_sid), "user SID must be granted");
    assert!(sddl.contains("SY"), "SYSTEM must be included");
    assert!(sddl.starts_with("D:P"), "DACL must be protected (no inheritance)");
}

#[test]
fn sddl_denies_world_and_cross_user() {
    let user_sid = "S-1-5-21-1-2-3-1000";
    let other_sid = "S-1-5-21-9-9-9-2000";
    let sddl = build_sddl_for_sid(user_sid);
    for shouldnt in ["WD", "AU", "BU", "IU", "AN", "NU"] {
        let token = format!(";{})", shouldnt);
        assert!(!sddl.contains(&token), "SDDL must not grant '{}': {}", shouldnt, sddl);
    }
    assert!(!sddl.contains(other_sid), "SDDL must not grant any other explicit SID");
}

#[test]
fn pipes_are_served_in_turn() {
    assert!(matches!(
        pipe_step(&PipeEvent::FirstFailed(s("busy")), false),
        PipeAction::Stop { end: true, log: Some(_) }
    ));
    assert!(matches!(pipe_step(&PipeEvent::Ready, false), PipeAction::Listen));
    assert!(matches!(pipe_step(&PipeEvent::Ready, true), PipeAction::Stop { log: None, .. }));
    assert!(matches!(pipe_step(&PipeEvent::Next(Ok(())), false), PipeAction::Serve));
    assert!(matches!(
        pipe_step(&PipeEvent::Next(Err(s("no"))), false),
        PipeAction::ServeLast { .. }
    ));
}

#[test]
fn malformed_lines_are_answered() {
    assert!(matches!(handle_line(true, &Ok(Request::Ping)), LineAction::Close));
    match handle_line(false, &Err(s("key must be a string"))) {
        LineAction::Reply(Response::Failed { ok, error }) => {
            assert!(!ok);
            assert!(error.contains("key must be a string"), "{}", error);
        }
        other => panic!("{:?}", other),
    }
    assert!(matches!(
        handle_line(false, &Ok(Request::Shutdown)),
        LineAction::Dispatch { last: true }
    ));
    assert!(matches!(
        handle_line(false, &Ok(Request::Ping)),
        LineAction::Dispatch { last: false }
    ));
    assert!(matches!(dispatched_reply(None), Response::Failed { .. }));
    assert_eq!(dispatched_reply(Some(Response::pong())), Response::pong());
}

// ── requests ──

fn progress() -> CallProgress {
    CallProgress { evaluated: None, answered: None, slot: None }
}

#[test]
fn requests_are_answered() {
    match handle_request(&Request::Ping, &progress()) {
        RequestAction::Reply(r) => assert_eq!(r, Response::pong()),
        other => panic!("{:?}", other),
    }
    let get = daemon_request("GET", "/i/users/me", None);
    match handle_request(&get, &progress()) {
        RequestAction::Evaluate { script } => {
            assert_eq!(script, build_fetch_script("GET", "/i/users/me", None))
        }
        other => panic!("{:?}", other),
    }
    let mut p = progress();
    p.evaluated = Some(Ok(()));
    assert!(matches!(handle_request(&get, &p), RequestAction::Wait));
    p.answered = Some(true);
    p.slot = Some(Response::call_ok(200, s("{}")));
    match handle_request(&get, &p) {
        RequestAction::Reply(r) => assert_eq!(r, Response::call_ok(200, s("{}"))),
        other => panic!("{:?}", other),
    }
    p.answered = Some(false);
    p.slot = None;
    assert!(matches!(
        handle_request(&get, &p),
        RequestAction::Reply(Response::Failed { .. })
    ));
    p.evaluated = Some(Err(s("boom")));
    match handle_request(&get, &p) {
        RequestAction::Reply(Response::Failed { error, .. }) => {
            assert!(error.contains("boom"), "{}", error)
        }
        other => panic!("{:?}", other),
    }
}

#[test]
fn posted_answers_are_read() {
    assert_eq!(
        ipc_answer(r#"{"status":201,"body":"x"}"#),
        Response::call_ok(201, s("x"))
    );
    assert_eq!(ipc_answer(r#"{"status":0,"body":"TypeError"}"#), ipc_answer(r#"{"body":"TypeError"}"#));
    assert!(matches!(ipc_answer("nonsense"), Response::Failed { .. }));
    assert_eq!(Response::err("boom"), Response::Failed { ok: false, error: s("boom") });
    assert_eq!(Response::pong().copy(), Response::Pong { ok: true, pong: true });
    assert_eq!(pid_of(" 42\n"), Some(42));
    assert_eq!(pid_of("x"), None);
}

#[test]
fn the_daemon_stops_when_idle() {
    let mut last: u64 = 10;
    assert_eq!(loop_step(&mut last, LoopEvent::Empty, 20, 30), None);
    assert_eq!(loop_step(&mut last, LoopEvent::Request { at: 35, shutdown: false }, 36, 30), None);
    assert_eq!(last, 35);
    assert_eq!(loop_step(&mut last, LoopEvent::Empty, 66, 30), Some(StopReason::Idle));
    assert_eq!(loop_step(&mut last, LoopEvent::Disconnected, 66, 300), Some(StopReason::Disconnected));
    assert_eq!(
        loop_step(&mut last, LoopEvent::Request { at: 66, shutdown: true }, 66, 300),
        Some(StopReason::Asked)
    );
    assert_ne!(stop_line(StopReason::Idle), stop_line(StopReason::Asked));
    assert!(starting_line("p", 30).contains("30"));
    assert_eq!(startup_failure(&StartupStep::Com(Ok(()))), None);
    assert!(startup_failure(&StartupStep::Bootstrap { in_time: false }).is_some());
    assert!(startup_failure(&StartupStep::Window(Err(s("no window")))).unwrap().contains("no window"));
}

// ── the injected script ──

#[test]
fn embeds_method_and_path_as_base64() {
    let script = build_fetch_script("GET", "/i/users/me", None);
    assert!(script.contains(r#"atob("R0VU")"#));
    assert!(script.contains("fab_csrftoken"));
    assert!(!script.contains("init.body ="));
}

#[test]
fn post_body_included() {
    let script = build_fetch_script("POST", "/x", Some(r#"{"a":1}"#));
    assert!(script.contains("init.body = atob("));
    assert!(script.contains(r#"init.body = atob("eyJhIjoxfQ==");"#));
}

// ── the log ──

#[test]
fn rotates_when_over_limit() {
    assert!(needs_rotation(MAX_BYTES + 1));
}

#[test]
fn appends_when_under_limit() {
    assert!(!needs_rotation(0));
    assert!(!needs_rotation(MAX_BYTES));
    assert_eq!(fabcli::log::line("T", 7, "one"), "T pid=7 one\n");
    assert!(log_path(Some("/d")).unwrap().starts_with("/d"));
    assert_eq!(log_path(None), None);
    assert!(pid_path("/d").starts_with("/d"));
}

// ── calls through the daemon ──

fn attempt() -> Attempt {
    Attempt { spawned: None, pipe_appeared: None, called: None }
}

fn fresh() -> DaemonProgress {
    DaemonProgress { session_dir: true, probe: None, first: attempt(), second: attempt() }
}

#[test]
fn calls_go_to_a_running_daemon_first() {
    let mut p = fresh();
    assert!(matches!(call(&p), CallAction::Probe));
    p.probe = Some(Some(Response::call_ok(200, s("b"))));
    match call(&p) {
        CallAction::Return(api) => assert_eq!((api.status, api.body.as_str()), (200, "b")),
        other => panic!("{:?}", other),
    }
    p.probe = Some(None);
    assert!(matches!(call(&p), CallAction::Spawn { log: None }));
    p.first.spawned = Some(Ok(()));
    assert!(matches!(call(&p), CallAction::AwaitPipe));
    p.first.pipe_appeared = Some(true);
    assert!(matches!(call(&p), CallAction::Send));
    p.first.called = Some(Err(s("broken")));
    assert!(matches!(call(&p), CallAction::Spawn { .. }));
    p.second.spawned = Some(Ok(()));
    p.second.pipe_appeared = Some(true);
    p.second.called = Some(Err(s("broken again")));
    assert!(matches!(call(&p), CallAction::Fail(_)));
    p.session_dir = false;
    match call(&p) {
        CallAction::Fail(e) => assert_eq!(e.to_output().0, 2),
        other => panic!("{:?}", other),
    }
    assert!(check_session_dir(true).is_ok() && check_session_dir(false).is_err());
}

#[test]
fn responses_become_answers() {
    let ok = resp_to_api(&Response::call_ok(204, s(""))).unwrap();
    assert_eq!(ok.status, 204);
    assert!(resp_to_api(&Response::err("boom")).is_err());
    assert!(resp_to_api(&Response::pong()).is_err());
    assert_eq!(transport(Platform::Windows, false), Transport::DaemonFirst);
    assert_eq!(transport(Platform::Windows, true), Transport::InProcess);
    assert_eq!(transport(Platform::Linux, false), Transport::InProcess);
    assert_eq!(transport(Platform::Other, false), Transport::Unsupported);
    assert!(fallback_line(&unsupported_error()).len() > 0);
}

#[test]
fn pages_are_driven_to_an_answer() {
    assert!(is_bootstrap_page("https://www.fab.com/robots.txt"));
    let api = api_from_payload(r#"{"status":200,"body":"ok"}"#).unwrap();
    assert_eq!((api.status, api.body.as_str()), (200, "ok"));
    assert!(matches!(page_call(Some(api), false, false, true, true), PageAction::Return(_)));
    assert!(matches!(page_call(None, false, false, false, true), PageAction::Inject));
    assert!(matches!(page_call(None, false, false, false, false), PageAction::Pump));
    assert!(matches!(page_call(None, false, false, true, true), PageAction::Pump));
    assert!(matches!(page_call(None, false, true, true, true), PageAction::Fail(_)));
    assert!(matches!(page_call(None, true, false, true, true), PageAction::Fail(_)));
    let answer = FabApiResponse { status: 0, body: s("x") };
    assert!(matches!(page_call(Some(answer), true, true, true, true), PageAction::Return(_)));
    assert!(!WindowOptions::default().title.is_empty());
    assert!(unsupported("a web view").to_output().2.contains("a web view"));
}

// ── logging in ──

#[test]
fn login_url_is_pinned() {
    assert_eq!(
        LOGIN_URL,
        "https://www.epicgames.com/id/login?redirectUrl=https%3A%2F%2Fwww.epicgames.com%2Fid%2Fapi%2Fredirect%3FclientId%3D34a02cf8f4414e29b15921876da36f9a%26responseType%3Dcode"
    );
}

#[test]
fn detects_home_as_complete() {
    assert!(is_fab_flow_complete("https://www.fab.com/"));
}

#[test]
fn detects_social_success_as_complete() {
    assert!(is_fab_flow_complete("https://www.fab.com/social/success"));
}

#[test]
fn excludes_social_intermediaries() {
    assert!(!is_fab_flow_complete("https://www.fab.com/social/login/epic/"));
    assert!(!is_fab_flow_complete("https://www.fab.com/social/complete/epic/?code=xxx"));
}

#[test]
fn excludes_login_bounce() {
    assert!(!is_fab_flow_complete("https://www.fab.com/login"));
}

#[test]
fn excludes_other_hosts() {
    assert!(!is_fab_flow_complete("https://www.epicgames.com/id/authorize?..."));
}

#[test]
fn codes_are_found() {
    assert_eq!(extract_code_from_redirect_url("https://h/p?a=1&code=xyz&b=2").as_deref(), Some("xyz"));
    assert_eq!(extract_code_from_redirect_url("https://h/p"), None);
    assert_eq!(code_from_ipc("nonsense"), None);
    assert_eq!(code_from_ipc(r#"{"authorizationCode":"c1"}"#).as_deref(), Some("c1"));
}

fn account() -> Account {
    Account { account_id: Some(s("id")), display_name: Some(s("Name")), expires_at: None }
}

fn no_session(manual: bool) -> LoginProgress {
    LoginProgress {
        manual,
        session: None,
        renewed: None,
        web_view: None,
        terminal: false,
        pasted: None,
    }
}

#[test]
fn auth_login_manual_without_tty_fails_fast() {
    match login(&no_session(true)) {
        LoginAction::Fail(e) => assert!(e.to_output().2.contains("TTY")),
        other => panic!("{:?}", other),
    }
    let mut p = no_session(true);
    p.terminal = true;
    assert!(matches!(login(&p), LoginAction::AskForCode));
    p.pasted = Some(s(" c1 \n"));
    match login(&p) {
        LoginAction::FinishSimple { code } => assert_eq!(code, "c1"),
        other => panic!("{:?}", other),
    }
}

#[test]
fn logins_show_a_web_view_first() {
    let mut p = no_session(false);
    assert!(matches!(login(&p), LoginAction::ShowWebView));
    p.web_view = Some(Ok(s("c")));
    match login(&p) {
        LoginAction::FinishCombined { code } => assert_eq!(code, "c"),
        other => panic!("{:?}", other),
    }
    let now = Timestamp { secs: 1_790_000_000, nanos: 0 };
    let fs: FabSession = new_session(now);
    p.session = Some((account(), Some(fs), now));
    assert!(matches!(login(&p), LoginAction::AlreadyAuthenticated));
    p.session = Some((account(), None, now));
    assert!(matches!(login(&p), LoginAction::RenewFab));
    p.renewed = Some(Ok(()));
    assert!(matches!(login(&p), LoginAction::Renewed));
}

#[test]
fn auth_status_without_session_is_auth_required() {
    let e = load_session(false, Refresh::NotNeeded).unwrap_err();
    assert_eq!((e.to_output().0, e.to_output().1), (2, "auth_required"));
    assert!(e.to_output().2.contains("no session"));
    assert!(error_line(&e).contains("\"kind\":\"auth_required\""));
    assert!(!load_session(true, Refresh::NotNeeded).unwrap());
    assert!(load_session(true, Refresh::Done).unwrap());
    assert_eq!(load_session(true, Refresh::Rejected).unwrap_err().to_output().0, 2);
    assert_eq!(
        load_session(true, Refresh::Failed(EpicError::FabTimeout)).unwrap_err().to_output().0,
        5
    );
    assert!(check_exchange(true).is_ok());
    assert!(check_exchange(false).is_err());
}

#[test]
fn auth_logout_without_session_succeeds_idempotently() {
    let text = print_json(&logout_report(false), false);
    assert!(text.contains("\"ok\":true"));
    assert!(text.contains("\"note\":\"no session\""));
    assert!(!print_json(&logout_report(true), false).contains("no session"));
}

#[test]
fn reports_name_the_account() {
    let who = print_json(&whoami_report(&account(), Some(s("m@x"))), false);
    assert!(who.contains("\"Name\"") && who.contains("\"m@x\"") && who.contains("\"id\""), "{}", who);
    let both = combined_json(&account(), Some(s("T1")), true, Some(s("T2")));
    let text = print_json(&both, false);
    assert!(text.contains("\"T1\"") && text.contains("\"T2\""), "{}", text);
    let there = authenticated_json(&account(), Some(s("T1")), None);
    let text = print_json(&there, false);
    assert!(text.contains("\"already_authenticated\":true"), "{}", text);
    assert!(text.contains("\"fab_expires_at\":null"), "{}", text);
    let state = status_report(None, true, Json::object());
    assert!(print_json(&state, false).contains("\"refreshed\":true"));
}

// ── what is printed ──

#[test]
fn unknown_subcommand_exits_six() {
    assert_eq!(usage_exit_code(false), 6);
    assert_eq!(usage_exit_code(true), 0);
}

#[test]
fn errors_are_printed_on_one_line() {
    assert_eq!(
        error_line(&FabCliError::NotFound(s("gone"))),
        r#"{"error":{"kind":"not_found","message":"gone"}}"#
    );
    assert_eq!(FabCliError::NotFound(s("gone")).to_text(), "not_found: gone");
}

#[test]
fn downloads_are_described() {
    let facts = AssetFacts {
        fabcli_version: s("0.6.0"),
        listing_uid: s("u"),
        title: s("T"),
        distribution_method: s("ASSET_PACK"),
        versions: vec![
            FormatVersion {
                engine_versions: Some(vec![s("UE_5.4"), s("UE_5.3")]),
                target_platforms: None,
            },
            FormatVersion {
                engine_versions: Some(vec![s("UE_5.4")]),
                target_platforms: Some(vec![s("Windows")]),
            },
        ],
        file_count: 2,
        total_bytes: 10,
        downloaded_at: s("now"),
    };
    let text = print_json(&sidecar(&facts), false);
    assert!(text.contains(r#""engine_versions":["UE_5.3","UE_5.4"]"#), "{}", text);
    assert!(text.contains(r#""platforms":["Windows"]"#), "{}", text);
    assert!(text.contains("\"u\"") && text.contains("10"), "{}", text);
    let report = download_report(2, 10, Number::Decimal(s("1.5")), "/out");
    let text = print_json(&report, false);
    assert!(text.contains("1.5") && text.contains("\"/out\""), "{}", text);
    assert_eq!(format_source(false, false), FormatSource::Summary);
    assert_eq!(format_source(true, true), FormatSource::Detail);
    assert_eq!(format_source(true, false), FormatSource::Dropped);
}

#[test]
fn probes_are_cut() {
    let long = "x".repeat(500);
    assert!(probe_preview(&long).starts_with(&"x".repeat(400)));
    assert!(probe_preview(&long).len() < 500);
    assert_eq!(probe_preview("short"), "short");
    let odd = format!("{}é", "x".repeat(399));
    assert_eq!(probe_preview(&odd), format!("{}…(+2 bytes)", "x".repeat(399)));
    assert_eq!(probe_line(200, "bödy", "/i/x"), r#"{"status":200,"body_len":5,"url_len":4}"#);
}
