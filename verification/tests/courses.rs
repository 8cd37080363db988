use fabcli::args::UpdateArgs;
use fabcli::auth::{
    finish_login, logout, FinishAction, FinishProgress, LogoutAction, LogoutProgress,
};
use fabcli::download::{ChunkPart, FileManifest, OverwriteMode};
use fabcli::download_flow::{download_next, DownloadAction, DownloadProgress, Manifest};
use fabcli::error::FabCliError;
use fabcli::fab_daemon::{stop_daemon, Request, Response, StopAction};
use fabcli::json::print_json;
use fabcli::state::{read_update_check, write_update_check, UpdateCheck};
use fabcli::update::{update_next, Host, UpdateAction, UpdateProgress};
use fabcli::wire::{read_request, read_response, write_request, write_response};

fn s(input: &str) -> String {
    input.to_string()
}

// ── what stands on the pipe ──

fn roundtrip_req(r: &Request) {
    let line = write_request(r);
    assert!(!line.contains('\n'), "protocol is line-delimited: no newlines");
    let back: Request = read_request(&line).unwrap();
    assert_eq!(r, &back);
}

fn roundtrip_resp(r: &Response) {
    let line = write_response(r);
    assert!(!line.contains('\n'));
    let back: Response = read_response(&line).unwrap();
    assert_eq!(r, &back);
}

#[test]
fn request_call_roundtrip() {
    roundtrip_req(&Request::Call { method: "GET".into(), path: "/i/users/me".into(), body: None });
    roundtrip_req(&Request::Call {
        method: "POST".into(),
        path: "/i/listings/abc/add-to-library".into(),
        body: Some(r#"{"offerId":"x"}"#.into()),
    });
    roundtrip_req(&Request::Call {
        method: "a\nb\"c\\".into(),
        path: "é\u{0}\u{1F600}".into(),
        body: Some(String::new()),
    });
}

#[test]
fn request_shutdown_and_ping_roundtrip() {
    roundtrip_req(&Request::Shutdown);
    roundtrip_req(&Request::Ping);
}

#[test]
fn response_roundtrip() {
    roundtrip_resp(&Response::call_ok(200, "{\"x\":1}".into()));
    roundtrip_resp(&Response::pong());
    roundtrip_resp(&Response::err("boom"));
}

#[test]
fn malformed_request_rejected() {
    assert!(read_request("{not json").is_err());
    assert!(read_request(r#"{"op":"call"}"#).is_err());
    assert!(read_request(r#"{"op":"nonsense"}"#).is_err());
}

#[test]
fn request_call_wire_format() {
    let r = Request::Call { method: "GET".into(), path: "/i/x".into(), body: None };
    let line = write_request(&r);
    assert!(line.contains(r#""op":"call""#));
    assert!(line.contains(r#""method":"GET""#));
}

#[test]
fn malformed_requests_say_what_is_wrong() {
    assert_eq!(read_request("{}").unwrap_err(), "missing field `op`");
    assert_eq!(read_request(r#"{"op":"call"}"#).unwrap_err(), "missing field `method`");
    assert_eq!(
        read_request(r#"{"op":"x"}"#).unwrap_err(),
        "unknown variant `x`, expected one of `call`, `shutdown`, `ping`"
    );
    assert_eq!(
        read_request(r#"{"op":"call","method":1,"path":"p"}"#).unwrap_err(),
        "invalid type in field `method`, expected a string"
    );
    assert_eq!(
        read_request(r#"{"op":"call","method":"GET","path":"p","more":1}"#).unwrap(),
        Request::Call { method: s("GET"), path: s("p"), body: None }
    );
    assert!(read_request(r#"{"op":"call","method":"GET","path":"p","body":1}"#).is_err());
    assert!(read_response(r#"{"ok":true,"status":70000,"body":""}"#).is_err());
    assert!(read_response("{}").is_err());
    assert!(read_response("nonsense").is_err());
}

// ── what is remembered ──

#[test]
fn round_trip_write_then_read() {
    let check = UpdateCheck {
        last_check_unix: 1_700_000_000,
        latest_version: "0.6.0".into(),
        running_version_at_check: "0.5.0".into(),
    };
    let read = read_update_check(&write_update_check(&check)).unwrap();
    assert_eq!(read, check);
}

#[test]
fn malformed_json_returns_none() {
    assert!(read_update_check("{not json").is_none());
    assert!(read_update_check("").is_none());
    assert!(read_update_check(r#"{"last_check_unix":1,"latest_version":"x"}"#).is_none());
    assert!(read_update_check(
        r#"{"last_check_unix":-1,"latest_version":"x","running_version_at_check":"y"}"#
    )
    .is_none());
}

// ── the course of a download ──

fn manifest(link: Option<&str>) -> Manifest {
    Manifest {
        files: vec![FileManifest {
            filename: s("a"),
            parts: vec![ChunkPart { guid: s("g"), link: link.map(s), offset: 0, size: 1 }],
        }],
        shas: vec![],
        total_size: 1 << 20,
    }
}

fn started(mode: OverwriteMode) -> DownloadProgress {
    DownloadProgress {
        mode,
        infos: None,
        manifest: None,
        output_dir: None,
        planned: false,
        checked: false,
        space: None,
        scratch: false,
        fetched: None,
        made: None,
        cleaned: false,
    }
}

#[test]
fn downloads_go_through_their_steps() {
    let mut p = started(OverwriteMode::Default);
    assert!(matches!(download_next(&p), DownloadAction::FetchInfos));
    p.infos = Some(vec![vec![s("url")]]);
    match download_next(&p) {
        DownloadAction::FetchManifest { url } => assert_eq!(url, "url"),
        other => panic!("{:?}", other),
    }
    p.manifest = Some(manifest(Some("link")));
    assert!(matches!(download_next(&p), DownloadAction::OpenOutput));
    p.output_dir = Some(s("/out"));
    assert!(matches!(download_next(&p), DownloadAction::PlanTargets));
    p.planned = true;
    assert!(matches!(download_next(&p), DownloadAction::Preflight));
    p.checked = true;
    assert!(matches!(download_next(&p), DownloadAction::MeasureSpace));
    p.space = Some(Some(2 << 20));
    match download_next(&p) {
        DownloadAction::Begin { note, line } => {
            assert_eq!(note.as_deref(), Some("[download] Disk space: 2 MB available"));
            assert_eq!(line, "[download] 1 files, 1 chunks, 1.0 MB to download");
        }
        other => panic!("{:?}", other),
    }
    p.scratch = true;
    match download_next(&p) {
        DownloadAction::FetchChunks { jobs } => assert_eq!(jobs[0].url, "link"),
        other => panic!("{:?}", other),
    }
    p.fetched = Some(true);
    assert!(matches!(download_next(&p), DownloadAction::MakeFiles));
    p.made = Some(true);
    assert!(matches!(download_next(&p), DownloadAction::CleanUp));
    p.cleaned = true;
    assert!(matches!(download_next(&p), DownloadAction::Report));
}

#[test]
fn failed_downloads_clean_up_first() {
    let mut p = started(OverwriteMode::Force);
    p.infos = Some(vec![vec![s("url")]]);
    p.manifest = Some(manifest(None));
    p.output_dir = Some(s("/out"));
    p.planned = true;
    assert!(matches!(download_next(&p), DownloadAction::MeasureSpace));
    p.space = Some(Some(1));
    assert!(matches!(download_next(&p), DownloadAction::Fail(FabCliError::Generic(_))));
    p.space = Some(None);
    p.scratch = true;
    assert!(matches!(download_next(&p), DownloadAction::CleanUp));
    p.cleaned = true;
    match download_next(&p) {
        DownloadAction::Fail(e) => assert_eq!(e.to_output().2, "no download URL for chunk g"),
        other => panic!("{:?}", other),
    }
    p.cleaned = false;
    p.fetched = Some(false);
    assert!(matches!(download_next(&p), DownloadAction::CleanUp));
    p.cleaned = true;
    assert!(matches!(download_next(&p), DownloadAction::GiveUp));
    p.infos = Some(vec![]);
    assert!(matches!(download_next(&p), DownloadAction::Fail(FabCliError::NotFound(_))));
}

// ── the course of an update ──

fn update_args() -> UpdateArgs {
    UpdateArgs { check: false, to: None, force: false, allow_unverified: false }
}

fn host() -> Host {
    Host { running: s("0.5.0"), owner: s("o"), repo: s("r"), windows: false }
}

#[test]
fn updates_are_verified_before_they_are_installed() {
    let mut p = UpdateProgress { releases: None, verified: false, installed: None };
    assert!(matches!(update_next(&update_args(), &host(), &p), UpdateAction::FetchReleases));
    p.releases = Some(vec![s("0.6.0"), s("0.5.0")]);
    match update_next(&update_args(), &host(), &p) {
        UpdateAction::Verify { tag, asset } => {
            assert_eq!((tag.as_str(), asset.as_str()), ("0.6.0", "fabcli-v0.6.0-linux64.tar.gz"))
        }
        other => panic!("{:?}", other),
    }
    p.verified = true;
    assert!(matches!(update_next(&update_args(), &host(), &p), UpdateAction::Install { .. }));
    p.installed = Some((true, s("0.6.0")));
    match update_next(&update_args(), &host(), &p) {
        UpdateAction::Report(j) => assert_eq!(
            print_json(&j, false),
            r#"{"asset":"fabcli-v0.6.0-linux64.tar.gz","from":"0.5.0","to":"0.6.0","updated":true}"#
        ),
        other => panic!("{:?}", other),
    }
    let mut unverified = update_args();
    unverified.allow_unverified = true;
    unverified.to = Some(s("v0.4.0"));
    p = UpdateProgress { releases: None, verified: false, installed: None };
    match update_next(&unverified, &host(), &p) {
        UpdateAction::Install { tag, .. } => assert_eq!(tag, "0.4.0"),
        other => panic!("{:?}", other),
    }
}

#[test]
fn update_checks_only_report() {
    let mut args = update_args();
    args.check = true;
    args.to = Some(s("9.9.9"));
    let p = UpdateProgress { releases: Some(vec![s("0.6.0")]), verified: false, installed: None };
    match update_next(&args, &host(), &p) {
        UpdateAction::Report(j) => assert_eq!(
            print_json(&j, false),
            r#"{"latest":"0.6.0","newer_available":true,"running":"0.5.0"}"#
        ),
        other => panic!("{:?}", other),
    }
    let none = UpdateProgress { releases: Some(vec![]), verified: false, installed: None };
    match update_next(&update_args(), &host(), &none) {
        UpdateAction::Fail(e) => assert_eq!(e.to_output().2, "no releases on o/r"),
        other => panic!("{:?}", other),
    }
    let same = UpdateProgress { releases: Some(vec![s("0.5.0")]), verified: false, installed: None };
    match update_next(&update_args(), &host(), &same) {
        UpdateAction::Report(j) => assert_eq!(
            print_json(&j, false),
            r#"{"latest":"0.5.0","running":"0.5.0","unchanged":true,"updated":false}"#
        ),
        other => panic!("{:?}", other),
    }
}

// ── logging in and out ──

#[test]
fn sessions_are_stored_before_the_marketplace_is_asked() {
    let mut p = FinishProgress {
        combined: true,
        accepted: None,
        saved: false,
        fab: None,
        saved_with_fab: false,
    };
    assert!(matches!(finish_login(&p), FinishAction::Exchange));
    p.accepted = Some(false);
    match finish_login(&p) {
        FinishAction::Fail(e) => {
            assert_eq!(e.to_output().2, "authorization code rejected by Epic")
        }
        other => panic!("{:?}", other),
    }
    p.accepted = Some(true);
    assert!(matches!(finish_login(&p), FinishAction::Save));
    p.saved = true;
    assert!(matches!(finish_login(&p), FinishAction::ObtainFab));
    p.fab = Some(true);
    assert!(matches!(finish_login(&p), FinishAction::SaveWithFab));
    p.saved_with_fab = true;
    assert!(matches!(finish_login(&p), FinishAction::Report));
    p.saved_with_fab = false;
    p.fab = Some(false);
    assert!(matches!(finish_login(&p), FinishAction::Report));
    p.fab = None;
    p.combined = false;
    assert!(matches!(finish_login(&p), FinishAction::Report));
}

fn logging_out(readable: bool) -> LogoutProgress {
    LogoutProgress {
        has_daemon: true,
        readable: Some(readable),
        told: false,
        token_gone: false,
        daemon_stopped: false,
        browser_gone: false,
        key_gone: false,
        cache_gone: false,
    }
}

#[test]
fn auth_logout_deletes_preexisting_token_file() {
    let mut p = logging_out(false);
    assert!(matches!(logout(&p), LogoutAction::DeleteToken));
    p.token_gone = true;
    assert!(matches!(logout(&p), LogoutAction::StopDaemon));
    p.daemon_stopped = true;
    assert!(matches!(logout(&p), LogoutAction::DeleteBrowserData));
    p.browser_gone = true;
    assert!(matches!(logout(&p), LogoutAction::DeleteKey));
    p.key_gone = true;
    assert!(matches!(logout(&p), LogoutAction::DeleteCache));
    p.cache_gone = true;
    match logout(&p) {
        LogoutAction::Report(j) => {
            assert_eq!(print_json(&j, false), r#"{"note":"no session","ok":true}"#)
        }
        other => panic!("{:?}", other),
    }
    assert!(matches!(logout(&logging_out(true)), LogoutAction::TellService));
}

#[test]
fn daemons_are_asked_before_they_are_ended() {
    assert_eq!(stop_daemon(None, None), StopAction::Ask);
    assert_eq!(stop_daemon(Some(true), None), StopAction::Done);
    assert_eq!(stop_daemon(Some(false), None), StopAction::FindProcess);
    assert_eq!(stop_daemon(Some(false), Some(Some(7))), StopAction::Kill(7));
    assert_eq!(stop_daemon(Some(false), Some(None)), StopAction::Done);
}
