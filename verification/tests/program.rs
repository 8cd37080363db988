use fabcli::args::{
    AuthCommand, Command, LibraryArgs, ResolverArgs, Scope, UpdateArgs,
};
use fabcli::clock::{check_days, days_span, to_nanos, Timestamp};
use fabcli::config::{config_dir, daemon_state_dir, token_path, webview_data_dir};
use fabcli::error::FabCliError;
use fabcli::fab_session::{
    days_remaining, ensure_fab_session_ready, fab_status_json, maybe_warn, new_session,
    threshold_from_env, FabSession,
};
use fabcli::json::{print_json, Json};
use fabcli::library_cache::{
    cache_path, clear_report, fetch_library_cached, hint_should_emit, hint_suppressed_by_env,
    hint_text, hint_ttl_from_env, is_enabled_from_env, is_stale, read_if_fresh, resolving_note,
    ttl_from_env, CacheMode, CacheVerdict, FetchAction, LastHint,
};
use fabcli::skill::{
    file_error, install, parse_frontmatter_field, parse_source, parse_version, remote_status_error,
    remote_url, resolve_skill_dir, resolve_skill_file, status, uninstall, unreachable_error,
    InstallDecision, Source, UninstallDecision, DEFAULT_REMOTE_URL,
};
use fabcli::state::{state_dir, update_check_path, UpdateCheck};
use fabcli::token_storage::{
    check_header, decrypt, decrypt_with_key, encrypt_with_key, key_delete_error, key_from_b64,
    key_next, key_store_error, new_key, KeyAction, KeystoreAnswer, AES_KEY_LEN, FORMAT_VERSION,
    HEADER_LEN,
};
use fabcli::update::{
    asset_name_for_host, check_report, is_newer, latest_release, map_update_err, parse_sha256sums,
    release_url, remote_name, split_remote, unchanged_report, updated_report,
    verify_release_checksum, wanted_tag, ChecksumAction, ChecksumAnswers, UpdateError,
};
use fabcli::update_check::{
    hint_line, hint_next, latest_url, latest_version, newer_hint, should_consider, ttl_seconds,
    version_gt, version_of_tag, HintAction,
};

fn s(input: &str) -> String {
    input.to_string()
}

fn joined(parts: &[&str]) -> String {
    let mut path = std::path::PathBuf::from(parts[0]);
    for part in &parts[1..] {
        path = path.join(part);
    }
    path.to_string_lossy().into_owned()
}

fn message(e: FabCliError) -> String {
    e.to_output().2
}

// ── where the skill is ──

fn resolver(scope: Scope, path: Option<&str>) -> ResolverArgs {
    ResolverArgs { scope, path: path.map(s) }
}

#[test]
fn explicit_path_wins_over_env_and_scope() {
    let p = resolve_skill_dir(
        &resolver(Scope::User, Some("/tmp/explicit")),
        Some("/tmp/from-env"),
        Ok("/work"),
        Some("/home/u"),
        ".assistant",
    );
    assert_eq!(p.unwrap(), "/tmp/explicit");
}

#[test]
fn env_wins_over_scope() {
    let p = resolve_skill_dir(
        &resolver(Scope::User, None),
        Some("/tmp/from-env"),
        Ok("/work"),
        Some("/home/u"),
        ".assistant",
    );
    assert_eq!(p.unwrap(), "/tmp/from-env");
}

#[test]
fn project_scope_uses_cwd() {
    let args = resolver(Scope::Project, None);
    let p = resolve_skill_dir(&args, None, Ok("/work"), Some("/home/u"), ".assistant").unwrap();
    assert_eq!(p, joined(&["/work", ".assistant", "skills"]));
    let e = resolve_skill_dir(&args, None, Err("gone"), None, ".assistant").unwrap_err();
    assert_eq!(message(e), "could not resolve cwd: gone");
}

#[test]
fn user_scope_resolves_to_home_dot_claude_skills() {
    let args = resolver(Scope::default(), None);
    let p = resolve_skill_dir(&args, None, Ok("/work"), Some("/home/u"), ".assistant").unwrap();
    assert_eq!(p, joined(&["/home/u", ".assistant", "skills"]));
    let e = resolve_skill_dir(&args, None, Ok("/work"), None, ".assistant").unwrap_err();
    assert_eq!(message(e), "could not resolve user home directory");
}

#[test]
fn skill_file_layout() {
    let p = resolve_skill_file("/x/y");
    assert_eq!(p, joined(&["/x/y", "fabcli", "SKILL.md"]));
}

#[test]
fn empty_env_falls_back_to_scope() {
    let args = resolver(Scope::Project, None);
    let p = resolve_skill_dir(&args, Some(""), Ok("/work"), None, ".assistant").unwrap();
    assert_eq!(p, joined(&["/work", ".assistant", "skills"]));
}

#[test]
fn skill_path_honors_path_override() {
    let args = resolver(Scope::User, Some("/other"));
    let dir = resolve_skill_dir(&args, Some("/env"), Ok("/work"), None, ".assistant").unwrap();
    assert_eq!(resolve_skill_file(&dir), joined(&["/other", "fabcli", "SKILL.md"]));
}

#[test]
fn parse_source_variants() {
    assert!(matches!(parse_source("github").unwrap(), Source::Github));
    match parse_source("path=/tmp/foo.md").unwrap() {
        Source::Path(p) => assert_eq!(p, "/tmp/foo.md"),
        _ => panic!("expected Source::Path"),
    }
    assert!(parse_source("nonsense").is_err());
    assert!(parse_source("embedded").is_err());
}

#[test]
fn skill_install_unknown_source_is_invalid_args() {
    let (code, _, message) = parse_source("moonbeam").unwrap_err().to_output();
    assert_eq!(code, 6);
    assert!(message.contains("unknown --source"));
}

#[test]
fn parse_version_happy_path() {
    let s = "---\nname: fabcli\nversion: 0.5.0\n---\nbody\n";
    assert_eq!(parse_version(s).as_deref(), Some("0.5.0"));
}

#[test]
fn parse_version_missing_returns_none() {
    let s = "---\nname: fabcli\n---\nbody\n";
    assert_eq!(parse_version(s), None);
}

#[test]
fn parse_version_no_frontmatter_returns_none() {
    let s = "no frontmatter here\nversion: 1.0.0\n";
    assert_eq!(parse_version(s), None);
}

#[test]
fn parse_version_malformed_returns_none() {
    let s = "---\nname: fabcli\n";
    assert_eq!(parse_version(s), None);
}

#[test]
fn unclosed_front_matter_has_no_version() {
    assert_eq!(parse_version("---\nversion: 1.0.0\n"), None);
    assert_eq!(parse_version("---\nversion: 1.0.0\n---"), Some("1.0.0".to_string()));
}

#[test]
fn frontmatter_ends_at_its_closing_line() {
    let text = "---\r\nname:  fabcli \r\n---\r\nversion: 2\r\n";
    assert_eq!(parse_frontmatter_field(text, "name").as_deref(), Some("fabcli"));
    assert_eq!(parse_frontmatter_field(text, "version"), None);
}

#[test]
fn remote_url_default_when_unset() {
    assert_eq!(remote_url(None), DEFAULT_REMOTE_URL);
    assert_eq!(remote_url(Some("")), DEFAULT_REMOTE_URL);
}

#[test]
fn remote_url_honors_env() {
    assert_eq!(remote_url(Some("http://localhost:9/x.md")), "http://localhost:9/x.md");
}

// ── installing and removing it ──

const FIXTURE: &str = "---\nname: fabcli\nversion: 0.1.0\n---\nbody\n";

#[test]
fn skill_install_writes_skill_file() {
    match install("/t", FIXTURE, None, false, false) {
        InstallDecision::Write { report, note } => {
            assert_eq!(note, None);
            assert_eq!(
                print_json(&report, false),
                r#"{"installed":true,"path":"/t","version":"0.1.0"}"#
            );
        }
        other => panic!("{:?}", other),
    }
}

#[test]
fn skill_install_then_status_then_uninstall_cycle() {
    assert!(matches!(install("/t", FIXTURE, None, false, false), InstallDecision::Write { .. }));
    let report = print_json(&status("/t", Some(FIXTURE), None), false);
    assert!(report.contains("\"present\":true"));
    assert!(report.contains("\"version\":\"0.1.0\""));
    match uninstall("/t", Some(FIXTURE), false) {
        UninstallDecision::Remove(report) => {
            assert!(print_json(&report, false).contains("\"uninstalled\":true"))
        }
        other => panic!("{:?}", other),
    }
    match uninstall("/t", None, false) {
        UninstallDecision::NotPresent(report) => assert_eq!(
            print_json(&report, false),
            r#"{"path":"/t","reason":"not_present","uninstalled":false}"#
        ),
        other => panic!("{:?}", other),
    }
}

#[test]
fn skill_install_refuses_to_overwrite_different_file_without_force() {
    let other = "---\nname: fabcli\nversion: 0.0.1\n---\nstub\n";
    match install("/t", FIXTURE, Some(other), false, false) {
        InstallDecision::Refuse(e) => assert_eq!((e.to_output().0, e.to_output().1), (6, "invalid_args")),
        other => panic!("{:?}", other),
    }
    assert!(matches!(
        install("/t", FIXTURE, Some(other), true, false),
        InstallDecision::Write { note: None, .. }
    ));
}

#[test]
fn skill_update_overwrites_and_reports_version_arrow() {
    let before = "---\nname: fabcli\nversion: 0.0.1\n---\nstub\n";
    match install("/t", FIXTURE, Some(before), false, true) {
        InstallDecision::Write { report, note } => {
            assert!(print_json(&report, false).contains("\"installed\":true"));
            assert_eq!(note.as_deref(), Some("0.0.1 → 0.1.0"));
        }
        other => panic!("{:?}", other),
    }
}

#[test]
fn skill_install_unchanged_is_no_op_success() {
    for (force, update) in [(false, false), (true, false), (false, true)] {
        match install("/t", FIXTURE, Some(FIXTURE), force, update) {
            InstallDecision::Unchanged(report) => {
                let text = print_json(&report, false);
                assert!(text.contains("\"unchanged\":true"));
                assert!(text.contains("\"installed\":false"));
            }
            other => panic!("{:?}", other),
        }
    }
}

#[test]
fn skill_uninstall_refuses_foreign_file_without_force() {
    match uninstall("/t", Some("---\nname: something-else\n---\nbody\n"), false) {
        UninstallDecision::Refuse(e) => {
            assert_eq!(e.to_output().0, 6);
            assert_eq!(
                message(e),
                "/t does not look like a FabCLI skill (frontmatter `name:` is Some(\"something-else\")); pass --force to delete anyway"
            );
        }
        other => panic!("{:?}", other),
    }
}

#[test]
fn skill_uninstall_force_deletes_foreign_file() {
    assert!(matches!(
        uninstall("/t", Some("totally not yaml\n"), true),
        UninstallDecision::Remove(_)
    ));
}

#[test]
fn skill_install_source_path_reads_local_file() {
    let content = "---\nname: fabcli\nversion: 9.9.9\n---\ncustom local source\n";
    match install("/t", content, None, false, false) {
        InstallDecision::Write { report, .. } => {
            assert!(print_json(&report, false).contains("\"version\":\"9.9.9\""))
        }
        other => panic!("{:?}", other),
    }
}

#[test]
fn skill_status_reports_absence_when_not_installed() {
    assert_eq!(
        print_json(&status("/t", None, None), false),
        r#"{"installed":{"path":"/t","present":false,"version":null}}"#
    );
    assert_eq!(
        print_json(&status("/t", Some("x"), Some(("u", FIXTURE))), false),
        r#"{"installed":{"path":"/t","present":true,"version":null},"matches_remote":false,"remote":{"url":"u","version":"0.1.0"}}"#
    );
}

#[test]
fn skill_install_source_github_with_unreachable_url_is_network_error() {
    let e = unreachable_error("http://127.0.0.1:1/never-listening.md", "refused");
    assert_eq!((e.to_output().0, e.to_output().1), (5, "network"));
    assert_eq!(
        message(remote_status_error("u", "404 Not Found")),
        "skill repo at u returned HTTP 404 Not Found"
    );
}

#[test]
fn skill_install_source_path_missing_file_is_generic_error() {
    let e = file_error("read", "/nonexistent/skill.md", "gone");
    assert_eq!((e.to_output().0, e.to_output().1), (1, "generic"));
    assert_eq!(message(e), "failed to read /nonexistent/skill.md: gone");
}

// ── updates ──

#[test]
fn split_remote_happy() {
    let (o, r) = split_remote("zirklerite/FabCLI").unwrap();
    assert_eq!((o.as_str(), r.as_str()), ("zirklerite", "FabCLI"));
}

#[test]
fn split_remote_invalid() {
    assert!(split_remote("noslash").is_err());
}

#[test]
fn update_remote_malformed_is_invalid_args() {
    let e = split_remote(&remote_name(Some("no-slash-here"))).unwrap_err();
    assert_eq!(e.to_output().0, 6);
    assert!(message(e).contains("FABCLI_UPDATE_REMOTE"));
    assert_eq!(remote_name(None), "zirklerite/FabCLI");
}

#[test]
fn is_newer_obeys_semver() {
    assert!(is_newer("0.6.0", "0.5.0"));
    assert!(!is_newer("0.5.0", "0.6.0"));
    assert!(!is_newer("0.5.0", "0.5.0"));
    assert!(is_newer("0.10.0", "0.9.0"));
    assert!(is_newer("1.0.0", "1.0.0-rc.1"));
}

#[test]
fn is_newer_handles_unparseable() {
    assert!(!is_newer("not-a-version", "0.5.0"));
    assert!(!is_newer("0.5.0", "garbage"));
}

#[test]
fn asset_name_includes_version() {
    for windows in [false, true] {
        let name = asset_name_for_host("0.6.0", windows);
        assert!(name.contains("0.6.0"));
        assert!(name.starts_with("fabcli-v"));
    }
}

#[test]
fn asset_name_no_timestamp_segment() {
    assert_eq!(asset_name_for_host("0.6.0", true), "fabcli-v0.6.0-windows64.zip");
    assert_eq!(asset_name_for_host("0.6.0", false), "fabcli-v0.6.0-linux64.tar.gz");
}

#[test]
fn parse_sha256sums_finds_match() {
    let body = "abc123  fabcli-v0.6.0-windows64.zip\nfff999  other.txt\n";
    assert_eq!(parse_sha256sums(body, "fabcli-v0.6.0-windows64.zip"), Some("abc123".into()));
}

#[test]
fn parse_sha256sums_returns_none_when_missing() {
    let body = "abc123  other.txt\n";
    assert_eq!(parse_sha256sums(body, "fabcli-v0.6.0-windows64.zip"), None);
}

#[test]
fn parse_sha256sums_handles_star_prefix() {
    let body = "abc123 *fabcli-v0.6.0-windows64.zip\n";
    assert_eq!(parse_sha256sums(body, "fabcli-v0.6.0-windows64.zip"), Some("abc123".into()));
}

#[test]
fn parse_sha256sums_skips_blank_and_comments() {
    let body = "# header\n\nabc123  fabcli-v0.6.0-windows64.zip\n";
    assert_eq!(parse_sha256sums(body, "fabcli-v0.6.0-windows64.zip"), Some("abc123".into()));
}

const SHA256_OF_ABC: &str = "ba7816bf8f01cfea414140de5dae2223b00361a396177a9cb410ff61f20015ad";

#[test]
fn releases_are_held_against_their_checksums() {
    let mut a = ChecksumAnswers { assets: vec![], sums: None, archive: None };
    assert!(matches!(verify_release_checksum("1.0.0", "x.zip", &a), ChecksumAction::Fail(_)));
    a.assets = vec![(s("SHA256SUMS.txt"), s("sums-url")), (s("x.zip"), s("zip-url"))];
    match verify_release_checksum("1.0.0", "x.zip", &a) {
        ChecksumAction::FetchSums { url } => assert_eq!(url, "sums-url"),
        other => panic!("{:?}", other),
    }
    a.sums = Some(format!("{}  x.zip\n", SHA256_OF_ABC));
    match verify_release_checksum("1.0.0", "x.zip", &a) {
        ChecksumAction::FetchArchive { url } => assert_eq!(url, "zip-url"),
        other => panic!("{:?}", other),
    }
    a.archive = Some(b"abc".to_vec());
    assert!(matches!(verify_release_checksum("1.0.0", "x.zip", &a), ChecksumAction::Verified));
    a.archive = Some(b"abd".to_vec());
    match verify_release_checksum("1.0.0", "x.zip", &a) {
        ChecksumAction::Fail(e) => assert!(message(e).contains(SHA256_OF_ABC)),
        other => panic!("{:?}", other),
    }
    a.sums = Some(s("00  other.zip\n"));
    match verify_release_checksum("1.0.0", "x.zip", &a) {
        ChecksumAction::Fail(e) => {
            assert_eq!(message(e), "SHA256SUMS.txt has no line for x.zip on release v1.0.0")
        }
        other => panic!("{:?}", other),
    }
}

#[test]
fn update_reports() {
    assert_eq!(
        release_url("o", "r", "1.0.0"),
        "https://api.github.com/repos/o/r/releases/tags/v1.0.0"
    );
    let report = print_json(&check_report("0.5.0", "0.6.0", true), false);
    assert!(report.contains("\"0.5.0\"") && report.contains("\"0.6.0\""), "{}", report);
    assert_eq!(wanted_tag("v1.2.3"), wanted_tag("1.2.3"));
    assert_eq!(latest_release(&vec![s("2.0.0"), s("1.0.0")], "o", "r").unwrap(), "2.0.0");
    assert!(latest_release(&vec![], "o", "r").is_err());
    assert!(unchanged_report("1.0.0", "1.0.0", false, false).is_some());
    assert!(unchanged_report("1.0.0", "1.0.0", false, true).is_none());
    assert!(unchanged_report("1.0.0", "2.0.0", false, false).is_none());
    let done = print_json(&updated_report(true, "1.0.0", "2.0.0", "x.zip"), false);
    assert!(done.contains("\"x.zip\""), "{}", done);
}

#[test]
fn update_check_against_unreachable_remote_is_network_error() {
    assert_eq!(map_update_err(UpdateError::Network(s("down"))).to_output().0, 5);
    assert_eq!(map_update_err(UpdateError::Reqwest(s("down"))).to_output().0, 5);
    for e in [UpdateError::Io(s("x")), UpdateError::Json(s("x")), UpdateError::SemVer(s("x"))] {
        assert_eq!(map_update_err(e).to_output().0, 1);
    }
}

// ── the hint about updates ──

#[test]
fn version_gt_obeys_semver() {
    assert!(version_gt("0.6.0", "0.5.0"));
    assert!(!version_gt("0.5.0", "0.6.0"));
    assert!(!version_gt("0.5.0", "0.5.0"));
}

#[test]
fn version_gt_rejects_unparseable() {
    assert!(!version_gt("garbage", "0.5.0"));
    assert!(!version_gt("0.5.0", "garbage"));
}

#[test]
fn ttl_default_is_24h() {
    assert_eq!(ttl_seconds(None), 24 * 3600);
}

#[test]
fn ttl_zero_is_zero() {
    assert_eq!(ttl_seconds(Some("0")), 0);
}

#[test]
fn ttl_parses_explicit() {
    assert_eq!(ttl_seconds(Some("12")), 12 * 3600);
}

fn auth_status() -> Command {
    Command::Auth { command: AuthCommand::Status }
}

fn update_command() -> Command {
    Command::Update(UpdateArgs { check: true, to: None, force: false, allow_unverified: false })
}

#[test]
fn no_update_check_env_suppresses_hint() {
    assert!(!should_consider(true, &auth_status(), true, true));
    assert!(should_consider(false, &auth_status(), true, true));
    assert!(!should_consider(false, &auth_status(), false, false));
}

#[test]
fn update_subcommand_does_not_emit_hint() {
    assert!(!should_consider(false, &update_command(), true, true));
}

#[test]
fn ttl_zero_suppresses_hint() {
    let next = hint_next(true, false, 0, &None, 100, "0.5.0", &None);
    assert!(matches!(next, HintAction::Quiet));
}

#[test]
fn hints_follow_the_last_check() {
    assert!(matches!(hint_next(false, false, 60, &None, 100, "0.5.0", &None), HintAction::Quiet));
    assert!(matches!(hint_next(true, true, 60, &None, 100, "0.5.0", &None), HintAction::Quiet));
    assert!(matches!(hint_next(true, false, 60, &None, 100, "0.5.0", &None), HintAction::Fetch));
    let check = Some(UpdateCheck {
        last_check_unix: 90,
        latest_version: s("0.6.0"),
        running_version_at_check: s("0.5.0"),
    });
    match hint_next(true, false, 60, &check, 100, "0.5.0", &None) {
        HintAction::Compare { latest, remember } => {
            assert_eq!(latest, "0.6.0");
            assert_eq!(remember, None);
        }
        other => panic!("{:?}", other),
    }
    match hint_next(true, false, 60, &None, 100, "0.5.0", &Some(Some(s("0.7.0")))) {
        HintAction::Compare { latest, remember } => {
            assert_eq!(latest, "0.7.0");
            assert_eq!(remember.unwrap().last_check_unix, 100);
        }
        other => panic!("{:?}", other),
    }
    assert!(matches!(
        hint_next(true, false, 60, &None, 100, "0.5.0", &Some(None)),
        HintAction::Quiet
    ));
    assert_eq!(version_of_tag("v1.2.3"), "1.2.3");
    assert_eq!(latest_version(200, r#"{"tag_name":"v1.2.3"}"#).as_deref(), Some("1.2.3"));
    assert_eq!(latest_version(404, r#"{"tag_name":"v1.2.3"}"#), None);
    assert_eq!(latest_version(200, r#"{"name":"x"}"#), None);
    assert_eq!(latest_version(200, "{not json"), None);
    assert!(hint_line("0.7.0", true).unwrap().contains("fabcli: a newer version"));
    assert_eq!(hint_line("0.7.0", false), None);
    assert_eq!(
        newer_hint("0.10.0", "0.9.1").as_deref(),
        Some("fabcli: a newer version (0.10.0) is available. Run 'fabcli update' to upgrade.")
    );
    assert_eq!(newer_hint("0.9.1", "0.9.1"), None);
    assert_eq!(newer_hint("garbage", "0.9.1"), None);
    assert_eq!(
        latest_url("zirklerite/FabCLI"),
        "https://api.github.com/repos/zirklerite/FabCLI/releases/latest"
    );
}

// ── the library's cache ──

fn args(cache: bool, no_cache: bool, refresh: bool) -> LibraryArgs {
    LibraryArgs { count: None, cache, no_cache, refresh, clear: false }
}

#[test]
fn cache_mode_no_cache_wins() {
    for enabled in [false, true] {
        assert_eq!(CacheMode::from_args(&args(true, true, true), enabled), CacheMode::Bypass);
        assert_eq!(CacheMode::from_args(&args(false, true, true), enabled), CacheMode::Bypass);
        assert_eq!(CacheMode::from_args(&args(false, true, false), enabled), CacheMode::Bypass);
    }
}

#[test]
fn cache_mode_refresh_beats_cache_and_env() {
    for enabled in [false, true] {
        assert_eq!(CacheMode::from_args(&args(true, false, true), enabled), CacheMode::Refresh);
        assert_eq!(CacheMode::from_args(&args(false, false, true), enabled), CacheMode::Refresh);
    }
}

#[test]
fn cache_mode_cache_flag_enables_without_env() {
    let enabled = is_enabled_from_env(None);
    assert_eq!(CacheMode::from_args(&args(true, false, false), enabled), CacheMode::ReadOrFetch);
}

#[test]
fn cache_mode_env_controls_default() {
    let mode = |env| CacheMode::from_args(&args(false, false, false), is_enabled_from_env(env));
    assert_eq!(mode(Some("1")), CacheMode::ReadOrFetch);
    assert_eq!(mode(Some("0")), CacheMode::Bypass);
    assert_eq!(mode(None), CacheMode::Bypass);
    assert_eq!(CacheMode::env_default(true), CacheMode::ReadOrFetch);
}

#[test]
fn is_enabled_from_env_accepts_truthy() {
    for good in ["1", "true", "True", "TRUE", "yes", "YES", " 1 "] {
        assert!(is_enabled_from_env(Some(good)), "should accept {:?}", good);
    }
    for bad in ["0", "false", "no", "", "nope"] {
        assert!(!is_enabled_from_env(Some(bad)), "should reject {:?}", bad);
    }
    assert!(!is_enabled_from_env(None));
}

#[test]
fn ttl_from_env_defaults_to_24h() {
    assert_eq!(ttl_from_env(None), 86400);
    assert_eq!(ttl_from_env(Some("60")), 60);
    assert_eq!(ttl_from_env(Some("0")), 0);
    assert_eq!(ttl_from_env(Some("garbage")), 86400);
}

fn at(secs: i64) -> Timestamp {
    Timestamp { secs, nanos: 0 }
}

#[test]
fn is_stale_behaviour() {
    let now = at(10_000);
    let fresh_mtime = at(10_000 - 100);
    let stale_mtime = at(10_000 - 7200);
    let future_mtime = at(10_000 + 100);
    assert!(!is_stale(fresh_mtime, now, 3600));
    assert!(is_stale(stale_mtime, now, 3600));
    assert!(!is_stale(future_mtime, now, 3600));
    assert!(is_stale(fresh_mtime, now, 0));
    assert!(!is_stale(at(6400), now, 3600));
    assert!(is_stale(at(6400), Timestamp { secs: 10_000, nanos: 1 }, 3600));
}

#[test]
fn read_missing_file_returns_none() {
    assert_eq!(read_if_fresh(None, at(0), 60, None, "acct-a"), CacheVerdict::Miss);
}

#[test]
fn mismatched_account_deletes_file() {
    let verdict = read_if_fresh(Some(at(0)), at(1), 60, Some("acct-a"), "acct-b");
    assert_eq!(verdict, CacheVerdict::Discard);
    let verdict = read_if_fresh(Some(at(0)), at(1), 60, Some("acct-a"), "acct-a");
    assert_eq!(verdict, CacheVerdict::Serve);
}

#[test]
fn corrupt_file_returns_none() {
    assert_eq!(read_if_fresh(Some(at(0)), at(1), 60, None, "acct-a"), CacheVerdict::Miss);
}

#[test]
fn ttl_zero_disables_reads() {
    let ttl = ttl_from_env(Some("0"));
    let verdict = read_if_fresh(Some(at(0)), at(0), ttl, Some("acct-a"), "acct-a");
    assert_eq!(verdict, CacheVerdict::Miss);
}

#[test]
fn clear_reports_deleted_true_when_present() {
    let text = print_json(&clear_report(true, "/s/library-cache.json"), false);
    assert!(text.contains("true") && text.contains("/s/library-cache.json"), "{}", text);
}

#[test]
fn clear_reports_deleted_false_when_missing() {
    let text = print_json(&clear_report(false, "/p"), false);
    assert!(text.contains("\"deleted\":false"), "{}", text);
}

#[test]
fn cached_fetch_goes_through_its_steps() {
    assert!(matches!(
        fetch_library_cached(true, CacheMode::ReadOrFetch, None, false),
        FetchAction::ReadCache
    ));
    assert!(matches!(
        fetch_library_cached(true, CacheMode::ReadOrFetch, Some(CacheVerdict::Serve), false),
        FetchAction::ServeCached
    ));
    assert!(matches!(
        fetch_library_cached(true, CacheMode::ReadOrFetch, Some(CacheVerdict::Miss), false),
        FetchAction::Fetch
    ));
    assert!(matches!(
        fetch_library_cached(true, CacheMode::ReadOrFetch, Some(CacheVerdict::Discard), true),
        FetchAction::ServeFetched { write: true }
    ));
    assert!(matches!(
        fetch_library_cached(true, CacheMode::Refresh, None, true),
        FetchAction::ServeFetched { write: true }
    ));
    assert!(matches!(
        fetch_library_cached(true, CacheMode::Bypass, None, true),
        FetchAction::ServeFetched { write: false }
    ));
    assert!(matches!(fetch_library_cached(true, CacheMode::Bypass, None, false), FetchAction::Fetch));
    match fetch_library_cached(false, CacheMode::Refresh, None, false) {
        FetchAction::Fail(e) => assert_eq!(e.to_output().0, 2),
        other => panic!("{:?}", other),
    }
    assert_eq!(cache_path("/s"), joined(&["/s", "library-cache.json"]));
    assert_ne!(resolving_note(true), resolving_note(false));
}

// ── the hint about the cache ──

fn emits(cache: Option<&str>, no_tips: Option<&str>, hours: Option<&str>, last: LastHint) -> bool {
    hint_should_emit(
        hint_suppressed_by_env(no_tips),
        is_enabled_from_env(cache),
        last,
        at(1_000_000),
        hint_ttl_from_env(hours),
    )
}

#[test]
fn hint_should_emit_when_sentinel_missing_and_env_unset() {
    assert!(emits(None, None, None, LastHint::Never));
}

#[test]
fn hint_suppressed_when_no_tips_set() {
    assert!(!emits(None, Some("1"), None, LastHint::Never));
}

#[test]
fn hint_suppressed_when_cache_already_enabled() {
    assert!(!emits(Some("1"), None, None, LastHint::Never));
}

#[test]
fn hint_suppressed_when_sentinel_recent() {
    assert!(!emits(None, None, None, LastHint::At(at(1_000_000))));
    assert!(emits(None, None, None, LastHint::At(at(1_000_000 - 24 * 3600 - 1))));
}

#[test]
fn hint_re_emits_when_ttl_zero() {
    assert!(emits(None, None, Some("0"), LastHint::At(at(1_000_000))));
}

#[test]
fn hint_ttl_from_env_parses_hours() {
    assert_eq!(hint_ttl_from_env(Some("12")), 12 * 3600);
    assert_eq!(hint_ttl_from_env(Some("garbage")), 24 * 3600);
    assert_eq!(hint_ttl_from_env(None), 24 * 3600);
    assert_eq!(hint_ttl_from_env(Some("18446744073709551615")), u64::MAX);
    assert!(hint_text("42").contains("42"));
}

// ── the web session ──

const NOW: i64 = 1_790_000_000;
const HOUR: i128 = 3_600_000_000_000;

fn ends_at(secs: i64) -> FabSession {
    FabSession { logged_in_at: at(NOW), expires_at: at(secs) }
}

#[test]
fn expired_when_past() {
    assert!(ends_at(NOW - 1).is_expired(at(NOW)));
}

#[test]
fn not_expired_when_future() {
    assert!(!ends_at(NOW + 3600).is_expired(at(NOW)));
}

#[test]
fn expires_within_threshold() {
    let fs = ends_at(NOW + 6 * 3600);
    assert!(fs.expires_within(at(NOW), 12 * HOUR));
    assert!(!fs.expires_within(at(NOW), HOUR));
}

#[test]
fn expired_exactly_at_boundary() {
    let fs = FabSession { logged_in_at: at(NOW - 3600), expires_at: at(NOW) };
    assert!(fs.is_expired(at(NOW)));
}

#[test]
fn not_expired_one_second_before_boundary() {
    assert!(!ends_at(NOW + 1).is_expired(at(NOW)));
}

#[test]
fn expires_within_exactly_at_boundary() {
    assert!(ends_at(NOW + 6 * 3600).expires_within(at(NOW), 6 * HOUR));
}

#[test]
fn needs_refresh_when_expired() {
    assert!(ends_at(NOW - 1).needs_refresh(at(NOW), days_span(7)));
}

#[test]
fn needs_refresh_when_within_threshold() {
    assert!(ends_at(NOW + 3 * 86_400).needs_refresh(at(NOW), days_span(7)));
}

#[test]
fn needs_refresh_false_when_healthy() {
    assert!(!ends_at(NOW + 30 * 86_400).needs_refresh(at(NOW), days_span(7)));
}

#[test]
fn needs_refresh_exactly_at_threshold() {
    assert!(ends_at(NOW + 7 * 86_400).needs_refresh(at(NOW), days_span(7)));
}

#[test]
fn needs_refresh_one_second_past_threshold() {
    assert!(!ends_at(NOW + 7 * 86_400 + 1).needs_refresh(at(NOW), days_span(7)));
}

#[test]
fn needs_refresh_zero_threshold_behaves_like_is_expired() {
    assert!(!ends_at(NOW + 3600).needs_refresh(at(NOW), 0));
    assert!(ends_at(NOW - 1).needs_refresh(at(NOW), 0));
}

#[test]
fn threshold_default_is_seven_days() {
    assert_eq!(threshold_from_env(None), 7);
}

#[test]
fn threshold_parses_explicit_values() {
    assert_eq!(threshold_from_env(Some("30")), 30);
    assert_eq!(threshold_from_env(Some("0")), 0);
    assert_eq!(threshold_from_env(Some("")), 7);
    assert_eq!(threshold_from_env(Some("garbage")), 7);
    assert_eq!(threshold_from_env(Some(" 106751991167 ")), 106_751_991_167);
    assert_eq!(threshold_from_env(Some("106751991168")), 7);
    assert_eq!(threshold_from_env(Some("18446744073709551615")), 7);
    assert_eq!(threshold_from_env(Some("-1")), 7);
}

#[test]
fn days_remaining_clamps_to_zero_on_expiry() {
    assert_eq!(days_remaining(&ends_at(NOW - 3600), at(NOW)), 0);
}

#[test]
fn days_remaining_floors_to_whole_days() {
    assert_eq!(days_remaining(&ends_at(NOW + 3 * 86_400 + 12 * 3600), at(NOW)), 3);
}

#[test]
fn days_remaining_for_far_future() {
    assert_eq!(days_remaining(&ends_at(NOW + 90 * 86_400), at(NOW)), 90);
    let later = Timestamp { secs: NOW, nanos: 1 };
    assert_eq!(days_remaining(&ends_at(NOW + 90 * 86_400), later), 89);
}

#[test]
fn fab_status_when_no_session() {
    let v = fab_status_json(None, at(NOW), 7);
    assert_eq!(v.get_bool("session_present"), Some(false));
    assert_eq!(v.get_bool("needs_refresh"), Some(true));
    assert!(v.get("expires_at").is_none());
    assert!(v.get("days_remaining").is_none());
}

#[test]
fn fab_status_healthy_session() {
    let later = Timestamp { secs: NOW, nanos: 1 };
    let v = fab_status_json(Some(ends_at(NOW + 60 * 86_400)), later, threshold_from_env(None));
    assert_eq!(v.get_bool("session_present"), Some(true));
    assert_eq!(v.get_bool("needs_refresh"), Some(false));
    assert_eq!(v.get("days_remaining").unwrap().as_u64().unwrap(), 59);
    assert!(v.get_str("expires_at").unwrap().starts_with("20"));
    assert_eq!(v.get_str("expires_at"), Some("2026-11-20T14:13:20+00:00"));
}

#[test]
fn fab_status_near_expiry_marks_needs_refresh() {
    let later = Timestamp { secs: NOW, nanos: 1 };
    let v = fab_status_json(Some(ends_at(NOW + 3 * 86_400)), later, threshold_from_env(None));
    assert_eq!(v.get_bool("needs_refresh"), Some(true));
    assert_eq!(v.get("days_remaining").unwrap().as_u64().unwrap(), 2);
}

#[test]
fn fab_status_expired_clamps_days_to_zero() {
    let v = fab_status_json(Some(ends_at(NOW - 3600)), at(NOW), threshold_from_env(None));
    assert_eq!(v.get_bool("needs_refresh"), Some(true));
    assert_eq!(v.get("days_remaining").unwrap().as_u64().unwrap(), 0);
}

#[test]
fn the_warning_is_given_once() {
    let fs = Some(ends_at(NOW + 3 * 86_400));
    let mut warned = false;
    assert_eq!(
        maybe_warn(&mut warned, fs, at(NOW), 7).as_deref(),
        Some("WARNING: Fab session expires in 3 days; run 'fabcli auth login' to refresh.")
    );
    assert!(warned);
    assert_eq!(maybe_warn(&mut warned, fs, at(NOW), 7), None);
    let mut fresh = false;
    assert_eq!(maybe_warn(&mut fresh, fs, at(NOW), 0), None);
    assert_eq!(maybe_warn(&mut fresh, None, at(NOW), 7), None);
    assert_eq!(maybe_warn(&mut fresh, Some(ends_at(NOW - 1)), at(NOW), 7), None);
    assert!(!fresh);
}

#[test]
fn longer_thresholds_refresh_sooner() {
    let fs = ends_at(NOW + 5 * 86_400);
    assert!(!fs.needs_refresh(at(NOW), days_span(4)));
    for days in 5..20 {
        assert!(fs.needs_refresh(at(NOW), days_span(days)));
    }
    assert!(ends_at(NOW - 1).needs_refresh(at(NOW), i128::MAX));
    let mut warned = false;
    assert_eq!(maybe_warn(&mut warned, Some(ends_at(NOW - 1)), at(NOW), i64::MAX), None);
}

#[test]
fn another_tag_header_or_nonce_is_refused() {
    let key = fixed_key();
    let blob = encrypt_with_key(&b"sensitive".to_vec(), &key).unwrap();
    for at in blob.len() - 16..blob.len() {
        let mut other = blob.clone();
        other[at] ^= 1;
        assert!(decrypt(&other, &key).is_err(), "{}", at);
    }
    for at in 0..21 {
        let mut other = blob.clone();
        other[at] ^= 1;
        assert!(decrypt(&other, &key).is_err(), "{}", at);
    }
}

#[test]
fn sessions_last_ninety_days() {
    let fs = new_session(at(NOW));
    assert_eq!(days_remaining(&fs, at(NOW)), 90);
    assert!(ensure_fab_session_ready(Some(fs), at(NOW)).is_ok());
    assert_eq!(ensure_fab_session_ready(None, at(NOW)).unwrap_err().to_output().0, 2);
    assert_eq!(
        message(ensure_fab_session_ready(Some(fs), fs.expires_at).unwrap_err()),
        "Fab session expired. Run 'fabcli auth login' to refresh."
    );
    assert_eq!(to_nanos(Timestamp { secs: -1, nanos: 5 }), -999_999_995);
    assert!(check_days(at(NOW), 7) && !check_days(at(NOW), i64::MAX));
}

// ── the stored session ──

const MAGIC: &[u8] = b"FABCLI\xb1\xc1";

fn fixed_key() -> [u8; AES_KEY_LEN] {
    let mut k = [0u8; AES_KEY_LEN];
    for (i, b) in k.iter_mut().enumerate() {
        *b = i as u8;
    }
    k
}

#[test]
fn round_trip_with_known_key() {
    let key = fixed_key();
    let plaintext = b"hello FabCLI token \xff\x00\x42".to_vec();
    let blob = encrypt_with_key(&plaintext, &key).unwrap();
    assert_eq!(&blob[..MAGIC.len()], MAGIC);
    assert_eq!(blob[MAGIC.len()], FORMAT_VERSION);
    assert!(blob.len() > HEADER_LEN);
    let recovered = decrypt_with_key(&blob, &key).unwrap();
    assert_eq!(recovered, plaintext);
    assert_eq!(decrypt(&blob, &key).unwrap(), plaintext);
}

#[test]
fn ciphertext_tamper_fails_authentication() {
    let key = fixed_key();
    let mut blob = encrypt_with_key(&b"sensitive".to_vec(), &key).unwrap();
    let last = blob.len() - 1;
    blob[last] ^= 0x01;
    let err = decrypt_with_key(&blob, &key).unwrap_err();
    assert!(matches!(err, FabCliError::Generic(_)), "tampered blob must error, got {:?}", err);
}

#[test]
fn header_tamper_version_mismatch_is_clear_error() {
    let key = fixed_key();
    let mut blob = encrypt_with_key(&b"x".to_vec(), &key).unwrap();
    blob[MAGIC.len()] = 0xFE;
    assert_eq!(&blob[..MAGIC.len()], MAGIC);
    assert_ne!(blob[MAGIC.len()], FORMAT_VERSION);
    assert!(message(decrypt(&blob, &key).unwrap_err()).contains("254"));
}

#[test]
fn missing_magic_is_unrecognized_format_error() {
    let blob = b"{\"plaintext_json_definitely_not_our_magic\":true}".to_vec();
    assert!(blob.len() > HEADER_LEN);
    let err = decrypt(&blob, &fixed_key()).unwrap_err();
    let FabCliError::Generic(msg) = err else {
        panic!("expected Generic error");
    };
    assert!(
        msg.contains("magic header") || msg.contains("not recognized"),
        "error should name the format mismatch: {}",
        msg
    );
}

#[test]
fn too_short_blob_is_clear_error() {
    let err = decrypt(&b"FABCLI".to_vec(), &fixed_key()).unwrap_err();
    let FabCliError::Generic(msg) = err else {
        panic!("expected Generic error");
    };
    assert!(msg.contains("too short"), "got: {}", msg);
    assert!(check_header(&b"FABCLI".to_vec()).is_err());
}

#[test]
fn key_b64_round_trip() {
    let recovered = key_from_b64("AAECAwQFBgcICQoLDA0ODxAREhMUFRYXGBkaGxwdHh8=").unwrap();
    assert_eq!(recovered, fixed_key());
    let (key, text) = new_key();
    assert_eq!(key_from_b64(&text).unwrap(), key);
}

#[test]
fn key_wrong_length_is_error() {
    assert!(key_from_b64("AQID").is_err());
    assert!(message(key_from_b64("***").unwrap_err()).starts_with("keystore key decode failed"));
}

#[test]
fn keys_come_from_the_keystore() {
    assert!(matches!(key_next(false, None, &None), KeyAction::Ask));
    assert!(matches!(key_next(true, Some(fixed_key()), &None), KeyAction::Use(k) if k == fixed_key()));
    let found = Some(KeystoreAnswer::Found(s("AAECAwQFBgcICQoLDA0ODxAREhMUFRYXGBkaGxwdHh8=")));
    assert!(matches!(key_next(false, None, &found), KeyAction::Use(k) if k == fixed_key()));
    let none = Some(KeystoreAnswer::NoEntry);
    assert!(matches!(key_next(true, None, &none), KeyAction::Create));
    assert!(matches!(key_next(false, None, &none), KeyAction::Fail(_)));
    let failed = Some(KeystoreAnswer::Failed(s("locked")));
    match key_next(true, None, &failed) {
        KeyAction::Fail(e) => assert!(message(e).contains("locked")),
        _ => panic!("expected a failure"),
    }
    let gone = Some(KeystoreAnswer::Unavailable(s("no daemon")));
    assert!(matches!(key_next(true, None, &gone), KeyAction::Fail(_)));
    assert!(message(key_store_error("m")).contains("m"));
    assert!(message(key_delete_error("m")).contains("m"));
}

// ── where things are kept ──

#[test]
fn token_path_respects_env_override() {
    assert_eq!(token_path(Some("/d/custom-token.json"), None).unwrap(), "/d/custom-token.json");
    assert!(token_path(None, None).is_err());
    let own = token_path(None, Some("/cfg")).unwrap();
    assert!(own.starts_with("/cfg"), "{}", own);
}

#[test]
fn directories_lie_beside_the_token() {
    let token = "/cfg/fabcli/token.json";
    assert_eq!(config_dir(token).unwrap(), "/cfg/fabcli");
    for dir in [webview_data_dir(token), daemon_state_dir(token), state_dir(token)] {
        assert!(dir.unwrap().starts_with("/cfg/fabcli"));
    }
    assert!(update_check_path("/cfg/fabcli/state").starts_with("/cfg/fabcli/state"));
    assert!(config_dir("/").is_err());
    for token in ["C:\\Users\\u\\fabcli\\token.json", "token.json", "a\\b/token.json"] {
        let dir = config_dir(token).unwrap();
        assert!(token.starts_with(&dir) && dir.len() < token.len(), "{}", dir);
        assert_eq!(daemon_state_dir(token).unwrap(), dir);
        assert!(webview_data_dir(token).unwrap().starts_with(&dir));
        assert!(state_dir(token).unwrap().ends_with("state"));
    }
}

#[test]
fn pretty_flag_produces_multiline_output() {
    let report = fabcli::auth::logout_report(false);
    assert!(print_json(&report, true).contains("\n  \"ok\": true"));
    assert!(!print_json(&report, false).contains('\n'));
    assert_eq!(print_json(&Json::Null, false), "null");
}
