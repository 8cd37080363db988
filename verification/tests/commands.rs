use fabcli::args::{read_id_or_stdin, Command, ResolverArgs, Scope, UpdateArgs};
use fabcli::auth::{load_session, Refresh};
use fabcli::config::token_path;
use fabcli::json::print_json;
use fabcli::library_cache::clear_report;
use fabcli::report::{error_line, usage_exit_code};
use fabcli::search::parse_kv;
use fabcli::skill::{resolve_skill_dir, resolve_skill_file};
use fabcli::token_storage::check_header;
use fabcli::update::{remote_name, split_remote};
use fabcli::update_check::{hint_next, should_consider, HintAction};

fn s(input: &str) -> String {
    input.to_string()
}

#[test]
fn auth_whoami_without_session_is_auth_required() {
    let e = load_session(false, Refresh::NotNeeded).unwrap_err();
    assert_eq!(e.to_output().0, 2);
    assert!(error_line(&e).contains("\"kind\":\"auth_required\""));
}

#[test]
fn listing_without_uid_and_no_stdin_fails() {
    assert!(read_id_or_stdin(None, false, "").is_err());
}

#[test]
fn formats_without_uid_and_no_stdin_fails() {
    assert!(read_id_or_stdin(None, false, "").is_err());
}

#[test]
fn claim_stdin_with_empty_input_fails() {
    assert!(read_id_or_stdin(None, true, "").is_err());
}

#[test]
fn search_filter_malformed_input_exits_invalid_args() {
    assert!(parse_kv("foo").unwrap_err().contains("missing `=`"));
    assert_eq!(usage_exit_code(false), 6);
}

#[test]
fn search_filter_accepted_and_repeatable() {
    let filters = [
        ("is_free=1", "is_free", "1"),
        ("channels=unreal-engine", "channels", "unreal-engine"),
        ("min_discount_percentage=100", "min_discount_percentage", "100"),
        ("published_since=2026-04-01", "published_since", "2026-04-01"),
        ("styles=anime", "styles", "anime"),
        ("styles=lowpoly", "styles", "lowpoly"),
    ];
    for (raw, key, value) in filters {
        assert_eq!(parse_kv(raw), Ok((s(key), s(value))));
    }
}

#[test]
fn library_clear_succeeds_without_session() {
    let text = print_json(&clear_report(false, "/x/library-cache.json"), false);
    assert!(text.contains("\"deleted\""), "{}", text);
}

#[test]
fn skill_path_prints_resolved_target() {
    let resolver = ResolverArgs { scope: Scope::User, path: None };
    let dir = resolve_skill_dir(&resolver, Some("/skills"), Ok("/cwd"), Some("/home/u"), ".assistant");
    let target = resolve_skill_file(&dir.unwrap());
    let expected = std::path::Path::new("/skills").join("fabcli").join("SKILL.md");
    assert_eq!(target, expected.to_string_lossy());
}

#[test]
fn skill_path_honors_project_scope() {
    let resolver = ResolverArgs { scope: Scope::Project, path: None };
    let dir = resolve_skill_dir(&resolver, None, Ok("/cwd"), Some("/home/u"), ".assistant");
    let target = resolve_skill_file(&dir.unwrap());
    assert!(target.starts_with("/cwd"), "{}", target);
    assert!(target.contains(".assistant"), "{}", target);
    assert!(target.contains("fabcli"), "{}", target);
    assert!(target.contains("SKILL.md"), "{}", target);
}

#[test]
fn update_check_skips_passive_hint() {
    let args = UpdateArgs { check: true, to: None, force: false, allow_unverified: false };
    let considered = should_consider(true, &Command::Update(args), true, true);
    assert!(!considered);
    let next = hint_next(considered, false, 86_400, &None, 0, "0.6.0", &None);
    assert!(matches!(next, HintAction::Quiet));
    assert!(split_remote(&remote_name(Some("no-slash-here"))).is_err());
}

#[test]
fn token_path_env_override_is_honored() {
    let path = token_path(Some("/custom/path/token.json"), Some("/home/u/.config/fabcli"));
    assert_eq!(path.unwrap(), "/custom/path/token.json");
}

#[test]
fn read_garbage_file_is_error() {
    assert!(check_header(&b"not encrypted, definitely not magic-prefixed".to_vec()).is_err());
}
