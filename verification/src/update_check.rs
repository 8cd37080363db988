//! The hint that a newer version is there.
use crate::args::Command;
use crate::chunks::is_success;
use crate::json;
use crate::json::{get_str_spec, parse_view, parsed_json, Json, JsonView};
use crate::library_cache::{env_number, hours_in_secs, number_from_env, secs_of_hours};
use crate::state::{check_view, UpdateCheck};
use crate::text;
use crate::text::{opt_str, opt_text, trim_start_char_spec};
use crate::update::{is_newer, numbers_after, plain_version, semver_after};
use vstd::prelude::*;

verus! {

/// How many hours apart checks are, where nothing else is said.
pub const DEFAULT_TTL_HOURS: u64 = 24;

/// A command of which no hint is given: it reports on updates itself, or runs
/// in the background.
pub open spec fn is_quiet_command(command: Command) -> bool {
    command is Update || command is Daemon
}

/// Whether a call may give the hint: checks are not turned off, the command is
/// not quiet, and somebody can see it.
pub fn should_consider(
    turned_off: bool,
    command: &Command,
    stdout_is_terminal: bool,
    stderr_is_terminal: bool,
) -> (r: bool)
    ensures
        r == consider_spec(turned_off, *command, stdout_is_terminal, stderr_is_terminal),
{
    if turned_off {
        return false;
    }
    match command {
        Command::Update(_) => {
            return false;
        },
        Command::Daemon(_) => {
            return false;
        },
        _ => {},
    }
    stdout_is_terminal || stderr_is_terminal
}

/// How many seconds apart checks are; zero turns them off.
pub fn ttl_seconds(env: Option<&str>) -> (r: u64)
    ensures
        r == hours_in_secs(env_number(opt_str(env), DEFAULT_TTL_HOURS)),
        env is None ==> r == 24 * 3600,
{
    secs_of_hours(number_from_env(env, DEFAULT_TTL_HOURS))
}

/// Whether version `latest` comes after version `running`.
pub fn version_gt(latest: &str, running: &str) -> (r: bool)
    ensures
        r == (semver_after(latest@, running@) == Some(true)),
        plain_version(latest@) is Some && plain_version(running@) is Some ==> r == numbers_after(
            plain_version(latest@)->0,
            plain_version(running@)->0,
        ),
        latest@ == running@ ==> !r,
{
    is_newer(latest, running)
}

/// The version that a release's tag names.
pub fn version_of_tag(tag: &str) -> (r: String)
    ensures
        r@ == trim_start_char_spec(tag@, 'v'),
{
    text::trim_start_char(tag, 'v')
}

/// The version that the description of a release, read as JSON, names by its
/// tag; nothing where there is none.
pub open spec fn release_version_spec(release: Result<JsonView, Seq<char>>) -> Option<Seq<char>> {
    match release {
        Ok(j) => match get_str_spec(j, "tag_name"@) {
            Some(tag) => Some(trim_start_char_spec(tag, 'v')),
            None => None,
        },
        Err(_) => None,
    }
}

/// The version that the description of a release, read as JSON, names.
pub fn release_version(release: &Result<Json, String>) -> (r: Option<String>)
    ensures
        opt_text(r) == release_version_spec(parse_view(*release)),
{
    match release {
        Ok(j) => match j.get_str("tag_name") {
            Some(tag) => Some(version_of_tag(tag)),
            None => None,
        },
        Err(_) => None,
    }
}

/// The version that the answer to a question for the latest release names;
/// nothing where the status is no success, or the body names none.
pub fn latest_version(status: u16, body: &str) -> (r: Option<String>)
    ensures
        opt_text(r) == latest_version_spec(status, parsed_json(body@)),
{
    if !(200 <= status && status <= 299) {
        return None;
    }
    let release = json::parse(body);
    release_version(&release)
}

/// What is remembered still counts at `now`.
pub open spec fn counts_at(check: UpdateCheck, ttl: u64, now: u64) -> bool {
    let until = if check.last_check_unix + ttl > u64::MAX {
        u64::MAX as int
    } else {
        check.last_check_unix + ttl
    };
    until > now
}

/// What giving the hint does next.
#[derive(Debug)]
pub enum HintAction {
    /// Nothing more.
    Quiet,
    /// Ask which version is the latest.
    Fetch,
    /// Compare the version with the running one; `remember` is what is written
    /// down first.
    Compare { latest: String, remember: Option<UpdateCheck> },
}

/// The mathematical value of a [`HintAction`].
#[verifier::ext_equal]
pub enum HintView {
    Quiet,
    Fetch,
    Compare { latest: Seq<char>, remember: Option<(u64, Seq<char>, Seq<char>)> },
}

impl View for HintAction {
    type V = HintView;

    open spec fn view(&self) -> HintView {
        match self {
            HintAction::Quiet => HintView::Quiet,
            HintAction::Fetch => HintView::Fetch,
            HintAction::Compare { latest, remember } => HintView::Compare {
                latest: latest@,
                remember: check_view(*remember),
            },
        }
    }
}

/// What giving the hint does next: `cached` is what is remembered, `fetched`
/// what asking came to.
pub open spec fn hint_next_spec(
    considered: bool,
    emitted: bool,
    ttl: u64,
    cached: Option<UpdateCheck>,
    now: u64,
    running: Seq<char>,
    fetched: Option<Option<String>>,
) -> HintView {
    if !considered || emitted || ttl == 0 {
        HintView::Quiet
    } else if cached is Some && counts_at(cached->0, ttl, now) {
        HintView::Compare { latest: cached->0.latest_version@, remember: None }
    } else {
        match fetched {
            None => HintView::Fetch,
            Some(None) => HintView::Quiet,
            Some(Some(v)) => HintView::Compare {
                latest: v@,
                remember: Some((now, v@, running)),
            },
        }
    }
}

/// What giving the hint does next. At most once in a process, and no more often
/// than the time to live says, the latest version is asked for; in between the
/// remembered one counts.
pub fn hint_next(
    considered: bool,
    emitted: bool,
    ttl: u64,
    cached: &Option<UpdateCheck>,
    now: u64,
    running: &str,
    fetched: &Option<Option<String>>,
) -> (r: HintAction)
    ensures
        r@ == hint_next_spec(considered, emitted, ttl, *cached, now, running@, *fetched),
{
    if !considered || emitted || ttl == 0 {
        return HintAction::Quiet;
    }
    if let Some(check) = cached {
        let until = match check.last_check_unix.checked_add(ttl) {
            Some(t) => t,
            None => u64::MAX,
        };
        if until > now {
            return HintAction::Compare { latest: check.latest_version.clone(), remember: None };
        }
    }
    match fetched {
        None => HintAction::Fetch,
        Some(None) => HintAction::Quiet,
        Some(Some(v)) => HintAction::Compare {
            latest: v.clone(),
            remember: Some(
                UpdateCheck {
                    last_check_unix: now,
                    latest_version: v.clone(),
                    running_version_at_check: running.to_owned(),
                },
            ),
        },
    }
}

/// With a time to live of zero nothing is asked and nothing is said.
pub proof fn zero_ttl_turns_checks_off(
    considered: bool,
    emitted: bool,
    cached: Option<UpdateCheck>,
    now: u64,
    running: Seq<char>,
    fetched: Option<Option<String>>,
)
    ensures
        hint_next_spec(considered, emitted, 0, cached, now, running, fetched) == HintView::Quiet,
{
}

/// What is remembered of a check is not asked again until its time is over.
pub proof fn fresh_checks_are_not_repeated(
    ttl: u64,
    cached: UpdateCheck,
    now: u64,
    running: Seq<char>,
    fetched: Option<Option<String>>,
)
    requires
        ttl > 0,
        counts_at(cached, ttl, now),
    ensures
        hint_next_spec(true, false, ttl, Some(cached), now, running, fetched)
            == (HintView::Compare { latest: cached.latest_version@, remember: None }),
{
}

/// The URL that describes the latest release of the repository `remote`.
pub fn latest_url(remote: &str) -> (r: String)
    ensures
        r@ == "https://api.github.com/repos/"@ + remote@ + "/releases/latest"@,
{
    let mut url = "https://api.github.com/repos/".to_owned();
    url.append(remote);
    url.append("/releases/latest");
    url
}

/// The hint for the version `latest`, where it is `newer`.
pub open spec fn hint_spec(latest: Seq<char>, newer: bool) -> Option<Seq<char>> {
    if newer {
        Some(
            "fabcli: a newer version ("@ + latest
                + ") is available. Run 'fabcli update' to upgrade."@,
        )
    } else {
        None
    }
}

/// The hint for the version `latest`, where it is `newer`.
pub fn hint_line(latest: &str, newer: bool) -> (r: Option<String>)
    ensures
        opt_text(r) == hint_spec(latest@, newer),
{
    if !newer {
        return None;
    }
    let mut m = "fabcli: a newer version (".to_owned();
    m.append(latest);
    m.append(") is available. Run 'fabcli update' to upgrade.");
    Some(m)
}

/// The hint for the version `latest`, given where it comes after version
/// `running`. Of the running version itself there is none.
pub fn newer_hint(latest: &str, running: &str) -> (r: Option<String>)
    ensures
        opt_text(r) == hint_spec(latest@, semver_after(latest@, running@) == Some(true)),
        plain_version(latest@) is Some && plain_version(running@) is Some ==> opt_text(r)
            == hint_spec(
            latest@,
            numbers_after(plain_version(latest@)->0, plain_version(running@)->0),
        ),
        latest@ == running@ ==> r is None,
{
    hint_line(latest, version_gt(latest, running))
}

// ---------------------------------------------------------------------------
// When it is looked for a newer version
// ---------------------------------------------------------------------------

/// Whether it is looked for a newer version at all.
pub open spec fn consider_spec(
    turned_off: bool,
    command: Command,
    stdout_is_terminal: bool,
    stderr_is_terminal: bool,
) -> bool {
    !turned_off && !is_quiet_command(command) && (stdout_is_terminal || stderr_is_terminal)
}

/// It is looked for a newer version only where somebody sees the hint, it is not
/// turned off, and the command is neither an update itself nor the daemon.
pub proof fn hints_are_for_people(
    turned_off: bool,
    command: Command,
    stdout_is_terminal: bool,
    stderr_is_terminal: bool,
)
    ensures
        consider_spec(turned_off, command, stdout_is_terminal, stderr_is_terminal)
            <==> !turned_off && !(command is Update) && !(command is Daemon) && (stdout_is_terminal
            || stderr_is_terminal),
{
}

/// The version that a release names.
pub open spec fn latest_version_spec(
    status: u16,
    release: Result<JsonView, Seq<char>>,
) -> Option<Seq<char>> {
    if is_success(status) {
        release_version_spec(release)
    } else {
        None
    }
}

/// A release's version is its tag without the letters v before it, where the
/// service answered with success and the tag is text.
pub proof fn versions_are_tags(
    status: u16,
    j: JsonView,
    n: nat,
    version: Seq<char>,
    message: Seq<char>,
)
    requires
        version.len() > 0 ==> version[0] != 'v',
    ensures
        200 <= status <= 299 && crate::json::get_spec(j, "tag_name"@) == Some(
            JsonView::Str(Seq::new(n, |i: int| 'v') + version),
        ) ==> latest_version_spec(status, Ok(j)) == Some(version),
        !(crate::json::get_spec(j, "tag_name"@) matches Some(JsonView::Str(_)))
            ==> latest_version_spec(status, Ok(j)) is None,
        !(200 <= status <= 299) ==> latest_version_spec(status, Ok(j)) is None,
        latest_version_spec(status, Err(message)) is None,
{
    crate::text::leading_characters_come_off(n, 'v', version);
}

/// A check counts until its time to live is over, which is given in seconds.
pub proof fn checks_count_for_their_time(check: UpdateCheck, ttl: u64, now: u64)
    ensures
        check.last_check_unix + ttl <= u64::MAX ==> (counts_at(check, ttl, now) <==> now
            < check.last_check_unix + ttl),
        check.last_check_unix + ttl > u64::MAX ==> (counts_at(check, ttl, now) <==> now
            < u64::MAX),
{
}

/// The course of a look: nothing where it is off, was done, or is not wanted;
/// what is remembered where that still counts; and else what the service says,
/// which is remembered with the time and the running version.
pub proof fn looks_take_their_course(
    considered: bool,
    emitted: bool,
    ttl: u64,
    cached: Option<UpdateCheck>,
    now: u64,
    running: Seq<char>,
    fetched: Option<Option<String>>,
)
    ensures
        !considered || emitted || ttl == 0 ==> hint_next_spec(
            considered,
            emitted,
            ttl,
            cached,
            now,
            running,
            fetched,
        ) is Quiet,
        considered && !emitted && ttl > 0 ==> {
            &&& cached matches Some(c) ==> (counts_at(c, ttl, now) ==> hint_next_spec(
                considered,
                emitted,
                ttl,
                cached,
                now,
                running,
                fetched,
            ) == (HintView::Compare { latest: c.latest_version@, remember: None }))
            &&& !(cached matches Some(c) && counts_at(c, ttl, now)) ==> {
                &&& fetched is None ==> hint_next_spec(
                    considered,
                    emitted,
                    ttl,
                    cached,
                    now,
                    running,
                    fetched,
                ) is Fetch
                &&& fetched matches Some(answer) ==> (answer is None ==> hint_next_spec(
                    considered,
                    emitted,
                    ttl,
                    cached,
                    now,
                    running,
                    fetched,
                ) is Quiet)
                &&& fetched matches Some(answer) ==> (answer matches Some(v) ==> hint_next_spec(
                    considered,
                    emitted,
                    ttl,
                    cached,
                    now,
                    running,
                    fetched,
                ) == (HintView::Compare { latest: v@, remember: Some((now, v@, running)) }))
            }
        },
{
}

/// A hint is given exactly where the version is newer, and names it.
pub proof fn hints_name_the_newer_version(latest: Seq<char>)
    ensures
        hint_spec(latest, false) is None,
        hint_spec(latest, true) matches Some(line) && crate::text::contains_spec(line, latest),
{
    let a = "fabcli: a newer version ("@;
    let b = ") is available. Run 'fabcli update' to upgrade."@;
    crate::text::parts_are_found(a, latest, b, Seq::empty());
}

} // verus!
