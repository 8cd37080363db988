//! The cached library: when it is read, written and thrown away.
use crate::args::LibraryArgs;
use crate::clock::{nanos_of, to_nanos, Timestamp};
use crate::config::lemma_own_names;
use crate::error::{ErrorView, FabCliError};
use crate::json::{str_view, Json, JsonView};
use crate::paths;
use crate::paths::placed;
use crate::text;
use crate::text::{ascii_lower_spec, opt_str, parse_u64_spec, trim_spec};
use vstd::prelude::*;

verus! {

/// The name of the cache file.
pub const CACHE_FILENAME: &'static str = "library-cache.json";

/// The name of the file that remembers the last hint.
pub const HINT_SENTINEL_FILENAME: &'static str = "cache-hint-last.txt";

/// How long a cached library is read, where nothing else is said: a day.
pub const DEFAULT_TTL_SECS: u64 = 86_400;

/// How many hours apart hints are, where nothing else is said.
pub const HINT_TTL_HOURS_DEFAULT: u64 = 24;

/// The cache file in the state directory `dir`.
pub fn cache_path(dir: &str) -> (r: String)
    ensures
        placed(dir@, CACHE_FILENAME@, r@),
{
    proof {
        lemma_own_names();
    }
    paths::join(dir, CACHE_FILENAME)
}

/// The environment turns the cache on: one, true or yes, in any case.
pub open spec fn enabled_spec(env: Option<Seq<char>>) -> bool {
    match env {
        Some(v) => {
            let word = ascii_lower_spec(trim_spec(v));
            word == "1"@ || word == "true"@ || word == "yes"@
        },
        None => false,
    }
}

/// Whether the environment turns the cache on.
pub fn is_enabled_from_env(env: Option<&str>) -> (r: bool)
    ensures
        r == enabled_spec(opt_str(env)),
{
    match env {
        Some(v) => {
            let trimmed = text::trim(v);
            let word = text::ascii_lower(trimmed.as_str());
            text::same(word.as_str(), "1") || text::same(word.as_str(), "true") || text::same(
                word.as_str(),
                "yes",
            )
        },
        None => false,
    }
}

/// The number that the environment gives, or `otherwise` where it gives none.
pub open spec fn env_number(env: Option<Seq<char>>, otherwise: u64) -> u64 {
    match env {
        Some(s) => match parse_u64_spec(trim_spec(s)) {
            Some(n) => n,
            None => otherwise,
        },
        None => otherwise,
    }
}

/// The number that the environment gives, or `otherwise` where it gives none.
pub(crate) fn number_from_env(env: Option<&str>, otherwise: u64) -> (r: u64)
    ensures
        r == env_number(opt_str(env), otherwise),
{
    match env {
        Some(s) => {
            let trimmed = text::trim(s);
            match text::parse_u64(trimmed.as_str()) {
                Some(n) => n,
                None => otherwise,
            }
        },
        None => otherwise,
    }
}

/// For how many seconds a cached library is read.
pub fn ttl_from_env(env: Option<&str>) -> (r: u64)
    ensures
        r == env_number(opt_str(env), DEFAULT_TTL_SECS),
        env is None ==> r == 24 * 3600,
{
    number_from_env(env, DEFAULT_TTL_SECS)
}

/// `hours` in seconds, as far as they can be counted.
pub open spec fn hours_in_secs(hours: u64) -> u64 {
    if hours * 3600 > u64::MAX {
        u64::MAX
    } else {
        (hours * 3600) as u64
    }
}

pub(crate) fn secs_of_hours(hours: u64) -> (r: u64)
    ensures
        r == hours_in_secs(hours),
{
    match hours.checked_mul(3600) {
        Some(secs) => secs,
        None => u64::MAX,
    }
}

/// How many seconds apart hints are.
pub fn hint_ttl_from_env(env: Option<&str>) -> (r: u64)
    ensures
        r == hours_in_secs(env_number(opt_str(env), HINT_TTL_HOURS_DEFAULT)),
        env is None ==> r == 24 * 3600,
{
    secs_of_hours(number_from_env(env, HINT_TTL_HOURS_DEFAULT))
}

/// What was written at `mtime` is too old at `now`. Without any time to live
/// everything is; what was written in the future is not.
pub open spec fn stale_spec(mtime: Timestamp, now: Timestamp, ttl: u64) -> bool {
    ttl == 0 || nanos_of(now) - nanos_of(mtime) > ttl * 1_000_000_000
}

/// Whether what was written at `mtime` is too old at `now`.
pub fn is_stale(mtime: Timestamp, now: Timestamp, ttl: u64) -> (r: bool)
    ensures
        r == stale_spec(mtime, now, ttl),
{
    ttl == 0 || to_nanos(now) - to_nanos(mtime) > (ttl as i128) * 1_000_000_000
}

/// A time to live of zero turns reading off.
pub proof fn zero_ttl_is_always_stale(mtime: Timestamp, now: Timestamp)
    ensures
        stale_spec(mtime, now, 0),
{
}

/// What becomes of a cached library.
#[derive(Debug, Clone, Copy, PartialEq, Eq, Structural)]
pub enum CacheVerdict {
    /// It is given out.
    Serve,
    /// It is not used.
    Miss,
    /// It belongs to another account: it is not used, and its file is deleted.
    Discard,
}

/// What becomes of a cached library: `owner` is the account it was fetched for,
/// where the file could be read.
pub open spec fn verdict_spec(
    stale: bool,
    owner: Option<Seq<char>>,
    account_id: Seq<char>,
) -> CacheVerdict {
    if stale {
        CacheVerdict::Miss
    } else {
        match owner {
            None => CacheVerdict::Miss,
            Some(o) => if o == account_id {
                CacheVerdict::Serve
            } else {
                CacheVerdict::Discard
            },
        }
    }
}

/// What becomes of the cached library that was written at `mtime` for `owner`:
/// `mtime` is missing where there is none, `owner` where it could not be read.
pub fn read_if_fresh(
    mtime: Option<Timestamp>,
    now: Timestamp,
    ttl: u64,
    owner: Option<&str>,
    account_id: &str,
) -> (r: CacheVerdict)
    ensures
        r == fresh_spec(mtime, now, ttl, opt_str(owner), account_id@),
{
    match mtime {
        None => CacheVerdict::Miss,
        Some(at) => {
            if is_stale(at, now, ttl) {
                return CacheVerdict::Miss;
            }
            match owner {
                None => CacheVerdict::Miss,
                Some(o) => {
                    if text::same(o, account_id) {
                        CacheVerdict::Serve
                    } else {
                        CacheVerdict::Discard
                    }
                },
            }
        },
    }
}

/// A library is given out only to the account it was fetched for, and while it
/// is fresh.
pub proof fn caches_are_served_to_their_owner(
    stale: bool,
    owner: Option<Seq<char>>,
    account_id: Seq<char>,
)
    ensures
        verdict_spec(stale, owner, account_id) == CacheVerdict::Serve <==> !stale && owner == Some(
            account_id,
        ),
        verdict_spec(stale, owner, account_id) == CacheVerdict::Discard <==> !stale && owner is Some
            && owner != Some(account_id),
{
}

/// How a call uses the cache.
#[derive(Debug, Clone, Copy, PartialEq, Eq, Structural)]
pub enum CacheMode {
    /// Read it while fresh, write it otherwise.
    ReadOrFetch,
    /// Fetch, and write it.
    Refresh,
    /// Neither read nor write it.
    Bypass,
}

impl CacheMode {
    /// How a call without flags uses the cache; `enabled` is whether the
    /// environment turns it on.
    pub fn env_default(enabled: bool) -> (r: CacheMode)
        ensures
            r == (if enabled {
                CacheMode::ReadOrFetch
            } else {
                CacheMode::Bypass
            }),
            r == mode_spec(false, false, false, enabled),
    {
        if enabled {
            CacheMode::ReadOrFetch
        } else {
            CacheMode::Bypass
        }
    }

    /// How a call with flags uses the cache. The flag that forbids it counts
    /// most, then the one that refreshes it, then the one that asks for it.
    pub fn from_args(args: &LibraryArgs, enabled: bool) -> (r: CacheMode)
        ensures
            r == mode_spec(args.no_cache, args.refresh, args.cache, enabled),
    {
        if args.no_cache {
            return CacheMode::Bypass;
        }
        if args.refresh {
            return CacheMode::Refresh;
        }
        if args.cache {
            return CacheMode::ReadOrFetch;
        }
        CacheMode::env_default(enabled)
    }
}

/// How a call uses the cache, by its flags and the environment.
pub open spec fn mode_spec(no_cache: bool, refresh: bool, cache: bool, enabled: bool) -> CacheMode {
    if no_cache {
        CacheMode::Bypass
    } else if refresh {
        CacheMode::Refresh
    } else if cache || enabled {
        CacheMode::ReadOrFetch
    } else {
        CacheMode::Bypass
    }
}

/// The flags count in their order, and all of them before the environment.
pub proof fn cache_flags_have_precedence(refresh: bool, cache: bool, enabled: bool)
    ensures
        mode_spec(true, refresh, cache, enabled) == CacheMode::Bypass,
        mode_spec(false, true, cache, enabled) == CacheMode::Refresh,
        mode_spec(false, false, true, enabled) == CacheMode::ReadOrFetch,
{
}

/// What getting the library does next.
#[derive(Debug)]
pub enum FetchAction {
    /// Read the cache.
    ReadCache,
    /// Give out what the cache holds.
    ServeCached,
    /// Fetch the library.
    Fetch,
    /// Give out what was fetched; `write` says whether to cache it.
    ServeFetched { write: bool },
    Fail(FabCliError),
}

/// The mathematical value of a [`FetchAction`].
#[verifier::ext_equal]
pub enum FetchView {
    ReadCache,
    ServeCached,
    Fetch,
    ServeFetched { write: bool },
    Fail(ErrorView),
}

impl View for FetchAction {
    type V = FetchView;

    open spec fn view(&self) -> FetchView {
        match self {
            FetchAction::ReadCache => FetchView::ReadCache,
            FetchAction::ServeCached => FetchView::ServeCached,
            FetchAction::Fetch => FetchView::Fetch,
            FetchAction::ServeFetched { write } => FetchView::ServeFetched { write: *write },
            FetchAction::Fail(e) => FetchView::Fail(e@),
        }
    }
}

/// What getting the library does next: `has_account` is whether the session
/// names its account, `cached` what reading the cache came to, `fetched`
/// whether the library was fetched.
pub open spec fn fetch_spec(
    has_account: bool,
    mode: CacheMode,
    cached: Option<CacheVerdict>,
    fetched: bool,
) -> FetchView {
    if !has_account {
        FetchView::Fail(ErrorView::AuthRequired("no account_id in session"@))
    } else if fetched {
        FetchView::ServeFetched { write: mode != CacheMode::Bypass }
    } else if mode != CacheMode::ReadOrFetch {
        FetchView::Fetch
    } else {
        match cached {
            None => FetchView::ReadCache,
            Some(v) => if v == CacheVerdict::Serve {
                FetchView::ServeCached
            } else {
                FetchView::Fetch
            },
        }
    }
}

/// What getting the library does next.
pub fn fetch_library_cached(
    has_account: bool,
    mode: CacheMode,
    cached: Option<CacheVerdict>,
    fetched: bool,
) -> (r: FetchAction)
    ensures
        r@ == fetch_spec(has_account, mode, cached, fetched),
{
    if !has_account {
        return FetchAction::Fail(
            FabCliError::AuthRequired("no account_id in session".to_owned()),
        );
    }
    if fetched {
        return FetchAction::ServeFetched { write: mode != CacheMode::Bypass };
    }
    if mode != CacheMode::ReadOrFetch {
        return FetchAction::Fetch;
    }
    match cached {
        None => FetchAction::ReadCache,
        Some(CacheVerdict::Serve) => FetchAction::ServeCached,
        Some(_) => FetchAction::Fetch,
    }
}

/// A call that bypasses the cache neither reads nor writes it, and one that
/// refreshes it does not read it.
pub proof fn cache_modes_are_kept(cached: Option<CacheVerdict>, fetched: bool)
    ensures
        fetch_spec(true, CacheMode::Bypass, cached, fetched) != FetchView::ReadCache,
        fetch_spec(true, CacheMode::Bypass, cached, fetched) != FetchView::ServeCached,
        fetch_spec(true, CacheMode::Bypass, cached, fetched) != (FetchView::ServeFetched {
            write: true,
        }),
        fetch_spec(true, CacheMode::Refresh, cached, fetched) != FetchView::ReadCache,
        fetch_spec(true, CacheMode::Refresh, cached, fetched) != FetchView::ServeCached,
{
}

/// The report of clearing the cache.
pub fn clear_report(deleted: bool, path: &str) -> (r: Json)
    ensures
        r@ == clear_spec(deleted, path@),
{
    Json::object().with("ok", Json::Bool(true)).with("deleted", Json::Bool(deleted)).with(
        "path",
        Json::text(path),
    )
}

// ---------------------------------------------------------------------------
// The hint that there is a cache
// ---------------------------------------------------------------------------

/// The environment asks for no hints.
pub open spec fn hints_suppressed(env: Option<Seq<char>>) -> bool {
    env == Some("1"@) || env == Some("true"@) || env == Some("yes"@)
}

/// Whether the environment asks for no hints.
pub fn hint_suppressed_by_env(env: Option<&str>) -> (r: bool)
    ensures
        r == hints_suppressed(opt_str(env)),
{
    match env {
        Some(v) => text::same(v, "1") || text::same(v, "true") || text::same(v, "yes"),
        None => false,
    }
}

/// What is known of the last hint.
#[derive(Debug, Clone, Copy, PartialEq, Eq, Structural)]
pub enum LastHint {
    /// The state directory is not known.
    Unknown,
    /// There was none.
    Never,
    /// There was one, its time cannot be read.
    Unreadable,
    At(Timestamp),
}

/// Whether the hint is given after a fetch: hints are wanted, the cache is off,
/// and the last hint is long ago or never was.
pub fn hint_should_emit(
    suppressed: bool,
    enabled: bool,
    last: LastHint,
    now: Timestamp,
    ttl: u64,
) -> (r: bool)
    ensures
        r == hint_due_spec(suppressed, enabled, last, now, ttl),
{
    if suppressed || enabled {
        return false;
    }
    match last {
        LastHint::Unknown => false,
        LastHint::Never => true,
        LastHint::Unreadable => false,
        LastHint::At(t) => is_stale(t, now, ttl),
    }
}

/// The hint; `seconds` is how long the fetch took.
pub fn hint_text(seconds: &str) -> (r: String)
    ensures
        r@ == "fabcli: library fetch took "@ + seconds@
            + "s. Set FABCLI_LIBRARY_CACHE=1 to skip this on repeat reads (cache is 24h by default; FABCLI_LIBRARY_CACHE_TTL=<secs> to tune; FABCLI_NO_TIPS=1 to silence this notice)."@,
{
    let mut m = "fabcli: library fetch took ".to_owned();
    m.append(seconds);
    m.append(
        "s. Set FABCLI_LIBRARY_CACHE=1 to skip this on repeat reads (cache is 24h by default; FABCLI_LIBRARY_CACHE_TTL=<secs> to tune; FABCLI_NO_TIPS=1 to silence this notice).",
    );
    m
}

/// The line that says where a download gets its coordinates from; `warm` is
/// whether a fresh cache is there.
pub fn resolving_note(warm: bool) -> (r: &'static str)
    ensures
        r@ == (if warm {
            "[download] Resolving asset coordinates from library cache"@
        } else {
            "[download] Resolving asset coordinates from library (live fetch — can take ~100s on a large library; set FABCLI_LIBRARY_CACHE=1 to skip on later calls)"@
        }),
{
    if warm {
        "[download] Resolving asset coordinates from library cache"
    } else {
        "[download] Resolving asset coordinates from library (live fetch — can take ~100s on a large library; set FABCLI_LIBRARY_CACHE=1 to skip on later calls)"
    }
}

// ---------------------------------------------------------------------------
// What the settings mean
// ---------------------------------------------------------------------------

/// The cache is on for one of three words, in letters of any size and with white
/// space around it, and off for any other and without a setting.
pub proof fn three_words_turn_the_cache_on(v: Seq<char>)
    ensures
        enabled_spec(Some(v)) <==> ascii_lower_spec(trim_spec(v)) == "1"@ || ascii_lower_spec(
            trim_spec(v),
        ) == "true"@ || ascii_lower_spec(trim_spec(v)) == "yes"@,
        !enabled_spec(None),
{
}

/// A number in the environment counts with white space around it or without;
/// what is no number, and no setting, leave the default.
pub proof fn settings_are_numbers(n: u64, lead: Seq<char>, trail: Seq<char>, otherwise: u64)
    requires
        forall|i: int| 0 <= i < lead.len() ==> crate::text::is_space_spec(#[trigger] lead[i]),
        forall|i: int| 0 <= i < trail.len() ==> crate::text::is_space_spec(#[trigger] trail[i]),
    ensures
        env_number(Some(lead + crate::text::decimal_spec(n as nat) + trail), otherwise) == n,
        env_number(None, otherwise) == otherwise,
        env_number(Some(lead), otherwise) == otherwise,
{
    let d = crate::text::decimal_spec(n as nat);
    crate::text::numbers_are_digits(n, Seq::empty());
    crate::text::decimal_has_no_space(n as nat);
    crate::text::trimming_takes_space_off_both_ends(lead, d, trail);
    crate::text::trimming_takes_space_off_both_ends(lead, Seq::empty(), Seq::empty());
    assert(lead + Seq::<char>::empty() + Seq::<char>::empty() =~= lead);
}

/// An hour has 3600 seconds; more hours than fit are as many seconds as fit.
pub proof fn hours_become_seconds(hours: u64)
    ensures
        hours * 3600 <= u64::MAX ==> hours_in_secs(hours) == hours * 3600,
        hours * 3600 > u64::MAX ==> hours_in_secs(hours) == u64::MAX,
{
}

/// A copy written `age` nanoseconds ago is stale exactly where it is older than
/// its time to live, which is given in seconds; with none to live it always is.
pub proof fn copies_live_for_their_time(mtime: Timestamp, now: Timestamp, ttl: u64, age: int)
    requires
        now.secs * 1_000_000_000 + now.nanos == mtime.secs * 1_000_000_000 + mtime.nanos + age,
    ensures
        stale_spec(mtime, now, 0),
        ttl > 0 ==> (stale_spec(mtime, now, ttl) <==> age > ttl * 1_000_000_000),
{
}

/// A stored copy is served exactly where it is not stale and belongs to the
/// account; it is discarded exactly where it is not stale and belongs to
/// another.
pub proof fn copies_belong_to_an_account(
    stale: bool,
    owner: Option<Seq<char>>,
    account_id: Seq<char>,
)
    ensures
        verdict_spec(stale, owner, account_id) == CacheVerdict::Serve <==> !stale && owner == Some(
            account_id,
        ),
        verdict_spec(stale, owner, account_id) == CacheVerdict::Discard <==> !stale && (owner
            matches Some(o) && o != account_id),
{
}

/// The flag against the cache has precedence over that for a new copy, and that
/// over those for the cache; without any, nothing is read or written.
pub proof fn cache_modes_follow_the_flags(
    no_cache: bool,
    refresh: bool,
    cache: bool,
    enabled: bool,
)
    ensures
        mode_spec(no_cache, refresh, cache, enabled) == CacheMode::Bypass <==> no_cache || (
        !refresh && !cache && !enabled),
        mode_spec(no_cache, refresh, cache, enabled) == CacheMode::Refresh <==> !no_cache
            && refresh,
        mode_spec(no_cache, refresh, cache, enabled) == CacheMode::ReadOrFetch <==> !no_cache
            && !refresh && (cache || enabled),
{
}

/// The library is fetched unless it may be read from a copy that is good; what
/// was fetched is stored unless the cache is bypassed; and nothing happens
/// without an account.
pub proof fn libraries_are_fetched_when_needed(
    has_account: bool,
    mode: CacheMode,
    cached: Option<CacheVerdict>,
    fetched: bool,
)
    ensures
        fetch_spec(has_account, mode, cached, fetched) is Fail <==> !has_account,
        fetch_spec(has_account, mode, cached, fetched) is ServeFetched <==> has_account && fetched,
        fetch_spec(has_account, mode, cached, fetched) matches FetchView::ServeFetched { write }
            ==> (write <==> mode == CacheMode::ReadOrFetch || mode == CacheMode::Refresh),
        fetch_spec(has_account, mode, cached, fetched) is ReadCache <==> has_account && !fetched
            && mode == CacheMode::ReadOrFetch && cached is None,
        fetch_spec(has_account, mode, cached, fetched) is ServeCached <==> has_account && !fetched
            && mode == CacheMode::ReadOrFetch && cached == Some(CacheVerdict::Serve),
        fetch_spec(has_account, mode, cached, fetched) is Fetch <==> has_account && !fetched && (
        mode != CacheMode::ReadOrFetch || (cached matches Some(v) && v != CacheVerdict::Serve)),
        !has_account ==> (fetch_spec(has_account, mode, cached, fetched) matches FetchView::Fail(e)
            && e is AuthRequired),
{
}

proof fn lemma_clear_keys()
    ensures
        "ok"@ != "deleted"@,
        "ok"@ != "path"@,
        "deleted"@ != "path"@,
{
    reveal_strlit("ok");
    reveal_strlit("deleted");
    reveal_strlit("path");
    assert("ok"@.len() == 2);
    assert("deleted"@.len() == 7);
    assert("path"@.len() == 4);
}

/// What is done with a stored copy, by when it was written and whose it is.
pub open spec fn fresh_spec(
    mtime: Option<Timestamp>,
    now: Timestamp,
    ttl: u64,
    owner: Option<Seq<char>>,
    account_id: Seq<char>,
) -> CacheVerdict {
    match mtime {
        Some(at) => verdict_spec(stale_spec(at, now, ttl), owner, account_id),
        None => CacheVerdict::Miss,
    }
}

/// A copy is served exactly where it was written no longer ago than it lives,
/// it lives at all, and it is the account's own.
pub proof fn only_fresh_copies_are_served(
    mtime: Option<Timestamp>,
    now: Timestamp,
    ttl: u64,
    owner: Option<Seq<char>>,
    account_id: Seq<char>,
)
    ensures
        fresh_spec(mtime, now, ttl, owner, account_id) == CacheVerdict::Serve <==> (mtime matches
            Some(at) && ttl > 0 && (now.secs - at.secs) * 1_000_000_000 + (now.nanos - at.nanos)
            <= ttl * 1_000_000_000 && owner == Some(account_id)),
        mtime is None ==> fresh_spec(mtime, now, ttl, owner, account_id) == CacheVerdict::Miss,
{
}

/// Whether the hint at the cache is due.
pub open spec fn hint_due_spec(
    suppressed: bool,
    enabled: bool,
    last: LastHint,
    now: Timestamp,
    ttl: u64,
) -> bool {
    !suppressed && !enabled && (match last {
        LastHint::Unknown => false,
        LastHint::Never => true,
        LastHint::Unreadable => false,
        LastHint::At(t) => stale_spec(t, now, ttl),
    })
}

/// The hint is given where it is neither suppressed nor pointless, and was never
/// given or long enough ago; where that is not known it is not given.
pub proof fn hints_come_now_and_then(
    suppressed: bool,
    enabled: bool,
    last: LastHint,
    now: Timestamp,
    ttl: u64,
)
    ensures
        hint_due_spec(suppressed, enabled, last, now, ttl) <==> !suppressed && !enabled && (last
            is Never || (last matches LastHint::At(t) && (ttl == 0 || (now.secs - t.secs)
            * 1_000_000_000 + (now.nanos - t.nanos) > ttl * 1_000_000_000))),
{
}

/// Hints are suppressed by one of three words, written just so.
pub proof fn three_words_suppress_hints(v: Seq<char>)
    ensures
        hints_suppressed(Some(v)) <==> v == "1"@ || v == "true"@ || v == "yes"@,
        !hints_suppressed(None),
{
}

/// The report that the stored copy was removed.
pub open spec fn clear_spec(deleted: bool, path: Seq<char>) -> JsonView {
    JsonView::Object(
        map![
            "ok"@ => JsonView::Bool(true),
            "deleted"@ => JsonView::Bool(deleted),
            "path"@ => str_view(path),
        ],
    )
}

/// The report says whether there was a copy, and where.
pub proof fn removals_are_reported(deleted: bool, path: Seq<char>)
    ensures
        crate::json::get_spec(clear_spec(deleted, path), "ok"@) == Some(JsonView::Bool(true)),
        crate::json::get_spec(clear_spec(deleted, path), "deleted"@) == Some(
            JsonView::Bool(deleted),
        ),
        crate::json::get_spec(clear_spec(deleted, path), "path"@) == Some(JsonView::Str(path)),
{
    lemma_clear_keys();
}

} // verus!
