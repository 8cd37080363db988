//! The marketplace's web session: how long it lasts, and when to say so.
use crate::clock::{
    can_add, can_add_days, days_in_nanos, days_span, in_calendar, nanos_of, rfc3339, rfc3339_text,
    to_nanos, Timestamp, MAX_DAYS,
};
use crate::error::{ErrorView, FabCliError};
use crate::json::{number_view, str_view, Json, JsonView};
use crate::library_cache::{env_number, number_from_env};
use crate::text;
use crate::text::{decimal_spec, opt_str, opt_text};
use vstd::prelude::*;

verus! {

/// A web session that exists in the browser's own data: when it began, and when
/// it ends.
#[derive(Debug, Clone, Copy, PartialEq, Eq, Structural)]
pub struct FabSession {
    pub logged_in_at: Timestamp,
    pub expires_at: Timestamp,
}

/// How long a web session lasts: ninety days.
pub const FAB_SESSION_LIFETIME_SECS: i64 = 7_776_000;

/// Before how many days of its end a session is reported, where nothing else
/// is said.
pub const DEFAULT_WARN_DAYS: u64 = 7;

impl FabSession {
    /// The session has ended by `now`.
    pub open spec fn expired_at(self, now: Timestamp) -> bool {
        nanos_of(now) >= nanos_of(self.expires_at)
    }

    /// The session ends by `span` nanoseconds from `now`.
    pub open spec fn ends_within(self, now: Timestamp, span: int) -> bool {
        nanos_of(now) + span >= nanos_of(self.expires_at)
    }

    /// Whether the session has ended by `now`.
    pub fn is_expired(&self, now: Timestamp) -> (r: bool)
        ensures
            r == self.expired_at(now),
    {
        to_nanos(now) >= to_nanos(self.expires_at)
    }

    /// Whether the session ends by `threshold` nanoseconds from `now`.
    pub fn expires_within(&self, now: Timestamp, threshold: i128) -> (r: bool)
        requires
            can_add(now, threshold as int),
        ensures
            r == self.ends_within(now, threshold as int),
    {
        to_nanos(now) + threshold >= to_nanos(self.expires_at)
    }

    /// Whether the session has ended, or ends by `threshold` nanoseconds from
    /// `now`.
    pub fn needs_refresh(&self, now: Timestamp, threshold: i128) -> (r: bool)
        requires
            !self.expired_at(now) ==> can_add(now, threshold as int),
        ensures
            r == (self.expired_at(now) || self.ends_within(now, threshold as int)),
    {
        self.is_expired(now) || self.expires_within(now, threshold)
    }
}

/// With a threshold of nothing, a session needs a refresh exactly when it has
/// ended.
pub proof fn no_threshold_means_expired(s: FabSession, now: Timestamp)
    ensures
        (s.expired_at(now) || s.ends_within(now, 0)) == s.expired_at(now),
{
}

/// An ended session is within every threshold.
pub proof fn expired_is_within_any_threshold(s: FabSession, now: Timestamp, span: nat)
    requires
        s.expired_at(now),
    ensures
        s.ends_within(now, span as int),
{
}

/// A session that needs a refresh for one threshold needs it for every longer
/// one.
pub proof fn longer_thresholds_keep_the_answer(
    s: FabSession,
    now: Timestamp,
    shorter: int,
    longer: int,
)
    requires
        shorter <= longer,
        s.expired_at(now) || s.ends_within(now, shorter),
    ensures
        s.expired_at(now) || s.ends_within(now, longer),
{
}

/// A session needs a refresh exactly when it ends by the threshold, its end
/// included.
pub proof fn refresh_begins_at_the_threshold(s: FabSession, now: Timestamp, span: nat)
    ensures
        (s.expired_at(now) || s.ends_within(now, span as int)) <==> nanos_of(now) + span
            >= nanos_of(s.expires_at),
{
}

/// The session that begins at `now`.
pub fn new_session(now: Timestamp) -> (r: FabSession)
    requires
        in_calendar(nanos_of(now) + FAB_SESSION_LIFETIME_SECS * 1_000_000_000),
        now.secs + FAB_SESSION_LIFETIME_SECS <= i64::MAX,
    ensures
        r.logged_in_at == now,
        nanos_of(r.expires_at) == nanos_of(now) + FAB_SESSION_LIFETIME_SECS * 1_000_000_000,
        nanos_of(r.expires_at) == nanos_of(now) + 90 * 86_400 * 1_000_000_000,
        !r.expired_at(now),
{
    FabSession {
        logged_in_at: now,
        expires_at: Timestamp { secs: now.secs + FAB_SESSION_LIFETIME_SECS, nanos: now.nanos },
    }
}

/// The number of days that the environment asks to be warned before. A value
/// that is no number, or more days than a date can be moved by, does not count.
pub open spec fn warn_days_spec(env: Option<Seq<char>>) -> u64 {
    let days = env_number(env, DEFAULT_WARN_DAYS);
    if days <= MAX_DAYS {
        days
    } else {
        DEFAULT_WARN_DAYS
    }
}

/// Before how many days of its end a session is reported. `env` is what the
/// environment says; zero turns warnings off.
pub fn threshold_from_env(env: Option<&str>) -> (r: i64)
    ensures
        r == warn_days_spec(opt_str(env)),
        0 <= r <= MAX_DAYS,
{
    let days = number_from_env(env, DEFAULT_WARN_DAYS);
    if days <= MAX_DAYS as u64 {
        days as i64
    } else {
        DEFAULT_WARN_DAYS as i64
    }
}

/// Whole days until the session ends; none where it has ended.
pub open spec fn days_remaining_spec(s: FabSession, now: Timestamp) -> nat {
    let left = nanos_of(s.expires_at) - nanos_of(now);
    if left <= 0 {
        0
    } else {
        (left / 86_400_000_000_000) as nat
    }
}

/// Whole days until the session ends, rounded down; zero where it has ended.
pub fn days_remaining(s: &FabSession, now: Timestamp) -> (r: u64)
    ensures
        r == days_remaining_spec(*s, now),
{
    let left: i128 = to_nanos(s.expires_at) - to_nanos(now);
    if left <= 0 {
        return 0;
    }
    (left / 86_400_000_000_000) as u64
}

/// A time as JSON text; null where the calendar does not hold it.
pub open spec fn time_json(t: Option<Seq<char>>) -> JsonView {
    match t {
        Some(s) => str_view(s),
        None => JsonView::Null,
    }
}

/// The report on a web session.
pub open spec fn fab_status_spec(
    s: Option<FabSession>,
    expires: Option<Seq<char>>,
    now: Timestamp,
    days: int,
) -> JsonView {
    match s {
        None => JsonView::Object(
            map![
                "session_present"@ => JsonView::Bool(false),
                "needs_refresh"@ => JsonView::Bool(true),
            ],
        ),
        Some(fs) => JsonView::Object(
            map![
                "session_present"@ => JsonView::Bool(true),
                "expires_at"@ => time_json(expires),
                "days_remaining"@ => number_view(days_remaining_spec(fs, now) as u64),
                "needs_refresh"@ => JsonView::Bool(
                    fs.expired_at(now) || fs.ends_within(now, days_in_nanos(days)),
                ),
            ],
        ),
    }
}

/// The text of a session's end.
pub open spec fn expiry_text(s: Option<FabSession>) -> Option<Seq<char>> {
    match s {
        Some(fs) => rfc3339_text(fs.expires_at.secs, fs.expires_at.nanos),
        None => None,
    }
}

pub(crate) fn time_to_json(t: Option<String>) -> (r: Json)
    ensures
        r@ == time_json(opt_text(t)),
{
    match t {
        Some(s) => Json::Str(s),
        None => Json::Null,
    }
}

/// The report on a web session that may be there; `expires` is the text of its
/// end. A session that is not there needs a refresh.
pub fn fab_status(
    session: Option<FabSession>,
    expires: Option<String>,
    now: Timestamp,
    days: i64,
) -> (r: Json)
    requires
        session matches Some(fs) && !fs.expired_at(now) ==> can_add_days(now, days as int),
    ensures
        r@ == fab_status_spec(session, opt_text(expires), now, days as int),
{
    match session {
        None => Json::object().with("session_present", Json::Bool(false)).with(
            "needs_refresh",
            Json::Bool(true),
        ),
        Some(fs) => Json::object().with("session_present", Json::Bool(true)).with(
            "expires_at",
            time_to_json(expires),
        ).with("days_remaining", Json::number(days_remaining(&fs, now))).with(
            "needs_refresh",
            Json::Bool(fs.needs_refresh(now, days_span(days))),
        ),
    }
}

/// The report on a web session that may be there.
pub fn fab_status_json(session: Option<FabSession>, now: Timestamp, days: i64) -> (r: Json)
    requires
        session matches Some(fs) && !fs.expired_at(now) ==> can_add_days(now, days as int),
    ensures
        r@ == fab_status_spec(session, expiry_text(session), now, days as int),
{
    let expires = match session {
        Some(fs) => rfc3339(fs.expires_at),
        None => None,
    };
    fab_status(session, expires, now, days)
}

/// The warning before a session ends.
pub open spec fn warning_spec(
    warned: bool,
    session: Option<FabSession>,
    now: Timestamp,
    days: int,
) -> Option<Seq<char>> {
    match session {
        Some(fs) => if !warned && days != 0 && !fs.expired_at(now) && fs.ends_within(
            now,
            days_in_nanos(days),
        ) {
            Some(
                "WARNING: Fab session expires in "@ + decimal_spec(days_remaining_spec(fs, now))
                    + " days; run 'fabcli auth login' to refresh."@,
            )
        } else {
            None
        },
        None => None,
    }
}

/// The warning before a session ends: given once, for a session that has not
/// ended but ends within the threshold, unless that is zero. `warned` is
/// whether it was given before.
pub fn maybe_warn(
    warned: &mut bool,
    session: Option<FabSession>,
    now: Timestamp,
    days: i64,
) -> (r: Option<String>)
    requires
        !*old(warned) && days != 0 && (session matches Some(fs) && !fs.expired_at(now))
            ==> can_add_days(now, days as int),
    ensures
        opt_text(r) == warning_spec(*old(warned), session, now, days as int),
        *final(warned) == (*old(warned) || r is Some),
{
    if *warned || days == 0 {
        return None;
    }
    match session {
        None => None,
        Some(fs) => {
            if fs.is_expired(now) || !fs.expires_within(now, days_span(days)) {
                return None;
            }
            let mut m = "WARNING: Fab session expires in ".to_owned();
            m.append(text::decimal(days_remaining(&fs, now)).as_str());
            m.append(" days; run 'fabcli auth login' to refresh.");
            *warned = true;
            Some(m)
        },
    }
}

/// A warning that was given is not given again.
pub proof fn warning_is_given_once(session: Option<FabSession>, now: Timestamp, days: int)
    ensures
        warning_spec(true, session, now, days) is None,
{
}

/// What is held against a command that needs a web session.
pub open spec fn ready_spec(session: Option<FabSession>, now: Timestamp) -> Result<(), ErrorView> {
    match session {
        None => Err(
            ErrorView::AuthRequired(
                "claim needs a Fab session. Run 'fabcli auth login' first."@,
            ),
        ),
        Some(fs) => if fs.expired_at(now) {
            Err(
                ErrorView::AuthRequired(
                    "Fab session expired. Run 'fabcli auth login' to refresh."@,
                ),
            )
        } else {
            Ok(())
        },
    }
}

/// Refuses a command that needs a web session where there is none, or it has
/// ended.
pub fn ensure_fab_session_ready(session: Option<FabSession>, now: Timestamp) -> (r: Result<
    (),
    FabCliError,
>)
    ensures
        crate::download::unit_view(r) == ready_spec(session, now),
{
    match session {
        None => Err(
            FabCliError::AuthRequired(
                "claim needs a Fab session. Run 'fabcli auth login' first.".to_owned(),
            ),
        ),
        Some(fs) => {
            if fs.is_expired(now) {
                return Err(
                    FabCliError::AuthRequired(
                        "Fab session expired. Run 'fabcli auth login' to refresh.".to_owned(),
                    ),
                );
            }
            Ok(())
        },
    }
}

// ---------------------------------------------------------------------------
// What a session's end means
// ---------------------------------------------------------------------------

proof fn lemma_status_keys()
    ensures
        "session_present"@ != "expires_at"@,
        "session_present"@ != "days_remaining"@,
        "session_present"@ != "needs_refresh"@,
        "expires_at"@ != "days_remaining"@,
        "expires_at"@ != "needs_refresh"@,
        "days_remaining"@ != "needs_refresh"@,
{
    reveal_strlit("session_present");
    reveal_strlit("expires_at");
    reveal_strlit("days_remaining");
    reveal_strlit("needs_refresh");
    assert("session_present"@.len() == 15);
    assert("expires_at"@.len() == 10);
    assert("days_remaining"@.len() == 14);
    assert("needs_refresh"@.len() == 13);
}

/// A session is over from its end on, and near its end from that long before it
/// on; both by seconds first and by nanoseconds then.
pub proof fn sessions_end_on_time(s: FabSession, now: Timestamp, span: int)
    requires
        now.nanos < 1_000_000_000,
        s.expires_at.nanos < 1_000_000_000,
    ensures
        s.expired_at(now) <==> now.secs > s.expires_at.secs || (now.secs == s.expires_at.secs
            && now.nanos >= s.expires_at.nanos),
        s.ends_within(now, span) <==> (s.expires_at.secs - now.secs) * 1_000_000_000 + (
        s.expires_at.nanos - now.nanos) <= span,
{
}

/// The days that remain are whole days of 86400 seconds: so many fit into the
/// time to the session's end, and not one more; none where that is over.
pub proof fn remaining_days_are_whole_days(s: FabSession, now: Timestamp)
    ensures
        s.expired_at(now) ==> days_remaining_spec(s, now) == 0,
        !s.expired_at(now) ==> {
            &&& nanos_of(now) + days_remaining_spec(s, now) * 86_400 * 1_000_000_000 <= nanos_of(
                s.expires_at,
            )
            &&& nanos_of(now) + (days_remaining_spec(s, now) + 1) * 86_400 * 1_000_000_000
                > nanos_of(s.expires_at)
        },
{
}

/// The status says whether there is a session, when it ends, how many days
/// remain, and that it has to be renewed exactly where it is over or near its
/// end; without a session that it has to be made.
pub proof fn status_tells_of_the_session(
    s: FabSession,
    expires: Option<Seq<char>>,
    now: Timestamp,
    days: int,
)
    requires
        days_remaining_spec(s, now) <= u64::MAX,
    ensures
        crate::json::get_spec(fab_status_spec(None, expires, now, days), "session_present"@)
            == Some(JsonView::Bool(false)),
        crate::json::get_spec(fab_status_spec(None, expires, now, days), "needs_refresh"@) == Some(
            JsonView::Bool(true),
        ),
        crate::json::get_spec(fab_status_spec(Some(s), expires, now, days), "session_present"@)
            == Some(JsonView::Bool(true)),
        crate::json::get_spec(fab_status_spec(Some(s), expires, now, days), "expires_at"@) == Some(
            match expires {
                Some(t) => JsonView::Str(t),
                None => JsonView::Null,
            },
        ),
        crate::json::get_spec(fab_status_spec(Some(s), expires, now, days), "days_remaining"@)
            == Some(
            JsonView::Number(
                crate::json::NumberView::Unsigned(days_remaining_spec(s, now) as u64),
            ),
        ),
        crate::json::get_spec(fab_status_spec(Some(s), expires, now, days), "needs_refresh"@)
            == Some(
            JsonView::Bool(
                nanos_of(now) >= nanos_of(s.expires_at) || nanos_of(now) + days * 86_400
                    * 1_000_000_000 >= nanos_of(s.expires_at),
            ),
        ),
{
    lemma_status_keys();
    assert(days * 86_400 * 1_000_000_000 == days * 86_400_000_000_000) by (nonlinear_arith);
}

/// A warning is given exactly where none was given, warnings are on, and the
/// session is near its end but not over.
pub proof fn warnings_come_before_the_end(
    warned: bool,
    s: FabSession,
    now: Timestamp,
    days: int,
)
    ensures
        warning_spec(warned, Some(s), now, days) is Some <==> !warned && days != 0 && nanos_of(now)
            < nanos_of(s.expires_at) && nanos_of(now) + days * 86_400 * 1_000_000_000 >= nanos_of(
            s.expires_at,
        ),
        warning_spec(warned, None, now, days) is None,
{
    assert(days * 86_400 * 1_000_000_000 == days * 86_400_000_000_000) by (nonlinear_arith);
}

/// Requests are sent exactly in a session that is not over; else a login is
/// asked for.
pub proof fn requests_need_a_session(session: Option<FabSession>, now: Timestamp)
    ensures
        ready_spec(session, now) is Ok <==> (session matches Some(s) && nanos_of(now) < nanos_of(
            s.expires_at,
        )),
        ready_spec(session, now) matches Err(e) ==> e is AuthRequired,
{
}

/// The number of days before the end at which warnings begin is the setting's,
/// where that is a number of days that time can count, and else seven.
pub proof fn warnings_begin_as_set(v: Seq<char>, n: u64)
    ensures
        crate::text::parse_u64_spec(crate::text::trim_spec(v)) == Some(n) && n <= MAX_DAYS
            ==> warn_days_spec(Some(v)) == n,
        crate::text::parse_u64_spec(crate::text::trim_spec(v)) == Some(n) && n > MAX_DAYS
            ==> warn_days_spec(Some(v)) == 7,
        crate::text::parse_u64_spec(crate::text::trim_spec(v)) is None ==> warn_days_spec(Some(v))
            == 7,
        warn_days_spec(None) == 7,
{
}

} // verus!
