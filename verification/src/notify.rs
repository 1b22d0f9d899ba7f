//! The one-shot reminder policy.
//!
//! At most one reminder fires per session window: when the session limit
//! resets within a half-open time band and enough of the session is still
//! unused, and no reminder was sent for this window's reset stamp yet.

use vstd::prelude::*;

use crate::usage::{
    find_session_index, first_session_at, lemma_first_session_spec, lemma_no_session_spec,
    opt_view, spec_session, UsageData, UsageLimit,
};

verus! {

/// Least minutes until reset for a reminder to fire.
pub const NOTIFY_MIN_MINUTES: i64 = 30;

/// Most minutes until reset for a reminder to fire.
pub const NOTIFY_MAX_MINUTES: i64 = 75;

/// Usage at or above this (in ten-thousandths of full usage) suppresses the
/// reminder: the session is being used enough.
pub const NOTIFY_MAX_USAGE_BP: u32 = 8000;

/// What a reminder check decided, and why.
#[derive(Debug, Clone, Copy, PartialEq, Eq, Structural)]
pub enum NotifyDecision {
    /// Notifications are switched off.
    Disabled,
    /// The fetch reported no session limit.
    NoSession,
    /// The session limit carries no reset stamp.
    NoResetAt,
    /// A reminder already fired for this reset stamp.
    AlreadyNotified,
    /// The reset stamp is not an RFC 3339 timestamp.
    BadResetAt,
    /// Outside the time band, or the session is used enough.
    OutsideWindow,
    /// Fire: the whole-percent usage, the unused percent, and the minutes
    /// left until the session resets.
    Notify { pct: u32, unused: u32, minutes_left: i64 },
}

/// Epoch seconds an RFC 3339 timestamp denotes, when the text is one.
pub uninterp spec fn rfc3339_epoch_secs(s: Seq<char>) -> Option<int>;

/// Relies on chrono::DateTime::parse_from_rfc3339 and
/// chrono::DateTime::timestamp: parses an RFC 3339 timestamp and returns
/// its whole epoch seconds. The result is a function of the text alone.
#[verifier::external_body]
fn parse_rfc3339_secs(s: &str) -> (r: Option<i64>)
    ensures
        (r is Some) == (rfc3339_epoch_secs(s@) is Some),
        r matches Some(v) ==> rfc3339_epoch_secs(s@) == Some(v as int),
{
    match chrono::DateTime::parse_from_rfc3339(s) {
        Ok(dt) => Some(dt.timestamp()),
        Err(_) => None,
    }
}

/// Whole minutes from `now` to `t`, truncated toward zero.
pub open spec fn minutes_until(now: int, t: int) -> int {
    if t >= now {
        (t - now) / 60
    } else {
        -((now - t) / 60)
    }
}

/// The reminder decision on one fetch: disabled, no session limit, no
/// reset stamp, already notified for this stamp, unparsable stamp, outside
/// the band, or fire.
pub open spec fn spec_notify_decision(
    enabled: bool,
    limits: Seq<UsageLimit>,
    last: Option<Seq<char>>,
    now: int,
) -> NotifyDecision {
    if !enabled {
        NotifyDecision::Disabled
    } else {
        match spec_session(limits) {
            None => NotifyDecision::NoSession,
            Some(l) => match opt_view(l.reset_at) {
                None => NotifyDecision::NoResetAt,
                Some(rs) => if last == Some(rs) {
                    NotifyDecision::AlreadyNotified
                } else {
                    match rfc3339_epoch_secs(rs) {
                        None => NotifyDecision::BadResetAt,
                        Some(t) => {
                            let m = minutes_until(now, t);
                            if NOTIFY_MIN_MINUTES <= m <= NOTIFY_MAX_MINUTES && l.usage_bp
                                < NOTIFY_MAX_USAGE_BP {
                                NotifyDecision::Notify {
                                    pct: (l.usage_bp / 100) as u32,
                                    unused: (100 - l.usage_bp / 100) as u32,
                                    minutes_left: m as i64,
                                }
                            } else {
                                NotifyDecision::OutsideWindow
                            }
                        },
                    }
                },
            },
        }
    }
}

/// Tracks the reset stamp the last reminder fired for, so each session
/// window gets at most one reminder.
#[derive(Debug, Clone, PartialEq, Eq)]
pub struct NotifierState {
    pub last_notified_reset: Option<String>,
}

impl NotifierState {
    pub fn new() -> (r: NotifierState)
        ensures
            r.last_notified_reset is None,
    {
        NotifierState { last_notified_reset: None }
    }

    /// Decides whether a reminder fires for this fetch, and on firing marks
    /// the session window's reset stamp as notified.
    pub fn check(&mut self, enabled: bool, data: &UsageData, now_secs: i64) -> (r:
        NotifyDecision)
        requires
            now_secs >= 0,
        ensures
            r == spec_notify_decision(
                enabled,
                data.limits@,
                opt_view(old(self).last_notified_reset),
                now_secs as int,
            ),
            r is Notify ==> opt_view(final(self).last_notified_reset) == opt_view(
                spec_session(data.limits@).unwrap().reset_at,
            ),
            !(r is Notify) ==> *final(self) == *old(self),
    {
        if !enabled {
            return NotifyDecision::Disabled;
        }
        let ix = match find_session_index(&data.limits) {
            Some(ix) => ix,
            None => {
                proof {
                    lemma_no_session_spec(data.limits@);
                }
                return NotifyDecision::NoSession;
            },
        };
        proof {
            lemma_first_session_spec(data.limits@, ix as int);
        }
        let session = &data.limits[ix];
        let reset_str = match &session.reset_at {
            Some(rs) => rs,
            None => {
                return NotifyDecision::NoResetAt;
            },
        };
        let already = match &self.last_notified_reset {
            Some(prev) => *prev == *reset_str,
            None => false,
        };
        if already {
            return NotifyDecision::AlreadyNotified;
        }
        let t = match parse_rfc3339_secs(reset_str.as_str()) {
            Some(t) => t,
            None => {
                return NotifyDecision::BadResetAt;
            },
        };
        if t <= now_secs {
            // the reset is now or past: no minutes remain
            assert(minutes_until(now_secs as int, t as int) <= 0);
            return NotifyDecision::OutsideWindow;
        }
        let minutes_left: i64 = (((t - now_secs) as u64) / 60) as i64;
        assert(minutes_left == minutes_until(now_secs as int, t as int));
        if NOTIFY_MIN_MINUTES <= minutes_left && minutes_left <= NOTIFY_MAX_MINUTES
            && session.usage_bp < NOTIFY_MAX_USAGE_BP {
            let pct = session.usage_bp / 100;
            let stamp = reset_str.clone();
            self.last_notified_reset = Some(stamp);
            NotifyDecision::Notify { pct, unused: 100 - pct, minutes_left }
        } else {
            NotifyDecision::OutsideWindow
        }
    }
}

} // verus!
