use claudit::notify::{NotifierState, NotifyDecision};
use claudit::usage::{UsageData, UsageLimit};

fn usage_with_session(usage_bp: u32, reset_at: Option<&str>) -> UsageData {
    UsageData {
        limits: vec![UsageLimit {
            label: "Current session".to_string(),
            usage_bp,
            reset_at: reset_at.map(|s| s.to_string()),
        }],
        extra_usage: None,
        plan: None,
    }
}

// 2024-01-01T00:00:00Z as epoch seconds
const MIDNIGHT: i64 = 1_704_067_200;

#[test]
fn reminder_fires_inside_the_band_with_unused_session() {
    let mut st = NotifierState::new();
    // the session resets at 01:00; it is 00:10, so 50 minutes remain
    let data = usage_with_session(4000, Some("2024-01-01T01:00:00Z"));
    let d = st.check(true, &data, MIDNIGHT + 600);
    assert_eq!(d, NotifyDecision::Notify { pct: 40, unused: 60, minutes_left: 50 });
    assert_eq!(
        st.last_notified_reset.as_deref(),
        Some("2024-01-01T01:00:00Z")
    );
}

#[test]
fn reminder_fires_once_per_reset_window() {
    let mut st = NotifierState::new();
    let data = usage_with_session(4000, Some("2024-01-01T01:00:00Z"));
    let first = st.check(true, &data, MIDNIGHT + 600);
    assert!(matches!(first, NotifyDecision::Notify { .. }));
    let second = st.check(true, &data, MIDNIGHT + 660);
    assert_eq!(second, NotifyDecision::AlreadyNotified);
}

#[test]
fn reminder_respects_the_offset_of_the_stamp() {
    let mut st = NotifierState::new();
    // 02:00 at +01:00 is 01:00 UTC: same instant as the zulu stamp
    let data = usage_with_session(4000, Some("2024-01-01T02:00:00+01:00"));
    let d = st.check(true, &data, MIDNIGHT + 600);
    assert_eq!(d, NotifyDecision::Notify { pct: 40, unused: 60, minutes_left: 50 });
}

#[test]
fn reminder_skips_when_disabled() {
    let mut st = NotifierState::new();
    let data = usage_with_session(4000, Some("2024-01-01T01:00:00Z"));
    assert_eq!(st.check(false, &data, MIDNIGHT + 600), NotifyDecision::Disabled);
    assert_eq!(st.last_notified_reset, None);
}

#[test]
fn reminder_skips_without_a_session_limit() {
    let mut st = NotifierState::new();
    let data = UsageData { limits: vec![], extra_usage: None, plan: None };
    assert_eq!(st.check(true, &data, MIDNIGHT), NotifyDecision::NoSession);
}

#[test]
fn reminder_skips_without_a_reset_stamp() {
    let mut st = NotifierState::new();
    let data = usage_with_session(4000, None);
    assert_eq!(st.check(true, &data, MIDNIGHT), NotifyDecision::NoResetAt);
}

#[test]
fn reminder_skips_an_unparsable_stamp() {
    let mut st = NotifierState::new();
    let data = usage_with_session(4000, Some("tomorrow-ish"));
    assert_eq!(st.check(true, &data, MIDNIGHT), NotifyDecision::BadResetAt);
}

#[test]
fn reminder_skips_outside_the_time_band() {
    let mut st = NotifierState::new();
    let data = usage_with_session(4000, Some("2024-01-01T01:00:00Z"));
    // 29 minutes left: too close
    assert_eq!(
        st.check(true, &data, MIDNIGHT + 3600 - 29 * 60 - 59),
        NotifyDecision::OutsideWindow
    );
    // 76 minutes left: too far
    assert_eq!(
        st.check(true, &data, MIDNIGHT + 3600 - 76 * 60),
        NotifyDecision::OutsideWindow
    );
    // the reset is already past
    assert_eq!(st.check(true, &data, MIDNIGHT + 7200), NotifyDecision::OutsideWindow);
}

#[test]
fn reminder_skips_a_well_used_session() {
    let mut st = NotifierState::new();
    let data = usage_with_session(8000, Some("2024-01-01T01:00:00Z"));
    assert_eq!(st.check(true, &data, MIDNIGHT + 600), NotifyDecision::OutsideWindow);
    let busy = usage_with_session(9500, Some("2024-01-01T01:00:00Z"));
    assert_eq!(st.check(true, &busy, MIDNIGHT + 600), NotifyDecision::OutsideWindow);
}
