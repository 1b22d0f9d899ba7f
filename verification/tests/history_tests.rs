use claudit::history::{
    load_history, save_snapshot, AtomicDocState, UsageHistory, UsageSnapshot, MAX_AGE_SECS,
};
use claudit::usage::{UsageData, UsageLimit};

fn snap(timestamp: i64, buckets: Vec<(&str, u32)>) -> UsageSnapshot {
    UsageSnapshot {
        timestamp,
        buckets: buckets.into_iter().map(|(k, v)| (k.to_string(), v)).collect(),
    }
}

fn usage_of(limits: Vec<(&str, u32)>) -> UsageData {
    UsageData {
        limits: limits
            .into_iter()
            .map(|(label, usage_bp)| UsageLimit {
                label: label.to_string(),
                usage_bp,
                reset_at: None,
            })
            .collect(),
        extra_usage: None,
        plan: None,
    }
}

const NOW: i64 = 1_700_000_000;

#[test]
fn load_prunes_eight_day_old_snapshots_and_keeps_six_day_old_ones() {
    let eight_days = snap(NOW - 8 * 86400, vec![("Current session", 1000)]);
    let six_days = snap(NOW - 6 * 86400, vec![("Current session", 2000)]);
    let parsed = UsageHistory { snapshots: vec![eight_days, six_days.clone()] };
    let loaded = load_history(Some(parsed), NOW);
    assert_eq!(loaded.snapshots.len(), 1);
    assert_eq!(loaded.snapshots[0].timestamp, six_days.timestamp);
    assert_eq!(loaded.snapshots[0].buckets, six_days.buckets);
}

#[test]
fn load_of_missing_document_is_empty() {
    let loaded = load_history(None, NOW);
    assert!(loaded.snapshots.is_empty());
}

#[test]
fn load_keeps_exact_window_boundary() {
    let at_cutoff = snap(NOW - MAX_AGE_SECS, vec![]);
    let just_past = snap(NOW - MAX_AGE_SECS - 1, vec![]);
    let loaded = load_history(
        Some(UsageHistory { snapshots: vec![at_cutoff, just_past] }),
        NOW,
    );
    assert_eq!(loaded.snapshots.len(), 1);
    assert_eq!(loaded.snapshots[0].timestamp, NOW - MAX_AGE_SECS);
}

#[test]
fn load_migrates_legacy_labels_without_changing_values() {
    let legacy = snap(
        NOW - 100,
        vec![("Session (5hr rolling)", 4200), ("Weekly All Models", 3100)],
    );
    let loaded = load_history(Some(UsageHistory { snapshots: vec![legacy] }), NOW);
    assert_eq!(loaded.snapshots.len(), 1);
    let buckets = &loaded.snapshots[0].buckets;
    assert_eq!(buckets.len(), 2);
    assert!(buckets.contains(&("Current session".to_string(), 4200)));
    assert!(buckets.contains(&("Current week (all models)".to_string(), 3100)));
    assert!(!buckets.iter().any(|(k, _)| k == "Session (5hr rolling)"));
    assert!(!buckets.iter().any(|(k, _)| k == "Weekly All Models"));
}

#[test]
fn load_migration_lets_legacy_value_replace_canonical_duplicate() {
    let both = snap(
        NOW - 100,
        vec![("Weekly Opus", 1111), ("Current week (Opus only)", 2222)],
    );
    let loaded = load_history(Some(UsageHistory { snapshots: vec![both] }), NOW);
    let buckets = &loaded.snapshots[0].buckets;
    assert_eq!(buckets.len(), 1);
    assert_eq!(buckets[0], ("Current week (Opus only)".to_string(), 1111));
}

#[test]
fn load_leaves_unknown_labels_alone() {
    let odd = snap(NOW - 100, vec![("Some future bucket", 7)]);
    let loaded = load_history(Some(UsageHistory { snapshots: vec![odd] }), NOW);
    assert_eq!(
        loaded.snapshots[0].buckets,
        vec![("Some future bucket".to_string(), 7)]
    );
}

#[test]
fn save_appends_a_snapshot_of_the_fetch_and_prunes() {
    let old = snap(NOW - 8 * 86400, vec![("Current session", 1)]);
    let recent = snap(NOW - 3600, vec![("Current session", 2)]);
    let history = UsageHistory { snapshots: vec![old, recent.clone()] };
    let usage = usage_of(vec![("Current session", 4500), ("Current week (all models)", 2000)]);
    let saved = save_snapshot(history, &usage, NOW);
    assert_eq!(saved.snapshots.len(), 2);
    assert_eq!(saved.snapshots[0].timestamp, recent.timestamp);
    let last = saved.snapshots.last().unwrap();
    assert_eq!(last.timestamp, NOW);
    assert_eq!(
        last.buckets,
        vec![
            ("Current session".to_string(), 4500),
            ("Current week (all models)".to_string(), 2000),
        ]
    );
}

#[test]
fn save_snapshot_duplicate_labels_last_limit_wins() {
    let usage = usage_of(vec![("Current session", 1000), ("Current session", 2000)]);
    let saved = save_snapshot(UsageHistory { snapshots: vec![] }, &usage, NOW);
    assert_eq!(saved.snapshots.len(), 1);
    assert_eq!(
        saved.snapshots[0].buckets,
        vec![("Current session".to_string(), 2000)]
    );
}

#[test]
fn aborted_save_leaves_the_document_untouched() {
    // the write protocol: serialize, write the sibling, then rename; a
    // crash before the rename must leave the target as it was
    let mut disk = AtomicDocState {
        document: Some("{\"snapshots\":[]}".to_string()),
        temp: None,
    };
    let before = disk.document.clone();
    disk.write_temp("{\"snapshots\":[{\"timestamp\":1}]}".to_string());
    // interrupted here: no rename happened
    assert_eq!(disk.document, before);
    // a completed save replaces the document in one step
    disk.commit_rename();
    assert_eq!(
        disk.document,
        Some("{\"snapshots\":[{\"timestamp\":1}]}".to_string())
    );
    assert_eq!(disk.temp, None);
}
