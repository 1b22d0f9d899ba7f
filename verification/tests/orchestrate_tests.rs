use claudit::costs::CostData;
use claudit::errors::{KeychainError, UsageError};
use claudit::history::UsageSnapshot;
use claudit::orchestrate::{
    assemble_costs_result, assemble_usage_result, make_update_info, usage_branch_without_token,
    BranchOutcome, UsageResult,
};
use claudit::usage::UsageData;

fn some_history() -> Vec<UsageSnapshot> {
    vec![UsageSnapshot { timestamp: 1_700_000_000, buckets: vec![("Current session".to_string(), 1234)] }]
}

#[test]
fn partial_failure_keeps_history_and_reports_the_usage_error() {
    // the usage branch fails with a stale token while costs succeed: the
    // unified results still carry the on-disk trend and the cost value
    let unauthorized = UsageError::Unauthorized.message();
    let usage_res: UsageResult = assemble_usage_result(
        BranchOutcome::BranchError(unauthorized.clone()),
        Some(some_history()),
        "12:00:00".to_string(),
    );
    assert!(usage_res.usage.is_none());
    assert_eq!(usage_res.usage_error.as_deref(), Some(unauthorized.as_str()));
    assert!(unauthorized.starts_with("Unauthorized"));
    assert_eq!(usage_res.usage_history, Some(some_history()));
    assert_eq!(usage_res.timestamp, "12:00:00");

    let costs_res = assemble_costs_result(BranchOutcome::Value(CostData {
        today: 500,
        week: 1500,
        month: 1500,
    }));
    assert_eq!(costs_res.costs, Some(CostData { today: 500, week: 1500, month: 1500 }));
    assert_eq!(costs_res.costs_error, None);
}

#[test]
fn timed_out_branch_reports_the_synthetic_message() {
    let usage_res = assemble_usage_result(
        BranchOutcome::<UsageData>::TimedOut,
        None,
        "01:02:03".to_string(),
    );
    assert!(usage_res.usage.is_none());
    assert_eq!(usage_res.usage_error.as_deref(), Some("Request timed out"));

    let costs_res = assemble_costs_result(BranchOutcome::<CostData>::TimedOut);
    assert!(costs_res.costs.is_none());
    assert_eq!(costs_res.costs_error.as_deref(), Some("Request timed out"));
}

#[test]
fn successful_branch_carries_its_value_and_no_error() {
    let data = UsageData { limits: vec![], extra_usage: None, plan: Some("max".to_string()) };
    let res = assemble_usage_result(
        BranchOutcome::Value(data.clone()),
        Some(vec![]),
        "09:00:00".to_string(),
    );
    assert_eq!(res.usage, Some(data));
    assert_eq!(res.usage_error, None);
    assert_eq!(res.usage_history, Some(vec![]));
}

#[test]
fn missing_token_fails_the_usage_branch_without_a_fetch() {
    let outcome = usage_branch_without_token(&KeychainError::NotFound);
    match outcome {
        BranchOutcome::BranchError(m) => {
            assert_eq!(m, KeychainError::NotFound.message());
        }
        _ => panic!("expected a branch error"),
    }
}

#[test]
fn update_info_reports_a_found_update() {
    let info = make_update_info(
        "1.0.0".to_string(),
        Some(("1.2.0".to_string(), Some("notes".to_string()))),
    );
    assert_eq!(info.current_version, "1.0.0");
    assert_eq!(info.latest_version, "1.2.0");
    assert!(info.update_available);
    assert_eq!(info.release_notes.as_deref(), Some("notes"));
}

#[test]
fn update_info_without_an_update_repeats_the_current_version() {
    let info = make_update_info("1.0.0".to_string(), None);
    assert_eq!(info.current_version, "1.0.0");
    assert_eq!(info.latest_version, "1.0.0");
    assert!(!info.update_available);
    assert_eq!(info.release_notes, None);
}
