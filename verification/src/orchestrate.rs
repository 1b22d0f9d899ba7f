//! The aggregation orchestrator's merge rules.
//!
//! The usage and cost branches run concurrently outside the library, each
//! under its own deadline; each ends as a value, a client error, or a
//! timeout. The merge turns each branch into an independent value/error
//! field pair — no field depends on another field's success, so a caller
//! can always render partial data — and passes the post-fetch history and
//! the wall-clock stamp through untouched.

use vstd::prelude::*;

use crate::costs::CostData;
use crate::errors::KeychainError;
use crate::history::UsageSnapshot;
use crate::usage::UsageData;

verus! {

/// How one fetch branch ended. A timeout is kept distinct from an error
/// the client itself raised.
#[derive(Debug, Clone, PartialEq, Eq)]
pub enum BranchOutcome<T> {
    /// The branch produced its value within its deadline.
    Value(T),
    /// The client failed; the display string of its error.
    BranchError(String),
    /// The deadline passed first; the underlying call is abandoned.
    TimedOut,
}

/// The display string of a timed-out branch.
pub open spec fn timeout_message() -> Seq<char> {
    "Request timed out"@
}

/// The unified result of a usage refresh. Four independent optional
/// fields; the history list is populated whether or not the live fetch
/// succeeded.
#[derive(Debug, Clone, PartialEq, Eq)]
pub struct UsageResult {
    pub usage: Option<UsageData>,
    pub usage_error: Option<String>,
    pub usage_history: Option<Vec<UsageSnapshot>>,
    /// Wall-clock stamp of the refresh.
    pub timestamp: String,
}

/// The unified result of a cost refresh.
#[derive(Debug, Clone, PartialEq, Eq)]
pub struct CostsResult {
    pub costs: Option<CostData>,
    pub costs_error: Option<String>,
}

/// Splits a branch outcome into its value/error field pair: a value gives
/// (value, nothing); a client error gives (nothing, its message); a
/// timeout gives (nothing, the synthetic timeout message).
pub fn branch_fields<T>(outcome: BranchOutcome<T>) -> (r: (Option<T>, Option<String>))
    ensures
        outcome matches BranchOutcome::Value(v) ==> r.0 == Some(v) && r.1 is None,
        outcome matches BranchOutcome::BranchError(e) ==> r.0 is None && r.1 == Some(e),
        outcome is TimedOut ==> r.0 is None && (r.1 matches Some(t) && t@ == timeout_message()),
{
    match outcome {
        BranchOutcome::Value(v) => (Some(v), None),
        BranchOutcome::BranchError(e) => (None, Some(e)),
        BranchOutcome::TimedOut => (None, Some(String::from_str("Request timed out"))),
    }
}

/// Merges the usage branch with the read-back history and the wall-clock
/// stamp. The history and stamp are passed through whatever the branch
/// did, so partial failure still renders the latest known trend.
pub fn assemble_usage_result(
    outcome: BranchOutcome<UsageData>,
    usage_history: Option<Vec<UsageSnapshot>>,
    timestamp: String,
) -> (r: UsageResult)
    ensures
        outcome matches BranchOutcome::Value(d) ==> r.usage == Some(d) && r.usage_error is None,
        outcome matches BranchOutcome::BranchError(e) ==> r.usage is None && r.usage_error
            == Some(e),
        outcome is TimedOut ==> r.usage is None && (r.usage_error matches Some(t) && t@
            == timeout_message()),
        r.usage_history == usage_history,
        r.timestamp == timestamp,
{
    let (usage, usage_error) = branch_fields(outcome);
    UsageResult { usage, usage_error, usage_history, timestamp }
}

/// Merges the cost branch into its result pair.
pub fn assemble_costs_result(outcome: BranchOutcome<CostData>) -> (r: CostsResult)
    ensures
        outcome matches BranchOutcome::Value(d) ==> r.costs == Some(d) && r.costs_error is None,
        outcome matches BranchOutcome::BranchError(e) ==> r.costs is None && r.costs_error
            == Some(e),
        outcome is TimedOut ==> r.costs is None && (r.costs_error matches Some(t) && t@
            == timeout_message()),
{
    let (costs, costs_error) = branch_fields(outcome);
    CostsResult { costs, costs_error }
}

/// What an update check reports to the UI.
#[derive(Debug, Clone, PartialEq, Eq)]
pub struct UpdateInfo {
    pub current_version: String,
    pub latest_version: String,
    pub update_available: bool,
    pub release_notes: Option<String>,
}

/// Folds an update checker's finding into the report: a found update
/// carries its version and notes; no update reports the current version as
/// latest, with no notes.
pub fn make_update_info(current: String, found: Option<(String, Option<String>)>) -> (r:
    UpdateInfo)
    ensures
        r.current_version == current,
        match found {
            Some(u) => {
                &&& r.latest_version == u.0
                &&& r.update_available
                &&& r.release_notes == u.1
            },
            None => {
                &&& r.latest_version@ == current@
                &&& !r.update_available
                &&& r.release_notes is None
            },
        },
{
    match found {
        Some(u) => UpdateInfo {
            current_version: current,
            latest_version: u.0,
            update_available: true,
            release_notes: u.1,
        },
        None => {
            let latest = current.clone();
            UpdateInfo {
                current_version: current,
                latest_version: latest,
                update_available: false,
                release_notes: None,
            }
        },
    }
}

/// The usage branch of a run whose credential lookup failed: the branch
/// fails with the lookup error's display string, and no fetch is owed.
pub fn usage_branch_without_token(e: &KeychainError) -> (r: BranchOutcome<UsageData>)
    ensures
        r matches BranchOutcome::BranchError(m) && m@ == e.message_spec(),
{
    BranchOutcome::BranchError(e.message())
}

} // verus!
