//! Usage-bucket normalization.
//!
//! The usage endpoint reports a handful of optional named buckets, each with
//! a utilization figure, plus optional overflow-billing and plan fields. The
//! engine folds them into an ordered list of labelled limits, skipping any
//! bucket that reports no utilization. Utilization is carried in
//! ten-thousandths of full usage (the endpoint's 0-100 percentage times one
//! hundred); credit amounts are carried in cents.

use vstd::prelude::*;

use crate::text::{dec_u32, spec_dec};

verus! {

/// One normalized usage limit.
#[derive(Debug, Clone, PartialEq, Eq)]
pub struct UsageLimit {
    pub label: String,
    /// Usage in ten-thousandths of full usage: 10000 is a fully used limit.
    pub usage_bp: u32,
    pub reset_at: Option<String>,
}

/// The overflow-billing block, present only when the upstream reports
/// overage billing as enabled. Amounts are in cents.
#[derive(Debug, Clone, Copy, PartialEq, Eq, Structural)]
pub struct ExtraUsageInfo {
    pub enabled: bool,
    pub monthly_limit_cents: i64,
    pub used_credits_cents: i64,
    pub utilization_bp: u32,
}

/// One fetch's worth of normalized usage. Transient: never persisted whole;
/// only the bucket percentages flow into history snapshots.
#[derive(Debug, Clone, PartialEq, Eq)]
pub struct UsageData {
    pub limits: Vec<UsageLimit>,
    pub extra_usage: Option<ExtraUsageInfo>,
    pub plan: Option<String>,
}

/// A bucket as the endpoint reports it.
#[derive(Debug, Clone, PartialEq, Eq)]
pub struct BucketReading {
    pub utilization_bp: Option<u32>,
    pub resets_at: Option<String>,
}

/// The overflow-billing block as the endpoint reports it.
#[derive(Debug, Clone, PartialEq, Eq)]
pub struct ExtraUsageReading {
    pub is_enabled: Option<bool>,
    pub monthly_limit_cents: Option<i64>,
    pub used_credits_cents: Option<i64>,
    pub utilization_bp: Option<u32>,
}

/// The fields of the endpoint's response that the engine reads.
#[derive(Debug, Clone, PartialEq, Eq)]
pub struct UsageReport {
    pub five_hour: Option<BucketReading>,
    pub seven_day: Option<BucketReading>,
    pub seven_day_opus: Option<BucketReading>,
    pub seven_day_sonnet: Option<BucketReading>,
    pub extra_usage: Option<ExtraUsageReading>,
    pub tier: Option<String>,
    pub plan: Option<String>,
    pub membership_tier: Option<String>,
    pub membership_plan_name: Option<String>,
}

pub open spec fn opt_view(o: Option<String>) -> Option<Seq<char>> {
    match o {
        Some(s) => Some(s@),
        None => None,
    }
}

pub open spec fn session_label() -> Seq<char> {
    "Current session"@
}

pub open spec fn week_all_label() -> Seq<char> {
    "Current week (all models)"@
}

pub open spec fn week_sonnet_label() -> Seq<char> {
    "Current week (Sonnet only)"@
}

pub open spec fn week_opus_label() -> Seq<char> {
    "Current week (Opus only)"@
}

/// The labelled readings a report contributes, in presentation order; a
/// bucket without a utilization figure contributes nothing.
pub open spec fn maybe_bucket(b: Option<BucketReading>, label: Seq<char>) -> Seq<
    (Seq<char>, BucketReading),
> {
    match b {
        Some(br) => if br.utilization_bp is Some {
            seq![(label, br)]
        } else {
            seq![]
        },
        None => seq![],
    }
}

pub open spec fn included_buckets(rep: UsageReport) -> Seq<(Seq<char>, BucketReading)> {
    maybe_bucket(rep.five_hour, session_label()) + maybe_bucket(
        rep.seven_day,
        week_all_label(),
    ) + maybe_bucket(rep.seven_day_sonnet, week_sonnet_label()) + maybe_bucket(
        rep.seven_day_opus,
        week_opus_label(),
    )
}

/// Whether a normalized limit carries exactly a labelled reading.
pub open spec fn limit_models(l: UsageLimit, label: Seq<char>, b: BucketReading) -> bool {
    &&& l.label@ == label
    &&& b.utilization_bp matches Some(u) && l.usage_bp == u
    &&& opt_view(l.reset_at) == opt_view(b.resets_at)
}

/// The normalized overflow-billing block: present only when the reading says
/// overage billing is enabled; absent figures default to zero.
pub open spec fn spec_extra_usage(e: Option<ExtraUsageReading>) -> Option<ExtraUsageInfo> {
    match e {
        Some(eu) => if eu.is_enabled == Some(true) {
            Some(
                ExtraUsageInfo {
                    enabled: true,
                    monthly_limit_cents: match eu.monthly_limit_cents {
                        Some(v) => v,
                        None => 0,
                    },
                    used_credits_cents: match eu.used_credits_cents {
                        Some(v) => v,
                        None => 0,
                    },
                    utilization_bp: match eu.utilization_bp {
                        Some(v) => v,
                        None => 0,
                    },
                },
            )
        } else {
            None
        },
        None => None,
    }
}

/// The plan label: the first present candidate, in the fixed order plan,
/// tier, membership plan name, membership tier.
pub open spec fn spec_plan(rep: UsageReport) -> Option<Seq<char>> {
    if rep.plan is Some {
        opt_view(rep.plan)
    } else if rep.tier is Some {
        opt_view(rep.tier)
    } else if rep.membership_plan_name is Some {
        opt_view(rep.membership_plan_name)
    } else {
        opt_view(rep.membership_tier)
    }
}

fn clone_opt_string(o: &Option<String>) -> (r: Option<String>)
    ensures
        opt_view(r) == opt_view(*o),
{
    match o {
        Some(s) => Some(s.clone()),
        None => None,
    }
}

/// Appends the limit a labelled reading normalizes to, if the reading
/// carries a utilization figure.
fn push_bucket(limits: &mut Vec<UsageLimit>, bucket: &Option<BucketReading>, label: &str)
    ensures
        maybe_bucket(*bucket, label@).len() == 0 ==> final(limits)@ == old(limits)@,
        maybe_bucket(*bucket, label@).len() == 1 ==> {
            &&& final(limits)@.len() == old(limits)@.len() + 1
            &&& final(limits)@.drop_last() == old(limits)@
            &&& limit_models(
                final(limits)@.last(),
                maybe_bucket(*bucket, label@)[0].0,
                maybe_bucket(*bucket, label@)[0].1,
            )
        },
{
    match bucket {
        Some(b) => {
            match b.utilization_bp {
                Some(u) => {
                    let lim = UsageLimit {
                        label: String::from_str(label),
                        usage_bp: u,
                        reset_at: clone_opt_string(&b.resets_at),
                    };
                    limits.push(lim);
                },
                None => {},
            }
        },
        None => {},
    }
}

/// Folds a report into the normalized usage model: the four known buckets in
/// presentation order (skipping unreported utilization), the gated
/// overflow-billing block, and the first-present plan label.
pub fn normalize_usage(rep: &UsageReport) -> (r: UsageData)
    ensures
        r.limits@.len() == included_buckets(*rep).len(),
        forall|i: int|
            0 <= i < r.limits@.len() ==> limit_models(
                #[trigger] r.limits@[i],
                included_buckets(*rep)[i].0,
                included_buckets(*rep)[i].1,
            ),
        r.extra_usage == spec_extra_usage(rep.extra_usage),
        opt_view(r.plan) == spec_plan(*rep),
{
    let mut limits: Vec<UsageLimit> = Vec::new();
    push_bucket(&mut limits, &rep.five_hour, "Current session");
    push_bucket(&mut limits, &rep.seven_day, "Current week (all models)");
    push_bucket(&mut limits, &rep.seven_day_sonnet, "Current week (Sonnet only)");
    push_bucket(&mut limits, &rep.seven_day_opus, "Current week (Opus only)");
    proof {
        assert forall|i: int| 0 <= i < limits@.len() implies limit_models(
            #[trigger] limits@[i],
            included_buckets(*rep)[i].0,
            included_buckets(*rep)[i].1,
        ) by {
            assert(included_buckets(*rep) == maybe_bucket(rep.five_hour, session_label())
                + maybe_bucket(rep.seven_day, week_all_label()) + maybe_bucket(
                rep.seven_day_sonnet,
                week_sonnet_label(),
            ) + maybe_bucket(rep.seven_day_opus, week_opus_label()));
        }
    }
    let extra_usage: Option<ExtraUsageInfo> = match &rep.extra_usage {
        Some(eu) => {
            match eu.is_enabled {
                Some(true) => Some(
                    ExtraUsageInfo {
                        enabled: true,
                        monthly_limit_cents: match eu.monthly_limit_cents {
                            Some(v) => v,
                            None => 0,
                        },
                        used_credits_cents: match eu.used_credits_cents {
                            Some(v) => v,
                            None => 0,
                        },
                        utilization_bp: match eu.utilization_bp {
                            Some(v) => v,
                            None => 0,
                        },
                    },
                ),
                _ => None,
            }
        },
        None => None,
    };
    let plan: Option<String> = if rep.plan.is_some() {
        clone_opt_string(&rep.plan)
    } else if rep.tier.is_some() {
        clone_opt_string(&rep.tier)
    } else if rep.membership_plan_name.is_some() {
        clone_opt_string(&rep.membership_plan_name)
    } else {
        clone_opt_string(&rep.membership_tier)
    };
    UsageData { limits, extra_usage, plan }
}

/// How an HTTP status of the usage endpoint is classified.
#[derive(Debug, Clone, Copy, PartialEq, Eq, Structural)]
pub enum StatusClass {
    /// A success status: the body is worth decoding.
    Success,
    /// 401 or 403: the token is stale; re-auth, do not retry.
    Unauthorized,
    /// Any other non-success status: transient, retry on the next refresh.
    HttpFailure,
}

pub open spec fn spec_classify_status(status: u16) -> StatusClass {
    if status == 401 || status == 403 {
        StatusClass::Unauthorized
    } else if 200 <= status < 300 {
        StatusClass::Success
    } else {
        StatusClass::HttpFailure
    }
}

pub fn classify_status(status: u16) -> (r: StatusClass)
    ensures
        r == spec_classify_status(status),
{
    if status == 401 || status == 403 {
        StatusClass::Unauthorized
    } else if 200 <= status && status < 300 {
        StatusClass::Success
    } else {
        StatusClass::HttpFailure
    }
}

/// Whether position `ix` holds the first session limit of the list.
pub open spec fn first_session_at(s: Seq<UsageLimit>, ix: int) -> bool {
    &&& 0 <= ix < s.len()
    &&& s[ix].label@ == session_label()
    &&& forall|j: int| 0 <= j < ix ==> (#[trigger] s[j]).label@ != session_label()
}

/// Finds the first limit labelled as the current session.
pub fn find_session_index(limits: &Vec<UsageLimit>) -> (r: Option<usize>)
    ensures
        match r {
            Some(ix) => first_session_at(limits@, ix as int),
            None => forall|j: int|
                0 <= j < limits@.len() ==> (#[trigger] limits@[j]).label@ != session_label(),
        },
{
    let target = String::from_str("Current session");
    let n = limits.len();
    let mut i: usize = 0;
    while i < n
        invariant
            n == limits@.len(),
            i <= n,
            target@ == session_label(),
            forall|j: int| 0 <= j < i ==> (#[trigger] limits@[j]).label@ != session_label(),
        decreases n - i,
    {
        if limits[i].label == target {
            return Some(i);
        }
        i = i + 1;
    }
    None
}

/// The first limit labelled as the current session, if any.
pub open spec fn spec_session(s: Seq<UsageLimit>) -> Option<UsageLimit>
    decreases s.len(),
{
    if s.len() == 0 {
        None
    } else if s.first().label@ == session_label() {
        Some(s.first())
    } else {
        spec_session(s.drop_first())
    }
}

/// The first session position holds exactly the limit `spec_session` names.
pub proof fn lemma_first_session_spec(s: Seq<UsageLimit>, ix: int)
    requires
        first_session_at(s, ix),
    ensures
        spec_session(s) == Some(s[ix]),
    decreases s.len(),
{
    if ix == 0 {
        assert(s.first() == s[0]);
    } else {
        assert(s[0].label@ != session_label());
        assert(s.first() == s[0]);
        assert(first_session_at(s.drop_first(), ix - 1)) by {
            assert(s.drop_first()[ix - 1] == s[ix]);
            assert forall|j: int| 0 <= j < ix - 1 implies (#[trigger] s.drop_first()[j]).label@
                != session_label() by {
                assert(s.drop_first()[j] == s[j + 1]);
            }
        }
        lemma_first_session_spec(s.drop_first(), ix - 1);
        assert(s.drop_first()[ix - 1] == s[ix]);
    }
}

/// Without a session-labelled limit there is no session.
pub proof fn lemma_no_session_spec(s: Seq<UsageLimit>)
    requires
        forall|j: int| 0 <= j < s.len() ==> (#[trigger] s[j]).label@ != session_label(),
    ensures
        spec_session(s) is None,
    decreases s.len(),
{
    if s.len() > 0 {
        assert(s.first() == s[0]);
        assert forall|j: int|
            0 <= j < s.drop_first().len() implies (#[trigger] s.drop_first()[j]).label@
                != session_label() by {
            assert(s.drop_first()[j] == s[j + 1]);
        }
        lemma_no_session_spec(s.drop_first());
    }
}

/// The tray title: the whole-percent usage of the first session limit,
/// followed by a percent sign; absent when no session limit was reported.
pub fn tray_title(data: &UsageData) -> (r: Option<String>)
    ensures
        r is Some <==> exists|ix: int| first_session_at(data.limits@, ix),
        r matches Some(t) ==> exists|ix: int|
            #[trigger] first_session_at(data.limits@, ix) && t@ == spec_dec(
                (data.limits@[ix].usage_bp / 100) as int,
            ) + "%"@,
{
    match find_session_index(&data.limits) {
        Some(ix) => {
            let pct: u32 = data.limits[ix].usage_bp / 100;
            let t = dec_u32(pct).concat("%");
            assert(first_session_at(data.limits@, ix as int));
            Some(t)
        },
        None => {
            assert(forall|ix: int| !first_session_at(data.limits@, ix));
            None
        },
    }
}

} // verus!
