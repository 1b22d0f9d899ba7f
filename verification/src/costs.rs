//! Cost report aggregation and the single-slot cost cache.
//!
//! The external cost tool reports one row per day, each with a `YYYY-MM-DD`
//! date string and a spend amount. Amounts are carried in ten-thousandths of
//! a dollar so that sums are exact; the three aggregates are rounded to whole
//! cents, half away from zero, as the report presents them. The cache holds
//! the one most recent aggregate and serves reads younger than its
//! time-to-live without a new fetch.

use vstd::prelude::*;

use crate::dates::{day_number, parse_date, spec_day_number, spec_parse_date, valid_date, Date};

verus! {

/// Cache time-to-live in milliseconds.
pub const COST_CACHE_TTL_MS: u64 = 300000;

/// Largest per-row spend the aggregator accepts, in ten-thousandths of a
/// dollar (one hundred million dollars a day).
pub const MAX_ROW_COST_E4: i64 = 1000000000000;

/// Most report rows the aggregator accepts.
pub const MAX_ROWS: usize = 100000;

/// Aggregated spend, in whole cents.
#[derive(Debug, Clone, Copy, PartialEq, Eq, Structural)]
pub struct CostData {
    pub today: i64,
    pub week: i64,
    pub month: i64,
}

/// One row of the daily cost report. A missing amount counts as zero; a
/// missing or malformed date keeps the row out of the week and today
/// aggregates but not out of the month total.
#[derive(Debug, Clone, PartialEq, Eq)]
pub struct DailyEntry {
    pub date: Option<String>,
    pub cost_e4: Option<i64>,
}

/// The spend of a row, in ten-thousandths of a dollar.
pub open spec fn entry_cost(e: DailyEntry) -> int {
    match e.cost_e4 {
        Some(c) => c as int,
        None => 0,
    }
}

/// The date a row names, if its date string is a well-formed calendar date.
pub open spec fn entry_date(e: DailyEntry) -> Option<Date> {
    match e.date {
        Some(s) => spec_parse_date(s@),
        None => None,
    }
}

/// Whether a row falls in the trailing week: its date parses and lies no
/// more than seven days before today (future dates included).
pub open spec fn in_week(e: DailyEntry, today: Date) -> bool {
    match entry_date(e) {
        Some(d) => spec_day_number(d) >= spec_day_number(today) - 7,
        None => false,
    }
}

/// Whether a row names today's date.
pub open spec fn is_today_row(e: DailyEntry, today: Date) -> bool {
    entry_date(e) == Some(today)
}

/// Sum of all row amounts.
pub open spec fn sum_month(s: Seq<DailyEntry>) -> int
    decreases s.len(),
{
    if s.len() == 0 {
        0
    } else {
        sum_month(s.drop_last()) + entry_cost(s.last())
    }
}

/// Sum of the amounts of rows in the trailing week.
pub open spec fn sum_week(s: Seq<DailyEntry>, today: Date) -> int
    decreases s.len(),
{
    if s.len() == 0 {
        0
    } else {
        sum_week(s.drop_last(), today) + if in_week(s.last(), today) {
            entry_cost(s.last())
        } else {
            0
        }
    }
}

/// The amount of the last row naming today, or zero if none does. When the
/// report repeats a day, the last row wins; amounts for today are never
/// summed.
pub open spec fn today_cost(s: Seq<DailyEntry>, today: Date) -> int
    decreases s.len(),
{
    if s.len() == 0 {
        0
    } else if is_today_row(s.last(), today) {
        entry_cost(s.last())
    } else {
        today_cost(s.drop_last(), today)
    }
}

/// Ten-thousandths of a dollar rounded to whole cents, half away from zero.
pub open spec fn spec_round_cents(x: int) -> int {
    if x >= 0 {
        (x + 50) / 100
    } else {
        -((-x + 50) / 100)
    }
}

pub fn round_cents(x: i64) -> (r: i64)
    requires
        -0x4000_0000_0000_0000 <= x <= 0x4000_0000_0000_0000,
    ensures
        r == spec_round_cents(x as int),
{
    if x >= 0 {
        (((x as u64) + 50) / 100) as i64
    } else {
        let m = ((-x) as u64 + 50) / 100;
        -(m as i64)
    }
}

pub open spec fn row_cost_bounded(e: DailyEntry) -> bool {
    -MAX_ROW_COST_E4 <= entry_cost(e) <= MAX_ROW_COST_E4
}

/// Folds the daily report into the three aggregates: `month` sums every
/// row, `week` sums the rows dated within the last seven days, `today` takes
/// the last row dated today; each is rounded to whole cents.
pub fn aggregate_costs(entries: &Vec<DailyEntry>, today: Date) -> (r: CostData)
    requires
        valid_date(today),
        entries@.len() <= MAX_ROWS,
        forall|i: int| 0 <= i < entries@.len() ==> row_cost_bounded(#[trigger] entries@[i]),
    ensures
        r.month == spec_round_cents(sum_month(entries@)),
        r.week == spec_round_cents(sum_week(entries@, today)),
        r.today == spec_round_cents(today_cost(entries@, today)),
{
    let today_num: i64 = day_number(today);
    let mut month_e4: i64 = 0;
    let mut week_e4: i64 = 0;
    let mut today_e4: i64 = 0;
    let n = entries.len();
    let mut i: usize = 0;
    while i < n
        invariant
            n == entries@.len(),
            i <= n,
            valid_date(today),
            today_num == spec_day_number(today),
            entries@.len() <= MAX_ROWS,
            forall|j: int| 0 <= j < entries@.len() ==> row_cost_bounded(#[trigger] entries@[j]),
            month_e4 == sum_month(entries@.take(i as int)),
            week_e4 == sum_week(entries@.take(i as int), today),
            today_e4 == today_cost(entries@.take(i as int), today),
            -(i as int) * MAX_ROW_COST_E4 <= month_e4 <= (i as int) * MAX_ROW_COST_E4,
            -(i as int) * MAX_ROW_COST_E4 <= week_e4 <= (i as int) * MAX_ROW_COST_E4,
            -MAX_ROW_COST_E4 <= today_e4 <= MAX_ROW_COST_E4,
        decreases n - i,
    {
        let e = &entries[i];
        let cost: i64 = match e.cost_e4 {
            Some(c) => c,
            None => 0,
        };
        let parsed: Option<Date> = match &e.date {
            Some(ds) => parse_date(ds.as_str()),
            None => None,
        };
        month_e4 = month_e4 + cost;
        match parsed {
            Some(dt) => {
                let dn = day_number(dt);
                if dn >= today_num - 7 {
                    week_e4 = week_e4 + cost;
                }
                if dt == today {
                    today_e4 = cost;
                }
            },
            None => {},
        }
        proof {
            assert(entries@.take(i + 1).drop_last() =~= entries@.take(i as int));
            assert(entries@.take(i + 1).last() == entries@[i as int]);
        }
        i = i + 1;
    }
    proof {
        assert(entries@.take(n as int) =~= entries@);
    }
    CostData {
        today: round_cents(today_e4),
        week: round_cents(week_e4),
        month: round_cents(month_e4),
    }
}

/// How old a cache entry written at `t` is at `now`; a clock that has not
/// advanced past the write reads as age zero.
pub open spec fn cache_age(t: u64, now: u64) -> int {
    if now >= t {
        now - t
    } else {
        0
    }
}

/// What a cache read returns: the stored value while its age is below the
/// time-to-live, and nothing otherwise or before any write.
pub open spec fn spec_cache_lookup(slot: Option<(u64, CostData)>, now_ms: u64) -> Option<
    CostData,
> {
    match slot {
        Some((t, v)) => if cache_age(t, now_ms) < COST_CACHE_TTL_MS {
            Some(v)
        } else {
            None
        },
        None => None,
    }
}

/// The single-slot cost cache: at most one aggregate, stamped with the
/// monotonic time of its write.
#[derive(Debug, Clone)]
pub struct CostCache {
    slot: Option<(u64, CostData)>,
}

impl CostCache {
    /// The cache's abstract state: the stamped entry, if any.
    pub closed spec fn model(&self) -> Option<(u64, CostData)> {
        self.slot
    }

    pub fn new() -> (r: CostCache)
        ensures
            r.model() is None,
    {
        CostCache { slot: None }
    }

    /// Returns the cached aggregate only while it is fresh.
    pub fn get(&self, now_ms: u64) -> (r: Option<CostData>)
        ensures
            r == spec_cache_lookup(self.model(), now_ms),
    {
        match &self.slot {
            Some((t, v)) => {
                let age = if now_ms >= *t {
                    now_ms - *t
                } else {
                    0
                };
                if age < COST_CACHE_TTL_MS {
                    Some(*v)
                } else {
                    None
                }
            },
            None => None,
        }
    }

    /// Overwrites the slot unconditionally with the given stamp and value.
    pub fn set(&mut self, now_ms: u64, data: CostData)
        ensures
            final(self).model() == Some((now_ms, data)),
    {
        self.slot = Some((now_ms, data));
    }
}

/// Aggregates a freshly fetched report and writes the result back into the
/// cache, so that cache population is a side effect of every completed
/// fetch.
pub fn finish_cost_fetch(
    cache: &mut CostCache,
    now_ms: u64,
    entries: &Vec<DailyEntry>,
    today: Date,
) -> (r: CostData)
    requires
        valid_date(today),
        entries@.len() <= MAX_ROWS,
        forall|i: int| 0 <= i < entries@.len() ==> row_cost_bounded(#[trigger] entries@[i]),
    ensures
        r.month == spec_round_cents(sum_month(entries@)),
        r.week == spec_round_cents(sum_week(entries@, today)),
        r.today == spec_round_cents(today_cost(entries@, today)),
        final(cache).model() == Some((now_ms, r)),
{
    let costs = aggregate_costs(entries, today);
    cache.set(now_ms, costs);
    costs
}

/// Time-to-live law of the cache: a read within the time-to-live of a write
/// returns the written value; a read at or past it, with no intervening
/// write, returns nothing; a read of an empty cache returns nothing.
pub proof fn lemma_cache_ttl(t: u64, v: CostData, t2: u64)
    ensures
        t <= t2 && (t2 as int) < t + COST_CACHE_TTL_MS ==> spec_cache_lookup(Some((t, v)), t2)
            == Some(v),
        (t2 as int) >= t + COST_CACHE_TTL_MS ==> spec_cache_lookup(Some((t, v)), t2) is None,
        spec_cache_lookup(None, t2) is None,
{
}

/// A row without a well-formed date contributes its amount to the month
/// total and to nothing else.
pub proof fn lemma_malformed_row_only_month(s: Seq<DailyEntry>, e: DailyEntry, today: Date)
    requires
        entry_date(e) is None,
    ensures
        sum_month(s.push(e)) == sum_month(s) + entry_cost(e),
        sum_week(s.push(e), today) == sum_week(s, today),
        today_cost(s.push(e), today) == today_cost(s, today),
{
    assert(s.push(e).drop_last() =~= s);
    assert(s.push(e).last() == e);
}

/// When the report repeats today's date, the last row wins outright.
pub proof fn lemma_today_last_row_wins(s: Seq<DailyEntry>, e: DailyEntry, today: Date)
    requires
        is_today_row(e, today),
    ensures
        today_cost(s.push(e), today) == entry_cost(e),
{
    assert(s.push(e).last() == e);
}

} // verus!
