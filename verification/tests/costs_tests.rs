use claudit::costs::{aggregate_costs, finish_cost_fetch, round_cents, CostCache, CostData, DailyEntry};
use claudit::dates::Date;

fn entry(date: Option<&str>, cost_e4: Option<i64>) -> DailyEntry {
    DailyEntry { date: date.map(|s| s.to_string()), cost_e4 }
}

#[test]
fn cost_cache_fresh_read_returns_value() {
    let mut cache = CostCache::new();
    let v = CostData { today: 500, week: 1500, month: 1500 };
    cache.set(1000, v);
    assert_eq!(cache.get(1000), Some(v));
    assert_eq!(cache.get(1000 + 299_999), Some(v));
}

#[test]
fn cost_cache_expired_read_returns_nothing() {
    let mut cache = CostCache::new();
    let v = CostData { today: 1, week: 2, month: 3 };
    cache.set(1000, v);
    assert_eq!(cache.get(1000 + 300_000), None);
    assert_eq!(cache.get(1000 + 400_000), None);
}

#[test]
fn cost_cache_empty_read_returns_nothing() {
    let cache = CostCache::new();
    assert_eq!(cache.get(0), None);
    assert_eq!(cache.get(u64::MAX), None);
}

#[test]
fn cost_aggregation_two_days() {
    // 10.00 on the first day, 5.00 on the second; today is the second day
    let entries = vec![
        entry(Some("2024-01-01"), Some(100_000)),
        entry(Some("2024-01-02"), Some(50_000)),
    ];
    let today = Date { year: 2024, month: 1, day: 2 };
    let c = aggregate_costs(&entries, today);
    assert_eq!(c.month, 1500);
    assert_eq!(c.week, 1500);
    assert_eq!(c.today, 500);
}

#[test]
fn cost_aggregation_malformed_date_only_counts_toward_month() {
    let entries = vec![
        entry(Some("2024-01-02"), Some(50_000)),
        entry(Some("garbage"), Some(70_000)),
        entry(None, Some(10_000)),
    ];
    let today = Date { year: 2024, month: 1, day: 2 };
    let c = aggregate_costs(&entries, today);
    assert_eq!(c.month, 1300);
    assert_eq!(c.week, 500);
    assert_eq!(c.today, 500);
}

#[test]
fn cost_aggregation_duplicate_today_last_row_wins() {
    let entries = vec![
        entry(Some("2024-01-02"), Some(100_000)),
        entry(Some("2024-01-02"), Some(50_000)),
    ];
    let today = Date { year: 2024, month: 1, day: 2 };
    let c = aggregate_costs(&entries, today);
    assert_eq!(c.today, 500);
    assert_eq!(c.month, 1500);
}

#[test]
fn cost_aggregation_week_window_boundary() {
    // seven days before today is inside the week; eight days is outside
    let entries = vec![
        entry(Some("2024-01-03"), Some(10_000)),
        entry(Some("2024-01-02"), Some(20_000)),
        entry(Some("2024-01-10"), Some(40_000)),
    ];
    let today = Date { year: 2024, month: 1, day: 10 };
    let c = aggregate_costs(&entries, today);
    assert_eq!(c.month, 700);
    assert_eq!(c.week, 500);
    assert_eq!(c.today, 400);
}

#[test]
fn cost_rounding_half_away_from_zero() {
    assert_eq!(round_cents(50), 1);
    assert_eq!(round_cents(49), 0);
    assert_eq!(round_cents(-50), -1);
    assert_eq!(round_cents(-49), 0);
    assert_eq!(round_cents(12_345), 123);
    // a 0.005-dollar day rounds up to one cent
    let entries = vec![entry(Some("2024-01-02"), Some(50))];
    let today = Date { year: 2024, month: 1, day: 2 };
    let c = aggregate_costs(&entries, today);
    assert_eq!(c.month, 1);
    assert_eq!(c.today, 1);
}

#[test]
fn finish_cost_fetch_populates_cache() {
    let mut cache = CostCache::new();
    let entries = vec![entry(Some("2024-01-02"), Some(50_000))];
    let today = Date { year: 2024, month: 1, day: 2 };
    let c = finish_cost_fetch(&mut cache, 7000, &entries, today);
    assert_eq!(c.today, 500);
    assert_eq!(cache.get(7000), Some(c));
    assert_eq!(cache.get(7000 + 299_999), Some(c));
    assert_eq!(cache.get(7000 + 300_000), None);
}
