use claudit::dates::{day_number, format_yyyymmdd, parse_date, prev_day, sub_days, Date};

#[test]
fn parse_date_accepts_well_formed_dates() {
    assert_eq!(parse_date("2024-01-02"), Some(Date { year: 2024, month: 1, day: 2 }));
    assert_eq!(parse_date("1999-12-31"), Some(Date { year: 1999, month: 12, day: 31 }));
    assert_eq!(parse_date("2024-02-29"), Some(Date { year: 2024, month: 2, day: 29 }));
    assert_eq!(parse_date("2000-02-29"), Some(Date { year: 2000, month: 2, day: 29 }));
}

#[test]
fn parse_date_rejects_malformed_text() {
    assert_eq!(parse_date(""), None);
    assert_eq!(parse_date("garbage"), None);
    assert_eq!(parse_date("2024-1-2"), None);
    assert_eq!(parse_date("2024/01/02"), None);
    assert_eq!(parse_date("2024-01-020"), None);
}

#[test]
fn parse_date_rejects_impossible_dates() {
    assert_eq!(parse_date("2024-13-01"), None);
    assert_eq!(parse_date("2024-00-10"), None);
    assert_eq!(parse_date("2024-02-30"), None);
    assert_eq!(parse_date("2023-02-29"), None);
    assert_eq!(parse_date("1900-02-29"), None);
    assert_eq!(parse_date("2024-04-31"), None);
    assert_eq!(parse_date("2024-01-00"), None);
}

#[test]
fn day_number_counts_from_the_unix_epoch() {
    assert_eq!(day_number(Date { year: 1970, month: 1, day: 1 }), 0);
    assert_eq!(day_number(Date { year: 1970, month: 1, day: 2 }), 1);
    assert_eq!(day_number(Date { year: 1969, month: 12, day: 31 }), -1);
    let d1 = day_number(Date { year: 2024, month: 1, day: 1 });
    let d2 = day_number(Date { year: 2024, month: 1, day: 2 });
    assert_eq!(d2 - d1, 1);
    // across the leap day
    let feb28 = day_number(Date { year: 2024, month: 2, day: 28 });
    let mar01 = day_number(Date { year: 2024, month: 3, day: 1 });
    assert_eq!(mar01 - feb28, 2);
}

#[test]
fn prev_day_crosses_month_and_year_boundaries() {
    assert_eq!(
        prev_day(Date { year: 2024, month: 3, day: 1 }),
        Date { year: 2024, month: 2, day: 29 }
    );
    assert_eq!(
        prev_day(Date { year: 2023, month: 3, day: 1 }),
        Date { year: 2023, month: 2, day: 28 }
    );
    assert_eq!(
        prev_day(Date { year: 2024, month: 1, day: 1 }),
        Date { year: 2023, month: 12, day: 31 }
    );
}

#[test]
fn sub_days_thirty_day_lookback() {
    let today = Date { year: 2024, month: 3, day: 1 };
    assert_eq!(sub_days(today, 30), Date { year: 2024, month: 1, day: 31 });
    assert_eq!(sub_days(today, 0), today);
    assert_eq!(sub_days(Date { year: 2024, month: 1, day: 8 }, 7), Date { year: 2024, month: 1, day: 1 });
}

#[test]
fn format_yyyymmdd_zero_pads_every_field() {
    assert_eq!(format_yyyymmdd(Date { year: 2024, month: 1, day: 31 }), "20240131");
    assert_eq!(format_yyyymmdd(Date { year: 987, month: 6, day: 5 }), "09870605");
}
