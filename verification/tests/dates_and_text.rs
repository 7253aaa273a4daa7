use chrono::NaiveDate;
use nonthok_cashflow::calendar::{within_earnings_window, CalendarDate};
use nonthok_cashflow::chain::dte_window_bounds;
use nonthok_cashflow::text::{parse_i64, parse_u32, str_equal, str_starts_with};

fn date(y: i32, m: u32, d: u32) -> CalendarDate {
    CalendarDate::from_ymd_opt(y, m, d).unwrap()
}

#[test]
fn calendar_dates_follow_the_gregorian_rules() {
    assert!(CalendarDate::from_ymd_opt(2015, 3, 14).is_some());
    assert!(CalendarDate::from_ymd_opt(2015, 0, 14).is_none());
    assert!(CalendarDate::from_ymd_opt(2015, 2, 29).is_none());
    assert!(CalendarDate::from_ymd_opt(2024, 2, 29).is_some());
    assert!(CalendarDate::from_ymd_opt(1900, 2, 29).is_none());
    assert!(CalendarDate::from_ymd_opt(2000, 2, 29).is_some());
    assert!(CalendarDate::from_ymd_opt(400000, 1, 1).is_none());
    let d = date(2026, 4, 4);
    assert_eq!((d.year(), d.month(), d.day()), (2026, 4, 4));
}

#[test]
fn days_since_counts_calendar_days() {
    assert_eq!(date(2026, 5, 1).days_since(&date(2026, 4, 15)), 16);
    assert_eq!(date(2026, 4, 15).days_since(&date(2026, 5, 1)), -16);
    assert_eq!(date(2025, 1, 1).days_since(&date(2024, 1, 1)), 366);
}

#[test]
fn earnings_window_spans_two_days_before_to_seven_after() {
    assert!(within_earnings_window(&date(2026, 4, 15)));
    assert!(within_earnings_window(&date(2026, 4, 13)));
    assert!(!within_earnings_window(&date(2026, 4, 12)));
    assert!(within_earnings_window(&date(2026, 4, 22)));
    assert!(!within_earnings_window(&date(2026, 4, 23)));
    assert!(within_earnings_window(&date(2026, 1, 20)));
    assert!(within_earnings_window(&date(2026, 10, 12)));
    assert!(!within_earnings_window(&date(2026, 5, 1)));
    assert!(!within_earnings_window(&date(2025, 4, 15)));
}

#[test]
fn integers_parse_like_str_parse() {
    assert_eq!(parse_i64("100"), Some(100));
    assert_eq!(parse_i64("+7"), Some(7));
    assert_eq!(parse_i64("-250"), Some(-250));
    assert_eq!(parse_i64("9223372036854775807"), Some(i64::MAX));
    assert_eq!(parse_i64("-9223372036854775808"), Some(i64::MIN));
    assert_eq!(parse_i64("9223372036854775808"), None);
    assert_eq!(parse_i64("100.0"), None);
    assert_eq!(parse_i64(""), None);
    assert_eq!(parse_i64("-"), None);
    assert_eq!(parse_i64(" 1"), None);
    assert_eq!(parse_u32("21"), Some(21));
    assert_eq!(parse_u32("+30"), Some(30));
    assert_eq!(parse_u32("-1"), None);
    assert_eq!(parse_u32("4294967295"), Some(u32::MAX));
    assert_eq!(parse_u32("4294967296"), None);
    for s in ["0", "42", "+5", "-5", "x", "", "+", "18446744073709551616"] {
        assert_eq!(parse_i64(s), s.parse::<i64>().ok(), "{s}");
        assert_eq!(parse_u32(s), s.parse::<u32>().ok(), "{s}");
    }
}

#[test]
fn string_comparisons() {
    assert!(str_equal("OPASN", "OPASN"));
    assert!(!str_equal("OPASN", "OPEXP"));
    assert!(!str_equal("OPASN", "OPASN "));
    assert!(str_starts_with("BAC260404P00038000", "BAC"));
    assert!(!str_starts_with("BA", "BAC"));
    assert!(str_starts_with("BAC", ""));
}

#[test]
fn dates_move_by_whole_days() {
    let d = date(2026, 4, 20);
    let later = d.checked_add_days(21).unwrap();
    assert_eq!((later.year(), later.month(), later.day()), (2026, 5, 11));
    let earlier = d.checked_add_days(-40).unwrap();
    assert_eq!((earlier.year(), earlier.month(), earlier.day()), (2026, 3, 11));
    let leap = date(2024, 2, 28).checked_add_days(1).unwrap();
    assert_eq!((leap.year(), leap.month(), leap.day()), (2024, 2, 29));
    assert_eq!(later.days_since(&d), 21);
    assert!(date(262142, 12, 31).checked_add_days(1).is_none());
    assert!(date(-262143, 1, 1).checked_add_days(-1).is_none());
    assert!(date(2026, 1, 1).checked_add_days(i64::MAX).is_none());
    assert!(date(2026, 1, 1).checked_add_days(i64::MIN).is_none());
}

#[test]
fn dates_are_written_as_iso_text() {
    assert_eq!(date(2026, 5, 1).iso_text(), "2026-05-01");
    assert_eq!(date(999, 12, 31).iso_text(), "0999-12-31");
    assert_eq!(date(10000, 1, 1).iso_text(), "+10000-01-01");
    assert_eq!(date(-1, 1, 1).iso_text(), "-0001-01-01");
    assert_eq!(date(-12345, 6, 7).iso_text(), "-12345-06-07");
    for &(y, m, d) in &[(2026, 5, 1), (999, 12, 31), (10000, 1, 1), (-1, 1, 1), (-12345, 6, 7), (0, 2, 29)] {
        let expected = NaiveDate::from_ymd_opt(y, m, d).unwrap().format("%Y-%m-%d").to_string();
        assert_eq!(date(y, m, d).iso_text(), expected);
    }
}

#[test]
fn chain_window_bounds() {
    assert_eq!(
        dte_window_bounds(&date(2026, 4, 20), 21, 30),
        Some(("2026-05-11".to_string(), "2026-05-20".to_string()))
    );
    assert_eq!(
        dte_window_bounds(&date(2025, 12, 20), 25, 35),
        Some(("2026-01-14".to_string(), "2026-01-24".to_string()))
    );
    assert_eq!(
        dte_window_bounds(&date(2024, 2, 1), 28, 29),
        Some(("2024-02-29".to_string(), "2024-03-01".to_string()))
    );
    assert_eq!(dte_window_bounds(&date(262142, 12, 1), 21, 45), None);
}
