use kb_svc::calendar::{civil_from_days, compact_date_of_days, compact_utc_date, today_utc_compact};
use kb_svc::rendezvous::civil_from_days_;

#[test]
fn civil_from_days_matches_known_dates() {
    assert_eq!(civil_from_days(0), (1970, 1, 1));
    assert_eq!(civil_from_days(11_016), (2000, 2, 29));
    assert_eq!(civil_from_days(19_782), (2024, 2, 29));
    assert_eq!(civil_from_days(20_709), (2026, 9, 13));
}

#[test]
fn civil_from_days_matches_known_dates_() {
    assert_eq!(civil_from_days_(0), (1970, 1, 1));
    assert_eq!(civil_from_days_(19_723), (2024, 1, 1));
    assert_eq!(civil_from_days_(19_782), (2024, 2, 29));
}

#[test]
fn civil_from_days_before_the_epoch_and_at_century_edges() {
    assert_eq!(civil_from_days(-1), (1969, 12, 31));
    assert_eq!(civil_from_days(-719_468), (0, 3, 1));
    assert_eq!(civil_from_days(10_956), (1999, 12, 31));
    assert_eq!(civil_from_days(-25_508), (1900, 3, 1));
    assert_eq!(civil_from_days(-25_509), (1900, 2, 28));
}

#[test]
fn compact_dates_are_zero_padded() {
    assert_eq!(compact_date_of_days(20_709), "20260913");
    assert_eq!(compact_date_of_days(0), "19700101");
    assert_eq!(compact_date_of_days(-719_469), "00000229");
    assert_eq!(compact_utc_date(1_789_257_600), "20260913");
    assert_eq!(compact_utc_date(86_399), "19700101");
}

#[test]
fn today_is_eight_digits() {
    let today = today_utc_compact();
    assert_eq!(today.len(), 8);
    assert!(today.chars().all(|c| c.is_ascii_digit()));
    assert!(today.as_str() >= "20240101");
}

#[test]
fn leap_years_have_one_more_day() {
    assert_eq!(civil_from_days(365), (1971, 1, 1));
    assert_eq!(civil_from_days(365 + 365 + 366), (1973, 1, 1));
    assert_eq!(civil_from_days(365 + 365 + 365), (1972, 12, 31));
}
