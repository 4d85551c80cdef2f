use browsers::xtask::next_version::{calculate, next_version, release_date, tag_pattern, NextVersionError};

#[test]
fn first_release_of_a_day_is_number_zero() {
    assert_eq!(calculate(2026, 8, 14, "").unwrap(), "2026.8.1400");
}

#[test]
fn next_release_of_the_day_follows_the_last_tag() {
    assert_eq!(calculate(2026, 8, 14, "2026.8.1400\n").unwrap(), "2026.8.1401");
}

#[test]
fn first_release_on_the_first_of_a_month() {
    assert_eq!(calculate(2026, 9, 1, "2026.8.1400\n2026.8.1401\n").unwrap(), "2026.9.100");
}

#[test]
fn highest_release_of_the_day_counts_whatever_the_order() {
    let tags = "2026.8.1403\n2026.8.1400\n2026.8.1401";
    assert_eq!(calculate(2026, 8, 14, tags).unwrap(), "2026.8.1404");
}

#[test]
fn releases_of_other_days_and_months_are_ignored() {
    let tags = "2026.8.1399\n2026.8.1500\n2026.7.1405\n2025.8.1405\n";
    assert_eq!(calculate(2026, 8, 14, tags).unwrap(), "2026.8.1400");
}

#[test]
fn malformed_tags_are_ignored() {
    let tags = "v2026.8.1405\n2026.8.1405.1\n2026.8\n2026.8.14x5\n2026.08.1405\n\n";
    assert_eq!(calculate(2026, 8, 14, tags).unwrap(), "2026.8.1400");
}

#[test]
fn windows_line_endings_are_accepted() {
    assert_eq!(calculate(2026, 8, 14, "2026.8.1400\r\n2026.8.1402\r\n").unwrap(), "2026.8.1403");
}

#[test]
fn a_plus_sign_is_read_as_a_number() {
    assert_eq!(calculate(2026, 8, 14, "2026.8.+1405\n").unwrap(), "2026.8.1406");
}

#[test]
fn last_number_of_the_day_is_ninety_nine() {
    assert_eq!(calculate(2026, 8, 14, "2026.8.1498\n").unwrap(), "2026.8.1499");
}

#[test]
fn no_numbers_left_after_ninety_nine() {
    assert_eq!(
        calculate(2026, 8, 14, "2026.8.1400\n2026.8.1499\n"),
        Err(NextVersionError::NoReleaseNumbersLeft)
    );
}

#[test]
fn negative_years_keep_their_sign() {
    assert_eq!(calculate(-5, 1, 2, "-5.1.200").unwrap(), "-5.1.201");
}

// 2026-08-13T22:30:00Z: already 2026-08-14 in Kyiv, still 2026-08-13 in UTC.
const LATE_EVENING_UTC: i64 = 1786660200;

#[test]
fn release_date_is_the_kyiv_date_by_default() {
    assert_eq!(release_date(None, LATE_EVENING_UTC), Ok((2026, 8, 14)));
    assert_eq!(release_date(Some("UTC"), LATE_EVENING_UTC), Ok((2026, 8, 13)));
}

#[test]
fn next_version_uses_the_release_zone_date() {
    assert_eq!(next_version(None, LATE_EVENING_UTC, "").unwrap(), "2026.8.1400");
    assert_eq!(next_version(Some("Europe/Kyiv"), LATE_EVENING_UTC, "2026.8.1400\n").unwrap(), "2026.8.1401");
    assert_eq!(next_version(Some("UTC"), LATE_EVENING_UTC, "").unwrap(), "2026.8.1300");
}

#[test]
fn unknown_release_zone_is_refused() {
    assert_eq!(release_date(Some("Mars/Olympus"), LATE_EVENING_UTC), Err(NextVersionError::InvalidTimezone));
    assert_eq!(next_version(Some("Mars/Olympus"), LATE_EVENING_UTC, ""), Err(NextVersionError::InvalidTimezone));
}

#[test]
fn next_version_reports_a_full_day() {
    assert_eq!(
        next_version(None, LATE_EVENING_UTC, "2026.8.1499\n"),
        Err(NextVersionError::NoReleaseNumbersLeft)
    );
}

#[test]
fn tag_patterns_name_the_month() {
    assert_eq!(tag_pattern(2026, 8), "2026.8.*");
    assert_eq!(tag_pattern(-5, 12), "-5.12.*");
}
