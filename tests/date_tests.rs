use zzyl_auth::date::{CivilDate, DateUtils};

fn d(year: i32, month: u32, day: u32) -> CivilDate {
    CivilDate { year, month, day }
}

#[test]
fn age_counts_whole_years() {
    assert_eq!(DateUtils::calculate_age(d(1950, 6, 15), d(2024, 6, 14)), 73);
    assert_eq!(DateUtils::calculate_age(d(1950, 6, 15), d(2024, 6, 15)), 74);
    assert_eq!(DateUtils::calculate_age(d(1950, 6, 15), d(2024, 5, 30)), 73);
    assert_eq!(DateUtils::calculate_age(d(1950, 6, 15), d(2024, 7, 1)), 74);
}

#[test]
fn days_between_counts_calendar_days() {
    // 2024-01-01T23:00:00Z to 2024-01-02T01:00:00Z crosses one midnight
    assert_eq!(DateUtils::days_between(1_704_150_000, 1_704_157_200), 1);
    assert_eq!(DateUtils::days_between(0, 86_399), 0);
    assert_eq!(DateUtils::days_between(-1, 0), 1);
    assert_eq!(DateUtils::days_between(86_400 * 10, 0), -10);
}

#[test]
fn starts_of_week_month_year() {
    // 2024-03-14 (a Thursday) 12:34:56 UTC
    let t = 1_710_419_696;
    // Monday 2024-03-11
    assert_eq!(DateUtils::week_start(t), 1_710_115_200);
    // 2024-03-01
    assert_eq!(DateUtils::month_start(t), Some(1_709_251_200));
    // 2024-01-01
    assert_eq!(DateUtils::year_start(t), Some(1_704_067_200));
    assert_eq!(DateUtils::civil_date(t), Some(d(2024, 3, 14)));
    assert_eq!(DateUtils::midnight(d(1970, 1, 1)), Some(0));
    assert_eq!(DateUtils::midnight(d(2023, 2, 29)), None);
    // 1969-12-31 is a Wednesday: its week starts on Monday 1969-12-29
    assert_eq!(DateUtils::week_start(-1), -3 * 86_400);
}
