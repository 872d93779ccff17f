use admissions::calendar::{age_at, age_on, calculate_age, current_age, Date};
use admissions::eligibility::{calculate_eligibility, Status};

fn date(y: i32, m: u32, d: u32) -> Date {
    Date::new(y, m, d).unwrap()
}

#[test]
fn gpa_equal_to_floor_is_ineligible() {
    assert_eq!(calculate_eligibility(320, 13, 24), Status::Ineligible);
}

#[test]
fn gpa_above_floor_is_eligible() {
    assert_eq!(calculate_eligibility(330, 13, 24), Status::Eligible);
}

#[test]
fn credits_and_age_at_floor_are_ineligible() {
    assert_eq!(calculate_eligibility(400, 12, 30), Status::Ineligible);
    assert_eq!(calculate_eligibility(400, 20, 23), Status::Ineligible);
    assert_eq!(calculate_eligibility(400, 13, 24), Status::Eligible);
}

#[test]
fn status_codes() {
    assert_eq!(Status::Eligible.code(), 0);
    assert_eq!(Status::Ineligible.code(), 1);
    assert_eq!(Status::Accepted.code(), 2);
    assert_eq!(Status::from_code(2), Some(Status::Accepted));
    assert_eq!(Status::from_code(3), None);
}

#[test]
fn age_counts_completed_years() {
    let today = date(2024, 6, 15);
    assert_eq!(age_on(date(2000, 6, 15), today), 24);
    assert_eq!(age_on(date(2000, 6, 16), today), 23);
    assert_eq!(age_on(date(2000, 7, 1), today), 23);
    assert_eq!(age_on(date(2000, 5, 30), today), 24);
    assert_eq!(age_on(date(2024, 6, 15), today), 0);
}

#[test]
fn age_from_text() {
    let today = date(2024, 6, 15);
    assert_eq!(calculate_age("1999-12-31", today), Some(24));
    assert_eq!(calculate_age("2000-06-16", today), Some(23));
    assert_eq!(calculate_age("not a date", today), None);
    assert_eq!(calculate_age("2001-02-30", today), None);
    assert_eq!(age_at("2000-01-01", today), 24);
    assert_eq!(age_at("", today), 0);
    assert_eq!(age_at("15/06/2000", today), 0);
}

#[test]
fn current_age_of_unreadable_date_is_zero() {
    assert_eq!(current_age("yesterday"), 0);
    assert!(current_age("1990-01-01") >= 34);
}

#[test]
fn date_rejects_out_of_range_fields() {
    assert!(Date::new(2000, 13, 1).is_none());
    assert!(Date::new(2000, 1, 0).is_none());
    assert!(Date::new(2000, 12, 31).is_some());
}
