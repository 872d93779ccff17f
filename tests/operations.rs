use admissions::applicant::{FormData, LoginData};
use admissions::eligibility::Status;
use admissions::service::{accept_applicant, login, submit_form, Failure};
use admissions::store::ApplicantStore;
use chrono::Datelike;

fn years_ago(years: i32) -> String {
    let today = chrono::Utc::now().date_naive();
    let d = chrono::NaiveDate::from_ymd_opt(today.year() - years, today.month(), 1).unwrap();
    d.format("%Y-%m-%d").to_string()
}

fn form(student_id: &str, email: &str, password: Option<&str>, gpa: i32, credits: i32, dob: &str) -> FormData {
    FormData {
        first_name: "Ada".to_string(),
        last_name: "Lovelace".to_string(),
        student_id: student_id.to_string(),
        gender: "F".to_string(),
        dob: dob.to_string(),
        college_year: "Junior".to_string(),
        total_credits: credits,
        phone_number: "555-0100".to_string(),
        email: email.to_string(),
        password: password.map(|p| p.to_string()),
        role: 0,
        gpa_hundredths: gpa,
    }
}

#[test]
fn low_gpa_submission_is_stored_ineligible() {
    let mut store = ApplicantStore::new();
    let id = submit_form(&mut store, form("S1", "a@x.org", Some("pw"), 300, 15, &years_ago(25))).unwrap();
    assert_eq!(id, 1);
    let rows = store.list_all();
    assert_eq!(rows.len(), 1);
    assert_eq!(rows[0].status, Status::Ineligible);
    assert_eq!(rows[0].status.code(), 1);
}

#[test]
fn eligible_submission_accepted_then_listed() {
    let mut store = ApplicantStore::new();
    let id = submit_form(&mut store, form("S2", "b@x.org", Some("pw"), 350, 15, &years_ago(25))).unwrap();
    assert_eq!(id, 1);
    assert_eq!(store.list_all()[0].status, Status::Eligible);
    assert_eq!(store.list_all()[0].status.code(), 0);
    assert_eq!(accept_applicant(&mut store, &"S2".to_string()), Ok(()));
    let rows = store.list_all();
    assert_eq!(rows.len(), 1);
    assert_eq!(rows[0].student_id, "S2");
    assert_eq!(rows[0].status.code(), 2);
    assert!(rows[0].password.is_none());
}

#[test]
fn unreadable_birth_date_counts_as_age_zero() {
    let mut store = ApplicantStore::new();
    submit_form(&mut store, form("S3", "c@x.org", Some("pw"), 390, 30, "someday")).unwrap();
    assert_eq!(store.list_all()[0].status, Status::Ineligible);
}

#[test]
fn stored_password_is_a_hash() {
    let mut store = ApplicantStore::new();
    submit_form(&mut store, form("S4", "d@x.org", Some("plain"), 350, 15, "2000-01-01")).unwrap();
    let found = store.find_by_email(&"d@x.org".to_string()).unwrap();
    let stored = found.password.clone().unwrap();
    assert_ne!(stored, "plain");
    assert_eq!(stored.len(), 60);
}

#[test]
fn login_with_correct_password_succeeds() {
    let mut store = ApplicantStore::new();
    submit_form(&mut store, form("S5", "e@x.org", Some("open sesame"), 350, 15, "1990-01-01")).unwrap();
    let user = login(&store, &LoginData { email: "e@x.org".to_string(), password: Some("open sesame".to_string()) }).unwrap();
    assert_eq!(user.email, "e@x.org");
    assert_eq!(user.status, Status::Eligible);
    assert_eq!(user.role, 0);
}

#[test]
fn login_failures_are_all_unauthorized() {
    let mut store = ApplicantStore::new();
    submit_form(&mut store, form("S6", "f@x.org", Some("right"), 350, 15, "1990-01-01")).unwrap();
    let wrong = login(&store, &LoginData { email: "f@x.org".to_string(), password: Some("wrong".to_string()) });
    let missing = login(&store, &LoginData { email: "f@x.org".to_string(), password: None });
    let unknown = login(&store, &LoginData { email: "g@x.org".to_string(), password: Some("right".to_string()) });
    assert_eq!(wrong.unwrap_err(), Failure::Unauthorized);
    assert_eq!(missing.unwrap_err(), Failure::Unauthorized);
    assert_eq!(unknown.unwrap_err(), Failure::Unauthorized);
}

#[test]
fn missing_password_is_hashed_as_empty() {
    let mut store = ApplicantStore::new();
    submit_form(&mut store, form("S7", "h@x.org", None, 350, 15, "1990-01-01")).unwrap();
    let user = login(&store, &LoginData { email: "h@x.org".to_string(), password: Some(String::new()) });
    assert!(user.is_ok());
}

#[test]
fn accept_unknown_id_changes_nothing() {
    let mut store = ApplicantStore::new();
    submit_form(&mut store, form("S8", "i@x.org", Some("pw"), 350, 15, "1990-01-01")).unwrap();
    assert_eq!(accept_applicant(&mut store, &"nobody".to_string()), Ok(()));
    assert_eq!(store.set_accepted(&"nobody".to_string()), 0);
    assert_eq!(store.list_all()[0].status, Status::Eligible);
}

#[test]
fn accept_is_idempotent() {
    let mut store = ApplicantStore::new();
    submit_form(&mut store, form("S9", "j@x.org", Some("pw"), 300, 15, "1990-01-01")).unwrap();
    assert_eq!(store.set_accepted(&"S9".to_string()), 1);
    assert_eq!(store.set_accepted(&"S9".to_string()), 1);
    assert_eq!(store.list_all()[0].status.code(), 2);
}

#[test]
fn duplicate_student_id_or_email_is_refused() {
    let mut store = ApplicantStore::new();
    submit_form(&mut store, form("T1", "k@x.org", Some("pw"), 350, 15, "1990-01-01")).unwrap();
    let again = submit_form(&mut store, form("T1", "other@x.org", Some("pw"), 350, 15, "1990-01-01"));
    assert_eq!(again, Err(Failure::ServerError));
    assert_eq!(store.len(), 1);
}
