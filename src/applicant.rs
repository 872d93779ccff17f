use crate::eligibility::Status;
use vstd::prelude::*;

verus! {

/// A registration form as the applicant submits it. The GPA is given in
/// hundredths of a grade point (3.25 is 325).
#[derive(Debug)]
pub struct FormData {
    pub first_name: String,
    pub last_name: String,
    pub student_id: String,
    pub gender: String,
    pub dob: String,
    pub college_year: String,
    pub total_credits: i32,
    pub phone_number: String,
    pub email: String,
    pub password: Option<String>,
    pub role: i16,
    pub gpa_hundredths: i32,
}

/// One applicant record as the store holds it. `password` is a one-way hash,
/// and is `None` on records handed out for display.
#[derive(Debug)]
pub struct Applicant {
    pub first_name: String,
    pub last_name: String,
    pub student_id: String,
    pub gender: String,
    pub dob: String,
    pub college_year: String,
    pub total_credits: i32,
    pub phone_number: String,
    pub email: String,
    pub password: Option<String>,
    pub role: i16,
    pub status: Status,
    pub gpa_hundredths: i32,
}

/// Credentials offered at login.
#[derive(Debug)]
pub struct LoginData {
    pub email: String,
    pub password: Option<String>,
}

/// What a successful login reveals of the applicant: no password.
#[derive(Debug)]
pub struct UserData {
    pub email: String,
    pub status: Status,
    pub role: i16,
}

impl Applicant {
    /// `other` holds the same record as `self`, but for the password.
    pub open spec fn same_but_password(self, other: Applicant) -> bool {
        &&& other.first_name@ == self.first_name@
        &&& other.last_name@ == self.last_name@
        &&& other.student_id@ == self.student_id@
        &&& other.gender@ == self.gender@
        &&& other.dob@ == self.dob@
        &&& other.college_year@ == self.college_year@
        &&& other.total_credits == self.total_credits
        &&& other.phone_number@ == self.phone_number@
        &&& other.email@ == self.email@
        &&& other.role == self.role
        &&& other.status == self.status
        &&& other.gpa_hundredths == self.gpa_hundredths
    }

    /// A copy of the record for display: every field but the password.
    pub fn without_password(&self) -> (r: Applicant)
        ensures
            self.same_but_password(r),
            r.password is None,
    {
        Applicant {
            first_name: self.first_name.clone(),
            last_name: self.last_name.clone(),
            student_id: self.student_id.clone(),
            gender: self.gender.clone(),
            dob: self.dob.clone(),
            college_year: self.college_year.clone(),
            total_credits: self.total_credits,
            phone_number: self.phone_number.clone(),
            email: self.email.clone(),
            password: None,
            role: self.role,
            status: self.status,
            gpa_hundredths: self.gpa_hundredths,
        }
    }
}

} // verus!
