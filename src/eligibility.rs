use vstd::prelude::*;

verus! {

/// A GPA must exceed this, in hundredths of a grade point (3.20).
pub const GPA_FLOOR_HUNDREDTHS: i32 = 320;

/// Credit hours must exceed this.
pub const CREDIT_FLOOR: i32 = 12;

/// Age in years must exceed this.
pub const AGE_FLOOR: i32 = 23;

/// Lifecycle state of an applicant.
#[derive(Clone, Copy, Debug, PartialEq, Eq, Structural)]
pub enum Status {
    Eligible,
    Ineligible,
    Accepted,
}

impl Status {
    pub open spec fn spec_code(self) -> i64 {
        match self {
            Status::Eligible => 0,
            Status::Ineligible => 1,
            Status::Accepted => 2,
        }
    }

    /// The stored integer form: Eligible 0, Ineligible 1, Accepted 2.
    pub fn code(&self) -> (r: i64)
        ensures
            r == self.spec_code(),
    {
        match self {
            Status::Eligible => 0,
            Status::Ineligible => 1,
            Status::Accepted => 2,
        }
    }

    /// The status for a stored integer, if it is one of the three codes.
    pub fn from_code(code: i64) -> (r: Option<Status>)
        ensures
            r matches Some(s) ==> s.spec_code() == code,
            r is None <==> !(0 <= code <= 2),
    {
        if code == 0 {
            Some(Status::Eligible)
        } else if code == 1 {
            Some(Status::Ineligible)
        } else if code == 2 {
            Some(Status::Accepted)
        } else {
            None
        }
    }
}

/// The admission decision: every threshold is a strict lower bound.
pub open spec fn is_eligible(gpa_hundredths: int, credit_hours: int, age: int) -> bool {
    gpa_hundredths > GPA_FLOOR_HUNDREDTHS && credit_hours > CREDIT_FLOOR && age > AGE_FLOOR
}

pub open spec fn eligibility_of(gpa_hundredths: int, credit_hours: int, age: int) -> Status {
    if is_eligible(gpa_hundredths, credit_hours, age) {
        Status::Eligible
    } else {
        Status::Ineligible
    }
}

/// Decides eligibility from a GPA given in hundredths of a grade point, the
/// credit hours and the age: Ineligible when any of the three is at or below
/// its floor, Eligible otherwise. Never returns Accepted.
pub fn calculate_eligibility(gpa_hundredths: i32, credit_hours: i32, age: i32) -> (r: Status)
    ensures
        r == eligibility_of(gpa_hundredths as int, credit_hours as int, age as int),
        r != Status::Accepted,
{
    if gpa_hundredths <= GPA_FLOOR_HUNDREDTHS || credit_hours <= CREDIT_FLOOR || age <= AGE_FLOOR {
        Status::Ineligible
    } else {
        Status::Eligible
    }
}

} // verus!
