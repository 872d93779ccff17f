//! Admissions intake: eligibility decisions, credential hashing, and the
//! applicant store with its submit / login / list / accept operations.

pub mod calendar;
pub mod eligibility;
pub mod credential;
pub mod applicant;
pub mod store;
pub mod service;
