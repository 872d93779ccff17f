use crate::applicant::{Applicant, FormData, LoginData, UserData};
use crate::calendar::{age_or_zero, current_age, Date};
use crate::credential::{
    hash_password, lemma_hash_differs_from_plaintext, verify_outcome, verify_password, HASH_LEN,
};
use crate::eligibility::{calculate_eligibility, eligibility_of, Status};
use crate::store::{keys_unique, record_with_email, ApplicantStore};
use vstd::prelude::*;

verus! {

/// The outcome a caller sees when an operation does not succeed. No detail of
/// the cause is carried.
#[derive(Clone, Copy, Debug, PartialEq, Eq, Structural)]
pub enum Failure {
    /// Unknown email, missing password, or a password that does not match.
    Unauthorized,
    /// Hashing, verification or the store failed.
    ServerError,
}

pub open spec fn opt_view(o: Option<String>) -> Option<Seq<char>> {
    match o {
        Some(s) => Some(s@),
        None => None,
    }
}

/// The plaintext a form offers: an absent password counts as the empty one.
pub open spec fn offered_password(form: FormData) -> Seq<char> {
    match form.password {
        Some(p) => p@,
        None => Seq::empty(),
    }
}

/// `rec` carries the fields of `form`, and the status that eligibility gives for `age`.
pub open spec fn record_for(form: FormData, rec: Applicant, age: int) -> bool {
    &&& rec.first_name == form.first_name
    &&& rec.last_name == form.last_name
    &&& rec.student_id == form.student_id
    &&& rec.gender == form.gender
    &&& rec.dob == form.dob
    &&& rec.college_year == form.college_year
    &&& rec.total_credits == form.total_credits
    &&& rec.phone_number == form.phone_number
    &&& rec.email == form.email
    &&& rec.role == form.role
    &&& rec.gpa_hundredths == form.gpa_hundredths
    &&& rec.status == eligibility_of(form.gpa_hundredths as int, form.total_credits as int, age)
}

/// The record to store for `form`: its fields as given, `hashed` as the password,
/// and the status that eligibility gives for the applicant's `age`.
pub fn new_record(form: FormData, hashed: String, age: i32) -> (r: Applicant)
    ensures
        record_for(form, r, age as int),
        r.password == Some(hashed),
{
    let status = calculate_eligibility(form.gpa_hundredths, form.total_credits, age);
    Applicant {
        first_name: form.first_name,
        last_name: form.last_name,
        student_id: form.student_id,
        gender: form.gender,
        dob: form.dob,
        college_year: form.college_year,
        total_credits: form.total_credits,
        phone_number: form.phone_number,
        email: form.email,
        password: Some(hashed),
        role: form.role,
        status,
        gpa_hundredths: form.gpa_hundredths,
    }
}

/// `rec` is what a successful submission of `form` stores: the form's fields,
/// a status decided from the applicant's age on some day, and a password hash
/// that verifies against the offered plaintext and is not that plaintext's form.
pub open spec fn submitted_record(form: FormData, rec: Applicant) -> bool {
    &&& exists|today: Date| today.wf() && record_for(form, rec, age_or_zero(form.dob@, today))
    &&& rec.password matches Some(h) && h@.len() == HASH_LEN && h@[0] == '$' && verify_outcome(
        offered_password(form),
        h@,
    ) == Some(true)
}

/// Hashes the form's password (absent counts as empty), works out the age from the
/// birth date as of today (0 for a date that cannot be read) and the eligibility,
/// and builds the record to store. Fails only where hashing fails.
pub fn submission_record(form: FormData) -> (r: Result<Applicant, Failure>)
    ensures
        r matches Ok(rec) ==> submitted_record(form, rec),
        r matches Err(e) ==> e == Failure::ServerError,
{
    let hashed = match &form.password {
        Some(p) => hash_password(p.as_str()),
        None => {
            proof {
                reveal_strlit("");
                assert(""@ =~= offered_password(form));
            }
            hash_password("")
        },
    };
    let ghost offered = form;
    match hashed {
        Ok(h) => {
            let age = current_age(form.dob.as_str());
            let rec = new_record(form, h, age);
            proof {
                let today = choose|t: Date| t.wf() && age == age_or_zero(offered.dob@, t);
                assert(record_for(offered, rec, age_or_zero(offered.dob@, today)));
            }
            Ok(rec)
        },
        Err(_) => Err(Failure::ServerError),
    }
}

/// Submits a form: stores the record that `submission_record` builds and returns
/// its row id. On any failure nothing is written; a student id or email that is
/// already taken is a failure.
pub fn submit_form(store: &mut ApplicantStore, form: FormData) -> (r: Result<u64, Failure>)
    requires
        old(store).wf(),
        old(store)@.len() + 1 < usize::MAX,
    ensures
        final(store).wf(),
        r matches Ok(id) ==> id == old(store)@.len() + 1 && final(store)@.len() == id
            && final(store)@.drop_last() == old(store)@ && submitted_record(
            form,
            final(store)@.last(),
        ),
        r matches Err(e) ==> e == Failure::ServerError && final(store)@ == old(store)@,
        (exists|i: int|
            0 <= i < old(store)@.len() && (old(store)@[i].student_id@ == form.student_id@
                || old(store)@[i].email@ == form.email@)) ==> r is Err,
{
    match submission_record(form) {
        Ok(rec) => match store.insert(rec) {
            Ok(id) => {
                assert(final(store)@.drop_last() =~= old(store)@);
                Ok(id)
            },
            Err(_) => Err(Failure::ServerError),
        },
        Err(e) => Err(e),
    }
}

/// What a login answers for the submitted password and the record found under the
/// email: the email, status and role, or a failure.
pub open spec fn login_result(submitted: Option<Seq<char>>, found: Option<Applicant>) -> Result<
    (Seq<char>, Status, i16),
    Failure,
> {
    match (submitted, found) {
        (Some(p), Some(rec)) => match rec.password {
            Some(h) => match verify_outcome(p, h@) {
                Some(true) => Ok((rec.email@, rec.status, rec.role)),
                Some(false) => Err(Failure::Unauthorized),
                None => Err(Failure::ServerError),
            },
            None => Err(Failure::Unauthorized),
        },
        _ => Err(Failure::Unauthorized),
    }
}

pub open spec fn user_view(r: Result<UserData, Failure>) -> Result<(Seq<char>, Status, i16), Failure> {
    match r {
        Ok(u) => Ok((u.email@, u.status, u.role)),
        Err(e) => Err(e),
    }
}

/// Checks a submitted password against the record found for the email. Missing
/// record, missing password on either side, and a mismatch all answer Unauthorized;
/// a malformed stored hash answers ServerError.
pub fn authenticate(submitted: &Option<String>, found: Option<&Applicant>) -> (r: Result<
    UserData,
    Failure,
>)
    ensures
        user_view(r) == login_result(
            opt_view(*submitted),
            match found {
                Some(a) => Some(*a),
                None => None,
            },
        ),
{
    match (submitted, found) {
        (Some(p), Some(rec)) => match &rec.password {
            Some(h) => match verify_password(p.as_str(), h.as_str()) {
                Ok(true) => Ok(UserData { email: rec.email.clone(), status: rec.status, role: rec.role }),
                Ok(false) => Err(Failure::Unauthorized),
                Err(_) => Err(Failure::ServerError),
            },
            None => Err(Failure::Unauthorized),
        },
        _ => Err(Failure::Unauthorized),
    }
}

/// Logs in with an email and password against the store.
pub fn login(store: &ApplicantStore, data: &LoginData) -> (r: Result<UserData, Failure>)
    requires
        store.wf(),
    ensures
        user_view(r) == login_result(opt_view(data.password), record_with_email(store@, data.email@)),
{
    let found = store.find_by_email(&data.email);
    authenticate(&data.password, found)
}

/// Sets the applicant with `student_id` to Accepted. Succeeds whether or not such
/// an applicant exists.
pub fn accept_applicant(store: &mut ApplicantStore, student_id: &String) -> (r: Result<(), Failure>)
    requires
        old(store).wf(),
    ensures
        r is Ok,
        final(store).wf(),
        final(store)@ == crate::store::accepted_rows(old(store)@, student_id@),
{
    let _changed = store.set_accepted(student_id);
    Ok(())
}

/// A record that a successful submission stored can be logged into with the
/// password the form offered; the answer is the record's email, status and role.
pub proof fn lemma_login_after_submit(rows: Seq<Applicant>, form: FormData, rec: Applicant)
    requires
        keys_unique(rows.push(rec)),
        submitted_record(form, rec),
    ensures
        login_result(Some(offered_password(form)), record_with_email(rows.push(rec), form.email@))
            == Ok::<(Seq<char>, Status, i16), Failure>((form.email@, rec.status, form.role)),
{
    let all = rows.push(rec);
    let last = rows.len() as int;
    assert(all[last].email@ == form.email@);
    let k = choose|k: int| 0 <= k < all.len() && all[k].email@ == form.email@;
    if k < last {
        assert(all[k].email@ != all[last].email@);
    }
    assert(record_with_email(all, form.email@) == Some(rec));
}

/// A successful submission stores a password hash, never the offered plaintext
/// (short of a plaintext that is itself 60 characters long and starts with `$`).
pub proof fn lemma_stored_password_not_plaintext(form: FormData, rec: Applicant)
    requires
        submitted_record(form, rec),
        offered_password(form).len() != HASH_LEN || offered_password(form)[0] != '$',
    ensures
        rec.password matches Some(h) && h@ != offered_password(form),
{
    lemma_hash_differs_from_plaintext(offered_password(form), rec.password->Some_0@);
}

/// An unknown email, a missing password and a wrong password are all answered
/// the same way: Unauthorized.
pub proof fn lemma_login_failures_alike(submitted: Seq<char>, found: Option<Applicant>)
    ensures
        login_result(Some(submitted), None) == Err::<(Seq<char>, Status, i16), Failure>(
            Failure::Unauthorized,
        ),
        login_result(None, found) == Err::<(Seq<char>, Status, i16), Failure>(
            Failure::Unauthorized,
        ),
        found matches Some(rec) && rec.password is None ==> login_result(Some(submitted), found)
            == Err::<(Seq<char>, Status, i16), Failure>(Failure::Unauthorized),
        found matches Some(rec) && rec.password matches Some(h) && verify_outcome(submitted, h@)
            == Some(false) ==> login_result(Some(submitted), found) == Err::<
            (Seq<char>, Status, i16),
            Failure,
        >(Failure::Unauthorized),
{
}

} // verus!
