use crate::applicant::Applicant;
use crate::eligibility::Status;
use vstd::prelude::*;

verus! {

/// Why the store refused a write.
#[derive(Clone, Copy, Debug, PartialEq, Eq, Structural)]
pub enum StoreError {
    /// Another record already holds the student id or the email.
    Duplicate,
}

/// No two records share a student id, and no two share an email.
pub open spec fn keys_unique(rows: Seq<Applicant>) -> bool {
    forall|i: int, j: int|
        0 <= i < j < rows.len() ==> rows[i].student_id@ != rows[j].student_id@
            && rows[i].email@ != rows[j].email@
}

/// Some record of `rows` shares its student id or its email with `rec`.
pub open spec fn conflicts(rows: Seq<Applicant>, rec: Applicant) -> bool {
    exists|i: int|
        0 <= i < rows.len() && (rows[i].student_id@ == rec.student_id@ || rows[i].email@
            == rec.email@)
}

pub open spec fn has_email(rows: Seq<Applicant>, email: Seq<char>) -> bool {
    exists|i: int| 0 <= i < rows.len() && rows[i].email@ == email
}

/// The record registered under `email`, if any.
pub open spec fn record_with_email(rows: Seq<Applicant>, email: Seq<char>) -> Option<Applicant> {
    if has_email(rows, email) {
        Some(rows[choose|i: int| 0 <= i < rows.len() && rows[i].email@ == email])
    } else {
        None
    }
}

pub open spec fn has_student(rows: Seq<Applicant>, student_id: Seq<char>) -> bool {
    exists|i: int| 0 <= i < rows.len() && rows[i].student_id@ == student_id
}

pub open spec fn accepted(rec: Applicant) -> Applicant {
    Applicant { status: Status::Accepted, ..rec }
}

/// `rows` after every record with `student_id` has been set to Accepted.
pub open spec fn accepted_rows(rows: Seq<Applicant>, student_id: Seq<char>) -> Seq<Applicant> {
    Seq::new(
        rows.len(),
        |i: int|
            if rows[i].student_id@ == student_id {
                accepted(rows[i])
            } else {
                rows[i]
            },
    )
}

/// The applicant records, in the order they were inserted.
pub struct ApplicantStore {
    rows: Vec<Applicant>,
}

impl View for ApplicantStore {
    type V = Seq<Applicant>;

    closed spec fn view(&self) -> Seq<Applicant> {
        self.rows@
    }
}

impl ApplicantStore {
    pub open spec fn wf(&self) -> bool {
        keys_unique(self@)
    }

    /// An empty store.
    pub fn new() -> (r: ApplicantStore)
        ensures
            r@ == Seq::<Applicant>::empty(),
            r.wf(),
    {
        ApplicantStore { rows: Vec::new() }
    }

    pub fn len(&self) -> (r: usize)
        ensures
            r == self@.len(),
    {
        self.rows.len()
    }

    /// Adds `rec` at the end and returns its row id (its position, counted from 1).
    /// Refused, with nothing written, where its student id or email is taken.
    pub fn insert(&mut self, rec: Applicant) -> (r: Result<u64, StoreError>)
        requires
            old(self).wf(),
            old(self)@.len() + 1 < usize::MAX,
        ensures
            final(self).wf(),
            r is Err <==> conflicts(old(self)@, rec),
            r matches Err(e) ==> e == StoreError::Duplicate && final(self)@ == old(self)@,
            r matches Ok(id) ==> id == old(self)@.len() + 1 && final(self)@ == old(self)@.push(rec),
    {
        let n = self.rows.len();
        let mut i: usize = 0;
        while i < n
            invariant
                n == self.rows@.len(),
                self.rows@ == old(self).rows@,
                keys_unique(self.rows@),
                0 <= i <= n,
                forall|j: int|
                    0 <= j < i ==> self.rows@[j].student_id@ != rec.student_id@
                        && self.rows@[j].email@ != rec.email@,
            decreases n - i,
        {
            if self.rows[i].student_id == rec.student_id || self.rows[i].email == rec.email {
                return Err(StoreError::Duplicate);
            }
            i = i + 1;
        }
        self.rows.push(rec);
        Ok(n as u64 + 1)
    }

    /// The record registered under `email`, if there is one.
    pub fn find_by_email(&self, email: &String) -> (r: Option<&Applicant>)
        requires
            self.wf(),
        ensures
            r matches Some(a) ==> record_with_email(self@, email@) == Some(*a),
            r is None ==> record_with_email(self@, email@) is None,
    {
        let n = self.rows.len();
        let mut i: usize = 0;
        while i < n
            invariant
                n == self.rows@.len(),
                keys_unique(self.rows@),
                0 <= i <= n,
                forall|j: int| 0 <= j < i ==> self.rows@[j].email@ != email@,
            decreases n - i,
        {
            if self.rows[i].email == *email {
                proof {
                    let k = choose|k: int| 0 <= k < self@.len() && self@[k].email@ == email@;
                    assert(k == i as int) by {
                        if k < i as int {
                            assert(self.rows@[k].email@ != self.rows@[i as int].email@);
                        } else if k > i as int {
                            assert(self.rows@[i as int].email@ != self.rows@[k].email@);
                        }
                    }
                }
                return Some(&self.rows[i]);
            }
            i = i + 1;
        }
        None
    }

    /// Every record for display, in insertion order, with the password left out.
    pub fn list_all(&self) -> (r: Vec<Applicant>)
        ensures
            r@.len() == self@.len(),
            forall|i: int|
                0 <= i < r@.len() ==> self@[i].same_but_password(#[trigger] r@[i])
                    && r@[i].password is None,
    {
        let mut out: Vec<Applicant> = Vec::new();
        let n = self.rows.len();
        let mut i: usize = 0;
        while i < n
            invariant
                n == self.rows@.len(),
                0 <= i <= n,
                out@.len() == i,
                forall|j: int|
                    0 <= j < i ==> self.rows@[j].same_but_password(#[trigger] out@[j])
                        && out@[j].password is None,
            decreases n - i,
        {
            out.push(self.rows[i].without_password());
            i = i + 1;
        }
        out
    }

    /// Sets the record with `student_id` to Accepted and returns how many records
    /// changed; 0, with nothing changed, where no record has that id.
    pub fn set_accepted(&mut self, student_id: &String) -> (r: usize)
        requires
            old(self).wf(),
        ensures
            final(self).wf(),
            final(self)@ == accepted_rows(old(self)@, student_id@),
            r == 0 <==> !has_student(old(self)@, student_id@),
    {
        let n = self.rows.len();
        let mut count: usize = 0;
        let mut i: usize = 0;
        while i < n
            invariant
                n == self.rows@.len(),
                n == old(self)@.len(),
                0 <= i <= n,
                count <= i,
                count == 0 <==> !(exists|j: int|
                    0 <= j < i && old(self)@[j].student_id@ == student_id@),
                forall|j: int|
                    0 <= j < i ==> self.rows@[j] == (if old(self)@[j].student_id@ == student_id@ {
                        accepted(old(self)@[j])
                    } else {
                        old(self)@[j]
                    }),
                forall|j: int| i <= j < n ==> self.rows@[j] == old(self)@[j],
            decreases n - i,
        {
            if self.rows[i].student_id == *student_id {
                self.rows[i].status = Status::Accepted;
                count = count + 1;
            }
            i = i + 1;
        }
        assert(self.rows@ =~= accepted_rows(old(self)@, student_id@));
        count
    }
}

/// Accepting an id that no record holds changes nothing.
pub proof fn lemma_accept_unknown_is_noop(rows: Seq<Applicant>, student_id: Seq<char>)
    requires
        !has_student(rows, student_id),
    ensures
        accepted_rows(rows, student_id) == rows,
{
    assert(accepted_rows(rows, student_id) =~= rows);
}

/// Accepting a known id leaves its record Accepted, and accepting it again changes nothing.
pub proof fn lemma_accept_idempotent(rows: Seq<Applicant>, student_id: Seq<char>)
    ensures
        accepted_rows(accepted_rows(rows, student_id), student_id) == accepted_rows(rows, student_id),
        forall|i: int|
            0 <= i < rows.len() && rows[i].student_id@ == student_id ==> (#[trigger] accepted_rows(
                rows,
                student_id,
            )[i]).status == Status::Accepted,
{
    assert(accepted_rows(accepted_rows(rows, student_id), student_id) =~= accepted_rows(
        rows,
        student_id,
    ));
}

} // verus!
