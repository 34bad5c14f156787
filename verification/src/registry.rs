//! The registry: every project record ever created, ordered by id,
//! together with the aggregate summary, and the public operations on them.

use vstd::prelude::*;
use crate::records::Charity;
use crate::records::CharityError;
use crate::records::CharityStatus;
use crate::records::apply_donation;
use crate::records::apply_verification;
use crate::records::is_sentinel;
use crate::records::make_charity;
use crate::records::record_registration;
use crate::records::sentinel_charity;

verus! {

/// Sum of the `funds_received` accumulators over a sequence of records.
pub open spec fn sum_funds(s: Seq<Charity>) -> int
    decreases s.len(),
{
    if s.len() == 0 {
        0
    } else {
        sum_funds(s.drop_last()) + s.last().funds_received
    }
}

/// Number of verified records in a sequence of records.
pub open spec fn count_verified(s: Seq<Charity>) -> int
    decreases s.len(),
{
    if s.len() == 0 {
        0
    } else {
        count_verified(s.drop_last()) + (if s.last().verified { 1int } else { 0int })
    }
}

proof fn lemma_sum_push(s: Seq<Charity>, c: Charity)
    ensures
        sum_funds(s.push(c)) == sum_funds(s) + c.funds_received,
{
    assert(s.push(c).drop_last() =~= s);
}

proof fn lemma_count_push(s: Seq<Charity>, c: Charity)
    ensures
        count_verified(s.push(c)) == count_verified(s) + (if c.verified { 1int } else { 0int }),
{
    assert(s.push(c).drop_last() =~= s);
}

proof fn lemma_sum_update(s: Seq<Charity>, i: int, c: Charity)
    requires
        0 <= i < s.len(),
    ensures
        sum_funds(s.update(i, c)) == sum_funds(s) - s[i].funds_received + c.funds_received,
    decreases s.len(),
{
    if i == s.len() - 1 {
        assert(s.update(i, c).drop_last() =~= s.drop_last());
    } else {
        lemma_sum_update(s.drop_last(), i, c);
        assert(s.update(i, c).drop_last() =~= s.drop_last().update(i, c));
        assert(s.update(i, c).last() == s.last());
    }
}

proof fn lemma_count_update(s: Seq<Charity>, i: int, c: Charity)
    requires
        0 <= i < s.len(),
    ensures
        count_verified(s.update(i, c)) == count_verified(s) - (if s[i].verified { 1int } else { 0int })
            + (if c.verified { 1int } else { 0int }),
    decreases s.len(),
{
    if i == s.len() - 1 {
        assert(s.update(i, c).drop_last() =~= s.drop_last());
    } else {
        lemma_count_update(s.drop_last(), i, c);
        assert(s.update(i, c).drop_last() =~= s.drop_last().update(i, c));
        assert(s.update(i, c).last() == s.last());
    }
}

proof fn lemma_elem_le_sum(s: Seq<Charity>, i: int)
    requires
        0 <= i < s.len(),
    ensures
        s[i].funds_received <= sum_funds(s),
    decreases s.len(),
{
    if i == s.len() - 1 {
        lemma_sum_nonneg(s.drop_last());
    } else {
        lemma_elem_le_sum(s.drop_last(), i);
        assert(s.drop_last()[i] == s[i]);
    }
}

proof fn lemma_sum_nonneg(s: Seq<Charity>)
    ensures
        sum_funds(s) >= 0,
    decreases s.len(),
{
    if s.len() > 0 {
        lemma_sum_nonneg(s.drop_last());
    }
}

proof fn lemma_count_le_len(s: Seq<Charity>)
    ensures
        0 <= count_verified(s) <= s.len(),
    decreases s.len(),
{
    if s.len() > 0 {
        lemma_count_le_len(s.drop_last());
    }
}

proof fn lemma_count_lt_len(s: Seq<Charity>, i: int)
    requires
        0 <= i < s.len(),
        !s[i].verified,
    ensures
        0 <= count_verified(s) < s.len(),
    decreases s.len(),
{
    if i == s.len() - 1 {
        lemma_count_le_len(s.drop_last());
    } else {
        lemma_count_lt_len(s.drop_last(), i);
        assert(s.drop_last()[i] == s[i]);
    }
}

/// The charity registry: the record of every project ever created, held at
/// index `id - 1` of `projects`, together with the aggregate summary.
///
/// Ids are assigned densely starting at 1 and records are never removed,
/// so the position of a record encodes its id and the number of records
/// doubles as the id counter.
pub struct CharityVerificationContract {
    pub projects: Vec<Charity>,
    pub status: CharityStatus,
}

impl CharityVerificationContract {
    /// Well-formedness: ids are dense from 1 in order of registration, and
    /// the aggregate summary agrees with the records — `registered` and
    /// `total_projects` both equal the number of records, `verified` counts
    /// the verified records, and `total_donations` sums the funds.
    pub open spec fn wf(self) -> bool {
        &&& self.status.total_projects == self.projects@.len()
        &&& self.status.registered == self.status.total_projects
        &&& self.status.verified == count_verified(self.projects@)
        &&& self.status.total_donations == sum_funds(self.projects@)
        &&& forall|i: int|
            0 <= i < self.projects@.len() ==> (#[trigger] self.projects@[i]).project_id == i + 1
    }

    /// Whether `project_id` has been assigned to a project.
    pub open spec fn has_project(self, project_id: u64) -> bool {
        1 <= project_id <= self.projects@.len()
    }

    /// The record of an assigned project id.
    pub open spec fn project_at(self, project_id: u64) -> Charity {
        self.projects@[project_id - 1]
    }

    /// A registry with no projects and the all-zero summary.
    pub fn new() -> (r: Self)
        ensures
            r.wf(),
            r.projects@.len() == 0,
            r.status == (CharityStatus {
                registered: 0,
                verified: 0,
                total_donations: 0,
                total_projects: 0,
            }),
    {
        CharityVerificationContract { projects: Vec::new(), status: CharityStatus::default() }
    }

    /// Register a new charity project. Always succeeds: a fresh id — one
    /// past the number of projects so far — is assigned, a record is
    /// created unverified and with no funds, carrying `registered_time`
    /// (the hosting environment's clock reading), and both registration
    /// counters of the summary rise by one.
    pub fn register_project(&mut self, title: String, description: String, registered_time: u64) -> (id: u64)
        requires
            old(self).wf(),
            old(self).status.total_projects < u64::MAX,
        ensures
            final(self).wf(),
            id == old(self).projects@.len() + 1,
            final(self).projects@ == old(self).projects@.push((Charity {
                project_id: id,
                title: title,
                description: description,
                registered_time: registered_time,
                verified: false,
                funds_received: 0,
            })),
            final(self).status == (CharityStatus {
                registered: (old(self).status.registered + 1) as u64,
                total_projects: (old(self).status.total_projects + 1) as u64,
                ..old(self).status
            }),
    {
        let id: u64 = self.status.total_projects + 1;
        let rec = make_charity(id, title, description, registered_time);
        proof {
            lemma_sum_push(self.projects@, rec);
            lemma_count_push(self.projects@, rec);
        }
        self.projects.push(rec);
        self.status = record_registration(&self.status);
        id
    }

    /// Mark a project verified. Succeeds exactly when `project_id` was
    /// assigned and the record is not yet verified: the record's
    /// `verified` flag is set (nothing else of it changes) and the
    /// summary's `verified` count rises by one. Declines with
    /// `AlreadyVerified` when the record is already verified and with
    /// `NotFound` when the id was never assigned; on either error the
    /// registry is exactly as it was before the call.
    pub fn verify_project(&mut self, project_id: u64) -> (r: Result<(), CharityError>)
        requires
            old(self).wf(),
        ensures
            final(self).wf(),
            match r {
                Ok(_) => {
                    &&& old(self).has_project(project_id)
                    &&& !old(self).project_at(project_id).verified
                    &&& final(self).projects@ == old(self).projects@.update(
                        project_id - 1,
                        (Charity { verified: true, ..old(self).project_at(project_id) }),
                    )
                    &&& final(self).status == (CharityStatus {
                        verified: (old(self).status.verified + 1) as u64,
                        ..old(self).status
                    })
                },
                Err(CharityError::AlreadyVerified) => {
                    &&& old(self).has_project(project_id)
                    &&& old(self).project_at(project_id).verified
                    &&& *final(self) == *old(self)
                },
                Err(CharityError::NotFound) => {
                    &&& !old(self).has_project(project_id)
                    &&& *final(self) == *old(self)
                },
                Err(CharityError::NotVerified) => false,
            },
    {
        if project_id == 0 || project_id > self.projects.len() as u64 {
            return Err(CharityError::NotFound);
        }
        let i: usize = (project_id - 1) as usize;
        proof {
            if !self.projects@[i as int].verified {
                lemma_count_lt_len(self.projects@, i as int);
            }
        }
        match apply_verification(&self.projects[i], &self.status) {
            Ok(pair) => {
                proof {
                    lemma_sum_update(self.projects@, i as int, pair.0);
                    lemma_count_update(self.projects@, i as int, pair.0);
                }
                let (nc, ns) = pair;
                self.projects[i] = nc;
                self.status = ns;
                Ok(())
            },
            Err(e) => Err(e),
        }
    }

    /// Pay a donation into a project. Succeeds exactly when `project_id`
    /// was assigned and the record is verified: the record's
    /// `funds_received` and the summary's `total_donations` both rise by
    /// `amount`. Declines with `NotVerified` when the record is not yet
    /// verified and with `NotFound` when the id was never assigned; on
    /// either error the registry is exactly as it was before the call.
    pub fn donate(&mut self, project_id: u64, amount: u64) -> (r: Result<(), CharityError>)
        requires
            old(self).wf(),
            old(self).status.total_donations + amount <= u64::MAX,
        ensures
            final(self).wf(),
            match r {
                Ok(_) => {
                    &&& old(self).has_project(project_id)
                    &&& old(self).project_at(project_id).verified
                    &&& final(self).projects@ == old(self).projects@.update(
                        project_id - 1,
                        (Charity {
                            funds_received: (old(self).project_at(project_id).funds_received
                                + amount) as u64,
                            ..old(self).project_at(project_id)
                        }),
                    )
                    &&& final(self).status == (CharityStatus {
                        total_donations: (old(self).status.total_donations + amount) as u64,
                        ..old(self).status
                    })
                },
                Err(CharityError::NotVerified) => {
                    &&& old(self).has_project(project_id)
                    &&& !old(self).project_at(project_id).verified
                    &&& *final(self) == *old(self)
                },
                Err(CharityError::NotFound) => {
                    &&& !old(self).has_project(project_id)
                    &&& *final(self) == *old(self)
                },
                Err(CharityError::AlreadyVerified) => false,
            },
    {
        if project_id == 0 || project_id > self.projects.len() as u64 {
            return Err(CharityError::NotFound);
        }
        let i: usize = (project_id - 1) as usize;
        proof {
            lemma_elem_le_sum(self.projects@, i as int);
        }
        match apply_donation(&self.projects[i], &self.status, amount) {
            Ok(pair) => {
                proof {
                    lemma_sum_update(self.projects@, i as int, pair.0);
                    lemma_count_update(self.projects@, i as int, pair.0);
                }
                let (nc, ns) = pair;
                self.projects[i] = nc;
                self.status = ns;
                Ok(())
            },
            Err(e) => Err(e),
        }
    }

    /// The aggregate summary; the all-zero default stands until the first
    /// registration. A pure read.
    pub fn view_all_projects(&self) -> (s: CharityStatus)
        ensures
            s == self.status,
    {
        self.status
    }

    /// The record of a project, or the sentinel record when `project_id`
    /// was never assigned. A pure read.
    pub fn view_project(&self, project_id: u64) -> (c: Charity)
        ensures
            self.has_project(project_id) ==> c == self.project_at(project_id),
            !self.has_project(project_id) ==> is_sentinel(c),
    {
        if 1 <= project_id && project_id <= self.projects.len() as u64 {
            let i: usize = (project_id - 1) as usize;
            self.projects[i].clone()
        } else {
            sentinel_charity()
        }
    }
}

/// Law: in a well-formed registry the assigned project ids are exactly
/// 1, 2, ... up to the number of registrations, in registration order,
/// and the summary's `registered` and `total_projects` counters both
/// equal that number.
pub proof fn lemma_ids_sequential(r: CharityVerificationContract)
    requires
        r.wf(),
    ensures
        r.status.total_projects == r.projects@.len(),
        r.status.registered == r.projects@.len(),
        forall|i: int| 0 <= i < r.projects@.len() ==> (#[trigger] r.projects@[i]).project_id == i + 1,
{
}

/// Law: in a well-formed registry the aggregate summary is derivable from
/// the records — `verified` equals the count of verified records and
/// `total_donations` equals the sum of all `funds_received` accumulators.
pub proof fn lemma_aggregate_consistent(r: CharityVerificationContract)
    requires
        r.wf(),
    ensures
        r.status.verified == count_verified(r.projects@),
        r.status.total_donations == sum_funds(r.projects@),
{
}

} // verus!
