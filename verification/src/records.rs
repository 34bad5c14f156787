//! Project records, the aggregate summary, and the per-record state
//! transitions of the charity registry.
//!
//! A hosting store keeps one `Charity` record per assigned project id and
//! one `CharityStatus` singleton. The functions here decide, from a fetched
//! record and the current summary, what a mutating operation writes back —
//! or with which error it declines.

use vstd::prelude::*;

verus! {

/// Running totals over every project the registry has ever seen.
///
/// `registered` and `total_projects` are incremented together on every
/// registration and never diverge; `verified` counts the records whose
/// `verified` flag is set; `total_donations` is the sum of all
/// `funds_received` accumulators.
#[derive(Clone, Copy, PartialEq, Eq, Structural, Debug)]
pub struct CharityStatus {
    pub registered: u64,
    pub verified: u64,
    pub total_donations: u64,
    pub total_projects: u64,
}

impl Default for CharityStatus {
    /// The all-zero summary a registry starts from.
    fn default() -> (s: Self)
        ensures
            s == (CharityStatus { registered: 0, verified: 0, total_donations: 0, total_projects: 0 }),
    {
        CharityStatus { registered: 0, verified: 0, total_donations: 0, total_projects: 0 }
    }
}

/// The key under which a hosting store files one project record.
#[derive(Clone, Copy, PartialEq, Eq, Structural, Debug)]
pub enum CharityBook {
    Project(u64),
}

impl CharityBook {
    /// The project id this key refers to.
    pub open spec fn spec_project_id(self) -> u64 {
        match self {
            CharityBook::Project(id) => id,
        }
    }

    /// The project id this key refers to.
    pub fn project_id(&self) -> (id: u64)
        ensures
            id == self.spec_project_id(),
    {
        match self {
            CharityBook::Project(id) => *id,
        }
    }
}

/// One charitable project: identity, metadata, verification state and the
/// funds it has received.
#[derive(Debug)]
pub struct Charity {
    pub project_id: u64,
    pub title: String,
    pub description: String,
    pub registered_time: u64,
    pub verified: bool,
    pub funds_received: u64,
}

impl Clone for Charity {
    fn clone(&self) -> (res: Self)
        ensures
            res == *self,
    {
        Charity {
            project_id: self.project_id,
            title: self.title.clone(),
            description: self.description.clone(),
            registered_time: self.registered_time,
            verified: self.verified,
            funds_received: self.funds_received,
        }
    }
}

/// Why a mutating operation declined to run. The registry state is exactly
/// as it was before the call whenever one of these is returned.
#[derive(Clone, Copy, PartialEq, Eq, Structural, Debug)]
pub enum CharityError {
    /// A verification was requested for a project that is already verified.
    AlreadyVerified,
    /// A donation was offered to a project that is not yet verified.
    NotVerified,
    /// The project id was never assigned.
    NotFound,
}

/// The marker record handed back when a project id was never assigned:
/// id 0 (ids are assigned starting at 1, so no real record carries it),
/// "Not Found" in both text fields, unverified, no funds.
pub open spec fn is_sentinel(c: Charity) -> bool {
    &&& c.project_id == 0
    &&& c.title@ == "Not Found"@
    &&& c.description@ == "Not Found"@
    &&& c.registered_time == 0
    &&& !c.verified
    &&& c.funds_received == 0
}

/// Build the sentinel record for a lookup of an id that was never assigned.
pub fn sentinel_charity() -> (c: Charity)
    ensures
        is_sentinel(c),
{
    Charity {
        project_id: 0,
        title: "Not Found".to_owned(),
        description: "Not Found".to_owned(),
        registered_time: 0,
        verified: false,
        funds_received: 0,
    }
}

/// Build the record for a newly registered project: it carries the id the
/// generator assigned and the clock reading at creation, is unverified,
/// and has received no funds.
pub fn make_charity(project_id: u64, title: String, description: String, registered_time: u64) -> (c: Charity)
    ensures
        c == (Charity {
            project_id: project_id,
            title: title,
            description: description,
            registered_time: registered_time,
            verified: false,
            funds_received: 0,
        }),
{
    Charity {
        project_id: project_id,
        title: title,
        description: description,
        registered_time: registered_time,
        verified: false,
        funds_received: 0,
    }
}

/// The summary after one more successful registration: `registered` and
/// `total_projects` rise together, the other totals are untouched.
pub fn record_registration(s: &CharityStatus) -> (r: CharityStatus)
    requires
        s.total_projects < u64::MAX,
        s.registered < u64::MAX,
    ensures
        r == (CharityStatus {
            registered: (s.registered + 1) as u64,
            total_projects: (s.total_projects + 1) as u64,
            ..*s
        }),
{
    CharityStatus {
        registered: s.registered + 1,
        total_projects: s.total_projects + 1,
        ..*s
    }
}

/// Decide a verification request against one fetched record.
///
/// Succeeds exactly when the record is not yet verified: the record comes
/// back with its `verified` flag set (and nothing else changed) and the
/// summary with its `verified` count one higher. Declines with
/// `AlreadyVerified` exactly when the record is already verified.
pub fn apply_verification(c: &Charity, s: &CharityStatus) -> (r: Result<(Charity, CharityStatus), CharityError>)
    requires
        !c.verified ==> s.verified < u64::MAX,
    ensures
        match r {
            Ok(p) => {
                &&& !c.verified
                &&& p.0 == (Charity { verified: true, ..*c })
                &&& p.1 == (CharityStatus { verified: (s.verified + 1) as u64, ..*s })
            },
            Err(e) => {
                &&& c.verified
                &&& e == CharityError::AlreadyVerified
            },
        },
{
    if c.verified {
        Err(CharityError::AlreadyVerified)
    } else {
        let base = c.clone();
        let nc = Charity { verified: true, ..base };
        let ns = CharityStatus { verified: s.verified + 1, ..*s };
        Ok((nc, ns))
    }
}

/// Decide a donation against one fetched record.
///
/// Succeeds exactly when the record is verified: the record comes back
/// with `funds_received` raised by `amount` and the summary with
/// `total_donations` raised by the same amount. Declines with
/// `NotVerified` exactly when the record is not verified.
pub fn apply_donation(c: &Charity, s: &CharityStatus, amount: u64) -> (r: Result<(Charity, CharityStatus), CharityError>)
    requires
        c.verified ==> c.funds_received + amount <= u64::MAX,
        c.verified ==> s.total_donations + amount <= u64::MAX,
    ensures
        match r {
            Ok(p) => {
                &&& c.verified
                &&& p.0 == (Charity { funds_received: (c.funds_received + amount) as u64, ..*c })
                &&& p.1 == (CharityStatus { total_donations: (s.total_donations + amount) as u64, ..*s })
            },
            Err(e) => {
                &&& !c.verified
                &&& e == CharityError::NotVerified
            },
        },
{
    if c.verified {
        let base = c.clone();
        let nc = Charity { funds_received: c.funds_received + amount, ..base };
        let ns = CharityStatus { total_donations: s.total_donations + amount, ..*s };
        Ok((nc, ns))
    } else {
        Err(CharityError::NotVerified)
    }
}

} // verus!
