use vstd::prelude::*;

use crate::ledger::Contributions;

verus! {

/// The one fungible asset that a project accepts; fixed at creation.
#[derive(Debug, PartialEq, Eq)]
pub enum TokenConfig {
    /// Settled by the host's own transfers, identified by its denomination.
    Native { denom: String },
    /// Administered by a token account; pledges arrive as notifications from it
    /// and payouts are transfer requests addressed to it.
    CW20 { addr: String },
}

/// Lifecycle of a project. `Succeeded` is stored by the pledge that reaches
/// the target; `Failed` is stored by the first refund after a failed
/// deadline, and seen by queries as soon as the deadline has passed.
#[derive(Clone, Copy, Debug, PartialEq, Eq, Structural)]
pub enum Status {
    Ongoing,
    Succeeded,
    Failed,
}

/// The single funding campaign of an instance.
#[derive(Debug, PartialEq, Eq)]
pub struct ProjectInfo {
    pub title: String,
    pub description: String,
    pub project_owner: String,
    /// Amount to raise.
    pub target_amount: u128,
    /// Deadline, in seconds since the Unix epoch.
    pub end_time: u64,
    /// Sum of all accepted pledges; never decreases.
    pub current_amount: u128,
    pub status: Status,
}

/// The project after a pledge of `amount`: the total grows by it, and the
/// status becomes `Succeeded` once the total reaches the target.
pub open spec fn credited(p: ProjectInfo, amount: u128) -> ProjectInfo {
    let total = (p.current_amount + amount) as u128;
    ProjectInfo {
        current_amount: total,
        status: if p.target_amount <= total {
            Status::Succeeded
        } else {
            p.status
        },
        ..p
    }
}

/// The deadline has passed with the target unmet, and the project never
/// succeeded. Shared by the refund guard and the project query.
pub open spec fn has_failed(p: ProjectInfo, now: u64) -> bool {
    &&& p.status != Status::Succeeded
    &&& p.end_time <= now
    &&& p.current_amount < p.target_amount
}

/// The status as seen at time `now`: `Succeeded` once stored, `Failed`
/// where the deadline passed with the target unmet, `Ongoing` otherwise.
pub open spec fn status_at(p: ProjectInfo, now: u64) -> Status {
    if p.status == Status::Succeeded {
        Status::Succeeded
    } else if has_failed(p, now) {
        Status::Failed
    } else {
        Status::Ongoing
    }
}

/// Whole state of an instance: the asset, the project and the ledger.
pub struct State {
    pub config: TokenConfig,
    pub project: ProjectInfo,
    pub contributions: Contributions,
}

impl State {
    /// Invariant kept by every operation: a stored `Failed` means the target
    /// was missed, a stored `Succeeded` that it was reached, and the ledger
    /// never owes more than was raised: neither its sum nor any single entry
    /// exceeds the total.
    pub open spec fn wf(&self) -> bool {
        &&& self.contributions.wf()
        &&& self.contributions.total() <= self.project.current_amount
        &&& self.project.status == Status::Failed ==> self.project.current_amount
            < self.project.target_amount
        &&& self.project.status == Status::Succeeded ==> self.project.target_amount
            <= self.project.current_amount
        &&& forall|k: Seq<char>| #[trigger]
            self.contributions@.contains_key(k) ==> self.contributions@[k]
                <= self.project.current_amount
    }
}

impl TokenConfig {
    /// A copy of this configuration.
    pub fn duplicate(&self) -> (r: TokenConfig)
        ensures
            r == *self,
    {
        match self {
            TokenConfig::Native { denom } => TokenConfig::Native { denom: denom.clone() },
            TokenConfig::CW20 { addr } => TokenConfig::CW20 { addr: addr.clone() },
        }
    }
}

impl State {
    /// Whether the invariant holds, for a state assembled from stored parts.
    pub fn is_well_formed(&self) -> (r: bool)
        requires
            self.contributions.wf(),
        ensures
            r == self.wf(),
    {
        (self.project.status != Status::Failed || self.project.current_amount
            < self.project.target_amount) && (self.project.status != Status::Succeeded
            || self.project.target_amount <= self.project.current_amount)
            && self.contributions.total_at_most(self.project.current_amount)
            && self.contributions.all_at_most(self.project.current_amount)
    }
}

impl ProjectInfo {
    /// The status as seen at time `now` (see `status_at`).
    pub fn status_as_of(&self, now: u64) -> (r: Status)
        ensures
            r == status_at(*self, now),
    {
        if self.status == Status::Succeeded {
            Status::Succeeded
        } else if self.end_time <= now && self.current_amount < self.target_amount {
            Status::Failed
        } else {
            Status::Ongoing
        }
    }
}

} // verus!
