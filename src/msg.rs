use vstd::prelude::*;

use crate::state::{Status, TokenConfig};

verus! {

/// An amount of a native asset attached to a call.
#[derive(Debug, PartialEq, Eq)]
pub struct Coin {
    pub denom: String,
    pub amount: u128,
}

/// Who called, and which native funds came with the call.
pub struct MessageInfo {
    pub sender: String,
    pub funds: Vec<Coin>,
}

/// Creation input of a project; the caller becomes its organizer.
pub struct InstantiateMsg {
    pub title: String,
    pub description: String,
    pub token: TokenConfig,
    pub target_amount: u128,
    /// Deadline, in seconds since the Unix epoch.
    pub end_time: u64,
}

/// Notification from a token account that `amount` was moved into this
/// instance's custody on behalf of `sender`.
pub struct ReceiveMsg {
    pub sender: String,
    pub amount: u128,
}

pub enum ExecuteMsg {
    /// Pledge the attached native funds.
    Contribute {},
    /// Pledge of a delegated token, sent by its token account.
    Receive(ReceiveMsg),
    /// The organizer collects the funds of a succeeded project.
    Withdraw {},
    /// A contributor takes back their pledge from a failed project.
    Refund {},
}

pub enum QueryMsg {
    GetProjectInfo {},
    GetContribution { address: String },
}

/// Snapshot of the project, with the status as seen at query time.
#[derive(Debug, PartialEq, Eq)]
pub struct GetProjectInfoResponse {
    pub title: String,
    pub description: String,
    pub project_owner: String,
    pub token: TokenConfig,
    pub target_amount: u128,
    pub end_time: u64,
    pub current_amount: u128,
    pub status: Status,
}

/// The asset and the amount pledged by one account (zero where none).
#[derive(Debug, PartialEq, Eq)]
pub struct GetContributionResponse {
    pub token: TokenConfig,
    pub amount: u128,
}

#[derive(Debug, PartialEq, Eq)]
pub enum QueryResponse {
    ProjectInfo(GetProjectInfoResponse),
    Contribution(GetContributionResponse),
}

/// An outgoing transfer of `amount` of the project's asset to `recipient`,
/// to be settled by the host (native) or by the token account (delegated).
#[derive(Debug, PartialEq, Eq)]
pub struct Transfer {
    pub token: TokenConfig,
    pub recipient: String,
    pub amount: u128,
}

/// What a successful operation hands back to the host.
#[derive(Debug, PartialEq, Eq)]
pub enum Response {
    /// A pledge was recorded; no funds leave the instance.
    Contributed { contributor: String, token: TokenConfig, amount: u128 },
    /// Exactly one transfer out of the instance.
    Payout(Transfer),
}

} // verus!
