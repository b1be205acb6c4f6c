use vstd::prelude::*;

verus! {

/// Broad class of a rejection.
#[derive(Clone, Copy, Debug, PartialEq, Eq, Structural)]
pub enum ErrorKind {
    /// Wrong caller for the operation.
    Unauthorized,
    /// The deadline gate is not met, in either direction.
    NotYetEligible,
    /// Wrong or absent asset, or a notification from the wrong token account.
    WrongAsset,
    /// The project's status does not allow the operation.
    InvalidState,
    /// No ledger entry for the caller.
    NotFound,
}

/// A rejected operation; each variant names the precondition that failed.
/// A rejected operation leaves the state as it was.
#[derive(Clone, Copy, Debug, PartialEq, Eq, Structural)]
pub enum ContractError {
    /// The organizer tried to pledge.
    OwnerCannotContribute,
    /// Someone other than the organizer tried to withdraw.
    NotProjectOwner,
    /// A pledge arrived at or after the deadline.
    DeadlineExceeded,
    /// A payout was asked for before the deadline.
    ProjectNotEnded,
    /// The pledge carried no funds of the project's native denomination.
    DenomNotSent,
    /// A token notification came from an account other than the configured one.
    WrongTokenSender,
    /// The pledge used the settlement kind that the project is not configured for.
    WrongTokenKind,
    /// A pledge to a project that has failed.
    ProjectNotOngoing,
    /// A withdrawal from a project that has not succeeded.
    ProjectNotSucceeded,
    /// A refund from a project that has not failed.
    ProjectNotFailed,
    /// A refund by an account without a ledger entry.
    NoContribution,
}

impl ContractError {
    pub open spec fn spec_kind(&self) -> ErrorKind {
        match self {
            ContractError::OwnerCannotContribute => ErrorKind::Unauthorized,
            ContractError::NotProjectOwner => ErrorKind::Unauthorized,
            ContractError::DeadlineExceeded => ErrorKind::NotYetEligible,
            ContractError::ProjectNotEnded => ErrorKind::NotYetEligible,
            ContractError::DenomNotSent => ErrorKind::WrongAsset,
            ContractError::WrongTokenSender => ErrorKind::WrongAsset,
            ContractError::WrongTokenKind => ErrorKind::WrongAsset,
            ContractError::ProjectNotOngoing => ErrorKind::InvalidState,
            ContractError::ProjectNotSucceeded => ErrorKind::InvalidState,
            ContractError::ProjectNotFailed => ErrorKind::InvalidState,
            ContractError::NoContribution => ErrorKind::NotFound,
        }
    }

    /// The class of this rejection.
    #[verifier::when_used_as_spec(spec_kind)]
    pub fn kind(&self) -> (r: ErrorKind)
        ensures
            r == self.spec_kind(),
    {
        match self {
            ContractError::OwnerCannotContribute => ErrorKind::Unauthorized,
            ContractError::NotProjectOwner => ErrorKind::Unauthorized,
            ContractError::DeadlineExceeded => ErrorKind::NotYetEligible,
            ContractError::ProjectNotEnded => ErrorKind::NotYetEligible,
            ContractError::DenomNotSent => ErrorKind::WrongAsset,
            ContractError::WrongTokenSender => ErrorKind::WrongAsset,
            ContractError::WrongTokenKind => ErrorKind::WrongAsset,
            ContractError::ProjectNotOngoing => ErrorKind::InvalidState,
            ContractError::ProjectNotSucceeded => ErrorKind::InvalidState,
            ContractError::ProjectNotFailed => ErrorKind::InvalidState,
            ContractError::NoContribution => ErrorKind::NotFound,
        }
    }
}

} // verus!
