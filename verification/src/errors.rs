//! The domain errors each capability operation reports, and how storage
//! refusals and authorization failures become them.
use vstd::prelude::*;

use crate::authorize::AuthorizationFailure;
use crate::domain::DomainFailure;

verus! {

/// Domain errors of the ordinary portfolio's mutations: creating and updating
/// an initiative, and adding an initiative update. `Unknown` carries the code
/// of an error this version does not know.
#[derive(Clone, Debug, PartialEq, Eq)]
pub enum PortfolioMutationError {
    InvalidRequest,
    NotFound,
    Forbidden,
    Unauthenticated,
    AlreadyExists,
    Archived,
    IdempotencyConflict,
    OperationInProgress,
    RevisionConflict,
    Unknown(String),
}

/// Domain errors of the ordinary portfolio's reads: getting and listing
/// initiatives, listing projects and updates, reading a rollup.
#[derive(Clone, Debug, PartialEq, Eq)]
pub enum PortfolioReadError {
    InvalidRequest,
    NotFound,
    Forbidden,
    Unauthenticated,
    Unknown(String),
}

/// Domain errors of the administrative mutations: archiving, attaching,
/// refreshing, detaching and reordering.
#[derive(Clone, Debug, PartialEq, Eq)]
pub enum AdminError {
    InvalidRequest,
    NotFound,
    Forbidden,
    Unauthenticated,
    AlreadyAttached,
    Archived,
    IdempotencyConflict,
    NotAttached,
    OperationInProgress,
    PositionConflict,
    RevisionConflict,
    Unknown(String),
}

/// The mutation error a storage refusal becomes; refusals that the ordinary
/// portfolio does not name are invalid requests.
pub open spec fn portfolio_error_of(failure: DomainFailure) -> PortfolioMutationError {
    match failure {
        DomainFailure::NotFound => PortfolioMutationError::NotFound,
        DomainFailure::Archived => PortfolioMutationError::Archived,
        DomainFailure::RevisionConflict => PortfolioMutationError::RevisionConflict,
        DomainFailure::IdempotencyConflict => PortfolioMutationError::IdempotencyConflict,
        DomainFailure::OperationInProgress => PortfolioMutationError::OperationInProgress,
        DomainFailure::AlreadyExists => PortfolioMutationError::AlreadyExists,
        _ => PortfolioMutationError::InvalidRequest,
    }
}

/// Maps a storage refusal onto a portfolio mutation error.
pub fn portfolio_error(failure: DomainFailure) -> (r: PortfolioMutationError)
    ensures
        r == portfolio_error_of(failure),
{
    match failure {
        DomainFailure::NotFound => PortfolioMutationError::NotFound,
        DomainFailure::Archived => PortfolioMutationError::Archived,
        DomainFailure::RevisionConflict => PortfolioMutationError::RevisionConflict,
        DomainFailure::IdempotencyConflict => PortfolioMutationError::IdempotencyConflict,
        DomainFailure::OperationInProgress => PortfolioMutationError::OperationInProgress,
        DomainFailure::AlreadyExists => PortfolioMutationError::AlreadyExists,
        _ => PortfolioMutationError::InvalidRequest,
    }
}

/// Maps a storage refusal onto a portfolio read error: only a missing
/// initiative is reported as such.
pub fn read_error(failure: DomainFailure) -> (r: PortfolioReadError)
    ensures
        r == if failure == DomainFailure::NotFound {
            PortfolioReadError::NotFound
        } else {
            PortfolioReadError::InvalidRequest
        },
{
    match failure {
        DomainFailure::NotFound => PortfolioReadError::NotFound,
        _ => PortfolioReadError::InvalidRequest,
    }
}

/// The administrative error a storage refusal becomes.
pub open spec fn admin_error_of(failure: DomainFailure) -> AdminError {
    match failure {
        DomainFailure::NotFound => AdminError::NotFound,
        DomainFailure::Archived => AdminError::Archived,
        DomainFailure::RevisionConflict => AdminError::RevisionConflict,
        DomainFailure::IdempotencyConflict => AdminError::IdempotencyConflict,
        DomainFailure::OperationInProgress => AdminError::OperationInProgress,
        DomainFailure::AlreadyAttached => AdminError::AlreadyAttached,
        DomainFailure::NotAttached => AdminError::NotAttached,
        DomainFailure::PositionConflict => AdminError::PositionConflict,
        _ => AdminError::InvalidRequest,
    }
}

/// Maps a storage refusal onto an administrative error.
pub fn admin_error(failure: DomainFailure) -> (r: AdminError)
    ensures
        r == admin_error_of(failure),
{
    match failure {
        DomainFailure::NotFound => AdminError::NotFound,
        DomainFailure::Archived => AdminError::Archived,
        DomainFailure::RevisionConflict => AdminError::RevisionConflict,
        DomainFailure::IdempotencyConflict => AdminError::IdempotencyConflict,
        DomainFailure::OperationInProgress => AdminError::OperationInProgress,
        DomainFailure::AlreadyAttached => AdminError::AlreadyAttached,
        DomainFailure::NotAttached => AdminError::NotAttached,
        DomainFailure::PositionConflict => AdminError::PositionConflict,
        _ => AdminError::InvalidRequest,
    }
}

/// The domain error an authorization failure becomes for a portfolio
/// mutation; `None` for a runtime failure, which is reported as such.
pub fn portfolio_auth_error(failure: &AuthorizationFailure) -> (r: Option<PortfolioMutationError>)
    ensures
        r == match failure {
            AuthorizationFailure::Unauthenticated => Some(PortfolioMutationError::Unauthenticated),
            AuthorizationFailure::Forbidden => Some(PortfolioMutationError::Forbidden),
            AuthorizationFailure::Runtime(_) => None::<PortfolioMutationError>,
        },
{
    match failure {
        AuthorizationFailure::Unauthenticated => Some(PortfolioMutationError::Unauthenticated),
        AuthorizationFailure::Forbidden => Some(PortfolioMutationError::Forbidden),
        AuthorizationFailure::Runtime(_) => None,
    }
}

/// The domain error an authorization failure becomes for a portfolio read.
pub fn read_auth_error(failure: &AuthorizationFailure) -> (r: Option<PortfolioReadError>)
    ensures
        r == match failure {
            AuthorizationFailure::Unauthenticated => Some(PortfolioReadError::Unauthenticated),
            AuthorizationFailure::Forbidden => Some(PortfolioReadError::Forbidden),
            AuthorizationFailure::Runtime(_) => None::<PortfolioReadError>,
        },
{
    match failure {
        AuthorizationFailure::Unauthenticated => Some(PortfolioReadError::Unauthenticated),
        AuthorizationFailure::Forbidden => Some(PortfolioReadError::Forbidden),
        AuthorizationFailure::Runtime(_) => None,
    }
}

/// The domain error an authorization failure becomes for an administrative
/// mutation.
pub fn admin_auth_error(failure: &AuthorizationFailure) -> (r: Option<AdminError>)
    ensures
        r == match failure {
            AuthorizationFailure::Unauthenticated => Some(AdminError::Unauthenticated),
            AuthorizationFailure::Forbidden => Some(AdminError::Forbidden),
            AuthorizationFailure::Runtime(_) => None::<AdminError>,
        },
{
    match failure {
        AuthorizationFailure::Unauthenticated => Some(AdminError::Unauthenticated),
        AuthorizationFailure::Forbidden => Some(AdminError::Forbidden),
        AuthorizationFailure::Runtime(_) => None,
    }
}

} // verus!
