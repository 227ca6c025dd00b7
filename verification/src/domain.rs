//! The portfolio's storage rules: compare-and-swap revisions, command
//! receipts for idempotent mutations, and the preconditions of membership
//! changes. The surrounding transactions run against PostgreSQL; each rule
//! here decides on what a query returned.
use vstd::prelude::*;

use crate::text::bytes_equal;

verus! {

/// An initiative owns at most this many current project snapshots.
pub const MAX_PROJECTS_PER_INITIATIVE: i64 = 500;

/// A refusal that the portfolio's rules produce.
#[derive(Clone, Copy, Debug, PartialEq, Eq, Structural)]
pub enum DomainFailure {
    InvalidRequest,
    NotFound,
    Archived,
    RevisionConflict,
    IdempotencyConflict,
    OperationInProgress,
    AlreadyExists,
    AlreadyAttached,
    NotAttached,
    PositionConflict,
}

/// A failure of a storage operation's own logic: a domain refusal, or a
/// timestamp that could not be written.
#[derive(Clone, Copy, Debug, PartialEq, Eq, Structural)]
pub enum StorageError {
    Domain(DomainFailure),
    Time,
}

/// The row of an initiative as read `FOR UPDATE` at the start of a mutation.
#[derive(Clone, Copy, Debug, PartialEq, Eq, Structural)]
pub struct LockedInitiative {
    pub revision: i64,
    pub archived: bool,
}

/// The outcome of the compare-and-swap check on an initiative.
pub open spec fn mutable_revision_check(current: LockedInitiative, expected: i64) -> Result<
    (),
    StorageError,
> {
    if current.archived {
        Err(StorageError::Domain(DomainFailure::Archived))
    } else if current.revision != expected {
        Err(StorageError::Domain(DomainFailure::RevisionConflict))
    } else {
        Ok(())
    }
}

/// An archived initiative refuses every mutation; otherwise the caller's
/// expected revision must be the current one.
pub fn require_mutable_revision(current: &LockedInitiative, expected: i64) -> (r: Result<
    (),
    StorageError,
>)
    ensures
        r == mutable_revision_check(*current, expected),
{
    if current.archived {
        return Err(StorageError::Domain(DomainFailure::Archived));
    }
    if current.revision != expected {
        return Err(StorageError::Domain(DomainFailure::RevisionConflict));
    }
    Ok(())
}

/// A structured update is written at the initiative's next revision: the
/// compare-and-swap check passes, and the revision advances by exactly one.
pub fn next_update_revision(current: &LockedInitiative, expected: i64) -> (r: Result<
    i64,
    StorageError,
>)
    requires
        current.revision < i64::MAX,
    ensures
        r == match mutable_revision_check(*current, expected) {
            Ok(()) => Ok::<i64, StorageError>((current.revision + 1) as i64),
            Err(e) => Err::<i64, StorageError>(e),
        },
{
    match require_mutable_revision(current, expected) {
        Ok(()) => Ok(current.revision + 1),
        Err(e) => Err(e),
    }
}

/// The command receipt of one (caller, actor, operation, idempotency key):
/// the hash of the request that claimed it and, once the command committed,
/// its response.
#[derive(Clone, Debug)]
pub struct CommandReceipt<R> {
    pub request_hash: Vec<u8>,
    pub response: Option<R>,
}

/// The receipt a command writes when it claims its idempotency key.
pub fn pending_receipt<R>(hash: &[u8]) -> (r: CommandReceipt<R>)
    ensures
        r.request_hash@ == hash@,
        r.response is None,
{
    CommandReceipt { request_hash: vstd::slice::slice_to_vec(hash), response: None }
}

/// The receipt once the command has committed with `response`.
pub fn completed_receipt<R>(receipt: CommandReceipt<R>, response: R) -> (r: CommandReceipt<R>)
    ensures
        r.request_hash@ == receipt.request_hash@,
        r.response == Some(response),
{
    CommandReceipt { request_hash: receipt.request_hash, response: Some(response) }
}

/// What a command does on finding `existing` under its key: proceed
/// (`Ok(None)`), replay the stored response, or refuse.
pub open spec fn admission<R>(existing: Option<CommandReceipt<R>>, hash: Seq<u8>) -> Result<
    Option<R>,
    StorageError,
> {
    match existing {
        None => Ok(None),
        Some(receipt) => if receipt.request_hash@ != hash {
            Err(StorageError::Domain(DomainFailure::IdempotencyConflict))
        } else {
            match receipt.response {
                None => Err(StorageError::Domain(DomainFailure::OperationInProgress)),
                Some(response) => Ok(Some(response)),
            }
        },
    }
}

/// Admits a command: a key seen for the first time proceeds; a key already
/// claimed by a different request is an idempotency conflict; a key whose
/// command has not committed is in progress; otherwise the stored response
/// is replayed.
pub fn admit_command<R>(existing: Option<CommandReceipt<R>>, hash: &[u8]) -> (r: Result<
    Option<R>,
    StorageError,
>)
    ensures
        r == admission(existing, hash@),
{
    match existing {
        None => Ok(None),
        Some(receipt) => {
            if !bytes_equal(receipt.request_hash.as_slice(), hash) {
                return Err(StorageError::Domain(DomainFailure::IdempotencyConflict));
            }
            match receipt.response {
                None => Err(StorageError::Domain(DomainFailure::OperationInProgress)),
                Some(response) => Ok(Some(response)),
            }
        },
    }
}

/// The outcome of the checks that precede attaching a project.
pub open spec fn attach_check(already_attached: bool, project_count: i64) -> Result<(), StorageError> {
    if already_attached {
        Err(StorageError::Domain(DomainFailure::AlreadyAttached))
    } else if project_count >= MAX_PROJECTS_PER_INITIATIVE {
        Err(StorageError::Domain(DomainFailure::InvalidRequest))
    } else {
        Ok(())
    }
}

/// Attaching a project: refused when it is already attached, and when the
/// initiative already holds the maximum number of projects.
pub fn check_attach(already_attached: bool, project_count: i64) -> (r: Result<(), StorageError>)
    ensures
        r == attach_check(already_attached, project_count),
{
    if already_attached {
        return Err(StorageError::Domain(DomainFailure::AlreadyAttached));
    }
    if project_count >= MAX_PROJECTS_PER_INITIATIVE {
        return Err(StorageError::Domain(DomainFailure::InvalidRequest));
    }
    Ok(())
}

/// Refreshing a snapshot: refused when the initiative is archived, when the
/// project is not attached (`membership_revision` is `None`), and when the
/// membership revision is not the expected one.
pub fn check_snapshot_refresh(
    initiative: &LockedInitiative,
    membership_revision: Option<i64>,
    expected: i64,
) -> (r: Result<(), StorageError>)
    ensures
        r == if initiative.archived {
            Err(StorageError::Domain(DomainFailure::Archived))
        } else {
            match membership_revision {
                None => Err(StorageError::Domain(DomainFailure::NotAttached)),
                Some(current) => if current != expected {
                    Err(StorageError::Domain(DomainFailure::RevisionConflict))
                } else {
                    Ok(())
                },
            }
        },
{
    if initiative.archived {
        return Err(StorageError::Domain(DomainFailure::Archived));
    }
    match membership_revision {
        None => Err(StorageError::Domain(DomainFailure::NotAttached)),
        Some(current) => {
            if current != expected {
                Err(StorageError::Domain(DomainFailure::RevisionConflict))
            } else {
                Ok(())
            }
        },
    }
}

/// Detaching deletes the membership only at the expected revision. When no
/// row was deleted, a project that is still attached had another revision;
/// otherwise it was not attached.
pub fn detach_outcome(deleted_rows: u64, still_attached: bool) -> (r: Result<(), StorageError>)
    ensures
        r == if deleted_rows > 0 {
            Ok(())
        } else if still_attached {
            Err(StorageError::Domain(DomainFailure::RevisionConflict))
        } else {
            Err(StorageError::Domain(DomainFailure::NotAttached))
        },
{
    if deleted_rows > 0 {
        Ok(())
    } else if still_attached {
        Err(StorageError::Domain(DomainFailure::RevisionConflict))
    } else {
        Err(StorageError::Domain(DomainFailure::NotAttached))
    }
}

/// The SQLSTATE of a unique-constraint violation, `23505`.
pub open spec fn unique_violation_code(code: Seq<char>) -> bool {
    code == seq!['2', '3', '5', '0', '5']
}

/// Whether a database error's SQLSTATE reports a unique-constraint violation.
pub fn unique_violation(code: Option<&str>) -> (r: bool)
    ensures
        r == match code {
            Some(c) => unique_violation_code(c@),
            None => false,
        },
{
    match code {
        None => false,
        Some(c) => {
            if c.unicode_len() != 5 {
                return false;
            }
            let matches = c.get_char(0) == '2' && c.get_char(1) == '3' && c.get_char(2) == '5'
                && c.get_char(3) == '0' && c.get_char(4) == '5';
            proof {
                if matches {
                    assert(c@ =~= seq!['2', '3', '5', '0', '5']);
                }
            }
            matches
        },
    }
}

} // verus!
