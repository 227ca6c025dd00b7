//! The capability operations the plugin provides, the role each belongs to,
//! and the authority each requires.
use vstd::prelude::*;
use vstd::string::*;

use crate::authorize::AuthRequest;
use crate::config::ProjectPortfolioConfig;

verus! {

/// Permission of ordinary reads.
pub const PORTFOLIO_READ: &'static str = "portfolio.initiatives.read";

/// Permission of ordinary mutations.
pub const PORTFOLIO_WRITE: &'static str = "portfolio.initiatives.write";

/// Permission of administrative mutations.
pub const PORTFOLIO_ADMIN: &'static str = "portfolio.initiatives.admin";

/// The two roles the plugin provides: ordinary portfolio use and
/// administration of archival and membership.
#[derive(Clone, Copy, Debug, PartialEq, Eq, Structural)]
pub enum Role {
    Portfolio,
    Admin,
}

/// A capability operation of either role.
#[derive(Clone, Copy, Debug, PartialEq, Eq, Structural)]
pub enum Operation {
    CreateInitiative,
    GetInitiative,
    ListInitiatives,
    UpdateInitiative,
    ListInitiativeProjects,
    AddInitiativeUpdate,
    ListInitiativeUpdates,
    ReadRollup,
    ArchiveInitiative,
    AttachProject,
    UpdateProjectSnapshot,
    DetachProject,
    ReorderProjects,
}

/// Whether the operation only reads.
pub open spec fn is_read(op: Operation) -> bool {
    match op {
        Operation::GetInitiative | Operation::ListInitiatives | Operation::ListInitiativeProjects
        | Operation::ListInitiativeUpdates | Operation::ReadRollup => true,
        _ => false,
    }
}

/// The role that provides the operation.
pub open spec fn role_of(op: Operation) -> Role {
    match op {
        Operation::ArchiveInitiative | Operation::AttachProject | Operation::UpdateProjectSnapshot
        | Operation::DetachProject | Operation::ReorderProjects => Role::Admin,
        _ => Role::Portfolio,
    }
}

/// The permission Access Control must grant for the operation.
pub open spec fn permission_of(op: Operation) -> Seq<char> {
    if role_of(op) == Role::Admin {
        PORTFOLIO_ADMIN@
    } else if is_read(op) {
        PORTFOLIO_READ@
    } else {
        PORTFOLIO_WRITE@
    }
}

/// The role that provides `op`.
pub fn role(op: Operation) -> (r: Role)
    ensures
        r == role_of(op),
{
    match op {
        Operation::ArchiveInitiative | Operation::AttachProject | Operation::UpdateProjectSnapshot
        | Operation::DetachProject | Operation::ReorderProjects => Role::Admin,
        _ => Role::Portfolio,
    }
}

/// The permission `op` requires.
pub fn permission(op: Operation) -> (r: &'static str)
    ensures
        r@ == permission_of(op),
{
    match op {
        Operation::ArchiveInitiative | Operation::AttachProject | Operation::UpdateProjectSnapshot
        | Operation::DetachProject | Operation::ReorderProjects => PORTFOLIO_ADMIN,
        Operation::GetInitiative | Operation::ListInitiatives | Operation::ListInitiativeProjects
        | Operation::ListInitiativeUpdates | Operation::ReadRollup => PORTFOLIO_READ,
        _ => PORTFOLIO_WRITE,
    }
}

/// The caller allowlist of the role that provides `op`.
pub open spec fn callers_of(config: ProjectPortfolioConfig, op: Operation) -> Seq<String> {
    if role_of(op) == Role::Admin {
        config.admin_callers@
    } else {
        config.portfolio_callers@
    }
}

fn copy_callers(callers: &Vec<String>) -> (r: Vec<String>)
    ensures
        r@.len() == callers@.len(),
        forall|i: int| 0 <= i < r@.len() ==> #[trigger] r@[i]@ == callers@[i]@,
{
    let mut out: Vec<String> = Vec::new();
    let mut i: usize = 0;
    while i < callers.len()
        invariant
            i <= callers@.len(),
            out@.len() == i,
            forall|k: int| 0 <= k < i ==> #[trigger] out@[k]@ == callers@[k]@,
        decreases callers@.len() - i,
    {
        out.push(callers[i].clone());
        i += 1;
    }
    out
}

/// What the authorization of `op` on `organization_id` is checked against:
/// the allowlist of the operation's role, and the organization.
pub fn auth_request(config: &ProjectPortfolioConfig, op: Operation, organization_id: &str) -> (r:
    AuthRequest)
    ensures
        r.callers@.len() == callers_of(*config, op).len(),
        forall|i: int|
            0 <= i < r.callers@.len() ==> #[trigger] r.callers@[i]@ == callers_of(*config, op)[i]@,
        r.organization_id@ == organization_id@,
{
    let callers = match role(op) {
        Role::Admin => copy_callers(&config.admin_callers),
        Role::Portfolio => copy_callers(&config.portfolio_callers),
    };
    AuthRequest { callers, organization_id: String::from_str(organization_id) }
}

} // verus!
