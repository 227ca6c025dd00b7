//! Agent Tools over an explicitly bound ordinary Project Portfolio capability:
//! the catalog, the routing of a tool name to its operation, and the tool
//! errors that the operation's domain errors become.
use vstd::prelude::*;

use crate::errors::{PortfolioMutationError, PortfolioReadError};
use crate::text::text_equals;
use crate::tools::{
    domain_error_details, execution_failed, json_plain, tool, tool_error_view, ToolError,
    ToolErrorView, ToolExecutionClass, ToolSpec,
};

verus! {

pub const CREATE_INITIATIVE_TOOL: &'static str = "project_portfolio_create_initiative";

pub const GET_INITIATIVE_TOOL: &'static str = "project_portfolio_get_initiative";

pub const LIST_INITIATIVES_TOOL: &'static str = "project_portfolio_list_initiatives";

pub const UPDATE_INITIATIVE_TOOL: &'static str = "project_portfolio_update_initiative";

pub const LIST_INITIATIVE_PROJECTS_TOOL: &'static str = "project_portfolio_list_initiative_projects";

pub const ADD_INITIATIVE_UPDATE_TOOL: &'static str = "project_portfolio_add_initiative_update";

pub const LIST_INITIATIVE_UPDATES_TOOL: &'static str = "project_portfolio_list_initiative_updates";

pub const READ_ROLLUP_TOOL: &'static str = "project_portfolio_read_rollup";

/// The operation a tool invokes.
#[derive(Clone, Copy, Debug, PartialEq, Eq, Structural)]
pub enum PortfolioTool {
    CreateInitiative,
    GetInitiative,
    ListInitiatives,
    UpdateInitiative,
    ListInitiativeProjects,
    AddInitiativeUpdate,
    ListInitiativeUpdates,
    ReadRollup,
}

/// The operation named `name`, if any.
pub open spec fn tool_named(name: Seq<char>) -> Option<PortfolioTool> {
    if name == CREATE_INITIATIVE_TOOL@ {
        Some(PortfolioTool::CreateInitiative)
    } else if name == GET_INITIATIVE_TOOL@ {
        Some(PortfolioTool::GetInitiative)
    } else if name == LIST_INITIATIVES_TOOL@ {
        Some(PortfolioTool::ListInitiatives)
    } else if name == UPDATE_INITIATIVE_TOOL@ {
        Some(PortfolioTool::UpdateInitiative)
    } else if name == LIST_INITIATIVE_PROJECTS_TOOL@ {
        Some(PortfolioTool::ListInitiativeProjects)
    } else if name == ADD_INITIATIVE_UPDATE_TOOL@ {
        Some(PortfolioTool::AddInitiativeUpdate)
    } else if name == LIST_INITIATIVE_UPDATES_TOOL@ {
        Some(PortfolioTool::ListInitiativeUpdates)
    } else if name == READ_ROLLUP_TOOL@ {
        Some(PortfolioTool::ReadRollup)
    } else {
        None
    }
}

/// Routes a tool name to the operation it invokes; an unknown name has none
/// (and the execution reports the tool as not found).
pub fn route(name: &str) -> (r: Option<PortfolioTool>)
    ensures
        r == tool_named(name@),
{
    if text_equals(name, CREATE_INITIATIVE_TOOL) {
        Some(PortfolioTool::CreateInitiative)
    } else if text_equals(name, GET_INITIATIVE_TOOL) {
        Some(PortfolioTool::GetInitiative)
    } else if text_equals(name, LIST_INITIATIVES_TOOL) {
        Some(PortfolioTool::ListInitiatives)
    } else if text_equals(name, UPDATE_INITIATIVE_TOOL) {
        Some(PortfolioTool::UpdateInitiative)
    } else if text_equals(name, LIST_INITIATIVE_PROJECTS_TOOL) {
        Some(PortfolioTool::ListInitiativeProjects)
    } else if text_equals(name, ADD_INITIATIVE_UPDATE_TOOL) {
        Some(PortfolioTool::AddInitiativeUpdate)
    } else if text_equals(name, LIST_INITIATIVE_UPDATES_TOOL) {
        Some(PortfolioTool::ListInitiativeUpdates)
    } else if text_equals(name, READ_ROLLUP_TOOL) {
        Some(PortfolioTool::ReadRollup)
    } else {
        None
    }
}

/// The name of the tool that invokes `operation`.
pub fn tool_name(operation: PortfolioTool) -> (r: &'static str)
    ensures
        tool_named(r@) == Some(operation),
        json_plain(r@),
{
    proof {
        reveal_strlit("project_portfolio_create_initiative");
        reveal_strlit("project_portfolio_get_initiative");
        reveal_strlit("project_portfolio_list_initiatives");
        reveal_strlit("project_portfolio_update_initiative");
        reveal_strlit("project_portfolio_list_initiative_projects");
        reveal_strlit("project_portfolio_add_initiative_update");
        reveal_strlit("project_portfolio_list_initiative_updates");
        reveal_strlit("project_portfolio_read_rollup");
        assert(CREATE_INITIATIVE_TOOL@.len() == 35);
        assert(GET_INITIATIVE_TOOL@.len() == 32);
        assert(LIST_INITIATIVES_TOOL@.len() == 34);
        assert(UPDATE_INITIATIVE_TOOL@.len() == 35);
        assert(LIST_INITIATIVE_PROJECTS_TOOL@.len() == 42);
        assert(ADD_INITIATIVE_UPDATE_TOOL@.len() == 39);
        assert(LIST_INITIATIVE_UPDATES_TOOL@.len() == 41);
        assert(READ_ROLLUP_TOOL@.len() == 29);
        assert(UPDATE_INITIATIVE_TOOL@[18] != CREATE_INITIATIVE_TOOL@[18]);
    }
    match operation {
        PortfolioTool::CreateInitiative => CREATE_INITIATIVE_TOOL,
        PortfolioTool::GetInitiative => GET_INITIATIVE_TOOL,
        PortfolioTool::ListInitiatives => LIST_INITIATIVES_TOOL,
        PortfolioTool::UpdateInitiative => UPDATE_INITIATIVE_TOOL,
        PortfolioTool::ListInitiativeProjects => LIST_INITIATIVE_PROJECTS_TOOL,
        PortfolioTool::AddInitiativeUpdate => ADD_INITIATIVE_UPDATE_TOOL,
        PortfolioTool::ListInitiativeUpdates => LIST_INITIATIVE_UPDATES_TOOL,
        PortfolioTool::ReadRollup => READ_ROLLUP_TOOL,
    }
}

/// The catalog: name, description and execution class of each tool. Reads
/// may run in parallel; mutations run exclusively.
pub open spec fn catalog() -> Seq<(Seq<char>, Seq<char>, ToolExecutionClass)> {
    seq![
        (
            GET_INITIATIVE_TOOL@,
            "Get one visible initiative and its current revision."@,
            ToolExecutionClass::ParallelSafe,
        ),
        (
            LIST_INITIATIVES_TOOL@,
            "List visible initiatives with bounded stable pagination."@,
            ToolExecutionClass::ParallelSafe,
        ),
        (
            LIST_INITIATIVE_PROJECTS_TOOL@,
            "List the ordered project snapshots attached to one initiative."@,
            ToolExecutionClass::ParallelSafe,
        ),
        (
            LIST_INITIATIVE_UPDATES_TOOL@,
            "List structured health updates for one initiative with bounded pagination."@,
            ToolExecutionClass::ParallelSafe,
        ),
        (
            READ_ROLLUP_TOOL@,
            "Read the current rollup derived from Portfolio-owned project snapshots."@,
            ToolExecutionClass::ParallelSafe,
        ),
        (
            CREATE_INITIATIVE_TOOL@,
            "Create one initiative with a stable ID. Reuse the same idempotency_key when retrying the same intent."@,
            ToolExecutionClass::Exclusive,
        ),
        (
            UPDATE_INITIATIVE_TOOL@,
            "Update one initiative using its current revision. Reuse the same idempotency_key for retries."@,
            ToolExecutionClass::Exclusive,
        ),
        (
            ADD_INITIATIVE_UPDATE_TOOL@,
            "Add one structured health update using the initiative revision. Reuse the same idempotency_key for retries."@,
            ToolExecutionClass::Exclusive,
        ),
    ]
}

/// The plain view of a catalog entry.
pub open spec fn spec_view(t: ToolSpec) -> (Seq<char>, Seq<char>, ToolExecutionClass) {
    (t.name@, t.description@, t.execution)
}

/// The tools this adapter offers, without their input schemas.
pub fn tool_definitions() -> (r: Vec<ToolSpec>)
    ensures
        r@.len() == catalog().len(),
        forall|i: int| 0 <= i < r@.len() ==> spec_view(#[trigger] r@[i]) == catalog()[i],
{
    let mut tools: Vec<ToolSpec> = Vec::new();
    tools.push(tool(
        GET_INITIATIVE_TOOL,
        "Get one visible initiative and its current revision.",
        ToolExecutionClass::ParallelSafe,
    ));
    tools.push(tool(
        LIST_INITIATIVES_TOOL,
        "List visible initiatives with bounded stable pagination.",
        ToolExecutionClass::ParallelSafe,
    ));
    tools.push(tool(
        LIST_INITIATIVE_PROJECTS_TOOL,
        "List the ordered project snapshots attached to one initiative.",
        ToolExecutionClass::ParallelSafe,
    ));
    tools.push(tool(
        LIST_INITIATIVE_UPDATES_TOOL,
        "List structured health updates for one initiative with bounded pagination.",
        ToolExecutionClass::ParallelSafe,
    ));
    tools.push(tool(
        READ_ROLLUP_TOOL,
        "Read the current rollup derived from Portfolio-owned project snapshots.",
        ToolExecutionClass::ParallelSafe,
    ));
    tools.push(tool(
        CREATE_INITIATIVE_TOOL,
        "Create one initiative with a stable ID. Reuse the same idempotency_key when retrying the same intent.",
        ToolExecutionClass::Exclusive,
    ));
    tools.push(tool(
        UPDATE_INITIATIVE_TOOL,
        "Update one initiative using its current revision. Reuse the same idempotency_key for retries.",
        ToolExecutionClass::Exclusive,
    ));
    tools.push(tool(
        ADD_INITIATIVE_UPDATE_TOOL,
        "Add one structured health update using the initiative revision. Reuse the same idempotency_key for retries.",
        ToolExecutionClass::Exclusive,
    ));
    tools
}

/// The message of every rejection.
pub open spec fn rejection_message() -> Seq<char> {
    "Project Portfolio rejected the requested operation."@
}

/// The tool error of a rejection with `reason_code`.
pub open spec fn rejected_view(reason_code: Seq<char>) -> ToolErrorView {
    ToolErrorView::ExecutionFailed(reason_code, rejection_message(), domain_error_details(reason_code))
}

/// An execution failure for a domain error that the operation reported.
pub fn rejected(reason_code: &str) -> (r: ToolError)
    requires
        json_plain(reason_code@),
    ensures
        tool_error_view(r) == rejected_view(reason_code@),
{
    execution_failed(reason_code, "Project Portfolio rejected the requested operation.")
}

/// A domain error that becomes a tool error.
pub trait DomainToolError {
    /// The tool error this domain error becomes.
    spec fn tool_error_of(&self) -> ToolErrorView;

    /// Converts this domain error.
    fn to_tool_error(&self) -> (r: ToolError)
        ensures
            tool_error_view(r) == self.tool_error_of(),
    ;
}

impl DomainToolError for PortfolioReadError {
    open spec fn tool_error_of(&self) -> ToolErrorView {
        match self {
            PortfolioReadError::InvalidRequest => ToolErrorView::InvalidArguments,
            PortfolioReadError::NotFound => ToolErrorView::NotFound,
            PortfolioReadError::Forbidden => ToolErrorView::PermissionDenied,
            PortfolioReadError::Unauthenticated => ToolErrorView::PermissionDenied,
            PortfolioReadError::Unknown(_) => rejected_view("unknown_domain_error"@),
        }
    }

    fn to_tool_error(&self) -> (r: ToolError) {
        proof {
            reveal_strlit("unknown_domain_error");
        }
        match self {
            PortfolioReadError::InvalidRequest => ToolError::InvalidArguments,
            PortfolioReadError::NotFound => ToolError::NotFound,
            PortfolioReadError::Forbidden => ToolError::PermissionDenied,
            PortfolioReadError::Unauthenticated => ToolError::PermissionDenied,
            PortfolioReadError::Unknown(_) => rejected("unknown_domain_error"),
        }
    }
}

impl DomainToolError for PortfolioMutationError {
    open spec fn tool_error_of(&self) -> ToolErrorView {
        match self {
            PortfolioMutationError::InvalidRequest => ToolErrorView::InvalidArguments,
            PortfolioMutationError::NotFound => ToolErrorView::NotFound,
            PortfolioMutationError::Forbidden => ToolErrorView::PermissionDenied,
            PortfolioMutationError::Unauthenticated => ToolErrorView::PermissionDenied,
            PortfolioMutationError::AlreadyExists => rejected_view("already_exists"@),
            PortfolioMutationError::Archived => rejected_view("archived"@),
            PortfolioMutationError::IdempotencyConflict => rejected_view("idempotency_conflict"@),
            PortfolioMutationError::OperationInProgress => rejected_view("operation_in_progress"@),
            PortfolioMutationError::RevisionConflict => rejected_view("revision_conflict"@),
            PortfolioMutationError::Unknown(_) => rejected_view("unknown_domain_error"@),
        }
    }

    fn to_tool_error(&self) -> (r: ToolError) {
        proof {
            reveal_strlit("already_exists");
            reveal_strlit("archived");
            reveal_strlit("idempotency_conflict");
            reveal_strlit("operation_in_progress");
            reveal_strlit("revision_conflict");
            reveal_strlit("unknown_domain_error");
        }
        match self {
            PortfolioMutationError::InvalidRequest => ToolError::InvalidArguments,
            PortfolioMutationError::NotFound => ToolError::NotFound,
            PortfolioMutationError::Forbidden => ToolError::PermissionDenied,
            PortfolioMutationError::Unauthenticated => ToolError::PermissionDenied,
            PortfolioMutationError::AlreadyExists => rejected("already_exists"),
            PortfolioMutationError::Archived => rejected("archived"),
            PortfolioMutationError::IdempotencyConflict => rejected("idempotency_conflict"),
            PortfolioMutationError::OperationInProgress => rejected("operation_in_progress"),
            PortfolioMutationError::RevisionConflict => rejected("revision_conflict"),
            PortfolioMutationError::Unknown(_) => rejected("unknown_domain_error"),
        }
    }
}

/// The tool error a domain error of the bound capability becomes.
pub fn map_domain_error<E: DomainToolError>(error: &E) -> (r: ToolError)
    ensures
        tool_error_view(r) == error.tool_error_of(),
{
    error.to_tool_error()
}

} // verus!
