//! Administrative Agent Tools over an explicitly bound Project Portfolio
//! Admin capability: the catalog, the routing of a tool name to its
//! operation, and the tool errors that administrative domain errors become.
use vstd::prelude::*;

use crate::errors::AdminError;
use crate::text::text_equals;
use crate::tools::{
    domain_error_details, execution_failed, json_plain, tool, tool_error_view, ToolError,
    ToolErrorView, ToolExecutionClass, ToolSpec,
};

verus! {

pub const ARCHIVE_INITIATIVE_TOOL: &'static str = "project_portfolio_admin_archive_initiative";

pub const ATTACH_PROJECT_TOOL: &'static str = "project_portfolio_admin_attach_project";

pub const UPDATE_PROJECT_SNAPSHOT_TOOL: &'static str = "project_portfolio_admin_update_project_snapshot";

pub const DETACH_PROJECT_TOOL: &'static str = "project_portfolio_admin_detach_project";

pub const REORDER_PROJECTS_TOOL: &'static str = "project_portfolio_admin_reorder_projects";

/// The administrative operation a tool invokes.
#[derive(Clone, Copy, Debug, PartialEq, Eq, Structural)]
pub enum AdminTool {
    ArchiveInitiative,
    AttachProject,
    UpdateProjectSnapshot,
    DetachProject,
    ReorderProjects,
}

/// The operation named `name`, if any.
pub open spec fn tool_named(name: Seq<char>) -> Option<AdminTool> {
    if name == ARCHIVE_INITIATIVE_TOOL@ {
        Some(AdminTool::ArchiveInitiative)
    } else if name == ATTACH_PROJECT_TOOL@ {
        Some(AdminTool::AttachProject)
    } else if name == UPDATE_PROJECT_SNAPSHOT_TOOL@ {
        Some(AdminTool::UpdateProjectSnapshot)
    } else if name == DETACH_PROJECT_TOOL@ {
        Some(AdminTool::DetachProject)
    } else if name == REORDER_PROJECTS_TOOL@ {
        Some(AdminTool::ReorderProjects)
    } else {
        None
    }
}

/// Routes a tool name to the operation it invokes; an unknown name has none
/// (and the execution reports the tool as not found).
pub fn route(name: &str) -> (r: Option<AdminTool>)
    ensures
        r == tool_named(name@),
{
    if text_equals(name, ARCHIVE_INITIATIVE_TOOL) {
        Some(AdminTool::ArchiveInitiative)
    } else if text_equals(name, ATTACH_PROJECT_TOOL) {
        Some(AdminTool::AttachProject)
    } else if text_equals(name, UPDATE_PROJECT_SNAPSHOT_TOOL) {
        Some(AdminTool::UpdateProjectSnapshot)
    } else if text_equals(name, DETACH_PROJECT_TOOL) {
        Some(AdminTool::DetachProject)
    } else if text_equals(name, REORDER_PROJECTS_TOOL) {
        Some(AdminTool::ReorderProjects)
    } else {
        None
    }
}

/// The name of the tool that invokes `operation`.
pub fn tool_name(operation: AdminTool) -> (r: &'static str)
    ensures
        tool_named(r@) == Some(operation),
        json_plain(r@),
{
    proof {
        reveal_strlit("project_portfolio_admin_archive_initiative");
        reveal_strlit("project_portfolio_admin_attach_project");
        reveal_strlit("project_portfolio_admin_update_project_snapshot");
        reveal_strlit("project_portfolio_admin_detach_project");
        reveal_strlit("project_portfolio_admin_reorder_projects");
        assert(ARCHIVE_INITIATIVE_TOOL@.len() == 42);
        assert(ATTACH_PROJECT_TOOL@.len() == 38);
        assert(UPDATE_PROJECT_SNAPSHOT_TOOL@.len() == 47);
        assert(DETACH_PROJECT_TOOL@.len() == 38);
        assert(REORDER_PROJECTS_TOOL@.len() == 40);
        assert(ATTACH_PROJECT_TOOL@[24] != DETACH_PROJECT_TOOL@[24]);
    }
    match operation {
        AdminTool::ArchiveInitiative => ARCHIVE_INITIATIVE_TOOL,
        AdminTool::AttachProject => ATTACH_PROJECT_TOOL,
        AdminTool::UpdateProjectSnapshot => UPDATE_PROJECT_SNAPSHOT_TOOL,
        AdminTool::DetachProject => DETACH_PROJECT_TOOL,
        AdminTool::ReorderProjects => REORDER_PROJECTS_TOOL,
    }
}

/// The catalog: every administrative tool is an exclusive mutation.
pub open spec fn catalog() -> Seq<(Seq<char>, Seq<char>, ToolExecutionClass)> {
    seq![
        (
            ARCHIVE_INITIATIVE_TOOL@,
            "Archive one initiative using its current revision. Reuse the same idempotency_key for retries."@,
            ToolExecutionClass::Exclusive,
        ),
        (
            ATTACH_PROJECT_TOOL@,
            "Attach one opaque Project snapshot at an exact position using the initiative revision. Reuse the same idempotency_key for retries."@,
            ToolExecutionClass::Exclusive,
        ),
        (
            UPDATE_PROJECT_SNAPSHOT_TOOL@,
            "Refresh one attached Project snapshot using its membership revision. Reuse the same idempotency_key for retries."@,
            ToolExecutionClass::Exclusive,
        ),
        (
            DETACH_PROJECT_TOOL@,
            "Detach one Project using current initiative and membership revisions. Reuse the same idempotency_key for retries."@,
            ToolExecutionClass::Exclusive,
        ),
        (
            REORDER_PROJECTS_TOOL@,
            "Atomically replace the complete Project order using current initiative and membership revisions. Reuse the same idempotency_key for retries."@,
            ToolExecutionClass::Exclusive,
        ),
    ]
}

/// The plain view of a catalog entry.
pub open spec fn spec_view(t: ToolSpec) -> (Seq<char>, Seq<char>, ToolExecutionClass) {
    (t.name@, t.description@, t.execution)
}

/// The tools this adapter offers, without their input schemas.
pub fn tool_definitions() -> (r: Vec<ToolSpec>)
    ensures
        r@.len() == catalog().len(),
        forall|i: int| 0 <= i < r@.len() ==> spec_view(#[trigger] r@[i]) == catalog()[i],
{
    let mut tools: Vec<ToolSpec> = Vec::new();
    tools.push(tool(
        ARCHIVE_INITIATIVE_TOOL,
        "Archive one initiative using its current revision. Reuse the same idempotency_key for retries.",
        ToolExecutionClass::Exclusive,
    ));
    tools.push(tool(
        ATTACH_PROJECT_TOOL,
        "Attach one opaque Project snapshot at an exact position using the initiative revision. Reuse the same idempotency_key for retries.",
        ToolExecutionClass::Exclusive,
    ));
    tools.push(tool(
        UPDATE_PROJECT_SNAPSHOT_TOOL,
        "Refresh one attached Project snapshot using its membership revision. Reuse the same idempotency_key for retries.",
        ToolExecutionClass::Exclusive,
    ));
    tools.push(tool(
        DETACH_PROJECT_TOOL,
        "Detach one Project using current initiative and membership revisions. Reuse the same idempotency_key for retries.",
        ToolExecutionClass::Exclusive,
    ));
    tools.push(tool(
        REORDER_PROJECTS_TOOL,
        "Atomically replace the complete Project order using current initiative and membership revisions. Reuse the same idempotency_key for retries.",
        ToolExecutionClass::Exclusive,
    ));
    tools
}

/// The message of every administrative rejection.
pub open spec fn rejection_message() -> Seq<char> {
    "Project Portfolio administration rejected the requested operation."@
}

/// The tool error of a rejection with `reason_code`.
pub open spec fn rejected_view(reason_code: Seq<char>) -> ToolErrorView {
    ToolErrorView::ExecutionFailed(reason_code, rejection_message(), domain_error_details(reason_code))
}

/// An execution failure for a domain error that the operation reported.
pub fn rejected(reason_code: &str) -> (r: ToolError)
    requires
        json_plain(reason_code@),
    ensures
        tool_error_view(r) == rejected_view(reason_code@),
{
    execution_failed(reason_code, "Project Portfolio administration rejected the requested operation.")
}

/// An administrative domain error that becomes a tool error.
pub trait DomainToolError {
    /// The tool error this domain error becomes.
    spec fn tool_error_of(&self) -> ToolErrorView;

    /// Converts this domain error.
    fn to_tool_error(&self) -> (r: ToolError)
        ensures
            tool_error_view(r) == self.tool_error_of(),
    ;
}

impl DomainToolError for AdminError {
    open spec fn tool_error_of(&self) -> ToolErrorView {
        match self {
            AdminError::InvalidRequest => ToolErrorView::InvalidArguments,
            AdminError::NotFound => ToolErrorView::NotFound,
            AdminError::Forbidden => ToolErrorView::PermissionDenied,
            AdminError::Unauthenticated => ToolErrorView::PermissionDenied,
            AdminError::AlreadyAttached => rejected_view("already_attached"@),
            AdminError::Archived => rejected_view("archived"@),
            AdminError::IdempotencyConflict => rejected_view("idempotency_conflict"@),
            AdminError::NotAttached => rejected_view("not_attached"@),
            AdminError::OperationInProgress => rejected_view("operation_in_progress"@),
            AdminError::PositionConflict => rejected_view("position_conflict"@),
            AdminError::RevisionConflict => rejected_view("revision_conflict"@),
            AdminError::Unknown(_) => rejected_view("unknown_domain_error"@),
        }
    }

    fn to_tool_error(&self) -> (r: ToolError) {
        proof {
            reveal_strlit("already_attached");
            reveal_strlit("archived");
            reveal_strlit("idempotency_conflict");
            reveal_strlit("not_attached");
            reveal_strlit("operation_in_progress");
            reveal_strlit("position_conflict");
            reveal_strlit("revision_conflict");
            reveal_strlit("unknown_domain_error");
        }
        match self {
            AdminError::InvalidRequest => ToolError::InvalidArguments,
            AdminError::NotFound => ToolError::NotFound,
            AdminError::Forbidden => ToolError::PermissionDenied,
            AdminError::Unauthenticated => ToolError::PermissionDenied,
            AdminError::AlreadyAttached => rejected("already_attached"),
            AdminError::Archived => rejected("archived"),
            AdminError::IdempotencyConflict => rejected("idempotency_conflict"),
            AdminError::NotAttached => rejected("not_attached"),
            AdminError::OperationInProgress => rejected("operation_in_progress"),
            AdminError::PositionConflict => rejected("position_conflict"),
            AdminError::RevisionConflict => rejected("revision_conflict"),
            AdminError::Unknown(_) => rejected("unknown_domain_error"),
        }
    }
}

/// The tool error a domain error of the bound capability becomes.
pub fn map_domain_error<E: DomainToolError>(error: &E) -> (r: ToolError)
    ensures
        tool_error_view(r) == error.tool_error_of(),
{
    error.to_tool_error()
}

} // verus!
