use lenso_project_portfolio::admin_tools;
use lenso_project_portfolio::errors::{AdminError, PortfolioMutationError, PortfolioReadError};
use lenso_project_portfolio::portfolio_tools;
use lenso_project_portfolio::tools::{tool_metadata_json, ToolError, ToolExecutionClass};

#[test]
fn authorization_not_found_and_revision_failures_remain_distinct() {
    assert_eq!(
        admin_tools::map_domain_error(&AdminError::Forbidden),
        ToolError::PermissionDenied
    );
    assert_eq!(
        admin_tools::map_domain_error(&AdminError::NotFound),
        ToolError::NotFound
    );
    let ToolError::ExecutionFailed { payload } =
        admin_tools::map_domain_error(&AdminError::RevisionConflict)
    else {
        panic!("revision conflict must remain an execution failure");
    };
    assert_eq!(payload.reason_code, "revision_conflict");
}

#[test]
fn lib_authorization_not_found_and_revision_failures_remain_distinct() {
    assert_eq!(
        portfolio_tools::map_domain_error(&PortfolioReadError::Forbidden),
        ToolError::PermissionDenied
    );
    assert_eq!(
        portfolio_tools::map_domain_error(&PortfolioReadError::NotFound),
        ToolError::NotFound
    );
    let ToolError::ExecutionFailed { payload } =
        portfolio_tools::map_domain_error(&PortfolioMutationError::RevisionConflict)
    else {
        panic!("revision conflict must remain an execution failure");
    };
    assert_eq!(payload.reason_code, "revision_conflict");
}

#[test]
fn catalog_has_five_exclusive_admin_mutations() {
    let tools = admin_tools::tool_definitions();
    assert_eq!(tools.len(), 5);
    assert!(
        tools
            .iter()
            .all(|tool| tool.execution == ToolExecutionClass::Exclusive)
    );
}

#[test]
fn catalog_has_five_parallel_reads_and_three_exclusive_mutations() {
    let tools = portfolio_tools::tool_definitions();
    assert_eq!(tools.len(), 8);
    assert_eq!(
        tools
            .iter()
            .filter(|tool| tool.execution == ToolExecutionClass::ParallelSafe)
            .count(),
        5
    );
    assert_eq!(
        tools
            .iter()
            .filter(|tool| tool.execution == ToolExecutionClass::Exclusive)
            .count(),
        3
    );
}

#[test]
fn rejection_payload_carries_reason_message_and_details() {
    let ToolError::ExecutionFailed { payload } =
        portfolio_tools::map_domain_error(&PortfolioMutationError::AlreadyExists)
    else {
        panic!("already exists is an execution failure");
    };
    assert_eq!(payload.reason_code, "already_exists");
    assert_eq!(payload.message, "Project Portfolio rejected the requested operation.");
    assert_eq!(payload.details_json, r#"{"domain_error":"already_exists"}"#);
    let ToolError::ExecutionFailed { payload } =
        admin_tools::map_domain_error(&AdminError::PositionConflict)
    else {
        panic!("position conflict is an execution failure");
    };
    assert_eq!(payload.reason_code, "position_conflict");
    assert_eq!(
        payload.message,
        "Project Portfolio administration rejected the requested operation."
    );
    assert_eq!(payload.details_json, r#"{"domain_error":"position_conflict"}"#);
    let ToolError::ExecutionFailed { payload } =
        admin_tools::map_domain_error(&AdminError::Unknown("new_code".to_owned()))
    else {
        panic!("unknown errors are execution failures");
    };
    assert_eq!(payload.reason_code, "unknown_domain_error");
    assert_eq!(
        portfolio_tools::map_domain_error(&PortfolioReadError::Unauthenticated),
        ToolError::PermissionDenied
    );
    assert_eq!(
        admin_tools::map_domain_error(&AdminError::InvalidRequest),
        ToolError::InvalidArguments
    );
}

#[test]
fn tool_names_route_to_their_operations() {
    assert_eq!(
        portfolio_tools::route("project_portfolio_read_rollup"),
        Some(portfolio_tools::PortfolioTool::ReadRollup)
    );
    assert_eq!(
        portfolio_tools::route("project_portfolio_update_initiative"),
        Some(portfolio_tools::PortfolioTool::UpdateInitiative)
    );
    assert_eq!(portfolio_tools::route("project_portfolio_delete"), None);
    assert_eq!(
        admin_tools::route("project_portfolio_admin_detach_project"),
        Some(admin_tools::AdminTool::DetachProject)
    );
    assert_eq!(admin_tools::route("project_portfolio_read_rollup"), None);
    for tool in portfolio_tools::tool_definitions() {
        let operation = portfolio_tools::route(&tool.name).unwrap();
        assert_eq!(portfolio_tools::tool_name(operation), tool.name);
    }
    for tool in admin_tools::tool_definitions() {
        let operation = admin_tools::route(&tool.name).unwrap();
        assert_eq!(admin_tools::tool_name(operation), tool.name);
    }
}

#[test]
fn tool_metadata_names_the_tool() {
    assert_eq!(
        tool_metadata_json("project_portfolio_get_initiative"),
        r#"{"tool":"project_portfolio_get_initiative"}"#
    );
}
