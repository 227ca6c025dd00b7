//! The Agent Tool surface shared by the ordinary and administrative tool
//! adapters: tool errors, execution classes, and the small JSON documents the
//! adapters attach to responses and failures.
use vstd::prelude::*;
use vstd::string::*;

verus! {

/// Whether a tool may run beside others or needs exclusive execution.
#[derive(Clone, Copy, Debug, PartialEq, Eq, Structural)]
pub enum ToolExecutionClass {
    ParallelSafe,
    Exclusive,
}

/// A failure the tool reports with a machine-readable reason.
#[derive(Clone, Debug, PartialEq, Eq)]
pub struct ExecutionFailedPayload {
    pub reason_code: String,
    pub message: String,
    pub details_json: String,
}

/// The error of a tool execution.
#[derive(Clone, Debug, PartialEq, Eq)]
pub enum ToolError {
    InvalidArguments,
    PermissionDenied,
    NotFound,
    OutputLimitExceeded,
    ExecutionFailed { payload: ExecutionFailedPayload },
}

/// A tool error on plain text.
pub enum ToolErrorView {
    InvalidArguments,
    PermissionDenied,
    NotFound,
    OutputLimitExceeded,
    /// Reason code, message, details document.
    ExecutionFailed(Seq<char>, Seq<char>, Seq<char>),
}

/// The plain view of a tool error.
pub open spec fn tool_error_view(e: ToolError) -> ToolErrorView {
    match e {
        ToolError::InvalidArguments => ToolErrorView::InvalidArguments,
        ToolError::PermissionDenied => ToolErrorView::PermissionDenied,
        ToolError::NotFound => ToolErrorView::NotFound,
        ToolError::OutputLimitExceeded => ToolErrorView::OutputLimitExceeded,
        ToolError::ExecutionFailed { payload } => ToolErrorView::ExecutionFailed(
            payload.reason_code@,
            payload.message@,
            payload.details_json@,
        ),
    }
}

/// Text that can stand inside a JSON string as it is: no quote, no
/// backslash, no control character.
pub open spec fn json_plain(s: Seq<char>) -> bool {
    forall|i: int|
        0 <= i < s.len() ==> #[trigger] s[i] != '"' && s[i] != '\\' && (s[i] as u32) >= 0x20
}

/// The JSON object `{"domain_error":"<code>"}`.
pub open spec fn domain_error_details(code: Seq<char>) -> Seq<char> {
    "{\"domain_error\":\""@ + code + "\"}"@
}

/// The JSON object `{"tool":"<name>"}`.
pub open spec fn tool_metadata(name: Seq<char>) -> Seq<char> {
    "{\"tool\":\""@ + name + "\"}"@
}

/// An execution failure with `reason_code`, `message`, and the details
/// document `{"domain_error":"<reason_code>"}`.
pub fn execution_failed(reason_code: &str, message: &str) -> (r: ToolError)
    requires
        json_plain(reason_code@),
    ensures
        tool_error_view(r) == ToolErrorView::ExecutionFailed(
            reason_code@,
            message@,
            domain_error_details(reason_code@),
        ),
{
    let mut details = String::from_str("{\"domain_error\":\"");
    details.append(reason_code);
    details.append("\"}");
    ToolError::ExecutionFailed {
        payload: ExecutionFailedPayload {
            reason_code: String::from_str(reason_code),
            message: String::from_str(message),
            details_json: details,
        },
    }
}

/// The metadata document of a tool response, `{"tool":"<name>"}`.
pub fn tool_metadata_json(tool_name: &str) -> (r: String)
    requires
        json_plain(tool_name@),
    ensures
        r@ == tool_metadata(tool_name@),
{
    let mut out = String::from_str("{\"tool\":\"");
    out.append(tool_name);
    out.append("\"}");
    out
}

/// One entry of a tool catalog, without its input schema.
#[derive(Clone, Debug, PartialEq, Eq)]
pub struct ToolSpec {
    pub name: String,
    pub description: String,
    pub execution: ToolExecutionClass,
}

/// A catalog entry.
pub fn tool(name: &str, description: &str, execution: ToolExecutionClass) -> (r: ToolSpec)
    ensures
        r.name@ == name@,
        r.description@ == description@,
        r.execution == execution,
{
    ToolSpec {
        name: String::from_str(name),
        description: String::from_str(description),
        execution,
    }
}

} // verus!
