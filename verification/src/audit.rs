//! Audits by the oracle workflow: how the result is found in what the
//! workflow printed.

use crate::json::{json_text_member, text_member};
use crate::messages::{AuditResponseView, ChainlinkAuditResponse, HttpStatus};
use crate::registry::member_or_none;
use crate::scan::{
    closing_from, contains_within, find_char, find_closing, find_first, find_line_containing,
    first_occurrence, index_of, line_containing, occurs_within,
};
use crate::text::chars_of;
use crate::views::opt_text;
use vstd::prelude::*;
use vstd::string::*;

verus! {

/// What precedes the result in the output of the workflow.
pub open spec fn result_marker() -> Seq<char> {
    "Workflow Simulation Result:"@
}

/// What the output of a failed workflow holds.
pub open spec fn failure_marker() -> Seq<char> {
    "Workflow execution failed"@
}

/// The result that the output of the workflow holds: behind the first
/// marker, from the first opening brace to the brace that closes it.
pub open spec fn result_json_of(output: Seq<char>) -> Option<Seq<char>> {
    match first_occurrence(output, result_marker(), 0) {
        None => None,
        Some(k) => {
            let open = index_of(output, '{', k + result_marker().len(), output.len() as int);
            match closing_from(output, open, 0) {
                Some(end) => Some(output.subrange(open, end)),
                None => None,
            }
        },
    }
}

/// The response that a result gives, where the result is JSON.
pub open spec fn audit_success_spec(json: Seq<char>) -> AuditResponseView {
    AuditResponseView {
        status: "success"@,
        risk_level: member_or_none(json_text_member(json, "risk_level"@)),
        explanation: member_or_none(json_text_member(json, "explanation"@)),
        dangerous_functions: member_or_none(json_text_member(json, "dangerous_functions"@)),
        auditor: member_or_none(json_text_member(json, "auditor"@)),
        verified_timestamp: member_or_none(json_text_member(json, "timestamp"@)),
        verification_hash: None,
        message: None,
    }
}

/// The response to an audit that gave no result, with the message given.
pub open spec fn audit_error_spec(auditor: Option<Seq<char>>, message: Seq<char>) -> AuditResponseView {
    AuditResponseView {
        status: "error"@,
        risk_level: None,
        explanation: None,
        dangerous_functions: None,
        auditor,
        verified_timestamp: None,
        verification_hash: None,
        message: Some(message),
    }
}

/// What a failed workflow says of its failure: the first line that holds
/// `Error`, or a fixed text.
pub open spec fn failure_message_of(output: Seq<char>) -> Seq<char> {
    match line_containing(output, "Error"@, 0) {
        Some((start, end)) => output.subrange(start, end),
        None => "Unknown CRE execution error"@,
    }
}

/// The response that the output of the workflow gives where it holds no
/// result that can be read.
pub open spec fn audit_failure_spec(output: Seq<char>) -> AuditResponseView {
    if occurs_within(output, failure_marker(), 0, output.len() as int) {
        audit_error_spec(Some("Chainlink Decentralized Network"@), failure_message_of(output))
    } else {
        audit_error_spec(None, "Could not parse CRE workflow output"@)
    }
}

/// The response that the output of the workflow gives.
pub open spec fn audit_spec(output: Seq<char>) -> AuditResponseView {
    match result_json_of(output) {
        Some(json) => if json_text_member(json, "risk_level"@) is Some {
            audit_success_spec(json)
        } else {
            audit_failure_spec(output)
        },
        None => audit_failure_spec(output),
    }
}

/// Finds the result in the output of the workflow: what stands behind the
/// marker `Workflow Simulation Result:`, from the first opening brace to the
/// brace that closes it. Braces are counted wherever they stand.
pub fn extract_result_json(output: &str) -> (r: Option<String>)
    ensures
        opt_text(r) == result_json_of(output@),
{
    let chars = chars_of(output);
    let marker = chars_of("Workflow Simulation Result:");
    let n = chars.len();
    match find_first(&chars, &marker, 0) {
        None => None,
        Some(k) => {
            let open = find_char(&chars, '{', k + marker.len(), n);
            match find_closing(&chars, open) {
                Some(end) => Some(String::from_str(output.substring_char(open, end))),
                None => None,
            }
        },
    }
}

/// An error response with the auditor and message given.
fn audit_error(auditor: Option<String>, message: String) -> (r: ChainlinkAuditResponse)
    ensures
        r@ == audit_error_spec(opt_text(auditor), message@),
{
    ChainlinkAuditResponse {
        status: String::from_str("error"),
        risk_level: None,
        explanation: None,
        dangerous_functions: None,
        auditor,
        verified_timestamp: None,
        verification_hash: None,
        message: Some(message),
    }
}

/// The text under a member of a document, where there is one.
fn member(json: &str, key: &str) -> (r: Option<String>)
    ensures
        opt_text(r) == member_or_none(json_text_member(json@, key@)),
{
    match text_member(json, key) {
        Some(Some(text)) => Some(text),
        _ => None,
    }
}

/// The response for output that holds no result that can be read: a failed
/// workflow is reported with its first line that holds `Error`.
pub fn audit_failure(output: &str) -> (r: ChainlinkAuditResponse)
    ensures
        r@ == audit_failure_spec(output@),
{
    let chars = chars_of(output);
    let failed = chars_of("Workflow execution failed");
    if contains_within(&chars, &failed, 0, chars.len()) {
        let wanted = chars_of("Error");
        let message = match find_line_containing(&chars, &wanted) {
            Some((start, end)) => String::from_str(output.substring_char(start, end)),
            None => String::from_str("Unknown CRE execution error"),
        };
        audit_error(Some(String::from_str("Chainlink Decentralized Network")), message)
    } else {
        audit_error(None, String::from_str("Could not parse CRE workflow output"))
    }
}

/// Reads what the workflow printed, on its output and on its error stream,
/// and says what the audit came to.
pub fn audit_response(stdout: &str, stderr: &str) -> (r: (HttpStatus, ChainlinkAuditResponse))
    ensures
        r.1@ == audit_spec(stdout@ + stderr@),
        r.0 == if r.1@.status == "success"@ {
            HttpStatus::Success
        } else {
            HttpStatus::ServerError
        },
{
    proof {
        reveal_strlit("success");
        reveal_strlit("error");
    }
    let mut combined = String::from_str(stdout);
    combined.append(stderr);
    let output = combined.as_str();
    if let Some(json) = extract_result_json(output) {
        if let Some(risk) = text_member(json.as_str(), "risk_level") {
            let response = ChainlinkAuditResponse {
                status: String::from_str("success"),
                risk_level: risk,
                explanation: member(json.as_str(), "explanation"),
                dangerous_functions: member(json.as_str(), "dangerous_functions"),
                auditor: member(json.as_str(), "auditor"),
                verified_timestamp: member(json.as_str(), "timestamp"),
                verification_hash: None,
                message: None,
            };
            return (HttpStatus::Success, response);
        }
    }
    let response = audit_failure(output);
    assert(response@.status.len() == 5);
    assert("success"@.len() == 7);
    (HttpStatus::ServerError, response)
}

/// The response to an audit whose workflow could not be started.
pub fn audit_launch_failure(cause: &str) -> (r: (HttpStatus, ChainlinkAuditResponse))
    ensures
        r.0 == HttpStatus::ServerError,
        r.1@ == audit_error_spec(
            None,
            "Failed to execute CRE CLI: "@ + cause@
                + ". Make sure 'cre' is installed and in PATH."@,
        ),
{
    let mut message = String::from_str("Failed to execute CRE CLI: ");
    message.append(cause);
    message.append(". Make sure 'cre' is installed and in PATH.");
    (HttpStatus::ServerError, audit_error(None, message))
}

/// The response to an audit whose configuration could not be written.
pub fn audit_config_failure(cause: &str) -> (r: (HttpStatus, ChainlinkAuditResponse))
    ensures
        r.0 == HttpStatus::ServerError,
        r.1@ == audit_error_spec(None, "Failed to write CRE config: "@ + cause@),
{
    let mut message = String::from_str("Failed to write CRE config: ");
    message.append(cause);
    (HttpStatus::ServerError, audit_error(None, message))
}

} // verus!
