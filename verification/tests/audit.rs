use abi_resolver::audit::{
    audit_config_failure, audit_failure, audit_launch_failure, audit_response,
    extract_result_json,
};
use abi_resolver::messages::HttpStatus;

#[test]
fn result_is_found_behind_the_marker() {
    let output = "log {ignored}\nWorkflow Simulation Result:\n {\"a\": {\"b\": 1}, \"c\": 2} trailing }";
    assert_eq!(extract_result_json(output), Some("{\"a\": {\"b\": 1}, \"c\": 2}".to_string()));
}

#[test]
fn no_result_without_marker_or_braces() {
    assert_eq!(extract_result_json("{\"a\":1}"), None);
    assert_eq!(extract_result_json("Workflow Simulation Result: none"), None);
    assert_eq!(extract_result_json("Workflow Simulation Result: {\"a\": {"), None);
    assert_eq!(extract_result_json(""), None);
}

#[test]
fn only_the_first_marker_counts() {
    let output = "Workflow Simulation Result: {1} Workflow Simulation Result: {2}";
    assert_eq!(extract_result_json(output), Some("{1}".to_string()));
}

#[test]
fn audit_result_is_read() {
    let stdout = "starting\nWorkflow Simulation Result:\n{\"risk_level\":\"High\",\"explanation\":\"owner can drain\",\"dangerous_functions\":\"withdrawAll\",\"auditor\":\"Chainlink DON\",\"timestamp\":\"2024-01-01T00:00:00Z\",\"score\":7}\n";
    let (status, response) = audit_response(stdout, "warning: slow\n");
    assert_eq!(status, HttpStatus::Success);
    assert_eq!(response.status, "success");
    assert_eq!(response.risk_level.as_deref(), Some("High"));
    assert_eq!(response.explanation.as_deref(), Some("owner can drain"));
    assert_eq!(response.dangerous_functions.as_deref(), Some("withdrawAll"));
    assert_eq!(response.auditor.as_deref(), Some("Chainlink DON"));
    assert_eq!(response.verified_timestamp.as_deref(), Some("2024-01-01T00:00:00Z"));
    assert_eq!(response.verification_hash, None);
    assert_eq!(response.message, None);
}

#[test]
fn audit_result_may_lack_members() {
    let (status, response) = audit_response("Workflow Simulation Result: {\"risk_level\": 3}", "");
    assert_eq!(status, HttpStatus::Success);
    assert_eq!(response.risk_level, None);
    assert_eq!(response.explanation, None);
}

#[test]
fn audit_result_spans_output_and_error_stream() {
    let (status, response) =
        audit_response("Workflow Simulation Result: {\"risk_le", "vel\":\"Low\"}");
    assert_eq!(status, HttpStatus::Success);
    assert_eq!(response.risk_level.as_deref(), Some("Low"));
}

#[test]
fn failed_workflow_is_reported_with_its_error_line() {
    let stderr = "step 1\r\nError: rpc unreachable\r\nWorkflow execution failed\n";
    let (status, response) = audit_response("", stderr);
    assert_eq!(status, HttpStatus::ServerError);
    assert_eq!(response.status, "error");
    assert_eq!(response.auditor.as_deref(), Some("Chainlink Decentralized Network"));
    assert_eq!(response.message.as_deref(), Some("Error: rpc unreachable"));
    assert_eq!(response.risk_level, None);
}

#[test]
fn failed_workflow_without_error_line() {
    let response = audit_failure("Workflow execution failed");
    assert_eq!(response.message.as_deref(), Some("Unknown CRE execution error"));
    assert_eq!(response.auditor.as_deref(), Some("Chainlink Decentralized Network"));
}

#[test]
fn result_that_is_not_json_falls_through() {
    let (status, response) =
        audit_response("Workflow Simulation Result: {not json}\nWorkflow execution failed: Error 7", "");
    assert_eq!(status, HttpStatus::ServerError);
    assert_eq!(response.message.as_deref(), Some("Workflow execution failed: Error 7"));
}

#[test]
fn output_without_result_or_failure() {
    let (status, response) = audit_response("nothing of use", "");
    assert_eq!(status, HttpStatus::ServerError);
    assert_eq!(response.status, "error");
    assert_eq!(response.auditor, None);
    assert_eq!(response.message.as_deref(), Some("Could not parse CRE workflow output"));
}

#[test]
fn workflow_that_could_not_start() {
    let (status, response) = audit_launch_failure("No such file or directory");
    assert_eq!(status, HttpStatus::ServerError);
    assert_eq!(
        response.message.as_deref(),
        Some("Failed to execute CRE CLI: No such file or directory. Make sure 'cre' is installed and in PATH.")
    );
    assert_eq!(response.status, "error");
}

#[test]
fn configuration_that_could_not_be_written() {
    let (status, response) = audit_config_failure("permission denied");
    assert_eq!(status, HttpStatus::ServerError);
    assert_eq!(response.message.as_deref(), Some("Failed to write CRE config: permission denied"));
}
