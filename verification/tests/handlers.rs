use abi_resolver::address::Address;
use abi_resolver::candidates::CandidateSet;
use abi_resolver::decoder::DecodeResult;
use abi_resolver::handlers::{
    decode_reply, describe, describe_failure_of_all, invalid_address_reply,
    resolution_failed_reply, serve_decode,
};
use abi_resolver::messages::HttpStatus;
use abi_resolver::resolver::{NetworkFailure, ResolutionError};
use abi_resolver::schema::Schema;
use abi_resolver::{
    AnalysisRequest, ChainlinkAuditRequest, DecodeRequest, DecodeResponse, ModelSettings,
    PromptConfig, ResponseFormat,
};

const TRANSFER_ABI: &str = r#"[{"inputs":[{"name":"to","type":"address"},{"name":"amount","type":"uint256"}],"name":"transfer","outputs":[],"stateMutability":"nonpayable","type":"function"}]"#;

const TRANSFER_CALL: &str = "0xa9059cbb000000000000000000000000111111111111111111111111111111111111111100000000000000000000000000000000000000000000000000000000000003e8";

fn failed() -> ResolutionError {
    ResolutionError::ResolutionFailed {
        reasons: vec![
            NetworkFailure::NotFoundOnNetwork {
                network: "11155111".to_string(),
                message: "NOTOK".to_string(),
            },
            NetworkFailure::RegistryError {
                network: "421614".to_string(),
                cause: "timed out".to_string(),
            },
        ],
    }
}

#[test]
fn failed_resolution_is_described_network_by_network() {
    assert_eq!(
        describe(&failed()),
        "no network has a schema for the address; 11155111: not found (NOTOK); 421614: timed out"
    );
}

#[test]
fn failed_resolution_without_networks_is_described() {
    let e = ResolutionError::ResolutionFailed { reasons: Vec::new() };
    assert_eq!(describe(&e), "no network has a schema for the address");
}

#[test]
fn corrupt_cache_is_described() {
    let e = ResolutionError::CacheError { key: "0xabc".to_string() };
    assert_eq!(describe(&e), "the cache entry under 0xabc is not a schema");
}

#[test]
fn invalid_address_is_a_bad_request() {
    let error = Address::parse("0x12").unwrap_err();
    let (status, response) = invalid_address_reply(&error);
    assert_eq!(status, HttpStatus::BadRequest);
    assert_eq!(
        response,
        DecodeResponse {
            status: "error".to_string(),
            function_name: None,
            arguments: None,
            message: Some(format!("Invalid contract address: {}", error.reason)),
            details: None,
            abi: None,
        }
    );
}

#[test]
fn failed_resolution_is_a_server_error() {
    let (status, response) = resolution_failed_reply(&failed());
    assert_eq!(status, HttpStatus::ServerError);
    assert_eq!(response.status, "error");
    assert_eq!(response.message.as_deref(), Some("Failed to fetch or load the ABI"));
    assert_eq!(response.details, Some(describe(&failed())));
    assert_eq!(response.function_name, None);
    assert_eq!(response.abi, None);
}

#[test]
fn decoded_call_is_answered_with_its_schema() {
    let result = DecodeResult::Success {
        function_name: "transfer".to_string(),
        arguments: vec!["a".to_string(), "b".to_string()],
        schema: Schema::from_text(TRANSFER_ABI).unwrap(),
        rejected: vec!["earlier".to_string()],
    };
    let (status, response) = decode_reply(result);
    assert_eq!(status, HttpStatus::Success);
    assert_eq!(
        response,
        DecodeResponse {
            status: "success".to_string(),
            function_name: Some("transfer".to_string()),
            arguments: Some(vec!["a".to_string(), "b".to_string()]),
            message: None,
            details: None,
            abi: Some(TRANSFER_ABI.to_string()),
        }
    );
}

#[test]
fn failed_decoding_reports_the_reason_of_every_candidate() {
    let result = DecodeResult::Failure {
        errors: vec!["first".to_string(), "second".to_string(), "third".to_string()],
    };
    let (status, response) = decode_reply(result);
    assert_eq!(status, HttpStatus::ServerError);
    assert_eq!(response.status, "error");
    assert_eq!(response.message.as_deref(), Some("Failed to decode call data"));
    assert_eq!(
        response.details.as_deref(),
        Some("Every candidate schema failed: first; second; third")
    );
}

#[test]
fn failed_decoding_with_one_candidate() {
    assert_eq!(
        describe_failure_of_all(&vec!["only".to_string()]),
        "Every candidate schema failed: only"
    );
}

#[test]
fn failed_decoding_without_candidates_says_so() {
    let (_, response) = decode_reply(DecodeResult::Failure { errors: Vec::new() });
    assert_eq!(response.details.as_deref(), Some("No ABI found"));
}

#[test]
fn serve_decode_decodes_against_the_candidates() {
    let set = CandidateSet::single(Schema::from_text(TRANSFER_ABI).unwrap());
    let (status, response) = serve_decode(Ok(set), TRANSFER_CALL);
    assert_eq!(status, HttpStatus::Success);
    assert_eq!(response.function_name.as_deref(), Some("transfer"));
    assert_eq!(
        response.arguments,
        Some(vec![
            "Address(0x1111111111111111111111111111111111111111)".to_string(),
            "Uint(1000)".to_string(),
        ])
    );
    assert_eq!(response.abi.as_deref(), Some(TRANSFER_ABI));
}

#[test]
fn serve_decode_reports_a_failed_resolution() {
    let (status, response) = serve_decode(Err(failed()), TRANSFER_CALL);
    assert_eq!(status, HttpStatus::ServerError);
    assert_eq!(response.message.as_deref(), Some("Failed to fetch or load the ABI"));
}

#[test]
fn serve_decode_reports_call_data_that_no_candidate_accepts() {
    let set = CandidateSet::single(Schema::from_text("[]").unwrap());
    let (status, response) = serve_decode(Ok(set), TRANSFER_CALL);
    assert_eq!(status, HttpStatus::ServerError);
    assert_eq!(
        response.details.as_deref(),
        Some("Every candidate schema failed: no function of the schema matches the selector")
    );
}

#[test]
fn requests_and_configuration_are_plain_values() {
    let decode = DecodeRequest { contract_address: "0x1".to_string(), call_data: "0x".to_string() };
    assert_eq!(decode.clone(), decode);
    let analysis =
        AnalysisRequest { contract_address: "0x1".to_string(), call_data: "0x".to_string() };
    assert_eq!(analysis.contract_address, "0x1");
    let audit =
        ChainlinkAuditRequest { contract_address: "0x1".to_string(), call_data: "0x".to_string() };
    assert_eq!(audit.call_data, "0x");
    let config = PromptConfig {
        system_message: "s".to_string(),
        user_prompt_template: "t".to_string(),
        response_format: ResponseFormat {
            risk_level_prefix: "Risk Level".to_string(),
            explanation_prefix: "Explanation".to_string(),
        },
        model_settings: ModelSettings { model: "m".to_string(), stream: false },
    };
    assert_eq!(config.clone(), config);
}
