//! The requests that are served and the responses that are given, as plain
//! values.

use crate::views::{opt_text, opt_texts};
use vstd::prelude::*;

verus! {

/// How the language model is prompted and how its answer is read.
#[derive(Clone, Debug, PartialEq, Eq)]
pub struct PromptConfig {
    pub system_message: String,
    pub user_prompt_template: String,
    pub response_format: ResponseFormat,
    pub model_settings: ModelSettings,
}

/// The prefixes by which the parts of the model's answer are found.
#[derive(Clone, Debug, PartialEq, Eq)]
pub struct ResponseFormat {
    pub risk_level_prefix: String,
    pub explanation_prefix: String,
}

/// Which model is asked, and how.
#[derive(Clone, Debug, PartialEq, Eq)]
pub struct ModelSettings {
    pub model: String,
    pub stream: bool,
}

/// A request to decode call data sent to a contract.
#[derive(Clone, Debug, PartialEq, Eq)]
pub struct DecodeRequest {
    pub contract_address: String,
    pub call_data: String,
}

/// The response to a `DecodeRequest`.
#[derive(Clone, Debug, PartialEq, Eq)]
pub struct DecodeResponse {
    /// `success` or `error`.
    pub status: String,
    pub function_name: Option<String>,
    /// The arguments, each rendered as text.
    pub arguments: Option<Vec<String>>,
    pub message: Option<String>,
    /// More on an error.
    pub details: Option<String>,
    /// The canonical text of the schema that decoded the call data.
    pub abi: Option<String>,
}

/// A request to assess the risk of a call.
#[derive(Clone, Debug, PartialEq, Eq)]
pub struct AnalysisRequest {
    pub contract_address: String,
    pub call_data: String,
}

/// The response to an `AnalysisRequest`.
#[derive(Clone, Debug, PartialEq, Eq)]
pub struct AnalysisResponse {
    /// `success` or `error`.
    pub status: String,
    pub function_name: Option<String>,
    pub arguments: Option<Vec<String>>,
    pub risk_level: Option<String>,
    pub explanation: Option<String>,
    pub message: Option<String>,
    /// More on an error.
    pub details: Option<String>,
}

/// A request for an audit of a contract by the oracle workflow.
#[derive(Clone, Debug, PartialEq, Eq)]
pub struct ChainlinkAuditRequest {
    pub contract_address: String,
    pub call_data: String,
}

/// The response to a `ChainlinkAuditRequest`.
#[derive(Clone, Debug, PartialEq, Eq)]
pub struct ChainlinkAuditResponse {
    pub status: String,
    pub risk_level: Option<String>,
    pub explanation: Option<String>,
    pub dangerous_functions: Option<String>,
    pub auditor: Option<String>,
    pub verified_timestamp: Option<String>,
    pub verification_hash: Option<String>,
    pub message: Option<String>,
}

/// The kind of answer that a response travels with.
#[derive(Clone, Copy, Debug, PartialEq, Eq, Structural)]
pub enum HttpStatus {
    /// The request was served.
    Success,
    /// The request is at fault.
    BadRequest,
    /// The request could not be served.
    ServerError,
}

/// The model of a `DecodeResponse`.
pub struct DecodeResponseView {
    pub status: Seq<char>,
    pub function_name: Option<Seq<char>>,
    pub arguments: Option<Seq<Seq<char>>>,
    pub message: Option<Seq<char>>,
    pub details: Option<Seq<char>>,
    pub abi: Option<Seq<char>>,
}

impl View for DecodeResponse {
    type V = DecodeResponseView;

    open spec fn view(&self) -> DecodeResponseView {
        DecodeResponseView {
            status: self.status@,
            function_name: opt_text(self.function_name),
            arguments: opt_texts(self.arguments),
            message: opt_text(self.message),
            details: opt_text(self.details),
            abi: opt_text(self.abi),
        }
    }
}

/// The model of an `AnalysisResponse`.
pub struct AnalysisResponseView {
    pub status: Seq<char>,
    pub function_name: Option<Seq<char>>,
    pub arguments: Option<Seq<Seq<char>>>,
    pub risk_level: Option<Seq<char>>,
    pub explanation: Option<Seq<char>>,
    pub message: Option<Seq<char>>,
    pub details: Option<Seq<char>>,
}

impl View for AnalysisResponse {
    type V = AnalysisResponseView;

    open spec fn view(&self) -> AnalysisResponseView {
        AnalysisResponseView {
            status: self.status@,
            function_name: opt_text(self.function_name),
            arguments: opt_texts(self.arguments),
            risk_level: opt_text(self.risk_level),
            explanation: opt_text(self.explanation),
            message: opt_text(self.message),
            details: opt_text(self.details),
        }
    }
}

/// The model of a `ChainlinkAuditResponse`.
pub struct AuditResponseView {
    pub status: Seq<char>,
    pub risk_level: Option<Seq<char>>,
    pub explanation: Option<Seq<char>>,
    pub dangerous_functions: Option<Seq<char>>,
    pub auditor: Option<Seq<char>>,
    pub verified_timestamp: Option<Seq<char>>,
    pub verification_hash: Option<Seq<char>>,
    pub message: Option<Seq<char>>,
}

impl View for ChainlinkAuditResponse {
    type V = AuditResponseView;

    open spec fn view(&self) -> AuditResponseView {
        AuditResponseView {
            status: self.status@,
            risk_level: opt_text(self.risk_level),
            explanation: opt_text(self.explanation),
            dangerous_functions: opt_text(self.dangerous_functions),
            auditor: opt_text(self.auditor),
            verified_timestamp: opt_text(self.verified_timestamp),
            verification_hash: opt_text(self.verification_hash),
            message: opt_text(self.message),
        }
    }
}

} // verus!
