//! Risk analysis by a language model: how the model is prompted and how its
//! answer is read.

use crate::address::InvalidAddress;
use crate::candidates::CandidateSet;
use crate::decoder::{decode_text, decode_text_spec, DecodeResult, DecodeResultView};
use crate::handlers::{describe, describe_failure_of_all, described, failure_details};
use crate::messages::{AnalysisResponse, AnalysisResponseView, HttpStatus, ResponseFormat};
use crate::resolver::ResolutionError;
use crate::scan::{
    find_char, find_first, find_line_with_prefix, first_occurrence, index_of, line_with_prefix,
    trim_bounds, trimmed_part,
};
use crate::text::{chars_of, replace_all, replaced};
use crate::views::{opt_text, texts};
use vstd::prelude::*;
use vstd::string::*;

verus! {

/// A list of strings as `{:?}` formats it.
pub uninterp spec fn debug_list(items: Seq<Seq<char>>) -> Seq<char>;

/// Formats a list of strings with `{:?}`, as `std` does for a `Vec<String>`.
///
/// Nothing is claimed of the text but that it depends on the strings alone.
#[verifier::external_body]
fn debug_of(items: &Vec<String>) -> (r: String)
    ensures
        r@ == debug_list(texts(items@)),
{
    format!("{:?}", items)
}

/// The prompt that a template gives: the address, the name of the function
/// and the arguments stand where the template names them, in that order of
/// replacement.
pub open spec fn prompt_of(
    template: Seq<char>,
    contract_address: Seq<char>,
    function_name: Seq<char>,
    arguments: Seq<Seq<char>>,
) -> Seq<char> {
    replaced(
        replaced(
            replaced(template, "{contract_address}"@, contract_address),
            "{function_name}"@,
            function_name,
        ),
        "{arguments}"@,
        debug_list(arguments),
    )
}

/// The risk level that an answer states: on the first line that begins
/// with `prefix`, what stands between the first colon and the second (or
/// the end of the line), without the white space around it.
pub open spec fn risk_level_of(content: Seq<char>, prefix: Seq<char>) -> Option<Seq<char>> {
    match line_with_prefix(content, prefix, 0) {
        None => None,
        Some((start, end)) => {
            let colon = index_of(content, ':', start, end);
            if colon >= end {
                None
            } else {
                Some(trimmed_part(content, colon + 1, index_of(content, ':', colon + 1, end)))
            }
        },
    }
}

/// The explanation that an answer gives: all that follows the first
/// occurrence of `prefix`, and a colon right behind it, without the white
/// space around it.
pub open spec fn explanation_of(content: Seq<char>, prefix: Seq<char>) -> Option<Seq<char>> {
    match first_occurrence(content, prefix, 0) {
        None => None,
        Some(k) => {
            let after = k + prefix.len();
            let from = if after < content.len() && content[after] == ':' {
                after + 1
            } else {
                after
            };
            Some(trimmed_part(content, from, content.len() as int))
        },
    }
}

/// The response that stands for an analysis that went through.
pub open spec fn analysis_success_spec(
    function_name: Seq<char>,
    arguments: Seq<Seq<char>>,
    content: Seq<char>,
    risk_level_prefix: Seq<char>,
    explanation_prefix: Seq<char>,
) -> AnalysisResponseView {
    AnalysisResponseView {
        status: "success"@,
        function_name: Some(function_name),
        arguments: Some(arguments),
        risk_level: risk_level_of(content, risk_level_prefix),
        explanation: explanation_of(content, explanation_prefix),
        message: Some("Risk analysis completed"@),
        details: None,
    }
}

/// Fills a prompt template: `{contract_address}`, `{function_name}` and
/// `{arguments}` give way, in this order, to the address, the name of the
/// function and the list of arguments.
pub fn build_prompt(
    template: &str,
    contract_address: &str,
    function_name: &str,
    arguments: &Vec<String>,
) -> (r: String)
    ensures
        r@ == prompt_of(template@, contract_address@, function_name@, texts(arguments@)),
{
    let listed = debug_of(arguments);
    let first = replace_all(template, "{contract_address}", contract_address);
    let second = replace_all(first.as_str(), "{function_name}", function_name);
    replace_all(second.as_str(), "{arguments}", listed.as_str())
}

/// Reads the risk level out of the model's answer.
pub fn risk_level(content: &str, prefix: &str) -> (r: Option<String>)
    ensures
        opt_text(r) == risk_level_of(content@, prefix@),
{
    let chars = chars_of(content);
    let wanted = chars_of(prefix);
    match find_line_with_prefix(&chars, &wanted) {
        None => None,
        Some((start, end)) => {
            let colon = find_char(&chars, ':', start, end);
            if colon >= end {
                None
            } else {
                let next = find_char(&chars, ':', colon + 1, end);
                let (a, b) = trim_bounds(&chars, colon + 1, next);
                Some(String::from_str(content.substring_char(a, b)))
            }
        },
    }
}

/// Reads the explanation out of the model's answer.
pub fn explanation(content: &str, prefix: &str) -> (r: Option<String>)
    ensures
        opt_text(r) == explanation_of(content@, prefix@),
{
    let chars = chars_of(content);
    let wanted = chars_of(prefix);
    let n = chars.len();
    match find_first(&chars, &wanted, 0) {
        None => None,
        Some(k) => {
            let after = k + wanted.len();
            let from = if after < n && chars[after] == ':' {
                after + 1
            } else {
                after
            };
            let (a, b) = trim_bounds(&chars, from, n);
            Some(String::from_str(content.substring_char(a, b)))
        },
    }
}

/// The response to an analysis that went through: the decoded call, and
/// what the model's answer says of its risk.
pub fn analysis_success(
    function_name: String,
    arguments: Vec<String>,
    content: &str,
    format: &ResponseFormat,
) -> (r: (HttpStatus, AnalysisResponse))
    ensures
        r.0 == HttpStatus::Success,
        r.1@ == analysis_success_spec(
            function_name@,
            texts(arguments@),
            content@,
            format.risk_level_prefix@,
            format.explanation_prefix@,
        ),
{
    let risk = risk_level(content, format.risk_level_prefix.as_str());
    let explained = explanation(content, format.explanation_prefix.as_str());
    (
        HttpStatus::Success,
        AnalysisResponse {
            status: String::from_str("success"),
            function_name: Some(function_name),
            arguments: Some(arguments),
            risk_level: risk,
            explanation: explained,
            message: Some(String::from_str("Risk analysis completed")),
            details: None,
        },
    )
}

/// The response to an analysis that failed, with what was decoded before
/// it failed, if anything was.
pub fn analysis_error(
    status: HttpStatus,
    message: &str,
    details: Option<String>,
    decoded: Option<(String, Vec<String>)>,
) -> (r: (HttpStatus, AnalysisResponse))
    ensures
        r.0 == status,
        r.1@ == (AnalysisResponseView {
            status: "error"@,
            function_name: match decoded {
                Some(call) => Some(call.0@),
                None => None,
            },
            arguments: match decoded {
                Some(call) => Some(texts(call.1@)),
                None => None,
            },
            risk_level: None,
            explanation: None,
            message: Some(message@),
            details: opt_text(details),
        }),
{
    let (function_name, arguments) = match decoded {
        Some((name, arguments)) => (Some(name), Some(arguments)),
        None => (None, None),
    };
    (
        status,
        AnalysisResponse {
            status: String::from_str("error"),
            function_name,
            arguments,
            risk_level: None,
            explanation: None,
            message: Some(String::from_str(message)),
            details,
        },
    )
}

/// The response to an analysis with the message and details given, and
/// nothing decoded.
pub open spec fn analysis_error_spec(message: Seq<char>, details: Option<Seq<char>>) -> AnalysisResponseView {
    AnalysisResponseView {
        status: "error"@,
        function_name: None,
        arguments: None,
        risk_level: None,
        explanation: None,
        message: Some(message),
        details,
    }
}

/// Decodes the call that is to be analysed, given what the resolution of
/// the contract's schemas came to: the name of the function and its
/// arguments, or the response that tells why there is no call to analyse.
pub fn decoded_call(resolution: Result<CandidateSet, ResolutionError>, call_data: &str) -> (r: Result<
    (String, Vec<String>),
    (HttpStatus, AnalysisResponse),
>)
    ensures
        match resolution {
            Err(error) => r matches Err(reply) && reply.0 == HttpStatus::ServerError && reply.1@
                == analysis_error_spec("Failed to fetch or load the ABI"@, Some(described(error@))),
            Ok(candidates) => match decode_text_spec(candidates@, call_data@) {
                DecodeResultView::Success { function_name, arguments, .. } => r matches Ok(call)
                    && call.0@ == function_name && texts(call.1@) == arguments,
                DecodeResultView::Failure { errors } => r matches Err(reply) && reply.0
                    == HttpStatus::ServerError && reply.1@ == analysis_error_spec(
                    "Failed to decode call data"@,
                    Some(failure_details(errors)),
                ),
            },
        },
{
    match resolution {
        Err(error) => Err(
            analysis_error(
                HttpStatus::ServerError,
                "Failed to fetch or load the ABI",
                Some(describe(&error)),
                None,
            ),
        ),
        Ok(candidates) => match decode_text(&candidates, call_data) {
            DecodeResult::Success { function_name, arguments, .. } => Ok((function_name, arguments)),
            DecodeResult::Failure { errors } => Err(
                analysis_error(
                    HttpStatus::ServerError,
                    "Failed to decode call data",
                    Some(describe_failure_of_all(&errors)),
                    None,
                ),
            ),
        },
    }
}

/// What came of asking the language model about a decoded call.
#[derive(Debug)]
pub enum ModelOutcome {
    /// The model could not be reached.
    Unreachable { cause: String },
    /// The model answered, but not with JSON.
    NotJson { cause: String },
    /// The model answered with an HTTP status that is no success; `body` is
    /// what it sent.
    HttpError { status: String, body: String },
    /// The model answered, and this is what it said.
    Answer { content: String },
}

/// The model of a `ModelOutcome`.
pub enum ModelOutcomeView {
    Unreachable { cause: Seq<char> },
    NotJson { cause: Seq<char> },
    HttpError { status: Seq<char>, body: Seq<char> },
    Answer { content: Seq<char> },
}

impl View for ModelOutcome {
    type V = ModelOutcomeView;

    open spec fn view(&self) -> ModelOutcomeView {
        match self {
            ModelOutcome::Unreachable { cause } => ModelOutcomeView::Unreachable { cause: cause@ },
            ModelOutcome::NotJson { cause } => ModelOutcomeView::NotJson { cause: cause@ },
            ModelOutcome::HttpError { status, body } => ModelOutcomeView::HttpError {
                status: status@,
                body: body@,
            },
            ModelOutcome::Answer { content } => ModelOutcomeView::Answer { content: content@ },
        }
    }
}

/// The response to an analysis that failed after the call was decoded.
pub open spec fn analysis_failure_spec(
    function_name: Seq<char>,
    arguments: Seq<Seq<char>>,
    message: Seq<char>,
    details: Seq<char>,
) -> AnalysisResponseView {
    AnalysisResponseView {
        status: "error"@,
        function_name: Some(function_name),
        arguments: Some(arguments),
        risk_level: None,
        explanation: None,
        message: Some(message),
        details: Some(details),
    }
}

/// The response that what came of asking the model gives.
pub open spec fn analysis_reply_spec(
    function_name: Seq<char>,
    arguments: Seq<Seq<char>>,
    outcome: ModelOutcomeView,
    risk_level_prefix: Seq<char>,
    explanation_prefix: Seq<char>,
) -> AnalysisResponseView {
    match outcome {
        ModelOutcomeView::Unreachable { cause } => analysis_failure_spec(
            function_name,
            arguments,
            "Failed to call DeepSeek API"@,
            cause,
        ),
        ModelOutcomeView::NotJson { cause } => analysis_failure_spec(
            function_name,
            arguments,
            "Failed to parse DeepSeek JSON response"@,
            cause,
        ),
        ModelOutcomeView::HttpError { status, body } => analysis_failure_spec(
            function_name,
            arguments,
            "DeepSeek API error (HTTP status: "@ + status + ")"@,
            body,
        ),
        ModelOutcomeView::Answer { content } => analysis_success_spec(
            function_name,
            arguments,
            content,
            risk_level_prefix,
            explanation_prefix,
        ),
    }
}

/// Answers a request for analysis, given the decoded call and what came of
/// asking the model: only an answer of the model is a success; anything else
/// is reported with the decoded call and the cause.
pub fn analysis_reply(
    function_name: String,
    arguments: Vec<String>,
    outcome: ModelOutcome,
    format: &ResponseFormat,
) -> (r: (HttpStatus, AnalysisResponse))
    ensures
        r.0 == if outcome is Answer {
            HttpStatus::Success
        } else {
            HttpStatus::ServerError
        },
        r.1@ == analysis_reply_spec(
            function_name@,
            texts(arguments@),
            outcome@,
            format.risk_level_prefix@,
            format.explanation_prefix@,
        ),
{
    match outcome {
        ModelOutcome::Unreachable { cause } => analysis_error(
            HttpStatus::ServerError,
            "Failed to call DeepSeek API",
            Some(cause),
            Some((function_name, arguments)),
        ),
        ModelOutcome::NotJson { cause } => analysis_error(
            HttpStatus::ServerError,
            "Failed to parse DeepSeek JSON response",
            Some(cause),
            Some((function_name, arguments)),
        ),
        ModelOutcome::HttpError { status, body } => {
            let mut message = String::from_str("DeepSeek API error (HTTP status: ");
            message.append(status.as_str());
            message.append(")");
            analysis_error(
                HttpStatus::ServerError,
                message.as_str(),
                Some(body),
                Some((function_name, arguments)),
            )
        },
        ModelOutcome::Answer { content } => analysis_success(
            function_name,
            arguments,
            content.as_str(),
            format,
        ),
    }
}

/// The response to a request for analysis whose address is no address.
pub fn analysis_invalid_address(error: &InvalidAddress) -> (r: (HttpStatus, AnalysisResponse))
    ensures
        r.0 == HttpStatus::BadRequest,
        r.1@ == analysis_error_spec("Invalid contract address: "@ + error.reason@, None),
{
    let mut message = String::from_str("Invalid contract address: ");
    message.append(error.reason.as_str());
    analysis_error(HttpStatus::BadRequest, message.as_str(), None, None)
}

} // verus!
