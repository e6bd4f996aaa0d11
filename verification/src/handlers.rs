//! What is answered to a request to decode call data, once the schemas of
//! the contract are resolved or known to be missing.

use crate::address::InvalidAddress;
use crate::candidates::CandidateSet;
use crate::decoder::{decode_text, decode_text_spec, DecodeResult, DecodeResultView};
use crate::messages::{DecodeResponse, DecodeResponseView, HttpStatus};
use crate::resolver::{
    failures_view, ErrorView, FailureView, NetworkFailure, ResolutionError,
};
use crate::views::texts;
use vstd::prelude::*;
use vstd::string::*;

verus! {

/// What is said of one network that gave no schema.
pub open spec fn failure_line(f: FailureView) -> Seq<char> {
    match f {
        FailureView::NotFoundOnNetwork { network, message } => network + ": not found ("@ + message
            + ")"@,
        FailureView::RegistryError { network, cause } => network + ": "@ + cause,
    }
}

/// What is said of the networks that gave no schema, one after the other.
pub open spec fn failure_lines(reasons: Seq<FailureView>) -> Seq<char>
    decreases reasons.len(),
{
    if reasons.len() == 0 {
        Seq::empty()
    } else {
        failure_lines(reasons.drop_last()) + "; "@ + failure_line(reasons.last())
    }
}

/// What is said of a resolution that gave no candidate.
pub open spec fn described(error: ErrorView) -> Seq<char> {
    match error {
        ErrorView::CacheError { key } => "the cache entry under "@ + key + " is not a schema"@,
        ErrorView::ResolutionFailed { reasons } => "no network has a schema for the address"@
            + failure_lines(reasons),
    }
}

/// The reasons one after the other, in their order.
pub open spec fn listed(errors: Seq<Seq<char>>) -> Seq<char>
    decreases errors.len(),
{
    if errors.len() == 0 {
        Seq::empty()
    } else if errors.len() == 1 {
        errors[0]
    } else {
        listed(errors.drop_last()) + "; "@ + errors.last()
    }
}

/// What is said of call data that no candidate decoded: the reason of each
/// candidate, in the order of the candidates; a fixed text where there was
/// no candidate at all.
pub open spec fn failure_details(errors: Seq<Seq<char>>) -> Seq<char> {
    if errors.len() == 0 {
        "No ABI found"@
    } else {
        "Every candidate schema failed: "@ + listed(errors)
    }
}

/// The response to text that is no address.
pub open spec fn invalid_address_spec(reason: Seq<char>) -> DecodeResponseView {
    DecodeResponseView {
        status: "error"@,
        function_name: None,
        arguments: None,
        message: Some("Invalid contract address: "@ + reason),
        details: None,
        abi: None,
    }
}

/// The response to a request whose contract has no schema.
pub open spec fn resolution_failed_spec(error: ErrorView) -> DecodeResponseView {
    DecodeResponseView {
        status: "error"@,
        function_name: None,
        arguments: None,
        message: Some("Failed to fetch or load the ABI"@),
        details: Some(described(error)),
        abi: None,
    }
}

/// The response that tells the outcome of decoding.
pub open spec fn decode_reply_spec(result: DecodeResultView) -> DecodeResponseView {
    match result {
        DecodeResultView::Success { function_name, arguments, schema, .. } => DecodeResponseView {
            status: "success"@,
            function_name: Some(function_name),
            arguments: Some(arguments),
            message: None,
            details: None,
            abi: Some(schema),
        },
        DecodeResultView::Failure { errors } => DecodeResponseView {
            status: "error"@,
            function_name: None,
            arguments: None,
            message: Some("Failed to decode call data"@),
            details: Some(failure_details(errors)),
            abi: None,
        },
    }
}

/// The kind of answer that the outcome of decoding travels with.
pub open spec fn decode_status_spec(result: DecodeResultView) -> HttpStatus {
    match result {
        DecodeResultView::Success { .. } => HttpStatus::Success,
        DecodeResultView::Failure { .. } => HttpStatus::ServerError,
    }
}

/// Says why one network gave no schema.
fn describe_failure(out: &mut String, failure: &NetworkFailure)
    ensures
        final(out)@ == old(out)@ + failure_line(failure@),
{
    match failure {
        NetworkFailure::NotFoundOnNetwork { network, message } => {
            out.append(network.as_str());
            out.append(": not found (");
            out.append(message.as_str());
            out.append(")");
            assert(out@ =~= old(out)@ + failure_line(failure@));
        },
        NetworkFailure::RegistryError { network, cause } => {
            out.append(network.as_str());
            out.append(": ");
            out.append(cause.as_str());
            assert(out@ =~= old(out)@ + failure_line(failure@));
        },
    }
}

/// Says why a resolution gave no candidate: for a failed resolution, each
/// network with the reason for which it gave no schema, in the order in
/// which the networks were asked.
pub fn describe(error: &ResolutionError) -> (r: String)
    ensures
        r@ == described(error@),
{
    match error {
        ResolutionError::CacheError { key } => {
            let mut out = String::from_str("the cache entry under ");
            out.append(key.as_str());
            out.append(" is not a schema");
            out
        },
        ResolutionError::ResolutionFailed { reasons } => {
            let mut out = String::from_str("no network has a schema for the address");
            let ghost head = out@;
            let ghost all = failures_view(reasons@);
            let mut i: usize = 0;
            assert(all.take(0) =~= Seq::<FailureView>::empty());
            assert(out@ =~= head + failure_lines(all.take(0)));
            while i < reasons.len()
                invariant
                    i <= reasons@.len(),
                    all == failures_view(reasons@),
                    out@ == head + failure_lines(all.take(i as int)),
                decreases reasons@.len() - i,
            {
                let ghost before = out@;
                out.append("; ");
                describe_failure(&mut out, &reasons[i]);
                proof {
                    let next = all.take(i + 1);
                    assert(next.drop_last() =~= all.take(i as int));
                    assert(next.last() == reasons@[i as int]@);
                    assert(out@ =~= head + failure_lines(next));
                }
                i = i + 1;
            }
            assert(all.take(reasons@.len() as int) =~= all);
            out
        },
    }
}

/// Says why no candidate decoded the call data: the reason of each
/// candidate, in the order of the candidates.
pub fn describe_failure_of_all(errors: &Vec<String>) -> (r: String)
    ensures
        r@ == failure_details(texts(errors@)),
{
    if errors.len() == 0 {
        return String::from_str("No ABI found");
    }
    let ghost all = texts(errors@);
    let mut out = String::from_str("Every candidate schema failed: ");
    let ghost head = out@;
    out.append(errors[0].as_str());
    assert(all.take(1) =~= seq![all[0]]);
    let mut i: usize = 1;
    while i < errors.len()
        invariant
            1 <= i <= errors@.len(),
            all == texts(errors@),
            out@ == head + listed(all.take(i as int)),
        decreases errors@.len() - i,
    {
        out.append("; ");
        out.append(errors[i].as_str());
        proof {
            let next = all.take(i + 1);
            assert(next.drop_last() =~= all.take(i as int));
            assert(next.last() == errors@[i as int]@);
            assert(out@ =~= head + listed(next));
        }
        i = i + 1;
    }
    assert(all.take(errors@.len() as int) =~= all);
    out
}

/// The response to a request whose address is no address.
pub fn invalid_address_reply(error: &InvalidAddress) -> (r: (HttpStatus, DecodeResponse))
    ensures
        r.0 == HttpStatus::BadRequest,
        r.1@ == invalid_address_spec(error.reason@),
{
    let mut message = String::from_str("Invalid contract address: ");
    message.append(error.reason.as_str());
    (
        HttpStatus::BadRequest,
        DecodeResponse {
            status: String::from_str("error"),
            function_name: None,
            arguments: None,
            message: Some(message),
            details: None,
            abi: None,
        },
    )
}

/// The response to a request whose contract has no schema.
pub fn resolution_failed_reply(error: &ResolutionError) -> (r: (HttpStatus, DecodeResponse))
    ensures
        r.0 == HttpStatus::ServerError,
        r.1@ == resolution_failed_spec(error@),
{
    (
        HttpStatus::ServerError,
        DecodeResponse {
            status: String::from_str("error"),
            function_name: None,
            arguments: None,
            message: Some(String::from_str("Failed to fetch or load the ABI")),
            details: Some(describe(error)),
            abi: None,
        },
    )
}

/// The response that tells the outcome of decoding: on success the call and
/// the schema that decoded it; on failure the reason of every candidate.
pub fn decode_reply(result: DecodeResult) -> (r: (HttpStatus, DecodeResponse))
    ensures
        r.0 == decode_status_spec(result@),
        r.1@ == decode_reply_spec(result@),
{
    match result {
        DecodeResult::Success { function_name, arguments, schema, .. } => (
            HttpStatus::Success,
            DecodeResponse {
                status: String::from_str("success"),
                function_name: Some(function_name),
                arguments: Some(arguments),
                message: None,
                details: None,
                abi: Some(schema.to_text()),
            },
        ),
        DecodeResult::Failure { errors } => (
            HttpStatus::ServerError,
            DecodeResponse {
                status: String::from_str("error"),
                function_name: None,
                arguments: None,
                message: Some(String::from_str("Failed to decode call data")),
                details: Some(describe_failure_of_all(&errors)),
                abi: None,
            },
        ),
    }
}

/// Answers a request to decode call data, given what the resolution of the
/// contract's schemas came to.
pub fn serve_decode(resolution: Result<CandidateSet, ResolutionError>, call_data: &str) -> (r: (
    HttpStatus,
    DecodeResponse,
))
    ensures
        match resolution {
            Ok(candidates) => r.0 == decode_status_spec(decode_text_spec(candidates@, call_data@))
                && r.1@ == decode_reply_spec(decode_text_spec(candidates@, call_data@)),
            Err(error) => r.0 == HttpStatus::ServerError && r.1@ == resolution_failed_spec(error@),
        },
{
    match resolution {
        Ok(candidates) => decode_reply(decode_text(&candidates, call_data)),
        Err(error) => resolution_failed_reply(&error),
    }
}

} // verus!
