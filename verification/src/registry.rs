//! The registries that are asked for a schema: how a request is addressed
//! and what a response means.

use crate::json::{json_text_member, text_member};
use crate::schema::{payload_schema, Schema, SchemaError};
use crate::text::{holds, redact, redacted};
use crate::views::opt_text;
use vstd::prelude::*;
use vstd::string::*;

verus! {

/// A registry source: one network on which contracts are verified.
#[derive(Debug)]
pub struct Network {
    /// The identifier by which the registry knows the network.
    pub chain_id: String,
    /// The name of the network, for diagnostics.
    pub name: String,
}

impl View for Network {
    type V = (Seq<char>, Seq<char>);

    open spec fn view(&self) -> (Seq<char>, Seq<char>) {
        (self.chain_id@, self.name@)
    }
}

/// The views of a sequence of networks.
pub open spec fn networks_view(v: Seq<Network>) -> Seq<(Seq<char>, Seq<char>)> {
    v.map_values(|n: Network| n@)
}

/// The networks that are asked when nothing else is configured, in their
/// order of priority.
pub open spec fn default_networks_spec() -> Seq<(Seq<char>, Seq<char>)> {
    seq![("11155111"@, "Ethereum Sepolia"@), ("421614"@, "Arbitrum Sepolia"@)]
}

/// The address of a request for the schema of `address` on the network
/// `chain_id`. A credential, if there is one, comes last.
pub open spec fn request_url_spec(chain_id: Seq<char>, address: Seq<char>, api_key: Seq<char>) -> Seq<
    char,
> {
    let open = "https://api.etherscan.io/v2/api?chainid="@ + chain_id
        + "&module=contract&action=getabi&address="@ + address;
    if api_key.len() == 0 {
        open
    } else {
        open + "&apikey="@ + api_key
    }
}

/// What a registry's response holds under the three members that are read.
#[derive(Debug)]
pub struct Envelope {
    pub status: Option<String>,
    pub message: Option<String>,
    pub result: Option<String>,
}

/// The model of an `Envelope`.
pub struct EnvelopeView {
    pub status: Option<Seq<char>>,
    pub message: Option<Seq<char>>,
    pub result: Option<Seq<char>>,
}

impl View for Envelope {
    type V = EnvelopeView;

    open spec fn view(&self) -> EnvelopeView {
        EnvelopeView {
            status: opt_text(self.status),
            message: opt_text(self.message),
            result: opt_text(self.result),
        }
    }
}

/// What an envelope says, before its payload is looked at.
#[derive(Debug)]
pub enum Verdict {
    /// The registry has a schema, and this is its payload.
    Payload(String),
    /// The registry has no schema for the address, and says why.
    NotFound { message: String },
    /// The registry claims a schema but sent none.
    Malformed,
}

/// The model of a `Verdict`.
pub enum VerdictView {
    Payload(Seq<char>),
    NotFound { message: Seq<char> },
    Malformed,
}

impl View for Verdict {
    type V = VerdictView;

    open spec fn view(&self) -> VerdictView {
        match self {
            Verdict::Payload(payload) => VerdictView::Payload(payload@),
            Verdict::NotFound { message } => VerdictView::NotFound { message: message@ },
            Verdict::Malformed => VerdictView::Malformed,
        }
    }
}

/// What one registry answered.
#[derive(Debug)]
pub enum RegistryOutcome {
    /// The registry returned a schema.
    Found(Schema),
    /// The registry has no schema for the address on this network.
    NotFound { message: String },
    /// The response could not be used.
    Failed { cause: String },
}

/// The model of a `RegistryOutcome`.
pub enum OutcomeView {
    Found(Seq<char>),
    NotFound { message: Seq<char> },
    Failed { cause: Seq<char> },
}

impl View for RegistryOutcome {
    type V = OutcomeView;

    open spec fn view(&self) -> OutcomeView {
        match self {
            RegistryOutcome::Found(schema) => OutcomeView::Found(schema@),
            RegistryOutcome::NotFound { message } => OutcomeView::NotFound { message: message@ },
            RegistryOutcome::Failed { cause } => OutcomeView::Failed { cause: cause@ },
        }
    }
}

/// The message that stands in where a registry gives none.
pub open spec fn default_message() -> Seq<char> {
    "Desconocido"@
}

/// The cause recorded for a response that is not JSON.
pub open spec fn cause_not_json() -> Seq<char> {
    "the response is not a JSON document"@
}

/// The cause recorded for a response that claims a schema and holds none.
pub open spec fn cause_no_payload() -> Seq<char> {
    "the response holds no schema"@
}

/// The cause recorded for a payload that is not JSON.
pub open spec fn cause_payload_not_json() -> Seq<char> {
    "the schema is not a JSON document"@
}

/// The cause recorded for a payload that describes no interface.
pub open spec fn cause_not_an_interface() -> Seq<char> {
    "the schema does not describe an interface"@
}

/// The text under a member, where the document has one there.
pub open spec fn member_or_none(found: Option<Option<Seq<char>>>) -> Option<Seq<char>> {
    match found {
        Some(Some(text)) => Some(text),
        _ => None,
    }
}

/// The envelope of a response, or `None` where the response is not JSON.
pub open spec fn envelope_of(body: Seq<char>) -> Option<EnvelopeView> {
    match json_text_member(body, "status"@) {
        None => None,
        Some(status) => Some(
            EnvelopeView {
                status,
                message: member_or_none(json_text_member(body, "message"@)),
                result: member_or_none(json_text_member(body, "result"@)),
            },
        ),
    }
}

/// What an envelope says: a schema is claimed by the status `1` alone.
pub open spec fn classify_spec(envelope: EnvelopeView) -> VerdictView {
    if envelope.status == Some("1"@) {
        match envelope.result {
            Some(payload) => VerdictView::Payload(payload),
            None => VerdictView::Malformed,
        }
    } else {
        VerdictView::NotFound {
            message: match envelope.message {
                Some(message) => message,
                None => default_message(),
            },
        }
    }
}

/// What a response means.
pub open spec fn interpret_spec(body: Seq<char>) -> OutcomeView {
    match envelope_of(body) {
        None => OutcomeView::Failed { cause: cause_not_json() },
        Some(envelope) => match classify_spec(envelope) {
            VerdictView::Malformed => OutcomeView::Failed { cause: cause_no_payload() },
            VerdictView::NotFound { message } => OutcomeView::NotFound { message },
            VerdictView::Payload(payload) => match payload_schema(payload) {
                Ok(text) => OutcomeView::Found(text),
                Err(SchemaError::NotJson) => OutcomeView::Failed {
                    cause: cause_payload_not_json(),
                },
                Err(SchemaError::NotAnInterface) => OutcomeView::Failed {
                    cause: cause_not_an_interface(),
                },
            },
        },
    }
}

impl Network {
    /// A network with the given identifier and name.
    pub fn new(chain_id: &str, name: &str) -> (r: Network)
        ensures
            r@ == (chain_id@, name@),
    {
        Network { chain_id: String::from_str(chain_id), name: String::from_str(name) }
    }
}

/// The networks that are asked when nothing else is configured: Ethereum
/// Sepolia first, then Arbitrum Sepolia.
pub fn default_networks() -> (r: Vec<Network>)
    ensures
        networks_view(r@) == default_networks_spec(),
{
    let mut networks: Vec<Network> = Vec::new();
    networks.push(Network::new("11155111", "Ethereum Sepolia"));
    networks.push(Network::new("421614", "Arbitrum Sepolia"));
    assert(networks_view(networks@) =~= default_networks_spec());
    networks
}

/// The address of the request that asks the network `chain_id` for the
/// schema of `address`. With an empty `api_key` no credential is sent.
pub fn request_url(chain_id: &str, address: &str, api_key: &str) -> (r: String)
    ensures
        r@ == request_url_spec(chain_id@, address@, api_key@),
{
    let mut url = String::from_str("https://api.etherscan.io/v2/api?chainid=");
    url.append(chain_id);
    url.append("&module=contract&action=getabi&address=");
    url.append(address);
    if !api_key.is_empty() {
        url.append("&apikey=");
        url.append(api_key);
    }
    url
}

/// The address of a request as it may be shown: the credential is blotted
/// out wherever it stands in the address.
pub fn display_url(chain_id: &str, address: &str, api_key: &str) -> (r: String)
    ensures
        r@ == redacted(request_url_spec(chain_id@, address@, api_key@), api_key@),
        api_key@.len() > 0 ==> !holds(r@, api_key@),
{
    let url = request_url(chain_id, address, api_key);
    redact(url.as_str(), api_key)
}

/// Reads the envelope of a response: what it holds as text under `status`,
/// `message` and `result`. A response that is not JSON has no envelope.
pub fn read_envelope(body: &str) -> (r: Option<Envelope>)
    ensures
        r is Some <==> envelope_of(body@) is Some,
        r is Some ==> r.unwrap()@ == envelope_of(body@).unwrap(),
{
    let status = match text_member(body, "status") {
        Some(status) => status,
        None => {
            return None;
        },
    };
    let message = match text_member(body, "message") {
        Some(Some(message)) => Some(message),
        _ => None,
    };
    let result = match text_member(body, "result") {
        Some(Some(result)) => Some(result),
        _ => None,
    };
    Some(Envelope { status, message, result })
}

/// Says what an envelope means. The status `1` claims a schema, which must
/// then stand under `result`; any other status, or none, means that the
/// registry has no schema, for the reason under `message`.
pub fn classify(envelope: Envelope) -> (r: Verdict)
    ensures
        r@ == classify_spec(envelope@),
{
    let found = match &envelope.status {
        Some(status) => {
            let one = String::from_str("1");
            *status == one
        },
        None => false,
    };
    if found {
        match envelope.result {
            Some(payload) => Verdict::Payload(payload),
            None => Verdict::Malformed,
        }
    } else {
        match envelope.message {
            Some(message) => Verdict::NotFound { message },
            None => Verdict::NotFound { message: String::from_str("Desconocido") },
        }
    }
}

/// Says what the response of a registry means: a schema, the registry's
/// word that it has none, or the cause for which the response is of no use.
pub fn interpret_response(body: &str) -> (r: RegistryOutcome)
    ensures
        r@ == interpret_spec(body@),
{
    let envelope = match read_envelope(body) {
        Some(envelope) => envelope,
        None => {
            return RegistryOutcome::Failed {
                cause: String::from_str("the response is not a JSON document"),
            };
        },
    };
    match classify(envelope) {
        Verdict::Malformed => RegistryOutcome::Failed {
            cause: String::from_str("the response holds no schema"),
        },
        Verdict::NotFound { message } => RegistryOutcome::NotFound { message },
        Verdict::Payload(payload) => match Schema::from_payload(payload.as_str()) {
            Ok(schema) => RegistryOutcome::Found(schema),
            Err(SchemaError::NotJson) => RegistryOutcome::Failed {
                cause: String::from_str("the schema is not a JSON document"),
            },
            Err(SchemaError::NotAnInterface) => RegistryOutcome::Failed {
                cause: String::from_str("the schema does not describe an interface"),
            },
        },
    }
}

} // verus!
