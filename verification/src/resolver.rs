//! Resolution of the candidate schemas of one address.
//!
//! A `Resolver` decides and never acts: `pending` names what has to be done
//! next (read the cache, ask a registry, write the cache), and `on_event`
//! takes what came of it. Whoever drives a resolver performs each action and
//! hands back the event that answers it, until the action is `Done`.

use crate::address::{address_text, Address};
use crate::candidates::{all_interfaces, distinct, with_candidate, CandidateSet};
use crate::registry::{
    display_url, interpret_response, interpret_spec, networks_view, request_url, request_url_spec,
    Network, OutcomeView, RegistryOutcome,
};
use crate::schema::{is_schema_text, Schema};
use crate::text::{
    holds, law_redacted_holds_no_secret, redact, redacted,
};
use vstd::prelude::*;

verus! {

/// Where a resolution stands.
#[derive(Clone, Copy, Debug, PartialEq, Eq, Structural)]
pub enum Phase {
    /// The cache has to be read.
    CacheCheck,
    /// The cache held nothing, and the registries are asked in turn.
    NetworkQuery,
    /// Every registry was asked, and the first candidate has to be stored.
    Persist,
    /// Over: there is at least one candidate.
    Resolved,
    /// Over: no registry had a schema.
    Failed,
    /// Over: the cache holds an entry that is no schema.
    Corrupt,
}

/// Why one network gave no schema.
#[derive(Debug)]
pub enum NetworkFailure {
    /// The registry has no schema for the address on this network.
    NotFoundOnNetwork { network: String, message: String },
    /// The registry could not be reached, or its response was of no use.
    RegistryError { network: String, cause: String },
}

/// The model of a `NetworkFailure`.
pub enum FailureView {
    NotFoundOnNetwork { network: Seq<char>, message: Seq<char> },
    RegistryError { network: Seq<char>, cause: Seq<char> },
}

impl View for NetworkFailure {
    type V = FailureView;

    open spec fn view(&self) -> FailureView {
        match self {
            NetworkFailure::NotFoundOnNetwork { network, message } => FailureView::NotFoundOnNetwork {
                network: network@,
                message: message@,
            },
            NetworkFailure::RegistryError { network, cause } => FailureView::RegistryError {
                network: network@,
                cause: cause@,
            },
        }
    }
}

/// The views of a sequence of failures.
pub open spec fn failures_view(v: Seq<NetworkFailure>) -> Seq<FailureView> {
    v.map_values(|f: NetworkFailure| f@)
}

/// The network that a failure belongs to.
pub open spec fn failure_network(f: FailureView) -> Seq<char> {
    match f {
        FailureView::NotFoundOnNetwork { network, .. } => network,
        FailureView::RegistryError { network, .. } => network,
    }
}

/// Why a resolution gave no candidate.
#[derive(Debug)]
pub enum ResolutionError {
    /// The cache holds an entry under this key that is no schema.
    CacheError { key: String },
    /// No network had a schema; `reasons` holds one failure for each network,
    /// in the order in which the networks were asked.
    ResolutionFailed { reasons: Vec<NetworkFailure> },
}

/// The model of a `ResolutionError`.
pub enum ErrorView {
    CacheError { key: Seq<char> },
    ResolutionFailed { reasons: Seq<FailureView> },
}

impl View for ResolutionError {
    type V = ErrorView;

    open spec fn view(&self) -> ErrorView {
        match self {
            ResolutionError::CacheError { key } => ErrorView::CacheError { key: key@ },
            ResolutionError::ResolutionFailed { reasons } => ErrorView::ResolutionFailed {
                reasons: failures_view(reasons@),
            },
        }
    }
}

/// What has to be done next for a resolution.
#[derive(Debug)]
pub enum Action {
    /// Look up the cache entry under `key`.
    ReadCache { key: String },
    /// Ask the registry for the network at `index` of the configured list.
    /// `url` addresses the request; `log_url` is the same without the
    /// credential, for logs.
    Query { index: usize, chain_id: String, url: String, log_url: String },
    /// Write `text` to the cache under `key`.
    Store { key: String, text: String },
    /// Nothing: the resolution is over.
    Done,
}

/// The model of an `Action`.
pub enum ActionView {
    ReadCache { key: Seq<char> },
    Query { index: int, chain_id: Seq<char>, url: Seq<char>, log_url: Seq<char> },
    Store { key: Seq<char>, text: Seq<char> },
    Done,
}

impl View for Action {
    type V = ActionView;

    open spec fn view(&self) -> ActionView {
        match self {
            Action::ReadCache { key } => ActionView::ReadCache { key: key@ },
            Action::Query { index, chain_id, url, log_url } => ActionView::Query {
                index: *index as int,
                chain_id: chain_id@,
                url: url@,
                log_url: log_url@,
            },
            Action::Store { key, text } => ActionView::Store { key: key@, text: text@ },
            Action::Done => ActionView::Done,
        }
    }
}

/// What came of an action.
#[derive(Debug)]
pub enum Event {
    /// The cache holds no entry under the key.
    CacheMiss,
    /// The cache holds this text under the key.
    CacheHit { text: String },
    /// The registry answered with this body.
    Reply { body: String },
    /// The registry could not be reached, or gave no answer in time.
    Unreachable { cause: String },
    /// The cache was written.
    Stored,
    /// The cache could not be written.
    StoreFailed { cause: String },
}

/// The model of an `Event`.
pub enum EventView {
    CacheMiss,
    CacheHit { text: Seq<char> },
    Reply { body: Seq<char> },
    Unreachable { cause: Seq<char> },
    Stored,
    StoreFailed { cause: Seq<char> },
}

impl View for Event {
    type V = EventView;

    open spec fn view(&self) -> EventView {
        match self {
            Event::CacheMiss => EventView::CacheMiss,
            Event::CacheHit { text } => EventView::CacheHit { text: text@ },
            Event::Reply { body } => EventView::Reply { body: body@ },
            Event::Unreachable { cause } => EventView::Unreachable { cause: cause@ },
            Event::Stored => EventView::Stored,
            Event::StoreFailed { cause } => EventView::StoreFailed { cause: cause@ },
        }
    }
}

/// The model of a resolver.
pub struct State {
    /// The cache key of the address.
    pub key: Seq<char>,
    /// The configured networks, each with its identifier and name, in their
    /// order of priority.
    pub networks: Seq<(Seq<char>, Seq<char>)>,
    /// The credential; empty where there is none.
    pub api_key: Seq<char>,
    pub phase: Phase,
    /// How many networks have answered.
    pub next: int,
    /// The candidates found so far.
    pub candidates: Seq<Seq<char>>,
    /// The failures recorded so far.
    pub failures: Seq<FailureView>,
    /// Whether the cache could not be written.
    pub store_failed: bool,
}

/// What holds of every resolver.
pub open spec fn state_wf(s: State) -> bool {
    &&& 0 <= s.next <= s.networks.len()
    &&& distinct(s.candidates)
    &&& all_interfaces(s.candidates)
    &&& s.failures.len() <= s.next
    &&& s.candidates.len() == 0 ==> s.failures.len() == s.next
    &&& forall|i: int|
        0 <= i < s.failures.len() && s.candidates.len() == 0 ==> failure_network(
            #[trigger] s.failures[i],
        ) == s.networks[i].0
    &&& match s.phase {
        Phase::CacheCheck => s.next == 0 && s.candidates.len() == 0,
        Phase::NetworkQuery => s.next < s.networks.len(),
        Phase::Persist => s.next == s.networks.len() && s.candidates.len() > 0,
        Phase::Resolved => s.candidates.len() > 0,
        Phase::Failed => s.next == s.networks.len() && s.candidates.len() == 0,
        Phase::Corrupt => s.next == 0 && s.candidates.len() == 0,
    }
}

/// The state in which a resolution begins.
pub open spec fn initial(
    networks: Seq<(Seq<char>, Seq<char>)>,
    api_key: Seq<char>,
    key: Seq<char>,
) -> State {
    State {
        key,
        networks,
        api_key,
        phase: Phase::CacheCheck,
        next: 0,
        candidates: Seq::empty(),
        failures: Seq::empty(),
        store_failed: false,
    }
}

/// The state after the answer of the network in turn is taken down: a schema
/// joins the candidates, anything else the failures, without the credential.
pub open spec fn record(s: State, outcome: OutcomeView) -> State {
    let network = s.networks[s.next].0;
    match outcome {
        OutcomeView::Found(text) => State { candidates: with_candidate(s.candidates, text), ..s },
        OutcomeView::NotFound { message } => State {
            failures: s.failures.push(
                FailureView::NotFoundOnNetwork { network, message: redacted(message, s.api_key) },
            ),
            ..s
        },
        OutcomeView::Failed { cause } => State {
            failures: s.failures.push(
                FailureView::RegistryError { network, cause: redacted(cause, s.api_key) },
            ),
            ..s
        },
    }
}

/// The state after the network in turn is done with: the next network is
/// asked; behind the last one the resolution fails or goes on to store.
pub open spec fn advance(s: State) -> State {
    if s.next + 1 < s.networks.len() {
        State { next: s.next + 1, ..s }
    } else if s.candidates.len() == 0 {
        State { next: s.next + 1, phase: Phase::Failed, ..s }
    } else {
        State { next: s.next + 1, phase: Phase::Persist, ..s }
    }
}

/// The state after an event. An event that does not answer the pending
/// action changes nothing.
pub open spec fn step(s: State, event: EventView) -> State {
    match (s.phase, event) {
        (Phase::CacheCheck, EventView::CacheHit { text }) => if is_schema_text(text) {
            State { phase: Phase::Resolved, candidates: seq![text], ..s }
        } else {
            State { phase: Phase::Corrupt, ..s }
        },
        (Phase::CacheCheck, EventView::CacheMiss) => if s.networks.len() == 0 {
            State { phase: Phase::Failed, ..s }
        } else {
            State { phase: Phase::NetworkQuery, ..s }
        },
        (Phase::NetworkQuery, EventView::Reply { body }) => advance(record(s, interpret_spec(body))),
        (Phase::NetworkQuery, EventView::Unreachable { cause }) => advance(
            record(s, OutcomeView::Failed { cause }),
        ),
        (Phase::Persist, EventView::Stored) => State { phase: Phase::Resolved, ..s },
        (Phase::Persist, EventView::StoreFailed { cause }) => State {
            phase: Phase::Resolved,
            store_failed: true,
            ..s
        },
        _ => s,
    }
}

/// The action that is pending in a state.
pub open spec fn pending(s: State) -> ActionView {
    match s.phase {
        Phase::CacheCheck => ActionView::ReadCache { key: s.key },
        Phase::NetworkQuery => ActionView::Query {
            index: s.next,
            chain_id: s.networks[s.next].0,
            url: request_url_spec(s.networks[s.next].0, s.key, s.api_key),
            log_url: redacted(request_url_spec(s.networks[s.next].0, s.key, s.api_key), s.api_key),
        },
        Phase::Persist => ActionView::Store { key: s.key, text: s.candidates[0] },
        _ => ActionView::Done,
    }
}

/// The outcome of a resolution that is over.
pub open spec fn outcome(s: State) -> Option<Result<Seq<Seq<char>>, ErrorView>> {
    match s.phase {
        Phase::Resolved => Some(Ok(s.candidates)),
        Phase::Failed => Some(Err(ErrorView::ResolutionFailed { reasons: s.failures })),
        Phase::Corrupt => Some(Err(ErrorView::CacheError { key: s.key })),
        _ => None,
    }
}

/// The view of the outcome that a resolver hands out.
pub open spec fn outcome_view(r: Option<Result<CandidateSet, ResolutionError>>) -> Option<
    Result<Seq<Seq<char>>, ErrorView>,
> {
    match r {
        Some(Ok(candidates)) => Some(Ok(candidates@)),
        Some(Err(error)) => Some(Err(error@)),
        None => None,
    }
}

/// A step keeps what holds of every resolver.
pub proof fn lemma_step_keeps_wf(s: State, event: EventView)
    requires
        state_wf(s),
    ensures
        state_wf(step(s, event)),
{
    match (s.phase, event) {
        (Phase::NetworkQuery, EventView::Reply { body }) => {
            lemma_record_advance(s, interpret_spec(body));
        },
        (Phase::NetworkQuery, EventView::Unreachable { cause }) => {
            lemma_record_advance(s, OutcomeView::Failed { cause });
        },
        (Phase::CacheCheck, EventView::CacheHit { text }) => {
            if is_schema_text(text) {
                let t = step(s, event);
                assert(t.candidates[0] == text);
            }
        },
        _ => {},
    }
}

/// Taking down an answer and moving on keeps what holds of every resolver.
pub proof fn lemma_record_advance(s: State, outcome: OutcomeView)
    requires
        state_wf(s),
        s.phase == Phase::NetworkQuery,
        outcome is Found ==> is_schema_text(outcome->Found_0),
    ensures
        state_wf(advance(record(s, outcome))),
{
    let r = record(s, outcome);
    match outcome {
        OutcomeView::Found(text) => {
            if !s.candidates.contains(text) {
                assert(r.candidates == s.candidates.push(text));
                assert forall|i: int, j: int| 0 <= i < j < r.candidates.len() implies r.candidates[i]
                    != r.candidates[j] by {
                    if j == s.candidates.len() {
                        assert(s.candidates.contains(s.candidates[i]));
                    }
                }
            }
        },
        _ => {},
    }
}

/// The state machine that resolves the candidate schemas of one address.
#[derive(Debug)]
pub struct Resolver {
    key: String,
    networks: Vec<Network>,
    api_key: String,
    phase: Phase,
    next: usize,
    candidates: CandidateSet,
    failures: Vec<NetworkFailure>,
    store_failed: bool,
}

impl View for Resolver {
    type V = State;

    closed spec fn view(&self) -> State {
        State {
            key: self.key@,
            networks: networks_view(self.networks@),
            api_key: self.api_key@,
            phase: self.phase,
            next: self.next as int,
            candidates: self.candidates@,
            failures: failures_view(self.failures@),
            store_failed: self.store_failed,
        }
    }
}

/// What a failure says of its network: the registry's message, or the cause.
pub open spec fn failure_text(f: FailureView) -> Seq<char> {
    match f {
        FailureView::NotFoundOnNetwork { message, .. } => message,
        FailureView::RegistryError { cause, .. } => cause,
    }
}

/// The credential stands in none of the recorded failures.
pub open spec fn credential_free(s: State) -> bool {
    forall|i: int|
        0 <= i < s.failures.len() ==> !holds(failure_text(#[trigger] s.failures[i]), s.api_key)
}

/// The credential never shows in what a resolver records or offers for a
/// log: no recorded failure holds it before the first event, none after any
/// event, and the address that a pending request is logged with does not
/// hold it either.
pub proof fn law_credential_stays_hidden(s: State, event: EventView)
    requires
        state_wf(s),
        s.api_key.len() > 0,
        credential_free(s),
    ensures
        credential_free(initial(s.networks, s.api_key, s.key)),
        credential_free(step(s, event)),
        pending(s) matches ActionView::Query { log_url, .. } ==> !holds(log_url, s.api_key),
{
    let t = step(s, event);
    assert(t.api_key == s.api_key);
    assert forall|i: int| 0 <= i < t.failures.len() implies !holds(
        failure_text(#[trigger] t.failures[i]),
        t.api_key,
    ) by {
        if i < s.failures.len() {
            assert(t.failures[i] == s.failures[i]);
        } else {
            match (s.phase, event) {
                (Phase::NetworkQuery, EventView::Reply { body }) => {
                    match interpret_spec(body) {
                        OutcomeView::NotFound { message } => {
                            law_redacted_holds_no_secret(message, s.api_key);
                        },
                        OutcomeView::Failed { cause } => {
                            law_redacted_holds_no_secret(cause, s.api_key);
                        },
                        OutcomeView::Found(_) => {},
                    }
                },
                (Phase::NetworkQuery, EventView::Unreachable { cause }) => {
                    law_redacted_holds_no_secret(cause, s.api_key);
                },
                _ => {},
            }
        }
    }
    if s.phase == Phase::NetworkQuery {
        law_redacted_holds_no_secret(
            request_url_spec(s.networks[s.next].0, s.key, s.api_key),
            s.api_key,
        );
    }
}

/// Takes down the answer of one network: a schema joins the candidates,
/// anything else the failures, without the credential.
fn take_down(
    network: &Network,
    api_key: &str,
    candidates: &mut CandidateSet,
    failures: &mut Vec<NetworkFailure>,
    answer: RegistryOutcome,
)
    ensures
        final(candidates)@ == match answer@ {
            OutcomeView::Found(text) => with_candidate(old(candidates)@, text),
            _ => old(candidates)@,
        },
        failures_view(final(failures)@) == match answer@ {
            OutcomeView::Found(_) => failures_view(old(failures)@),
            OutcomeView::NotFound { message } => failures_view(old(failures)@).push(
                FailureView::NotFoundOnNetwork {
                    network: network.chain_id@,
                    message: redacted(message, api_key@),
                },
            ),
            OutcomeView::Failed { cause } => failures_view(old(failures)@).push(
                FailureView::RegistryError {
                    network: network.chain_id@,
                    cause: redacted(cause, api_key@),
                },
            ),
        },
{
    match answer {
        RegistryOutcome::Found(schema) => {
            candidates.insert(schema);
        },
        RegistryOutcome::NotFound { message } => {
            let failure = NetworkFailure::NotFoundOnNetwork {
                network: network.chain_id.clone(),
                message: redact(message.as_str(), api_key),
            };
            failures.push(failure);
            assert(failures_view(failures@) =~= failures_view(old(failures)@).push(failure@));
        },
        RegistryOutcome::Failed { cause } => {
            let failure = NetworkFailure::RegistryError {
                network: network.chain_id.clone(),
                cause: redact(cause.as_str(), api_key),
            };
            failures.push(failure);
            assert(failures_view(failures@) =~= failures_view(old(failures)@).push(failure@));
        },
    }
}

/// The phase behind a network's answer, when `asked` of `count` networks
/// have answered.
fn phase_behind(asked: usize, count: usize, none_found: bool) -> (r: Phase)
    ensures
        r == if asked < count {
            Phase::NetworkQuery
        } else if none_found {
            Phase::Failed
        } else {
            Phase::Persist
        },
{
    if asked < count {
        Phase::NetworkQuery
    } else if none_found {
        Phase::Failed
    } else {
        Phase::Persist
    }
}

impl Resolver {
    /// What holds of every resolver.
    #[verifier::type_invariant]
    pub open spec fn wf(&self) -> bool {
        state_wf(self@)
    }

    /// A resolver for `address` that will ask `networks` in their order,
    /// with `api_key` as the credential; an empty key means none.
    pub fn new(networks: Vec<Network>, api_key: &str, address: &Address) -> (r: Resolver)
        ensures
            r@ == initial(networks_view(networks@), api_key@, address_text(address@)),
    {
        let r = Resolver {
            key: address.cache_key(),
            networks,
            api_key: api_key.to_owned(),
            phase: Phase::CacheCheck,
            next: 0,
            candidates: CandidateSet::new(),
            failures: Vec::new(),
            store_failed: false,
        };
        assert(r@.failures =~= Seq::<FailureView>::empty());
        r
    }

    /// Where the resolution stands.
    pub fn phase(&self) -> (r: Phase)
        ensures
            r == self@.phase,
    {
        self.phase
    }

    /// The failures recorded so far, in the order of the networks.
    pub fn failures(&self) -> (r: &Vec<NetworkFailure>)
        ensures
            failures_view(r@) == self@.failures,
    {
        &self.failures
    }

    /// Whether the cache could not be written.
    pub fn store_failed(&self) -> (r: bool)
        ensures
            r == self@.store_failed,
    {
        self.store_failed
    }

    /// The action that has to be performed next.
    pub fn pending(&self) -> (r: Action)
        ensures
            r@ == pending(self@),
    {
        proof {
            use_type_invariant(self);
        }
        match self.phase {
            Phase::CacheCheck => Action::ReadCache { key: self.key.clone() },
            Phase::NetworkQuery => {
                let network = &self.networks[self.next];
                assert(networks_view(self.networks@)[self.next as int] == network@);
                Action::Query {
                    index: self.next,
                    chain_id: network.chain_id.clone(),
                    url: request_url(
                        network.chain_id.as_str(),
                        self.key.as_str(),
                        self.api_key.as_str(),
                    ),
                    log_url: display_url(
                        network.chain_id.as_str(),
                        self.key.as_str(),
                        self.api_key.as_str(),
                    ),
                }
            },
            Phase::Persist => Action::Store {
                key: self.key.clone(),
                text: self.candidates.at(0).to_text(),
            },
            _ => Action::Done,
        }
    }

    /// Takes what came of the pending action and moves on. An event that
    /// does not answer the pending action is ignored.
    pub fn on_event(self, event: Event) -> (r: Resolver)
        ensures
            r@ == step(self@, event@),
    {
        proof {
            use_type_invariant(&self);
            lemma_step_keeps_wf(self@, event@);
        }
        let Resolver { key, networks, api_key, phase, next, candidates, failures, store_failed } =
            self;
        let mut phase = phase;
        let mut next = next;
        let mut candidates = candidates;
        let mut failures = failures;
        let mut store_failed = store_failed;
        match (phase, event) {
            (Phase::CacheCheck, Event::CacheHit { text }) => {
                match Schema::from_text(text.as_str()) {
                    Ok(schema) => {
                        candidates = CandidateSet::single(schema);
                        phase = Phase::Resolved;
                    },
                    Err(_) => {
                        phase = Phase::Corrupt;
                    },
                }
            },
            (Phase::CacheCheck, Event::CacheMiss) => {
                phase = if networks.len() == 0 {
                    Phase::Failed
                } else {
                    Phase::NetworkQuery
                };
            },
            (Phase::NetworkQuery, Event::Reply { body }) => {
                let count = networks.len();
                assert(networks_view(networks@)[next as int] == networks@[next as int]@);
                let answer = interpret_response(body.as_str());
                take_down(&networks[next], api_key.as_str(), &mut candidates, &mut failures, answer);
                next = next + 1;
                phase = phase_behind(next, count, candidates.is_empty());
            },
            (Phase::NetworkQuery, Event::Unreachable { cause }) => {
                let count = networks.len();
                assert(networks_view(networks@)[next as int] == networks@[next as int]@);
                let answer = RegistryOutcome::Failed { cause };
                take_down(&networks[next], api_key.as_str(), &mut candidates, &mut failures, answer);
                next = next + 1;
                phase = phase_behind(next, count, candidates.is_empty());
            },
            (Phase::Persist, Event::Stored) => {
                phase = Phase::Resolved;
            },
            (Phase::Persist, Event::StoreFailed { cause }) => {
                phase = Phase::Resolved;
                store_failed = true;
            },
            _ => {},
        }
        Resolver { key, networks, api_key, phase, next, candidates, failures, store_failed }
    }

    /// The outcome of the resolution, once it is over: the candidates in
    /// their order of priority, or the reason why there is none. `None`
    /// while an action is pending.
    pub fn into_outcome(self) -> (r: Option<Result<CandidateSet, ResolutionError>>)
        ensures
            outcome_view(r) == outcome(self@),
            r matches Some(Ok(candidates)) ==> candidates@.len() > 0,
    {
        proof {
            use_type_invariant(&self);
        }
        match self.phase {
            Phase::Resolved => Some(Ok(self.candidates)),
            Phase::Failed => Some(Err(ResolutionError::ResolutionFailed { reasons: self.failures })),
            Phase::Corrupt => Some(Err(ResolutionError::CacheError { key: self.key })),
            _ => None,
        }
    }
}

} // verus!
