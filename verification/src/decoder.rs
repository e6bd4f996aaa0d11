//! Decoding of call data against candidate schemas, one after the other,
//! until one of them accepts it.

use crate::abi::{abi_arguments, abi_functions, decode_arguments, entries, FunctionEntry};
use crate::candidates::CandidateSet;
use crate::hex::{call_data_bytes, is_call_data_text, parse_call_data};
use crate::schema::{payload_schema, text_schema, Schema, SchemaError};
use crate::views::texts;
use vstd::prelude::*;
use vstd::slice::slice_subrange;
use vstd::string::*;

verus! {

/// What one schema makes of call data.
#[derive(Debug)]
pub enum Attempt {
    /// The schema declares the function that was called, and its arguments
    /// were read.
    Decoded { name: String, arguments: Vec<String> },
    /// The schema does not accept the call data, for the reason given.
    Rejected { reason: String },
}

/// The model of an `Attempt`.
pub enum AttemptView {
    Decoded { name: Seq<char>, arguments: Seq<Seq<char>> },
    Rejected { reason: Seq<char> },
}

impl View for Attempt {
    type V = AttemptView;

    open spec fn view(&self) -> AttemptView {
        match self {
            Attempt::Decoded { name, arguments } => AttemptView::Decoded {
                name: name@,
                arguments: texts(arguments@),
            },
            Attempt::Rejected { reason } => AttemptView::Rejected { reason: reason@ },
        }
    }
}

/// The outcome of decoding call data against a set of candidates.
#[derive(Debug)]
pub enum DecodeResult {
    /// A candidate accepted the call data. `rejected` holds the reasons of
    /// the candidates that were tried before it, in their order; no
    /// candidate behind `schema` was tried.
    Success { function_name: String, arguments: Vec<String>, schema: Schema, rejected: Vec<String> },
    /// No candidate accepted the call data. `errors` holds one reason for
    /// each candidate, in the order of the candidates.
    Failure { errors: Vec<String> },
}

/// The model of a `DecodeResult`.
pub enum DecodeResultView {
    Success {
        function_name: Seq<char>,
        arguments: Seq<Seq<char>>,
        schema: Seq<char>,
        rejected: Seq<Seq<char>>,
    },
    Failure { errors: Seq<Seq<char>> },
}

impl View for DecodeResult {
    type V = DecodeResultView;

    open spec fn view(&self) -> DecodeResultView {
        match self {
            DecodeResult::Success {
                function_name,
                arguments,
                schema,
                rejected,
            } => DecodeResultView::Success {
                function_name: function_name@,
                arguments: texts(arguments@),
                schema: schema@,
                rejected: texts(rejected@),
            },
            DecodeResult::Failure { errors } => DecodeResultView::Failure { errors: texts(errors@) },
        }
    }
}

/// Where the fold over the candidates stands after one more attempt.
#[derive(Debug)]
pub enum Progress {
    /// A candidate accepted the call data: the fold is over.
    Settled(DecodeResult),
    /// Every candidate so far rejected the call data, for these reasons.
    Open(Vec<String>),
}

/// The reason given for call data that cannot hold a selector.
pub open spec fn reason_too_short() -> Seq<char> {
    "call data is shorter than a function selector"@
}

/// The reason given where no function of a schema has the selector.
pub open spec fn reason_no_function() -> Seq<char> {
    "no function of the schema matches the selector"@
}

/// The reason given on a machine whose words are too narrow for the
/// positions that a payload may hold.
pub open spec fn reason_narrow_words() -> Seq<char> {
    "arguments are read on machines with words of 64 bits only"@
}

/// The reason given for call data that is not hexadecimal text.
pub open spec fn reason_not_hex() -> Seq<char> {
    "call data is not hexadecimal text"@
}

/// `k` is the first entry of `table` with the given selector.
pub open spec fn is_first_match(
    table: Seq<(Seq<char>, Seq<u8>)>,
    selector: Seq<u8>,
    k: int,
) -> bool {
    &&& 0 <= k < table.len()
    &&& table[k].1 == selector
    &&& forall|j: int| 0 <= j < k ==> (#[trigger] table[j]).1 != selector
}

/// The first entry of `table` with the given selector, if there is one.
pub open spec fn first_match(table: Seq<(Seq<char>, Seq<u8>)>, selector: Seq<u8>) -> Option<int> {
    if exists|k: int| is_first_match(table, selector, k) {
        Some(choose|k: int| is_first_match(table, selector, k))
    } else {
        None
    }
}

/// What a schema makes of call data: the first function with the selector
/// of the call data decides, by what `ethabi` reads from the rest. The rest
/// is read only where the words of the machine have 64 bits.
pub open spec fn candidate_outcome(schema: Seq<char>, call_data: Seq<u8>) -> AttemptView {
    if call_data.len() < 4 {
        AttemptView::Rejected { reason: reason_too_short() }
    } else {
        let table = abi_functions(schema).unwrap();
        match first_match(table, call_data.subrange(0, 4)) {
            None => AttemptView::Rejected { reason: reason_no_function() },
            Some(k) => if usize::BITS < 64 {
                AttemptView::Rejected { reason: reason_narrow_words() }
            } else {
                match abi_arguments(schema, k, call_data.skip(4)) {
                    Ok(arguments) => AttemptView::Decoded { name: table[k].0, arguments },
                    Err(reason) => AttemptView::Rejected { reason },
                }
            },
        }
    }
}

/// The reason that an attempt gives; none where it succeeded.
pub open spec fn reason_of(attempt: AttemptView) -> Seq<char> {
    match attempt {
        AttemptView::Rejected { reason } => reason,
        AttemptView::Decoded { .. } => Seq::empty(),
    }
}

/// The reasons of a sequence of attempts.
pub open spec fn reasons(attempts: Seq<AttemptView>) -> Seq<Seq<char>> {
    attempts.map_values(|a: AttemptView| reason_of(a))
}

/// `k` is the first attempt that succeeded.
pub open spec fn is_first_success(attempts: Seq<AttemptView>, k: int) -> bool {
    &&& 0 <= k < attempts.len()
    &&& attempts[k] is Decoded
    &&& forall|j: int| 0 <= j < k ==> (#[trigger] attempts[j]) is Rejected
}

/// The first attempt that succeeded, if there is one.
pub open spec fn first_success(attempts: Seq<AttemptView>) -> Option<int> {
    if exists|k: int| is_first_success(attempts, k) {
        Some(choose|k: int| is_first_success(attempts, k))
    } else {
        None
    }
}

/// The result that the attempts of the candidates give, one attempt for each
/// candidate: the first success with the reasons before it, or else all the
/// reasons.
pub open spec fn verdict(candidates: Seq<Seq<char>>, attempts: Seq<AttemptView>) -> DecodeResultView {
    match first_success(attempts) {
        Some(k) => DecodeResultView::Success {
            function_name: attempts[k]->name,
            arguments: attempts[k]->arguments,
            schema: candidates[k],
            rejected: reasons(attempts.take(k)),
        },
        None => DecodeResultView::Failure { errors: reasons(attempts) },
    }
}

/// What each candidate makes of the call data.
pub open spec fn attempts_on(candidates: Seq<Seq<char>>, call_data: Seq<u8>) -> Seq<AttemptView> {
    Seq::new(candidates.len(), |i: int| candidate_outcome(candidates[i], call_data))
}

/// The result of decoding call data against the candidates.
pub open spec fn decode_spec(candidates: Seq<Seq<char>>, call_data: Seq<u8>) -> DecodeResultView {
    verdict(candidates, attempts_on(candidates, call_data))
}

/// The result of decoding call data that is given as text.
pub open spec fn decode_text_spec(candidates: Seq<Seq<char>>, call_data: Seq<char>) -> DecodeResultView {
    if is_call_data_text(call_data) {
        decode_spec(candidates, call_data_bytes(call_data))
    } else {
        DecodeResultView::Failure { errors: Seq::new(candidates.len(), |i: int| reason_not_hex()) }
    }
}

/// The first match is the only index that `is_first_match` holds of.
pub proof fn lemma_first_match(table: Seq<(Seq<char>, Seq<u8>)>, selector: Seq<u8>, k: int)
    requires
        is_first_match(table, selector, k),
    ensures
        first_match(table, selector) == Some(k),
{
    let c = choose|c: int| is_first_match(table, selector, c);
    assert(is_first_match(table, selector, c));
    if c < k {
        assert(table[c].1 != selector);
    } else if k < c {
        assert(table[k].1 != selector);
    }
}

/// The first success is the only index that `is_first_success` holds of.
pub proof fn lemma_first_success(attempts: Seq<AttemptView>, k: int)
    requires
        is_first_success(attempts, k),
    ensures
        first_success(attempts) == Some(k),
{
    let c = choose|c: int| is_first_success(attempts, c);
    assert(is_first_success(attempts, c));
    if c < k {
        assert(attempts[c] is Rejected);
    } else if k < c {
        assert(attempts[k] is Rejected);
    }
}

/// Whether two byte strings are equal.
fn same_bytes(a: &[u8], b: &[u8]) -> (r: bool)
    ensures
        r == (a@ == b@),
{
    if a.len() != b.len() {
        return false;
    }
    let mut i: usize = 0;
    while i < a.len()
        invariant
            i <= a@.len(),
            a@.len() == b@.len(),
            forall|j: int| 0 <= j < i ==> a@[j] == b@[j],
        decreases a@.len() - i,
    {
        if a[i] != b[i] {
            return false;
        }
        i = i + 1;
    }
    assert(a@ =~= b@);
    true
}

/// Finds the first function of `table` with the given selector.
pub fn find_function(table: &Vec<FunctionEntry>, selector: &[u8]) -> (r: Option<usize>)
    ensures
        match r {
            Some(k) => first_match(entries(table@), selector@) == Some(k as int) && k
                < table@.len(),
            None => first_match(entries(table@), selector@) is None,
        },
{
    let mut i: usize = 0;
    while i < table.len()
        invariant
            i <= table@.len(),
            forall|j: int| 0 <= j < i ==> (#[trigger] entries(table@)[j]).1 != selector@,
        decreases table@.len() - i,
    {
        if same_bytes(table[i].selector.as_slice(), selector) {
            proof {
                assert(entries(table@)[i as int].1 == selector@);
                lemma_first_match(entries(table@), selector@, i as int);
            }
            return Some(i);
        }
        i = i + 1;
    }
    proof {
        assert forall|k: int| !is_first_match(entries(table@), selector@, k) by {
            if 0 <= k < table@.len() {
                assert(entries(table@)[k].1 != selector@);
            }
        }
    }
    None
}

/// Decodes call data against one schema.
pub fn decode_candidate(schema: &Schema, call_data: &[u8]) -> (r: Attempt)
    ensures
        r@ == candidate_outcome(schema@, call_data@),
{
    if call_data.len() < 4 {
        return Attempt::Rejected {
            reason: String::from_str("call data is shorter than a function selector"),
        };
    }
    let table = schema.functions();
    let selector = slice_subrange(call_data, 0, 4);
    match find_function(table, selector) {
        None => Attempt::Rejected {
            reason: String::from_str("no function of the schema matches the selector"),
        },
        Some(k) => {
            if usize::BITS < 64 {
                return Attempt::Rejected {
                    reason: String::from_str(
                        "arguments are read on machines with words of 64 bits only",
                    ),
                };
            }
            let payload = slice_subrange(call_data, 4, call_data.len());
            assert(payload@ == call_data@.skip(4));
            assert(entries(table@)[k as int] == table@[k as int]@);
            match decode_arguments(schema.text(), k, payload) {
                Ok(arguments) => Attempt::Decoded { name: table[k].name.clone(), arguments },
                Err(reason) => Attempt::Rejected { reason },
            }
        },
    }
}

/// One step of the fold over the candidates: takes the reasons of the
/// candidates rejected so far and what the next candidate made of the call
/// data. A success ends the fold with that candidate; a rejection adds its
/// reason behind the others.
pub fn absorb(rejected: Vec<String>, schema: &Schema, attempt: Attempt) -> (r: Progress)
    ensures
        match attempt@ {
            AttemptView::Decoded { name, arguments } => r matches Progress::Settled(result)
                && result@ == (DecodeResultView::Success {
                function_name: name,
                arguments,
                schema: schema@,
                rejected: texts(rejected@),
            }),
            AttemptView::Rejected { reason } => r matches Progress::Open(errors) && texts(errors@)
                == texts(rejected@).push(reason),
        },
{
    match attempt {
        Attempt::Decoded { name, arguments } => Progress::Settled(
            DecodeResult::Success {
                function_name: name,
                arguments,
                schema: schema.duplicate(),
                rejected,
            },
        ),
        Attempt::Rejected { reason } => {
            let mut errors = rejected;
            errors.push(reason);
            assert(texts(errors@) =~= texts(rejected@).push(reason@));
            Progress::Open(errors)
        },
    }
}

/// Decodes call data against each candidate in order and stops at the first
/// that accepts it.
///
/// On success the result names the schema that matched and holds the reasons
/// of the candidates before it. Where every candidate rejects the call data,
/// the result holds one reason for each, in the order of the candidates.
pub fn decode(candidates: &CandidateSet, call_data: &[u8]) -> (r: DecodeResult)
    ensures
        r@ == decode_spec(candidates@, call_data@),
{
    let ghost attempts = attempts_on(candidates@, call_data@);
    let n = candidates.len();
    let mut errors: Vec<String> = Vec::new();
    let mut i: usize = 0;
    assert(texts(errors@) =~= reasons(attempts.take(0)));
    while i < n
        invariant
            i <= n,
            n == candidates@.len(),
            attempts == attempts_on(candidates@, call_data@),
            texts(errors@) == reasons(attempts.take(i as int)),
            forall|j: int| 0 <= j < i ==> (#[trigger] attempts[j]) is Rejected,
        decreases n - i,
    {
        let schema = candidates.at(i);
        let attempt = decode_candidate(schema, call_data);
        assert(attempt@ == attempts[i as int]);
        match absorb(errors, schema, attempt) {
            Progress::Settled(result) => {
                proof {
                    lemma_first_success(attempts, i as int);
                }
                return result;
            },
            Progress::Open(more) => {
                assert(reasons(attempts.take(i + 1)) =~= reasons(attempts.take(i as int)).push(
                    reason_of(attempts[i as int]),
                ));
                errors = more;
            },
        }
        i = i + 1;
    }
    proof {
        assert(attempts.take(n as int) =~= attempts);
        assert forall|k: int| !is_first_success(attempts, k) by {
            if 0 <= k < attempts.len() {
                assert(attempts[k] is Rejected);
            }
        }
    }
    DecodeResult::Failure { errors }
}

/// Decodes call data that is given as hexadecimal text, with or without a
/// leading `0x`. Text that is no call data is rejected on behalf of every
/// candidate.
pub fn decode_text(candidates: &CandidateSet, call_data: &str) -> (r: DecodeResult)
    ensures
        r@ == decode_text_spec(candidates@, call_data@),
{
    match parse_call_data(call_data) {
        Some(bytes) => decode(candidates, bytes.as_slice()),
        None => {
            let n = candidates.len();
            let mut errors: Vec<String> = Vec::new();
            let mut i: usize = 0;
            while i < n
                invariant
                    i <= n,
                    errors@.len() == i,
                    forall|j: int| 0 <= j < i ==> (#[trigger] errors@[j])@ == reason_not_hex(),
                decreases n - i,
            {
                errors.push(String::from_str("call data is not hexadecimal text"));
                i = i + 1;
            }
            assert(texts(errors@) =~= Seq::new(candidates@.len(), |i: int| reason_not_hex()));
            DecodeResult::Failure { errors }
        },
    }
}

/// Where the candidate at `k` accepts the call data and every candidate
/// before it rejects it, decoding succeeds with the schema at `k`, with the
/// name and arguments that this schema reads, and with exactly the `k`
/// reasons of the candidates before it. The candidates behind `k` play no
/// part: without them the result is the same.
pub proof fn law_first_acceptance_wins(candidates: Seq<Seq<char>>, call_data: Seq<u8>, k: int)
    requires
        0 <= k < candidates.len(),
        candidate_outcome(candidates[k], call_data) is Decoded,
        forall|j: int| 0 <= j < k ==> candidate_outcome(#[trigger] candidates[j], call_data) is Rejected,
    ensures
        decode_spec(candidates, call_data) matches DecodeResultView::Success {
            function_name,
            arguments,
            schema,
            rejected,
        } && {
            &&& schema == candidates[k]
            &&& function_name == candidate_outcome(candidates[k], call_data)->name
            &&& arguments == candidate_outcome(candidates[k], call_data)->arguments
            &&& rejected.len() == k
            &&& forall|j: int|
                0 <= j < k ==> #[trigger] rejected[j] == reason_of(
                    candidate_outcome(candidates[j], call_data),
                )
        },
        decode_spec(candidates, call_data) == decode_spec(candidates.take(k + 1), call_data),
{
    let attempts = attempts_on(candidates, call_data);
    assert forall|j: int| 0 <= j < k implies (#[trigger] attempts[j]) is Rejected by {
        assert(candidate_outcome(candidates[j], call_data) is Rejected);
    }
    lemma_first_success(attempts, k);
    let fewer = candidates.take(k + 1);
    let fewer_attempts = attempts_on(fewer, call_data);
    assert(fewer_attempts =~= attempts.take(k + 1));
    assert forall|j: int| 0 <= j < k implies (#[trigger] fewer_attempts[j]) is Rejected by {
        assert(fewer_attempts[j] == attempts[j]);
    }
    lemma_first_success(fewer_attempts, k);
    assert(fewer_attempts.take(k) =~= attempts.take(k));
}

/// Where every candidate rejects the call data, decoding fails with exactly
/// one reason for each candidate, in the order of the candidates.
pub proof fn law_failure_holds_every_reason(candidates: Seq<Seq<char>>, call_data: Seq<u8>)
    requires
        forall|j: int|
            0 <= j < candidates.len() ==> candidate_outcome(#[trigger] candidates[j], call_data)
                is Rejected,
    ensures
        decode_spec(candidates, call_data) matches DecodeResultView::Failure { errors } && {
            &&& errors.len() == candidates.len()
            &&& forall|j: int|
                0 <= j < candidates.len() ==> #[trigger] errors[j] == reason_of(
                    candidate_outcome(candidates[j], call_data),
                )
        },
{
    let attempts = attempts_on(candidates, call_data);
    assert forall|k: int| !is_first_success(attempts, k) by {
        if 0 <= k < attempts.len() {
            assert(candidate_outcome(candidates[k], call_data) is Rejected);
        }
    }
}

/// A schema that a registry's payload gave reads back from its canonical
/// text as the same schema, so that call data which the one accepts the
/// other accepts too, with the same name and arguments.
pub proof fn law_canonical_text_round_trip(payload: Seq<char>, call_data: Seq<u8>)
    requires
        payload_schema(payload) is Ok,
    ensures
        ({
            let text = payload_schema(payload)->Ok_0;
            &&& text_schema(text) == Ok::<Seq<char>, SchemaError>(text)
            &&& candidate_outcome(text_schema(text)->Ok_0, call_data) == candidate_outcome(
                text,
                call_data,
            )
        }),
{
}

} // verus!
