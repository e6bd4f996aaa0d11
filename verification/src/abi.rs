//! What `ethabi` makes of an interface description: the functions it
//! declares, with their selectors, and the arguments it reads from call data.

use crate::guard::safe_description;
use crate::views::texts;
use vstd::prelude::*;

verus! {

/// One function of an interface: its name and the four bytes that select it.
#[derive(Clone, Debug, PartialEq, Eq)]
pub struct FunctionEntry {
    pub name: String,
    pub selector: Vec<u8>,
}

impl View for FunctionEntry {
    type V = (Seq<char>, Seq<u8>);

    open spec fn view(&self) -> (Seq<char>, Seq<u8>) {
        (self.name@, self.selector@)
    }
}

/// The views of a sequence of entries.
pub open spec fn entries(v: Seq<FunctionEntry>) -> Seq<(Seq<char>, Seq<u8>)> {
    v.map_values(|e: FunctionEntry| e@)
}

/// The view of the outcome of reading arguments.
pub open spec fn decoding_view(r: Result<Vec<String>, String>) -> Result<Seq<Seq<char>>, Seq<char>> {
    match r {
        Ok(arguments) => Ok(texts(arguments@)),
        Err(reason) => Err(reason@),
    }
}

/// The functions that `ethabi` finds in an interface description, each with
/// its name and selector, in the order in which `ethabi` lists them; `None`
/// where it does not accept the description.
pub uninterp spec fn abi_functions(description: Seq<char>) -> Option<Seq<(Seq<char>, Seq<u8>)>>;

/// What `ethabi` reads from `payload` as the arguments of the function at
/// `index` of the description: the arguments, each rendered as text, or the
/// text of its error.
pub uninterp spec fn abi_arguments(description: Seq<char>, index: int, payload: Seq<u8>) -> Result<
    Seq<Seq<char>>,
    Seq<char>,
>;

/// Loads the description with `ethabi::Contract::load` and walks
/// `Contract::functions`, taking of each function its name and its
/// `Function::short_signature`.
///
/// The outcome depends on the text alone, and a short signature has four
/// bytes. `requires` leaves out the descriptions on which the loader's
/// reader of parameter types slices a type text out of range: a text outside
/// ASCII, a text that begins with `(`, and a `]` that no `[` stands before.
/// It also leaves out a type with more than thirty-two array brackets, each
/// of which the reader takes off by a call to itself.
#[verifier::external_body]
pub(crate) fn load_functions(description: &str) -> (r: Option<Vec<FunctionEntry>>)
    requires
        safe_description(description@),
    ensures
        r is Some <==> abi_functions(description@) is Some,
        r is Some ==> entries(r.unwrap()@) == abi_functions(description@).unwrap(),
        r is Some ==> forall|i: int|
            0 <= i < r.unwrap()@.len() ==> (#[trigger] r.unwrap()@[i]).selector@.len() == 4,
{
    match ethabi::Contract::load(description.as_bytes()) {
        Ok(contract) => Some(
            contract.functions().map(
                |f| FunctionEntry { name: f.name.clone(), selector: f.short_signature().to_vec() },
            ).collect(),
        ),
        Err(_) => None,
    }
}

/// Loads the description with `ethabi::Contract::load`, takes the function at
/// `index` of `Contract::functions` and calls its `Function::decode_input` on
/// `payload`. Each token that comes back is formatted with `{:?}`; an error
/// is handed back as the text of its `Display`, and so is the error of a
/// description that does not load. Where the description has no function at
/// `index`, the error is empty.
///
/// The outcome depends on the three arguments alone. `requires` leaves out
/// what it leaves out for loading, and with it:
/// - descriptions whose fixed arrays or `bytesN` have a length of more than
///   four digits: such a length is added to a position in the payload
///   without a check;
/// - descriptions with a fixed array of length zero or a tuple without
///   components: an array of these is read as often as the payload says,
///   whatever the payload holds;
/// - machines whose words have fewer than 64 bits: a position read from the
///   payload may have 32 bits, and 32 is added to it without a check.
#[verifier::external_body]
pub(crate) fn decode_arguments(description: &str, index: usize, payload: &[u8]) -> (r: Result<
    Vec<String>,
    String,
>)
    requires
        safe_description(description@),
        usize::BITS >= 64,
    ensures
        decoding_view(r) == abi_arguments(description@, index as int, payload@),
{
    let contract = ethabi::Contract::load(description.as_bytes()).map_err(|e| e.to_string())?;
    let function = contract.functions().nth(index).ok_or_else(String::new)?;
    match function.decode_input(payload) {
        Ok(tokens) => Ok(tokens.iter().map(|token| format!("{:?}", token)).collect()),
        Err(e) => Err(e.to_string()),
    }
}

} // verus!
