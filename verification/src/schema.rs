//! Interface schemas. A schema is held as the text of its description, which
//! is also the form in which the cache keeps it, together with the functions
//! that the description declares.

use crate::abi::{abi_functions, entries, load_functions, FunctionEntry};
use crate::guard::{is_safe_description, safe_description};
use crate::json::{compact, json_compact};
use vstd::prelude::*;
use vstd::string::*;

verus! {

/// Why text was not accepted as a schema.
#[derive(Clone, Copy, Debug, PartialEq, Eq, Structural)]
pub enum SchemaError {
    /// The text is not a JSON document.
    NotJson,
    /// The document does not describe an interface.
    NotAnInterface,
}

/// The description of a contract's callable interface.
///
/// Every schema holds a description that loads as an interface, and the
/// functions that it declares: `wf` is its invariant.
#[derive(Debug)]
pub struct Schema {
    text: String,
    functions: Vec<FunctionEntry>,
}

/// Text is the canonical text of a schema: it is handed to the loader, and
/// the loader accepts it as the description of an interface.
pub open spec fn is_schema_text(text: Seq<char>) -> bool {
    safe_description(text) && abi_functions(text) is Some
}

/// The schema that a registry's payload gives: the payload in compact form,
/// where that form describes an interface.
pub open spec fn payload_schema(payload: Seq<char>) -> Result<Seq<char>, SchemaError> {
    match json_compact(payload) {
        None => Err(SchemaError::NotJson),
        Some(text) => if is_schema_text(text) {
            Ok(text)
        } else {
            Err(SchemaError::NotAnInterface)
        },
    }
}

/// The schema that canonical text gives: the text itself, where it describes
/// an interface.
pub open spec fn text_schema(text: Seq<char>) -> Result<Seq<char>, SchemaError> {
    if is_schema_text(text) {
        Ok(text)
    } else {
        Err(SchemaError::NotAnInterface)
    }
}

impl View for Schema {
    type V = Seq<char>;

    /// A schema is modelled by its canonical text.
    closed spec fn view(&self) -> Seq<char> {
        self.text@
    }
}

/// A copy of a list of functions.
fn copy_entries(table: &Vec<FunctionEntry>) -> (r: Vec<FunctionEntry>)
    ensures
        entries(r@) == entries(table@),
{
    let mut out: Vec<FunctionEntry> = Vec::new();
    let mut i: usize = 0;
    while i < table.len()
        invariant
            i <= table@.len(),
            out@.len() == i,
            forall|j: int| 0 <= j < i ==> (#[trigger] out@[j])@ == table@[j]@,
        decreases table@.len() - i,
    {
        let entry = &table[i];
        let mut selector: Vec<u8> = Vec::new();
        let mut k: usize = 0;
        while k < entry.selector.len()
            invariant
                k <= entry.selector@.len(),
                selector@ == entry.selector@.take(k as int),
            decreases entry.selector@.len() - k,
        {
            selector.push(entry.selector[k]);
            assert(selector@ =~= entry.selector@.take(k + 1));
            k = k + 1;
        }
        assert(selector@ =~= entry.selector@);
        out.push(FunctionEntry { name: entry.name.clone(), selector });
        i = i + 1;
    }
    assert(entries(out@) =~= entries(table@));
    out
}

impl Schema {
    /// The functions that the schema holds.
    pub closed spec fn table(&self) -> Seq<(Seq<char>, Seq<u8>)> {
        entries(self.functions@)
    }

    /// The description loads as an interface, and the schema holds the
    /// functions that it declares, each with a selector of four bytes.
    #[verifier::type_invariant]
    pub open spec fn wf(&self) -> bool {
        &&& safe_description(self@)
        &&& abi_functions(self@) == Some(self.table())
        &&& forall|i: int| 0 <= i < self.table().len() ==> (#[trigger] self.table()[i]).1.len() == 4
    }

    /// Reads a schema from its canonical text, as the cache holds it. The
    /// text is kept as it is.
    pub fn from_text(text: &str) -> (r: Result<Schema, SchemaError>)
        ensures
            match text_schema(text@) {
                Ok(kept) => r is Ok && r.unwrap()@ == kept && r.unwrap().wf(),
                Err(e) => r == Err::<Schema, SchemaError>(e),
            },
    {
        if !is_safe_description(text) {
            return Err(SchemaError::NotAnInterface);
        }
        match load_functions(text) {
            Some(functions) => {
                assert forall|i: int| 0 <= i < entries(functions@).len() implies (
                #[trigger] entries(functions@)[i]).1.len() == 4 by {
                    assert(functions@[i].selector@.len() == 4);
                }
                Ok(Schema { text: String::from_str(text), functions })
            },
            None => Err(SchemaError::NotAnInterface),
        }
    }

    /// Makes a schema of the payload that a registry returned: the payload is
    /// brought into compact form, which becomes the schema's canonical text.
    pub fn from_payload(payload: &str) -> (r: Result<Schema, SchemaError>)
        ensures
            match payload_schema(payload@) {
                Ok(text) => r is Ok && r.unwrap()@ == text && r.unwrap().wf(),
                Err(e) => r == Err::<Schema, SchemaError>(e),
            },
    {
        match compact(payload) {
            None => Err(SchemaError::NotJson),
            Some(text) => Schema::from_text(text.as_str()),
        }
    }

    /// The canonical text of the schema.
    pub fn text(&self) -> (r: &str)
        ensures
            r@ == self@,
    {
        self.text.as_str()
    }

    /// The canonical text of the schema, as a string of its own.
    pub fn to_text(&self) -> (r: String)
        ensures
            r@ == self@,
    {
        self.text.clone()
    }

    /// A second schema with the same text.
    pub fn duplicate(&self) -> (r: Schema)
        ensures
            r@ == self@,
            r.wf(),
    {
        proof {
            use_type_invariant(self);
        }
        Schema { text: self.text.clone(), functions: copy_entries(&self.functions) }
    }

    /// Whether two schemas have the same canonical text.
    pub fn same_as(&self, other: &Schema) -> (r: bool)
        ensures
            r == (self@ == other@),
    {
        self.text == other.text
    }

    /// The functions that the schema declares, in the order in which the
    /// description is searched for a selector.
    pub fn functions(&self) -> (r: &Vec<FunctionEntry>)
        ensures
            self.wf(),
            entries(r@) == self.table(),
            forall|i: int| 0 <= i < r@.len() ==> (#[trigger] r@[i]).selector@.len() == 4,
    {
        proof {
            use_type_invariant(self);
            assert forall|i: int| 0 <= i < self.functions@.len() implies (
            #[trigger] self.functions@[i]).selector@.len() == 4 by {
                assert(self.table()[i].1.len() == 4);
            }
        }
        &self.functions
    }
}

} // verus!
