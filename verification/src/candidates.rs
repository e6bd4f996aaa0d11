//! The ordered set of candidate schemas of one address.

use crate::schema::{is_schema_text, Schema};
use vstd::prelude::*;

verus! {

/// No text occurs twice.
pub open spec fn distinct(texts: Seq<Seq<char>>) -> bool {
    forall|i: int, j: int| 0 <= i < j < texts.len() ==> texts[i] != texts[j]
}

/// Every text describes an interface.
pub open spec fn all_interfaces(texts: Seq<Seq<char>>) -> bool {
    forall|i: int| 0 <= i < texts.len() ==> is_schema_text(#[trigger] texts[i])
}

/// `texts` with `text` added behind, unless it is there already.
pub open spec fn with_candidate(texts: Seq<Seq<char>>, text: Seq<char>) -> Seq<Seq<char>> {
    if texts.contains(text) {
        texts
    } else {
        texts.push(text)
    }
}

/// The texts of a sequence of schemas.
pub open spec fn schema_texts(items: Seq<Schema>) -> Seq<Seq<char>> {
    items.map_values(|s: Schema| s@)
}

/// Candidate schemas in the order of their discovery. No schema occurs
/// twice: two schemas are the same when their canonical texts are.
#[derive(Debug)]
pub struct CandidateSet {
    items: Vec<Schema>,
}

impl View for CandidateSet {
    type V = Seq<Seq<char>>;

    /// A candidate set is modelled by the texts of its schemas, in order.
    closed spec fn view(&self) -> Seq<Seq<char>> {
        schema_texts(self.items@)
    }
}

impl CandidateSet {
    /// No schema occurs twice, and each describes an interface.
    #[verifier::type_invariant]
    pub open spec fn wf(&self) -> bool {
        distinct(self@) && all_interfaces(self@)
    }

    /// The set without candidates.
    pub fn new() -> (r: CandidateSet)
        ensures
            r@ == Seq::<Seq<char>>::empty(),
            r.wf(),
    {
        let r = CandidateSet { items: Vec::new() };
        assert(r@ =~= Seq::<Seq<char>>::empty());
        r
    }

    /// The set that holds one schema.
    pub fn single(schema: Schema) -> (r: CandidateSet)
        ensures
            r@ == seq![schema@],
            r.wf(),
    {
        let mut set = CandidateSet::new();
        set.insert(schema);
        set
    }

    /// The number of candidates.
    pub fn len(&self) -> (r: usize)
        ensures
            r == self@.len(),
    {
        self.items.len()
    }

    /// Whether there is no candidate.
    pub fn is_empty(&self) -> (r: bool)
        ensures
            r == (self@.len() == 0),
    {
        self.items.len() == 0
    }

    /// The candidate at `index`, which the set has.
    pub(crate) fn at(&self, index: usize) -> (r: &Schema)
        requires
            index < self@.len(),
        ensures
            r@ == self@[index as int],
            r.wf(),
    {
        let schema = &self.items[index];
        proof {
            use_type_invariant(self);
            use_type_invariant(schema);
            assert(schema_texts(self.items@)[index as int] == schema@);
        }
        schema
    }

    /// The candidate at `index`, counted from the highest priority.
    pub fn get(&self, index: usize) -> (r: Option<&Schema>)
        ensures
            r is Some <==> index < self@.len(),
            r is Some ==> r.unwrap()@ == self@[index as int] && r.unwrap().wf(),
    {
        if index < self.items.len() {
            Some(self.at(index))
        } else {
            None
        }
    }

    /// The candidate of highest priority, which is the one that is persisted.
    pub fn first(&self) -> (r: Option<&Schema>)
        ensures
            r is Some <==> self@.len() > 0,
            r is Some ==> r.unwrap()@ == self@[0] && r.unwrap().wf(),
    {
        self.get(0)
    }

    /// Whether a schema with the same text is among the candidates.
    pub fn contains(&self, schema: &Schema) -> (r: bool)
        ensures
            r == self@.contains(schema@),
    {
        let mut i: usize = 0;
        while i < self.items.len()
            invariant
                i <= self.items@.len(),
                forall|j: int| 0 <= j < i ==> schema_texts(self.items@)[j] != schema@,
            decreases self.items@.len() - i,
        {
            if self.items[i].same_as(schema) {
                assert(schema_texts(self.items@)[i as int] == schema@);
                return true;
            }
            i = i + 1;
        }
        false
    }

    /// Adds a schema behind the others, unless one with the same text is
    /// there already. Says whether the schema was added.
    pub fn insert(&mut self, schema: Schema) -> (added: bool)
        ensures
            final(self)@ == with_candidate(old(self)@, schema@),
            added == !old(self)@.contains(schema@),
            final(self).wf(),
    {
        proof {
            use_type_invariant(&*self);
            use_type_invariant(&schema);
        }
        if self.contains(&schema) {
            false
        } else {
            let ghost before = schema_texts(self.items@);
            let mut taken = CandidateSet::new();
            std::mem::swap(self, &mut taken);
            let mut items = taken.items;
            items.push(schema);
            proof {
                let after = schema_texts(items@);
                assert(after =~= before.push(schema@));
                assert forall|i: int, j: int| 0 <= i < j < after.len() implies after[i]
                    != after[j] by {
                    if j == before.len() {
                        assert(before[i] != schema@);
                    } else {
                        assert(before[i] != before[j]);
                    }
                }
            }
            *self = CandidateSet { items };
            true
        }
    }

}

} // verus!
