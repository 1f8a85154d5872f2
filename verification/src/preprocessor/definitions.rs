use vstd::prelude::*;
use crate::text::tables::{definitions_to_map, lemma_definitions_domain, lemma_definitions_last};
use crate::text::chars::texts_view;

verus! {

/// The table of definitions: every name, as it was entered, with its value. A
/// name that is entered again takes the new value.
pub struct DefinitionTable {
    names: Vec<String>,
    values: Vec<String>,
}

impl View for DefinitionTable {
    type V = Map<Seq<char>, Seq<char>>;

    closed spec fn view(&self) -> Map<Seq<char>, Seq<char>> {
        definitions_to_map(texts_view(self.names@), texts_view(self.values@))
    }
}

impl DefinitionTable {
    #[verifier::type_invariant]
    spec fn well_formed(&self) -> bool {
        self.names.len() == self.values.len()
    }

    /// A table without definitions.
    pub fn new() -> (table: DefinitionTable)
        ensures
            table@ == Map::<Seq<char>, Seq<char>>::empty(),
    {
        DefinitionTable { names: Vec::new(), values: Vec::new() }
    }

    fn find(&self, name: &String) -> (found: Option<usize>)
        ensures
            match found {
                Some(i) => i < self.names.len() && texts_view(self.names@)[i as int] == name@
                    && forall|j: int|
                    i < j < self.names.len() ==> texts_view(self.names@)[j] != name@,
                None => forall|j: int|
                    0 <= j < self.names.len() ==> texts_view(self.names@)[j] != name@,
            },
    {
        let mut i: usize = self.names.len();
        while i > 0
            invariant
                i <= self.names.len(),
                forall|j: int| i <= j < self.names.len() ==> texts_view(self.names@)[j] != name@,
            decreases i,
        {
            assert(texts_view(self.names@)[i - 1] == self.names[i - 1]@);
            if self.names[i - 1] == *name {
                return Some(i - 1);
            }
            i = i - 1;
        }
        None
    }

    /// The value of a name, if it has one.
    pub fn get(&self, name: &String) -> (value: Option<&String>)
        ensures
            match value {
                Some(text) => self@.dom().contains(name@) && text@ == self@[name@],
                None => !self@.dom().contains(name@),
            },
    {
        proof {
            use_type_invariant(self);
            lemma_definitions_domain(texts_view(self.names@), texts_view(self.values@), name@);
        }
        match self.find(name) {
            Some(i) => {
                proof {
                    lemma_definitions_last(
                        texts_view(self.names@),
                        texts_view(self.values@),
                        i as int,
                    );
                }
                Some(&self.values[i])
            },
            None => None,
        }
    }

    /// Enters a name with its value; an earlier value of the name is forgotten.
    pub fn insert(&mut self, name: String, value: String)
        ensures
            final(self)@ == old(self)@.insert(name@, value@),
    {
        proof {
            use_type_invariant(&*self);
        }
        let ghost before_names = texts_view(self.names@);
        let ghost before_values = texts_view(self.values@);
        let ghost key = name@;
        let ghost text = value@;
        let mut taken = DefinitionTable::new();
        std::mem::swap(self, &mut taken);
        let DefinitionTable { mut names, mut values } = taken;
        names.push(name);
        values.push(value);
        proof {
            assert(texts_view(names@).drop_last() =~= before_names);
            assert(texts_view(values@).drop_last() =~= before_values);
            assert(texts_view(names@).last() == key);
            assert(texts_view(values@).last() == text);
        }
        *self = DefinitionTable { names, values };
    }
}

} // verus!
