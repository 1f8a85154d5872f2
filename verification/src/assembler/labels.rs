use vstd::prelude::*;
use crate::assembler::errors::{AssemblerErrorKind, AssemblerErrorKindView};
use crate::text::chars::texts_view;
use crate::text::tables::{
    definitions_to_map, lemma_definitions_domain, lemma_definitions_lookup,
};

verus! {

/// The label table: every label defined so far, by its upper-cased name, with
/// the word address it stands for. A name is never defined twice.
pub struct LabelTable {
    names: Vec<String>,
    addresses: Vec<u64>,
}

impl LabelTable {
    /// The names of the table, each as a sequence of characters.
    pub closed spec fn spec_names(&self) -> Seq<Seq<char>> {
        texts_view(self.names@)
    }

    #[verifier::type_invariant]
    spec fn well_formed(&self) -> bool {
        &&& self.names.len() == self.addresses.len()
        &&& forall|a: int, b: int|
            0 <= a < b < self.names.len() ==> self.spec_names()[a] != self.spec_names()[b]
    }

    /// A table without labels.
    pub fn new() -> (table: LabelTable)
        ensures
            table@ == Map::<Seq<char>, u64>::empty(),
    {
        LabelTable { names: Vec::new(), addresses: Vec::new() }
    }

    fn find(&self, name: &String) -> (found: Option<usize>)
        ensures
            self.spec_names().len() == self.names.len(),
            match found {
                Some(i) => i < self.names.len() && self.spec_names()[i as int] == name@,
                None => forall|i: int|
                    0 <= i < self.spec_names().len() ==> self.spec_names()[i] != name@,
            },
    {
        let mut i: usize = 0;
        while i < self.names.len()
            invariant
                i <= self.names.len(),
                self.spec_names().len() == self.names.len(),
                forall|j: int| 0 <= j < i ==> self.spec_names()[j] != name@,
            decreases self.names.len() - i,
        {
            assert(self.spec_names()[i as int] == self.names[i as int]@);
            if self.names[i] == *name {
                return Some(i);
            }
            i += 1;
        }
        None
    }

    /// Whether the name is defined.
    pub fn contains_key(&self, name: &String) -> (present: bool)
        ensures
            present == self@.dom().contains(name@),
    {
        proof {
            use_type_invariant(self);
            lemma_definitions_domain(self.spec_names(), self.addresses@, name@);
        }
        self.find(name).is_some()
    }

    /// The address of a name, if it is defined.
    pub fn get(&self, name: &String) -> (address: Option<u64>)
        ensures
            address == (if self@.dom().contains(name@) {
                Some(self@[name@])
            } else {
                None
            }),
    {
        proof {
            use_type_invariant(self);
            lemma_definitions_domain(self.spec_names(), self.addresses@, name@);
        }
        match self.find(name) {
            Some(i) => {
                proof {
                    lemma_definitions_lookup(self.spec_names(), self.addresses@, i as int);
                }
                Some(self.addresses[i])
            },
            None => None,
        }
    }

    /// Defines a label. A name that is already in the table is refused and the
    /// table stays as it was.
    pub fn define(&mut self, name: String, address: u64) -> (outcome: Result<
        (),
        AssemblerErrorKind,
    >)
        ensures
            old(self)@.dom().contains(name@) ==> final(self)@ == old(self)@ && outcome is Err
                && outcome->Err_0@ == AssemblerErrorKindView::LabelDoubleDefinition(name@),
            !old(self)@.dom().contains(name@) ==> final(self)@ == old(self)@.insert(name@, address)
                && outcome is Ok,
    {
        proof {
            use_type_invariant(&*self);
            lemma_definitions_domain(self.spec_names(), self.addresses@, name@);
        }
        let ghost before = self@;
        match self.find(&name) {
            Some(_) => Err(AssemblerErrorKind::LabelDoubleDefinition(name)),
            None => {
                let ghost before_names = self.spec_names();
                let ghost before_addresses = self.addresses@;
                let ghost key = name@;
                let mut taken = LabelTable::new();
                std::mem::swap(self, &mut taken);
                let LabelTable { mut names, mut addresses } = taken;
                names.push(name);
                addresses.push(address);
                proof {
                    let after_names = texts_view(names@);
                    assert(after_names.drop_last() =~= before_names);
                    assert(addresses@.drop_last() =~= before_addresses);
                    assert(after_names.last() == key);
                    assert(definitions_to_map(after_names, addresses@) == before.insert(
                        key,
                        address,
                    ));
                    assert forall|a: int, b: int| 0 <= a < b < names.len() implies after_names[a]
                        != after_names[b] by {
                        assert(before_names[a] == after_names[a]);
                        if b < names.len() - 1 {
                            assert(before_names[b] == after_names[b]);
                        }
                    }
                }
                *self = LabelTable { names, addresses };
                Ok(())
            },
        }
    }
}

impl View for LabelTable {
    type V = Map<Seq<char>, u64>;

    closed spec fn view(&self) -> Map<Seq<char>, u64> {
        definitions_to_map(self.spec_names(), self.addresses@)
    }
}

} // verus!
