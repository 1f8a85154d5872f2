use vstd::prelude::*;

verus! {

/// The map that a list of definitions stands for; of two definitions of one
/// name the later wins.
pub open spec fn definitions_to_map<V>(names: Seq<Seq<char>>, addresses: Seq<V>) -> Map<
    Seq<char>,
    V,
>
    recommends
        names.len() == addresses.len(),
    decreases names.len(),
{
    if names.len() == 0 {
        Map::empty()
    } else {
        definitions_to_map(names.drop_last(), addresses.drop_last()).insert(
            names.last(),
            addresses.last(),
        )
    }
}

/// A name is in the map exactly if it is in the list.
pub proof fn lemma_definitions_domain<V>(
    names: Seq<Seq<char>>,
    addresses: Seq<V>,
    key: Seq<char>,
)
    requires
        names.len() == addresses.len(),
    ensures
        definitions_to_map(names, addresses).dom().contains(key) <==> exists|i: int|
            0 <= i < names.len() && names[i] == key,
    decreases names.len(),
{
    if names.len() > 0 {
        lemma_definitions_domain(names.drop_last(), addresses.drop_last(), key);
        if definitions_to_map(names, addresses).dom().contains(key) {
            if names.last() == key {
                assert(names[names.len() - 1] == key);
            } else {
                let i = choose|i: int| 0 <= i < names.drop_last().len() && names.drop_last()[i] == key;
                assert(names[i] == key);
            }
        }
        if exists|i: int| 0 <= i < names.len() && names[i] == key {
            let i = choose|i: int| 0 <= i < names.len() && names[i] == key;
            if i < names.len() - 1 {
                assert(names.drop_last()[i] == key);
            }
        }
    }
}

/// Where no name is defined twice, the value of a name is that of its
/// definition.
pub proof fn lemma_definitions_lookup<V>(names: Seq<Seq<char>>, addresses: Seq<V>, i: int)
    requires
        names.len() == addresses.len(),
        0 <= i < names.len(),
        forall|a: int, b: int| 0 <= a < b < names.len() ==> names[a] != names[b],
    ensures
        definitions_to_map(names, addresses).dom().contains(names[i]),
        definitions_to_map(names, addresses)[names[i]] == addresses[i],
    decreases names.len(),
{
    if i < names.len() - 1 {
        assert(names.drop_last()[i] == names[i]);
        assert(names[i] != names.last());
        lemma_definitions_lookup(names.drop_last(), addresses.drop_last(), i);
    }
}

/// The value of a name is that of its last definition.
pub proof fn lemma_definitions_last<V>(names: Seq<Seq<char>>, addresses: Seq<V>, i: int)
    requires
        names.len() == addresses.len(),
        0 <= i < names.len(),
        forall|j: int| i < j < names.len() ==> names[j] != names[i],
    ensures
        definitions_to_map(names, addresses).dom().contains(names[i]),
        definitions_to_map(names, addresses)[names[i]] == addresses[i],
    decreases names.len(),
{
    if i < names.len() - 1 {
        assert(names.drop_last()[i] == names[i]);
        assert(names[names.len() - 1] != names[i]);
        assert forall|j: int| i < j < names.drop_last().len() implies names.drop_last()[j]
            != names.drop_last()[i] by {
            assert(names.drop_last()[j] == names[j]);
        }
        lemma_definitions_last(names.drop_last(), addresses.drop_last(), i);
    }
}

} // verus!
