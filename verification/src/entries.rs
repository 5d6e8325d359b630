//! Maps built from lists of entries, for contracts that are set up from
//! state that was kept elsewhere.

use crate::address::{Address, AddressId};
use std::collections::HashMap;
use vstd::hash_map::StringHashMap;
use vstd::prelude::*;

verus! {

broadcast use vstd::std_specs::hash::group_hash_axioms;

/// The map from addresses that a list of entries stands for. Where an
/// address occurs more than once, its first entry counts.
pub open spec fn address_map<V>(entries: Seq<(Address, V)>) -> Map<AddressId, V>
    decreases entries.len(),
{
    if entries.len() == 0 {
        Map::empty()
    } else {
        address_map(entries.drop_first()).insert(entries[0].0@, entries[0].1)
    }
}

/// The map from ids that a list of entries stands for. Where an id occurs
/// more than once, its first entry counts.
pub open spec fn id_map<V>(entries: Seq<(u64, V)>) -> Map<u64, V>
    decreases entries.len(),
{
    if entries.len() == 0 {
        Map::empty()
    } else {
        id_map(entries.drop_first()).insert(entries[0].0, entries[0].1)
    }
}

/// Builds the map that `entries` stands for.
pub(crate) fn into_address_map<V>(entries: Vec<(Address, V)>) -> (r: StringHashMap<V>)
    ensures
        r@ == address_map(entries@),
{
    let ghost all = entries@;
    let mut rest = entries;
    let mut map: StringHashMap<V> = StringHashMap::new();
    assert(all.subrange(all.len() as int, all.len() as int) =~= Seq::empty());
    assert(all.subrange(0, all.len() as int) =~= all);
    while rest.len() > 0
        invariant
            rest@.len() <= all.len(),
            rest@ == all.subrange(0, rest@.len() as int),
            map@ == address_map(all.subrange(rest@.len() as int, all.len() as int)),
        decreases rest@.len(),
    {
        let ghost n = rest@.len() as int;
        match rest.pop() {
            Some(entry) => {
                let (address, value) = entry;
                map.insert(address.as_str().to_owned(), value);
                proof {
                    let tail = all.subrange(n - 1, all.len() as int);
                    assert(tail.drop_first() =~= all.subrange(n, all.len() as int));
                    assert(tail[0] == all[n - 1]);
                    assert(rest@ =~= all.subrange(0, n - 1));
                }
            },
            None => {},
        }
    }
    assert(all.subrange(0, all.len() as int) =~= all);
    map
}

/// Builds the map that `entries` stands for.
pub(crate) fn into_id_map<V>(entries: Vec<(u64, V)>) -> (r: HashMap<u64, V>)
    ensures
        r@ == id_map(entries@),
{
    let ghost all = entries@;
    let mut rest = entries;
    let mut map: HashMap<u64, V> = HashMap::new();
    assert(all.subrange(all.len() as int, all.len() as int) =~= Seq::empty());
    assert(all.subrange(0, all.len() as int) =~= all);
    while rest.len() > 0
        invariant
            rest@.len() <= all.len(),
            rest@ == all.subrange(0, rest@.len() as int),
            map@ == id_map(all.subrange(rest@.len() as int, all.len() as int)),
        decreases rest@.len(),
    {
        let ghost n = rest@.len() as int;
        match rest.pop() {
            Some(entry) => {
                let (id, value) = entry;
                map.insert(id, value);
                proof {
                    let tail = all.subrange(n - 1, all.len() as int);
                    assert(tail.drop_first() =~= all.subrange(n, all.len() as int));
                    assert(tail[0] == all[n - 1]);
                    assert(rest@ =~= all.subrange(0, n - 1));
                }
            },
            None => {},
        }
    }
    assert(all.subrange(0, all.len() as int) =~= all);
    map
}

} // verus!
