use vstd::prelude::*;
use ordermap::OrderMap;
use crate::attribute::Attribute;

verus! {

#[verifier::external_type_specification]
#[verifier::external_body]
#[verifier::reject_recursive_types(K)]
#[verifier::reject_recursive_types(V)]
#[verifier::reject_recursive_types(S)]
pub struct ExOrderMap<K, V, S>(OrderMap<K, V, S>);

/// The entries of a map, each a key with its attribute, in the map's order.
pub uninterp spec fn entries(map: OrderMap<u64, Attribute>) -> Seq<(u64, Attribute)>;

/// Whether some entry has the key.
pub open spec fn holds_key(s: Seq<(u64, Attribute)>, key: u64) -> bool {
    exists|i: int| 0 <= i < s.len() && (#[trigger] s[i]).0 == key
}

/// The place of an entry with the key, where there is one.
pub open spec fn index_of(s: Seq<(u64, Attribute)>, key: u64) -> int {
    choose|i: int| 0 <= i < s.len() && (#[trigger] s[i]).0 == key
}

/// The entries after `attribute` was put under `key`: in the place of the
/// entry that had the key, or behind all others where none had it.
pub open spec fn put(s: Seq<(u64, Attribute)>, key: u64, attribute: Attribute) -> Seq<
    (u64, Attribute),
> {
    if holds_key(s, key) {
        s.update(index_of(s, key), (key, attribute))
    } else {
        s.push((key, attribute))
    }
}

/// The attribute found under the key, where an entry has it.
pub open spec fn found(s: Seq<(u64, Attribute)>, key: u64) -> Option<Attribute> {
    if holds_key(s, key) {
        Some(s[index_of(s, key)].1)
    } else {
        None
    }
}

/// At most one entry has the key.
pub open spec fn single(s: Seq<(u64, Attribute)>, key: u64) -> bool {
    forall|j: int| 0 <= j < s.len() && (#[trigger] s[j]).0 == key ==> j == index_of(s, key)
}

/// Replacing the attribute under a key that one entry has leaves the key
/// in that one entry, and the new attribute is the one found under it.
pub proof fn replaced_is_found(s: Seq<(u64, Attribute)>, key: u64, attribute: Attribute)
    requires
        holds_key(s, key),
        single(s, key),
    ensures
        holds_key(s.update(index_of(s, key), (key, attribute)), key),
        single(s.update(index_of(s, key), (key, attribute)), key),
        index_of(s.update(index_of(s, key), (key, attribute)), key) == index_of(s, key),
        found(s.update(index_of(s, key), (key, attribute)), key) == Some(attribute),
{
    let i = index_of(s, key);
    let t = s.update(i, (key, attribute));
    assert(t[i].0 == key);
    let k = index_of(t, key);
    assert(t[k].0 == key);
    if k != i {
        assert(t[k] == s[k]);
    }
    assert forall|j: int| 0 <= j < t.len() && (#[trigger] t[j]).0 == key implies j == k by {
        if j != i {
            assert(t[j] == s[j]);
        }
    }
}

/// No key stands in two entries.
pub open spec fn distinct_keys(s: Seq<(u64, Attribute)>) -> bool {
    forall|i: int, j: int|
        0 <= i < s.len() && 0 <= j < s.len() && (#[trigger] s[i]).0 == (#[trigger] s[j]).0 ==> i == j
}

/// `OrderMap::new`: a map without entries.
#[verifier::external_body]
pub(crate) fn empty_map() -> (map: OrderMap<u64, Attribute>)
    ensures
        entries(map) == Seq::<(u64, Attribute)>::empty(),
{
    OrderMap::new()
}

/// `OrderMap::len`: the number of entries.
#[verifier::external_body]
pub(crate) fn map_len(map: &OrderMap<u64, Attribute>) -> (n: usize)
    ensures
        n == entries(*map).len(),
{
    map.len()
}

/// `OrderMap::insert`: where an entry has the key, its value is replaced
/// in its place and the value it had is returned; where none has it, the
/// new entry comes last and nothing is returned. Either way one entry, and
/// no other, has the key afterwards.
#[verifier::external_body]
pub(crate) fn map_insert(map: &mut OrderMap<u64, Attribute>, key: u64, attribute: Attribute) -> (r:
    Option<Attribute>)
    ensures
        forall|i: int|
            0 <= i < entries(*old(map)).len() && (#[trigger] entries(*old(map))[i]).0 == key ==> r
                == Some(entries(*old(map))[i].1) && entries(*final(map)) == entries(
                *old(map),
            ).update(i, (key, attribute)),
        !holds_key(entries(*old(map)), key) ==> r is None && entries(*final(map)) == entries(
            *old(map),
        ).push((key, attribute)),
        single(entries(*final(map)), key),
{
    map.insert(key, attribute)
}

/// `OrderMap::get_full`: the place and the value of the entry that has
/// the key, which no other entry has; nothing where no entry has it.
#[verifier::external_body]
pub(crate) fn map_get_full(map: &OrderMap<u64, Attribute>, key: u64) -> (r: Option<
    (usize, &Attribute),
>)
    ensures
        match r {
            Some((i, attribute)) => {
                &&& i < entries(*map).len()
                &&& entries(*map)[i as int] == (key, *attribute)
                &&& forall|j: int|
                    0 <= j < entries(*map).len() && (#[trigger] entries(*map)[j]).0 == key ==> j
                        == i
            },
            None => !holds_key(entries(*map), key),
        },
{
    map.get_full(&key).map(|(i, _, attribute)| (i, attribute))
}

/// `OrderMap::get_index`: the entry at a place below the length, whose key
/// no other entry has; nothing at another place.
#[verifier::external_body]
pub(crate) fn map_get_index(map: &OrderMap<u64, Attribute>, index: usize) -> (r: Option<
    (u64, &Attribute),
>)
    ensures
        index >= entries(*map).len() ==> r is None,
        index < entries(*map).len() ==> match r {
            Some((key, attribute)) => {
                &&& entries(*map)[index as int] == (key, *attribute)
                &&& forall|j: int|
                    0 <= j < entries(*map).len() && (#[trigger] entries(*map)[j]).0 == key ==> j
                        == index
            },
            None => false,
        },
{
    map.get_index(index).map(|(key, attribute)| (*key, attribute))
}

} // verus!
