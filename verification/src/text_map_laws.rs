//! Laws of ordered maps, said of what is put in and what is found.
use crate::text::before;
use crate::text_map::TextMap;
use vstd::prelude::*;

verus! {

/// A new map holds nothing.
pub proof fn new_maps_hold_nothing<T>(map: TextMap<T>, key: &str, n: usize, r: bool)
    requires
        call_ensures(TextMap::<T>::new, (), map),
    ensures
        call_ensures(TextMap::<T>::len, (&map,), n) ==> n == 0,
        call_ensures(TextMap::<T>::contains, (&map, key), r) ==> !r,
{
    map.lemma_positions();
    if map.keys().len() > 0 {
        assert(map.map().contains_key(map.keys()[0]));
    }
}

/// After an insertion the key holds the value, and every other key what it held before.
pub proof fn insertions_change_one_key<T>(
    map: &mut TextMap<T>,
    key: String,
    value: T,
    other: &str,
    was: Option<&T>,
    now: Option<&T>,
)
    requires
        call_ensures(TextMap::<T>::insert, (map, key, value), ()),
        call_ensures(TextMap::<T>::get, (&*old(map), other), was),
        call_ensures(TextMap::<T>::get, (&*final(map), other), now),
    ensures
        other@ == key@ ==> now == Some(&value),
        other@ != key@ ==> now == was,
        final(map).wf(),
{
}

/// After a removal the key is not there, and every other key holds what it held before.
pub proof fn removals_change_one_key<T>(map: &mut TextMap<T>, key: &str, other: &str, was: Option<&T>, now: Option<&T>)
    requires
        call_ensures(TextMap::<T>::remove, (map, key), ()),
        call_ensures(TextMap::<T>::get, (&*old(map), other), was),
        call_ensures(TextMap::<T>::get, (&*final(map), other), now),
    ensures
        other@ == key@ ==> now is None,
        other@ != key@ ==> now == was,
        final(map).wf(),
{
}

/// What stands at a position is found by its key, the keys ascend, and a key is there exactly where
/// it is found.
pub proof fn positions_and_keys_agree<T>(
    map: TextMap<T>,
    i: usize,
    j: usize,
    first: &str,
    second: &str,
    value: &T,
    found: Option<&T>,
    there: bool,
)
    requires
        map.wf(),
        i < j,
        j < map.keys().len(),
        call_ensures(TextMap::<T>::key, (&map, i), first),
        call_ensures(TextMap::<T>::key, (&map, j), second),
        call_ensures(TextMap::<T>::value, (&map, i), value),
        call_ensures(TextMap::<T>::get, (&map, first), found),
        call_ensures(TextMap::<T>::contains, (&map, first), there),
    ensures
        before(first@, second@),
        found == Some(value),
        there,
{
    map.lemma_positions();
    assert(map.map().contains_key(map.keys()[i as int]));
}

} // verus!
