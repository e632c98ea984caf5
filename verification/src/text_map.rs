//! An ordered map from texts to values.
use crate::text::{ascending, before, copy_all, is_before, lemma_before_total, lemma_before_transitive, texts};
use vstd::prelude::*;
use vstd::string::*;

verus! {

/// The map from each key to the value at its position.
pub open spec fn map_of<T>(keys: Seq<Seq<char>>, values: Seq<T>) -> Map<Seq<char>, T> {
    Map::new(|k: Seq<char>| keys.contains(k), |k: Seq<char>| values[keys.index_of(k)])
}

proof fn lemma_map_of<T>(keys: Seq<Seq<char>>, values: Seq<T>)
    requires
        ascending(keys),
        keys.len() == values.len(),
    ensures
        forall|i: int|
            0 <= i < keys.len() ==> {
                &&& map_of(keys, values).contains_key(#[trigger] keys[i])
                &&& map_of(keys, values)[keys[i]] == values[i]
            },
        forall|k: Seq<char>|
            #[trigger] map_of(keys, values).contains_key(k) ==> exists|i: int|
                0 <= i < keys.len() && keys[i] == k,
{
    assert forall|i: int| 0 <= i < keys.len() implies map_of(keys, values).contains_key(#[trigger] keys[i])
        && map_of(keys, values)[keys[i]] == values[i] by {
        assert(keys.contains(keys[i]));
        let j = keys.index_of(keys[i]);
        lemma_distinct(keys, i, j);
    }
}

/// In an ascending sequence different positions hold different texts.
proof fn lemma_distinct(keys: Seq<Seq<char>>, i: int, j: int)
    requires
        ascending(keys),
        0 <= i < keys.len(),
        0 <= j < keys.len(),
        keys[i] == keys[j],
    ensures
        i == j,
{
    lemma_before_total(keys[i], keys[j]);
}

proof fn lemma_replaced<T>(keys: Seq<Seq<char>>, values: Seq<T>, n: int, value: T)
    requires
        ascending(keys),
        keys.len() == values.len(),
        0 <= n < keys.len(),
    ensures
        map_of(keys, values.update(n, value)) == map_of(keys, values).insert(keys[n], value),
{
    let new = values.update(n, value);
    lemma_map_of(keys, values);
    lemma_map_of(keys, new);
    let target = map_of(keys, values).insert(keys[n], value);
    assert forall|x: Seq<char>| #[trigger] map_of(keys, new).contains_key(x) implies map_of(keys, new)[x] == target[x] by {
        let i = choose|i: int| 0 <= i < keys.len() && keys[i] == x;
        assert(map_of(keys, new)[keys[i]] == new[i]);
        assert(map_of(keys, values)[keys[i]] == values[i]);
        if keys[i] == keys[n] {
            lemma_distinct(keys, i, n);
        }
    }
    assert(map_of(keys, new) =~= target);
}

proof fn lemma_inserted<T>(keys: Seq<Seq<char>>, values: Seq<T>, n: int, key: Seq<char>, value: T)
    requires
        ascending(keys),
        keys.len() == values.len(),
        0 <= n <= keys.len(),
        forall|j: int| 0 <= j < n ==> before(#[trigger] keys[j], key),
        forall|j: int| n <= j < keys.len() ==> !before(#[trigger] keys[j], key),
        n < keys.len() ==> keys[n] != key,
    ensures
        ascending(keys.insert(n, key)),
        map_of(keys.insert(n, key), values.insert(n, value)) == map_of(keys, values).insert(key, value),
{
    let ks = keys.insert(n, key);
    let vs = values.insert(n, value);
    assert forall|j: int| n <= j < keys.len() implies before(key, #[trigger] keys[j]) by {
        lemma_before_total(keys[n], key);
        if j > n {
            assert(before(keys[n], keys[j]));
            lemma_before_transitive(key, keys[n], keys[j]);
        }
    }
    assert forall|i: int, j: int| 0 <= i < j < ks.len() implies before(#[trigger] ks[i], #[trigger] ks[j]) by {
        let wi = if i < n { i } else { i - 1 };
        let wj = if j < n { j } else { j - 1 };
        if i != n && j != n {
            assert(ks[i] == keys[wi] && ks[j] == keys[wj]);
            assert(before(keys[wi], keys[wj]));
        } else if i == n {
            assert(ks[j] == keys[wj]);
        } else {
            assert(ks[i] == keys[wi]);
        }
    }
    lemma_map_of(keys, values);
    lemma_map_of(ks, vs);
    let target = map_of(keys, values).insert(key, value);
    assert(ks[n] == key);
    assert forall|x: Seq<char>| map_of(ks, vs).contains_key(x) == target.contains_key(x) by {
        if map_of(ks, vs).contains_key(x) {
            let i = choose|i: int| 0 <= i < ks.len() && ks[i] == x;
            if i != n {
                assert(keys[if i < n { i } else { i - 1 }] == x);
            }
        }
        if map_of(keys, values).contains_key(x) {
            let w = choose|w: int| 0 <= w < keys.len() && keys[w] == x;
            assert(ks[if w < n { w } else { w + 1 }] == x);
        }
    }
    assert forall|x: Seq<char>| #[trigger] map_of(ks, vs).contains_key(x) implies map_of(ks, vs)[x] == target[x] by {
        let i = choose|i: int| 0 <= i < ks.len() && ks[i] == x;
        assert(map_of(ks, vs)[ks[i]] == vs[i]);
        if i != n {
            let w = if i < n { i } else { i - 1 };
            assert(keys[w] == x);
            assert(map_of(keys, values)[keys[w]] == values[w]);
            if x == key {
                lemma_distinct(ks, i, n);
            }
        }
    }
    assert(map_of(ks, vs) =~= target);
}

proof fn lemma_removed<T>(keys: Seq<Seq<char>>, values: Seq<T>, n: int)
    requires
        ascending(keys),
        keys.len() == values.len(),
        0 <= n < keys.len(),
    ensures
        ascending(keys.remove(n)),
        map_of(keys.remove(n), values.remove(n)) == map_of(keys, values).remove(keys[n]),
{
    let ks = keys.remove(n);
    let vs = values.remove(n);
    values.remove_ensures(n);
    keys.remove_ensures(n);
    assert forall|i: int, j: int| 0 <= i < j < ks.len() implies before(#[trigger] ks[i], #[trigger] ks[j]) by {
        let wi = if i < n { i } else { i + 1 };
        let wj = if j < n { j } else { j + 1 };
        assert(before(keys[wi], keys[wj]));
    }
    lemma_map_of(keys, values);
    lemma_map_of(ks, vs);
    let target = map_of(keys, values).remove(keys[n]);
    assert forall|x: Seq<char>| map_of(ks, vs).contains_key(x) == target.contains_key(x) by {
        if map_of(ks, vs).contains_key(x) {
            let i = choose|i: int| 0 <= i < ks.len() && ks[i] == x;
            let w = if i < n { i } else { i + 1 };
            assert(keys[w] == x);
            if x == keys[n] {
                lemma_distinct(keys, w, n);
            }
        }
        if target.contains_key(x) {
            let w = choose|w: int| 0 <= w < keys.len() && keys[w] == x;
            assert(ks[if w < n { w } else { w - 1 }] == x);
        }
    }
    assert forall|x: Seq<char>| #[trigger] map_of(ks, vs).contains_key(x) implies map_of(ks, vs)[x] == target[x] by {
        let i = choose|i: int| 0 <= i < ks.len() && ks[i] == x;
        let w = if i < n { i } else { i + 1 };
        assert(keys[w] == x && vs[i] == values[w]);
        assert(map_of(ks, vs)[ks[i]] == vs[i]);
        assert(map_of(keys, values)[keys[w]] == values[w]);
        if x == keys[n] {
            lemma_distinct(keys, w, n);
        }
    }
    assert(map_of(ks, vs) =~= target);
}

/// A map from texts to values, kept in ascending order of the texts.
pub struct TextMap<T> {
    keys: Vec<String>,
    values: Vec<T>,
}

impl<T> TextMap<T> {
    /// The keys in ascending order, and one value for each.
    pub closed spec fn wf(&self) -> bool {
        &&& self.keys@.len() == self.values@.len()
        &&& ascending(texts(self.keys@))
    }

    /// The keys in order.
    pub closed spec fn keys(&self) -> Seq<Seq<char>> {
        texts(self.keys@)
    }

    /// The values in the order of their keys.
    pub closed spec fn values(&self) -> Seq<T> {
        self.values@
    }

    /// The map.
    pub open spec fn map(&self) -> Map<Seq<char>, T> {
        map_of(self.keys(), self.values())
    }

    /// The map has the value at each position under the key at that position, and
    /// nothing else.
    pub proof fn lemma_positions(&self)
        requires
            self.wf(),
        ensures
            self.keys().len() == self.values().len(),
            ascending(self.keys()),
            forall|i: int|
                0 <= i < self.keys().len() ==> {
                    &&& self.map().contains_key(#[trigger] self.keys()[i])
                    &&& self.map()[self.keys()[i]] == self.values()[i]
                },
            forall|k: Seq<char>|
                #[trigger] self.map().contains_key(k) ==> exists|i: int|
                    0 <= i < self.keys().len() && self.keys()[i] == k,
    {
        lemma_map_of(self.keys(), self.values());
    }

    /// An empty map.
    pub fn new() -> (r: Self)
        ensures
            r.wf(),
            r.map() == Map::<Seq<char>, T>::empty(),
    {
        let r = TextMap { keys: Vec::new(), values: Vec::new() };
        assert(r.map() =~= Map::empty());
        r
    }

    /// How many keys there are.
    pub fn len(&self) -> (n: usize)
        requires
            self.wf(),
        ensures
            n == self.keys().len(),
            n == self.values().len(),
    {
        self.keys.len()
    }

    /// The key at a position.
    pub fn key(&self, i: usize) -> (r: &str)
        requires
            self.wf(),
            i < self.keys().len(),
        ensures
            r@ == self.keys()[i as int],
    {
        self.keys[i].as_str()
    }

    /// The value at a position.
    pub fn value(&self, i: usize) -> (r: &T)
        requires
            self.wf(),
            i < self.keys().len(),
        ensures
            *r == self.values()[i as int],
    {
        &self.values[i]
    }

    /// A copy of the keys, in order.
    pub fn all_keys(&self) -> (r: Vec<String>)
        requires
            self.wf(),
        ensures
            texts(r@) == self.keys(),
    {
        copy_all(&self.keys)
    }

    /// The position of the first key that does not come before `key`.
    fn position(&self, key: &str) -> (n: usize)
        requires
            self.wf(),
        ensures
            n <= self.keys().len(),
            forall|j: int| 0 <= j < n ==> before(#[trigger] self.keys()[j], key@),
            forall|j: int| n <= j < self.keys().len() ==> !before(#[trigger] self.keys()[j], key@),
    {
        let mut n: usize = 0;
        while n < self.keys.len() && is_before(self.keys[n].as_str(), key)
            invariant
                self.wf(),
                n <= self.keys().len(),
                forall|j: int| 0 <= j < n ==> before(#[trigger] self.keys()[j], key@),
            decreases self.keys().len() - n,
        {
            n = n + 1;
        }
        proof {
            assert forall|j: int| n <= j < self.keys().len() implies !before(#[trigger] self.keys()[j], key@) by {
                let at = self.keys()[n as int];
                let later = self.keys()[j];
                if before(later, key@) && j > n {
                    lemma_before_transitive(at, later, key@);
                }
            }
        }
        n
    }

    /// Whether `key` has a value.
    pub fn contains(&self, key: &str) -> (r: bool)
        requires
            self.wf(),
        ensures
            r == self.map().contains_key(key@),
    {
        self.get(key).is_some()
    }

    /// The value of `key`, where it has one.
    pub fn get(&self, key: &str) -> (r: Option<&T>)
        requires
            self.wf(),
        ensures
            match r {
                Some(v) => self.map().contains_key(key@) && self.map()[key@] == *v,
                None => !self.map().contains_key(key@),
            },
    {
        let n: usize = self.position(key);
        proof {
            self.lemma_positions();
            lemma_before_total(key@, key@);
        }
        if n < self.keys.len() && *self.keys[n].as_str() == *key {
            assert(self.keys()[n as int] == key@);
            Some(&self.values[n])
        } else {
            proof {
                assert forall|j: int| 0 <= j < self.keys().len() implies self.keys()[j] != key@ by {
                    if j < n {
                    } else if j > n {
                        lemma_before_total(self.keys()[n as int], key@);
                        let at = self.keys()[n as int];
                        if self.keys()[j] == key@ {
                            assert(before(at, self.keys()[j]));
                        }
                    }
                }
            }
            None
        }
    }

    /// Gives `key` the value `value`.
    pub fn insert(&mut self, key: String, value: T)
        requires
            old(self).wf(),
        ensures
            final(self).wf(),
            final(self).map() == old(self).map().insert(key@, value),
    {
        let n: usize = self.position(key.as_str());
        let ghost was = *self;
        let ghost k = key@;
        if n < self.keys.len() && *self.keys[n].as_str() == *key.as_str() {
            self.values.set(n, value);
            proof {
                lemma_replaced(was.keys(), was.values(), n as int, value);
            }
        } else {
            self.keys.insert(n, key);
            self.values.insert(n, value);
            proof {
                assert(self.keys() =~= was.keys().insert(n as int, k));
                lemma_inserted(was.keys(), was.values(), n as int, k, value);
            }
        }
    }

    /// Takes the key at a position away, with its value.
    pub fn remove_at(&mut self, n: usize)
        requires
            old(self).wf(),
            n < old(self).keys().len(),
        ensures
            final(self).wf(),
            final(self).keys() == old(self).keys().remove(n as int),
            final(self).values() == old(self).values().remove(n as int),
            final(self).map() == old(self).map().remove(old(self).keys()[n as int]),
    {
        let ghost was = *self;
        self.keys.remove(n);
        self.values.remove(n);
        proof {
            assert(self.keys() =~= was.keys().remove(n as int));
            lemma_removed(was.keys(), was.values(), n as int);
        }
    }

    /// Takes `key` away, where it is there.
    pub fn remove(&mut self, key: &str)
        requires
            old(self).wf(),
        ensures
            final(self).wf(),
            final(self).map() == old(self).map().remove(key@),
    {
        let n: usize = self.position(key);
        if n < self.keys.len() && *self.keys[n].as_str() == *key {
            self.remove_at(n);
        } else {
            let present = self.get(key).is_some();
            proof {
                self.lemma_positions();
                if present {
                    let i = choose|i: int| 0 <= i < self.keys().len() && self.keys()[i] == key@;
                    lemma_before_total(key@, key@);
                    if i > n {
                        let at = self.keys()[n as int];
                        assert(before(at, self.keys()[i]));
                    }
                }
                assert(self.map() =~= old(self).map().remove(key@));
            }
        }
    }
}

} // verus!
