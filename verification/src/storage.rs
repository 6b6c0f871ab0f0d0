//! A map from token identifiers to values, held in a vector.
//!
//! The registry keeps its records in maps keyed by a 256-bit identifier. A
//! [`TokenMap`] is such a map: a vector of pairs in which no key stands twice.
//! Its view is the mathematical map that the pairs spell out.
//!
//! The hash map of the standard library is specified for keys whose hashing
//! is known to agree with their equality, which are the primitive integers.
//! An identifier is four words wide and is none of them, so nothing could be
//! proved of a hash map that it keys. A vector asks for nothing but the
//! equality of keys, which is proved: a key is found by going through the
//! pairs from the front.
use crate::uint::U256;
use vstd::prelude::*;

verus! {

/// No key stands twice in `s`.
spec fn distinct_keys<V>(s: Seq<(U256, V)>) -> bool {
    forall|i: int, j: int| 0 <= i < j < s.len() ==> (#[trigger] s[i]).0 != (#[trigger] s[j]).0
}

/// Some pair of `s` has the key `key`.
spec fn holds_key<V>(s: Seq<(U256, V)>, key: U256) -> bool {
    exists|i: int| 0 <= i < s.len() && (#[trigger] s[i]).0 == key
}

/// A place in `s` at which `key` stands, where it stands anywhere.
spec fn place_of<V>(s: Seq<(U256, V)>, key: U256) -> int {
    choose|i: int| 0 <= i < s.len() && (#[trigger] s[i]).0 == key
}

/// The map that the pairs of `s` spell out.
spec fn map_of<V>(s: Seq<(U256, V)>) -> Map<U256, V> {
    Map::new(|key: U256| holds_key(s, key), |key: U256| s[place_of(s, key)].1)
}

/// In a sequence without a repeated key, the pair at `i` is what the map
/// holds under its key.
proof fn lemma_map_of_at<V>(s: Seq<(U256, V)>, i: int)
    requires
        distinct_keys(s),
        0 <= i < s.len(),
    ensures
        holds_key(s, s[i].0),
        place_of(s, s[i].0) == i,
        map_of(s).contains_key(s[i].0),
        map_of(s)[s[i].0] == s[i].1,
{
    let key = s[i].0;
    assert(holds_key(s, key));
    let p = place_of(s, key);
    assert(0 <= p < s.len() && s[p].0 == key);
    if p < i {
        assert(s[p].0 != s[i].0);
    } else if i < p {
        assert(s[i].0 != s[p].0);
    }
}

/// A map of distinct keys has as many keys as the sequence has pairs.
proof fn lemma_map_of_len<V>(s: Seq<(U256, V)>)
    requires
        distinct_keys(s),
    ensures
        map_of(s).dom().finite(),
        map_of(s).dom().len() == s.len(),
    decreases s.len(),
{
    if s.len() == 0 {
        assert(map_of(s).dom() =~= Set::<U256>::empty());
    } else {
        let front = s.drop_last();
        let key = s.last().0;
        assert(distinct_keys(front)) by {
            assert forall|i: int, j: int| 0 <= i < j < front.len() implies (#[trigger] front[i]).0
                != (#[trigger] front[j]).0 by {
                assert(front[i] == s[i] && front[j] == s[j]);
            }
        }
        lemma_map_of_len(front);
        assert(!map_of(front).dom().contains(key)) by {
            if holds_key(front, key) {
                let p = place_of(front, key);
                assert(s[p] == front[p]);
                assert(s[p].0 != s[s.len() - 1].0);
            }
        }
        assert(map_of(s).dom() =~= map_of(front).dom().insert(key)) by {
            assert forall|k: U256| map_of(s).dom().contains(k) implies map_of(front).dom().insert(
                key,
            ).contains(k) by {
                let p = place_of(s, k);
                if p < s.len() - 1 {
                    assert(front[p] == s[p]);
                    assert(holds_key(front, k));
                }
            }
            assert forall|k: U256| map_of(front).dom().insert(key).contains(k) implies map_of(
                s,
            ).dom().contains(k) by {
                if k == key {
                    assert(s[s.len() - 1].0 == k);
                } else {
                    let p = place_of(front, k);
                    assert(s[p] == front[p]);
                }
            }
        }
    }
}

/// A new key at the end adds one entry to the map.
proof fn lemma_map_of_push<V>(s: Seq<(U256, V)>, key: U256, value: V)
    requires
        distinct_keys(s),
        !holds_key(s, key),
    ensures
        distinct_keys(s.push((key, value))),
        map_of(s.push((key, value))) == map_of(s).insert(key, value),
{
    let t = s.push((key, value));
    assert(distinct_keys(t)) by {
        assert forall|i: int, j: int| 0 <= i < j < t.len() implies (#[trigger] t[i]).0 != (
        #[trigger] t[j]).0 by {
            assert(t[i] == s[i]);
            if j < s.len() {
                assert(t[j] == s[j]);
            }
        }
    }
    assert forall|k: U256| map_of(t).contains_key(k) <==> map_of(s).insert(
        key,
        value,
    ).contains_key(k) by {
        if holds_key(t, k) {
            let p = place_of(t, k);
            if p < s.len() {
                assert(s[p] == t[p]);
            }
        }
        if k == key {
            assert(t[s.len() as int].0 == k);
        } else if holds_key(s, k) {
            let p = place_of(s, k);
            assert(t[p] == s[p]);
        }
    }
    assert forall|k: U256| map_of(t).contains_key(k) implies map_of(t)[k] == map_of(s).insert(
        key,
        value,
    )[k] by {
        let p = place_of(t, k);
        lemma_map_of_at(t, p);
        if p < s.len() {
            assert(t[p] == s[p]);
            lemma_map_of_at(s, p);
        }
    }
    assert(map_of(t) =~= map_of(s).insert(key, value));
}

/// A new value at place `i` replaces the entry of the key that stands there.
proof fn lemma_map_of_update<V>(s: Seq<(U256, V)>, i: int, value: V)
    requires
        distinct_keys(s),
        0 <= i < s.len(),
    ensures
        distinct_keys(s.update(i, (s[i].0, value))),
        map_of(s.update(i, (s[i].0, value))) == map_of(s).insert(s[i].0, value),
{
    let key = s[i].0;
    let t = s.update(i, (key, value));
    assert forall|j: int| 0 <= j < s.len() implies (#[trigger] t[j]).0 == s[j].0 by {}
    assert(distinct_keys(t)) by {
        assert forall|a: int, b: int| 0 <= a < b < t.len() implies (#[trigger] t[a]).0 != (
        #[trigger] t[b]).0 by {
            assert(s[a].0 != s[b].0);
        }
    }
    assert forall|k: U256| map_of(t).contains_key(k) <==> map_of(s).insert(
        key,
        value,
    ).contains_key(k) by {
        if holds_key(t, k) {
            let p = place_of(t, k);
            assert(s[p].0 == k);
        }
        if k == key {
            assert(t[i].0 == k);
        } else if holds_key(s, k) {
            let p = place_of(s, k);
            assert(t[p].0 == k);
        }
    }
    assert forall|k: U256| map_of(t).contains_key(k) implies map_of(t)[k] == map_of(s).insert(
        key,
        value,
    )[k] by {
        let p = place_of(t, k);
        lemma_map_of_at(t, p);
        lemma_map_of_at(s, p);
    }
    assert(map_of(t) =~= map_of(s).insert(key, value));
}

/// Taking the pair at place `i` out removes the entry of its key.
proof fn lemma_map_of_remove<V>(s: Seq<(U256, V)>, i: int)
    requires
        distinct_keys(s),
        0 <= i < s.len(),
    ensures
        distinct_keys(s.remove(i)),
        map_of(s.remove(i)) == map_of(s).remove(s[i].0),
{
    let key = s[i].0;
    let t = s.remove(i);
    assert forall|j: int| 0 <= j < t.len() implies #[trigger] t[j] == s[if j < i {
        j
    } else {
        j + 1
    }] by {}
    assert(distinct_keys(t)) by {
        assert forall|a: int, b: int| 0 <= a < b < t.len() implies (#[trigger] t[a]).0 != (
        #[trigger] t[b]).0 by {
            let a2 = if a < i {
                a
            } else {
                a + 1
            };
            let b2 = if b < i {
                b
            } else {
                b + 1
            };
            assert(s[a2].0 != s[b2].0);
        }
    }
    assert forall|k: U256| map_of(t).contains_key(k) <==> map_of(s).remove(key).contains_key(
        k,
    ) by {
        if holds_key(t, k) {
            let p = place_of(t, k);
            let p2 = if p < i {
                p
            } else {
                p + 1
            };
            assert(s[p2].0 == k);
            if p2 < i {
                assert(s[p2].0 != s[i].0);
            } else {
                assert(s[i].0 != s[p2].0);
            }
        }
        if k != key && holds_key(s, k) {
            let p = place_of(s, k);
            let p2 = if p < i {
                p
            } else {
                p - 1
            };
            assert(t[p2].0 == k);
        }
    }
    assert forall|k: U256| map_of(t).contains_key(k) implies map_of(t)[k] == map_of(s).remove(
        key,
    )[k] by {
        let p = place_of(t, k);
        lemma_map_of_at(t, p);
        let p2 = if p < i {
            p
        } else {
            p + 1
        };
        lemma_map_of_at(s, p2);
    }
    assert(map_of(t) =~= map_of(s).remove(key));
}

/// A map keyed by token identifier. No key stands twice in it: that holds of
/// every value of this type.
pub struct TokenMap<V> {
    entries: Vec<(U256, V)>,
}

impl<V> View for TokenMap<V> {
    type V = Map<U256, V>;

    closed spec fn view(&self) -> Map<U256, V> {
        map_of(self.entries@)
    }
}

impl<V> TokenMap<V> {
    /// What holds of every map: no key stands twice.
    #[verifier::type_invariant]
    pub closed spec fn wf(self) -> bool {
        distinct_keys(self.entries@)
    }

    /// The keys of a map are finitely many, and no more than a vector holds.
    pub proof fn lemma_finite(self)
        requires
            self.wf(),
        ensures
            self@.dom().finite(),
            self@.dom().len() <= usize::MAX,
    {
        lemma_map_of_len(self.entries@);
        assert(self.entries@.len() == self.entries.len());
    }

    /// The empty map.
    pub fn new() -> (m: TokenMap<V>)
        ensures
            m@ == Map::<U256, V>::empty(),
    {
        let m = TokenMap { entries: Vec::new() };
        assert(m@ =~= Map::<U256, V>::empty());
        m
    }

    /// The number of keys. They are finitely many, and no more than a vector
    /// holds.
    pub fn len(&self) -> (n: usize)
        ensures
            self@.dom().finite(),
            n == self@.dom().len(),
    {
        proof {
            use_type_invariant(self);
            lemma_map_of_len(self.entries@);
        }
        self.entries.len()
    }

    /// The place at which `key` stands, if it stands anywhere.
    fn position(&self, key: &U256) -> (r: Option<usize>)
        ensures
            match r {
                Some(i) => i < self.entries@.len() && self.entries@[i as int].0 == *key,
                None => !holds_key(self.entries@, *key),
            },
    {
        let mut i: usize = 0;
        while i < self.entries.len()
            invariant
                i <= self.entries@.len(),
                forall|j: int| 0 <= j < i ==> (#[trigger] self.entries@[j]).0 != *key,
            decreases self.entries@.len() - i,
        {
            if self.entries[i].0 == *key {
                return Some(i);
            }
            i += 1;
        }
        None
    }

    /// Whether `key` has a value.
    pub fn contains_key(&self, key: &U256) -> (r: bool)
        ensures
            r == self@.contains_key(*key),
    {
        self.position(key).is_some()
    }

    /// The value of `key`, if it has one.
    pub fn get(&self, key: &U256) -> (r: Option<&V>)
        ensures
            match r {
                Some(value) => self@.contains_key(*key) && *value == self@[*key],
                None => !self@.contains_key(*key),
            },
    {
        match self.position(key) {
            Some(i) => {
                proof {
                    use_type_invariant(self);
                    lemma_map_of_at(self.entries@, i as int);
                }
                Some(&self.entries[i].1)
            },
            None => None,
        }
    }

    /// Gives `key` the value `value`, in place of the one it had, if any.
    pub fn insert(&mut self, key: U256, value: V)
        ensures
            final(self)@ == old(self)@.insert(key, value),
    {
        proof {
            use_type_invariant(&*self);
        }
        let place = self.position(&key);
        // The pairs leave the map while they change: what stays behind is
        // the empty map, in which no key stands twice either.
        let mut entries: Vec<(U256, V)> = Vec::new();
        core::mem::swap(&mut entries, &mut self.entries);
        match place {
            Some(i) => {
                proof {
                    lemma_map_of_update(entries@, i as int, value);
                }
                entries.set(i, (key, value));
            },
            None => {
                proof {
                    lemma_map_of_push(entries@, key, value);
                }
                entries.push((key, value));
            },
        }
        self.entries = entries;
    }

    /// Takes `key` and its value out, if it has one.
    pub fn remove(&mut self, key: &U256)
        ensures
            final(self)@ == old(self)@.remove(*key),
    {
        proof {
            use_type_invariant(&*self);
        }
        match self.position(key) {
            Some(i) => {
                let mut entries: Vec<(U256, V)> = Vec::new();
                core::mem::swap(&mut entries, &mut self.entries);
                proof {
                    lemma_map_of_remove(entries@, i as int);
                }
                entries.remove(i);
                self.entries = entries;
            },
            None => {
                assert(self@.remove(*key) =~= self@);
            },
        }
    }
}

} // verus!
