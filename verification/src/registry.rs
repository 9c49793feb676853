//! The instance registry: a hash map from a handle's identity to what is kept
//! for it, together with the order of registration, which a hash map does not
//! keep and which the teardown of a process walks.

use vstd::prelude::*;
use std::collections::HashMap;

verus! {

broadcast use vstd::std_specs::hash::group_hash_axioms;

/// A finite map keyed by identity, which also keeps its keys in the order in
/// which they were registered. The map decides what is registered; the order
/// holds every registered key once and no other.
pub struct Registry<T> {
    map: HashMap<usize, T>,
    order: Vec<usize>,
}

impl<T> Registry<T> {
    #[verifier::type_invariant]
    spec fn inv(self) -> bool {
        &&& self.order@.no_duplicates()
        &&& forall|k: usize| self.map@.contains_key(k) <==> self.order@.contains(k)
    }

    /// The registered keys, oldest registration first.
    pub closed spec fn keys(self) -> Seq<usize> {
        self.order@
    }

    /// The registry as a map.
    pub closed spec fn view(self) -> Map<usize, T> {
        self.map@
    }

    /// A registry with nothing in it.
    pub fn new() -> (r: Registry<T>)
        ensures
            r@ == Map::<usize, T>::empty(),
            r.keys() == Seq::<usize>::empty(),
    {
        Registry { map: HashMap::new(), order: Vec::new() }
    }

    /// The number of registered keys.
    pub fn len(&self) -> (n: usize)
        ensures
            n == self.keys().len(),
            n == self@.dom().len(),
            self.keys().no_duplicates(),
    {
        proof {
            use_type_invariant(self);
            assert(self@.dom() =~= self.keys().to_set());
            self.keys().unique_seq_to_set();
        }
        self.order.len()
    }

    pub fn is_empty(&self) -> (b: bool)
        ensures
            b == (self.keys().len() == 0),
            b == (self@ == Map::<usize, T>::empty()),
    {
        proof {
            use_type_invariant(self);
            if self.order@.len() == 0 {
                assert forall|k: usize| !self.map@.contains_key(k) by {
                    assert(!self.order@.contains(k));
                }
                assert(self@ =~= Map::<usize, T>::empty());
            } else {
                assert(self.order@.contains(self.order@[0]));
            }
        }
        self.order.len() == 0
    }

    /// Whether the key is registered.
    pub fn contains_key(&self, key: usize) -> (b: bool)
        ensures
            b == self@.contains_key(key),
    {
        self.map.contains_key(&key)
    }

    /// What is registered under the key, if anything.
    pub fn get(&self, key: usize) -> (found: Option<&T>)
        ensures
            match found {
                Some(value) => self@.contains_key(key) && *value == self@[key],
                None => !self@.contains_key(key),
            },
    {
        self.map.get(&key)
    }

    /// Registers a value under a key. A key that is new is appended to the order
    /// of registration; a key that was registered keeps its place, and the value
    /// that it displaced is returned.
    pub fn insert(&mut self, key: usize, value: T) -> (displaced: Option<T>)
        ensures
            final(self)@ == old(self)@.insert(key, value),
            displaced == (if old(self)@.contains_key(key) {
                Some(old(self)@[key])
            } else {
                None::<T>
            }),
            old(self)@.contains_key(key) ==> final(self).keys() == old(self).keys(),
            !old(self)@.contains_key(key) ==> final(self).keys() == old(self).keys().push(key),
    {
        proof {
            use_type_invariant(&*self);
        }
        let mut taken = Registry::new();
        std::mem::swap(self, &mut taken);
        let Registry { map, order } = taken;
        let mut map = map;
        let mut order = order;
        let ghost before = order@;
        let ghost mapped = map@;
        let displaced = map.insert(key, value);
        if displaced.is_none() {
            order.push(key);
            proof {
                assert(!before.contains(key));
                assert(order@.no_duplicates()) by {
                    assert forall|a: int, b: int|
                        0 <= a < order@.len() && 0 <= b < order@.len() && a != b implies order@[a]
                        != order@[b] by {
                        if a < before.len() {
                            assert(before.contains(order@[a]));
                        }
                        if b < before.len() {
                            assert(before.contains(order@[b]));
                        }
                    }
                }
                assert forall|k: usize| map@.contains_key(k) <==> order@.contains(k) by {
                    if k == key {
                        assert(order@[before.len() as int] == key);
                    } else {
                        if before.contains(k) {
                            let j = choose|j: int| 0 <= j < before.len() && before[j] == k;
                            assert(order@[j] == k);
                        }
                        if order@.contains(k) {
                            let j = choose|j: int| 0 <= j < order@.len() && order@[j] == k;
                            assert(before[j] == k);
                        }
                    }
                }
            }
        } else {
            proof {
                assert(mapped.contains_key(key));
                assert forall|k: usize| map@.contains_key(k) <==> order@.contains(k) by {
                    assert(mapped.contains_key(k) <==> before.contains(k));
                }
            }
        }
        *self = Registry { map, order };
        displaced
    }

    /// Takes a key out of the registry and returns what was registered under it.
    /// The other keys keep their order.
    pub fn remove(&mut self, key: usize) -> (removed: Option<T>)
        ensures
            final(self)@ == old(self)@.remove(key),
            removed == (if old(self)@.contains_key(key) {
                Some(old(self)@[key])
            } else {
                None::<T>
            }),
            final(self).keys() == old(self).keys().filter(|k: usize| k != key),
    {
        proof {
            use_type_invariant(&*self);
        }
        let mut taken = Registry::new();
        std::mem::swap(self, &mut taken);
        let Registry { map, order } = taken;
        let mut map = map;
        let mut order = order;
        let ghost before = order@;
        let ghost mapped = map@;
        let removed = map.remove(&key);
        match position(&order, key) {
            Some(at) => {
                order.remove(at);
                proof {
                    lemma_without(before, at as int, key);
                    assert(before.contains(key));
                    assert forall|k: usize| map@.contains_key(k) <==> order@.contains(k) by {
                        if order@.contains(k) {
                            let j = choose|j: int| 0 <= j < order@.len() && order@[j] == k;
                            if j < at {
                                assert(before[j] == k);
                            } else {
                                assert(before[j + 1] == k);
                            }
                            assert(before.contains(k));
                        }
                        if k != key && before.contains(k) {
                            let j = choose|j: int| 0 <= j < before.len() && before[j] == k;
                            if j < at {
                                assert(order@[j] == k);
                            } else {
                                assert(order@[j - 1] == k);
                            }
                        }
                    }
                }
            },
            None => {
                proof {
                    lemma_absent(before, key);
                    assert forall|k: usize| map@.contains_key(k) <==> order@.contains(k) by {
                        assert(mapped.contains_key(k) <==> before.contains(k));
                    }
                }
            },
        }
        *self = Registry { map, order };
        removed
    }

    /// The registered keys, oldest registration first.
    pub fn key_list(&self) -> (keys: Vec<usize>)
        ensures
            keys@ == self.keys(),
            keys@.no_duplicates(),
            forall|k: usize| self@.contains_key(k) <==> keys@.contains(k),
    {
        proof {
            use_type_invariant(self);
        }
        let mut keys: Vec<usize> = Vec::new();
        let mut i: usize = 0;
        while i < self.order.len()
            invariant
                i <= self.order@.len(),
                keys@ == self.order@.subrange(0, i as int),
            decreases self.order@.len() - i,
        {
            keys.push(self.order[i]);
            proof {
                assert(keys@ =~= self.order@.subrange(0, i + 1));
            }
            i += 1;
        }
        proof {
            assert(keys@ =~= self.order@);
        }
        keys
    }
}

/// Where a key stands in a run of keys, if it stands there.
fn position(keys: &Vec<usize>, key: usize) -> (p: Option<usize>)
    ensures
        match p {
            Some(i) => i < keys@.len() && keys@[i as int] == key,
            None => !keys@.contains(key),
        },
{
    let mut i: usize = 0;
    while i < keys.len()
        invariant
            i <= keys@.len(),
            forall|j: int| 0 <= j < i ==> keys@[j] != key,
        decreases keys@.len() - i,
    {
        if keys[i] == key {
            return Some(i);
        }
        i += 1;
    }
    None
}

/// Taking one key out of keys that hold none twice leaves the keys that differ
/// from it, in their order.
proof fn lemma_without(keys: Seq<usize>, i: int, key: usize)
    requires
        keys.no_duplicates(),
        0 <= i < keys.len(),
        keys[i] == key,
    ensures
        keys.remove(i) == keys.filter(|k: usize| k != key),
        keys.remove(i).no_duplicates(),
    decreases keys.len(),
{
    let keep = |k: usize| k != key;
    assert(keys.remove(i).no_duplicates());
    reveal(Seq::filter);
    if keys.len() == 1 {
        assert(keys.drop_last() =~= Seq::<usize>::empty());
        assert(keys.drop_last().filter(keep) =~= Seq::<usize>::empty());
        assert(keys.filter(keep) =~= Seq::<usize>::empty());
        assert(keys.remove(i) =~= Seq::<usize>::empty());
    } else {
        let last = keys.len() - 1;
        let front = keys.drop_last();
        if i == last {
            assert forall|j: int| 0 <= j < front.len() implies front[j] != key by {
                assert(keys[j] == front[j]);
            }
            lemma_absent(front, key);
            assert(keys.remove(i) =~= front);
        } else {
            assert(front[i] == key);
            lemma_without(front, i, key);
            assert(keys[last] != key);
            assert(keys.remove(i) =~= front.remove(i).push(keys[last]));
        }
    }
}

/// Keys that do not hold a key all differ from it.
proof fn lemma_absent(keys: Seq<usize>, key: usize)
    requires
        !keys.contains(key),
    ensures
        keys.filter(|k: usize| k != key) == keys,
    decreases keys.len(),
{
    let keep = |k: usize| k != key;
    reveal(Seq::filter);
    if keys.len() == 0 {
        assert(keys.filter(keep) =~= keys);
    } else {
        let front = keys.drop_last();
        assert forall|j: int| 0 <= j < front.len() implies front[j] != key by {
            assert(keys[j] == front[j]);
        }
        lemma_absent(front, key);
        assert(keys.last() != key) by {
            assert(keys[keys.len() - 1] == keys.last());
        }
        assert(keys.filter(keep) =~= front.filter(keep).push(keys.last()));
        assert(front.push(keys.last()) =~= keys);
    }
}

} // verus!
