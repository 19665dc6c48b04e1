//! A small map from keys to values, kept as a list without repeated keys.
use vstd::prelude::*;
use crate::identity::Address;

verus! {

/// A key that can be told apart from another one.
pub trait Key: Sized {
    /// Whether the two keys are the same one.
    fn same_key(&self, other: &Self) -> (r: bool)
        ensures
            r == (*self == *other),
    ;
}

impl Key for Address {
    fn same_key(&self, other: &Address) -> (r: bool) {
        self.same(other)
    }
}

/// An owner of tokens together with an identity that may spend them.
#[derive(Clone, Copy, Debug, PartialEq, Eq)]
pub struct Grant {
    pub owner: Address,
    pub spender: Address,
}

impl Key for Grant {
    fn same_key(&self, other: &Grant) -> (r: bool) {
        self.owner.same(&other.owner) && self.spender.same(&other.spender)
    }
}

/// One key with its value.
pub struct Slot<K, V> {
    pub key: K,
    pub value: V,
}

/// A map from keys to values.
pub struct Store<K, V> {
    slots: Vec<Slot<K, V>>,
}

impl<K, V> Store<K, V> {
    /// No key has two values.
    #[verifier::type_invariant]
    spec fn unique_keys(&self) -> bool {
        forall|i: int, j: int|
            0 <= i < j < self.slots@.len() ==> (#[trigger] self.slots@[i]).key != (
            #[trigger] self.slots@[j]).key
    }
}

impl<K: Key + Copy, V: Copy> View for Store<K, V> {
    type V = Map<K, V>;

    /// The keys that have a value, each with its value.
    closed spec fn view(&self) -> Map<K, V> {
        Map::new(|key: K| self.has_slot(key), |key: K| self.slots@[self.slot_of(key)].value)
    }
}

impl<K: Key + Copy, V: Copy> Store<K, V> {
    spec fn has_slot(&self, key: K) -> bool {
        exists|i: int| 0 <= i < self.slots@.len() && (#[trigger] self.slots@[i]).key == key
    }

    spec fn slot_of(&self, key: K) -> int {
        choose|i: int| 0 <= i < self.slots@.len() && (#[trigger] self.slots@[i]).key == key
    }

    /// A map without keys.
    pub fn new() -> (r: Store<K, V>)
        ensures
            r@ == Map::<K, V>::empty(),
    {
        let r = Store { slots: Vec::new() };
        assert(r@ =~= Map::<K, V>::empty());
        r
    }

    /// The place of `key`, if it has a value.
    fn find(&self, key: &K) -> (r: Option<usize>)
        ensures
            match r {
                Some(i) => i < self.slots@.len() && self.slots@[i as int].key == *key
                    && self.has_slot(*key) && self.slot_of(*key) == i,
                None => !self.has_slot(*key),
            },
    {
        proof {
            use_type_invariant(self);
        }
        let mut i: usize = 0;
        while i < self.slots.len()
            invariant
                self.unique_keys(),
                i <= self.slots@.len(),
                forall|j: int| 0 <= j < i ==> (#[trigger] self.slots@[j]).key != *key,
            decreases self.slots@.len() - i,
        {
            if self.slots[i].key.same_key(key) {
                proof {
                    let m = self.slot_of(*key);
                    assert(self.slots@[m].key == *key);
                    if i < m {
                        assert(self.slots@[i as int].key != self.slots@[m].key);
                    }
                }
                return Some(i);
            }
            i += 1;
        }
        None
    }

    /// The value of `key`, if it has one.
    pub fn get(&self, key: &K) -> (r: Option<V>)
        ensures
            r == (if self@.contains_key(*key) {
                Some(self@[*key])
            } else {
                None
            }),
    {
        match self.find(key) {
            Some(i) => Some(self.slots[i].value),
            None => None,
        }
    }

    /// Gives `key` the value `value`, in place of the one it had, if any.
    pub fn set(&mut self, key: K, value: V)
        ensures
            final(self)@ == old(self)@.insert(key, value),
    {
        proof {
            use_type_invariant(&*self);
        }
        let ghost before = *self;
        let found = self.find(&key);
        let mut taken = Store { slots: Vec::new() };
        core::mem::swap(self, &mut taken);
        let Store { slots } = taken;
        let mut slots = slots;
        match found {
            Some(i) => {
                slots[i].value = value;
                let ghost after = Store { slots };
                proof {
                    before.lemma_same_keys(after);
                    assert(after@ =~= before@.insert(key, value));
                }
            },
            None => {
                let i: usize = slots.len();
                slots.push(Slot { key, value });
                let ghost after = Store { slots };
                proof {
                    assert(after.slots@[i as int].key == key);
                    assert forall|a: K| after.has_slot(a) <==> (a == key || before.has_slot(a)) by {
                        if before.has_slot(a) {
                            let k = before.slot_of(a);
                            assert(after.slots@[k].key == a);
                        }
                        if after.has_slot(a) && a != key {
                            let k = after.slot_of(a);
                            assert(before.slots@[k].key == a);
                        }
                    }
                    assert forall|a: K| before.has_slot(a) implies after.slot_of(a)
                        == before.slot_of(a) by {
                        let k = before.slot_of(a);
                        assert(after.slots@[k].key == a);
                        let m = after.slot_of(a);
                        assert(after.slots@[m].key == a);
                        if m < k {
                            assert(after.slots@[m].key != after.slots@[k].key);
                        } else if k < m {
                            assert(after.slots@[k].key != after.slots@[m].key);
                        }
                    }
                    assert(after.slot_of(key) == i) by {
                        let m = after.slot_of(key);
                        assert(after.slots@[m].key == key);
                        if m < i {
                            assert(before.slots@[m].key == key);
                        }
                    }
                    assert(after@ =~= before@.insert(key, value));
                }
            },
        }
        *self = Store { slots };
    }

    /// Two lists with the same keys at the same places have the same keys
    /// and find each at the same place.
    proof fn lemma_same_keys(self, after: Store<K, V>)
        requires
            self.unique_keys(),
            after.slots@.len() == self.slots@.len(),
            forall|j: int|
                0 <= j < self.slots@.len() ==> (#[trigger] after.slots@[j]).key
                    == self.slots@[j].key,
        ensures
            after.unique_keys(),
            forall|a: K| after.has_slot(a) <==> self.has_slot(a),
            forall|a: K| self.has_slot(a) ==> after.slot_of(a) == self.slot_of(a),
    {
        assert forall|i: int, j: int| 0 <= i < j < after.slots@.len() implies (
        #[trigger] after.slots@[i]).key != (#[trigger] after.slots@[j]).key by {
            assert(self.slots@[i].key != self.slots@[j].key);
        }
        assert forall|a: K| after.has_slot(a) <==> self.has_slot(a) by {
            if self.has_slot(a) {
                let k = self.slot_of(a);
                assert(after.slots@[k].key == a);
            }
            if after.has_slot(a) {
                let k = after.slot_of(a);
                assert(self.slots@[k].key == a);
            }
        }
        assert forall|a: K| self.has_slot(a) implies after.slot_of(a) == self.slot_of(a) by {
            let k = self.slot_of(a);
            assert(after.slots@[k].key == a);
            let m = after.slot_of(a);
            assert(after.slots@[m].key == a);
            assert(self.slots@[m].key == a);
            if m < k {
                assert(self.slots@[m].key != self.slots@[k].key);
            } else if k < m {
                assert(self.slots@[k].key != self.slots@[m].key);
            }
        }
    }
}

} // verus!
