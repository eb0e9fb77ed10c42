use crate::window::KeyState;
use std::collections::HashMap;
use vstd::prelude::*;

verus! {

/// Per-identifier edge state. An identifier that was never seen is `Up`.
pub struct StateTable {
    entries: HashMap<u32, KeyState>,
}

impl StateTable {
    /// The state recorded for `key`; `Up` when nothing is recorded.
    pub closed spec fn state(&self, key: u32) -> KeyState {
        if self.entries@.contains_key(key) {
            self.entries@[key]
        } else {
            KeyState::Up
        }
    }

    /// A table in which every identifier is `Up`.
    pub fn new() -> (table: StateTable)
        ensures
            forall|key: u32| table.state(key) == KeyState::Up,
    {
        StateTable { entries: HashMap::new() }
    }

    /// The state of `key`.
    pub fn get(&self, key: u32) -> (state: KeyState)
        ensures
            state == self.state(key),
    {
        broadcast use vstd::std_specs::hash::group_hash_axioms;

        match self.entries.get(&key) {
            Some(state) => *state,
            None => KeyState::Up,
        }
    }

    /// Records one press or release of `key`; every other identifier keeps
    /// its state.
    pub fn apply(&mut self, key: u32, pressed: bool)
        ensures
            final(self).state(key) == old(self).state(key).after_event(pressed),
            forall|other: u32| other != key ==> final(self).state(other) == old(self).state(other),
    {
        broadcast use vstd::std_specs::hash::group_hash_axioms;

        let next = self.get(key).on_event(pressed);
        self.entries.insert(key, next);
    }

    /// The identifiers that have a record, in no particular order.
    fn recorded(&self) -> (keys: Vec<u32>)
        ensures
            keys@.to_set() == self.entries@.dom(),
    {
        broadcast use vstd::std_specs::hash::group_hash_axioms;

        let mut keys: Vec<u32> = Vec::new();
        for key in it: self.entries.keys()
            invariant
                keys@.len() == it.index(),
                forall|i: int| 0 <= i < keys@.len() ==> keys@[i] == *it.seq()[i],
                it.seq().unref().to_set() == self.entries@.dom(),
                it.index() == it.seq().len() ==> keys@.to_set() == self.entries@.dom(),
        {
            keys.push(*key);
            assert(it.index() + 1 == it.seq().len() ==> keys@ =~= it.seq().unref());
        }
        keys
    }

    /// Lets every edge decay: `Pressed` becomes `Down`, `Released` becomes
    /// `Up`.
    pub fn decay_all(&mut self)
        ensures
            forall|key: u32| final(self).state(key) == old(self).state(key).decayed(),
    {
        broadcast use vstd::std_specs::hash::group_hash_axioms;

        let keys = self.recorded();
        let ghost before = self.entries@;
        let mut i: usize = 0;
        while i < keys.len()
            invariant
                i <= keys@.len(),
                keys@.to_set() == before.dom(),
                self.entries@.dom() == before.dom(),
                forall|key: u32| #[trigger]
                    before.contains_key(key) ==> self.entries@[key] == before[key]
                        || self.entries@[key] == before[key].decayed(),
                forall|j: int|
                    0 <= j < i ==> self.entries@[#[trigger] keys@[j]] == before[keys@[j]].decayed(),
            decreases keys@.len() - i,
        {
            let key = keys[i];
            assert(keys@.to_set().contains(key));
            let state = self.get(key);
            self.entries.insert(key, state.decay());
            i += 1;
        }
        proof {
            assert forall|key: u32| self.state(key) == old(self).state(key).decayed() by {
                if before.contains_key(key) {
                    assert(keys@.to_set().contains(key));
                    let j = choose|j: int| 0 <= j < keys@.len() && keys@[j] == key;
                    assert(self.entries@[keys@[j]] == before[keys@[j]].decayed());
                }
            }
        }
    }
}

} // verus!
