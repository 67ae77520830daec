//! The keys that the receiver holds down on the Linux side.

use vstd::prelude::*;
use crate::protocol::KeyState;
use std::collections::BTreeSet;
use vstd::std_specs::iter::IteratorSpec;
use vstd::std_specs::cmp::OrdSpec;

verus! {

broadcast use {vstd::std_specs::btree::group_btree_axioms, vstd::laws_cmp::group_laws_cmp};

/// The set of key codes pressed and not yet released.
pub struct PressedKeys {
    keys: BTreeSet<u16>,
}

impl View for PressedKeys {
    type V = Set<u16>;

    closed spec fn view(&self) -> Set<u16> {
        self.keys@
    }
}

/// The value of an input event: 0 releases a key, 1 presses it, 2 repeats it.
pub open spec fn pressed_after(keys: Set<u16>, key: u16, value: i32) -> Set<u16> {
    if value == 0 {
        keys.remove(key)
    } else if value == 1 {
        keys.insert(key)
    } else {
        keys
    }
}

/// The keys that a set iterator yields come in strictly increasing order.
proof fn lemma_increasing_keys(s: Seq<&u16>)
    requires
        vstd::std_specs::btree::increasing_seq(s),
    ensures
        forall|i: int, j: int| 0 <= i < j < s.len() ==> *s[i] < *s[j],
{
    assert(vstd::laws_cmp::obeys_cmp::<u16>());
    assert(vstd::laws_cmp::obeys_cmp::<&u16>());
    vstd::std_specs::btree::axiom_increasing_seq_meaning::<&u16>(s);
    assert forall|i: int, j: int| 0 <= i < j < s.len() implies *s[i] < *s[j] by {
        assert(OrdSpec::cmp_spec(&s[i], &s[j]) is Less);
        assert(OrdSpec::cmp_spec(s[i], s[j]) is Less);
    }
}

impl PressedKeys {
    /// No key pressed.
    pub fn new() -> (p: PressedKeys)
        ensures
            p@ == Set::<u16>::empty(),
    {
        PressedKeys { keys: BTreeSet::new() }
    }

    /// Records an event about to be injected: a release (0) forgets the key,
    /// a press (1) remembers it, a repeat changes nothing.
    pub fn record(&mut self, key: u16, value: i32)
        ensures
            final(self)@ == pressed_after(old(self)@, key, value),
    {
        if value == 0 {
            self.keys.remove(&key);
        } else if value == 1 {
            self.keys.insert(key);
        }
    }

    /// Tracks a physical key on the sending side: a press of a key that is
    /// not held is `Down`, a press of a held key is `Repeat`, and a release is
    /// `Up`.
    pub fn key_state(&mut self, key: u16, down: bool) -> (s: KeyState)
        ensures
            down ==> s == (if old(self)@.contains(key) {
                KeyState::Repeat
            } else {
                KeyState::Down
            }) && final(self)@ == old(self)@.insert(key),
            !down ==> s == KeyState::Up && final(self)@ == old(self)@.remove(key),
    {
        if down {
            if self.keys.insert(key) {
                KeyState::Down
            } else {
                KeyState::Repeat
            }
        } else {
            self.keys.remove(&key);
            KeyState::Up
        }
    }

    /// Forgets every pressed key.
    pub fn clear(&mut self)
        ensures
            final(self)@ == Set::<u16>::empty(),
    {
        self.keys.clear();
    }

    /// Forgets every pressed key and returns them in increasing order, the
    /// order in which they are to be released.
    pub fn take_all(&mut self) -> (released: Vec<u16>)
        ensures
            final(self)@ == Set::<u16>::empty(),
            released@.to_set() == old(self)@,
            released@.len() == old(self)@.len(),
            forall|i: int, j: int| 0 <= i < j < released@.len() ==> released@[i] < released@[j],
    {
        let mut released: Vec<u16> = Vec::new();
        let ghost all = vstd::std_specs::btree::spec_btree_keys_iter(&self.keys).remaining();
        for k in it: self.keys.iter()
            invariant
                it.seq() == all,
                released@ == all.take(it.index()).unref(),
        {
            released.push(*k);
            assert(all.take(it.index() + 1).unref() =~= all.take(it.index()).unref().push(*k));
        }
        assert(all.take(all.len() as int) =~= all);
        assert(released@ =~= all.unref());
        proof {
            lemma_increasing_keys(all);
        }
        self.keys.clear();
        released
    }
}

} // verus!
