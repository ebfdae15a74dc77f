//! The fixed-size table of watched keys.
//!
//! A table is an ordered run of `N` entries. Its model is the sequence of those
//! entries; lookup goes by key and stops at the first slot that matches.

use vstd::prelude::*;

use crate::entry::KeyStateEntry;
use crate::key::Key;
use crate::state::ButtonState;

verus! {

/// Whether slot `i` of `entries` watches `key`.
pub open spec fn matches_at(entries: Seq<KeyStateEntry>, key: Key, i: int) -> bool {
    0 <= i < entries.len() && entries[i].key == key
}

/// Whether some slot of `entries` watches `key`.
pub open spec fn watches(entries: Seq<KeyStateEntry>, key: Key) -> bool {
    exists|i: int| matches_at(entries, key, i)
}

/// Whether slot `i` is the first slot of `entries` that watches `key`.
pub open spec fn is_first_match(entries: Seq<KeyStateEntry>, key: Key, i: int) -> bool {
    &&& matches_at(entries, key, i)
    &&& forall|j: int| 0 <= j < i ==> !matches_at(entries, key, j)
}

/// The first slot of `entries` that watches `key`, if any does.
pub open spec fn first_match(entries: Seq<KeyStateEntry>, key: Key) -> Option<int> {
    if watches(entries, key) {
        Some(choose|i: int| is_first_match(entries, key, i))
    } else {
        None
    }
}

/// Whether every entry is in the released state.
pub open spec fn all_released(entries: Seq<KeyStateEntry>) -> bool {
    forall|i: int| 0 <= i < entries.len() ==> (#[trigger] entries[i]).state == ButtonState::Released
}

/// Among the slots that watch `key`, one comes first.
pub proof fn lemma_some_match_is_first(entries: Seq<KeyStateEntry>, key: Key, i: int)
    requires
        matches_at(entries, key, i),
    ensures
        exists|f: int| 0 <= f <= i && is_first_match(entries, key, f),
    decreases i,
{
    if exists|j: int| 0 <= j < i && matches_at(entries, key, j) {
        let j = choose|j: int| 0 <= j < i && matches_at(entries, key, j);
        lemma_some_match_is_first(entries, key, j);
    } else {
        assert(is_first_match(entries, key, i));
    }
}

/// A slot that is the first to watch `key` is the one that `first_match` names.
pub proof fn lemma_first_match_is(entries: Seq<KeyStateEntry>, key: Key, i: int)
    requires
        is_first_match(entries, key, i),
    ensures
        first_match(entries, key) == Some(i),
{
    let f = choose|f: int| is_first_match(entries, key, f);
    assert(is_first_match(entries, key, f));
    if f < i {
        assert(!matches_at(entries, key, f));
    } else if i < f {
        assert(!matches_at(entries, key, i));
    }
}

/// What `first_match` names is a slot of the table, watches the key, and no
/// slot before it does.
pub proof fn lemma_first_match_some(entries: Seq<KeyStateEntry>, key: Key)
    requires
        watches(entries, key),
    ensures
        first_match(entries, key) matches Some(i) && is_first_match(entries, key, i),
{
    let m = choose|m: int| matches_at(entries, key, m);
    lemma_some_match_is_first(entries, key, m);
}

/// `N` watched keys, each with its state, in a fixed order.
#[derive(Debug, Clone, Copy)]
pub struct KeyStateTable<const N: usize>(pub [KeyStateEntry; N]);

impl<const N: usize> View for KeyStateTable<N> {
    type V = Seq<KeyStateEntry>;

    open spec fn view(&self) -> Seq<KeyStateEntry> {
        self.0@
    }
}

impl<const N: usize> KeyStateTable<N> {
    /// A table that watches `keys`, slot by slot, every one of them released.
    pub fn with_keys(keys: &[Key; N]) -> (table: KeyStateTable<N>)
        ensures
            table@.len() == N,
            forall|i: int|
                0 <= i < N ==> table@[i] == (KeyStateEntry {
                    key: keys@[i],
                    state: ButtonState::Released,
                }),
            all_released(table@),
    {
        let mut table = KeyStateTable::<N>::default();
        let mut i: usize = 0;
        while i < N
            invariant
                i <= N,
                table@.len() == N,
                all_released(table@),
                forall|j: int| 0 <= j < i ==> (#[trigger] table@[j]).key == keys@[j],
            decreases N - i,
        {
            table.0[i].set_key(keys[i]);
            i += 1;
        }
        table
    }

    /// Whether some slot holds exactly `entry`: the same key in the same state.
    pub fn contains_entry(&self, entry: &KeyStateEntry) -> (found: bool)
        ensures
            found == self@.contains(*entry),
    {
        let mut i: usize = 0;
        while i < N
            invariant
                i <= N,
                self@.len() == N,
                forall|j: int| 0 <= j < i ==> self@[j] != *entry,
            decreases N - i,
        {
            if self.0[i] == *entry {
                return true;
            }
            i += 1;
        }
        false
    }

    /// The first entry that watches `key`, to be changed in place.
    ///
    /// The scan runs over the slots in order. What the caller writes through
    /// the reference lands in that slot; every other slot keeps its entry.
    pub fn find_mut(&mut self, key: Key) -> (found: Option<&mut KeyStateEntry>)
        ensures
            found is Some <==> watches(old(self)@, key),
            found is None ==> final(self)@ == old(self)@,
            found matches Some(entry) ==> first_match(old(self)@, key) matches Some(i)
                && is_first_match(old(self)@, key, i) && *entry == old(self)@[i] && final(self)@
                == old(self)@.update(i, *final(entry)),
    {
        let mut i: usize = 0;
        while i < N
            invariant
                i <= N,
                *self == *old(self),
                self@.len() == N,
                forall|j: int| 0 <= j < i ==> !matches_at(self@, key, j),
            decreases N - i,
        {
            if self.0[i].key == key {
                proof {
                    lemma_first_match_is(self@, key, i as int);
                }
                return Some(&mut self.0[i]);
            }
            i += 1;
        }
        None
    }

    /// The first entry that watches the key of `probe`, to be changed in place.
    ///
    /// Only the key of `probe` is compared; its state plays no part.
    #[inline]
    pub fn find_entry_mut(&mut self, probe: &KeyStateEntry) -> (found: Option<&mut KeyStateEntry>)
        ensures
            found is Some <==> watches(old(self)@, probe.key),
            found is None ==> final(self)@ == old(self)@,
            found matches Some(entry) ==> first_match(old(self)@, probe.key) matches Some(i)
                && is_first_match(old(self)@, probe.key, i) && *entry == old(self)@[i]
                && final(self)@ == old(self)@.update(i, *final(entry)),
    {
        self.find_mut(probe.key)
    }
}

impl<const N: usize> Default for KeyStateTable<N> {
    /// A table in which no slot has been given its key yet: every slot holds the
    /// placeholder entry, released.
    fn default() -> (table: KeyStateTable<N>)
        ensures
            table@.len() == N,
            forall|i: int|
                0 <= i < N ==> table@[i] == (KeyStateEntry {
                    key: Key::Backspace,
                    state: ButtonState::Released,
                }),
            all_released(table@),
    {
        let blank = KeyStateEntry::default();
        KeyStateTable([blank; N])
    }
}

} // verus!
