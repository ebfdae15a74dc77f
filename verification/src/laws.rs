//! What holds of every table and every event.
//!
//! The statements about events speak of `after_event` and `reported`, the two
//! functions by which `EventDispatcher::dispatch` says what it does.

use vstd::prelude::*;

use crate::entry::KeyStateEntry;
use crate::key::Key;
use crate::dispatcher::{after_event, reported, RawEvent};
use crate::state::ButtonState;
use crate::table::{
    all_released, first_match, is_first_match, lemma_first_match_is, lemma_first_match_some,
    matches_at, watches,
};

verus! {

/// Giving a slot its key leaves every state as it was. A table that starts
/// out all released, as a fresh one does, is therefore still all released
/// after any run of key assignments.
pub proof fn lemma_key_assignment_keeps_released(
    entries: Seq<KeyStateEntry>,
    slot: int,
    key: Key,
)
    requires
        0 <= slot < entries.len(),
        all_released(entries),
    ensures
        all_released(entries.update(slot, (KeyStateEntry { key, state: entries[slot].state }))),
{
    let assigned = entries.update(slot, (KeyStateEntry { key, state: entries[slot].state }));
    assert forall|i: int| 0 <= i < assigned.len() implies (#[trigger] assigned[i]).state
        == ButtonState::Released by {
        assert(entries[i].state == ButtonState::Released);
    }
}

/// Swapping a state twice gives the state back, and swapping it once gives
/// the other one.
pub proof fn lemma_invert_twice_is_identity(state: ButtonState)
    ensures
        state.inverted().inverted() == state,
        state.inverted() != state,
{
}

/// An event never adds a slot, removes one, or gives a slot another key: the
/// watched keys are those that the table started with.
pub proof fn lemma_event_keeps_keys(entries: Seq<KeyStateEntry>, event: RawEvent)
    ensures
        after_event(entries, event).len() == entries.len(),
        forall|j: int|
            0 <= j < entries.len() ==> (#[trigger] after_event(entries, event)[j]).key
                == entries[j].key,
{
    if let Some(key) = event.key() {
        if watches(entries, key) {
            lemma_first_match_some(entries, key);
        }
    }
}

/// An event that is about no key, or about a key that no slot watches, changes
/// no entry and is not reported.
pub proof fn lemma_unmatched_event_is_ignored(entries: Seq<KeyStateEntry>, event: RawEvent)
    requires
        event.key() matches Some(key) ==> !watches(entries, key),
    ensures
        after_event(entries, event) == entries,
        reported(entries, event) is None,
{
}

/// An event for a watched key, press or release, swaps the state of the first
/// entry that watches the key and leaves every other entry as it was. The
/// report names that key and the state its entry has afterwards.
pub proof fn lemma_matched_event_changes_one_entry(
    entries: Seq<KeyStateEntry>,
    event: RawEvent,
    key: Key,
)
    requires
        event.key() == Some(key),
        watches(entries, key),
    ensures
        first_match(entries, key) matches Some(i) && is_first_match(entries, key, i)
            && after_event(entries, event) == entries.update(i, entries[i].inverted()),
        first_match(entries, key) matches Some(i) && reported(entries, event) matches Some(change)
            && change.key == key && change.state == after_event(entries, event)[i].state,
        forall|j: int|
            0 <= j < entries.len() && first_match(entries, key) != Some(j) ==> (
            #[trigger] after_event(entries, event)[j]) == entries[j],
        forall|j: int|
            0 <= j < entries.len() && entries[j].key != key ==> (
            #[trigger] after_event(entries, event)[j]) == entries[j],
{
    lemma_first_match_some(entries, key);
}

/// Where several slots watch one key, an event for it reaches only the first
/// of them: a later one keeps its entry.
pub proof fn lemma_first_match_wins(
    entries: Seq<KeyStateEntry>,
    event: RawEvent,
    key: Key,
    earlier: int,
    later: int,
)
    requires
        event.key() == Some(key),
        matches_at(entries, key, earlier),
        matches_at(entries, key, later),
        earlier < later,
    ensures
        after_event(entries, event)[later] == entries[later],
        first_match(entries, key) matches Some(i) && i <= earlier && after_event(entries, event)[i]
            == entries[i].inverted(),
{
    lemma_first_match_some(entries, key);
}

/// Two events for the same key, each a press or a release, put the table back
/// as it was before the two; the second report names the state that the entry
/// had to begin with.
pub proof fn lemma_two_events_restore(
    entries: Seq<KeyStateEntry>,
    first: RawEvent,
    second: RawEvent,
    key: Key,
)
    requires
        first.key() == Some(key),
        second.key() == Some(key),
    ensures
        after_event(after_event(entries, first), second) == entries,
        first_match(entries, key) matches Some(i) ==> reported(after_event(entries, first), second)
            matches Some(change) && change.key == key && change.state == entries[i].state,
{
    let mid = after_event(entries, first);
    lemma_event_keeps_keys(entries, first);
    if watches(entries, key) {
        lemma_first_match_some(entries, key);
        let i = first_match(entries, key)->0;
        assert(is_first_match(mid, key, i)) by {
            assert forall|j: int| 0 <= j < i implies !matches_at(mid, key, j) by {
                assert(!matches_at(entries, key, j));
            }
        }
        lemma_first_match_is(mid, key, i);
        assert(after_event(mid, second) =~= entries);
    } else {
        assert forall|m: int| !matches_at(mid, key, m) by {
            assert(!matches_at(entries, key, m));
        }
    }
}

} // verus!
