use crate::key::Key;
use std::collections::HashMap;
use vstd::prelude::*;

verus! {

broadcast use vstd::std_specs::hash::group_hash_axioms;

/// Whether `key` counts as held down in the recorded state `state`. A key that
/// was never recorded is not pressed, exactly as one recorded as released.
pub open spec fn pressed(state: Map<Key, bool>, key: Key) -> bool {
    state.contains_key(key) && state[key]
}

/// Whether either shift key is pressed in `state`.
pub open spec fn shift_held(state: Map<Key, bool>) -> bool {
    pressed(state, Key::LShift) || pressed(state, Key::RShift)
}

/// Whether either meta key is pressed in `state`.
pub open spec fn win_held(state: Map<Key, bool>) -> bool {
    pressed(state, Key::LWin) || pressed(state, Key::RWin)
}

/// Whether either alt key is pressed in `state`.
pub open spec fn alt_held(state: Map<Key, bool>) -> bool {
    pressed(state, Key::LAlt) || pressed(state, Key::RAlt)
}

/// Whether either control key is pressed in `state`.
pub open spec fn ctrl_held(state: Map<Key, bool>) -> bool {
    pressed(state, Key::LControl) || pressed(state, Key::RControl)
}

/// The current pressed/released state of the keys of a keyboard: a flat
/// snapshot, updated by one call per key transition. Its view maps each key
/// that was ever recorded to the flag recorded last.
pub struct Keyboard {
    keys: HashMap<u32, bool>,
}

impl View for Keyboard {
    type V = Map<Key, bool>;

    closed spec fn view(&self) -> Map<Key, bool> {
        Map::new(
            |key: Key| self.keys@.contains_key(key.spec_code()),
            |key: Key| self.keys@[key.spec_code()],
        )
    }
}

impl Keyboard {
    /// A tracker in which no key has been recorded yet.
    pub fn new() -> (keyboard: Self)
        ensures
            keyboard@ == Map::<Key, bool>::empty(),
    {
        let keyboard = Keyboard { keys: HashMap::with_capacity(32) };
        assert(keyboard@ =~= Map::<Key, bool>::empty());
        keyboard
    }

    /// Records `pressed` as the state of `key`, overwriting what was recorded
    /// for that key and nothing else.
    pub fn set_key(&mut self, key: Key, pressed: bool)
        ensures
            final(self)@ == old(self)@.insert(key, pressed),
    {
        self.keys.insert(key.code(), pressed);
        proof {
            assert forall|other: Key| other.spec_code() == key.spec_code() implies other == key by {
                Key::lemma_code_injective(other, key);
            }
            assert(self@ =~= old(self)@.insert(key, pressed));
        }
    }

    /// Whether `key` is currently pressed.
    pub fn get_key(&self, key: &Key) -> (held: bool)
        ensures
            held == pressed(self@, *key),
    {
        let code = key.code();
        match self.keys.get(&code) {
            Some(flag) => *flag,
            None => false,
        }
    }

    /// Whether the left or the right shift key is pressed.
    pub fn get_shift(&self) -> (held: bool)
        ensures
            held == shift_held(self@),
    {
        self.get_key(&Key::LShift) || self.get_key(&Key::RShift)
    }

    /// Whether the left or the right meta key is pressed.
    pub fn get_win(&self) -> (held: bool)
        ensures
            held == win_held(self@),
    {
        self.get_key(&Key::LWin) || self.get_key(&Key::RWin)
    }

    /// Whether the left or the right alt key is pressed.
    pub fn get_alt(&self) -> (held: bool)
        ensures
            held == alt_held(self@),
    {
        self.get_key(&Key::LAlt) || self.get_key(&Key::RAlt)
    }

    /// Whether the left or the right control key is pressed.
    pub fn get_ctrl(&self) -> (held: bool)
        ensures
            held == ctrl_held(self@),
    {
        self.get_key(&Key::LControl) || self.get_key(&Key::RControl)
    }
}

/// The state on record after the transitions `events`, oldest first, were
/// applied in turn to a tracker that started empty.
pub open spec fn replay(events: Seq<(Key, bool)>) -> Map<Key, bool>
    decreases events.len(),
{
    if events.len() == 0 {
        Map::empty()
    } else {
        replay(events.drop_last()).insert(events.last().0, events.last().1)
    }
}

/// The flag of the most recent transition of `key` among `events`, if there is
/// one.
pub open spec fn latest(events: Seq<(Key, bool)>, key: Key) -> Option<bool>
    decreases events.len(),
{
    if events.len() == 0 {
        None
    } else if events.last().0 == key {
        Some(events.last().1)
    } else {
        latest(events.drop_last(), key)
    }
}

/// Applying one more transition is one more `insert` on the recorded state.
pub proof fn lemma_replay_push(events: Seq<(Key, bool)>, key: Key, flag: bool)
    ensures
        replay(events.push((key, flag))) == replay(events).insert(key, flag),
{
    assert(events.push((key, flag)).drop_last() =~= events);
}

/// After any history, a key is recorded exactly if some transition named it,
/// and it reads as pressed exactly if its most recent transition pressed it.
pub proof fn lemma_replay_follows_latest(events: Seq<(Key, bool)>, key: Key)
    ensures
        replay(events).contains_key(key) == latest(events, key).is_some(),
        pressed(replay(events), key) == (latest(events, key) == Some(true)),
    decreases events.len(),
{
    if events.len() > 0 {
        lemma_replay_follows_latest(events.drop_last(), key);
    }
}

/// A key that no transition ever named reads as released.
pub proof fn lemma_untouched_key_is_released(events: Seq<(Key, bool)>, key: Key)
    requires
        forall|i: int| 0 <= i < events.len() ==> events[i].0 != key,
    ensures
        !pressed(replay(events), key),
    decreases events.len(),
{
    if events.len() > 0 {
        lemma_untouched_key_is_released(events.drop_last(), key);
    }
}

/// Right after a key was set it reads as the flag it was set to, whatever was
/// on record before, and every other key reads as it did.
pub proof fn lemma_set_then_get(state: Map<Key, bool>, key: Key, flag: bool)
    ensures
        pressed(state.insert(key, flag), key) == flag,
        forall|other: Key|
            other != key ==> pressed(state.insert(key, flag), other) == pressed(state, other),
{
}

/// The same holds at the end of any history of transitions: the key set last
/// reads as the flag it was set to.
pub proof fn lemma_last_write_wins(events: Seq<(Key, bool)>, key: Key, flag: bool)
    ensures
        pressed(replay(events.push((key, flag))), key) == flag,
{
    lemma_replay_push(events, key, flag);
}

/// Each modifier query is true exactly if the most recent transition of the
/// left key or that of the right key pressed it; a side that was never set
/// counts as released.
pub proof fn lemma_modifiers_follow_latest(events: Seq<(Key, bool)>)
    ensures
        shift_held(replay(events)) == (latest(events, Key::LShift) == Some(true) || latest(
            events,
            Key::RShift,
        ) == Some(true)),
        win_held(replay(events)) == (latest(events, Key::LWin) == Some(true) || latest(
            events,
            Key::RWin,
        ) == Some(true)),
        alt_held(replay(events)) == (latest(events, Key::LAlt) == Some(true) || latest(
            events,
            Key::RAlt,
        ) == Some(true)),
        ctrl_held(replay(events)) == (latest(events, Key::LControl) == Some(true) || latest(
            events,
            Key::RControl,
        ) == Some(true)),
{
    lemma_replay_follows_latest(events, Key::LShift);
    lemma_replay_follows_latest(events, Key::RShift);
    lemma_replay_follows_latest(events, Key::LWin);
    lemma_replay_follows_latest(events, Key::RWin);
    lemma_replay_follows_latest(events, Key::LAlt);
    lemma_replay_follows_latest(events, Key::RAlt);
    lemma_replay_follows_latest(events, Key::LControl);
    lemma_replay_follows_latest(events, Key::RControl);
}

/// Setting a key to the same flag twice in a row leaves the same state as
/// setting it once.
pub proof fn lemma_set_key_idempotent(state: Map<Key, bool>, key: Key, flag: bool)
    ensures
        state.insert(key, flag).insert(key, flag) == state.insert(key, flag),
{
    assert(state.insert(key, flag).insert(key, flag) =~= state.insert(key, flag));
}

} // verus!
