//! Input state: per-frame key states and the binds that map semantic
//! actions to physical keys.

use vstd::prelude::*;

use std::collections::HashMap;

verus! {

broadcast use vstd::std_specs::hash::group_hash_axioms;

/// The physical input devices being sampled.
pub struct InputDevices {}

/// A snapshot of sampled inputs.
#[derive(Clone)]
pub struct Inputs {}

/// Sample all input devices once, producing the next snapshot.
pub fn tick(_devices: &mut InputDevices, _inputs: Inputs) -> (r: Inputs)
    ensures
        r == (Inputs {  }),
{
    Inputs {  }
}

/// The state of one key within one frame.
#[derive(Clone, Copy, PartialEq, Eq, Structural, Debug)]
pub enum KeyState {
    /// Pressed this frame.
    Pressed,
    /// Still held from a previous frame.
    Held,
    /// Raised this frame.
    Raised,
    /// Still unheld from a previous frame.
    Unheld,
}

/// Identifies a unique physical key on the keyboard, by scancode.
pub type Key = u64;

/// Identifies an input bind: a semantic action such as "quit" or
/// "new game", mapped onto a physical key.
pub type Keybind = i64;

/// The key states observed in one frame.
pub struct InputData {
    pub keys: HashMap<Key, KeyState>,
}

impl InputData {
    pub fn new() -> (r: InputData)
        ensures
            r.keys@ == Map::<Key, KeyState>::empty(),
    {
        InputData { keys: HashMap::new() }
    }

    /// Record the state of one key for this frame.
    pub fn set_key(&mut self, key: Key, state: KeyState)
        ensures
            final(self).keys@ == old(self).keys@.insert(key, state),
    {
        self.keys.insert(key, state);
    }
}

/// Input history: a window of frames, the index of the active one, and the
/// configured binds.
pub struct Input {
    pub frames: Vec<InputData>,
    pub active_frame: usize,
    pub keybinds: HashMap<Keybind, Key>,
}

impl Input {
    /// Whether `bind` is mapped to a key that was pressed in the active
    /// frame.
    pub open spec fn spec_bind_pressed(&self, bind: Keybind) -> bool {
        &&& self.keybinds@.contains_key(bind)
        &&& {
            let key = self.keybinds@[bind];
            &&& self.frames@[self.active_frame as int].keys@.contains_key(key)
            &&& self.frames@[self.active_frame as int].keys@[key] == KeyState::Pressed
        }
    }

    pub fn new(frames: Vec<InputData>, active_frame: usize) -> (r: Input)
        ensures
            r.frames@ == frames@,
            r.active_frame == active_frame,
            r.keybinds@ == Map::<Keybind, Key>::empty(),
    {
        Input { frames, active_frame, keybinds: HashMap::new() }
    }

    /// Map a bind onto a physical key.
    pub fn bind(&mut self, bind: Keybind, key: Key)
        ensures
            final(self).keybinds@ == old(self).keybinds@.insert(bind, key),
            final(self).frames@ == old(self).frames@,
            final(self).active_frame == old(self).active_frame,
    {
        self.keybinds.insert(bind, key);
    }

    /// The key states of the active frame.
    pub fn active_frame(&self) -> (r: &InputData)
        requires
            self.active_frame < self.frames@.len(),
        ensures
            *r == self.frames@[self.active_frame as int],
    {
        &self.frames[self.active_frame]
    }

    /// The key `bind` is mapped to, if any.
    pub fn key_bound(&self, bind: &Keybind) -> (r: Option<&Key>)
        ensures
            match r {
                Some(k) => self.keybinds@.contains_key(*bind) && *k == self.keybinds@[*bind],
                None => !self.keybinds@.contains_key(*bind),
            },
    {
        self.keybinds.get(bind)
    }

    /// Whether the key bound to `bind` was pressed in the active frame.
    pub fn bind_pressed(&self, bind: &Keybind) -> (r: bool)
        requires
            self.active_frame < self.frames@.len(),
        ensures
            r == self.spec_bind_pressed(*bind),
    {
        let state = match self.key_bound(bind) {
            Some(key) => self.active_frame().keys.get(key),
            None => None,
        };
        match state {
            Some(s) => *s == KeyState::Pressed,
            None => false,
        }
    }
}

} // verus!
