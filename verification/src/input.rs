//! Discrete input events delivered by the host.

use vstd::prelude::*;

verus! {

/// Snapshot of the recognized keys, as a host might keep it.
pub struct UserInput {
    pub w: bool,
    pub a: bool,
    pub s: bool,
    pub d: bool,
    pub space: bool,
}

/// One key transition: the key's name and whether it was pressed or released.
pub struct UserInputEvent {
    pub key: String,
    pub pressed: bool,
}

impl UserInputEvent {
    pub fn new(key: String, pressed: bool) -> (r: Self)
        ensures
            r.key == key,
            r.pressed == pressed,
    {
        Self { key, pressed }
    }

    pub fn key(&self) -> (r: String)
        ensures
            r@ == self.key@,
    {
        self.key.clone()
    }
}

/// An entity that reacts to input events.  `updated` names the exact state
/// the event must leave the receiver in.
pub trait UserInputEventReciever: Sized {
    /// States in which the receiver accepts events.
    spec fn update_wf(&self) -> bool;

    /// The state after applying a key transition.
    spec fn updated(&self, key: Seq<char>, pressed: bool) -> Self;

    fn update(&mut self, user_input_event: &UserInputEvent)
        requires
            old(self).update_wf(),
        ensures
            *final(self) == old(self).updated(user_input_event.key@, user_input_event.pressed),
            final(self).update_wf(),
    ;
}

} // verus!
