//! The playback gate: a one-shot flag that releases audio playback once the
//! first video frame has been shown.

use vstd::prelude::*;

verus! {

/// A flag that starts closed, can be opened, and never closes again.
#[derive(Clone, Copy, Debug)]
pub struct PlaybackGate {
    open: bool,
}

impl PlaybackGate {
    /// Whether the playback gate is open.
    pub closed spec fn is_open_spec(&self) -> bool {
        self.open
    }

    /// A closed gate.
    pub fn new() -> (gate: PlaybackGate)
        ensures
            !gate.is_open_spec(),
    {
        PlaybackGate { open: false }
    }

    /// Whether the playback gate is open.
    #[verifier::when_used_as_spec(is_open_spec)]
    pub fn is_open(&self) -> (open: bool)
        ensures
            open == self.is_open_spec(),
    {
        self.open
    }

    /// Opens the playback gate. Returns `true` when this call made the transition
    /// from closed to open, `false` when the playback gate was open already.
    pub fn open(&mut self) -> (opened_now: bool)
        ensures
            final(self).is_open_spec(),
            opened_now == !old(self).is_open_spec(),
    {
        let was_open = self.open;
        self.open = true;
        !was_open
    }
}

} // verus!
