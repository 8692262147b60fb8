//! The arm-state guard: a single mutable cell holding the process-wide
//! "armed" flag. All access goes through `read` and `set`; the flag starts
//! out disarmed and is never persisted.
use vstd::prelude::*;

verus! {

/// The sole piece of shared mutable state in the gateway: whether the
/// security system is currently armed. Its view is the boolean value of
/// the flag.
pub struct ArmState {
    armed: bool,
}

impl View for ArmState {
    type V = bool;

    closed spec fn view(&self) -> bool {
        self.armed
    }
}

impl ArmState {
    /// A fresh guard is disarmed: events submitted before any command
    /// arrives are ignored.
    pub fn new() -> (s: ArmState)
        ensures
            !s@,
    {
        ArmState { armed: false }
    }

    /// Returns the current value of the flag; never fails.
    pub fn read(&self) -> (b: bool)
        ensures
            b == self@,
    {
        self.armed
    }

    /// Replaces the flag; never fails. Last writer wins.
    pub fn set(&mut self, value: bool)
        ensures
            final(self)@ == value,
    {
        self.armed = value;
    }
}

} // verus!
