//! Durable Armed/Paused intent and the Quit auto-start opt-out.
use vstd::prelude::*;

verus! {

/// Durable Armed/Paused and Quit auto-start opt-out store.
pub trait ArmedStateStoring {
    fn clear_quit_opt_out(&mut self);

    fn is_armed(&self) -> bool;

    fn quit_opted_out(&self) -> bool;

    fn set_armed(&mut self, armed: bool);

    fn set_quit_opted_out(&mut self, opted_out: bool);
}

/// The Armed intent and Quit opt-out a store keeps.
#[derive(Clone, Copy, Debug, PartialEq, Eq, Structural)]
pub struct ArmedState {
    pub armed: bool,
    pub quit_opted_out: bool,
}

impl Default for ArmedState {
    /// A Device with nothing stored yet is Armed and not opted out.
    fn default() -> (r: ArmedState)
        ensures
            r.armed,
            !r.quit_opted_out,
    {
        ArmedState { armed: true, quit_opted_out: false }
    }
}

/// In-memory Armed store.
#[derive(Debug)]
pub struct InMemoryArmedStateStore {
    state: ArmedState,
}

impl View for InMemoryArmedStateStore {
    type V = ArmedState;

    closed spec fn view(&self) -> ArmedState {
        self.state
    }
}

impl Default for InMemoryArmedStateStore {
    /// A fresh store is Armed and not opted out.
    fn default() -> (r: InMemoryArmedStateStore)
        ensures
            r@ == (ArmedState { armed: true, quit_opted_out: false }),
    {
        InMemoryArmedStateStore { state: ArmedState::default() }
    }
}

impl ArmedStateStoring for InMemoryArmedStateStore {
    fn is_armed(&self) -> (r: bool)
        ensures
            r == self@.armed,
    {
        self.state.armed
    }

    fn set_armed(&mut self, armed: bool)
        ensures
            final(self)@ == (ArmedState { armed, ..old(self)@ }),
    {
        self.state.armed = armed;
    }

    fn quit_opted_out(&self) -> (r: bool)
        ensures
            r == self@.quit_opted_out,
    {
        self.state.quit_opted_out
    }

    fn set_quit_opted_out(&mut self, opted_out: bool)
        ensures
            final(self)@ == (ArmedState { quit_opted_out: opted_out, ..old(self)@ }),
    {
        self.state.quit_opted_out = opted_out;
    }

    fn clear_quit_opt_out(&mut self)
        ensures
            final(self)@ == (ArmedState { quit_opted_out: false, ..old(self)@ }),
    {
        self.state.quit_opted_out = false;
    }
}

} // verus!
