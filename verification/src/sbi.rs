use vstd::prelude::*;
use crate::state::{condition_error, failed_condition, EventError, EventResult, Lifecycle, LifecycleEvent, State};

verus! {

pub struct Sbi {
    pub lifecycle: Lifecycle,
    pub hsm_available: bool,
}

impl Sbi {
    pub fn new() -> (s: Self)
        ensures
            s.lifecycle@ == State::Base,
            !s.hsm_available,
    {
        Self {
            lifecycle: Lifecycle::new(State::Base),
            hsm_available: false,
        }
    }

    pub fn state(&self) -> (r: State)
        ensures
            r == self.lifecycle@,
    {
        self.lifecycle.state()
    }

    pub fn hsm_available(&self) -> (r: bool)
        ensures
            r == self.hsm_available,
    {
        self.hsm_available
    }

    pub fn setup(&mut self) -> EventResult {
        self.hsm_available = true;
        self.lifecycle.transition(
            LifecycleEvent::Setup,
            State::Base,
            State::Ready)
    }
}

} // verus!
