//! The tree of physical resources, set up once memory, the kernel image and the linker
//! layout are known.
use vstd::prelude::*;
use crate::lds::Lds;
use crate::memblock::MemBlock;
use crate::state::{condition_error, failed_condition, EventError, EventResult, Lifecycle, LifecycleEvent, State};

verus! {

pub struct ResourceTree {
    pub lifecycle: Lifecycle,
}

impl ResourceTree {
    pub fn new() -> (s: Self)
        ensures
            s.lifecycle@ == State::Base,
    {
        Self { lifecycle: Lifecycle::new(State::Base) }
    }

    pub fn state(&self) -> (r: State)
        ensures
            r == self.lifecycle@,
    {
        self.lifecycle.state()
    }

    /// Sets the tree up over online memory, an online kernel image and an online linker
    /// layout whose kernel image is not empty.
    pub fn setup(&mut self, memblock: &MemBlock, kernel_image_state: State, lds: &Lds) -> (r: EventResult)
        ensures
            ({
                let ok = old(self).lifecycle@ == State::Base && memblock.lifecycle@ == State::Online
                    && kernel_image_state == State::Online && lds.lifecycle@ == State::Online
                    && lds.symbols.kernel_end > lds.symbols.kernel_start;
                &&& !ok ==> r == Err::<(), EventError>(
                    condition_error(LifecycleEvent::Setup, old(self).lifecycle@, State::Base, State::Ready),
                ) && final(self).lifecycle == old(self).lifecycle
                &&& ok ==> r == Ok::<(), EventError>(()) && final(self).lifecycle@ == State::Ready
            }),
    {
        if self.lifecycle.state() != State::Base || memblock.lifecycle.state() != State::Online
            || kernel_image_state != State::Online || lds.lifecycle.state() != State::Online
            || lds.symbols.kernel_end <= lds.symbols.kernel_start {
            return failed_condition(
                LifecycleEvent::Setup,
                self.lifecycle.state(),
                State::Base,
                State::Ready,
            );
        }
        self.lifecycle.transition(LifecycleEvent::Setup, State::Base, State::Ready)
    }
}

} // verus!
