use vstd::prelude::*;
use crate::boot_facts::{Vm, Zones};
use crate::state::{condition_error, failed_condition, EventError, EventResult, Lifecycle, LifecycleEvent, State};

verus! {

pub struct PageAllocatorPrepare {
    pub lifecycle: Lifecycle,
}

impl PageAllocatorPrepare {
    pub fn new() -> (s: Self)
        ensures
            s.lifecycle@ == State::Base,
    {
        Self {
            lifecycle: Lifecycle::new(State::Base),
        }
    }

    pub fn state(&self) -> (r: State)
        ensures
            r == self.lifecycle@,
    {
        self.lifecycle.state()
    }

    pub fn setup(&mut self, memblock_state: State, vm: &Vm, zones: &Zones) -> (r: EventResult)
        ensures
            !(old(self).lifecycle@ != State::Base || memblock_state != State::Online || vm.state != State::Online || !vm.entry_successor_ready || zones.state != State::Ready ) ==> {
                &&& r == Ok::<(), EventError>(())
                &&& final(self).lifecycle@ == State::Ready
                &&& *final(self) == (PageAllocatorPrepare {
                    lifecycle: final(self).lifecycle,
                    ..*old(self)
                })
            },
            old(self).lifecycle@ != State::Base || memblock_state != State::Online || vm.state != State::Online || !vm.entry_successor_ready || zones.state != State::Ready  ==> {
                &&& r == Err::<(), EventError>(
                    condition_error(
                        LifecycleEvent::Setup,
                        old(self).lifecycle@,
                        State::Base,
                        State::Ready,
                    ),
                )
                &&& *final(self) == *old(self)
            },
    {
        if self.lifecycle.state() != State::Base || memblock_state != State::Online || vm.state != State::Online || !vm.entry_successor_ready || zones.state != State::Ready  {
            return failed_condition(
                LifecycleEvent::Setup,
                self.lifecycle.state(),
                State::Base,
                State::Ready,
            );
        }
        self.lifecycle.transition(LifecycleEvent::Setup, State::Base, State::Ready)
    }
}

} // verus!
