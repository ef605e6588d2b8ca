use vstd::prelude::*;
use crate::boot_facts::CpuGroup;
use crate::state::{condition_error, failed_condition, EventError, EventResult, Lifecycle, LifecycleEvent, State};

verus! {

pub struct RiscvHwCap {
    pub lifecycle: Lifecycle,
}

impl RiscvHwCap {
    pub fn new() -> (s: Self)
        ensures
            s.lifecycle@ == State::Base,
    {
        Self {
            lifecycle: Lifecycle::new(State::Base),
        }
    }

    pub fn state(&self) -> (r: State)
        ensures
            r == self.lifecycle@,
    {
        self.lifecycle.state()
    }

    pub fn setup(&mut self, device_tree_state: State, cpu_group: &CpuGroup, cache_block_info_state: State) -> (r: EventResult)
        ensures
            !(old(self).lifecycle@ != State::Base || device_tree_state != State::Ready || cpu_group.state != State::Ready || cache_block_info_state != State::Ready ) ==> {
                &&& r == Ok::<(), EventError>(())
                &&& final(self).lifecycle@ == State::Ready
                &&& *final(self) == (RiscvHwCap {
                    lifecycle: final(self).lifecycle,
                    ..*old(self)
                })
            },
            old(self).lifecycle@ != State::Base || device_tree_state != State::Ready || cpu_group.state != State::Ready || cache_block_info_state != State::Ready  ==> {
                &&& r == Err::<(), EventError>(
                    condition_error(
                        LifecycleEvent::Setup,
                        old(self).lifecycle@,
                        State::Base,
                        State::Ready,
                    ),
                )
                &&& *final(self) == *old(self)
            },
    {
        if self.lifecycle.state() != State::Base || device_tree_state != State::Ready || cpu_group.state != State::Ready || cache_block_info_state != State::Ready  {
            return failed_condition(
                LifecycleEvent::Setup,
                self.lifecycle.state(),
                State::Base,
                State::Ready,
            );
        }
        self.lifecycle.transition(LifecycleEvent::Setup, State::Base, State::Ready)
    }
}

} // verus!
