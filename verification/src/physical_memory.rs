use vstd::prelude::*;
use crate::phys_range_set::PhysRangeSet;
use crate::raw_dtb::RawDtb;
use crate::state::{
    condition_error, failed_condition, transition_result, transition_state, EventError,
    EventResult, Lifecycle, LifecycleEvent, State,
};

verus! {

/// The RAM ranges that the device tree reports.
pub struct PhysicalMemory {
    pub lifecycle: Lifecycle,
    pub ram: PhysRangeSet,
}

impl PhysicalMemory {
    pub fn new() -> (s: Self)
        ensures
            s.lifecycle@ == State::Base,
            s.ram.wf(),
            s.ram@ == Seq::<crate::raw_dtb::PhysRange>::empty(),
    {
        Self { lifecycle: Lifecycle::new(State::Base), ram: PhysRangeSet::empty() }
    }

    pub fn state(&self) -> (r: State)
        ensures
            r == self.lifecycle@,
    {
        self.lifecycle.state()
    }

    pub fn ram(&self) -> (r: &PhysRangeSet)
        ensures
            *r == self.ram,
    {
        &self.ram
    }

    /// Takes over the memory ranges parsed from the device tree; at least one is required.
    pub fn preset(&mut self, raw_dtb: &RawDtb, memory: &PhysRangeSet) -> (r: EventResult)
        ensures
            raw_dtb.lifecycle@ != State::Ready || memory.count == 0 ==> r == Err::<(), EventError>(
                condition_error(
                    LifecycleEvent::Preset,
                    old(self).lifecycle@,
                    State::Base,
                    State::Ready,
                ),
            ) && *final(self) == *old(self),
            raw_dtb.lifecycle@ == State::Ready && memory.count != 0 ==> r == transition_result(
                LifecycleEvent::Preset,
                old(self).lifecycle@,
                State::Base,
                State::Ready,
            ) && final(self).lifecycle@ == transition_state(
                old(self).lifecycle@,
                State::Base,
                State::Ready,
            ) && final(self).ram == *memory,
    {
        if raw_dtb.state() != State::Ready || memory.count() == 0 {
            return failed_condition(
                LifecycleEvent::Preset,
                self.lifecycle.state(),
                State::Base,
                State::Ready,
            );
        }
        self.ram = *memory;
        self.lifecycle.transition(LifecycleEvent::Preset, State::Base, State::Ready)
    }

    pub fn enable(&mut self) -> (r: EventResult)
        ensures
            r == transition_result(
                LifecycleEvent::Enable,
                old(self).lifecycle@,
                State::Ready,
                State::Online,
            ),
            final(self).lifecycle@ == transition_state(
                old(self).lifecycle@,
                State::Ready,
                State::Online,
            ),
            final(self).ram == old(self).ram,
    {
        self.lifecycle.transition(LifecycleEvent::Enable, State::Ready, State::Online)
    }
}

} // verus!
