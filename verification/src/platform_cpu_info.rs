//! The set of harts that the platform describes, accepted once it holds the boot hart.
use vstd::prelude::*;
use crate::raw_dtb::RawDtb;
use crate::state::{
    condition_error, failed_condition, transition_result, transition_state, EventError, EventResult,
    Lifecycle, LifecycleEvent, State,
};

verus! {

pub struct PlatformCpuInfo {
    pub lifecycle: Lifecycle,
    /// The hart ids that the device tree lists.
    pub harts: Vec<usize>,
}

impl PlatformCpuInfo {
    pub fn new() -> (s: Self)
        ensures
            s.lifecycle@ == State::Base,
            s.harts@.len() == 0,
    {
        Self { lifecycle: Lifecycle::new(State::Base), harts: Vec::new() }
    }

    /// Whether `hartid` is a hart of the platform, once the information is online.
    pub fn contains(&self, hartid: usize) -> (r: bool)
        ensures
            r == (self.lifecycle@ == State::Online && self.harts@.contains(hartid)),
    {
        if self.lifecycle.state() != State::Online {
            return false;
        }
        let mut i: usize = 0;
        while i < self.harts.len()
            invariant
                self.lifecycle@ == State::Online,
                i <= self.harts@.len(),
                forall|j: int| 0 <= j < i ==> self.harts@[j] != hartid,
            decreases self.harts@.len() - i,
        {
            if self.harts[i] == hartid {
                assert(self.harts@[i as int] == hartid);
                assert(self.harts@.contains(hartid));
                return true;
            }
            i += 1;
        }
        assert(!self.harts@.contains(hartid)) by {
            if self.harts@.contains(hartid) {
                let j = choose|j: int| 0 <= j < self.harts@.len() && self.harts@[j] == hartid;
                assert(self.harts@[j] != hartid);
            }
        }
        false
    }

    /// Takes the harts that the device tree facts list (`harts`), which must be non-empty
    /// and hold the boot hart.
    pub fn preset(&mut self, raw_dtb: &RawDtb, harts: &Vec<usize>, boot_hartid: usize) -> (r: EventResult)
        ensures
            raw_dtb.lifecycle@ != State::Ready || harts@.len() == 0 || !harts@.contains(boot_hartid)
                ==> r == Err::<(), EventError>(
                condition_error(LifecycleEvent::Preset, old(self).lifecycle@, State::Base, State::Ready),
            ) && final(self).lifecycle == old(self).lifecycle && final(self).harts@ == old(self).harts@,
            !(raw_dtb.lifecycle@ != State::Ready || harts@.len() == 0 || !harts@.contains(boot_hartid))
                ==> r == transition_result(
                LifecycleEvent::Preset,
                old(self).lifecycle@,
                State::Base,
                State::Ready,
            ) && final(self).lifecycle@ == transition_state(
                old(self).lifecycle@,
                State::Base,
                State::Ready,
            ) && final(self).harts@ == harts@,
    {
        let mut found = false;
        let mut i: usize = 0;
        while i < harts.len()
            invariant
                i <= harts@.len(),
                found == exists|j: int| 0 <= j < i && harts@[j] == boot_hartid,
            decreases harts@.len() - i,
        {
            if harts[i] == boot_hartid {
                found = true;
            }
            i += 1;
        }
        if raw_dtb.state() != State::Ready || harts.len() == 0 || !found {
            return failed_condition(
                LifecycleEvent::Preset,
                self.lifecycle.state(),
                State::Base,
                State::Ready,
            );
        }
        self.harts = harts.clone();
        self.lifecycle.transition(LifecycleEvent::Preset, State::Base, State::Ready)
    }

    pub fn enable(&mut self) -> (r: EventResult)
        ensures
            r == transition_result(LifecycleEvent::Enable, old(self).lifecycle@, State::Ready, State::Online),
            final(self).lifecycle@ == transition_state(old(self).lifecycle@, State::Ready, State::Online),
            final(self).harts@ == old(self).harts@,
    {
        self.lifecycle.transition(LifecycleEvent::Enable, State::Ready, State::Online)
    }
}

} // verus!
