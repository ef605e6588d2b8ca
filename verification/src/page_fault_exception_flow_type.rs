//! One page-fault occurrence: its access kind and source decoded from the trap, the
//! context it arrived in, and whether it is fixed up, fatal or schedulable.
use vstd::prelude::*;
use crate::state::{
    condition_error, failed_condition, transition_result, transition_state, EventError, EventResult,
    Lifecycle, LifecycleEvent, State,
};

verus! {

pub const EXC_INSTRUCTION_PAGE_FAULT: usize = 12;
pub const EXC_LOAD_PAGE_FAULT: usize = 13;
pub const EXC_STORE_PAGE_FAULT: usize = 15;

#[derive(Clone, Copy, PartialEq, Eq, Structural, Debug)]
pub enum PageFaultAccess {
    Execute,
    Read,
    Write,
}

#[derive(Clone, Copy, PartialEq, Eq, Structural, Debug)]
pub enum PageFaultSource {
    User,
    Kernel,
}

/// The access that a page-fault cause names, if it is one.
pub open spec fn access_of_cause(scause: usize) -> Option<PageFaultAccess> {
    if scause == EXC_INSTRUCTION_PAGE_FAULT {
        Some(PageFaultAccess::Execute)
    } else if scause == EXC_LOAD_PAGE_FAULT {
        Some(PageFaultAccess::Read)
    } else if scause == EXC_STORE_PAGE_FAULT {
        Some(PageFaultAccess::Write)
    } else {
        None
    }
}

#[derive(Clone, Copy, PartialEq, Eq, Structural, Debug)]
pub struct PageFaultExceptionFlowType {
    pub lifecycle: Lifecycle,
    pub fault_address: usize,
    pub access: PageFaultAccess,
    pub source: PageFaultSource,
    pub nested: bool,
    pub hardirq_context: bool,
    pub entry_interrupts_enabled: bool,
    pub atomic_context: bool,
    pub schedulable: bool,
    pub fixup_selected: bool,
    pub fixup_address: usize,
    pub fixup_committed: bool,
    pub fatal_selected: bool,
    pub handler_completed: bool,
}

impl PageFaultExceptionFlowType {
    pub fn new() -> (r: Self)
        ensures
            r.lifecycle@ == State::Base,
            r.access == PageFaultAccess::Read && r.source == PageFaultSource::Kernel,
            !r.fixup_selected && !r.fatal_selected && !r.handler_completed,
    {
        PageFaultExceptionFlowType {
            lifecycle: Lifecycle::new(State::Base),
            fault_address: 0,
            access: PageFaultAccess::Read,
            source: PageFaultSource::Kernel,
            nested: false,
            hardirq_context: false,
            entry_interrupts_enabled: false,
            atomic_context: false,
            schedulable: false,
            fixup_selected: false,
            fixup_address: 0,
            fixup_committed: false,
            fatal_selected: false,
            handler_completed: false,
        }
    }

    /// Decodes the trap: the cause gives the access, `stval` the faulting address.
    pub fn preset(&mut self, scause: usize, stval: usize, from_user: bool) -> (r: EventResult)
        ensures
            access_of_cause(scause) is None ==> r == Err::<(), EventError>(
                condition_error(LifecycleEvent::Preset, old(self).lifecycle@, State::Base, State::Prepared),
            ) && *final(self) == *old(self),
            access_of_cause(scause) matches Some(a) ==> r == transition_result(
                LifecycleEvent::Preset,
                old(self).lifecycle@,
                State::Base,
                State::Prepared,
            ) && final(self).lifecycle@ == transition_state(
                old(self).lifecycle@,
                State::Base,
                State::Prepared,
            ) && final(self).access == a && final(self).fault_address == stval && final(self).source == (if from_user { PageFaultSource::User } else { PageFaultSource::Kernel }),
    {
        let access = if scause == EXC_INSTRUCTION_PAGE_FAULT {
            PageFaultAccess::Execute
        } else if scause == EXC_LOAD_PAGE_FAULT {
            PageFaultAccess::Read
        } else if scause == EXC_STORE_PAGE_FAULT {
            PageFaultAccess::Write
        } else {
            return failed_condition(
                LifecycleEvent::Preset,
                self.lifecycle.state(),
                State::Base,
                State::Prepared,
            );
        };
        self.access = access;
        self.fault_address = stval;
        self.source = if from_user {
            PageFaultSource::User
        } else {
            PageFaultSource::Kernel
        };
        self.lifecycle.transition(LifecycleEvent::Preset, State::Base, State::Prepared)
    }

    /// Records the context of the fault. It is atomic when nested, in a hard interrupt,
    /// or entered with interrupts off; a user fault may then sleep unless atomic; a
    /// kernel fault is fixed up when an exception-table fixup exists and is fatal
    /// otherwise.
    pub fn setup_context(
        &mut self,
        nested: bool,
        hardirq_context: bool,
        entry_interrupts_enabled: bool,
        fixup_address: Option<usize>,
    ) -> (r: EventResult)
        ensures
            old(self).lifecycle@ != State::Prepared || fixup_address == Some(0usize) ==> r == Err::<
                (),
                EventError,
            >(
                condition_error(LifecycleEvent::Setup, old(self).lifecycle@, State::Prepared, State::Ready),
            ) && *final(self) == *old(self),
            !(old(self).lifecycle@ != State::Prepared || fixup_address == Some(0usize)) ==> {
                let atomic = nested || hardirq_context || !entry_interrupts_enabled;
                let kernel = old(self).source == PageFaultSource::Kernel;
                &&& r == Ok::<(), EventError>(())
                &&& final(self).lifecycle@ == State::Ready
                &&& *final(self) == (PageFaultExceptionFlowType {
                    lifecycle: final(self).lifecycle,
                    nested,
                    hardirq_context,
                    entry_interrupts_enabled,
                    atomic_context: atomic,
                    schedulable: if kernel { fixup_address is Some && !atomic } else { !atomic },
                    fixup_selected: kernel && fixup_address is Some,
                    fixup_address: match fixup_address {
                        Some(a) => a,
                        None => 0,
                    },
                    fixup_committed: false,
                    fatal_selected: kernel && fixup_address is None,
                    ..*old(self)
                })
            },
    {
        if self.lifecycle.state() != State::Prepared || fixup_address == Some(0usize) {
            return failed_condition(
                LifecycleEvent::Setup,
                self.lifecycle.state(),
                State::Prepared,
                State::Ready,
            );
        }
        self.nested = nested;
        self.hardirq_context = hardirq_context;
        self.entry_interrupts_enabled = entry_interrupts_enabled;
        self.atomic_context = nested || hardirq_context || !entry_interrupts_enabled;
        let kernel = self.source == PageFaultSource::Kernel;
        self.schedulable = if kernel {
            fixup_address.is_some() && !self.atomic_context
        } else {
            !self.atomic_context
        };
        self.fixup_selected = kernel && fixup_address.is_some();
        self.fixup_address = match fixup_address {
            Some(a) => a,
            None => 0,
        };
        self.fixup_committed = false;
        self.fatal_selected = kernel && fixup_address.is_none();
        self.lifecycle.transition(LifecycleEvent::Setup, State::Prepared, State::Ready)
    }

    /// Commits the kernel fixup at `address`, once; it must be the selected one.
    pub fn commit_kernel_fixup(&mut self, address: usize) -> (r: EventResult)
        ensures
            ({
                let ok = old(self).lifecycle@ == State::Ready && old(self).source
                    == PageFaultSource::Kernel && old(self).fixup_selected && address != 0 && address
                    == old(self).fixup_address && !old(self).fixup_committed;
                &&& !ok ==> r == Err::<(), EventError>(
                    condition_error(LifecycleEvent::Enable, old(self).lifecycle@, State::Ready, State::Online),
                ) && *final(self) == *old(self)
                &&& ok ==> r == Ok::<(), EventError>(()) && *final(self) == (
                PageFaultExceptionFlowType { fixup_committed: true, ..*old(self) })
            }),
    {
        if self.lifecycle.state() != State::Ready || self.source != PageFaultSource::Kernel
            || !self.fixup_selected || address == 0 || address != self.fixup_address
            || self.fixup_committed {
            return failed_condition(
                LifecycleEvent::Enable,
                self.lifecycle.state(),
                State::Ready,
                State::Online,
            );
        }
        self.fixup_committed = true;
        Ok(())
    }

    /// Completes the handler; a kernel fault needs its fixup committed first.
    pub fn enable_after_handler(&mut self) -> (r: EventResult)
        ensures
            old(self).source == PageFaultSource::Kernel && !old(self).fixup_committed ==> r == Err::<
                (),
                EventError,
            >(
                condition_error(LifecycleEvent::Enable, old(self).lifecycle@, State::Ready, State::Online),
            ) && *final(self) == *old(self),
            !(old(self).source == PageFaultSource::Kernel && !old(self).fixup_committed) ==> r
                == transition_result(LifecycleEvent::Enable, old(self).lifecycle@, State::Ready, State::Online)
                && final(self).lifecycle@ == transition_state(
                old(self).lifecycle@,
                State::Ready,
                State::Online,
            ) && final(self).handler_completed,
    {
        if self.source == PageFaultSource::Kernel && !self.fixup_committed {
            return failed_condition(
                LifecycleEvent::Enable,
                self.lifecycle.state(),
                State::Ready,
                State::Online,
            );
        }
        self.handler_completed = true;
        self.lifecycle.transition(LifecycleEvent::Enable, State::Ready, State::Online)
    }

    pub fn disable(&mut self) -> (r: EventResult)
        ensures
            r == transition_result(LifecycleEvent::Disable, old(self).lifecycle@, State::Online, State::Offline),
            final(self).lifecycle@ == transition_state(old(self).lifecycle@, State::Online, State::Offline),
    {
        self.lifecycle.transition(LifecycleEvent::Disable, State::Online, State::Offline)
    }

    pub fn state(&self) -> (r: State)
        ensures
            r == self.lifecycle@,
    {
        self.lifecycle.state()
    }

    pub fn schedulable(&self) -> (r: bool)
        ensures
            r == self.schedulable,
    {
        self.schedulable
    }

    pub fn atomic_context(&self) -> (r: bool)
        ensures
            r == self.atomic_context,
    {
        self.atomic_context
    }

    pub fn fatal_selected(&self) -> (r: bool)
        ensures
            r == self.fatal_selected,
    {
        self.fatal_selected
    }

    pub fn fixup_address(&self) -> (r: Option<usize>)
        ensures
            r == (if self.fixup_selected { Some(self.fixup_address) } else { None }),
    {
        if self.fixup_selected {
            Some(self.fixup_address)
        } else {
            None
        }
    }
}

} // verus!
