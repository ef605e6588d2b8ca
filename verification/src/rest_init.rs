//! The system state of the end of boot: booting, scheduling, freeing init memory,
//! running; and the check that runtime services are still deferred.
use vstd::prelude::*;
use crate::boot_facts::{CpuGroup, Workqueue};
use crate::rcu::RcuCore;
use crate::state::{condition_error, failed_condition, EventError, EventResult, Lifecycle, LifecycleEvent, State};

verus! {

/// The pid of the first user process.
pub const KERNEL_INIT_PID: usize = 1;

/// The pid of the kernel thread daemon.
pub const KTHREADD_PID: usize = 2;

/// Kernel task stacks are 2^2 pages.
pub const KERNEL_TASK_STACK_ORDER: usize = 2;
pub const KERNEL_TASK_STACK_SIZE: usize = 16384;
pub const KERNEL_TASK_STACK_ALIGN: usize = 32768;
pub const KERNEL_TASK_STACK_GUARD_SIZE: usize = 4096;

/// The system-wide boot phase.
#[derive(Clone, Copy, PartialEq, Eq, Structural, Debug)]
pub enum SystemStateValue {
    Booting,
    Scheduling,
    FreeingInitmem,
    Running,
}

#[derive(Clone, Copy, PartialEq, Eq, Structural, Debug)]
pub struct SystemState {
    pub lifecycle: Lifecycle,
    pub value: SystemStateValue,
    pub freeing_initmem_window_entered: bool,
}

impl SystemState {
    pub fn new() -> (s: Self)
        ensures
            s.lifecycle@ == State::Base,
            s.value == SystemStateValue::Booting,
            !s.freeing_initmem_window_entered,
    {
        Self {
            lifecycle: Lifecycle::new(State::Base),
            value: SystemStateValue::Booting,
            freeing_initmem_window_entered: false,
        }
    }

    pub fn state(&self) -> (r: State)
        ensures
            r == self.lifecycle@,
    {
        self.lifecycle.state()
    }

    pub fn value(&self) -> (r: SystemStateValue)
        ensures
            r == self.value,
    {
        self.value
    }

    pub fn freeing_initmem_window_entered(&self) -> (r: bool)
        ensures
            r == self.freeing_initmem_window_entered,
    {
        self.freeing_initmem_window_entered
    }

    /// Booting.
    pub fn preset(&mut self) -> (r: EventResult)
        ensures
            old(self).lifecycle@ != State::Base ==> r == Err::<(), EventError>(
                condition_error(LifecycleEvent::Preset, old(self).lifecycle@, State::Base, State::Prepared),
            ) && *final(self) == *old(self),
            old(self).lifecycle@ == State::Base ==> r == Ok::<(), EventError>(()) && final(self).lifecycle@ == State::Prepared && final(self).value == SystemStateValue::Booting
                && !final(self).freeing_initmem_window_entered,
    {
        if self.lifecycle.state() != State::Base {
            return failed_condition(
                LifecycleEvent::Preset,
                self.lifecycle.state(),
                State::Base,
                State::Prepared,
            );
        }
        self.value = SystemStateValue::Booting;
        self.freeing_initmem_window_entered = false;
        self.lifecycle.transition(LifecycleEvent::Preset, State::Base, State::Prepared)
    }

    /// Scheduling, once pid 1 and the kernel thread daemon run.
    pub fn setup(&mut self, kernel_init_task_state: State, kthreadd_task_state: State) -> (r: EventResult)
        ensures
            old(self).lifecycle@ != State::Prepared || kernel_init_task_state != State::Online
                || kthreadd_task_state != State::Online ==> r == Err::<(), EventError>(
                condition_error(LifecycleEvent::Setup, old(self).lifecycle@, State::Prepared, State::Ready),
            ) && *final(self) == *old(self),
            !(old(self).lifecycle@ != State::Prepared || kernel_init_task_state != State::Online
                || kthreadd_task_state != State::Online) ==> r == Ok::<(), EventError>(())
                && final(self).lifecycle@ == State::Ready && final(self).value
                == SystemStateValue::Scheduling && !final(self).freeing_initmem_window_entered,
    {
        if self.lifecycle.state() != State::Prepared || kernel_init_task_state != State::Online
            || kthreadd_task_state != State::Online {
            return failed_condition(
                LifecycleEvent::Setup,
                self.lifecycle.state(),
                State::Prepared,
                State::Ready,
            );
        }
        self.value = SystemStateValue::Scheduling;
        self.freeing_initmem_window_entered = false;
        self.lifecycle.transition(LifecycleEvent::Setup, State::Prepared, State::Ready)
    }

    /// Freeing init memory, once, after the full asynchronous synchronization (which
    /// is deferred: `synchronize_full_deferred`).
    pub fn enter_freeing_initmem(&mut self, async_full_sync_state: State, synchronize_full_deferred: bool) -> (r: EventResult)
        ensures
            old(self).lifecycle@ != State::Ready || old(self).value != SystemStateValue::Scheduling
                || old(self).freeing_initmem_window_entered || async_full_sync_state != State::Ready
                || !synchronize_full_deferred ==> r == Err::<(), EventError>(
                condition_error(LifecycleEvent::Enable, old(self).lifecycle@, State::Ready, State::Ready),
            ) && *final(self) == *old(self),
            !(old(self).lifecycle@ != State::Ready || old(self).value != SystemStateValue::Scheduling
                || old(self).freeing_initmem_window_entered || async_full_sync_state != State::Ready
                || !synchronize_full_deferred) ==> r == Ok::<(), EventError>(()) && *final(self) == (
            SystemState {
                value: SystemStateValue::FreeingInitmem,
                freeing_initmem_window_entered: true,
                ..*old(self)
            }),
    {
        if self.lifecycle.state() != State::Ready || self.value != SystemStateValue::Scheduling
            || self.freeing_initmem_window_entered || async_full_sync_state != State::Ready
            || !synchronize_full_deferred {
            return failed_condition(
                LifecycleEvent::Enable,
                self.lifecycle.state(),
                State::Ready,
                State::Ready,
            );
        }
        self.value = SystemStateValue::FreeingInitmem;
        self.freeing_initmem_window_entered = true;
        Ok(())
    }

    /// Running, once init memory was freed inside the window, the mappings' enable is
    /// deferred and page-table isolation's finalization is a no-op.
    pub fn enable(
        &mut self,
        init_memory_state: State,
        init_memory_freed_in_window: bool,
        mapping_state: State,
        mapping_enable_deferred: bool,
        pti_finalize_state: State,
        pti_finalize_trimmed_noop: bool,
    ) -> (r: EventResult)
        ensures
            ({
                let ok = old(self).lifecycle@ == State::Ready && old(self).value
                    == SystemStateValue::FreeingInitmem && old(self).freeing_initmem_window_entered
                    && init_memory_state == State::Ready && init_memory_freed_in_window
                    && mapping_state == State::Ready && mapping_enable_deferred
                    && pti_finalize_state == State::Ready && pti_finalize_trimmed_noop;
                &&& !ok ==> r == Err::<(), EventError>(
                    condition_error(LifecycleEvent::Enable, old(self).lifecycle@, State::Ready, State::Online),
                ) && *final(self) == *old(self)
                &&& ok ==> r == Ok::<(), EventError>(()) && final(self).lifecycle@ == State::Online
                    && final(self).value == SystemStateValue::Running
                    && final(self).freeing_initmem_window_entered
            }),
    {
        if self.lifecycle.state() != State::Ready || self.value != SystemStateValue::FreeingInitmem
            || !self.freeing_initmem_window_entered || init_memory_state != State::Ready
            || !init_memory_freed_in_window || mapping_state != State::Ready
            || !mapping_enable_deferred || pti_finalize_state != State::Ready
            || !pti_finalize_trimmed_noop {
            return failed_condition(
                LifecycleEvent::Enable,
                self.lifecycle.state(),
                State::Ready,
                State::Online,
            );
        }
        self.value = SystemStateValue::Running;
        self.lifecycle.transition(LifecycleEvent::Enable, State::Ready, State::Online)
    }
}

/// Runtime services are still deferred: no workqueue worker runs, RCU's grace-period
/// threads are deferred (or the tasks-RCU ones are ready), and the boot CPU is online.
pub fn runtime_services_still_deferred(workqueue: &Workqueue, rcu_core: &RcuCore, cpu_group: &CpuGroup) -> (r: bool)
    ensures
        r == (!workqueue.workers_running && (rcu_core.gp_threads_deferred
            || rcu_core.tasks_rcu.gp_threads_ready) && cpu_group.boot_cpu_state == State::Online),
{
    !workqueue.workers_running && (rcu_core.gp_threads_deferred || rcu_core.tasks_rcu.gp_threads_ready)
        && cpu_group.boot_cpu_state == State::Online
}

} // verus!
