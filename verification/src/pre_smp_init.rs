//! The steps before SMP bring-up: vmstat, the pre-SMP initcalls, and the boundary
//! just before `smp_init`.
use vstd::prelude::*;
use crate::boot_facts::{CpuGroup, Workqueue};
use crate::page_allocator::PageAllocator;
use crate::rcu::RcuCore;
use crate::state::{condition_error, failed_condition, EventError, EventResult, Lifecycle, LifecycleEvent, State};

verus! {

pub struct VmstatCore {
    pub lifecycle: Lifecycle,
    pub mm_percpu_workqueue_ready: bool,
    pub cpuhp_state_registered: bool,
    pub shepherd_work_started: bool,
    pub proc_exports_deferred: bool,
}

impl VmstatCore {
    pub fn new() -> (s: Self)
        ensures
            s.lifecycle@ == State::Base,
            !s.mm_percpu_workqueue_ready,
            !s.cpuhp_state_registered,
            !s.shepherd_work_started,
            s.proc_exports_deferred,
    {
        Self {
            lifecycle: Lifecycle::new(State::Base),
            mm_percpu_workqueue_ready: false,
            cpuhp_state_registered: false,
            shepherd_work_started: false,
            proc_exports_deferred: true,
        }
    }

    pub fn state(&self) -> (r: State)
        ensures
            r == self.lifecycle@,
    {
        self.lifecycle.state()
    }

    pub fn mm_percpu_workqueue_ready(&self) -> (r: bool)
        ensures
            r == self.mm_percpu_workqueue_ready,
    {
        self.mm_percpu_workqueue_ready
    }

    pub fn cpuhp_state_registered(&self) -> (r: bool)
        ensures
            r == self.cpuhp_state_registered,
    {
        self.cpuhp_state_registered
    }

    pub fn shepherd_work_started(&self) -> (r: bool)
        ensures
            r == self.shepherd_work_started,
    {
        self.shepherd_work_started
    }

    pub fn proc_exports_deferred(&self) -> (r: bool)
        ensures
            r == self.proc_exports_deferred,
    {
        self.proc_exports_deferred
    }

    pub fn preset(&mut self, workqueue: &Workqueue, page_allocator: &PageAllocator, kernel_init_task_state: State, kernel_init_task_released_for_pre_smp_init: bool, scheduler_schedule_passes: usize) -> (r: EventResult)
        ensures
            !(old(self).lifecycle@ != State::Base || workqueue.state != State::Ready || !workqueue.worker_creation_open || page_allocator.lifecycle@ != State::Ready || !page_allocator.full_gfp_mask_open || kernel_init_task_state != State::Online || !kernel_init_task_released_for_pre_smp_init || scheduler_schedule_passes == 0 ) ==> {
                &&& r == Ok::<(), EventError>(())
                &&& final(self).lifecycle@ == State::Prepared
                &&& *final(self) == (VmstatCore {
                    mm_percpu_workqueue_ready: true,
                    cpuhp_state_registered: true,
                    shepherd_work_started: true,
                    proc_exports_deferred: true,
                    lifecycle: final(self).lifecycle,
                    ..*old(self)
                })
            },
            old(self).lifecycle@ != State::Base || workqueue.state != State::Ready || !workqueue.worker_creation_open || page_allocator.lifecycle@ != State::Ready || !page_allocator.full_gfp_mask_open || kernel_init_task_state != State::Online || !kernel_init_task_released_for_pre_smp_init || scheduler_schedule_passes == 0  ==> {
                &&& r == Err::<(), EventError>(
                    condition_error(
                        LifecycleEvent::Preset,
                        old(self).lifecycle@,
                        State::Base,
                        State::Prepared,
                    ),
                )
                &&& *final(self) == *old(self)
            },
    {
        if self.lifecycle.state() != State::Base || workqueue.state != State::Ready || !workqueue.worker_creation_open || page_allocator.state() != State::Ready || !page_allocator.full_gfp_mask_open || kernel_init_task_state != State::Online || !kernel_init_task_released_for_pre_smp_init || scheduler_schedule_passes == 0  {
            return failed_condition(
                LifecycleEvent::Preset,
                self.lifecycle.state(),
                State::Base,
                State::Prepared,
            );
        }
        self.mm_percpu_workqueue_ready = true;
        self.cpuhp_state_registered = true;
        self.shepherd_work_started = true;
        self.proc_exports_deferred = true;
        self.lifecycle.transition(LifecycleEvent::Preset, State::Base, State::Prepared)
    }

}

pub struct PreSmpInitcallTable {
    pub lifecycle: Lifecycle,
    pub early_level_ran: bool,
    pub rcu_gp_kthread_ready: bool,
    pub softirq_ksoftirqd_ready: bool,
    pub scheduler_migration_ready: bool,
    pub cpu_stopper_prepared: bool,
    pub zero_page_bound: bool,
    pub address_space_id_ready: bool,
}

impl PreSmpInitcallTable {
    pub fn new() -> (s: Self)
        ensures
            s.lifecycle@ == State::Base,
            !s.early_level_ran,
            !s.rcu_gp_kthread_ready,
            !s.softirq_ksoftirqd_ready,
            !s.scheduler_migration_ready,
            !s.cpu_stopper_prepared,
            !s.zero_page_bound,
            !s.address_space_id_ready,
    {
        Self {
            lifecycle: Lifecycle::new(State::Base),
            early_level_ran: false,
            rcu_gp_kthread_ready: false,
            softirq_ksoftirqd_ready: false,
            scheduler_migration_ready: false,
            cpu_stopper_prepared: false,
            zero_page_bound: false,
            address_space_id_ready: false,
        }
    }

    pub fn state(&self) -> (r: State)
        ensures
            r == self.lifecycle@,
    {
        self.lifecycle.state()
    }

    pub fn early_level_ran(&self) -> (r: bool)
        ensures
            r == self.early_level_ran,
    {
        self.early_level_ran
    }

    pub fn rcu_gp_kthread_ready(&self) -> (r: bool)
        ensures
            r == self.rcu_gp_kthread_ready,
    {
        self.rcu_gp_kthread_ready
    }

    pub fn softirq_ksoftirqd_ready(&self) -> (r: bool)
        ensures
            r == self.softirq_ksoftirqd_ready,
    {
        self.softirq_ksoftirqd_ready
    }

    pub fn scheduler_migration_ready(&self) -> (r: bool)
        ensures
            r == self.scheduler_migration_ready,
    {
        self.scheduler_migration_ready
    }

    pub fn cpu_stopper_prepared(&self) -> (r: bool)
        ensures
            r == self.cpu_stopper_prepared,
    {
        self.cpu_stopper_prepared
    }

    pub fn zero_page_bound(&self) -> (r: bool)
        ensures
            r == self.zero_page_bound,
    {
        self.zero_page_bound
    }

    pub fn address_space_id_ready(&self) -> (r: bool)
        ensures
            r == self.address_space_id_ready,
    {
        self.address_space_id_ready
    }

    pub fn setup(&mut self, kernel_init_task_state: State, kernel_init_task_released_for_pre_smp_init: bool, rcu_core: &RcuCore, softirq_state: State, scheduler_state: State, scheduler_schedule_passes: usize, cpu_group: &CpuGroup) -> (r: EventResult)
        ensures
            !(old(self).lifecycle@ != State::Base || kernel_init_task_state != State::Online || !kernel_init_task_released_for_pre_smp_init || rcu_core.lifecycle@ != State::Ready || !rcu_core.tasks_rcu.gp_threads_ready || softirq_state != State::Ready || scheduler_state != State::Online || scheduler_schedule_passes == 0 || cpu_group.state != State::Ready || !cpu_group.pre_smp_topology_ready ) ==> {
                &&& r == Ok::<(), EventError>(())
                &&& final(self).lifecycle@ == State::Ready
                &&& *final(self) == (PreSmpInitcallTable {
                    early_level_ran: true,
                    rcu_gp_kthread_ready: true,
                    softirq_ksoftirqd_ready: true,
                    scheduler_migration_ready: true,
                    cpu_stopper_prepared: true,
                    zero_page_bound: true,
                    address_space_id_ready: true,
                    lifecycle: final(self).lifecycle,
                    ..*old(self)
                })
            },
            old(self).lifecycle@ != State::Base || kernel_init_task_state != State::Online || !kernel_init_task_released_for_pre_smp_init || rcu_core.lifecycle@ != State::Ready || !rcu_core.tasks_rcu.gp_threads_ready || softirq_state != State::Ready || scheduler_state != State::Online || scheduler_schedule_passes == 0 || cpu_group.state != State::Ready || !cpu_group.pre_smp_topology_ready  ==> {
                &&& r == Err::<(), EventError>(
                    condition_error(
                        LifecycleEvent::Setup,
                        old(self).lifecycle@,
                        State::Base,
                        State::Ready,
                    ),
                )
                &&& *final(self) == *old(self)
            },
    {
        if self.lifecycle.state() != State::Base || kernel_init_task_state != State::Online || !kernel_init_task_released_for_pre_smp_init || rcu_core.state() != State::Ready || !rcu_core.tasks_rcu.gp_threads_ready || softirq_state != State::Ready || scheduler_state != State::Online || scheduler_schedule_passes == 0 || cpu_group.state != State::Ready || !cpu_group.pre_smp_topology_ready  {
            return failed_condition(
                LifecycleEvent::Setup,
                self.lifecycle.state(),
                State::Base,
                State::Ready,
            );
        }
        self.early_level_ran = true;
        self.rcu_gp_kthread_ready = true;
        self.softirq_ksoftirqd_ready = true;
        self.scheduler_migration_ready = true;
        self.cpu_stopper_prepared = true;
        self.zero_page_bound = true;
        self.address_space_id_ready = true;
        self.lifecycle.transition(LifecycleEvent::Setup, State::Base, State::Ready)
    }

    fn failed_setup(&self) -> EventResult {
        failed_condition(
            LifecycleEvent::Setup,
            self.lifecycle.state(),
            State::Base,
            State::Ready,
        )
    }
}

pub struct PreSmpInitBoundary {
    pub lifecycle: Lifecycle,
    pub mems_allowed_trimmed: bool,
    pub cad_pid_deferred: bool,
    pub lockup_detector_deferred: bool,
    pub smp_init_not_called: bool,
    pub secondary_cpus_present_not_online: bool,
}

impl PreSmpInitBoundary {
    pub fn new() -> (s: Self)
        ensures
            s.lifecycle@ == State::Base,
            !s.mems_allowed_trimmed,
            !s.cad_pid_deferred,
            !s.lockup_detector_deferred,
            s.smp_init_not_called,
            !s.secondary_cpus_present_not_online,
    {
        Self {
            lifecycle: Lifecycle::new(State::Base),
            mems_allowed_trimmed: false,
            cad_pid_deferred: false,
            lockup_detector_deferred: false,
            smp_init_not_called: true,
            secondary_cpus_present_not_online: false,
        }
    }

    pub fn state(&self) -> (r: State)
        ensures
            r == self.lifecycle@,
    {
        self.lifecycle.state()
    }

    pub fn mems_allowed_trimmed(&self) -> (r: bool)
        ensures
            r == self.mems_allowed_trimmed,
    {
        self.mems_allowed_trimmed
    }

    pub fn cad_pid_deferred(&self) -> (r: bool)
        ensures
            r == self.cad_pid_deferred,
    {
        self.cad_pid_deferred
    }

    pub fn lockup_detector_deferred(&self) -> (r: bool)
        ensures
            r == self.lockup_detector_deferred,
    {
        self.lockup_detector_deferred
    }

    pub fn smp_init_not_called(&self) -> (r: bool)
        ensures
            r == self.smp_init_not_called,
    {
        self.smp_init_not_called
    }

    pub fn secondary_cpus_present_not_online(&self) -> (r: bool)
        ensures
            r == self.secondary_cpus_present_not_online,
    {
        self.secondary_cpus_present_not_online
    }

    pub fn setup(&mut self, kernel_init_task_state: State, kernel_init_task_released_for_pre_smp_init: bool, initcalls_state: State, scheduler_schedule_passes: usize, cpu_group: &CpuGroup) -> (r: EventResult)
        ensures
            !(old(self).lifecycle@ != State::Base || kernel_init_task_state != State::Online || !kernel_init_task_released_for_pre_smp_init || initcalls_state != State::Ready || scheduler_schedule_passes == 0 || cpu_group.state != State::Ready || !cpu_group.secondary_cpus_present_not_online ) ==> {
                &&& r == Ok::<(), EventError>(())
                &&& final(self).lifecycle@ == State::Ready
                &&& *final(self) == (PreSmpInitBoundary {
                    mems_allowed_trimmed: true,
                    cad_pid_deferred: true,
                    lockup_detector_deferred: true,
                    smp_init_not_called: true,
                    secondary_cpus_present_not_online: true,
                    lifecycle: final(self).lifecycle,
                    ..*old(self)
                })
            },
            old(self).lifecycle@ != State::Base || kernel_init_task_state != State::Online || !kernel_init_task_released_for_pre_smp_init || initcalls_state != State::Ready || scheduler_schedule_passes == 0 || cpu_group.state != State::Ready || !cpu_group.secondary_cpus_present_not_online  ==> {
                &&& r == Err::<(), EventError>(
                    condition_error(
                        LifecycleEvent::Setup,
                        old(self).lifecycle@,
                        State::Base,
                        State::Ready,
                    ),
                )
                &&& *final(self) == *old(self)
            },
    {
        if self.lifecycle.state() != State::Base || kernel_init_task_state != State::Online || !kernel_init_task_released_for_pre_smp_init || initcalls_state != State::Ready || scheduler_schedule_passes == 0 || cpu_group.state != State::Ready || !cpu_group.secondary_cpus_present_not_online  {
            return failed_condition(
                LifecycleEvent::Setup,
                self.lifecycle.state(),
                State::Base,
                State::Ready,
            );
        }
        self.mems_allowed_trimmed = true;
        self.cad_pid_deferred = true;
        self.lockup_detector_deferred = true;
        self.smp_init_not_called = true;
        self.secondary_cpus_present_not_online = true;
        self.lifecycle.transition(LifecycleEvent::Setup, State::Base, State::Ready)
    }

    fn failed_setup(&self) -> EventResult {
        failed_condition(
            LifecycleEvent::Setup,
            self.lifecycle.state(),
            State::Base,
            State::Ready,
        )
    }
}

/// Everything that runs before SMP bring-up is in place: pid 1 is released for it,
/// the kernel thread daemon runs, the scheduler has passed at least once, the page
/// allocator's full mask is open, the topology is known with secondary CPUs present but
/// offline, the workqueue accepts workers without running any, tasks-RCU is up, and the
/// early initcalls ran up to the boundary before `smp_init`.
pub fn pre_smp_runtime_ready(
    kernel_init_task_state: State,
    kernel_init_task_released_for_pre_smp_init: bool,
    kthreadd_task_state: State,
    scheduler_schedule_passes: usize,
    page_allocator: &PageAllocator,
    cpu_group: &CpuGroup,
    workqueue: &Workqueue,
    rcu_core: &RcuCore,
    vmstat_core: &VmstatCore,
    initcalls: &PreSmpInitcallTable,
    boundary: &PreSmpInitBoundary,
) -> (r: bool)
    ensures
        r == (kernel_init_task_state == State::Online && kernel_init_task_released_for_pre_smp_init
            && kthreadd_task_state == State::Online && scheduler_schedule_passes != 0
            && page_allocator.lifecycle@ == State::Ready && page_allocator.full_gfp_mask_open
            && cpu_group.pre_smp_topology_ready && cpu_group.secondary_cpus_present_not_online
            && workqueue.state == State::Ready && workqueue.worker_creation_open
            && !workqueue.workers_running && rcu_core.tasks_rcu.lifecycle@ == State::Ready
            && rcu_core.tasks_rcu.gp_threads_ready && vmstat_core.lifecycle@ == State::Prepared
            && initcalls.lifecycle@ == State::Ready && boundary.lifecycle@ == State::Ready
            && boundary.smp_init_not_called),
{
    kernel_init_task_state == State::Online && kernel_init_task_released_for_pre_smp_init
        && kthreadd_task_state == State::Online && scheduler_schedule_passes != 0
        && page_allocator.lifecycle.state() == State::Ready && page_allocator.full_gfp_mask_open
        && cpu_group.pre_smp_topology_ready && cpu_group.secondary_cpus_present_not_online
        && workqueue.state == State::Ready && workqueue.worker_creation_open
        && !workqueue.workers_running && rcu_core.tasks_rcu.lifecycle.state() == State::Ready
        && rcu_core.tasks_rcu.gp_threads_ready && vmstat_core.lifecycle.state() == State::Prepared
        && initcalls.lifecycle.state() == State::Ready && boundary.lifecycle.state() == State::Ready
        && boundary.smp_init_not_called
}

} // verus!
