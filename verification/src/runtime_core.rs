//! The runtime core before `do_basic_setup`: the deferred async and padata cores and
//! the boundary that checks the scheduler, workqueue and page allocator.
use vstd::prelude::*;
use crate::boot_facts::{CpuGroup, Workqueue};
use crate::page_allocator::PageAllocator;
use crate::state::{condition_error, failed_condition, EventError, EventResult, Lifecycle, LifecycleEvent, State};

verus! {

/// What the late page allocator reports beyond its own state: which deferred steps
/// were trimmed because their configuration is disabled.
#[derive(Clone, Copy, PartialEq, Eq, Structural, Debug)]
pub struct PageAllocatorLateFacts {
    pub deferred_struct_page_init_config_disabled: bool,
    pub deferred_struct_page_completion_trimmed: bool,
    pub deferred_pages_static_key_disable_trimmed: bool,
    pub page_extension_late_config_disabled: bool,
    pub shuffle_late_config_disabled: bool,
}

/// What the scheduler reports of its SMP state.
#[derive(Clone, Copy, PartialEq, Eq, Structural, Debug)]
pub struct SchedulerRuntimeFacts {
    pub state: State,
    pub smp_initialized: bool,
    pub sched_domains_ready: bool,
    pub sched_domains_mutex_ready: bool,
    pub sched_domains_mutex_guard_used: bool,
    pub smp_cpu_masks_stable: bool,
    pub kernel_init_affinity_released: bool,
    pub rt_dl_smp_ready: bool,
    pub granularity_refreshed: bool,
}

pub struct AsyncCoreDeferred {
    pub lifecycle: Lifecycle,
    pub setup_deferred: bool,
    pub workqueue_creation_deferred: bool,
    pub min_active_update_deferred: bool,
}

impl AsyncCoreDeferred {
    pub fn new() -> (s: Self)
        ensures
            s.lifecycle@ == State::Base,
            !s.setup_deferred,
            !s.workqueue_creation_deferred,
            !s.min_active_update_deferred,
    {
        Self {
            lifecycle: Lifecycle::new(State::Base),
            setup_deferred: false,
            workqueue_creation_deferred: false,
            min_active_update_deferred: false,
        }
    }

    pub fn state(&self) -> (r: State)
        ensures
            r == self.lifecycle@,
    {
        self.lifecycle.state()
    }

    pub fn setup_deferred(&self) -> (r: bool)
        ensures
            r == self.setup_deferred,
    {
        self.setup_deferred
    }

    pub fn workqueue_creation_deferred(&self) -> (r: bool)
        ensures
            r == self.workqueue_creation_deferred,
    {
        self.workqueue_creation_deferred
    }

    pub fn min_active_update_deferred(&self) -> (r: bool)
        ensures
            r == self.min_active_update_deferred,
    {
        self.min_active_update_deferred
    }

    pub fn setup(&mut self, workqueue: &Workqueue) -> (r: EventResult)
        ensures
            !(old(self).lifecycle@ != State::Base || workqueue.state != State::Ready || !workqueue.topology_ready ) ==> {
                &&& r == Ok::<(), EventError>(())
                &&& final(self).lifecycle@ == State::Ready
                &&& *final(self) == (AsyncCoreDeferred {
                    setup_deferred: true,
                    workqueue_creation_deferred: true,
                    min_active_update_deferred: true,
                    lifecycle: final(self).lifecycle,
                    ..*old(self)
                })
            },
            old(self).lifecycle@ != State::Base || workqueue.state != State::Ready || !workqueue.topology_ready  ==> {
                &&& r == Err::<(), EventError>(
                    condition_error(
                        LifecycleEvent::Setup,
                        old(self).lifecycle@,
                        State::Base,
                        State::Ready,
                    ),
                )
                &&& *final(self) == *old(self)
            },
    {
        if self.lifecycle.state() != State::Base || workqueue.state != State::Ready || !workqueue.topology_ready  {
            return failed_condition(
                LifecycleEvent::Setup,
                self.lifecycle.state(),
                State::Base,
                State::Ready,
            );
        }
        self.setup_deferred = true;
        self.workqueue_creation_deferred = true;
        self.min_active_update_deferred = true;
        self.lifecycle.transition(LifecycleEvent::Setup, State::Base, State::Ready)
    }
}

pub struct PadataCoreDeferred {
    pub lifecycle: Lifecycle,
    pub setup_deferred: bool,
    pub hotplug_steps_deferred: bool,
    pub hotplug_online_state_deferred: bool,
    pub hotplug_dead_state_deferred: bool,
    pub work_array_deferred: bool,
    pub free_work_list_deferred: bool,
}

impl PadataCoreDeferred {
    pub fn new() -> (s: Self)
        ensures
            s.lifecycle@ == State::Base,
            !s.setup_deferred,
            !s.hotplug_steps_deferred,
            !s.hotplug_online_state_deferred,
            !s.hotplug_dead_state_deferred,
            !s.work_array_deferred,
            !s.free_work_list_deferred,
    {
        Self {
            lifecycle: Lifecycle::new(State::Base),
            setup_deferred: false,
            hotplug_steps_deferred: false,
            hotplug_online_state_deferred: false,
            hotplug_dead_state_deferred: false,
            work_array_deferred: false,
            free_work_list_deferred: false,
        }
    }

    pub fn state(&self) -> (r: State)
        ensures
            r == self.lifecycle@,
    {
        self.lifecycle.state()
    }

    pub fn setup_deferred(&self) -> (r: bool)
        ensures
            r == self.setup_deferred,
    {
        self.setup_deferred
    }

    pub fn hotplug_steps_deferred(&self) -> (r: bool)
        ensures
            r == self.hotplug_steps_deferred,
    {
        self.hotplug_steps_deferred
    }

    pub fn hotplug_online_state_deferred(&self) -> (r: bool)
        ensures
            r == self.hotplug_online_state_deferred,
    {
        self.hotplug_online_state_deferred
    }

    pub fn hotplug_dead_state_deferred(&self) -> (r: bool)
        ensures
            r == self.hotplug_dead_state_deferred,
    {
        self.hotplug_dead_state_deferred
    }

    pub fn work_array_deferred(&self) -> (r: bool)
        ensures
            r == self.work_array_deferred,
    {
        self.work_array_deferred
    }

    pub fn free_work_list_deferred(&self) -> (r: bool)
        ensures
            r == self.free_work_list_deferred,
    {
        self.free_work_list_deferred
    }

    pub fn setup(&mut self, async_core_state: State, cpu_hotplug_state_state: State, cpu_group: &CpuGroup) -> (r: EventResult)
        ensures
            !(old(self).lifecycle@ != State::Base || async_core_state != State::Ready || cpu_hotplug_state_state != State::Ready || cpu_group.state != State::Ready || !cpu_group.smp_concurrency_open ) ==> {
                &&& r == Ok::<(), EventError>(())
                &&& final(self).lifecycle@ == State::Ready
                &&& *final(self) == (PadataCoreDeferred {
                    setup_deferred: true,
                    hotplug_steps_deferred: true,
                    hotplug_online_state_deferred: true,
                    hotplug_dead_state_deferred: true,
                    work_array_deferred: true,
                    free_work_list_deferred: true,
                    lifecycle: final(self).lifecycle,
                    ..*old(self)
                })
            },
            old(self).lifecycle@ != State::Base || async_core_state != State::Ready || cpu_hotplug_state_state != State::Ready || cpu_group.state != State::Ready || !cpu_group.smp_concurrency_open  ==> {
                &&& r == Err::<(), EventError>(
                    condition_error(
                        LifecycleEvent::Setup,
                        old(self).lifecycle@,
                        State::Base,
                        State::Ready,
                    ),
                )
                &&& *final(self) == *old(self)
            },
    {
        if self.lifecycle.state() != State::Base || async_core_state != State::Ready || cpu_hotplug_state_state != State::Ready || cpu_group.state != State::Ready || !cpu_group.smp_concurrency_open  {
            return failed_condition(
                LifecycleEvent::Setup,
                self.lifecycle.state(),
                State::Base,
                State::Ready,
            );
        }
        self.setup_deferred = true;
        self.hotplug_steps_deferred = true;
        self.hotplug_online_state_deferred = true;
        self.hotplug_dead_state_deferred = true;
        self.work_array_deferred = true;
        self.free_work_list_deferred = true;
        self.lifecycle.transition(LifecycleEvent::Setup, State::Base, State::Ready)
    }
}

pub struct RuntimeCoreBoundary {
    pub lifecycle: Lifecycle,
    pub do_basic_setup_next_boundary: bool,
}

impl RuntimeCoreBoundary {
    pub fn new() -> (s: Self)
        ensures
            s.lifecycle@ == State::Base,
            !s.do_basic_setup_next_boundary,
    {
        Self {
            lifecycle: Lifecycle::new(State::Base),
            do_basic_setup_next_boundary: false,
        }
    }

    pub fn state(&self) -> (r: State)
        ensures
            r == self.lifecycle@,
    {
        self.lifecycle.state()
    }

    pub fn do_basic_setup_next_boundary(&self) -> (r: bool)
        ensures
            r == self.do_basic_setup_next_boundary,
    {
        self.do_basic_setup_next_boundary
    }

    pub fn setup(&mut self, scheduler_state: State, scheduler_sched_domains_mutex_ready: bool, scheduler_sched_domains_mutex_guard_used: bool, scheduler_smp_cpu_masks_stable: bool, scheduler_smp_initialized: bool, workqueue: &Workqueue, async_core_state: State, padata_core_state: State, page_allocator: &PageAllocator) -> (r: EventResult)
        ensures
            !(old(self).lifecycle@ != State::Base || scheduler_state != State::Online || !scheduler_smp_initialized || !scheduler_sched_domains_mutex_ready || !scheduler_sched_domains_mutex_guard_used || !scheduler_smp_cpu_masks_stable || workqueue.state != State::Ready || !workqueue.topology_ready || !workqueue.topology_pool_mutex_guard_used || !workqueue.topology_struct_mutex_guard_used || async_core_state != State::Ready || padata_core_state != State::Ready || page_allocator.lifecycle@ != State::Ready || !page_allocator.late_ready ) ==> {
                &&& r == Ok::<(), EventError>(())
                &&& final(self).lifecycle@ == State::Ready
                &&& *final(self) == (RuntimeCoreBoundary {
                    do_basic_setup_next_boundary: true,
                    lifecycle: final(self).lifecycle,
                    ..*old(self)
                })
            },
            old(self).lifecycle@ != State::Base || scheduler_state != State::Online || !scheduler_smp_initialized || !scheduler_sched_domains_mutex_ready || !scheduler_sched_domains_mutex_guard_used || !scheduler_smp_cpu_masks_stable || workqueue.state != State::Ready || !workqueue.topology_ready || !workqueue.topology_pool_mutex_guard_used || !workqueue.topology_struct_mutex_guard_used || async_core_state != State::Ready || padata_core_state != State::Ready || page_allocator.lifecycle@ != State::Ready || !page_allocator.late_ready  ==> {
                &&& r == Err::<(), EventError>(
                    condition_error(
                        LifecycleEvent::Setup,
                        old(self).lifecycle@,
                        State::Base,
                        State::Ready,
                    ),
                )
                &&& *final(self) == *old(self)
            },
    {
        if self.lifecycle.state() != State::Base || scheduler_state != State::Online || !scheduler_smp_initialized || !scheduler_sched_domains_mutex_ready || !scheduler_sched_domains_mutex_guard_used || !scheduler_smp_cpu_masks_stable || workqueue.state != State::Ready || !workqueue.topology_ready || !workqueue.topology_pool_mutex_guard_used || !workqueue.topology_struct_mutex_guard_used || async_core_state != State::Ready || padata_core_state != State::Ready || page_allocator.state() != State::Ready || !page_allocator.late_ready  {
            return failed_condition(
                LifecycleEvent::Setup,
                self.lifecycle.state(),
                State::Base,
                State::Ready,
            );
        }
        self.do_basic_setup_next_boundary = true;
        self.lifecycle.transition(LifecycleEvent::Setup, State::Base, State::Ready)
    }
}

/// The runtime core is in place: the scheduler's SMP state, the workqueue topology,
/// the deferred async and padata cores, the late page allocator, and the boundary
/// before `do_basic_setup`.
pub fn runtime_core_ready(
    scheduler: &SchedulerRuntimeFacts,
    workqueue: &Workqueue,
    async_core: &AsyncCoreDeferred,
    padata_core: &PadataCoreDeferred,
    page_allocator: &PageAllocator,
    late_facts: &PageAllocatorLateFacts,
    boundary: &RuntimeCoreBoundary,
) -> (r: bool)
    ensures
        r == (scheduler.state == State::Online
        && scheduler.smp_initialized
        && scheduler.sched_domains_ready
        && scheduler.sched_domains_mutex_ready
        && scheduler.sched_domains_mutex_guard_used
        && scheduler.smp_cpu_masks_stable
        && scheduler.kernel_init_affinity_released
        && scheduler.rt_dl_smp_ready
        && scheduler.granularity_refreshed
        && workqueue.state == State::Ready
        && workqueue.topology_ready
        && workqueue.pod_types_ready
        && workqueue.unbound_pools_rebound
        && workqueue.max_active_topology_ready
        && workqueue.topology_pool_mutex_guard_used
        && workqueue.topology_struct_mutex_guard_used
        && !workqueue.workers_running
        && async_core.lifecycle@ == State::Ready
        && async_core.setup_deferred
        && async_core.workqueue_creation_deferred
        && async_core.min_active_update_deferred
        && padata_core.lifecycle@ == State::Ready
        && padata_core.setup_deferred
        && padata_core.hotplug_steps_deferred
        && padata_core.hotplug_online_state_deferred
        && padata_core.hotplug_dead_state_deferred
        && padata_core.work_array_deferred
        && padata_core.free_work_list_deferred
        && page_allocator.lifecycle@ == State::Ready
        && page_allocator.late_ready
        && page_allocator.memory_stats_ready
        && page_allocator.buffer_init_ready
        && page_allocator.memblock_private_discarded
        && page_allocator.zone_contiguous_ready
        && page_allocator.sysctl_ready
        && page_allocator.deferred_struct_page_init_trimmed
        && late_facts.deferred_struct_page_init_config_disabled
        && late_facts.deferred_struct_page_completion_trimmed
        && late_facts.deferred_pages_static_key_disable_trimmed
        && page_allocator.page_extension_late_trimmed
        && late_facts.page_extension_late_config_disabled
        && page_allocator.shuffle_late_trimmed
        && late_facts.shuffle_late_config_disabled
        && boundary.lifecycle@ == State::Ready
        && boundary.do_basic_setup_next_boundary),
{
    scheduler.state == State::Online
        && scheduler.smp_initialized
        && scheduler.sched_domains_ready
        && scheduler.sched_domains_mutex_ready
        && scheduler.sched_domains_mutex_guard_used
        && scheduler.smp_cpu_masks_stable
        && scheduler.kernel_init_affinity_released
        && scheduler.rt_dl_smp_ready
        && scheduler.granularity_refreshed
        && workqueue.state == State::Ready
        && workqueue.topology_ready
        && workqueue.pod_types_ready
        && workqueue.unbound_pools_rebound
        && workqueue.max_active_topology_ready
        && workqueue.topology_pool_mutex_guard_used
        && workqueue.topology_struct_mutex_guard_used
        && !workqueue.workers_running
        && async_core.lifecycle.state() == State::Ready
        && async_core.setup_deferred
        && async_core.workqueue_creation_deferred
        && async_core.min_active_update_deferred
        && padata_core.lifecycle.state() == State::Ready
        && padata_core.setup_deferred
        && padata_core.hotplug_steps_deferred
        && padata_core.hotplug_online_state_deferred
        && padata_core.hotplug_dead_state_deferred
        && padata_core.work_array_deferred
        && padata_core.free_work_list_deferred
        && page_allocator.lifecycle.state() == State::Ready
        && page_allocator.late_ready
        && page_allocator.memory_stats_ready
        && page_allocator.buffer_init_ready
        && page_allocator.memblock_private_discarded
        && page_allocator.zone_contiguous_ready
        && page_allocator.sysctl_ready
        && page_allocator.deferred_struct_page_init_trimmed
        && late_facts.deferred_struct_page_init_config_disabled
        && late_facts.deferred_struct_page_completion_trimmed
        && late_facts.deferred_pages_static_key_disable_trimmed
        && page_allocator.page_extension_late_trimmed
        && late_facts.page_extension_late_config_disabled
        && page_allocator.shuffle_late_trimmed
        && late_facts.shuffle_late_config_disabled
        && boundary.lifecycle.state() == State::Ready
        && boundary.do_basic_setup_next_boundary
}

} // verus!
