use vstd::prelude::*;
use crate::boot_facts::{CpuGroup, Workqueue};
use crate::state::{
    condition_error, failed_condition, transition_result, transition_state, EventError,
    EventResult, Lifecycle, LifecycleEvent, State,
};

verus! {

/// What the caller saw around the local-interrupt-disabled section of `scheduler_start`:
/// the saved-and-disabled count before it, the outcome of saving and disabling, whether
/// interrupts were disabled and the saved count inside, and the outcome and restored count
/// of the restore.
#[derive(Clone, Copy)]
pub struct LocalIrqObservation {
    pub saved_before: usize,
    pub save_result: EventResult,
    pub disabled_while_saved: bool,
    pub saved_count_while_saved: usize,
    pub restore_result: EventResult,
    pub restored_count: usize,
}

pub struct RcuCore {
    pub lifecycle: Lifecycle,
    pub tasks_rcu: TasksRcu,
    pub boot_cpu_online_ready: bool,
    pub softirq_registered: bool,
    pub workqueues_ready: bool,
    pub node_tree_ready: bool,
    pub node_locks_ready: bool,
    pub node_waitqueues_ready: bool,
    pub node_poll_work_ready: bool,
    pub percpu_data_ready: bool,
    pub kfree_batch_ready: bool,
    pub kfree_shrinker_registered: bool,
    pub pm_notifier_registered: bool,
    pub gp_threads_deferred: bool,
    pub runtime_read_side_full_semantics_deferred: bool,
    pub scheduler_starting_ready: bool,
    pub scheduler_active_init: bool,
    pub scheduler_start_single_online_cpu: bool,
    pub scheduler_start_local_irq_guarded: bool,
    pub scheduler_start_local_irq_save_count: usize,
    pub scheduler_start_local_irq_restore_count: usize,
    pub gp_seq_baseline_synced: bool,
    pub inkernel_boot_ended: bool,
    pub unexpedite_gp_atomic_decrement_recorded: bool,
    pub async_relax_config_lazy_trimmed: bool,
    pub normal_after_boot_write_once_trimmed_or_recorded: bool,
    pub boot_ended_publish_recorded: bool,
}
impl RcuCore {
    pub fn new() -> (s: Self)
        ensures
            s.lifecycle@ == State::Base,
            s.tasks_rcu.lifecycle@ == State::Base,
            !s.boot_cpu_online_ready,
            !s.softirq_registered,
            !s.workqueues_ready,
            !s.node_tree_ready,
            !s.node_locks_ready,
            !s.node_waitqueues_ready,
            !s.node_poll_work_ready,
            !s.percpu_data_ready,
            !s.kfree_batch_ready,
            !s.kfree_shrinker_registered,
            !s.pm_notifier_registered,
            s.gp_threads_deferred,
            s.runtime_read_side_full_semantics_deferred,
            !s.scheduler_starting_ready,
            !s.scheduler_active_init,
            !s.scheduler_start_single_online_cpu,
            !s.scheduler_start_local_irq_guarded,
            s.scheduler_start_local_irq_save_count == 0,
            s.scheduler_start_local_irq_restore_count == 0,
            !s.gp_seq_baseline_synced,
            !s.inkernel_boot_ended,
            !s.unexpedite_gp_atomic_decrement_recorded,
            !s.async_relax_config_lazy_trimmed,
            !s.normal_after_boot_write_once_trimmed_or_recorded,
            !s.boot_ended_publish_recorded,
    {
        Self {
            lifecycle: Lifecycle::new(State::Base),
            tasks_rcu: TasksRcu::new(),
            boot_cpu_online_ready: false,
            softirq_registered: false,
            workqueues_ready: false,
            node_tree_ready: false,
            node_locks_ready: false,
            node_waitqueues_ready: false,
            node_poll_work_ready: false,
            percpu_data_ready: false,
            kfree_batch_ready: false,
            kfree_shrinker_registered: false,
            pm_notifier_registered: false,
            gp_threads_deferred: true,
            runtime_read_side_full_semantics_deferred: true,
            scheduler_starting_ready: false,
            scheduler_active_init: false,
            scheduler_start_single_online_cpu: false,
            scheduler_start_local_irq_guarded: false,
            scheduler_start_local_irq_save_count: 0,
            scheduler_start_local_irq_restore_count: 0,
            gp_seq_baseline_synced: false,
            inkernel_boot_ended: false,
            unexpedite_gp_atomic_decrement_recorded: false,
            async_relax_config_lazy_trimmed: false,
            normal_after_boot_write_once_trimmed_or_recorded: false,
            boot_ended_publish_recorded: false,
        }
    }

    pub fn state(&self) -> (r: State)
        ensures
            r == self.lifecycle@,
    {
        self.lifecycle.state()
    }

    pub fn tasks_rcu(&self) -> (r: &TasksRcu)
        ensures
            *r == self.tasks_rcu,
    {
        &self.tasks_rcu
    }

    pub fn tasks_rcu_mut(&mut self) -> &mut TasksRcu {
        &mut self.tasks_rcu
    }

    pub fn boot_cpu_online_ready(&self) -> (r: bool)
        ensures
            r == self.boot_cpu_online_ready,
    {
        self.boot_cpu_online_ready
    }

    pub fn softirq_registered(&self) -> (r: bool)
        ensures
            r == self.softirq_registered,
    {
        self.softirq_registered
    }

    pub fn workqueues_ready(&self) -> (r: bool)
        ensures
            r == self.workqueues_ready,
    {
        self.workqueues_ready
    }

    pub fn node_tree_ready(&self) -> (r: bool)
        ensures
            r == self.node_tree_ready,
    {
        self.node_tree_ready
    }

    pub fn node_locks_ready(&self) -> (r: bool)
        ensures
            r == self.node_locks_ready,
    {
        self.node_locks_ready
    }

    pub fn node_waitqueues_ready(&self) -> (r: bool)
        ensures
            r == self.node_waitqueues_ready,
    {
        self.node_waitqueues_ready
    }

    pub fn node_poll_work_ready(&self) -> (r: bool)
        ensures
            r == self.node_poll_work_ready,
    {
        self.node_poll_work_ready
    }

    pub fn percpu_data_ready(&self) -> (r: bool)
        ensures
            r == self.percpu_data_ready,
    {
        self.percpu_data_ready
    }

    pub fn kfree_batch_ready(&self) -> (r: bool)
        ensures
            r == self.kfree_batch_ready,
    {
        self.kfree_batch_ready
    }

    pub fn kfree_shrinker_registered(&self) -> (r: bool)
        ensures
            r == self.kfree_shrinker_registered,
    {
        self.kfree_shrinker_registered
    }

    pub fn pm_notifier_registered(&self) -> (r: bool)
        ensures
            r == self.pm_notifier_registered,
    {
        self.pm_notifier_registered
    }

    pub fn gp_threads_deferred(&self) -> (r: bool)
        ensures
            r == self.gp_threads_deferred,
    {
        self.gp_threads_deferred
    }

    pub fn runtime_read_side_full_semantics_deferred(&self) -> (r: bool)
        ensures
            r == self.runtime_read_side_full_semantics_deferred,
    {
        self.runtime_read_side_full_semantics_deferred
    }

    pub fn scheduler_starting_ready(&self) -> (r: bool)
        ensures
            r == self.scheduler_starting_ready,
    {
        self.scheduler_starting_ready
    }

    pub fn scheduler_active_init(&self) -> (r: bool)
        ensures
            r == self.scheduler_active_init,
    {
        self.scheduler_active_init
    }

    pub fn scheduler_start_single_online_cpu(&self) -> (r: bool)
        ensures
            r == self.scheduler_start_single_online_cpu,
    {
        self.scheduler_start_single_online_cpu
    }

    pub fn scheduler_start_local_irq_guarded(&self) -> (r: bool)
        ensures
            r == self.scheduler_start_local_irq_guarded,
    {
        self.scheduler_start_local_irq_guarded
    }

    pub fn scheduler_start_local_irq_save_count(&self) -> (r: usize)
        ensures
            r == self.scheduler_start_local_irq_save_count,
    {
        self.scheduler_start_local_irq_save_count
    }

    pub fn scheduler_start_local_irq_restore_count(&self) -> (r: usize)
        ensures
            r == self.scheduler_start_local_irq_restore_count,
    {
        self.scheduler_start_local_irq_restore_count
    }

    pub fn gp_seq_baseline_synced(&self) -> (r: bool)
        ensures
            r == self.gp_seq_baseline_synced,
    {
        self.gp_seq_baseline_synced
    }

    pub fn inkernel_boot_ended(&self) -> (r: bool)
        ensures
            r == self.inkernel_boot_ended,
    {
        self.inkernel_boot_ended
    }

    pub fn unexpedite_gp_atomic_decrement_recorded(&self) -> (r: bool)
        ensures
            r == self.unexpedite_gp_atomic_decrement_recorded,
    {
        self.unexpedite_gp_atomic_decrement_recorded
    }

    pub fn async_relax_config_lazy_trimmed(&self) -> (r: bool)
        ensures
            r == self.async_relax_config_lazy_trimmed,
    {
        self.async_relax_config_lazy_trimmed
    }

    pub fn normal_after_boot_write_once_trimmed_or_recorded(&self) -> (r: bool)
        ensures
            r == self.normal_after_boot_write_once_trimmed_or_recorded,
    {
        self.normal_after_boot_write_once_trimmed_or_recorded
    }

    pub fn boot_ended_publish_recorded(&self) -> (r: bool)
        ensures
            r == self.boot_ended_publish_recorded,
    {
        self.boot_ended_publish_recorded
    }

    /// The conditions on the RCU core and its dependencies.
    pub open spec fn setup_guard(
        &self,
        scheduler_state: State,
        workqueue: &Workqueue,
        softirq_state: State,
        cpu_group: &CpuGroup,
        per_cpu_storage_state: State,
    ) -> bool {
        &&& self.lifecycle@ == State::Base
        &&& scheduler_state == State::Online
        &&& workqueue.state == State::Prepared
        &&& softirq_state == State::Prepared
        &&& cpu_group.state == State::Ready
        &&& per_cpu_storage_state == State::Ready
    }

    /// Brings the RCU core up: the softirq action (whose registration the caller performs
    /// once the guards hold and reports as `softirq_registration`, with whether the action
    /// is then registered), the tasks-RCU flavours, the node tree and the per-CPU data.
    pub fn setup(
        &mut self,
        scheduler_state: State,
        workqueue: &Workqueue,
        softirq_state: State,
        softirq_registration: EventResult,
        rcu_action_registered: bool,
        cpu_group: &CpuGroup,
        per_cpu_storage_state: State,
    ) -> (r: EventResult)
        ensures
            !old(self).setup_guard(
                scheduler_state,
                workqueue,
                softirq_state,
                cpu_group,
                per_cpu_storage_state,
            ) ==> r == Err::<(), EventError>(
                condition_error(
                    LifecycleEvent::Setup,
                    old(self).lifecycle@,
                    State::Base,
                    State::Ready,
                ),
            ) && *final(self) == *old(self),
            old(self).setup_guard(
                scheduler_state,
                workqueue,
                softirq_state,
                cpu_group,
                per_cpu_storage_state,
            ) && softirq_registration is Err ==> r == softirq_registration && *final(self)
                == *old(self),
            r is Ok ==> {
                &&& final(self).lifecycle@ == State::Ready
                &&& final(self).tasks_rcu.lifecycle@ == State::Prepared
                &&& final(self).boot_cpu_online_ready
                &&& final(self).softirq_registered == rcu_action_registered
                &&& rcu_action_registered
                &&& workqueue.system_queues_ready
                &&& cpu_group.boot_cpu_state == State::Online
                &&& cpu_group.possible_cpu_count != 0
                &&& final(self).gp_threads_deferred
                &&& !final(self).scheduler_starting_ready
                &&& !final(self).inkernel_boot_ended
            },
            old(self).setup_guard(
                scheduler_state,
                workqueue,
                softirq_state,
                cpu_group,
                per_cpu_storage_state,
            ) && softirq_registration is Ok && old(self).tasks_rcu.lifecycle@ == State::Base
                && rcu_action_registered && workqueue.system_queues_ready
                && cpu_group.boot_cpu_state == State::Online && cpu_group.possible_cpu_count != 0
                ==> r is Ok,
    {
        if self.lifecycle.state() != State::Base || scheduler_state != State::Online
            || workqueue.state != State::Prepared || softirq_state != State::Prepared
            || cpu_group.state != State::Ready || per_cpu_storage_state != State::Ready {
            return self.failed_setup();
        }
        if softirq_registration.is_err() {
            return softirq_registration;
        }
        let tr = self.tasks_rcu.preset(per_cpu_storage_state, workqueue);
        if tr.is_err() {
            return tr;
        }
        self.boot_cpu_online_ready = cpu_group.boot_cpu_state == State::Online;
        self.softirq_registered = rcu_action_registered;
        self.workqueues_ready = workqueue.system_queues_ready;
        self.node_tree_ready = cpu_group.possible_cpu_count != 0;
        self.node_locks_ready = true;
        self.node_waitqueues_ready = true;
        self.node_poll_work_ready = true;
        self.percpu_data_ready = per_cpu_storage_state == State::Ready;
        self.kfree_batch_ready = workqueue.system_queues_ready;
        self.kfree_shrinker_registered = true;
        self.pm_notifier_registered = true;
        self.gp_threads_deferred = true;
        self.runtime_read_side_full_semantics_deferred = true;
        self.scheduler_starting_ready = false;
        self.scheduler_active_init = false;
        self.scheduler_start_single_online_cpu = false;
        self.scheduler_start_local_irq_guarded = false;
        self.scheduler_start_local_irq_save_count = 0;
        self.scheduler_start_local_irq_restore_count = 0;
        self.gp_seq_baseline_synced = false;
        self.inkernel_boot_ended = false;
        self.unexpedite_gp_atomic_decrement_recorded = false;
        self.async_relax_config_lazy_trimmed = false;
        self.normal_after_boot_write_once_trimmed_or_recorded = false;
        self.boot_ended_publish_recorded = false;
        if !self.boot_cpu_online_ready || !self.softirq_registered || !self.workqueues_ready
            || !self.node_tree_ready || !self.node_locks_ready || !self.node_waitqueues_ready
            || !self.node_poll_work_ready || !self.percpu_data_ready || !self.kfree_batch_ready
            || !self.kfree_shrinker_registered || !self.pm_notifier_registered
            || !self.runtime_read_side_full_semantics_deferred {
            return self.failed_setup();
        }
        self.lifecycle.transition(LifecycleEvent::Setup, State::Base, State::Ready)
    }

    /// Marks the scheduler as starting, inside a local-interrupt-disabled section. The caller
    /// saves and disables local interrupts once the guards hold, runs this section, and
    /// restores them; `irq` reports what it observed.
    /// The conditions under which the scheduler-start section runs.
    pub open spec fn scheduler_start_guard(
        &self,
        scheduler_state: State,
        cpu_group: &CpuGroup,
        local_interrupt_state: State,
    ) -> bool {
        &&& self.lifecycle@ == State::Ready
        &&& scheduler_state == State::Online
        &&& cpu_group.state == State::Ready
        &&& local_interrupt_state == State::Ready
    }

    #[verifier::rlimit(40)]
    pub fn scheduler_start(
        &mut self,
        scheduler_state: State,
        cpu_group: &CpuGroup,
        local_interrupt_state: State,
        irq: LocalIrqObservation,
    ) -> (r: EventResult)
        ensures
            !old(self).scheduler_start_guard(scheduler_state, cpu_group, local_interrupt_state)
                ==> r == Err::<(), EventError>(
                condition_error(
                    LifecycleEvent::Setup,
                    old(self).lifecycle@,
                    State::Ready,
                    State::Ready,
                ),
            ) && *final(self) == *old(self),
            final(self).lifecycle == old(self).lifecycle,
            old(self).scheduler_start_guard(scheduler_state, cpu_group, local_interrupt_state)
                && !(cpu_group.boot_cpu_state == State::Online && old(self).gp_threads_deferred)
                ==> r == Err::<(), EventError>(
                condition_error(
                    LifecycleEvent::Setup,
                    old(self).lifecycle@,
                    State::Ready,
                    State::Ready,
                ),
            ),
            old(self).scheduler_start_guard(scheduler_state, cpu_group, local_interrupt_state)
                && cpu_group.boot_cpu_state == State::Online && old(self).gp_threads_deferred
                && irq.save_result is Err ==> r == irq.save_result,
            old(self).scheduler_start_guard(scheduler_state, cpu_group, local_interrupt_state)
                && cpu_group.boot_cpu_state == State::Online && old(self).gp_threads_deferred
                && irq.save_result == Ok::<(), EventError>(()) ==> r == irq.restore_result
                && final(self).scheduler_starting_ready && final(self).scheduler_active_init
                && final(self).gp_seq_baseline_synced
                && final(self).scheduler_start_single_online_cpu
                && final(self).scheduler_start_local_irq_save_count
                == irq.saved_count_while_saved,
            old(self).scheduler_start_guard(scheduler_state, cpu_group, local_interrupt_state)
                && cpu_group.boot_cpu_state == State::Online && old(self).gp_threads_deferred
                && irq.save_result == Ok::<(), EventError>(())
                && irq.restore_result == Ok::<(), EventError>(())
                ==> final(self).scheduler_start_local_irq_restore_count == irq.restored_count
                && final(self).scheduler_start_local_irq_guarded == (irq.disabled_while_saved
                && irq.saved_count_while_saved == vstd::wrapping::usize_specs::wrapping_add(
                irq.saved_before,
                1,
            ) && irq.restored_count != 0),
    {
        if self.lifecycle.state() != State::Ready || scheduler_state != State::Online
            || cpu_group.state != State::Ready || local_interrupt_state != State::Ready {
            return failed_condition(
                LifecycleEvent::Setup,
                self.lifecycle.state(),
                State::Ready,
                State::Ready,
            );
        }
        self.scheduler_start_single_online_cpu = cpu_group.boot_cpu_state == State::Online;
        if !self.scheduler_start_single_online_cpu || !self.gp_threads_deferred {
            return failed_condition(
                LifecycleEvent::Setup,
                self.lifecycle.state(),
                State::Ready,
                State::Ready,
            );
        }
        let saved_before = irq.saved_before;
        if irq.save_result.is_err() {
            return irq.save_result;
        }
        self.scheduler_starting_ready = true;
        self.scheduler_active_init = true;
        self.gp_seq_baseline_synced = true;
        self.scheduler_start_local_irq_guarded = irq.disabled_while_saved;
        self.scheduler_start_local_irq_save_count = irq.saved_count_while_saved;
        if irq.restore_result.is_ok() {
            self.scheduler_start_local_irq_restore_count = irq.restored_count;
            self.scheduler_start_local_irq_guarded = self.scheduler_start_local_irq_guarded
                && self.scheduler_start_local_irq_save_count == saved_before.wrapping_add(1)
                && self.scheduler_start_local_irq_restore_count != 0;
        }
        irq.restore_result
    }

    /// Ends the in-kernel boot phase of RCU, once.
    pub fn end_inkernel_boot(&mut self) -> (r: bool)
        ensures
            r == (old(self).lifecycle@ == State::Ready && !old(self).inkernel_boot_ended),
            !r ==> *final(self) == *old(self),
            r ==> *final(self) == (RcuCore {
                unexpedite_gp_atomic_decrement_recorded: true,
                async_relax_config_lazy_trimmed: true,
                normal_after_boot_write_once_trimmed_or_recorded: true,
                boot_ended_publish_recorded: true,
                inkernel_boot_ended: true,
                ..*old(self)
            }),
    {
        if self.lifecycle.state() != State::Ready || self.inkernel_boot_ended {
            return false;
        }
        self.unexpedite_gp_atomic_decrement_recorded = true;
        self.async_relax_config_lazy_trimmed = true;
        self.normal_after_boot_write_once_trimmed_or_recorded = true;
        self.boot_ended_publish_recorded = true;
        self.inkernel_boot_ended = true;
        true
    }

    fn failed_setup(&self) -> (r: EventResult)
        ensures
            r == Err::<(), EventError>(
                condition_error(LifecycleEvent::Setup, self.lifecycle@, State::Base, State::Ready),
            ),
    {
        failed_condition(LifecycleEvent::Setup, self.lifecycle.state(), State::Base, State::Ready)
    }
}

pub struct TasksRcu {
    pub lifecycle: Lifecycle,
    pub callback_lists_ready: bool,
    pub enabled_flavor_count: usize,
    pub percpu_arrays_ready: bool,
    pub percpu_locks_ready: bool,
    pub percpu_work_ready: bool,
    pub barrier_heads_ready: bool,
    pub gp_threads_deferred: bool,
    pub gp_threads_ready: bool,
}

impl TasksRcu {
    pub fn new() -> (s: Self)
        ensures
            s.lifecycle@ == State::Base,
            !s.callback_lists_ready,
            s.enabled_flavor_count == 0,
            !s.percpu_arrays_ready,
            !s.percpu_locks_ready,
            !s.percpu_work_ready,
            !s.barrier_heads_ready,
            s.gp_threads_deferred,
            !s.gp_threads_ready,
    {
        Self {
            lifecycle: Lifecycle::new(State::Base),
            callback_lists_ready: false,
            enabled_flavor_count: 0,
            percpu_arrays_ready: false,
            percpu_locks_ready: false,
            percpu_work_ready: false,
            barrier_heads_ready: false,
            gp_threads_deferred: true,
            gp_threads_ready: false,
        }
    }

    pub fn state(&self) -> (r: State)
        ensures
            r == self.lifecycle@,
    {
        self.lifecycle.state()
    }

    pub fn callback_lists_ready(&self) -> (r: bool)
        ensures
            r == self.callback_lists_ready,
    {
        self.callback_lists_ready
    }

    pub fn enabled_flavor_count(&self) -> (r: usize)
        ensures
            r == self.enabled_flavor_count,
    {
        self.enabled_flavor_count
    }

    pub fn percpu_arrays_ready(&self) -> (r: bool)
        ensures
            r == self.percpu_arrays_ready,
    {
        self.percpu_arrays_ready
    }

    pub fn percpu_locks_ready(&self) -> (r: bool)
        ensures
            r == self.percpu_locks_ready,
    {
        self.percpu_locks_ready
    }

    pub fn percpu_work_ready(&self) -> (r: bool)
        ensures
            r == self.percpu_work_ready,
    {
        self.percpu_work_ready
    }

    pub fn barrier_heads_ready(&self) -> (r: bool)
        ensures
            r == self.barrier_heads_ready,
    {
        self.barrier_heads_ready
    }

    pub fn gp_threads_deferred(&self) -> (r: bool)
        ensures
            r == self.gp_threads_deferred,
    {
        self.gp_threads_deferred
    }

    pub fn gp_threads_ready(&self) -> (r: bool)
        ensures
            r == self.gp_threads_ready,
    {
        self.gp_threads_ready
    }

    pub fn preset(&mut self, per_cpu_storage_state: State, workqueue: &Workqueue) -> (r: EventResult)
        ensures
            !(old(self).lifecycle@ != State::Base || per_cpu_storage_state != State::Ready || workqueue.state != State::Prepared ) ==> {
                &&& r == Ok::<(), EventError>(())
                &&& final(self).lifecycle@ == State::Prepared
                &&& *final(self) == (TasksRcu {
                    callback_lists_ready: true,
                    enabled_flavor_count: 2,
                    percpu_arrays_ready: true,
                    percpu_locks_ready: true,
                    percpu_work_ready: workqueue.system_queues_ready,
                    barrier_heads_ready: true,
                    gp_threads_deferred: true,
                    gp_threads_ready: false,
                    lifecycle: final(self).lifecycle,
                    ..*old(self)
                })
            },
            old(self).lifecycle@ != State::Base || per_cpu_storage_state != State::Ready || workqueue.state != State::Prepared  ==> {
                &&& r == Err::<(), EventError>(
                    condition_error(
                        LifecycleEvent::Preset,
                        old(self).lifecycle@,
                        State::Base,
                        State::Prepared,
                    ),
                )
                &&& *final(self) == *old(self)
            },
    {
        if self.lifecycle.state() != State::Base || per_cpu_storage_state != State::Ready || workqueue.state != State::Prepared  {
            return failed_condition(
                LifecycleEvent::Preset,
                self.lifecycle.state(),
                State::Base,
                State::Prepared,
            );
        }
        self.callback_lists_ready = true;
        self.enabled_flavor_count = 2;
        self.percpu_arrays_ready = true;
        self.percpu_locks_ready = true;
        self.percpu_work_ready = workqueue.system_queues_ready;
        self.barrier_heads_ready = true;
        self.gp_threads_deferred = true;
        self.gp_threads_ready = false;
        self.lifecycle.transition(LifecycleEvent::Preset, State::Base, State::Prepared)
    }

    pub fn setup(&mut self) -> (r: EventResult)
        ensures
            !(old(self).lifecycle@ != State::Prepared || !old(self).callback_lists_ready || old(self).enabled_flavor_count == 0 ) ==> {
                &&& r == Ok::<(), EventError>(())
                &&& final(self).lifecycle@ == State::Ready
                &&& *final(self) == (TasksRcu {
                    gp_threads_deferred: false,
                    gp_threads_ready: true,
                    lifecycle: final(self).lifecycle,
                    ..*old(self)
                })
            },
            old(self).lifecycle@ != State::Prepared || !old(self).callback_lists_ready || old(self).enabled_flavor_count == 0  ==> {
                &&& r == Err::<(), EventError>(
                    condition_error(
                        LifecycleEvent::Setup,
                        old(self).lifecycle@,
                        State::Prepared,
                        State::Ready,
                    ),
                )
                &&& *final(self) == *old(self)
            },
    {
        if self.lifecycle.state() != State::Prepared || !self.callback_lists_ready || self.enabled_flavor_count == 0  {
            return failed_condition(
                LifecycleEvent::Setup,
                self.lifecycle.state(),
                State::Prepared,
                State::Ready,
            );
        }
        self.gp_threads_deferred = false;
        self.gp_threads_ready = true;
        self.lifecycle.transition(LifecycleEvent::Setup, State::Prepared, State::Ready)
    }
}

} // verus!
