use vstd::prelude::*;
use crate::state::{
    condition_error, failed_condition, EventError, EventErrorCode, EventResult, Lifecycle,
    LifecycleEvent, State,
};

verus! {

pub const BOOT_CPU_ID: usize = 0;
#[derive(Clone, Copy, PartialEq, Eq, Structural, Debug)]
pub enum RcuSyncExtState {
    Idle,
    WriterActive,
}
#[derive(Clone, Copy, PartialEq, Eq, Structural, Debug)]
pub enum PerCpuRwSemaphoreInitKind {
    StaticInitializer,
    RuntimeInit,
}
#[derive(Clone, Copy, PartialEq, Eq, Structural, Debug)]
pub enum PerCpuRwSemaphoreExtState {
    ReadersFast,
    WriterBlocked,
    WriterActive,
}
#[derive(Clone, Copy, PartialEq, Eq, Structural, Debug)]
pub enum PerCpuRwSemaphoreOwner {
    Unowned,
    BootTask,
    KernelInitTask,
    SmokeRwsemTask,
}
#[derive(Clone, Copy, PartialEq, Eq, Structural, Debug)]
pub enum PerCpuRwSemaphoreReadOutcome {
    AcquiredFast,
    Blocked,
}
#[derive(Clone, Copy, PartialEq, Eq, Structural, Debug)]
pub enum PerCpuRwSemaphoreWriteOutcome {
    Acquired,
    Blocked,
}

pub struct RcuSync {
    pub lifecycle: Lifecycle,
    pub ext_state: RcuSyncExtState,
    pub entered_count: usize,
    pub exited_count: usize,
    pub grace_period_count: usize,
}
impl RcuSync {
    pub fn new() -> (s: Self)
        ensures
            s.lifecycle@ == State::Base,
            s.ext_state == RcuSyncExtState::Idle,
            s.entered_count == 0,
            s.exited_count == 0,
            s.grace_period_count == 0,
    {
        Self {
            lifecycle: Lifecycle::new(State::Base),
            ext_state: RcuSyncExtState::Idle,
            entered_count: 0,
            exited_count: 0,
            grace_period_count: 0,
        }
    }

    pub fn state(&self) -> (r: State)
        ensures
            r == self.lifecycle@,
    {
        self.lifecycle.state()
    }

    pub fn ext_state(&self) -> (r: RcuSyncExtState)
        ensures
            r == self.ext_state,
    {
        self.ext_state
    }

    pub fn entered_count(&self) -> (r: usize)
        ensures
            r == self.entered_count,
    {
        self.entered_count
    }

    pub fn exited_count(&self) -> (r: usize)
        ensures
            r == self.exited_count,
    {
        self.exited_count
    }

    pub fn grace_period_count(&self) -> (r: usize)
        ensures
            r == self.grace_period_count,
    {
        self.grace_period_count
    }

    pub fn idle(&self) -> (r: bool)
        ensures
            r == (self.ext_state == RcuSyncExtState::Idle),
    {
        matches!(self.ext_state, RcuSyncExtState::Idle)
    }

    pub fn preset(&mut self) -> (r: EventResult)
        ensures
            old(self).lifecycle@ == State::Base ==> r is Ok && final(self).lifecycle@
                == State::Prepared && final(self).ext_state == RcuSyncExtState::Idle
                && final(self).entered_count == old(self).entered_count && final(self).exited_count
                == old(self).exited_count && final(self).grace_period_count == old(self).grace_period_count
                && *final(self) == (RcuSync {
                ext_state: RcuSyncExtState::Idle,
                lifecycle: final(self).lifecycle,
                ..*old(self)
            }),
            old(self).lifecycle@ != State::Base ==> r == Err::<(), EventError>(
                condition_error(
                    LifecycleEvent::Preset,
                    old(self).lifecycle@,
                    State::Base,
                    State::Prepared,
                ),
            ) && *final(self) == *old(self),
    {
        if self.lifecycle.state() != State::Base {
            return self.failed_transition(LifecycleEvent::Preset, State::Base, State::Prepared);
        }
        self.ext_state = RcuSyncExtState::Idle;
        self.lifecycle.transition(LifecycleEvent::Preset, State::Base, State::Prepared)
    }

    pub fn setup(&mut self) -> (r: EventResult)
        ensures
            r == rcu_setup_result(*old(self)),
            old(self).lifecycle@ == State::Prepared && old(self).ext_state == RcuSyncExtState::Idle
                ==> final(self).lifecycle@ == State::Ready && final(self).ext_state
                == old(self).ext_state && final(self).entered_count == old(self).entered_count
                && final(self).exited_count == old(self).exited_count
                && final(self).grace_period_count == old(self).grace_period_count
                && *final(self) == (RcuSync { lifecycle: final(self).lifecycle, ..*old(self) }),
            !(old(self).lifecycle@ == State::Prepared && old(self).ext_state
                == RcuSyncExtState::Idle) ==> *final(self) == *old(self),
    {
        if self.lifecycle.state() != State::Prepared || !self.idle() {
            return self.failed_transition(LifecycleEvent::Setup, State::Prepared, State::Ready);
        }
        self.lifecycle.transition(LifecycleEvent::Setup, State::Prepared, State::Ready)
    }

    /// A writer enters: only from idle, in the ready state.
    pub fn enter(&mut self) -> (r: EventResult)
        ensures
            r == rcu_enter_result(*old(self)),
            *final(self) == rcu_enter_state(*old(self)),
    {
        if self.lifecycle.state() != State::Ready || !self.idle() {
            return self.failed_transition(LifecycleEvent::Enable, State::Ready, State::Ready);
        }
        self.ext_state = RcuSyncExtState::WriterActive;
        self.entered_count = self.entered_count.wrapping_add(1);
        Ok(())
    }

    /// The writer leaves, which completes one grace period.
    pub fn exit(&mut self) -> (r: EventResult)
        ensures
            r == rcu_exit_result(*old(self)),
            *final(self) == rcu_exit_state(*old(self)),
    {
        if self.lifecycle.state() != State::Ready || !matches!(
            self.ext_state,
            RcuSyncExtState::WriterActive
        ) {
            return self.failed_transition(LifecycleEvent::Disable, State::Ready, State::Ready);
        }
        self.ext_state = RcuSyncExtState::Idle;
        self.exited_count = self.exited_count.wrapping_add(1);
        self.grace_period_count = self.grace_period_count.wrapping_add(1);
        Ok(())
    }

    fn failed_transition(&self, event: LifecycleEvent, expected: State, target: State) -> (r:
        EventResult)
        ensures
            r == Err::<(), EventError>(condition_error(event, self.lifecycle@, expected, target)),
    {
        failed_condition(event, self.lifecycle.state(), expected, target)
    }
}

pub open spec fn rcu_setup_result(s: RcuSync) -> EventResult {
    if s.lifecycle@ == State::Prepared && s.ext_state == RcuSyncExtState::Idle {
        Ok(())
    } else {
        Err(condition_error(LifecycleEvent::Setup, s.lifecycle@, State::Prepared, State::Ready))
    }
}

pub open spec fn rcu_enter_result(s: RcuSync) -> EventResult {
    if s.lifecycle@ == State::Ready && s.ext_state == RcuSyncExtState::Idle {
        Ok(())
    } else {
        Err(condition_error(LifecycleEvent::Enable, s.lifecycle@, State::Ready, State::Ready))
    }
}

pub open spec fn rcu_enter_state(s: RcuSync) -> RcuSync {
    if s.lifecycle@ == State::Ready && s.ext_state == RcuSyncExtState::Idle {
        RcuSync {
            ext_state: RcuSyncExtState::WriterActive,
            entered_count: s.entered_count.wrapping_add(1),
            ..s
        }
    } else {
        s
    }
}

pub open spec fn rcu_exit_result(s: RcuSync) -> EventResult {
    if s.lifecycle@ == State::Ready && s.ext_state == RcuSyncExtState::WriterActive {
        Ok(())
    } else {
        Err(condition_error(LifecycleEvent::Disable, s.lifecycle@, State::Ready, State::Ready))
    }
}

pub open spec fn rcu_exit_state(s: RcuSync) -> RcuSync {
    if s.lifecycle@ == State::Ready && s.ext_state == RcuSyncExtState::WriterActive {
        RcuSync {
            ext_state: RcuSyncExtState::Idle,
            exited_count: s.exited_count.wrapping_add(1),
            grace_period_count: s.grace_period_count.wrapping_add(1),
            ..s
        }
    } else {
        s
    }
}

/// Entering and then leaving the sync section returns an idle sync to idle and completes one
/// grace period.
pub proof fn lemma_rcu_enter_exit_roundtrip(s: RcuSync)
    requires
        s.lifecycle@ == State::Ready,
        s.ext_state == RcuSyncExtState::Idle,
    ensures
        rcu_enter_result(s) is Ok,
        rcu_exit_result(rcu_enter_state(s)) is Ok,
        rcu_exit_state(rcu_enter_state(s)).ext_state == RcuSyncExtState::Idle,
        rcu_exit_state(rcu_enter_state(s)).grace_period_count == s.grace_period_count.wrapping_add(
            1,
        ),
{
}

pub struct PerCpuRwSemaphore {
    pub lifecycle: Lifecycle,
    pub init_kind: PerCpuRwSemaphoreInitKind,
    pub ext_state: PerCpuRwSemaphoreExtState,
    pub rcu_sync: RcuSync,
    pub storage_bound: bool,
    pub percpu_read_counter_bound: bool,
    pub boot_cpu_read_available: bool,
    pub writer_wait_ready: bool,
    pub wait_queue_ready: bool,
    pub block: bool,
    pub active_readers: usize,
    pub reader_counts: [usize; 4],
    pub writer: PerCpuRwSemaphoreOwner,
    pub pending_writer: PerCpuRwSemaphoreOwner,
    pub read_lock_count: usize,
    pub read_unlock_count: usize,
    pub read_blocked_count: usize,
    pub read_try_count: usize,
    pub read_try_failed_count: usize,
    pub write_lock_count: usize,
    pub write_unlock_count: usize,
    pub writer_blocked_count: usize,
    pub reader_drain_count: usize,
    pub wake_count: usize,
}
impl PerCpuRwSemaphore {
    pub fn new_static() -> (s: Self)
        ensures
            s.lifecycle@ == State::Base,
            s.init_kind == PerCpuRwSemaphoreInitKind::StaticInitializer,
            s.ext_state == PerCpuRwSemaphoreExtState::ReadersFast,
            s.rcu_sync.lifecycle@ == State::Base && s.rcu_sync.ext_state == RcuSyncExtState::Idle,
            !s.storage_bound,
            !s.percpu_read_counter_bound,
            !s.boot_cpu_read_available,
            !s.writer_wait_ready,
            !s.wait_queue_ready,
            !s.block,
            s.active_readers == 0,
            s.reader_counts@ == seq![0usize, 0, 0, 0],
            s.writer == PerCpuRwSemaphoreOwner::Unowned,
            s.pending_writer == PerCpuRwSemaphoreOwner::Unowned,
            s.read_lock_count == 0,
            s.read_unlock_count == 0,
            s.read_blocked_count == 0,
            s.read_try_count == 0,
            s.read_try_failed_count == 0,
            s.write_lock_count == 0,
            s.write_unlock_count == 0,
            s.writer_blocked_count == 0,
            s.reader_drain_count == 0,
            s.wake_count == 0,
    {
        Self {
            lifecycle: Lifecycle::new(State::Base),
            init_kind: PerCpuRwSemaphoreInitKind::StaticInitializer,
            ext_state: PerCpuRwSemaphoreExtState::ReadersFast,
            rcu_sync: RcuSync::new(),
            storage_bound: false,
            percpu_read_counter_bound: false,
            boot_cpu_read_available: false,
            writer_wait_ready: false,
            wait_queue_ready: false,
            block: false,
            active_readers: 0,
            reader_counts: [0, 0, 0, 0],
            writer: PerCpuRwSemaphoreOwner::Unowned,
            pending_writer: PerCpuRwSemaphoreOwner::Unowned,
            read_lock_count: 0,
            read_unlock_count: 0,
            read_blocked_count: 0,
            read_try_count: 0,
            read_try_failed_count: 0,
            write_lock_count: 0,
            write_unlock_count: 0,
            writer_blocked_count: 0,
            reader_drain_count: 0,
            wake_count: 0,
        }
    }

    pub fn state(&self) -> (r: State)
        ensures
            r == self.lifecycle@,
    {
        self.lifecycle.state()
    }

    pub fn init_kind(&self) -> (r: PerCpuRwSemaphoreInitKind)
        ensures
            r == self.init_kind,
    {
        self.init_kind
    }

    pub fn ext_state(&self) -> (r: PerCpuRwSemaphoreExtState)
        ensures
            r == self.ext_state,
    {
        self.ext_state
    }

    pub fn rcu_sync(&self) -> (r: &RcuSync)
        ensures
            *r == self.rcu_sync,
    {
        &self.rcu_sync
    }

    pub fn storage_bound(&self) -> (r: bool)
        ensures
            r == self.storage_bound,
    {
        self.storage_bound
    }

    pub fn percpu_read_counter_bound(&self) -> (r: bool)
        ensures
            r == self.percpu_read_counter_bound,
    {
        self.percpu_read_counter_bound
    }

    pub fn boot_cpu_read_available(&self) -> (r: bool)
        ensures
            r == self.boot_cpu_read_available,
    {
        self.boot_cpu_read_available
    }

    pub fn wait_queue_ready(&self) -> (r: bool)
        ensures
            r == self.wait_queue_ready,
    {
        self.wait_queue_ready
    }

    pub fn block_flag_clear(&self) -> (r: bool)
        ensures
            r == !self.block,
    {
        !self.block
    }

    pub fn active_readers(&self) -> (r: usize)
        ensures
            r == self.active_readers,
    {
        self.active_readers
    }

    pub fn writer(&self) -> (r: PerCpuRwSemaphoreOwner)
        ensures
            r == self.writer,
    {
        self.writer
    }

    pub fn pending_writer(&self) -> (r: PerCpuRwSemaphoreOwner)
        ensures
            r == self.pending_writer,
    {
        self.pending_writer
    }

    pub fn read_lock_count(&self) -> (r: usize)
        ensures
            r == self.read_lock_count,
    {
        self.read_lock_count
    }

    pub fn read_unlock_count(&self) -> (r: usize)
        ensures
            r == self.read_unlock_count,
    {
        self.read_unlock_count
    }

    pub fn read_blocked_count(&self) -> (r: usize)
        ensures
            r == self.read_blocked_count,
    {
        self.read_blocked_count
    }

    pub fn read_try_count(&self) -> (r: usize)
        ensures
            r == self.read_try_count,
    {
        self.read_try_count
    }

    pub fn read_try_failed_count(&self) -> (r: usize)
        ensures
            r == self.read_try_failed_count,
    {
        self.read_try_failed_count
    }

    pub fn write_lock_count(&self) -> (r: usize)
        ensures
            r == self.write_lock_count,
    {
        self.write_lock_count
    }

    pub fn write_unlock_count(&self) -> (r: usize)
        ensures
            r == self.write_unlock_count,
    {
        self.write_unlock_count
    }

    pub fn writer_blocked_count(&self) -> (r: usize)
        ensures
            r == self.writer_blocked_count,
    {
        self.writer_blocked_count
    }

    pub fn reader_drain_count(&self) -> (r: usize)
        ensures
            r == self.reader_drain_count,
    {
        self.reader_drain_count
    }

    pub fn wake_count(&self) -> (r: usize)
        ensures
            r == self.wake_count,
    {
        self.wake_count
    }

    pub open spec fn spec_ready(&self) -> bool {
        &&& self.lifecycle@ == State::Ready
        &&& self.storage_bound
        &&& self.percpu_read_counter_bound
        &&& self.boot_cpu_read_available
        &&& self.writer_wait_ready
        &&& self.wait_queue_ready
        &&& !self.block
        &&& self.active_readers == 0
        &&& self.writer == PerCpuRwSemaphoreOwner::Unowned
        &&& self.pending_writer == PerCpuRwSemaphoreOwner::Unowned
        &&& self.rcu_sync.lifecycle@ == State::Ready
        &&& self.rcu_sync.ext_state == RcuSyncExtState::Idle
    }

    pub open spec fn spec_readers_fast(&self) -> bool {
        &&& self.lifecycle@ == State::Ready
        &&& self.ext_state == PerCpuRwSemaphoreExtState::ReadersFast
        &&& !self.block
        &&& self.writer == PerCpuRwSemaphoreOwner::Unowned
        &&& self.rcu_sync.ext_state == RcuSyncExtState::Idle
    }

    pub fn ready(&self) -> (r: bool)
        ensures
            r == self.spec_ready(),
    {
        self.lifecycle.state() == State::Ready && self.storage_bound
            && self.percpu_read_counter_bound && self.boot_cpu_read_available
            && self.writer_wait_ready && self.wait_queue_ready && !self.block && self.active_readers
            == 0 && self.writer == PerCpuRwSemaphoreOwner::Unowned && self.pending_writer
            == PerCpuRwSemaphoreOwner::Unowned && self.rcu_sync.state() == State::Ready
            && self.rcu_sync.idle()
    }

    pub fn readers_fast(&self) -> (r: bool)
        ensures
            r == self.spec_readers_fast(),
    {
        self.lifecycle.state() == State::Ready && self.ext_state
            == PerCpuRwSemaphoreExtState::ReadersFast && !self.block && self.writer
            == PerCpuRwSemaphoreOwner::Unowned && self.rcu_sync.idle()
    }

    pub fn boot_init_task_read_guard_completed(&self) -> (r: bool)
        ensures
            r == (self.lifecycle@ == State::Ready && self.read_lock_count > 0
                && self.read_unlock_count == self.read_lock_count && self.active_readers == 0
                && self.spec_readers_fast()),
    {
        self.lifecycle.state() == State::Ready && self.read_lock_count > 0
            && self.read_unlock_count == self.read_lock_count && self.active_readers == 0
            && self.readers_fast()
    }

    pub fn preset_static(&mut self) -> (r: EventResult)
        ensures
            old(self).lifecycle@ == State::Base && old(self).init_kind
                == PerCpuRwSemaphoreInitKind::StaticInitializer && old(self).rcu_sync.lifecycle@
                == State::Base ==> r is Ok && final(self).lifecycle@ == State::Prepared
                && final(self).rcu_sync.lifecycle@ == State::Prepared && final(self).storage_bound
                && final(self).percpu_read_counter_bound && final(self).writer_wait_ready
                && final(self).rcu_sync.ext_state == RcuSyncExtState::Idle && final(self).rcu_sync
                == (RcuSync {
                ext_state: RcuSyncExtState::Idle,
                lifecycle: final(self).rcu_sync.lifecycle,
                ..old(self).rcu_sync
            }) && *final(self) == (PerCpuRwSemaphore {
                storage_bound: true,
                percpu_read_counter_bound: true,
                writer_wait_ready: true,
                lifecycle: final(self).lifecycle,
                rcu_sync: final(self).rcu_sync,
                ..*old(self)
            }),
            !(old(self).lifecycle@ == State::Base && old(self).init_kind
                == PerCpuRwSemaphoreInitKind::StaticInitializer) ==> r == Err::<(), EventError>(
                condition_error(
                    LifecycleEvent::Preset,
                    old(self).lifecycle@,
                    State::Base,
                    State::Prepared,
                ),
            ) && *final(self) == *old(self),
            old(self).lifecycle@ == State::Base && old(self).init_kind
                == PerCpuRwSemaphoreInitKind::StaticInitializer && old(self).rcu_sync.lifecycle@
                != State::Base ==> r == Err::<(), EventError>(
                condition_error(
                    LifecycleEvent::Preset,
                    old(self).rcu_sync.lifecycle@,
                    State::Base,
                    State::Prepared,
                ),
            ) && *final(self) == *old(self),
    {
        if self.lifecycle.state() != State::Base || self.init_kind
            != PerCpuRwSemaphoreInitKind::StaticInitializer {
            return self.failed_transition(LifecycleEvent::Preset, State::Base, State::Prepared);
        }
        self.rcu_sync.preset()?;
        self.storage_bound = true;
        self.percpu_read_counter_bound = true;
        self.writer_wait_ready = true;
        self.lifecycle.transition(LifecycleEvent::Preset, State::Base, State::Prepared)
    }

    /// The static preset, once per-CPU storage is at least prepared.
    pub fn preset_static_with_per_cpu_storage(&mut self, per_cpu_storage_state: State) -> (r:
        EventResult)
        ensures
            per_cpu_storage_state != State::Prepared && per_cpu_storage_state != State::Ready
                ==> r == Err::<(), EventError>(
                condition_error(
                    LifecycleEvent::Preset,
                    old(self).lifecycle@,
                    State::Base,
                    State::Prepared,
                ),
            ) && *final(self) == *old(self),
            (per_cpu_storage_state == State::Prepared || per_cpu_storage_state == State::Ready)
                && old(self).lifecycle@ == State::Base && old(self).init_kind
                == PerCpuRwSemaphoreInitKind::StaticInitializer && old(self).rcu_sync.lifecycle@
                == State::Base ==> r is Ok && final(self).lifecycle@ == State::Prepared,
            r is Err ==> *final(self) == *old(self),
    {
        if per_cpu_storage_state != State::Prepared && per_cpu_storage_state != State::Ready {
            return self.failed_transition(LifecycleEvent::Preset, State::Base, State::Prepared);
        }
        self.preset_static()
    }

    pub fn setup(&mut self) -> (r: EventResult)
        ensures
            old(self).lifecycle@ == State::Prepared && old(self).storage_bound && old(self).percpu_read_counter_bound && old(self).writer_wait_ready ==> r == rcu_setup_result(
                old(self).rcu_sync,
            ),
            old(self).lifecycle@ == State::Prepared && old(self).storage_bound && old(self).percpu_read_counter_bound && old(self).writer_wait_ready && r is Ok ==> {
                &&& final(self).lifecycle@ == State::Ready
                &&& final(self).rcu_sync.lifecycle@ == State::Ready
                &&& final(self).wait_queue_ready
                &&& final(self).boot_cpu_read_available
                &&& !final(self).block
                &&& final(self).ext_state == PerCpuRwSemaphoreExtState::ReadersFast
                &&& final(self).writer == PerCpuRwSemaphoreOwner::Unowned
                &&& final(self).pending_writer == PerCpuRwSemaphoreOwner::Unowned
                &&& final(self).rcu_sync == (RcuSync {
                    lifecycle: final(self).rcu_sync.lifecycle,
                    ..old(self).rcu_sync
                })
                &&& *final(self) == (PerCpuRwSemaphore {
                    wait_queue_ready: true,
                    boot_cpu_read_available: true,
                    block: false,
                    ext_state: PerCpuRwSemaphoreExtState::ReadersFast,
                    writer: PerCpuRwSemaphoreOwner::Unowned,
                    pending_writer: PerCpuRwSemaphoreOwner::Unowned,
                    lifecycle: final(self).lifecycle,
                    rcu_sync: final(self).rcu_sync,
                    ..*old(self)
                })
            },
            !(old(self).lifecycle@ == State::Prepared && old(self).storage_bound && old(self).percpu_read_counter_bound && old(self).writer_wait_ready) ==> r == Err::<
                (),
                EventError,
            >(
                condition_error(
                    LifecycleEvent::Setup,
                    old(self).lifecycle@,
                    State::Prepared,
                    State::Ready,
                ),
            ),
            r is Err ==> *final(self) == *old(self),
    {
        if self.lifecycle.state() != State::Prepared || !self.storage_bound
            || !self.percpu_read_counter_bound || !self.writer_wait_ready {
            return self.failed_transition(LifecycleEvent::Setup, State::Prepared, State::Ready);
        }
        self.rcu_sync.setup()?;
        self.wait_queue_ready = true;
        self.boot_cpu_read_available = true;
        self.block = false;
        self.ext_state = PerCpuRwSemaphoreExtState::ReadersFast;
        self.writer = PerCpuRwSemaphoreOwner::Unowned;
        self.pending_writer = PerCpuRwSemaphoreOwner::Unowned;
        self.lifecycle.transition(LifecycleEvent::Setup, State::Prepared, State::Ready)
    }

    /// Readers take the fast path on the boot CPU unless a writer is active or waiting.
    pub fn read_lock_owner(&mut self, owner: PerCpuRwSemaphoreOwner, cpu_id: usize) -> (r: Result<
        PerCpuRwSemaphoreReadOutcome,
        EventError,
    >)
        ensures
            r == read_lock_result(*old(self), owner, cpu_id),
            read_lock_result(*old(self), owner, cpu_id) is Err ==> *final(self) == *old(self),
            r == Ok::<PerCpuRwSemaphoreReadOutcome, EventError>(
                PerCpuRwSemaphoreReadOutcome::Blocked,
            ) ==> *final(self) == (PerCpuRwSemaphore {
                read_blocked_count: old(self).read_blocked_count.wrapping_add(1),
                ..*old(self)
            }),
            r == Ok::<PerCpuRwSemaphoreReadOutcome, EventError>(
                PerCpuRwSemaphoreReadOutcome::AcquiredFast,
            ) ==> {
                &&& final(self).reader_counts@ == old(self).reader_counts@.update(
                    owner.slot(),
                    old(self).reader_counts@[owner.slot()].wrapping_add(1),
                )
                &&& *final(self) == (PerCpuRwSemaphore {
                    reader_counts: final(self).reader_counts,
                    active_readers: old(self).active_readers.wrapping_add(1),
                    read_lock_count: old(self).read_lock_count.wrapping_add(1),
                    ext_state: PerCpuRwSemaphoreExtState::ReadersFast,
                    ..*old(self)
                })
            },
    {
        if self.lifecycle.state() != State::Ready || !self.boot_cpu_read_available
            || !owner.valid() || cpu_id != BOOT_CPU_ID {
            return Err(self.failed_error(LifecycleEvent::Enable, State::Ready, State::Ready));
        }
        if self.block || self.writer != PerCpuRwSemaphoreOwner::Unowned {
            self.read_blocked_count = self.read_blocked_count.wrapping_add(1);
            return Ok(PerCpuRwSemaphoreReadOutcome::Blocked);
        }
        let index = match owner.reader_index() {
            Some(index) => index,
            None => {
                return Err(self.failed_error(LifecycleEvent::Enable, State::Ready, State::Ready));
            },
        };
        self.reader_counts[index] = self.reader_counts[index].wrapping_add(1);
        self.active_readers = self.active_readers.wrapping_add(1);
        self.read_lock_count = self.read_lock_count.wrapping_add(1);
        self.ext_state = PerCpuRwSemaphoreExtState::ReadersFast;
        Ok(PerCpuRwSemaphoreReadOutcome::AcquiredFast)
    }

    pub fn read_try_lock_owner(&mut self, owner: PerCpuRwSemaphoreOwner, cpu_id: usize) -> (r:
        Result<PerCpuRwSemaphoreReadOutcome, EventError>)
        ensures
            r == read_lock_result(*old(self), owner, cpu_id),
            final(self).read_try_count == old(self).read_try_count.wrapping_add(1),
            final(self).read_try_failed_count == if r == Ok::<
                PerCpuRwSemaphoreReadOutcome,
                EventError,
            >(PerCpuRwSemaphoreReadOutcome::Blocked) {
                old(self).read_try_failed_count.wrapping_add(1)
            } else {
                old(self).read_try_failed_count
            },
            final(self).active_readers == if r == Ok::<PerCpuRwSemaphoreReadOutcome, EventError>(
                PerCpuRwSemaphoreReadOutcome::AcquiredFast,
            ) {
                old(self).active_readers.wrapping_add(1)
            } else {
                old(self).active_readers
            },
            final(self).writer == old(self).writer,
            final(self).block == old(self).block,
    {
        self.read_try_count = self.read_try_count.wrapping_add(1);
        let outcome = self.read_lock_owner(owner, cpu_id)?;
        if outcome == PerCpuRwSemaphoreReadOutcome::Blocked {
            self.read_try_failed_count = self.read_try_failed_count.wrapping_add(1);
        }
        Ok(outcome)
    }

    /// Releases one read hold; the last reader out while a writer waits drains and wakes it.
    pub fn read_unlock_owner(&mut self, owner: PerCpuRwSemaphoreOwner, cpu_id: usize) -> (r:
        EventResult)
        ensures
            !read_unlock_allowed(*old(self), owner, cpu_id) ==> r == Err::<(), EventError>(
                condition_error(
                    LifecycleEvent::Disable,
                    old(self).lifecycle@,
                    State::Ready,
                    State::Ready,
                ),
            ) && *final(self) == *old(self),
            read_unlock_allowed(*old(self), owner, cpu_id) ==> {
                let drained = old(self).block && old(self).active_readers == 1;
                &&& r is Ok
                &&& final(self).reader_counts@ == old(self).reader_counts@.update(
                    owner.slot(),
                    (old(self).reader_counts@[owner.slot()] - 1) as usize,
                )
                &&& *final(self) == (PerCpuRwSemaphore {
                    reader_counts: final(self).reader_counts,
                    active_readers: (old(self).active_readers - 1) as usize,
                    read_unlock_count: old(self).read_unlock_count.wrapping_add(1),
                    reader_drain_count: if drained {
                        old(self).reader_drain_count.wrapping_add(1)
                    } else {
                        old(self).reader_drain_count
                    },
                    wake_count: if drained {
                        old(self).wake_count.wrapping_add(1)
                    } else {
                        old(self).wake_count
                    },
                    ..*old(self)
                })
            },
    {
        if self.lifecycle.state() != State::Ready || !owner.valid() || cpu_id != BOOT_CPU_ID {
            return self.failed_transition(LifecycleEvent::Disable, State::Ready, State::Ready);
        }
        let index = match owner.reader_index() {
            Some(index) => index,
            None => {
                return self.failed_transition(LifecycleEvent::Disable, State::Ready, State::Ready);
            },
        };
        if self.reader_counts[index] == 0 || self.active_readers == 0 {
            return self.failed_transition(LifecycleEvent::Disable, State::Ready, State::Ready);
        }
        self.reader_counts[index] = self.reader_counts[index] - 1;
        self.active_readers = self.active_readers - 1;
        self.read_unlock_count = self.read_unlock_count.wrapping_add(1);
        if self.block && self.active_readers == 0 {
            self.reader_drain_count = self.reader_drain_count.wrapping_add(1);
            self.wake_count = self.wake_count.wrapping_add(1);
        }
        Ok(())
    }

    /// A writer blocks new readers, then either takes the semaphore at once (no readers) or
    /// waits as the pending writer until the readers drain.
    pub fn write_lock_owner(&mut self, owner: PerCpuRwSemaphoreOwner) -> (r: Result<
        PerCpuRwSemaphoreWriteOutcome,
        EventError,
    >)
        ensures
            r == write_lock_result(*old(self), owner),
            *final(self) == write_lock_state(*old(self), owner),
    {
        if self.lifecycle.state() != State::Ready || !owner.valid() {
            return Err(self.failed_error(LifecycleEvent::Enable, State::Ready, State::Ready));
        }
        if self.writer == owner {
            return Err(self.failed_error(LifecycleEvent::Enable, State::Ready, State::Ready));
        }
        if self.writer != PerCpuRwSemaphoreOwner::Unowned {
            self.writer_blocked_count = self.writer_blocked_count.wrapping_add(1);
            return Ok(PerCpuRwSemaphoreWriteOutcome::Blocked);
        }
        if self.block {
            if self.pending_writer == owner && self.active_readers == 0 {
                self.pending_writer = PerCpuRwSemaphoreOwner::Unowned;
                self.writer = owner;
                self.ext_state = PerCpuRwSemaphoreExtState::WriterActive;
                self.write_lock_count = self.write_lock_count.wrapping_add(1);
                return Ok(PerCpuRwSemaphoreWriteOutcome::Acquired);
            }
            self.writer_blocked_count = self.writer_blocked_count.wrapping_add(1);
            return Ok(PerCpuRwSemaphoreWriteOutcome::Blocked);
        }
        self.block = true;
        self.rcu_sync.enter()?;
        if self.active_readers == 0 {
            self.writer = owner;
            self.ext_state = PerCpuRwSemaphoreExtState::WriterActive;
            self.write_lock_count = self.write_lock_count.wrapping_add(1);
            Ok(PerCpuRwSemaphoreWriteOutcome::Acquired)
        } else {
            self.pending_writer = owner;
            self.ext_state = PerCpuRwSemaphoreExtState::WriterBlocked;
            self.writer_blocked_count = self.writer_blocked_count.wrapping_add(1);
            Ok(PerCpuRwSemaphoreWriteOutcome::Blocked)
        }
    }

    /// The writer releases: readers are let back on the fast path and the sync section ends.
    pub fn write_unlock_owner(&mut self, owner: PerCpuRwSemaphoreOwner) -> (r: EventResult)
        ensures
            !write_unlock_allowed(*old(self), owner) ==> r == Err::<(), EventError>(
                condition_error(
                    LifecycleEvent::Disable,
                    old(self).lifecycle@,
                    State::Ready,
                    State::Ready,
                ),
            ) && *final(self) == *old(self),
            write_unlock_allowed(*old(self), owner) ==> r == rcu_exit_result(old(self).rcu_sync)
                && *final(self) == (PerCpuRwSemaphore {
                writer: PerCpuRwSemaphoreOwner::Unowned,
                block: false,
                ext_state: PerCpuRwSemaphoreExtState::ReadersFast,
                write_unlock_count: old(self).write_unlock_count.wrapping_add(1),
                wake_count: old(self).wake_count.wrapping_add(1),
                rcu_sync: rcu_exit_state(old(self).rcu_sync),
                ..*old(self)
            }),
    {
        if self.lifecycle.state() != State::Ready || self.writer != owner || !owner.valid() {
            return self.failed_transition(LifecycleEvent::Disable, State::Ready, State::Ready);
        }
        self.writer = PerCpuRwSemaphoreOwner::Unowned;
        self.block = false;
        self.ext_state = PerCpuRwSemaphoreExtState::ReadersFast;
        self.write_unlock_count = self.write_unlock_count.wrapping_add(1);
        self.wake_count = self.wake_count.wrapping_add(1);
        self.rcu_sync.exit()
    }

    fn failed_transition(&self, event: LifecycleEvent, expected: State, target: State) -> (r:
        EventResult)
        ensures
            r == Err::<(), EventError>(condition_error(event, self.lifecycle@, expected, target)),
    {
        failed_condition(event, self.lifecycle.state(), expected, target)
    }

    fn failed_error(&self, event: LifecycleEvent, expected: State, target: State) -> (e:
        EventError)
        ensures
            e == condition_error(event, self.lifecycle@, expected, target),
    {
        EventError::failed(
            EventErrorCode::ConditionFailed,
            event,
            self.lifecycle.state(),
            expected,
            target,
        )
    }
}

pub open spec fn read_lock_result(
    s: PerCpuRwSemaphore,
    owner: PerCpuRwSemaphoreOwner,
    cpu_id: usize,
) -> Result<PerCpuRwSemaphoreReadOutcome, EventError> {
    if s.lifecycle@ != State::Ready || !s.boot_cpu_read_available || owner
        == PerCpuRwSemaphoreOwner::Unowned || cpu_id != BOOT_CPU_ID {
        Err(condition_error(LifecycleEvent::Enable, s.lifecycle@, State::Ready, State::Ready))
    } else if s.block || s.writer != PerCpuRwSemaphoreOwner::Unowned {
        Ok(PerCpuRwSemaphoreReadOutcome::Blocked)
    } else {
        Ok(PerCpuRwSemaphoreReadOutcome::AcquiredFast)
    }
}

pub open spec fn read_unlock_allowed(
    s: PerCpuRwSemaphore,
    owner: PerCpuRwSemaphoreOwner,
    cpu_id: usize,
) -> bool {
    &&& s.lifecycle@ == State::Ready
    &&& owner != PerCpuRwSemaphoreOwner::Unowned
    &&& cpu_id == BOOT_CPU_ID
    &&& s.reader_counts@[owner.slot()] != 0
    &&& s.active_readers != 0
}

pub open spec fn write_unlock_allowed(s: PerCpuRwSemaphore, owner: PerCpuRwSemaphoreOwner) -> bool {
    s.lifecycle@ == State::Ready && s.writer == owner && owner != PerCpuRwSemaphoreOwner::Unowned
}

pub open spec fn write_lock_result(s: PerCpuRwSemaphore, owner: PerCpuRwSemaphoreOwner) -> Result<
    PerCpuRwSemaphoreWriteOutcome,
    EventError,
> {
    if s.lifecycle@ != State::Ready || owner == PerCpuRwSemaphoreOwner::Unowned || s.writer
        == owner {
        Err(condition_error(LifecycleEvent::Enable, s.lifecycle@, State::Ready, State::Ready))
    } else if s.writer != PerCpuRwSemaphoreOwner::Unowned {
        Ok(PerCpuRwSemaphoreWriteOutcome::Blocked)
    } else if s.block {
        if s.pending_writer == owner && s.active_readers == 0 {
            Ok(PerCpuRwSemaphoreWriteOutcome::Acquired)
        } else {
            Ok(PerCpuRwSemaphoreWriteOutcome::Blocked)
        }
    } else if rcu_enter_result(s.rcu_sync) is Err {
        Err(rcu_enter_result(s.rcu_sync)->Err_0)
    } else if s.active_readers == 0 {
        Ok(PerCpuRwSemaphoreWriteOutcome::Acquired)
    } else {
        Ok(PerCpuRwSemaphoreWriteOutcome::Blocked)
    }
}

pub open spec fn write_lock_state(s: PerCpuRwSemaphore, owner: PerCpuRwSemaphoreOwner) -> PerCpuRwSemaphore {
    if s.lifecycle@ != State::Ready || owner == PerCpuRwSemaphoreOwner::Unowned || s.writer
        == owner {
        s
    } else if s.writer != PerCpuRwSemaphoreOwner::Unowned {
        PerCpuRwSemaphore { writer_blocked_count: s.writer_blocked_count.wrapping_add(1), ..s }
    } else if s.block {
        if s.pending_writer == owner && s.active_readers == 0 {
            PerCpuRwSemaphore {
                pending_writer: PerCpuRwSemaphoreOwner::Unowned,
                writer: owner,
                ext_state: PerCpuRwSemaphoreExtState::WriterActive,
                write_lock_count: s.write_lock_count.wrapping_add(1),
                ..s
            }
        } else {
            PerCpuRwSemaphore { writer_blocked_count: s.writer_blocked_count.wrapping_add(1), ..s }
        }
    } else if rcu_enter_result(s.rcu_sync) is Err {
        PerCpuRwSemaphore { block: true, ..s }
    } else if s.active_readers == 0 {
        PerCpuRwSemaphore {
            block: true,
            rcu_sync: rcu_enter_state(s.rcu_sync),
            writer: owner,
            ext_state: PerCpuRwSemaphoreExtState::WriterActive,
            write_lock_count: s.write_lock_count.wrapping_add(1),
            ..s
        }
    } else {
        PerCpuRwSemaphore {
            block: true,
            rcu_sync: rcu_enter_state(s.rcu_sync),
            pending_writer: owner,
            ext_state: PerCpuRwSemaphoreExtState::WriterBlocked,
            writer_blocked_count: s.writer_blocked_count.wrapping_add(1),
            ..s
        }
    }
}

/// A writer that finds readers holding the semaphore waits as the pending writer; once the
/// readers have drained, its retry acquires the semaphore.
pub proof fn lemma_pending_writer_acquires_after_drain(
    s: PerCpuRwSemaphore,
    owner: PerCpuRwSemaphoreOwner,
)
    requires
        s.lifecycle@ == State::Ready,
        owner != PerCpuRwSemaphoreOwner::Unowned,
        s.writer == PerCpuRwSemaphoreOwner::Unowned,
        !s.block,
        rcu_enter_result(s.rcu_sync) is Ok,
        s.active_readers != 0,
    ensures
        write_lock_result(s, owner) == Ok::<PerCpuRwSemaphoreWriteOutcome, EventError>(
            PerCpuRwSemaphoreWriteOutcome::Blocked,
        ),
        write_lock_state(s, owner).pending_writer == owner,
        write_lock_state(s, owner).block,
        write_lock_result(
            PerCpuRwSemaphore { active_readers: 0, ..write_lock_state(s, owner) },
            owner,
        ) == Ok::<PerCpuRwSemaphoreWriteOutcome, EventError>(
            PerCpuRwSemaphoreWriteOutcome::Acquired,
        ),
{
}

/// While a writer waits or holds the semaphore, new readers are turned away.
pub proof fn lemma_blocked_readers_while_writer(
    s: PerCpuRwSemaphore,
    owner: PerCpuRwSemaphoreOwner,
    cpu_id: usize,
)
    requires
        s.block || s.writer != PerCpuRwSemaphoreOwner::Unowned,
    ensures
        read_lock_result(s, owner, cpu_id) != Ok::<PerCpuRwSemaphoreReadOutcome, EventError>(
            PerCpuRwSemaphoreReadOutcome::AcquiredFast,
        ),
{
}

impl PerCpuRwSemaphoreOwner {
    /// The reader-count slot of an owner; `Unowned` has none (its slot is never read).
    pub open spec fn slot(self) -> int {
        match self {
            PerCpuRwSemaphoreOwner::BootTask => 0,
            PerCpuRwSemaphoreOwner::KernelInitTask => 1,
            PerCpuRwSemaphoreOwner::SmokeRwsemTask => 2,
            PerCpuRwSemaphoreOwner::Unowned => 3,
        }
    }

    fn valid(self) -> (r: bool)
        ensures
            r == (self != PerCpuRwSemaphoreOwner::Unowned),
    {
        !matches!(self, PerCpuRwSemaphoreOwner::Unowned)
    }

    fn reader_index(self) -> (r: Option<usize>)
        ensures
            self == PerCpuRwSemaphoreOwner::Unowned ==> r is None,
            self != PerCpuRwSemaphoreOwner::Unowned ==> r == Some(self.slot() as usize),
    {
        match self {
            PerCpuRwSemaphoreOwner::BootTask => Some(0),
            PerCpuRwSemaphoreOwner::KernelInitTask => Some(1),
            PerCpuRwSemaphoreOwner::SmokeRwsemTask => Some(2),
            PerCpuRwSemaphoreOwner::Unowned => None,
        }
    }
}

} // verus!
