use vstd::prelude::*;
use crate::state::{
    condition_error, failed_condition, EventError, EventErrorCode, EventResult, Lifecycle,
    LifecycleEvent, State,
};

verus! {

#[derive(Clone, Copy, PartialEq, Eq, Structural, Debug)]
pub enum RwLockInitKind {
    StaticInitializer,
    RuntimeInit,
}
#[derive(Clone, Copy, PartialEq, Eq, Structural, Debug)]
pub enum RwLockExtState {
    Unlocked,
    ReadHeld,
    WriteHeld,
}
#[derive(Clone, Copy, PartialEq, Eq, Structural, Debug)]
pub enum RwLockOwner {
    Unowned,
    BootInitTask,
    KernelInitTask,
    SmokeRwLockTask,
}
#[derive(Clone, Copy, PartialEq, Eq, Structural, Debug)]
pub enum RwLockReadOutcome {
    Acquired,
    Shared,
    Blocked,
}
#[derive(Clone, Copy, PartialEq, Eq, Structural, Debug)]
pub enum RwLockWriteOutcome {
    Acquired,
    Blocked,
}

pub struct RwLock {
    pub lifecycle: Lifecycle,
    pub init_kind: RwLockInitKind,
    pub ext_state: RwLockExtState,
    pub storage_bound: bool,
    pub arch_raw_lock_internal: bool,
    pub debug_lockdep_internal_deferred: bool,
    pub active_readers: usize,
    pub reader_counts: [usize; 4],
    pub writer: RwLockOwner,
    pub read_lock_count: usize,
    pub read_unlock_count: usize,
    pub read_blocked_count: usize,
    pub read_try_count: usize,
    pub read_try_failed_count: usize,
    pub write_lock_count: usize,
    pub write_unlock_count: usize,
    pub write_blocked_count: usize,
    pub write_try_count: usize,
    pub write_try_failed_count: usize,
}
impl RwLock {
    pub fn new_static() -> (s: Self)
        ensures
            s.lifecycle@ == State::Base,
            s.init_kind == RwLockInitKind::StaticInitializer,
            s.ext_state == RwLockExtState::Unlocked,
            !s.storage_bound,
            !s.arch_raw_lock_internal,
            !s.debug_lockdep_internal_deferred,
            s.active_readers == 0,
            s.reader_counts@ == seq![0usize, 0, 0, 0],
            s.writer == RwLockOwner::Unowned,
            s.read_lock_count == 0,
            s.read_unlock_count == 0,
            s.read_blocked_count == 0,
            s.read_try_count == 0,
            s.read_try_failed_count == 0,
            s.write_lock_count == 0,
            s.write_unlock_count == 0,
            s.write_blocked_count == 0,
            s.write_try_count == 0,
            s.write_try_failed_count == 0,
    {
        Self {
            lifecycle: Lifecycle::new(State::Base),
            init_kind: RwLockInitKind::StaticInitializer,
            ext_state: RwLockExtState::Unlocked,
            storage_bound: false,
            arch_raw_lock_internal: false,
            debug_lockdep_internal_deferred: false,
            active_readers: 0,
            reader_counts: [0, 0, 0, 0],
            writer: RwLockOwner::Unowned,
            read_lock_count: 0,
            read_unlock_count: 0,
            read_blocked_count: 0,
            read_try_count: 0,
            read_try_failed_count: 0,
            write_lock_count: 0,
            write_unlock_count: 0,
            write_blocked_count: 0,
            write_try_count: 0,
            write_try_failed_count: 0,
        }
    }

    pub fn state(&self) -> (r: State)
        ensures
            r == self.lifecycle@,
    {
        self.lifecycle.state()
    }

    pub fn init_kind(&self) -> (r: RwLockInitKind)
        ensures
            r == self.init_kind,
    {
        self.init_kind
    }

    pub fn ext_state(&self) -> (r: RwLockExtState)
        ensures
            r == self.ext_state,
    {
        self.ext_state
    }

    pub fn storage_bound(&self) -> (r: bool)
        ensures
            r == self.storage_bound,
    {
        self.storage_bound
    }

    pub fn arch_raw_lock_internal(&self) -> (r: bool)
        ensures
            r == self.arch_raw_lock_internal,
    {
        self.arch_raw_lock_internal
    }

    pub fn debug_lockdep_internal_deferred(&self) -> (r: bool)
        ensures
            r == self.debug_lockdep_internal_deferred,
    {
        self.debug_lockdep_internal_deferred
    }

    pub fn active_readers(&self) -> (r: usize)
        ensures
            r == self.active_readers,
    {
        self.active_readers
    }

    pub fn writer(&self) -> (r: RwLockOwner)
        ensures
            r == self.writer,
    {
        self.writer
    }

    pub fn read_lock_count(&self) -> (r: usize)
        ensures
            r == self.read_lock_count,
    {
        self.read_lock_count
    }

    pub fn read_unlock_count(&self) -> (r: usize)
        ensures
            r == self.read_unlock_count,
    {
        self.read_unlock_count
    }

    pub fn read_blocked_count(&self) -> (r: usize)
        ensures
            r == self.read_blocked_count,
    {
        self.read_blocked_count
    }

    pub fn read_try_count(&self) -> (r: usize)
        ensures
            r == self.read_try_count,
    {
        self.read_try_count
    }

    pub fn read_try_failed_count(&self) -> (r: usize)
        ensures
            r == self.read_try_failed_count,
    {
        self.read_try_failed_count
    }

    pub fn write_lock_count(&self) -> (r: usize)
        ensures
            r == self.write_lock_count,
    {
        self.write_lock_count
    }

    pub fn write_unlock_count(&self) -> (r: usize)
        ensures
            r == self.write_unlock_count,
    {
        self.write_unlock_count
    }

    pub fn write_blocked_count(&self) -> (r: usize)
        ensures
            r == self.write_blocked_count,
    {
        self.write_blocked_count
    }

    pub fn write_try_count(&self) -> (r: usize)
        ensures
            r == self.write_try_count,
    {
        self.write_try_count
    }

    pub fn write_try_failed_count(&self) -> (r: usize)
        ensures
            r == self.write_try_failed_count,
    {
        self.write_try_failed_count
    }

    /// The lock's state agrees with its holders: a writer and readers never hold it
    /// together, it is write-held exactly when a writer holds it, read-held exactly when
    /// readers do, and unlocked otherwise. Setup establishes this and every locking and
    /// unlocking call keeps it.
    pub open spec fn holders_consistent(&self) -> bool {
        &&& !(self.writer != RwLockOwner::Unowned && self.active_readers > 0)
        &&& (self.ext_state == RwLockExtState::WriteHeld) == (self.writer != RwLockOwner::Unowned)
        &&& (self.ext_state == RwLockExtState::ReadHeld) == (self.active_readers > 0)
    }

    pub open spec fn spec_unlocked(&self) -> bool {
        &&& self.ext_state == RwLockExtState::Unlocked
        &&& self.active_readers == 0
        &&& self.writer == RwLockOwner::Unowned
    }

    pub fn unlocked(&self) -> (r: bool)
        ensures
            r == self.spec_unlocked(),
    {
        self.ext_state == RwLockExtState::Unlocked && self.active_readers == 0 && self.writer
            == RwLockOwner::Unowned
    }

    pub fn ready(&self) -> (r: bool)
        ensures
            r == (self.lifecycle@ == State::Ready && self.storage_bound
                && self.arch_raw_lock_internal && self.debug_lockdep_internal_deferred
                && self.spec_unlocked()),
    {
        self.lifecycle.state() == State::Ready && self.storage_bound && self.arch_raw_lock_internal
            && self.debug_lockdep_internal_deferred && self.unlocked()
    }

    pub fn boot_init_task_write_guard_completed(&self) -> (r: bool)
        ensures
            r == (self.lifecycle@ == State::Ready && self.write_lock_count > 0
                && self.write_unlock_count == self.write_lock_count && self.spec_unlocked()),
    {
        self.lifecycle.state() == State::Ready && self.write_lock_count > 0
            && self.write_unlock_count == self.write_lock_count && self.unlocked()
    }

    pub fn preset_static(&mut self) -> (r: EventResult)
        ensures
            old(self).lifecycle@ == State::Base && old(self).init_kind
                == RwLockInitKind::StaticInitializer ==> {
                &&& r is Ok
                &&& final(self).lifecycle@ == State::Prepared
                &&& final(self).storage_bound
                &&& final(self).arch_raw_lock_internal
                &&& final(self).debug_lockdep_internal_deferred
                &&& final(self).ext_state == old(self).ext_state
                &&& final(self).writer == old(self).writer
                &&& final(self).active_readers == old(self).active_readers
                &&& *final(self) == (RwLock {
                    storage_bound: true,
                    arch_raw_lock_internal: true,
                    debug_lockdep_internal_deferred: true,
                    lifecycle: final(self).lifecycle,
                    ..*old(self)
                })
            },
            !(old(self).lifecycle@ == State::Base && old(self).init_kind
                == RwLockInitKind::StaticInitializer) ==> {
                &&& r == Err::<(), EventError>(
                    condition_error(
                        LifecycleEvent::Preset,
                        old(self).lifecycle@,
                        State::Base,
                        State::Prepared,
                    ),
                )
                &&& *final(self) == *old(self)
            },
    {
        if self.lifecycle.state() != State::Base || self.init_kind
            != RwLockInitKind::StaticInitializer {
            return self.failed_transition(LifecycleEvent::Preset, State::Base, State::Prepared);
        }
        self.storage_bound = true;
        self.arch_raw_lock_internal = true;
        self.debug_lockdep_internal_deferred = true;
        self.lifecycle.transition(LifecycleEvent::Preset, State::Base, State::Prepared)
    }

    pub fn setup(&mut self) -> (r: EventResult)
        ensures
            old(self).lifecycle@ == State::Prepared && old(self).storage_bound ==> {
                &&& r is Ok
                &&& final(self).lifecycle@ == State::Ready
                &&& final(self).spec_unlocked()
                &&& final(self).holders_consistent()
                &&& final(self).reader_counts@ == seq![0usize, 0, 0, 0]
                &&& final(self).storage_bound
                &&& final(self).arch_raw_lock_internal == old(self).arch_raw_lock_internal
                &&& final(self).debug_lockdep_internal_deferred
                    == old(self).debug_lockdep_internal_deferred
                &&& final(self).write_lock_count == old(self).write_lock_count
                &&& final(self).write_unlock_count == old(self).write_unlock_count
                &&& *final(self) == (RwLock {
                    ext_state: RwLockExtState::Unlocked,
                    active_readers: 0,
                    reader_counts: final(self).reader_counts,
                    writer: RwLockOwner::Unowned,
                    lifecycle: final(self).lifecycle,
                    ..*old(self)
                })
            },
            !(old(self).lifecycle@ == State::Prepared && old(self).storage_bound) ==> {
                &&& r == Err::<(), EventError>(
                    condition_error(
                        LifecycleEvent::Setup,
                        old(self).lifecycle@,
                        State::Prepared,
                        State::Ready,
                    ),
                )
                &&& *final(self) == *old(self)
            },
    {
        if self.lifecycle.state() != State::Prepared || !self.storage_bound {
            return self.failed_transition(LifecycleEvent::Setup, State::Prepared, State::Ready);
        }
        self.ext_state = RwLockExtState::Unlocked;
        self.active_readers = 0;
        self.reader_counts = [0, 0, 0, 0];
        self.writer = RwLockOwner::Unowned;
        self.lifecycle.transition(LifecycleEvent::Setup, State::Prepared, State::Ready)
    }

    /// A read lock is granted unless a writer holds the lock; the first reader acquires, later
    /// ones share.
    pub fn read_lock_owner(&mut self, owner: RwLockOwner) -> (r: Result<
        RwLockReadOutcome,
        EventError,
    >)
        ensures
            old(self).holders_consistent() && old(self).active_readers < usize::MAX ==> final(self).holders_consistent(),
            old(self).lifecycle@ != State::Ready || owner == RwLockOwner::Unowned ==> {
                &&& r == Err::<RwLockReadOutcome, EventError>(
                    condition_error(
                        LifecycleEvent::Enable,
                        old(self).lifecycle@,
                        State::Ready,
                        State::Ready,
                    ),
                )
                &&& *final(self) == *old(self)
            },
            old(self).lifecycle@ == State::Ready && owner != RwLockOwner::Unowned && old(self).writer != RwLockOwner::Unowned ==> {
                &&& r == Ok::<RwLockReadOutcome, EventError>(RwLockReadOutcome::Blocked)
                &&& *final(self) == (RwLock {
                    read_blocked_count: old(self).read_blocked_count.wrapping_add(1),
                    ..*old(self)
                })
            },
            old(self).lifecycle@ == State::Ready && owner != RwLockOwner::Unowned && old(self).writer == RwLockOwner::Unowned ==> {
                &&& r == Ok::<RwLockReadOutcome, EventError>(
                    if old(self).active_readers == 0 {
                        RwLockReadOutcome::Acquired
                    } else {
                        RwLockReadOutcome::Shared
                    },
                )
                &&& final(self).reader_counts@ == old(self).reader_counts@.update(
                    owner.slot(),
                    old(self).reader_counts@[owner.slot()].wrapping_add(1),
                )
                &&& *final(self) == (RwLock {
                    reader_counts: final(self).reader_counts,
                    active_readers: old(self).active_readers.wrapping_add(1),
                    read_lock_count: old(self).read_lock_count.wrapping_add(1),
                    ext_state: RwLockExtState::ReadHeld,
                    ..*old(self)
                })
            },
    {
        if self.lifecycle.state() != State::Ready || !owner.valid() {
            return Err(self.failed_error(LifecycleEvent::Enable, State::Ready, State::Ready));
        }
        if self.writer != RwLockOwner::Unowned {
            self.read_blocked_count = self.read_blocked_count.wrapping_add(1);
            return Ok(RwLockReadOutcome::Blocked);
        }
        let index = match owner.reader_index() {
            Some(index) => index,
            None => {
                return Err(self.failed_error(LifecycleEvent::Enable, State::Ready, State::Ready));
            },
        };
        let outcome = if self.active_readers == 0 {
            RwLockReadOutcome::Acquired
        } else {
            RwLockReadOutcome::Shared
        };
        self.reader_counts[index] = self.reader_counts[index].wrapping_add(1);
        self.active_readers = self.active_readers.wrapping_add(1);
        self.read_lock_count = self.read_lock_count.wrapping_add(1);
        self.ext_state = RwLockExtState::ReadHeld;
        Ok(outcome)
    }

    pub fn read_try_lock_owner(&mut self, owner: RwLockOwner) -> (r: Result<
        RwLockReadOutcome,
        EventError,
    >)
        ensures
            old(self).holders_consistent() && old(self).active_readers < usize::MAX ==> final(self).holders_consistent(),
            old(self).lifecycle@ != State::Ready || owner == RwLockOwner::Unowned ==> {
                &&& r == Err::<RwLockReadOutcome, EventError>(
                    condition_error(
                        LifecycleEvent::Enable,
                        old(self).lifecycle@,
                        State::Ready,
                        State::Ready,
                    ),
                )
                &&& *final(self) == (RwLock {
                    read_try_count: old(self).read_try_count.wrapping_add(1),
                    ..*old(self)
                })
            },
            old(self).lifecycle@ == State::Ready && owner != RwLockOwner::Unowned && old(self).writer != RwLockOwner::Unowned ==> {
                &&& r == Ok::<RwLockReadOutcome, EventError>(RwLockReadOutcome::Blocked)
                &&& *final(self) == (RwLock {
                    read_try_count: old(self).read_try_count.wrapping_add(1),
                    read_try_failed_count: old(self).read_try_failed_count.wrapping_add(1),
                    read_blocked_count: old(self).read_blocked_count.wrapping_add(1),
                    ..*old(self)
                })
            },
            old(self).lifecycle@ == State::Ready && owner != RwLockOwner::Unowned && old(self).writer == RwLockOwner::Unowned ==> {
                &&& r == Ok::<RwLockReadOutcome, EventError>(
                    if old(self).active_readers == 0 {
                        RwLockReadOutcome::Acquired
                    } else {
                        RwLockReadOutcome::Shared
                    },
                )
                &&& final(self).reader_counts@ == old(self).reader_counts@.update(
                    owner.slot(),
                    old(self).reader_counts@[owner.slot()].wrapping_add(1),
                )
                &&& *final(self) == (RwLock {
                    reader_counts: final(self).reader_counts,
                    active_readers: old(self).active_readers.wrapping_add(1),
                    read_lock_count: old(self).read_lock_count.wrapping_add(1),
                    read_try_count: old(self).read_try_count.wrapping_add(1),
                    ext_state: RwLockExtState::ReadHeld,
                    ..*old(self)
                })
            },
    {
        self.read_try_count = self.read_try_count.wrapping_add(1);
        let outcome = self.read_lock_owner(owner)?;
        if outcome == RwLockReadOutcome::Blocked {
            self.read_try_failed_count = self.read_try_failed_count.wrapping_add(1);
        }
        Ok(outcome)
    }

    /// Releases one read hold of `owner`; the last reader leaves the lock unlocked.
    pub fn read_unlock_owner(&mut self, owner: RwLockOwner) -> (r: EventResult)
        ensures
            old(self).holders_consistent() ==> final(self).holders_consistent(),
            !(old(self).lifecycle@ == State::Ready && owner != RwLockOwner::Unowned && old(self).reader_counts@[owner.slot()] != 0 && old(self).active_readers != 0) ==> {
                &&& r == Err::<(), EventError>(
                    condition_error(
                        LifecycleEvent::Disable,
                        old(self).lifecycle@,
                        State::Ready,
                        State::Ready,
                    ),
                )
                &&& *final(self) == *old(self)
            },
            old(self).lifecycle@ == State::Ready && owner != RwLockOwner::Unowned && old(self).reader_counts@[owner.slot()] != 0 && old(self).active_readers != 0 ==> {
                &&& r is Ok
                &&& final(self).reader_counts@ == old(self).reader_counts@.update(
                    owner.slot(),
                    (old(self).reader_counts@[owner.slot()] - 1) as usize,
                )
                &&& *final(self) == (RwLock {
                    reader_counts: final(self).reader_counts,
                    active_readers: (old(self).active_readers - 1) as usize,
                    read_unlock_count: old(self).read_unlock_count.wrapping_add(1),
                    ext_state: if old(self).active_readers == 1 {
                        RwLockExtState::Unlocked
                    } else {
                        old(self).ext_state
                    },
                    ..*old(self)
                })
            },
    {
        if self.lifecycle.state() != State::Ready || !owner.valid() {
            return self.failed_transition(LifecycleEvent::Disable, State::Ready, State::Ready);
        }
        let index = match owner.reader_index() {
            Some(index) => index,
            None => {
                return self.failed_transition(LifecycleEvent::Disable, State::Ready, State::Ready);
            },
        };
        if self.reader_counts[index] == 0 || self.active_readers == 0 {
            return self.failed_transition(LifecycleEvent::Disable, State::Ready, State::Ready);
        }
        self.reader_counts[index] = self.reader_counts[index] - 1;
        self.active_readers = self.active_readers - 1;
        self.read_unlock_count = self.read_unlock_count.wrapping_add(1);
        if self.active_readers == 0 {
            self.ext_state = RwLockExtState::Unlocked;
        }
        Ok(())
    }

    /// A write lock is granted only when nobody holds the lock; re-locking by the holder fails.
    pub fn write_lock_owner(&mut self, owner: RwLockOwner) -> (r: Result<
        RwLockWriteOutcome,
        EventError,
    >)
        ensures
            old(self).holders_consistent() ==> final(self).holders_consistent(),
            r == write_lock_result(*old(self), owner),
            *final(self) == write_lock_state(*old(self), owner),
    {
        if self.lifecycle.state() != State::Ready || !owner.valid() || self.writer == owner {
            return Err(self.failed_error(LifecycleEvent::Enable, State::Ready, State::Ready));
        }
        if self.writer != RwLockOwner::Unowned || self.active_readers != 0 {
            self.write_blocked_count = self.write_blocked_count.wrapping_add(1);
            return Ok(RwLockWriteOutcome::Blocked);
        }
        self.writer = owner;
        self.ext_state = RwLockExtState::WriteHeld;
        self.write_lock_count = self.write_lock_count.wrapping_add(1);
        Ok(RwLockWriteOutcome::Acquired)
    }

    pub fn write_try_lock_owner(&mut self, owner: RwLockOwner) -> (r: Result<
        RwLockWriteOutcome,
        EventError,
    >)
        ensures
            old(self).holders_consistent() ==> final(self).holders_consistent(),
            r == write_lock_result(*old(self), owner),
            *final(self) == (RwLock {
                write_try_count: old(self).write_try_count.wrapping_add(1),
                write_try_failed_count: if r == Ok::<RwLockWriteOutcome, EventError>(
                    RwLockWriteOutcome::Blocked,
                ) {
                    old(self).write_try_failed_count.wrapping_add(1)
                } else {
                    old(self).write_try_failed_count
                },
                ..write_lock_state(*old(self), owner)
            }),
    {
        self.write_try_count = self.write_try_count.wrapping_add(1);
        let outcome = self.write_lock_owner(owner)?;
        if outcome == RwLockWriteOutcome::Blocked {
            self.write_try_failed_count = self.write_try_failed_count.wrapping_add(1);
        }
        Ok(outcome)
    }

    pub fn write_unlock_owner(&mut self, owner: RwLockOwner) -> (r: EventResult)
        ensures
            old(self).holders_consistent() ==> final(self).holders_consistent(),
            r == write_unlock_result(*old(self), owner),
            *final(self) == write_unlock_state(*old(self), owner),
    {
        if self.lifecycle.state() != State::Ready || self.writer != owner || !owner.valid() {
            return self.failed_transition(LifecycleEvent::Disable, State::Ready, State::Ready);
        }
        self.writer = RwLockOwner::Unowned;
        self.ext_state = RwLockExtState::Unlocked;
        self.write_unlock_count = self.write_unlock_count.wrapping_add(1);
        Ok(())
    }

    pub fn read_lock_task(&mut self, task_ref: CurrentTaskRef) -> (r: Result<
        RwLockReadOutcome,
        EventError,
    >)
        ensures
            old(self).holders_consistent() && old(self).active_readers < usize::MAX ==> final(self).holders_consistent(),
            old(self).lifecycle@ != State::Ready || owner_of(task_ref) == RwLockOwner::Unowned
                ==> r is Err && *final(self) == *old(self),
            old(self).lifecycle@ == State::Ready && owner_of(task_ref) != RwLockOwner::Unowned
                ==> r is Ok && final(self).read_lock_count + final(self).read_blocked_count
                == old(self).read_lock_count.wrapping_add(1) + old(self).read_blocked_count
                || final(self).read_lock_count + final(self).read_blocked_count
                == old(self).read_lock_count + old(self).read_blocked_count.wrapping_add(1),
    {
        self.read_lock_owner(owner_from_task_ref(task_ref))
    }

    pub fn read_unlock_task(&mut self, task_ref: CurrentTaskRef) -> (r: EventResult)
        ensures
            old(self).holders_consistent() ==> final(self).holders_consistent(),
            owner_of(task_ref) == RwLockOwner::Unowned ==> r is Err && *final(self) == *old(self),
            r is Ok ==> final(self).active_readers == old(self).active_readers - 1,
    {
        self.read_unlock_owner(owner_from_task_ref(task_ref))
    }

    pub fn write_lock_task(&mut self, task_ref: CurrentTaskRef) -> (r: Result<
        RwLockWriteOutcome,
        EventError,
    >)
        ensures
            old(self).holders_consistent() ==> final(self).holders_consistent(),
            r == write_lock_result(*old(self), owner_of(task_ref)),
            *final(self) == write_lock_state(*old(self), owner_of(task_ref)),
    {
        self.write_lock_owner(owner_from_task_ref(task_ref))
    }

    pub fn write_unlock_task(&mut self, task_ref: CurrentTaskRef) -> (r: EventResult)
        ensures
            old(self).holders_consistent() ==> final(self).holders_consistent(),
            r == write_unlock_result(*old(self), owner_of(task_ref)),
            *final(self) == write_unlock_state(*old(self), owner_of(task_ref)),
    {
        self.write_unlock_owner(owner_from_task_ref(task_ref))
    }

    fn failed_transition(&self, event: LifecycleEvent, expected: State, target: State) -> (r:
        EventResult)
        ensures
            r == Err::<(), EventError>(condition_error(event, self.lifecycle@, expected, target)),
    {
        failed_condition(event, self.lifecycle.state(), expected, target)
    }

    fn failed_error(&self, event: LifecycleEvent, expected: State, target: State) -> (e:
        EventError)
        ensures
            e == condition_error(event, self.lifecycle@, expected, target),
    {
        EventError::failed(
            EventErrorCode::ConditionFailed,
            event,
            self.lifecycle.state(),
            expected,
            target,
        )
    }
}

/// What `write_lock_owner` returns in lock state `l`.
pub open spec fn write_lock_result(l: RwLock, owner: RwLockOwner) -> Result<
    RwLockWriteOutcome,
    EventError,
> {
    if l.lifecycle@ != State::Ready || owner == RwLockOwner::Unowned || l.writer == owner {
        Err(condition_error(LifecycleEvent::Enable, l.lifecycle@, State::Ready, State::Ready))
    } else if l.writer != RwLockOwner::Unowned || l.active_readers != 0 {
        Ok(RwLockWriteOutcome::Blocked)
    } else {
        Ok(RwLockWriteOutcome::Acquired)
    }
}

/// The lock after `write_lock_owner`.
pub open spec fn write_lock_state(l: RwLock, owner: RwLockOwner) -> RwLock {
    if l.lifecycle@ != State::Ready || owner == RwLockOwner::Unowned || l.writer == owner {
        l
    } else if l.writer != RwLockOwner::Unowned || l.active_readers != 0 {
        RwLock { write_blocked_count: l.write_blocked_count.wrapping_add(1), ..l }
    } else {
        RwLock {
            writer: owner,
            ext_state: RwLockExtState::WriteHeld,
            write_lock_count: l.write_lock_count.wrapping_add(1),
            ..l
        }
    }
}

/// What `write_unlock_owner` returns: only the writer itself can release.
pub open spec fn write_unlock_result(l: RwLock, owner: RwLockOwner) -> EventResult {
    if l.lifecycle@ != State::Ready || l.writer != owner || owner == RwLockOwner::Unowned {
        Err(condition_error(LifecycleEvent::Disable, l.lifecycle@, State::Ready, State::Ready))
    } else {
        Ok(())
    }
}

/// The lock after `write_unlock_owner`.
pub open spec fn write_unlock_state(l: RwLock, owner: RwLockOwner) -> RwLock {
    if l.lifecycle@ != State::Ready || l.writer != owner || owner == RwLockOwner::Unowned {
        l
    } else {
        RwLock {
            writer: RwLockOwner::Unowned,
            ext_state: RwLockExtState::Unlocked,
            write_unlock_count: l.write_unlock_count.wrapping_add(1),
            ..l
        }
    }
}

/// A write lock taken on an unlocked, ready lock and released by the same owner leaves the
/// lock unlocked again, with one more lock and unlock counted.
pub proof fn lemma_write_lock_unlock_roundtrip(l: RwLock, owner: RwLockOwner)
    requires
        l.lifecycle@ == State::Ready,
        owner != RwLockOwner::Unowned,
        l.spec_unlocked(),
    ensures
        write_lock_result(l, owner) == Ok::<RwLockWriteOutcome, EventError>(
            RwLockWriteOutcome::Acquired,
        ),
        write_unlock_result(write_lock_state(l, owner), owner) is Ok,
        write_unlock_state(write_lock_state(l, owner), owner).spec_unlocked(),
        write_unlock_state(write_lock_state(l, owner), owner).write_lock_count
            == l.write_lock_count.wrapping_add(1),
        write_unlock_state(write_lock_state(l, owner), owner).write_unlock_count
            == l.write_unlock_count.wrapping_add(1),
{
}

/// While any reader holds the lock, no writer is granted it.
pub proof fn lemma_readers_exclude_writer(l: RwLock, owner: RwLockOwner)
    requires
        l.lifecycle@ == State::Ready,
        l.active_readers != 0,
    ensures
        write_lock_result(l, owner) != Ok::<RwLockWriteOutcome, EventError>(
            RwLockWriteOutcome::Acquired,
        ),
        write_lock_state(l, owner).writer == l.writer,
{
}

/// The task whose turn it is on the current CPU, as the lock sees it.
#[derive(Clone, Copy, PartialEq, Eq, Structural, Debug)]
pub enum CurrentTaskRef {
    Unset,
    BootIdle,
    KernelInit,
    Kthreadd,
    UserChild,
    SmokeScheduler,
    SmokeMutex,
    SmokeRwLock,
    SmokeRwsem,
}

impl RwLockOwner {
    /// The reader-count slot of an owner; `Unowned` has none (its slot is never read).
    pub open spec fn slot(self) -> int {
        match self {
            RwLockOwner::BootInitTask => 0,
            RwLockOwner::KernelInitTask => 1,
            RwLockOwner::SmokeRwLockTask => 2,
            RwLockOwner::Unowned => 3,
        }
    }

    fn valid(self) -> (r: bool)
        ensures
            r == (self != RwLockOwner::Unowned),
    {
        !matches!(self, RwLockOwner::Unowned)
    }

    fn reader_index(self) -> (r: Option<usize>)
        ensures
            self == RwLockOwner::Unowned ==> r is None,
            self != RwLockOwner::Unowned ==> r == Some(self.slot() as usize),
    {
        match self {
            RwLockOwner::BootInitTask => Some(0),
            RwLockOwner::KernelInitTask => Some(1),
            RwLockOwner::SmokeRwLockTask => Some(2),
            RwLockOwner::Unowned => None,
        }
    }
}

/// The lock owner that stands for a task: only the kernel init task and the rwlock smoke task
/// take this lock.
pub open spec fn owner_of(task_ref: CurrentTaskRef) -> RwLockOwner {
    match task_ref {
        CurrentTaskRef::KernelInit => RwLockOwner::KernelInitTask,
        CurrentTaskRef::SmokeRwLock => RwLockOwner::SmokeRwLockTask,
        _ => RwLockOwner::Unowned,
    }
}

fn owner_from_task_ref(task_ref: CurrentTaskRef) -> (r: RwLockOwner)
    ensures
        r == owner_of(task_ref),
{
    match task_ref {
        CurrentTaskRef::KernelInit => RwLockOwner::KernelInitTask,
        CurrentTaskRef::SmokeRwLock => RwLockOwner::SmokeRwLockTask,
        _ => RwLockOwner::Unowned,
    }
}

} // verus!
