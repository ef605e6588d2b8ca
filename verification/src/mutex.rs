use vstd::prelude::*;
use crate::state::{
    condition_error, failed_condition, EventError, EventErrorCode, EventResult, Lifecycle,
    LifecycleEvent, State,
};

verus! {
#[derive(Clone, Copy, PartialEq, Eq, Structural, Debug)]
pub enum MutexInitKind {
    StaticInitializer,
    RuntimeInit,
}

#[derive(Clone, Copy, PartialEq, Eq, Structural, Debug)]
pub enum MutexOwner {
    Unowned,
    BootInitTask,
    KernelInitTask,
    SmokeMutexTask,
}

#[derive(Clone, Copy, PartialEq, Eq, Structural, Debug)]
pub enum MutexLockOutcome {
    Acquired,
    Blocked,
}

pub struct Mutex {
    pub lifecycle: Lifecycle,
    pub init_kind: MutexInitKind,
    pub storage_bound: bool,
    pub wait_queue_ready: bool,
    pub wait_lock_internal_deferred: bool,
    pub locked: bool,
    pub owner: MutexOwner,
    pub lock_entered_count: usize,
    pub unlock_exited_count: usize,
    pub contended_count: usize,
    pub wake_count: usize,
}
impl Mutex {
    pub fn new_static() -> (s: Self)
        ensures
            s.lifecycle@ == State::Base,
            s.init_kind == MutexInitKind::StaticInitializer,
            !s.storage_bound,
            !s.wait_queue_ready,
            !s.wait_lock_internal_deferred,
            !s.locked,
            s.owner == MutexOwner::Unowned,
            s.lock_entered_count == 0,
            s.unlock_exited_count == 0,
            s.contended_count == 0,
            s.wake_count == 0,
    {
        Self {
            lifecycle: Lifecycle::new(State::Base),
            init_kind: MutexInitKind::StaticInitializer,
            storage_bound: false,
            wait_queue_ready: false,
            wait_lock_internal_deferred: false,
            locked: false,
            owner: MutexOwner::Unowned,
            lock_entered_count: 0,
            unlock_exited_count: 0,
            contended_count: 0,
            wake_count: 0,
        }
    }

    pub fn state(&self) -> (r: State)
        ensures
            r == self.lifecycle@,
    {
        self.lifecycle.state()
    }

    pub fn init_kind(&self) -> (r: MutexInitKind)
        ensures
            r == self.init_kind,
    {
        self.init_kind
    }

    pub fn storage_bound(&self) -> (r: bool)
        ensures
            r == self.storage_bound,
    {
        self.storage_bound
    }

    pub fn wait_queue_ready(&self) -> (r: bool)
        ensures
            r == self.wait_queue_ready,
    {
        self.wait_queue_ready
    }

    pub fn wait_lock_internal_deferred(&self) -> (r: bool)
        ensures
            r == self.wait_lock_internal_deferred,
    {
        self.wait_lock_internal_deferred
    }

    pub fn locked(&self) -> (r: bool)
        ensures
            r == self.locked,
    {
        self.locked
    }

    pub fn unlocked(&self) -> (r: bool)
        ensures
            r == !self.locked,
    {
        !self.locked
    }

    pub fn owner(&self) -> (r: MutexOwner)
        ensures
            r == self.owner,
    {
        self.owner
    }

    pub fn lock_entered_count(&self) -> (r: usize)
        ensures
            r == self.lock_entered_count,
    {
        self.lock_entered_count
    }

    pub fn unlock_exited_count(&self) -> (r: usize)
        ensures
            r == self.unlock_exited_count,
    {
        self.unlock_exited_count
    }

    pub fn contended_count(&self) -> (r: usize)
        ensures
            r == self.contended_count,
    {
        self.contended_count
    }

    pub fn wake_count(&self) -> (r: usize)
        ensures
            r == self.wake_count,
    {
        self.wake_count
    }

    /// Ready, bound to its storage and wait queue, and not held by anyone.
    pub open spec fn spec_ready(&self) -> bool {
        &&& self.lifecycle@ == State::Ready
        &&& self.storage_bound
        &&& self.wait_queue_ready
        &&& self.wait_lock_internal_deferred
        &&& !self.locked
        &&& self.owner == MutexOwner::Unowned
    }

    pub fn ready(&self) -> (r: bool)
        ensures
            r == self.spec_ready(),
    {
        self.lifecycle.state() == State::Ready && self.storage_bound && self.wait_queue_ready
            && self.wait_lock_internal_deferred && !self.locked && self.owner == MutexOwner::Unowned
    }

    pub fn boot_init_task_guard_completed(&self) -> (r: bool)
        ensures
            r == (self.spec_ready() && self.lock_entered_count > 0 && self.unlock_exited_count
                == self.lock_entered_count),
    {
        self.ready() && self.lock_entered_count > 0 && self.unlock_exited_count
            == self.lock_entered_count
    }

    pub fn preset_static(&mut self) -> (r: EventResult)
        ensures
            old(self).lifecycle@ == State::Base && old(self).init_kind
                == MutexInitKind::StaticInitializer ==> {
                &&& r is Ok
                &&& final(self).lifecycle@ == State::Prepared
                &&& final(self).storage_bound
                &&& final(self).wait_lock_internal_deferred
                &&& final(self).wait_queue_ready == old(self).wait_queue_ready
                &&& final(self).locked == old(self).locked
                &&& final(self).owner == old(self).owner
                &&& *final(self) == (Mutex {
                    storage_bound: true,
                    wait_lock_internal_deferred: true,
                    lifecycle: final(self).lifecycle,
                    ..*old(self)
                })
            },
            !(old(self).lifecycle@ == State::Base && old(self).init_kind
                == MutexInitKind::StaticInitializer) ==> {
                &&& r == Err::<(), EventError>(
                    condition_error(
                        LifecycleEvent::Preset,
                        old(self).lifecycle@,
                        State::Base,
                        State::Prepared,
                    ),
                )
                &&& *final(self) == *old(self)
            },
    {
        if self.lifecycle.state() != State::Base || self.init_kind
            != MutexInitKind::StaticInitializer {
            return failed_condition(
                LifecycleEvent::Preset,
                self.lifecycle.state(),
                State::Base,
                State::Prepared,
            );
        }
        self.storage_bound = true;
        self.wait_lock_internal_deferred = true;
        self.lifecycle.transition(LifecycleEvent::Preset, State::Base, State::Prepared)
    }

    pub fn setup(&mut self) -> (r: EventResult)
        ensures
            old(self).lifecycle@ == State::Prepared && old(self).storage_bound ==> {
                &&& r is Ok
                &&& final(self).lifecycle@ == State::Ready
                &&& final(self).wait_queue_ready
                &&& !final(self).locked
                &&& final(self).owner == MutexOwner::Unowned
                &&& final(self).storage_bound
                &&& final(self).wait_lock_internal_deferred == old(self).wait_lock_internal_deferred
                &&& final(self).lock_entered_count == old(self).lock_entered_count
                &&& final(self).unlock_exited_count == old(self).unlock_exited_count
                &&& *final(self) == (Mutex {
                    wait_queue_ready: true,
                    locked: false,
                    owner: MutexOwner::Unowned,
                    lifecycle: final(self).lifecycle,
                    ..*old(self)
                })
            },
            !(old(self).lifecycle@ == State::Prepared && old(self).storage_bound) ==> {
                &&& r == Err::<(), EventError>(
                    condition_error(
                        LifecycleEvent::Setup,
                        old(self).lifecycle@,
                        State::Prepared,
                        State::Ready,
                    ),
                )
                &&& *final(self) == *old(self)
            },
    {
        if self.lifecycle.state() != State::Prepared || !self.storage_bound {
            return failed_condition(
                LifecycleEvent::Setup,
                self.lifecycle.state(),
                State::Prepared,
                State::Ready,
            );
        }
        self.wait_queue_ready = true;
        self.locked = false;
        self.owner = MutexOwner::Unowned;
        self.lifecycle.transition(LifecycleEvent::Setup, State::Prepared, State::Ready)
    }

    /// Takes the lock for the boot init task; a held lock is reported as a failed condition.
    pub fn lock_boot_init_task(&mut self, init_task_state: State) -> (r: EventResult)
        ensures
            old(self).lifecycle@ == State::Ready && init_task_state == State::Online
                && !old(self).locked ==> {
                &&& r is Ok
                &&& final(self).locked
                &&& final(self).owner == MutexOwner::BootInitTask
                &&& final(self).lock_entered_count == old(self).lock_entered_count.wrapping_add(1)
            },
            old(self).lifecycle@ == State::Ready && init_task_state == State::Online
                && old(self).locked ==> {
                &&& r == Err::<(), EventError>(
                    condition_error(LifecycleEvent::Enable, State::Ready, State::Ready, State::Ready),
                )
                &&& final(self).contended_count == old(self).contended_count.wrapping_add(1)
                &&& final(self).locked
                &&& final(self).owner == old(self).owner
            },
            !(old(self).lifecycle@ == State::Ready && init_task_state == State::Online) ==> {
                &&& r == Err::<(), EventError>(
                    condition_error(
                        LifecycleEvent::Enable,
                        old(self).lifecycle@,
                        State::Ready,
                        State::Ready,
                    ),
                )
                &&& *final(self) == *old(self)
            },
    {
        if self.lifecycle.state() != State::Ready || init_task_state != State::Online {
            return failed_condition(
                LifecycleEvent::Enable,
                self.lifecycle.state(),
                State::Ready,
                State::Ready,
            );
        }
        match self.lock_owner(MutexOwner::BootInitTask) {
            Ok(MutexLockOutcome::Acquired) => Ok(()),
            Ok(MutexLockOutcome::Blocked) => failed_condition(
                LifecycleEvent::Enable,
                self.lifecycle.state(),
                State::Ready,
                State::Ready,
            ),
            Err(e) => Err(e),
        }
    }

    pub fn unlock_boot_init_task(&mut self, init_task_state: State) -> (r: EventResult)
        ensures
            old(self).lifecycle@ == State::Ready && init_task_state == State::Online ==> {
                &&& r == unlock_result(*old(self), MutexOwner::BootInitTask)
                &&& *final(self) == unlock_state(*old(self), MutexOwner::BootInitTask)
            },
            !(old(self).lifecycle@ == State::Ready && init_task_state == State::Online) ==> {
                &&& r == Err::<(), EventError>(
                    condition_error(
                        LifecycleEvent::Disable,
                        old(self).lifecycle@,
                        State::Ready,
                        State::Ready,
                    ),
                )
                &&& *final(self) == *old(self)
            },
    {
        if self.lifecycle.state() != State::Ready || init_task_state != State::Online {
            return failed_condition(
                LifecycleEvent::Disable,
                self.lifecycle.state(),
                State::Ready,
                State::Ready,
            );
        }
        self.unlock_owner(MutexOwner::BootInitTask)
    }

    pub fn lock_owner(&mut self, owner: MutexOwner) -> (r: Result<MutexLockOutcome, EventError>)
        ensures
            r == lock_result(*old(self), owner),
            *final(self) == lock_state(*old(self), owner),
    {
        if self.lifecycle.state() != State::Ready || owner == MutexOwner::Unowned {
            return Err(
                EventError::failed(
                    EventErrorCode::ConditionFailed,
                    LifecycleEvent::Enable,
                    self.lifecycle.state(),
                    State::Ready,
                    State::Ready,
                ),
            );
        }
        if self.locked {
            self.contended_count = self.contended_count.wrapping_add(1);
            return Ok(MutexLockOutcome::Blocked);
        }
        self.locked = true;
        self.owner = owner;
        self.lock_entered_count = self.lock_entered_count.wrapping_add(1);
        Ok(MutexLockOutcome::Acquired)
    }

    pub fn unlock_owner(&mut self, owner: MutexOwner) -> (r: EventResult)
        ensures
            r == unlock_result(*old(self), owner),
            *final(self) == unlock_state(*old(self), owner),
    {
        if self.lifecycle.state() != State::Ready || !self.locked || self.owner != owner {
            return failed_condition(
                LifecycleEvent::Disable,
                self.lifecycle.state(),
                State::Ready,
                State::Ready,
            );
        }
        self.locked = false;
        self.owner = MutexOwner::Unowned;
        self.unlock_exited_count = self.unlock_exited_count.wrapping_add(1);
        if self.wake_count < self.contended_count {
            self.wake_count = self.wake_count.wrapping_add(1);
        }
        Ok(())
    }
}

/// What `lock_owner` returns in mutex state `m`.
pub open spec fn lock_result(m: Mutex, owner: MutexOwner) -> Result<MutexLockOutcome, EventError> {
    if m.lifecycle@ != State::Ready || owner == MutexOwner::Unowned {
        Err(condition_error(LifecycleEvent::Enable, m.lifecycle@, State::Ready, State::Ready))
    } else if m.locked {
        Ok(MutexLockOutcome::Blocked)
    } else {
        Ok(MutexLockOutcome::Acquired)
    }
}

/// The mutex after `lock_owner`: a free lock is taken by `owner`, a held one counts a contention.
pub open spec fn lock_state(m: Mutex, owner: MutexOwner) -> Mutex {
    if m.lifecycle@ != State::Ready || owner == MutexOwner::Unowned {
        m
    } else if m.locked {
        Mutex { contended_count: m.contended_count.wrapping_add(1), ..m }
    } else {
        Mutex {
            locked: true,
            owner,
            lock_entered_count: m.lock_entered_count.wrapping_add(1),
            ..m
        }
    }
}

/// What `unlock_owner` returns in mutex state `m`: only the holder can release.
pub open spec fn unlock_result(m: Mutex, owner: MutexOwner) -> EventResult {
    if m.lifecycle@ != State::Ready || !m.locked || m.owner != owner {
        Err(condition_error(LifecycleEvent::Disable, m.lifecycle@, State::Ready, State::Ready))
    } else {
        Ok(())
    }
}

/// The mutex after `unlock_owner`: released, with one waiter woken if any was recorded.
pub open spec fn unlock_state(m: Mutex, owner: MutexOwner) -> Mutex {
    if m.lifecycle@ != State::Ready || !m.locked || m.owner != owner {
        m
    } else {
        Mutex {
            locked: false,
            owner: MutexOwner::Unowned,
            unlock_exited_count: m.unlock_exited_count.wrapping_add(1),
            wake_count: if m.wake_count < m.contended_count {
                m.wake_count.wrapping_add(1)
            } else {
                m.wake_count
            },
            ..m
        }
    }
}

/// Locking a free mutex and unlocking it as the same owner leaves it free again, with the
/// owner cleared and one more entry and exit counted.
pub proof fn lemma_lock_unlock_roundtrip(m: Mutex, owner: MutexOwner)
    requires
        m.lifecycle@ == State::Ready,
        owner != MutexOwner::Unowned,
        !m.locked,
    ensures
        lock_result(m, owner) == Ok::<MutexLockOutcome, EventError>(MutexLockOutcome::Acquired),
        unlock_result(lock_state(m, owner), owner) is Ok,
        !unlock_state(lock_state(m, owner), owner).locked,
        unlock_state(lock_state(m, owner), owner).owner == MutexOwner::Unowned,
        unlock_state(lock_state(m, owner), owner).lock_entered_count
            == m.lock_entered_count.wrapping_add(1),
        unlock_state(lock_state(m, owner), owner).unlock_exited_count
            == m.unlock_exited_count.wrapping_add(1),
        unlock_state(lock_state(m, owner), owner).lifecycle@ == m.lifecycle@,
{
}

/// While the mutex is held, any other owner is refused the unlock and leaves it unchanged.
pub proof fn lemma_only_holder_unlocks(m: Mutex, other: MutexOwner)
    requires
        m.locked,
        m.owner != other,
    ensures
        unlock_result(m, other) is Err,
        unlock_state(m, other) == m,
{
}

} // verus!
