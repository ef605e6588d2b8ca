use lib::mutex::{Mutex, MutexLockOutcome, MutexOwner};
use lib::rwlock::{RwLock, RwLockExtState, RwLockOwner, RwLockReadOutcome, RwLockWriteOutcome};

#[test]
fn rwlock_writer_blocked_by_two_readers() {
    let mut l = RwLock::new_static();
    assert_eq!(l.preset_static(), Ok(()));
    assert_eq!(l.setup(), Ok(()));
    assert_eq!(l.read_lock_owner(RwLockOwner::BootInitTask), Ok(RwLockReadOutcome::Acquired));
    assert_eq!(l.read_lock_owner(RwLockOwner::KernelInitTask), Ok(RwLockReadOutcome::Shared));
    assert_eq!(l.write_lock_owner(RwLockOwner::SmokeRwLockTask), Ok(RwLockWriteOutcome::Blocked));
    assert_eq!(l.active_readers(), 2);
    assert_eq!(l.write_blocked_count(), 1);
    assert_eq!(l.writer(), RwLockOwner::Unowned);
    assert_eq!(l.ext_state(), RwLockExtState::ReadHeld);
}

#[test]
fn mutex_wrong_owner_cannot_unlock_and_wake_is_counted() {
    let mut m = Mutex::new_static();
    assert_eq!(m.preset_static(), Ok(()));
    assert_eq!(m.setup(), Ok(()));
    assert_eq!(m.lock_owner(MutexOwner::BootInitTask), Ok(MutexLockOutcome::Acquired));
    assert_eq!(m.lock_owner(MutexOwner::KernelInitTask), Ok(MutexLockOutcome::Blocked));
    assert!(m.unlock_owner(MutexOwner::KernelInitTask).is_err());
    assert_eq!(m.owner(), MutexOwner::BootInitTask);
    assert_eq!(m.unlock_owner(MutexOwner::BootInitTask), Ok(()));
    assert_eq!(m.owner(), MutexOwner::Unowned);
    assert!(!m.locked());
    assert_eq!(m.contended_count(), 1);
    assert_eq!(m.wake_count(), 1);
    assert!(m.ready());
}
