use lib::kernel_task::{
    CpuRef, InboundKind, KernelTaskError, KernelTasks, RegistryTarget, TaskRef, TaskSetupOutcome,
    UserRegistryView, KERNEL_TASK_GENERATION, KERNEL_TASK_PID_BASE,
};

fn ok_setup() -> TaskSetupOutcome {
    TaskSetupOutcome { preset_ok: true, setup_ok: true }
}

fn empty_registry() -> UserRegistryView {
    UserRegistryView { targets: Vec::new() }
}

#[test]
fn create_places_tasks_in_first_free_slots() {
    let mut t = KernelTasks::new(4, 2, 7);
    let a = t.create(CpuRef::new(1), ok_setup()).unwrap();
    let b = t.create(CpuRef::new(2), ok_setup()).unwrap();
    assert_eq!(a, TaskRef::Kernel { slot: 0, generation: KERNEL_TASK_GENERATION });
    assert_eq!(b, TaskRef::Kernel { slot: 1, generation: KERNEL_TASK_GENERATION });
    assert_eq!(t.records[1].pid, KERNEL_TASK_PID_BASE + 1);
    assert!(t.records[1].published);
}

#[test]
fn create_refuses_boot_and_invalid_cpus() {
    let mut t = KernelTasks::new(4, 2, 7);
    assert_eq!(t.create(CpuRef::new(0), ok_setup()), Err(KernelTaskError::Target));
    assert_eq!(t.create(CpuRef::invalid(), ok_setup()), Err(KernelTaskError::Target));
    assert_eq!(
        t.create(CpuRef::new(1), TaskSetupOutcome { preset_ok: false, setup_ok: true }),
        Err(KernelTaskError::Preset)
    );
    assert_eq!(
        t.create(CpuRef::new(1), TaskSetupOutcome { preset_ok: true, setup_ok: false }),
        Err(KernelTaskError::Setup)
    );
    assert!(!t.records[0].published);
}

#[test]
fn create_exhausts_slots() {
    let mut t = KernelTasks::new(2, 1, 7);
    for _ in 0..8 {
        t.create(CpuRef::new(1), ok_setup()).unwrap();
    }
    assert_eq!(t.create(CpuRef::new(1), ok_setup()), Err(KernelTaskError::SlotsExhausted));
}

#[test]
fn published_message_is_taken_back() {
    let mut t = KernelTasks::new(4, 2, 7);
    let reg = empty_registry();
    let task = t.create(CpuRef::new(2), ok_setup()).unwrap();
    let fresh = t.publish_and_ipi(task, CpuRef::new(2), InboundKind::Activate, 5, &reg).unwrap();
    assert!(fresh);
    assert!(t.has_inbound(2));
    let m = t.take_inbound(2, &reg).unwrap();
    assert_eq!(m.task_ref, task);
    assert_eq!(m.kind, InboundKind::Activate);
    assert_eq!(m.ordinal, 5);
    assert_eq!(m.target_cpu, CpuRef::new(2));
    assert!(!t.has_inbound(2));
    assert_eq!(t.take_inbound(2, &reg), None);
    assert_eq!(t.counters(2), Some((0, 0, 1)));
}

#[test]
fn second_notification_coalesces_and_ordinals_must_grow() {
    let mut t = KernelTasks::new(4, 2, 7);
    let reg = empty_registry();
    let task = t.create(CpuRef::new(1), ok_setup()).unwrap();
    assert_eq!(t.publish_and_ipi(task, CpuRef::new(1), InboundKind::Wake, 3, &reg), Ok(true));
    assert_eq!(t.publish_and_ipi(task, CpuRef::new(1), InboundKind::Wake, 4, &reg), Ok(false));
    assert_eq!(
        t.publish_and_ipi(task, CpuRef::new(1), InboundKind::Wake, 4, &reg),
        Err(KernelTaskError::InboxOrdinal)
    );
    assert_eq!(
        t.reserve_inbound(task, CpuRef::new(1), InboundKind::Wake, 0, &reg),
        Err(KernelTaskError::InboxTargetOrOrdinal)
    );
}

#[test]
fn take_picks_the_smallest_ordinal() {
    let mut t = KernelTasks::new(4, 2, 7);
    let reg = empty_registry();
    let a = t.create(CpuRef::new(3), ok_setup()).unwrap();
    let b = t.create(CpuRef::new(3), ok_setup()).unwrap();
    let ra = t.reserve_inbound(a, CpuRef::new(3), InboundKind::Wake, 10, &reg).unwrap();
    let rb = t.reserve_inbound(b, CpuRef::new(3), InboundKind::Activate, 11, &reg).unwrap();
    assert_eq!(t.publish_reserved(rb), Ok(true));
    assert_eq!(t.publish_reserved(ra), Ok(true));
    assert_eq!(t.take_inbound(3, &reg).unwrap().task_ref, a);
    assert_eq!(t.take_inbound(3, &reg).unwrap().task_ref, b);
}

#[test]
fn reservation_pending_and_rollback() {
    let mut t = KernelTasks::new(4, 2, 7);
    let reg = empty_registry();
    let a = t.create(CpuRef::new(1), ok_setup()).unwrap();
    let r = t.reserve_inbound(a, CpuRef::new(1), InboundKind::Wake, 1, &reg).unwrap();
    assert_eq!(
        t.reserve_inbound(a, CpuRef::new(1), InboundKind::Wake, 2, &reg),
        Err(KernelTaskError::InboxTaskPending)
    );
    assert!(t.rollback_reserved(r));
    assert_eq!(t.publish_reserved(r), Err(KernelTaskError::ReservationStale));
    assert!(!t.rollback_reserved(r));
}

#[test]
fn unknown_targets_are_refused() {
    let mut t = KernelTasks::new(4, 2, 7);
    let reg = empty_registry();
    let a = t.create(CpuRef::new(1), ok_setup()).unwrap();
    assert_eq!(
        t.reserve_inbound(a, CpuRef::new(2), InboundKind::Wake, 1, &reg),
        Err(KernelTaskError::InboxTaskRefOrGeneration)
    );
    assert_eq!(
        t.reserve_inbound(a, CpuRef::new(9), InboundKind::Wake, 1, &reg),
        Err(KernelTaskError::InboxTargetOrOrdinal)
    );
    let user = TaskRef::user(1, 4);
    assert_eq!(
        t.reserve_inbound(user, CpuRef::new(1), InboundKind::Wake, 1, &reg),
        Err(KernelTaskError::InboxTaskRefOrGeneration)
    );
    let reg2 = UserRegistryView {
        targets: vec![RegistryTarget { task_ref: user, target_cpu: CpuRef::new(1), valid: false, reservable: true }],
    };
    assert!(t.reserve_inbound(user, CpuRef::new(1), InboundKind::Wake, 1, &reg2).is_ok());
}

#[test]
fn pid1_message_round_trip() {
    let mut t = KernelTasks::new(2, 2, 7);
    let init = TaskRef::KernelInit { generation: 7 };
    let reg = UserRegistryView {
        targets: vec![RegistryTarget { task_ref: init, target_cpu: CpuRef::new(1), valid: true, reservable: false }],
    };
    t.publish(init, CpuRef::new(1), InboundKind::Wake, 9, &reg).unwrap();
    let m = t.take_inbound(1, &reg).unwrap();
    assert_eq!(m.task_ref, init);
    assert_eq!(m.ordinal, 9);
}

#[test]
fn reschedule_flags_and_counters() {
    let mut t = KernelTasks::new(2, 1, 1);
    t.handle_reschedule_ipi(1);
    assert!(t.need_resched_pending(1));
    assert!(t.take_need_resched(1));
    assert!(!t.take_need_resched(1));
    t.mark_ipi_sent(1);
    t.record_idle_restore(1);
    t.record_identity_schedule(1);
    t.record_nonidentity_switch(1);
    assert_eq!(t.counters(1), Some((1, 1, 0)));
    assert_eq!(t.switch_counters(1), Some((1, 1, 1)));
    assert_eq!(t.counters(5), None);
}

#[test]
fn automatic_ordinals_skip_zero() {
    let mut t = KernelTasks::new(1, 1, 1);
    assert_eq!(t.next_inbound_ordinal(), 1);
    assert_eq!(t.next_inbound_ordinal(), 2);
    t.next_auto_ordinal = u64::MAX;
    assert_eq!(t.next_inbound_ordinal(), u64::MAX);
    assert_eq!(t.next_inbound_ordinal(), 1);
}

#[test]
fn enqueue_lookups_need_owner_cpu() {
    let mut t = KernelTasks::new(4, 1, 1);
    let a = t.create(CpuRef::new(2), ok_setup()).unwrap();
    assert_eq!(t.activate_for_enqueue(a, 2), Ok(0));
    assert!(t.activate_for_enqueue(a, 1).is_err());
    assert!(t.wake_for_enqueue(TaskRef::kernel(5, 1), 2).is_err());
    assert_eq!(t.task_by_ref(a), Some(0));
}
