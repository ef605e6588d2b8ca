use lib::rootfs::{
    BlockDeviceView, RootFS, RootMountView, RootfsConsoleDeferred, RootfsEnableView,
    RootfsMountOutcome, RootfsPrepareNamespacePaths, KERNEL_INIT_PID,
};
use lib::state::{Lifecycle, State};

fn view() -> RootfsEnableView {
    RootfsEnableView {
        saved_command_line_state: State::Ready,
        kernel_init_task_state: State::Online,
        kernel_init_task_pid: KERNEL_INIT_PID,
        vfs_core_state: State::Ready,
        rootfs_mount_created: true,
        fs_struct_state: State::Ready,
        devfs_state: State::Ready,
        devfs_mounted: true,
        devfs_block_node_listed: true,
        block_registry_state: State::Ready,
        default_device_slot_ready: true,
        ext2_driver_state: State::Ready,
        ext2_volume_state: State::Ready,
        ext2_filesystem_state: State::Ready,
        ext2_filesystem_ready: true,
        root_mount: Some(RootMountView { is_ramfs: true, root_dentry_ref: 7 }),
        root_dentry: Some(7),
        pwd_dentry: Some(7),
        default_entry: Some(BlockDeviceView { device_ref: Some(3), devt: Some(0x800) }),
        block_node: Some(BlockDeviceView { device_ref: Some(3), devt: Some(0x800) }),
    }
}

fn ready_inputs() -> (RootfsConsoleDeferred, RootfsPrepareNamespacePaths) {
    let mut console = RootfsConsoleDeferred::new();
    console.lifecycle = Lifecycle::new(State::Ready);
    console.setup_deferred = true;
    let mut paths = RootfsPrepareNamespacePaths::new();
    paths.lifecycle = Lifecycle::new(State::Ready);
    paths.mount_root_block_formal = true;
    paths.ext4_for_ext2_linux_config_recorded = true;
    paths.arceos_ext2_driver_substitutes_linux_ext4_for_ext2 = true;
    paths.devfs_not_remounted_after_root_switch = true;
    (console, paths)
}

#[test]
fn root_switch_records_the_real_root() {
    let (console, paths) = ready_inputs();
    let mut root = RootFS::new();
    let plan = root.enable_plan(&console, &paths, &view()).unwrap();
    assert_eq!((plan.root_dentry_ref, plan.device_ref, plan.devt), (7, 3, 0x800));
    let outcome = RootfsMountOutcome { mount_point_ref: Some(9), mount_ref: Some(11), root_switched: true };
    assert!(root.enable(plan, outcome).is_ok());
    assert_eq!(root.lifecycle.state(), State::Online);
    assert_eq!(root.root_device_devt, Some(0x800));
    assert_eq!(root.real_mount_ref, Some(11));
    assert!(root.current_root_is_real_ext2);
}

#[test]
fn root_switch_refuses_a_mismatched_block_node() {
    let (console, paths) = ready_inputs();
    let root = RootFS::new();
    let mut v = view();
    v.block_node = Some(BlockDeviceView { device_ref: Some(3), devt: Some(0x801) });
    assert!(root.enable_plan(&console, &paths, &v).is_err());
    let mut w = view();
    w.pwd_dentry = Some(8);
    assert!(root.enable_plan(&console, &paths, &w).is_err());
}

#[test]
fn root_switch_failure_changes_nothing() {
    let (console, paths) = ready_inputs();
    let mut root = RootFS::new();
    let plan = root.enable_plan(&console, &paths, &view()).unwrap();
    let outcome = RootfsMountOutcome { mount_point_ref: Some(9), mount_ref: None, root_switched: false };
    assert!(root.enable(plan, outcome).is_err());
    assert_eq!(root.lifecycle.state(), State::Ready);
    assert!(!root.current_root_is_real_ext2);
}
