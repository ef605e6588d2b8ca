//! The rootfs phase of boot: the trimmed or deferred steps before and around mounting
//! the real root, recorded as facts that the end of the phase checks.
use vstd::prelude::*;
use crate::boot_facts::{Config, Workqueue};
use crate::state::{condition_error, failed_condition, EventError, EventErrorCode, EventResult, Lifecycle, LifecycleEvent, State};

verus! {

/// The pid of the first user process.
pub const KERNEL_INIT_PID: usize = 1;

/// What the saved command line says of the root device: a `rootdelay=` token, a bare
/// `rootwait`, a `rootwait=` token, and `root=` naming NFS or CIFS.
#[derive(Clone, Copy, PartialEq, Eq, Structural, Debug)]
pub struct RootCommandLineFacts {
    pub has_rootdelay: bool,
    pub has_rootwait: bool,
    pub has_rootwait_timeout: bool,
    pub root_is_nfs: bool,
    pub root_is_cifs: bool,
}


pub struct KUnitRuntimeTrimmed {
    pub lifecycle: Lifecycle,
    pub trimmed_noop: bool,
    pub position_preserved: bool,
}

impl KUnitRuntimeTrimmed {
    pub fn new() -> (s: Self)
        ensures
            s.lifecycle@ == State::Base,
            !s.trimmed_noop,
            !s.position_preserved,
    {
        Self {
            lifecycle: Lifecycle::new(State::Base),
            trimmed_noop: false,
            position_preserved: false,
        }
    }

    pub fn state(&self) -> (r: State)
        ensures
            r == self.lifecycle@,
    {
        self.lifecycle.state()
    }

    pub fn trimmed_noop(&self) -> (r: bool)
        ensures
            r == self.trimmed_noop,
    {
        self.trimmed_noop
    }

    pub fn position_preserved(&self) -> (r: bool)
        ensures
            r == self.position_preserved,
    {
        self.position_preserved
    }

    pub fn setup(&mut self, initcall_boundary_state: State, initcall_kunit_next_boundary: bool) -> (r: EventResult)
        ensures
            !(old(self).lifecycle@ != State::Base || initcall_boundary_state != State::Ready || !initcall_kunit_next_boundary ) ==> {
                &&& r == Ok::<(), EventError>(())
                &&& final(self).lifecycle@ == State::Ready
                &&& *final(self) == (KUnitRuntimeTrimmed {
                    trimmed_noop: true,
                    position_preserved: true,
                    lifecycle: final(self).lifecycle,
                    ..*old(self)
                })
            },
            old(self).lifecycle@ != State::Base || initcall_boundary_state != State::Ready || !initcall_kunit_next_boundary  ==> {
                &&& r == Err::<(), EventError>(
                    condition_error(
                        LifecycleEvent::Setup,
                        old(self).lifecycle@,
                        State::Base,
                        State::Ready,
                    ),
                )
                &&& *final(self) == *old(self)
            },
    {
        if self.lifecycle.state() != State::Base || initcall_boundary_state != State::Ready || !initcall_kunit_next_boundary  {
            return failed_condition(
                LifecycleEvent::Setup,
                self.lifecycle.state(),
                State::Base,
                State::Ready,
            );
        }
        self.trimmed_noop = true;
        self.position_preserved = true;
        self.lifecycle.transition(LifecycleEvent::Setup, State::Base, State::Ready)
    }
}

pub struct InitramfsSyncDeferred {
    pub lifecycle: Lifecycle,
    pub wait_deferred: bool,
    pub async_cookie_boundary_preserved: bool,
}

impl InitramfsSyncDeferred {
    pub fn new() -> (s: Self)
        ensures
            s.lifecycle@ == State::Base,
            !s.wait_deferred,
            !s.async_cookie_boundary_preserved,
    {
        Self {
            lifecycle: Lifecycle::new(State::Base),
            wait_deferred: false,
            async_cookie_boundary_preserved: false,
        }
    }

    pub fn state(&self) -> (r: State)
        ensures
            r == self.lifecycle@,
    {
        self.lifecycle.state()
    }

    pub fn wait_deferred(&self) -> (r: bool)
        ensures
            r == self.wait_deferred,
    {
        self.wait_deferred
    }

    pub fn async_cookie_boundary_preserved(&self) -> (r: bool)
        ensures
            r == self.async_cookie_boundary_preserved,
    {
        self.async_cookie_boundary_preserved
    }

    pub fn setup(&mut self, kunit: &KUnitRuntimeTrimmed, workqueue: &Workqueue) -> (r: EventResult)
        ensures
            !(old(self).lifecycle@ != State::Base || kunit.lifecycle@ != State::Ready || !kunit.trimmed_noop || workqueue.state != State::Ready || !workqueue.topology_ready ) ==> {
                &&& r == Ok::<(), EventError>(())
                &&& final(self).lifecycle@ == State::Ready
                &&& *final(self) == (InitramfsSyncDeferred {
                    wait_deferred: true,
                    async_cookie_boundary_preserved: true,
                    lifecycle: final(self).lifecycle,
                    ..*old(self)
                })
            },
            old(self).lifecycle@ != State::Base || kunit.lifecycle@ != State::Ready || !kunit.trimmed_noop || workqueue.state != State::Ready || !workqueue.topology_ready  ==> {
                &&& r == Err::<(), EventError>(
                    condition_error(
                        LifecycleEvent::Setup,
                        old(self).lifecycle@,
                        State::Base,
                        State::Ready,
                    ),
                )
                &&& *final(self) == *old(self)
            },
    {
        if self.lifecycle.state() != State::Base || kunit.state() != State::Ready || !kunit.trimmed_noop() || workqueue.state != State::Ready || !workqueue.topology_ready  {
            return failed_condition(
                LifecycleEvent::Setup,
                self.lifecycle.state(),
                State::Base,
                State::Ready,
            );
        }
        self.wait_deferred = true;
        self.async_cookie_boundary_preserved = true;
        self.lifecycle.transition(LifecycleEvent::Setup, State::Base, State::Ready)
    }
}

pub struct RootfsConsoleDeferred {
    pub lifecycle: Lifecycle,
    pub setup_deferred: bool,
    pub pid1_console_fd_position_preserved: bool,
}

impl RootfsConsoleDeferred {
    pub fn new() -> (s: Self)
        ensures
            s.lifecycle@ == State::Base,
            !s.setup_deferred,
            !s.pid1_console_fd_position_preserved,
    {
        Self {
            lifecycle: Lifecycle::new(State::Base),
            setup_deferred: false,
            pid1_console_fd_position_preserved: false,
        }
    }

    pub fn state(&self) -> (r: State)
        ensures
            r == self.lifecycle@,
    {
        self.lifecycle.state()
    }

    pub fn setup_deferred(&self) -> (r: bool)
        ensures
            r == self.setup_deferred,
    {
        self.setup_deferred
    }

    pub fn pid1_console_fd_position_preserved(&self) -> (r: bool)
        ensures
            r == self.pid1_console_fd_position_preserved,
    {
        self.pid1_console_fd_position_preserved
    }

    pub fn setup(&mut self, initramfs_sync: &InitramfsSyncDeferred, kernel_init_task_state: State, kernel_init_task_pid: usize) -> (r: EventResult)
        ensures
            !(old(self).lifecycle@ != State::Base || initramfs_sync.lifecycle@ != State::Ready || !initramfs_sync.wait_deferred || kernel_init_task_state != State::Online || kernel_init_task_pid != KERNEL_INIT_PID ) ==> {
                &&& r == Ok::<(), EventError>(())
                &&& final(self).lifecycle@ == State::Ready
                &&& *final(self) == (RootfsConsoleDeferred {
                    setup_deferred: true,
                    pid1_console_fd_position_preserved: true,
                    lifecycle: final(self).lifecycle,
                    ..*old(self)
                })
            },
            old(self).lifecycle@ != State::Base || initramfs_sync.lifecycle@ != State::Ready || !initramfs_sync.wait_deferred || kernel_init_task_state != State::Online || kernel_init_task_pid != KERNEL_INIT_PID  ==> {
                &&& r == Err::<(), EventError>(
                    condition_error(
                        LifecycleEvent::Setup,
                        old(self).lifecycle@,
                        State::Base,
                        State::Ready,
                    ),
                )
                &&& *final(self) == *old(self)
            },
    {
        if self.lifecycle.state() != State::Base || initramfs_sync.state() != State::Ready || !initramfs_sync.wait_deferred() || kernel_init_task_state != State::Online || kernel_init_task_pid != KERNEL_INIT_PID  {
            return failed_condition(
                LifecycleEvent::Setup,
                self.lifecycle.state(),
                State::Base,
                State::Ready,
            );
        }
        self.setup_deferred = true;
        self.pid1_console_fd_position_preserved = true;
        self.lifecycle.transition(LifecycleEvent::Setup, State::Base, State::Ready)
    }
}

pub struct RootfsPrepareNamespacePaths {
    pub lifecycle: Lifecycle,
    pub root_delay_trimmed: bool,
    pub device_probe_wait_deferred: bool,
    pub device_probe_waitqueue_deferred: bool,
    pub device_probe_atomic_counter_deferred: bool,
    pub deferred_probe_work_flush_deferred: bool,
    pub md_run_setup_deferred: bool,
    pub saved_root_name_parse_deferred: bool,
    pub root_device_parse_deferred: bool,
    pub initrd_load_trimmed: bool,
    pub root_wait_trimmed: bool,
    pub root_wait_polling_deferred: bool,
    pub mount_root_block_formal: bool,
    pub nfs_root_deferred: bool,
    pub cifs_root_trimmed: bool,
    pub nodev_root_deferred: bool,
    pub ext4_for_ext2_linux_config_recorded: bool,
    pub arceos_ext2_driver_substitutes_linux_ext4_for_ext2: bool,
    pub devtmpfs_mount_deferred: bool,
    pub devfs_not_remounted_after_root_switch: bool,
}

impl RootfsPrepareNamespacePaths {
    pub fn new() -> (s: Self)
        ensures
            s.lifecycle@ == State::Base,
            !s.root_delay_trimmed,
            !s.device_probe_wait_deferred,
            !s.device_probe_waitqueue_deferred,
            !s.device_probe_atomic_counter_deferred,
            !s.deferred_probe_work_flush_deferred,
            !s.md_run_setup_deferred,
            !s.saved_root_name_parse_deferred,
            !s.root_device_parse_deferred,
            !s.initrd_load_trimmed,
            !s.root_wait_trimmed,
            !s.root_wait_polling_deferred,
            !s.mount_root_block_formal,
            !s.nfs_root_deferred,
            !s.cifs_root_trimmed,
            !s.nodev_root_deferred,
            !s.ext4_for_ext2_linux_config_recorded,
            !s.arceos_ext2_driver_substitutes_linux_ext4_for_ext2,
            !s.devtmpfs_mount_deferred,
            !s.devfs_not_remounted_after_root_switch,
    {
        Self {
            lifecycle: Lifecycle::new(State::Base),
            root_delay_trimmed: false,
            device_probe_wait_deferred: false,
            device_probe_waitqueue_deferred: false,
            device_probe_atomic_counter_deferred: false,
            deferred_probe_work_flush_deferred: false,
            md_run_setup_deferred: false,
            saved_root_name_parse_deferred: false,
            root_device_parse_deferred: false,
            initrd_load_trimmed: false,
            root_wait_trimmed: false,
            root_wait_polling_deferred: false,
            mount_root_block_formal: false,
            nfs_root_deferred: false,
            cifs_root_trimmed: false,
            nodev_root_deferred: false,
            ext4_for_ext2_linux_config_recorded: false,
            arceos_ext2_driver_substitutes_linux_ext4_for_ext2: false,
            devtmpfs_mount_deferred: false,
            devfs_not_remounted_after_root_switch: false,
        }
    }

    pub fn state(&self) -> (r: State)
        ensures
            r == self.lifecycle@,
    {
        self.lifecycle.state()
    }

    pub fn root_delay_trimmed(&self) -> (r: bool)
        ensures
            r == self.root_delay_trimmed,
    {
        self.root_delay_trimmed
    }

    pub fn device_probe_wait_deferred(&self) -> (r: bool)
        ensures
            r == self.device_probe_wait_deferred,
    {
        self.device_probe_wait_deferred
    }

    pub fn device_probe_waitqueue_deferred(&self) -> (r: bool)
        ensures
            r == self.device_probe_waitqueue_deferred,
    {
        self.device_probe_waitqueue_deferred
    }

    pub fn device_probe_atomic_counter_deferred(&self) -> (r: bool)
        ensures
            r == self.device_probe_atomic_counter_deferred,
    {
        self.device_probe_atomic_counter_deferred
    }

    pub fn deferred_probe_work_flush_deferred(&self) -> (r: bool)
        ensures
            r == self.deferred_probe_work_flush_deferred,
    {
        self.deferred_probe_work_flush_deferred
    }

    pub fn md_run_setup_deferred(&self) -> (r: bool)
        ensures
            r == self.md_run_setup_deferred,
    {
        self.md_run_setup_deferred
    }

    pub fn saved_root_name_parse_deferred(&self) -> (r: bool)
        ensures
            r == self.saved_root_name_parse_deferred,
    {
        self.saved_root_name_parse_deferred
    }

    pub fn root_device_parse_deferred(&self) -> (r: bool)
        ensures
            r == self.root_device_parse_deferred,
    {
        self.root_device_parse_deferred
    }

    pub fn initrd_load_trimmed(&self) -> (r: bool)
        ensures
            r == self.initrd_load_trimmed,
    {
        self.initrd_load_trimmed
    }

    pub fn root_wait_trimmed(&self) -> (r: bool)
        ensures
            r == self.root_wait_trimmed,
    {
        self.root_wait_trimmed
    }

    pub fn root_wait_polling_deferred(&self) -> (r: bool)
        ensures
            r == self.root_wait_polling_deferred,
    {
        self.root_wait_polling_deferred
    }

    pub fn mount_root_block_formal(&self) -> (r: bool)
        ensures
            r == self.mount_root_block_formal,
    {
        self.mount_root_block_formal
    }

    pub fn nfs_root_deferred(&self) -> (r: bool)
        ensures
            r == self.nfs_root_deferred,
    {
        self.nfs_root_deferred
    }

    pub fn cifs_root_trimmed(&self) -> (r: bool)
        ensures
            r == self.cifs_root_trimmed,
    {
        self.cifs_root_trimmed
    }

    pub fn nodev_root_deferred(&self) -> (r: bool)
        ensures
            r == self.nodev_root_deferred,
    {
        self.nodev_root_deferred
    }

    pub fn ext4_for_ext2_linux_config_recorded(&self) -> (r: bool)
        ensures
            r == self.ext4_for_ext2_linux_config_recorded,
    {
        self.ext4_for_ext2_linux_config_recorded
    }

    pub fn arceos_ext2_driver_substitutes_linux_ext4_for_ext2(&self) -> (r: bool)
        ensures
            r == self.arceos_ext2_driver_substitutes_linux_ext4_for_ext2,
    {
        self.arceos_ext2_driver_substitutes_linux_ext4_for_ext2
    }

    pub fn devtmpfs_mount_deferred(&self) -> (r: bool)
        ensures
            r == self.devtmpfs_mount_deferred,
    {
        self.devtmpfs_mount_deferred
    }

    pub fn devfs_not_remounted_after_root_switch(&self) -> (r: bool)
        ensures
            r == self.devfs_not_remounted_after_root_switch,
    {
        self.devfs_not_remounted_after_root_switch
    }

    pub fn setup(&mut self, rootfs_console: &RootfsConsoleDeferred, saved_command_line_state: State, cmdline: &RootCommandLineFacts, driver_core_state: State, workqueue_state: State, initcall_boundary_state: State, initcall_kunit_next_boundary: bool, config: &Config) -> (r: EventResult)
        ensures
            !(old(self).lifecycle@ != State::Base || rootfs_console.lifecycle@ != State::Ready || !rootfs_console.setup_deferred || saved_command_line_state != State::Ready || driver_core_state != State::Ready || workqueue_state != State::Ready || initcall_boundary_state != State::Ready || !initcall_kunit_next_boundary || config.kunit_enabled || config.blk_dev_initrd_enabled || !config.md_enabled || !config.root_nfs_enabled || config.cifs_root_enabled || config.ext2_fs_enabled || !config.ext4_use_for_ext2_enabled || !config.devtmpfs_enabled || !config.devtmpfs_mount_enabled || cmdline.has_rootdelay || cmdline.has_rootwait || cmdline.has_rootwait_timeout || cmdline.root_is_nfs || cmdline.root_is_cifs ) ==> {
                &&& r == Ok::<(), EventError>(())
                &&& final(self).lifecycle@ == State::Ready
                &&& *final(self) == (RootfsPrepareNamespacePaths {
                    root_delay_trimmed: true,
                    device_probe_wait_deferred: true,
                    device_probe_waitqueue_deferred: true,
                    device_probe_atomic_counter_deferred: true,
                    deferred_probe_work_flush_deferred: true,
                    md_run_setup_deferred: true,
                    saved_root_name_parse_deferred: true,
                    root_device_parse_deferred: true,
                    initrd_load_trimmed: true,
                    root_wait_trimmed: true,
                    root_wait_polling_deferred: true,
                    mount_root_block_formal: true,
                    nfs_root_deferred: true,
                    cifs_root_trimmed: true,
                    nodev_root_deferred: true,
                    ext4_for_ext2_linux_config_recorded: true,
                    arceos_ext2_driver_substitutes_linux_ext4_for_ext2: true,
                    devtmpfs_mount_deferred: true,
                    devfs_not_remounted_after_root_switch: true,
                    lifecycle: final(self).lifecycle,
                    ..*old(self)
                })
            },
            old(self).lifecycle@ != State::Base || rootfs_console.lifecycle@ != State::Ready || !rootfs_console.setup_deferred || saved_command_line_state != State::Ready || driver_core_state != State::Ready || workqueue_state != State::Ready || initcall_boundary_state != State::Ready || !initcall_kunit_next_boundary || config.kunit_enabled || config.blk_dev_initrd_enabled || !config.md_enabled || !config.root_nfs_enabled || config.cifs_root_enabled || config.ext2_fs_enabled || !config.ext4_use_for_ext2_enabled || !config.devtmpfs_enabled || !config.devtmpfs_mount_enabled || cmdline.has_rootdelay || cmdline.has_rootwait || cmdline.has_rootwait_timeout || cmdline.root_is_nfs || cmdline.root_is_cifs  ==> {
                &&& r == Err::<(), EventError>(
                    condition_error(
                        LifecycleEvent::Setup,
                        old(self).lifecycle@,
                        State::Base,
                        State::Ready,
                    ),
                )
                &&& *final(self) == *old(self)
            },
    {
        if self.lifecycle.state() != State::Base || rootfs_console.state() != State::Ready || !rootfs_console.setup_deferred() || saved_command_line_state != State::Ready || driver_core_state != State::Ready || workqueue_state != State::Ready || initcall_boundary_state != State::Ready || !initcall_kunit_next_boundary || config.kunit_enabled || config.blk_dev_initrd_enabled || !config.md_enabled || !config.root_nfs_enabled || config.cifs_root_enabled || config.ext2_fs_enabled || !config.ext4_use_for_ext2_enabled || !config.devtmpfs_enabled || !config.devtmpfs_mount_enabled || cmdline.has_rootdelay || cmdline.has_rootwait || cmdline.has_rootwait_timeout || cmdline.root_is_nfs || cmdline.root_is_cifs  {
            return failed_condition(
                LifecycleEvent::Setup,
                self.lifecycle.state(),
                State::Base,
                State::Ready,
            );
        }
        self.root_delay_trimmed = true;
        self.device_probe_wait_deferred = true;
        self.device_probe_waitqueue_deferred = true;
        self.device_probe_atomic_counter_deferred = true;
        self.deferred_probe_work_flush_deferred = true;
        self.md_run_setup_deferred = true;
        self.saved_root_name_parse_deferred = true;
        self.root_device_parse_deferred = true;
        self.initrd_load_trimmed = true;
        self.root_wait_trimmed = true;
        self.root_wait_polling_deferred = true;
        self.mount_root_block_formal = true;
        self.nfs_root_deferred = true;
        self.cifs_root_trimmed = true;
        self.nodev_root_deferred = true;
        self.ext4_for_ext2_linux_config_recorded = true;
        self.arceos_ext2_driver_substitutes_linux_ext4_for_ext2 = true;
        self.devtmpfs_mount_deferred = true;
        self.devfs_not_remounted_after_root_switch = true;
        self.lifecycle.transition(LifecycleEvent::Setup, State::Base, State::Ready)
    }
}

pub struct RootFS {
    pub lifecycle: Lifecycle,
    pub ramdisk_eaccess_requires_prepare_namespace: bool,
    pub prepare_namespace_inputs_ready: bool,
    pub initial_ramfs_still_active: bool,
    pub devfs_available: bool,
    pub block_root_device_candidate_bound: bool,
    pub root_device_ref: Option<usize>,
    pub root_device_devt: Option<usize>,
    pub ext2_driver_ready: bool,
    pub ext2_volume_ready: bool,
    pub ext2_filesystem_ready: bool,
    pub real_mount_point_created: bool,
    pub real_ext2_mount_created: bool,
    pub real_mount_point_ref: Option<usize>,
    pub real_mount_ref: Option<usize>,
    pub prepare_namespace_position_preserved: bool,
    pub ms_move_done: bool,
    pub chroot_dot_done: bool,
    pub current_root_is_real_ext2: bool,
}

impl RootFS {
    pub fn new() -> (s: Self)
        ensures
            s.lifecycle@ == State::Ready,
            !s.ramdisk_eaccess_requires_prepare_namespace,
            !s.prepare_namespace_inputs_ready,
            !s.initial_ramfs_still_active,
            !s.devfs_available,
            !s.block_root_device_candidate_bound,
            s.root_device_ref is None,
            s.root_device_devt is None,
            !s.ext2_driver_ready,
            !s.ext2_volume_ready,
            !s.ext2_filesystem_ready,
            !s.real_mount_point_created,
            !s.real_ext2_mount_created,
            s.real_mount_point_ref is None,
            s.real_mount_ref is None,
            !s.prepare_namespace_position_preserved,
            !s.ms_move_done,
            !s.chroot_dot_done,
            !s.current_root_is_real_ext2,
    {
        Self {
            lifecycle: Lifecycle::new(State::Ready),
            ramdisk_eaccess_requires_prepare_namespace: false,
            prepare_namespace_inputs_ready: false,
            initial_ramfs_still_active: false,
            devfs_available: false,
            block_root_device_candidate_bound: false,
            root_device_ref: None,
            root_device_devt: None,
            ext2_driver_ready: false,
            ext2_volume_ready: false,
            ext2_filesystem_ready: false,
            real_mount_point_created: false,
            real_ext2_mount_created: false,
            real_mount_point_ref: None,
            real_mount_ref: None,
            prepare_namespace_position_preserved: false,
            ms_move_done: false,
            chroot_dot_done: false,
            current_root_is_real_ext2: false,
        }
    }

    pub fn state(&self) -> (r: State)
        ensures
            r == self.lifecycle@,
    {
        self.lifecycle.state()
    }

    pub fn ramdisk_eaccess_requires_prepare_namespace(&self) -> (r: bool)
        ensures
            r == self.ramdisk_eaccess_requires_prepare_namespace,
    {
        self.ramdisk_eaccess_requires_prepare_namespace
    }

    pub fn prepare_namespace_inputs_ready(&self) -> (r: bool)
        ensures
            r == self.prepare_namespace_inputs_ready,
    {
        self.prepare_namespace_inputs_ready
    }

    pub fn initial_ramfs_still_active(&self) -> (r: bool)
        ensures
            r == self.initial_ramfs_still_active,
    {
        self.initial_ramfs_still_active
    }

    pub fn devfs_available(&self) -> (r: bool)
        ensures
            r == self.devfs_available,
    {
        self.devfs_available
    }

    pub fn block_root_device_candidate_bound(&self) -> (r: bool)
        ensures
            r == self.block_root_device_candidate_bound,
    {
        self.block_root_device_candidate_bound
    }

    pub fn root_device_ref(&self) -> (r: Option<usize>)
        ensures
            r == self.root_device_ref,
    {
        self.root_device_ref
    }

    pub fn root_device_devt(&self) -> (r: Option<usize>)
        ensures
            r == self.root_device_devt,
    {
        self.root_device_devt
    }

    pub fn ext2_driver_ready(&self) -> (r: bool)
        ensures
            r == self.ext2_driver_ready,
    {
        self.ext2_driver_ready
    }

    pub fn ext2_volume_ready(&self) -> (r: bool)
        ensures
            r == self.ext2_volume_ready,
    {
        self.ext2_volume_ready
    }

    pub fn ext2_filesystem_ready(&self) -> (r: bool)
        ensures
            r == self.ext2_filesystem_ready,
    {
        self.ext2_filesystem_ready
    }

    pub fn real_mount_point_created(&self) -> (r: bool)
        ensures
            r == self.real_mount_point_created,
    {
        self.real_mount_point_created
    }

    pub fn real_ext2_mount_created(&self) -> (r: bool)
        ensures
            r == self.real_ext2_mount_created,
    {
        self.real_ext2_mount_created
    }

    pub fn real_mount_point_ref(&self) -> (r: Option<usize>)
        ensures
            r == self.real_mount_point_ref,
    {
        self.real_mount_point_ref
    }

    pub fn real_mount_ref(&self) -> (r: Option<usize>)
        ensures
            r == self.real_mount_ref,
    {
        self.real_mount_ref
    }

    pub fn prepare_namespace_position_preserved(&self) -> (r: bool)
        ensures
            r == self.prepare_namespace_position_preserved,
    {
        self.prepare_namespace_position_preserved
    }

    pub fn ms_move_done(&self) -> (r: bool)
        ensures
            r == self.ms_move_done,
    {
        self.ms_move_done
    }

    pub fn chroot_dot_done(&self) -> (r: bool)
        ensures
            r == self.chroot_dot_done,
    {
        self.chroot_dot_done
    }

    pub fn current_root_is_real_ext2(&self) -> (r: bool)
        ensures
            r == self.current_root_is_real_ext2,
    {
        self.current_root_is_real_ext2
    }

}

pub struct IntegrityKeysDeferred {
    pub lifecycle: Lifecycle,
    pub setup_deferred: bool,
    pub load_keys_position_preserved: bool,
    pub config_integrity_enabled: bool,
    pub ima_load_x509_deferred: bool,
    pub ima_load_x509_trimmed_because_config_ima_disabled: bool,
    pub evm_load_x509_deferred: bool,
    pub evm_load_x509_trimmed_because_config_evm_disabled: bool,
}

impl IntegrityKeysDeferred {
    pub fn new() -> (s: Self)
        ensures
            s.lifecycle@ == State::Base,
            !s.setup_deferred,
            !s.load_keys_position_preserved,
            !s.config_integrity_enabled,
            !s.ima_load_x509_deferred,
            !s.ima_load_x509_trimmed_because_config_ima_disabled,
            !s.evm_load_x509_deferred,
            !s.evm_load_x509_trimmed_because_config_evm_disabled,
    {
        Self {
            lifecycle: Lifecycle::new(State::Base),
            setup_deferred: false,
            load_keys_position_preserved: false,
            config_integrity_enabled: false,
            ima_load_x509_deferred: false,
            ima_load_x509_trimmed_because_config_ima_disabled: false,
            evm_load_x509_deferred: false,
            evm_load_x509_trimmed_because_config_evm_disabled: false,
        }
    }

    pub fn state(&self) -> (r: State)
        ensures
            r == self.lifecycle@,
    {
        self.lifecycle.state()
    }

    pub fn setup_deferred(&self) -> (r: bool)
        ensures
            r == self.setup_deferred,
    {
        self.setup_deferred
    }

    pub fn load_keys_position_preserved(&self) -> (r: bool)
        ensures
            r == self.load_keys_position_preserved,
    {
        self.load_keys_position_preserved
    }

    pub fn config_integrity_enabled(&self) -> (r: bool)
        ensures
            r == self.config_integrity_enabled,
    {
        self.config_integrity_enabled
    }

    pub fn ima_load_x509_deferred(&self) -> (r: bool)
        ensures
            r == self.ima_load_x509_deferred,
    {
        self.ima_load_x509_deferred
    }

    pub fn ima_load_x509_trimmed_because_config_ima_disabled(&self) -> (r: bool)
        ensures
            r == self.ima_load_x509_trimmed_because_config_ima_disabled,
    {
        self.ima_load_x509_trimmed_because_config_ima_disabled
    }

    pub fn evm_load_x509_deferred(&self) -> (r: bool)
        ensures
            r == self.evm_load_x509_deferred,
    {
        self.evm_load_x509_deferred
    }

    pub fn evm_load_x509_trimmed_because_config_evm_disabled(&self) -> (r: bool)
        ensures
            r == self.evm_load_x509_trimmed_because_config_evm_disabled,
    {
        self.evm_load_x509_trimmed_because_config_evm_disabled
    }

    pub fn setup(&mut self, rootfs: &RootFS, config: &Config) -> (r: EventResult)
        ensures
            !(old(self).lifecycle@ != State::Base || rootfs.lifecycle@ != State::Online || !rootfs.prepare_namespace_inputs_ready || !rootfs.real_ext2_mount_created || !rootfs.ms_move_done || !config.integrity_enabled || config.ima_enabled || config.evm_enabled ) ==> {
                &&& r == Ok::<(), EventError>(())
                &&& final(self).lifecycle@ == State::Ready
                &&& *final(self) == (IntegrityKeysDeferred {
                    setup_deferred: true,
                    load_keys_position_preserved: true,
                    config_integrity_enabled: true,
                    ima_load_x509_deferred: true,
                    ima_load_x509_trimmed_because_config_ima_disabled: true,
                    evm_load_x509_deferred: true,
                    evm_load_x509_trimmed_because_config_evm_disabled: true,
                    lifecycle: final(self).lifecycle,
                    ..*old(self)
                })
            },
            old(self).lifecycle@ != State::Base || rootfs.lifecycle@ != State::Online || !rootfs.prepare_namespace_inputs_ready || !rootfs.real_ext2_mount_created || !rootfs.ms_move_done || !config.integrity_enabled || config.ima_enabled || config.evm_enabled  ==> {
                &&& r == Err::<(), EventError>(
                    condition_error(
                        LifecycleEvent::Setup,
                        old(self).lifecycle@,
                        State::Base,
                        State::Ready,
                    ),
                )
                &&& *final(self) == *old(self)
            },
    {
        if self.lifecycle.state() != State::Base || rootfs.state() != State::Online || !rootfs.prepare_namespace_inputs_ready() || !rootfs.real_ext2_mount_created() || !rootfs.ms_move_done() || !config.integrity_enabled || config.ima_enabled || config.evm_enabled  {
            return failed_condition(
                LifecycleEvent::Setup,
                self.lifecycle.state(),
                State::Base,
                State::Ready,
            );
        }
        self.setup_deferred = true;
        self.load_keys_position_preserved = true;
        self.config_integrity_enabled = true;
        self.ima_load_x509_deferred = true;
        self.ima_load_x509_trimmed_because_config_ima_disabled = true;
        self.evm_load_x509_deferred = true;
        self.evm_load_x509_trimmed_because_config_evm_disabled = true;
        self.lifecycle.transition(LifecycleEvent::Setup, State::Base, State::Ready)
    }
}

pub struct RootfsBoundary {
    pub lifecycle: Lifecycle,
    pub finalize_next_boundary: bool,
}

impl RootfsBoundary {
    pub fn new() -> (s: Self)
        ensures
            s.lifecycle@ == State::Base,
            !s.finalize_next_boundary,
    {
        Self {
            lifecycle: Lifecycle::new(State::Base),
            finalize_next_boundary: false,
        }
    }

    pub fn state(&self) -> (r: State)
        ensures
            r == self.lifecycle@,
    {
        self.lifecycle.state()
    }

    pub fn finalize_next_boundary(&self) -> (r: bool)
        ensures
            r == self.finalize_next_boundary,
    {
        self.finalize_next_boundary
    }

    pub fn setup(&mut self, kunit: &KUnitRuntimeTrimmed, initramfs_sync: &InitramfsSyncDeferred, rootfs_console: &RootfsConsoleDeferred, namespace_paths: &RootfsPrepareNamespacePaths, rootfs: &RootFS, integrity_keys: &IntegrityKeysDeferred) -> (r: EventResult)
        ensures
            !(old(self).lifecycle@ != State::Base || kunit.lifecycle@ != State::Ready || !kunit.trimmed_noop || initramfs_sync.lifecycle@ != State::Ready || !initramfs_sync.wait_deferred || rootfs_console.lifecycle@ != State::Ready || !rootfs_console.setup_deferred || namespace_paths.lifecycle@ != State::Ready || !namespace_paths.device_probe_wait_deferred || !namespace_paths.md_run_setup_deferred || !namespace_paths.initrd_load_trimmed || !namespace_paths.devtmpfs_mount_deferred || rootfs.lifecycle@ != State::Online || !rootfs.ramdisk_eaccess_requires_prepare_namespace || !rootfs.prepare_namespace_inputs_ready || !rootfs.initial_ramfs_still_active || !rootfs.devfs_available || !rootfs.block_root_device_candidate_bound || !rootfs.ext2_driver_ready || !rootfs.ext2_volume_ready || !rootfs.ext2_filesystem_ready || !rootfs.real_mount_point_created || !rootfs.real_ext2_mount_created || !rootfs.ms_move_done || !rootfs.chroot_dot_done || !rootfs.current_root_is_real_ext2 || integrity_keys.lifecycle@ != State::Ready || !integrity_keys.setup_deferred ) ==> {
                &&& r == Ok::<(), EventError>(())
                &&& final(self).lifecycle@ == State::Ready
                &&& *final(self) == (RootfsBoundary {
                    finalize_next_boundary: true,
                    lifecycle: final(self).lifecycle,
                    ..*old(self)
                })
            },
            old(self).lifecycle@ != State::Base || kunit.lifecycle@ != State::Ready || !kunit.trimmed_noop || initramfs_sync.lifecycle@ != State::Ready || !initramfs_sync.wait_deferred || rootfs_console.lifecycle@ != State::Ready || !rootfs_console.setup_deferred || namespace_paths.lifecycle@ != State::Ready || !namespace_paths.device_probe_wait_deferred || !namespace_paths.md_run_setup_deferred || !namespace_paths.initrd_load_trimmed || !namespace_paths.devtmpfs_mount_deferred || rootfs.lifecycle@ != State::Online || !rootfs.ramdisk_eaccess_requires_prepare_namespace || !rootfs.prepare_namespace_inputs_ready || !rootfs.initial_ramfs_still_active || !rootfs.devfs_available || !rootfs.block_root_device_candidate_bound || !rootfs.ext2_driver_ready || !rootfs.ext2_volume_ready || !rootfs.ext2_filesystem_ready || !rootfs.real_mount_point_created || !rootfs.real_ext2_mount_created || !rootfs.ms_move_done || !rootfs.chroot_dot_done || !rootfs.current_root_is_real_ext2 || integrity_keys.lifecycle@ != State::Ready || !integrity_keys.setup_deferred  ==> {
                &&& r == Err::<(), EventError>(
                    condition_error(
                        LifecycleEvent::Setup,
                        old(self).lifecycle@,
                        State::Base,
                        State::Ready,
                    ),
                )
                &&& *final(self) == *old(self)
            },
    {
        if self.lifecycle.state() != State::Base || kunit.state() != State::Ready || !kunit.trimmed_noop() || initramfs_sync.state() != State::Ready || !initramfs_sync.wait_deferred() || rootfs_console.state() != State::Ready || !rootfs_console.setup_deferred() || namespace_paths.state() != State::Ready || !namespace_paths.device_probe_wait_deferred() || !namespace_paths.md_run_setup_deferred() || !namespace_paths.initrd_load_trimmed() || !namespace_paths.devtmpfs_mount_deferred() || rootfs.state() != State::Online || !rootfs.ramdisk_eaccess_requires_prepare_namespace() || !rootfs.prepare_namespace_inputs_ready() || !rootfs.initial_ramfs_still_active() || !rootfs.devfs_available() || !rootfs.block_root_device_candidate_bound() || !rootfs.ext2_driver_ready() || !rootfs.ext2_volume_ready() || !rootfs.ext2_filesystem_ready() || !rootfs.real_mount_point_created() || !rootfs.real_ext2_mount_created() || !rootfs.ms_move_done() || !rootfs.chroot_dot_done() || !rootfs.current_root_is_real_ext2() || integrity_keys.state() != State::Ready || !integrity_keys.setup_deferred()  {
            return failed_condition(
                LifecycleEvent::Setup,
                self.lifecycle.state(),
                State::Base,
                State::Ready,
            );
        }
        self.finalize_next_boundary = true;
        self.lifecycle.transition(LifecycleEvent::Setup, State::Base, State::Ready)
    }
}

/// Every rootfs-phase object reached the state the phase leaves it in.
pub fn rootfs_phase_ready(
    kunit: &KUnitRuntimeTrimmed,
    initramfs_sync: &InitramfsSyncDeferred,
    rootfs_console: &RootfsConsoleDeferred,
    namespace_paths: &RootfsPrepareNamespacePaths,
    rootfs: &RootFS,
    integrity_keys: &IntegrityKeysDeferred,
    boundary: &RootfsBoundary,
) -> (r: bool)
    ensures
        r == (kunit.lifecycle@ == State::Ready
        && kunit.trimmed_noop
        && kunit.position_preserved
        && initramfs_sync.lifecycle@ == State::Ready
        && initramfs_sync.wait_deferred
        && initramfs_sync.async_cookie_boundary_preserved
        && rootfs_console.lifecycle@ == State::Ready
        && rootfs_console.setup_deferred
        && rootfs_console.pid1_console_fd_position_preserved
        && namespace_paths.lifecycle@ == State::Ready
        && namespace_paths.root_delay_trimmed
        && namespace_paths.device_probe_wait_deferred
        && namespace_paths.device_probe_waitqueue_deferred
        && namespace_paths.device_probe_atomic_counter_deferred
        && namespace_paths.deferred_probe_work_flush_deferred
        && namespace_paths.md_run_setup_deferred
        && namespace_paths.saved_root_name_parse_deferred
        && namespace_paths.root_device_parse_deferred
        && namespace_paths.initrd_load_trimmed
        && namespace_paths.root_wait_trimmed
        && namespace_paths.root_wait_polling_deferred
        && namespace_paths.mount_root_block_formal
        && namespace_paths.nfs_root_deferred
        && namespace_paths.cifs_root_trimmed
        && namespace_paths.nodev_root_deferred
        && namespace_paths.ext4_for_ext2_linux_config_recorded
        && namespace_paths.arceos_ext2_driver_substitutes_linux_ext4_for_ext2
        && namespace_paths.devtmpfs_mount_deferred
        && namespace_paths.devfs_not_remounted_after_root_switch
        && rootfs.lifecycle@ == State::Online
        && rootfs.ramdisk_eaccess_requires_prepare_namespace
        && rootfs.prepare_namespace_inputs_ready
        && rootfs.initial_ramfs_still_active
        && rootfs.devfs_available
        && rootfs.block_root_device_candidate_bound
        && rootfs.root_device_ref is Some
        && rootfs.root_device_devt is Some
        && rootfs.ext2_driver_ready
        && rootfs.ext2_volume_ready
        && rootfs.ext2_filesystem_ready
        && rootfs.real_mount_point_created
        && rootfs.real_ext2_mount_created
        && rootfs.real_mount_point_ref is Some
        && rootfs.real_mount_ref is Some
        && rootfs.prepare_namespace_position_preserved
        && rootfs.ms_move_done
        && rootfs.chroot_dot_done
        && rootfs.current_root_is_real_ext2
        && integrity_keys.lifecycle@ == State::Ready
        && integrity_keys.setup_deferred
        && integrity_keys.load_keys_position_preserved
        && integrity_keys.config_integrity_enabled
        && integrity_keys.ima_load_x509_deferred
        && integrity_keys.ima_load_x509_trimmed_because_config_ima_disabled
        && integrity_keys.evm_load_x509_deferred
        && integrity_keys.evm_load_x509_trimmed_because_config_evm_disabled
        && boundary.lifecycle@ == State::Ready
        && boundary.finalize_next_boundary),
{
    kunit.state() == State::Ready
        && kunit.trimmed_noop()
        && kunit.position_preserved()
        && initramfs_sync.state() == State::Ready
        && initramfs_sync.wait_deferred()
        && initramfs_sync.async_cookie_boundary_preserved()
        && rootfs_console.state() == State::Ready
        && rootfs_console.setup_deferred()
        && rootfs_console.pid1_console_fd_position_preserved()
        && namespace_paths.state() == State::Ready
        && namespace_paths.root_delay_trimmed()
        && namespace_paths.device_probe_wait_deferred()
        && namespace_paths.device_probe_waitqueue_deferred()
        && namespace_paths.device_probe_atomic_counter_deferred()
        && namespace_paths.deferred_probe_work_flush_deferred()
        && namespace_paths.md_run_setup_deferred()
        && namespace_paths.saved_root_name_parse_deferred()
        && namespace_paths.root_device_parse_deferred()
        && namespace_paths.initrd_load_trimmed()
        && namespace_paths.root_wait_trimmed()
        && namespace_paths.root_wait_polling_deferred()
        && namespace_paths.mount_root_block_formal()
        && namespace_paths.nfs_root_deferred()
        && namespace_paths.cifs_root_trimmed()
        && namespace_paths.nodev_root_deferred()
        && namespace_paths.ext4_for_ext2_linux_config_recorded()
        && namespace_paths.arceos_ext2_driver_substitutes_linux_ext4_for_ext2()
        && namespace_paths.devtmpfs_mount_deferred()
        && namespace_paths.devfs_not_remounted_after_root_switch()
        && rootfs.state() == State::Online
        && rootfs.ramdisk_eaccess_requires_prepare_namespace()
        && rootfs.prepare_namespace_inputs_ready()
        && rootfs.initial_ramfs_still_active()
        && rootfs.devfs_available()
        && rootfs.block_root_device_candidate_bound()
        && rootfs.root_device_ref().is_some()
        && rootfs.root_device_devt().is_some()
        && rootfs.ext2_driver_ready()
        && rootfs.ext2_volume_ready()
        && rootfs.ext2_filesystem_ready()
        && rootfs.real_mount_point_created()
        && rootfs.real_ext2_mount_created()
        && rootfs.real_mount_point_ref().is_some()
        && rootfs.real_mount_ref().is_some()
        && rootfs.prepare_namespace_position_preserved()
        && rootfs.ms_move_done()
        && rootfs.chroot_dot_done()
        && rootfs.current_root_is_real_ext2()
        && integrity_keys.state() == State::Ready
        && integrity_keys.setup_deferred()
        && integrity_keys.load_keys_position_preserved()
        && integrity_keys.config_integrity_enabled()
        && integrity_keys.ima_load_x509_deferred()
        && integrity_keys.ima_load_x509_trimmed_because_config_ima_disabled()
        && integrity_keys.evm_load_x509_deferred()
        && integrity_keys.evm_load_x509_trimmed_because_config_evm_disabled()
        && boundary.state() == State::Ready
        && boundary.finalize_next_boundary()
}

/// The initial root mount as `RootFS::enable` reads it: whether its file system is ramfs, and
/// its root dentry.
#[derive(Clone, Copy, PartialEq, Eq, Structural, Debug)]
pub struct RootMountView {
    pub is_ramfs: bool,
    pub root_dentry_ref: usize,
}

/// A block device entry or node: the device it names and its device number.
#[derive(Clone, Copy, PartialEq, Eq, Structural, Debug)]
pub struct BlockDeviceView {
    pub device_ref: Option<usize>,
    pub devt: Option<usize>,
}

/// What switching the root to the real file system reads of the objects it works with: the
/// states and flags of the command line, the init task, the VFS core, the task's file-system
/// context, devfs, the block registry and the ext2 driver, volume and file system; the
/// initial root mount (`None` where there is none); the task's root and working directories;
/// the default block device entry; and the devfs block node.
#[derive(Clone, Copy, PartialEq, Eq, Structural, Debug)]
pub struct RootfsEnableView {
    pub saved_command_line_state: State,
    pub kernel_init_task_state: State,
    pub kernel_init_task_pid: usize,
    pub vfs_core_state: State,
    pub rootfs_mount_created: bool,
    pub fs_struct_state: State,
    pub devfs_state: State,
    pub devfs_mounted: bool,
    pub devfs_block_node_listed: bool,
    pub block_registry_state: State,
    pub default_device_slot_ready: bool,
    pub ext2_driver_state: State,
    pub ext2_volume_state: State,
    pub ext2_filesystem_state: State,
    pub ext2_filesystem_ready: bool,
    pub root_mount: Option<RootMountView>,
    pub root_dentry: Option<usize>,
    pub pwd_dentry: Option<usize>,
    pub default_entry: Option<BlockDeviceView>,
    pub block_node: Option<BlockDeviceView>,
}

/// What the root switch works on once its checks pass: the current root dentry, and the
/// default block device with its device number.
#[derive(Clone, Copy, PartialEq, Eq, Structural, Debug)]
pub struct RootfsEnablePlan {
    pub root_dentry_ref: usize,
    pub device_ref: usize,
    pub devt: usize,
}

/// What the caller's file-system work for the root switch gave: the mount point under the
/// root (found or created; `None` where neither worked), the ext2 mount on it (`None` where
/// mounting failed), and whether moving that mount to the root, changing into it, and
/// making it the root left the real ext2 file system as the current root.
#[derive(Clone, Copy, PartialEq, Eq, Structural, Debug)]
pub struct RootfsMountOutcome {
    pub mount_point_ref: Option<usize>,
    pub mount_ref: Option<usize>,
    pub root_switched: bool,
}

impl RootFS {
    /// The states and flags the root switch needs.
    pub open spec fn enable_guard(
        &self,
        console: &RootfsConsoleDeferred,
        paths: &RootfsPrepareNamespacePaths,
        v: &RootfsEnableView,
    ) -> bool {
        &&& self.lifecycle@ == State::Ready
        &&& console.lifecycle@ == State::Ready
        &&& console.setup_deferred
        &&& paths.lifecycle@ == State::Ready
        &&& paths.mount_root_block_formal
        &&& paths.ext4_for_ext2_linux_config_recorded
        &&& paths.arceos_ext2_driver_substitutes_linux_ext4_for_ext2
        &&& paths.devfs_not_remounted_after_root_switch
        &&& v.saved_command_line_state == State::Ready
        &&& v.kernel_init_task_state == State::Online
        &&& v.kernel_init_task_pid == KERNEL_INIT_PID
        &&& v.vfs_core_state == State::Ready
        &&& v.rootfs_mount_created
        &&& v.fs_struct_state == State::Ready
        &&& v.devfs_state == State::Ready
        &&& v.devfs_mounted
        &&& v.devfs_block_node_listed
        &&& v.block_registry_state == State::Ready
        &&& v.default_device_slot_ready
        &&& v.ext2_driver_state == State::Ready
        &&& v.ext2_volume_state == State::Ready
        &&& v.ext2_filesystem_state == State::Ready
        &&& v.ext2_filesystem_ready
    }

    /// The plan of the root switch, where the guard holds and the view is consistent: the
    /// initial root mount is ramfs, the task's root is that mount's root and its working
    /// directory is the root, and the devfs block node names the default block device and
    /// its device number.
    pub open spec fn enable_plan_spec(
        &self,
        console: &RootfsConsoleDeferred,
        paths: &RootfsPrepareNamespacePaths,
        v: &RootfsEnableView,
    ) -> Option<RootfsEnablePlan> {
        if !self.enable_guard(console, paths, v) {
            None
        } else {
            match (v.root_mount, v.root_dentry, v.default_entry, v.block_node) {
                (Some(m), Some(root), Some(entry), Some(node)) => {
                    if m.is_ramfs && root == m.root_dentry_ref && v.pwd_dentry == Some(root)
                        && entry.device_ref is Some && entry.devt is Some && node.device_ref
                        == entry.device_ref && node.devt == entry.devt {
                        Some(
                            RootfsEnablePlan {
                                root_dentry_ref: root,
                                device_ref: entry.device_ref->0,
                                devt: entry.devt->0,
                            },
                        )
                    } else {
                        None
                    }
                },
                _ => None,
            }
        }
    }

    /// The checks of the root switch, before any file-system work: the guard, the ramfs
    /// root mount and root dentry, and the default block device. Refused with the enable
    /// condition error; otherwise the plan to work on.
    pub fn enable_plan(
        &self,
        console: &RootfsConsoleDeferred,
        paths: &RootfsPrepareNamespacePaths,
        v: &RootfsEnableView,
    ) -> (r: Result<RootfsEnablePlan, EventError>)
        ensures
            self.enable_plan_spec(console, paths, v) matches Some(p) ==> r == Ok::<
                RootfsEnablePlan,
                EventError,
            >(p),
            self.enable_plan_spec(console, paths, v) is None ==> r == Err::<
                RootfsEnablePlan,
                EventError,
            >(condition_error(LifecycleEvent::Enable, self.lifecycle@, State::Ready, State::Online)),
    {
        if self.lifecycle.state() != State::Ready || console.lifecycle.state() != State::Ready
            || !console.setup_deferred || paths.lifecycle.state() != State::Ready
            || !paths.mount_root_block_formal || !paths.ext4_for_ext2_linux_config_recorded
            || !paths.arceos_ext2_driver_substitutes_linux_ext4_for_ext2
            || !paths.devfs_not_remounted_after_root_switch || v.saved_command_line_state
            != State::Ready || v.kernel_init_task_state != State::Online
            || v.kernel_init_task_pid != KERNEL_INIT_PID || v.vfs_core_state != State::Ready
            || !v.rootfs_mount_created || v.fs_struct_state != State::Ready || v.devfs_state
            != State::Ready || !v.devfs_mounted || !v.devfs_block_node_listed
            || v.block_registry_state != State::Ready || !v.default_device_slot_ready
            || v.ext2_driver_state != State::Ready || v.ext2_volume_state != State::Ready
            || v.ext2_filesystem_state != State::Ready || !v.ext2_filesystem_ready {
            return self.failed_enable();
        }
        let root_mount = match v.root_mount {
            Some(m) => m,
            None => return self.failed_enable(),
        };
        if !root_mount.is_ramfs {
            return self.failed_enable();
        }
        let root = match v.root_dentry {
            Some(d) => d,
            None => return self.failed_enable(),
        };
        let pwd_is_root = match v.pwd_dentry {
            Some(d) => d == root,
            None => false,
        };
        if root != root_mount.root_dentry_ref || !pwd_is_root {
            return self.failed_enable();
        }
        let entry = match v.default_entry {
            Some(e) => e,
            None => return self.failed_enable(),
        };
        let node = match v.block_node {
            Some(n) => n,
            None => return self.failed_enable(),
        };
        let device_ref = match entry.device_ref {
            Some(d) => d,
            None => return self.failed_enable(),
        };
        let devt = match entry.devt {
            Some(d) => d,
            None => return self.failed_enable(),
        };
        let node_device_matches = match node.device_ref {
            Some(d) => d == device_ref,
            None => false,
        };
        let node_devt_matches = match node.devt {
            Some(d) => d == devt,
            None => false,
        };
        if !node_device_matches || !node_devt_matches {
            return self.failed_enable();
        }
        Ok(RootfsEnablePlan { root_dentry_ref: root, device_ref, devt })
    }

    fn failed_enable<T>(&self) -> (r: Result<T, EventError>)
        ensures
            r == Err::<T, EventError>(
                condition_error(LifecycleEvent::Enable, self.lifecycle@, State::Ready, State::Online),
            ),
    {
        Err(
            EventError::failed(
                EventErrorCode::ConditionFailed,
                LifecycleEvent::Enable,
                self.lifecycle.state(),
                State::Ready,
                State::Online,
            ),
        )
    }

    /// Switches the root to the real ext2 file system with the caller's file-system work
    /// (`outcome`) done on `plan`: where a mount point, the ext2 mount and the root switch
    /// all came through, records them and the root device and goes online; otherwise refused
    /// with the enable condition error and nothing changed.
    pub fn enable(&mut self, plan: RootfsEnablePlan, outcome: RootfsMountOutcome) -> (r: EventResult)
        ensures
            old(self).lifecycle@ != State::Ready || outcome.mount_point_ref is None
                || outcome.mount_ref is None || !outcome.root_switched ==> r == Err::<
                (),
                EventError,
            >(condition_error(LifecycleEvent::Enable, old(self).lifecycle@, State::Ready, State::Online))
                && *final(self) == *old(self),
            old(self).lifecycle@ == State::Ready && outcome.mount_point_ref is Some
                && outcome.mount_ref is Some && outcome.root_switched ==> r == Ok::<(), EventError>(())
                && final(self).lifecycle@ == State::Online && *final(self) == (RootFS {
                lifecycle: final(self).lifecycle,
                ramdisk_eaccess_requires_prepare_namespace: true,
                prepare_namespace_inputs_ready: true,
                initial_ramfs_still_active: true,
                devfs_available: true,
                block_root_device_candidate_bound: true,
                root_device_ref: Some(plan.device_ref),
                root_device_devt: Some(plan.devt),
                ext2_driver_ready: true,
                ext2_volume_ready: true,
                ext2_filesystem_ready: true,
                real_mount_point_created: true,
                real_ext2_mount_created: true,
                real_mount_point_ref: outcome.mount_point_ref,
                real_mount_ref: outcome.mount_ref,
                prepare_namespace_position_preserved: true,
                ms_move_done: true,
                chroot_dot_done: true,
                current_root_is_real_ext2: true,
            }),
    {
        if self.lifecycle.state() != State::Ready || outcome.mount_point_ref.is_none()
            || outcome.mount_ref.is_none() || !outcome.root_switched {
            return failed_condition(
                LifecycleEvent::Enable,
                self.lifecycle.state(),
                State::Ready,
                State::Online,
            );
        }
        self.ramdisk_eaccess_requires_prepare_namespace = true;
        self.prepare_namespace_inputs_ready = true;
        self.initial_ramfs_still_active = true;
        self.devfs_available = true;
        self.block_root_device_candidate_bound = true;
        self.root_device_ref = Some(plan.device_ref);
        self.root_device_devt = Some(plan.devt);
        self.ext2_driver_ready = true;
        self.ext2_volume_ready = true;
        self.ext2_filesystem_ready = true;
        self.real_mount_point_created = true;
        self.real_ext2_mount_created = true;
        self.real_mount_point_ref = outcome.mount_point_ref;
        self.real_mount_ref = outcome.mount_ref;
        self.prepare_namespace_position_preserved = true;
        self.ms_move_done = true;
        self.chroot_dot_done = true;
        self.current_root_is_real_ext2 = true;
        self.lifecycle.transition(LifecycleEvent::Enable, State::Ready, State::Online)
    }
}

} // verus!
