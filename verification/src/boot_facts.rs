//! What the kernel objects read from the boot configuration and from the subsystems that set
//! up before them: each type here holds, as plain values, the facts that some object's
//! lifecycle events consult.
use vstd::prelude::*;
use crate::state::State;
use crate::raw_dtb::PhysRange;

verus! {

/// The memory zones, in fallback order from the most constrained.
#[derive(Clone, Copy, PartialEq, Eq, Structural, Debug)]
pub enum ZoneKind {
    Dma32,
    Normal,
    Movable,
}

/// One memory zone: the physical range it spans and how many of its bytes are present.
#[derive(Clone, Copy, PartialEq, Eq, Structural, Debug)]
pub struct Zone {
    pub kind: ZoneKind,
    pub range: PhysRange,
    pub present_bytes: usize,
}

impl Zone {
    pub fn kind(&self) -> (r: ZoneKind)
        ensures
            r == self.kind,
    {
        self.kind
    }

    pub fn range(&self) -> (r: PhysRange)
        ensures
            r == self.range,
    {
        self.range
    }

    pub fn present_bytes(&self) -> (r: usize)
        ensures
            r == self.present_bytes,
    {
        self.present_bytes
    }

    /// A zone with no present memory.
    pub fn is_empty(&self) -> (r: bool)
        ensures
            r == (self.present_bytes == 0),
    {
        self.present_bytes == 0
    }
}

/// The zone layout of the machine.
pub struct Zones {
    pub state: State,
    pub dma32: Option<Zone>,
    pub normal: Option<Zone>,
    pub movable: Option<Zone>,
}

impl Zones {
    pub open spec fn spec_zone(&self, kind: ZoneKind) -> Option<Zone> {
        match kind {
            ZoneKind::Dma32 => self.dma32,
            ZoneKind::Normal => self.normal,
            ZoneKind::Movable => self.movable,
        }
    }

    pub fn zone(&self, kind: ZoneKind) -> (r: Option<Zone>)
        ensures
            r == self.spec_zone(kind),
    {
        match kind {
            ZoneKind::Dma32 => self.dma32,
            ZoneKind::Normal => self.normal,
            ZoneKind::Movable => self.movable,
        }
    }
}

/// The kernel configuration that the objects consult.
pub struct Config {
    pub state: State,
    pub page_size: usize,
    pub linear_map_virt_start: usize,
    pub x86_arch: bool,
    pub shadow_call_stack_enabled: bool,
    pub lockdep_enabled: bool,
    pub kgdb_enabled: bool,
    pub net_ns_enabled: bool,
    pub proc_fs_enabled: bool,
    pub pid_ns_enabled: bool,
    pub cpusets_enabled: bool,
    pub cgroups_enabled: bool,
    pub taskstats_enabled: bool,
    pub task_delay_acct_enabled: bool,
    pub acpi_enabled: bool,
    pub kcsan_enabled: bool,
    pub kunit_enabled: bool,
    pub blk_dev_initrd_enabled: bool,
    pub cifs_root_enabled: bool,
    pub devtmpfs_enabled: bool,
    pub devtmpfs_mount_enabled: bool,
    pub md_enabled: bool,
    pub root_nfs_enabled: bool,
    pub ext2_fs_enabled: bool,
    pub ext4_use_for_ext2_enabled: bool,
    pub integrity_enabled: bool,
    pub ima_enabled: bool,
    pub evm_enabled: bool,
}

impl Config {
    /// The linear-map address of a physical address, where it does not overflow.
    pub open spec fn spec_phys_to_linear(&self, phys: usize) -> Option<usize> {
        phys.checked_add(self.linear_map_virt_start)
    }

    pub fn phys_to_linear(&self, phys: usize) -> (r: Option<usize>)
        ensures
            r == self.spec_phys_to_linear(phys),
    {
        phys.checked_add(self.linear_map_virt_start)
    }
}

/// What the CPU group publishes about the CPUs.
pub struct CpuGroup {
    pub state: State,
    pub possible_cpu_count: usize,
    pub boot_cpu_state: State,
    pub pre_smp_topology_ready: bool,
    pub secondary_cpus_online: bool,
    pub secondary_cpus_present_not_online: bool,
    pub smp_concurrency_open: bool,
}

/// What the workqueue subsystem publishes.
pub struct Workqueue {
    pub state: State,
    pub system_queues_ready: bool,
    pub topology_ready: bool,
    pub workers_running: bool,
    pub worker_creation_open: bool,
    pub pod_types_ready: bool,
    pub max_active_topology_ready: bool,
    pub unbound_pools_rebound: bool,
    pub topology_pool_mutex_guard_used: bool,
    pub topology_struct_mutex_guard_used: bool,
}

/// What the virtual-memory bring-up publishes.
pub struct Vm {
    pub state: State,
    pub entry_successor_ready: bool,
}

/// The map from logical CPU ids to hart ids.
pub struct CpuIdMap {
    pub state: State,
    pub hartids: Vec<usize>,
}

impl CpuIdMap {
    pub fn count(&self) -> (r: usize)
        ensures
            r == self.hartids@.len(),
    {
        self.hartids.len()
    }

    /// The hart id of a logical CPU.
    pub fn entry(&self, logical_id: usize) -> (r: Option<usize>)
        ensures
            r == (if logical_id < self.hartids@.len() {
                Some(self.hartids@[logical_id as int])
            } else {
                None
            }),
    {
        if logical_id < self.hartids.len() {
            Some(self.hartids[logical_id])
        } else {
            None
        }
    }
}

/// The per-CPU sections as the linker laid them out.
#[derive(Clone, Copy, PartialEq, Eq, Structural, Debug)]
pub struct PerCpuSections {
    pub layout_ready: bool,
    pub start: usize,
    pub end: usize,
    pub load: usize,
}

/// What the CPU capability probe publishes.
pub struct CpuCapabilities {
    pub state: State,
    pub vector_supported: bool,
}

} // verus!
