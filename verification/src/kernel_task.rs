//! Bounded, explicitly placed kernel tasks and the CPU-local inbound inbox.
//!
//! A creating CPU owns a task slot until the slot is published; after that the
//! target CPU is the only owner of the task, and remote activation and wake paths
//! reach it only through the per-CPU inbox kept here. The inbox is modelled as
//! plain state: each slot moves Empty -> Reserved -> Published -> Empty, and the
//! ordinals claimed on one inbox only grow.
use vstd::prelude::*;
use crate::state::{EventError, EventErrorCode, LifecycleEvent, State};

verus! {

/// Number of kernel task slots.
pub const KERNEL_TASK_SLOT_COUNT: usize = 8;

/// Words in the stack of each kernel task.
pub const KERNEL_TASK_STACK_WORDS: usize = 4096;

/// The pid of the kernel task in slot 0; slot `i` gets `KERNEL_TASK_PID_BASE + i`.
pub const KERNEL_TASK_PID_BASE: usize = 2000;

/// The generation that every kernel task slot is created with.
pub const KERNEL_TASK_GENERATION: u32 = 1;

/// A generation-qualified reference to a task.
#[derive(Clone, Copy, PartialEq, Eq, Structural, Debug)]
pub enum TaskRef {
    /// The first user process (pid 1), with its stable generation.
    KernelInit { generation: u32 },
    /// A dynamic user task in a user slot.
    User { slot: usize, generation: u32 },
    /// A kernel task in a kernel slot.
    Kernel { slot: usize, generation: u32 },
}

impl TaskRef {
    pub open spec fn spec_generation(self) -> u32 {
        match self {
            TaskRef::KernelInit { generation } => generation,
            TaskRef::User { generation, .. } => generation,
            TaskRef::Kernel { generation, .. } => generation,
        }
    }

    pub fn generation(&self) -> (r: u32)
        ensures
            r == self.spec_generation(),
    {
        match self {
            TaskRef::KernelInit { generation } => *generation,
            TaskRef::User { generation, .. } => *generation,
            TaskRef::Kernel { generation, .. } => *generation,
        }
    }

    pub fn kernel(slot: usize, generation: u32) -> (r: TaskRef)
        ensures
            r == (TaskRef::Kernel { slot, generation }),
    {
        TaskRef::Kernel { slot, generation }
    }

    pub fn user(slot: usize, generation: u32) -> (r: TaskRef)
        ensures
            r == (TaskRef::User { slot, generation }),
    {
        TaskRef::User { slot, generation }
    }

    pub fn is_user(&self) -> (r: bool)
        ensures
            r == (*self is User),
    {
        match self {
            TaskRef::User { .. } => true,
            _ => false,
        }
    }

    pub fn user_slot(&self) -> (r: Option<usize>)
        ensures
            r == (match *self {
                TaskRef::User { slot, .. } => Some(slot),
                _ => None,
            }),
    {
        match self {
            TaskRef::User { slot, .. } => Some(*slot),
            _ => None,
        }
    }

    pub fn kernel_slot(&self) -> (r: Option<usize>)
        ensures
            r == (match *self {
                TaskRef::Kernel { slot, .. } => Some(slot),
                _ => None,
            }),
    {
        match self {
            TaskRef::Kernel { slot, .. } => Some(*slot),
            _ => None,
        }
    }

    /// Two references name the same task in the same generation.
    pub fn same_identity(&self, other: TaskRef) -> (r: bool)
        ensures
            r == (*self == other),
    {
        *self == other
    }
}

/// A CPU named by its logical id; `usize::MAX` names no CPU.
#[derive(Clone, Copy, PartialEq, Eq, Structural, Debug)]
pub struct CpuRef {
    pub logical_id: usize,
}

impl CpuRef {
    pub fn new(logical_id: usize) -> (r: CpuRef)
        ensures
            r.logical_id == logical_id,
    {
        CpuRef { logical_id }
    }

    pub fn invalid() -> (r: CpuRef)
        ensures
            r.logical_id == usize::MAX,
    {
        CpuRef { logical_id: usize::MAX }
    }

    pub fn is_valid(&self) -> (r: bool)
        ensures
            r == (self.logical_id != usize::MAX),
    {
        self.logical_id != usize::MAX
    }

    pub fn is_boot_cpu(&self) -> (r: bool)
        ensures
            r == (self.logical_id == 0),
    {
        self.logical_id == 0
    }

    pub fn logical_id(&self) -> (r: usize)
        ensures
            r == self.logical_id,
    {
        self.logical_id
    }
}

/// What an inbound message asks of its task.
#[derive(Clone, Copy, PartialEq, Eq, Structural, Debug)]
pub enum InboundKind {
    Activate,
    Wake,
}

/// The code under which a kind is stored in an inbox slot.
pub open spec fn kind_code(kind: InboundKind) -> usize {
    match kind {
        InboundKind::Activate => 1,
        InboundKind::Wake => 2,
    }
}

/// The kind that a stored code names, if any.
pub open spec fn kind_from_code(code: usize) -> Option<InboundKind> {
    if code == 1 {
        Some(InboundKind::Activate)
    } else if code == 2 {
        Some(InboundKind::Wake)
    } else {
        None
    }
}

pub fn encode_kind(kind: InboundKind) -> (r: usize)
    ensures
        r == kind_code(kind),
        kind_from_code(r) == Some(kind),
{
    match kind {
        InboundKind::Activate => 1,
        InboundKind::Wake => 2,
    }
}

pub fn decode_kind(code: usize) -> (r: Option<InboundKind>)
    ensures
        r == kind_from_code(code),
{
    if code == 1 {
        Some(InboundKind::Activate)
    } else if code == 2 {
        Some(InboundKind::Wake)
    } else {
        None
    }
}

/// A message taken out of an inbox.
#[derive(Clone, Copy, PartialEq, Eq, Structural, Debug)]
pub struct InboundMessage {
    pub task_ref: TaskRef,
    pub target_cpu: CpuRef,
    pub kind: InboundKind,
    pub ordinal: u64,
}

/// Where an inbox slot stands.
#[derive(Clone, Copy, PartialEq, Eq, Structural, Debug)]
pub enum InboxSlotState {
    Empty,
    Reserved,
    Published,
}

/// One per-task slot of one CPU's inbox.
#[derive(Clone, Copy, PartialEq, Eq, Structural, Debug)]
pub struct InboundSlot {
    pub state: InboxSlotState,
    pub task_generation: u32,
    pub target_cpu: usize,
    pub kind: usize,
    pub ordinal: u64,
}

impl InboundSlot {
    pub fn new() -> (r: InboundSlot)
        ensures
            r == InboundSlot::spec_empty(),
    {
        InboundSlot {
            state: InboxSlotState::Empty,
            task_generation: 0,
            target_cpu: usize::MAX,
            kind: 0,
            ordinal: 0,
        }
    }

    pub open spec fn spec_empty() -> InboundSlot {
        InboundSlot {
            state: InboxSlotState::Empty,
            task_generation: 0,
            target_cpu: usize::MAX,
            kind: 0,
            ordinal: 0,
        }
    }
}

/// A kernel task slot: the task reference it holds, where it runs, and whether it
/// has been published to its target CPU.
#[derive(Clone, Copy, PartialEq, Eq, Structural, Debug)]
pub struct KernelTaskRecord {
    pub published: bool,
    pub task_ref: TaskRef,
    pub target_cpu: CpuRef,
    pub pid: usize,
}

/// Why a kernel-task or inbox operation was refused.
#[derive(Clone, Copy, PartialEq, Eq, Structural, Debug)]
pub enum KernelTaskError {
    Target,
    SlotsExhausted,
    Preset,
    Setup,
    InboxTargetOrOrdinal,
    InboxTaskRefOrGeneration,
    InboxTaskSlot,
    InboxTaskPending,
    InboxOrdinal,
    ReservationCpu,
    ReservationSlot,
    ReservationStale,
}

/// What the user-process registry answers for one task reference and target CPU:
/// whether the pair is a valid inbound target now, and whether it may be reserved.
#[derive(Clone, Copy, PartialEq, Eq, Structural, Debug)]
pub struct RegistryTarget {
    pub task_ref: TaskRef,
    pub target_cpu: CpuRef,
    pub valid: bool,
    pub reservable: bool,
}

/// The user-process registry's answers, one entry per pair it knows of; a pair
/// that is not listed is neither valid nor reservable.
pub struct UserRegistryView {
    pub targets: Vec<RegistryTarget>,
}

impl UserRegistryView {
    pub open spec fn spec_valid(&self, task_ref: TaskRef, target_cpu: CpuRef) -> bool {
        exists|i: int|
            0 <= i < self.targets@.len() && #[trigger] self.targets@[i].task_ref == task_ref
                && self.targets@[i].target_cpu == target_cpu && self.targets@[i].valid
    }

    pub open spec fn spec_reservable(&self, task_ref: TaskRef, target_cpu: CpuRef) -> bool {
        exists|i: int|
            0 <= i < self.targets@.len() && #[trigger] self.targets@[i].task_ref == task_ref
                && self.targets@[i].target_cpu == target_cpu && self.targets@[i].reservable
    }

    pub fn inbound_target_valid(&self, task_ref: TaskRef, target_cpu: CpuRef) -> (r: bool)
        ensures
            r == self.spec_valid(task_ref, target_cpu),
    {
        let mut i: usize = 0;
        while i < self.targets.len()
            invariant
                i <= self.targets@.len(),
                forall|j: int|
                    0 <= j < i ==> !(#[trigger] self.targets@[j].task_ref == task_ref
                        && self.targets@[j].target_cpu == target_cpu && self.targets@[j].valid),
            decreases self.targets@.len() - i,
        {
            let t = self.targets[i];
            if t.task_ref == task_ref && t.target_cpu == target_cpu && t.valid {
                return true;
            }
            i += 1;
        }
        false
    }

    pub fn inbound_target_reservable(&self, task_ref: TaskRef, target_cpu: CpuRef) -> (r: bool)
        ensures
            r == self.spec_reservable(task_ref, target_cpu),
    {
        let mut i: usize = 0;
        while i < self.targets.len()
            invariant
                i <= self.targets@.len(),
                forall|j: int|
                    0 <= j < i ==> !(#[trigger] self.targets@[j].task_ref == task_ref
                        && self.targets@[j].target_cpu == target_cpu
                        && self.targets@[j].reservable),
            decreases self.targets@.len() - i,
        {
            let t = self.targets[i];
            if t.task_ref == task_ref && t.target_cpu == target_cpu && t.reservable {
                return true;
            }
            i += 1;
        }
        false
    }
}

/// The kernel task table and every CPU's inbox. The inboxes are laid out one after
/// another in `slots`: CPU `c` owns positions `c * slots_per_inbox()` onwards.
pub struct KernelTasks {
    pub records: Vec<KernelTaskRecord>,
    pub slots: Vec<InboundSlot>,
    pub last_claimed_ordinal: Vec<u64>,
    pub max_consumed_ordinal: Vec<u64>,
    pub need_resched: Vec<bool>,
    pub ipi_sent: Vec<u64>,
    pub ipi_received: Vec<u64>,
    pub consumed: Vec<u64>,
    pub nonidentity_switches: Vec<u64>,
    pub identity_schedules: Vec<u64>,
    pub idle_restores: Vec<u64>,
    pub cpu_count: usize,
    pub user_slot_count: usize,
    pub init_generation: u32,
    pub next_auto_ordinal: u64,
}

/// The initial record of kernel task slot `slot`.
pub open spec fn initial_record(slot: int) -> KernelTaskRecord {
    KernelTaskRecord {
        published: false,
        task_ref: TaskRef::Kernel { slot: slot as usize, generation: KERNEL_TASK_GENERATION },
        target_cpu: CpuRef { logical_id: usize::MAX },
        pid: 0,
    }
}

impl KernelTasks {
    /// Slots in one CPU's inbox: one per user slot, one per kernel slot, one for pid 1.
    pub open spec fn spec_slots_per_inbox(&self) -> int {
        self.user_slot_count + KERNEL_TASK_SLOT_COUNT + 1
    }

    /// The inbox index of pid 1.
    pub open spec fn spec_init_index(&self) -> int {
        self.user_slot_count + KERNEL_TASK_SLOT_COUNT
    }

    /// Position in `slots` of inbox index `index` of CPU `cpu`.
    pub open spec fn pos(&self, cpu: int, index: int) -> int {
        cpu * self.spec_slots_per_inbox() + index
    }

    pub open spec fn wf(&self) -> bool {
        &&& self.records@.len() == KERNEL_TASK_SLOT_COUNT
        &&& forall|i: int|
            0 <= i < KERNEL_TASK_SLOT_COUNT ==> (#[trigger] self.records@[i]).task_ref == (
            TaskRef::Kernel { slot: i as usize, generation: KERNEL_TASK_GENERATION })
        &&& self.user_slot_count + KERNEL_TASK_SLOT_COUNT + 1 <= usize::MAX
        &&& self.cpu_count * self.spec_slots_per_inbox() <= usize::MAX
        &&& self.slots@.len() == self.cpu_count * self.spec_slots_per_inbox()
        &&& self.last_claimed_ordinal@.len() == self.cpu_count
        &&& self.max_consumed_ordinal@.len() == self.cpu_count
        &&& self.need_resched@.len() == self.cpu_count
        &&& self.ipi_sent@.len() == self.cpu_count
        &&& self.ipi_received@.len() == self.cpu_count
        &&& self.consumed@.len() == self.cpu_count
        &&& self.nonidentity_switches@.len() == self.cpu_count
        &&& self.identity_schedules@.len() == self.cpu_count
        &&& self.idle_restores@.len() == self.cpu_count
    }

    /// Slot `index` of CPU `cpu`'s inbox.
    pub open spec fn slot(&self, cpu: int, index: int) -> InboundSlot {
        self.slots@[self.pos(cpu, index)]
    }
}

/// Positions of two inbox slots are in range and distinct exactly when their
/// (CPU, index) pairs are.
pub proof fn lemma_pos_bounds(spi: int, count: int, cpu: int, index: int)
    requires
        spi > 0,
        0 <= cpu < count,
        0 <= index < spi,
    ensures
        0 <= cpu * spi + index < count * spi,
        cpu * spi <= cpu * spi + index,
        (cpu + 1) * spi <= count * spi,
{
    assert(0 <= cpu * spi) by (nonlinear_arith)
        requires
            0 <= cpu,
            spi > 0,
    ;
    assert((cpu + 1) * spi <= count * spi) by (nonlinear_arith)
        requires
            cpu + 1 <= count,
            spi > 0,
    ;
    assert((cpu + 1) * spi == cpu * spi + spi) by (nonlinear_arith);
}

/// Builds a vector of `n` copies of `v`.
fn filled_u64(n: usize, v: u64) -> (r: Vec<u64>)
    ensures
        r@.len() == n,
        forall|i: int| 0 <= i < n ==> r@[i] == v,
{
    let mut r: Vec<u64> = Vec::new();
    while r.len() < n
        invariant
            r@.len() <= n,
            forall|i: int| 0 <= i < r@.len() ==> r@[i] == v,
        decreases n - r@.len(),
    {
        r.push(v);
    }
    r
}

impl KernelTasks {
    /// An empty table for `cpu_count` CPUs and `user_slot_count` user task slots,
    /// where pid 1 carries generation `init_generation`.
    pub fn new(cpu_count: usize, user_slot_count: usize, init_generation: u32) -> (r: KernelTasks)
        requires
            user_slot_count + KERNEL_TASK_SLOT_COUNT + 1 <= usize::MAX,
            cpu_count * (user_slot_count + KERNEL_TASK_SLOT_COUNT + 1) <= usize::MAX,
        ensures
            r.wf(),
            r.cpu_count == cpu_count,
            r.user_slot_count == user_slot_count,
            r.init_generation == init_generation,
            r.next_auto_ordinal == 1,
            forall|i: int| 0 <= i < KERNEL_TASK_SLOT_COUNT ==> #[trigger] r.records@[i] == initial_record(i),
            forall|i: int| 0 <= i < r.slots@.len() ==> r.slots@[i] == InboundSlot::spec_empty(),
            forall|c: int|
                0 <= c < cpu_count ==> r.last_claimed_ordinal@[c] == 0
                    && r.max_consumed_ordinal@[c] == 0 && !r.need_resched@[c]
                    && r.ipi_sent@[c] == 0 && r.ipi_received@[c] == 0 && r.consumed@[c] == 0
                    && r.nonidentity_switches@[c] == 0 && r.identity_schedules@[c] == 0
                    && r.idle_restores@[c] == 0,
    {
        let mut records: Vec<KernelTaskRecord> = Vec::new();
        let mut slot: usize = 0;
        while slot < KERNEL_TASK_SLOT_COUNT
            invariant
                slot <= KERNEL_TASK_SLOT_COUNT,
                records@.len() == slot,
                forall|i: int| 0 <= i < slot ==> #[trigger] records@[i] == initial_record(i),
            decreases KERNEL_TASK_SLOT_COUNT - slot,
        {
            records.push(
                KernelTaskRecord {
                    published: false,
                    task_ref: TaskRef::Kernel { slot, generation: KERNEL_TASK_GENERATION },
                    target_cpu: CpuRef::invalid(),
                    pid: 0,
                },
            );
            slot += 1;
        }
        let total = cpu_count * (user_slot_count + KERNEL_TASK_SLOT_COUNT + 1);
        let mut slots: Vec<InboundSlot> = Vec::new();
        while slots.len() < total
            invariant
                slots@.len() <= total,
                forall|i: int| 0 <= i < slots@.len() ==> slots@[i] == InboundSlot::spec_empty(),
            decreases total - slots@.len(),
        {
            slots.push(InboundSlot::new());
        }
        let mut need_resched: Vec<bool> = Vec::new();
        while need_resched.len() < cpu_count
            invariant
                need_resched@.len() <= cpu_count,
                forall|i: int| 0 <= i < need_resched@.len() ==> !need_resched@[i],
            decreases cpu_count - need_resched@.len(),
        {
            need_resched.push(false);
        }
        let r = KernelTasks {
            records,
            slots,
            last_claimed_ordinal: filled_u64(cpu_count, 0),
            max_consumed_ordinal: filled_u64(cpu_count, 0),
            need_resched,
            ipi_sent: filled_u64(cpu_count, 0),
            ipi_received: filled_u64(cpu_count, 0),
            consumed: filled_u64(cpu_count, 0),
            nonidentity_switches: filled_u64(cpu_count, 0),
            identity_schedules: filled_u64(cpu_count, 0),
            idle_restores: filled_u64(cpu_count, 0),
            cpu_count,
            user_slot_count,
            init_generation,
            next_auto_ordinal: 1,
        };
        r
    }

    pub fn slots_per_inbox(&self) -> (r: usize)
        requires
            self.wf(),
        ensures
            r == self.spec_slots_per_inbox(),
    {
        self.user_slot_count + KERNEL_TASK_SLOT_COUNT + 1
    }

    /// The inbox index of a task: pid 1 has the last one, user slots come first, and
    /// kernel slots follow them.
    pub open spec fn spec_inbox_index(&self, task_ref: TaskRef) -> Option<int> {
        match task_ref {
            TaskRef::KernelInit { .. } => Some(self.spec_init_index()),
            TaskRef::User { slot, .. } => if slot < self.user_slot_count {
                Some(slot as int)
            } else {
                None
            },
            TaskRef::Kernel { slot, .. } => if slot < KERNEL_TASK_SLOT_COUNT {
                Some(self.user_slot_count + slot)
            } else {
                None
            },
        }
    }

    /// Pid 1 is recognised by its generation; other tasks keep the stored one.
    pub open spec fn spec_task_ref_from_inbox_index(&self, index: int, generation: u32) -> Option<
        TaskRef,
    > {
        if index == self.spec_init_index() {
            if generation == self.init_generation {
                Some(TaskRef::KernelInit { generation })
            } else {
                None
            }
        } else if 0 <= index < self.user_slot_count {
            Some(TaskRef::User { slot: index as usize, generation })
        } else if self.user_slot_count <= index < self.user_slot_count + KERNEL_TASK_SLOT_COUNT {
            Some(TaskRef::Kernel { slot: (index - self.user_slot_count) as usize, generation })
        } else {
            None
        }
    }

    pub fn inbox_index(&self, task_ref: TaskRef) -> (r: Option<usize>)
        requires
            self.wf(),
        ensures
            r matches Some(i) ==> self.spec_inbox_index(task_ref) == Some(i as int),
            r is None ==> self.spec_inbox_index(task_ref) is None,
    {
        match task_ref {
            TaskRef::KernelInit { .. } => Some(self.user_slot_count + KERNEL_TASK_SLOT_COUNT),
            TaskRef::User { slot, .. } => if slot < self.user_slot_count {
                Some(slot)
            } else {
                None
            },
            TaskRef::Kernel { slot, .. } => if slot < KERNEL_TASK_SLOT_COUNT {
                Some(self.user_slot_count + slot)
            } else {
                None
            },
        }
    }

    pub fn task_ref_from_inbox_index(&self, index: usize, generation: u32) -> (r: Option<TaskRef>)
        requires
            self.wf(),
        ensures
            r == self.spec_task_ref_from_inbox_index(index as int, generation),
    {
        if index == self.user_slot_count + KERNEL_TASK_SLOT_COUNT {
            if generation == self.init_generation {
                Some(TaskRef::KernelInit { generation })
            } else {
                None
            }
        } else if index < self.user_slot_count {
            Some(TaskRef::User { slot: index, generation })
        } else if index < self.user_slot_count + KERNEL_TASK_SLOT_COUNT {
            Some(TaskRef::Kernel { slot: index - self.user_slot_count, generation })
        } else {
            None
        }
    }

    /// A kernel task is a valid target once its slot is published with that reference
    /// and that CPU; pid 1 and user tasks are what the registry says.
    pub open spec fn spec_published_target(
        &self,
        task_ref: TaskRef,
        target_cpu: CpuRef,
        registry: &UserRegistryView,
    ) -> bool {
        match task_ref {
            TaskRef::Kernel { slot, .. } => {
                &&& slot < KERNEL_TASK_SLOT_COUNT
                &&& self.records@[slot as int].published
                &&& self.records@[slot as int].task_ref == task_ref
                &&& self.records@[slot as int].target_cpu == target_cpu
            },
            _ => registry.spec_valid(task_ref, target_cpu),
        }
    }

    /// A reservation may also go to a user task that the registry marks reservable.
    pub open spec fn spec_reservable_target(
        &self,
        task_ref: TaskRef,
        target_cpu: CpuRef,
        registry: &UserRegistryView,
    ) -> bool {
        match task_ref {
            TaskRef::User { .. } => registry.spec_valid(task_ref, target_cpu)
                || registry.spec_reservable(task_ref, target_cpu),
            _ => self.spec_published_target(task_ref, target_cpu, registry),
        }
    }

    pub fn validate_published_target(
        &self,
        task_ref: TaskRef,
        target_cpu: CpuRef,
        registry: &UserRegistryView,
    ) -> (r: bool)
        requires
            self.wf(),
        ensures
            r == self.spec_published_target(task_ref, target_cpu, registry),
    {
        match task_ref {
            TaskRef::Kernel { slot, .. } => {
                if slot >= KERNEL_TASK_SLOT_COUNT || !self.records[slot].published {
                    return false;
                }
                let record = self.records[slot];
                record.task_ref == task_ref && record.target_cpu == target_cpu
            },
            _ => registry.inbound_target_valid(task_ref, target_cpu),
        }
    }

    pub fn validate_reservable_target(
        &self,
        task_ref: TaskRef,
        target_cpu: CpuRef,
        registry: &UserRegistryView,
    ) -> (r: bool)
        requires
            self.wf(),
        ensures
            r == self.spec_reservable_target(task_ref, target_cpu, registry),
    {
        if task_ref.is_user() {
            return registry.inbound_target_valid(task_ref, target_cpu)
                || registry.inbound_target_reservable(task_ref, target_cpu);
        }
        self.validate_published_target(task_ref, target_cpu, registry)
    }

    /// The first kernel task slot that is not published yet.
    pub open spec fn spec_first_free_slot(&self) -> Option<int> {
        if exists|i: int| 0 <= i < KERNEL_TASK_SLOT_COUNT && !(#[trigger] self.records@[i]).published {
            Some(
                choose|i: int|
                    0 <= i < KERNEL_TASK_SLOT_COUNT && !(#[trigger] self.records@[i]).published
                        && forall|j: int| 0 <= j < i ==> self.records@[j].published,
            )
        } else {
            None
        }
    }

    pub fn first_free_slot(&self) -> (r: Option<usize>)
        requires
            self.wf(),
        ensures
            r matches Some(s) ==> s < KERNEL_TASK_SLOT_COUNT && !self.records@[s as int].published
                && forall|j: int| 0 <= j < s ==> self.records@[j].published,
            r is None ==> forall|j: int| 0 <= j < KERNEL_TASK_SLOT_COUNT ==> self.records@[j].published,
            r matches Some(s) ==> self.spec_first_free_slot() == Some(s as int),
            r is None ==> self.spec_first_free_slot() is None,
    {
        let mut slot: usize = 0;
        while slot < KERNEL_TASK_SLOT_COUNT
            invariant
                self.wf(),
                slot <= KERNEL_TASK_SLOT_COUNT,
                forall|j: int| 0 <= j < slot ==> self.records@[j].published,
            decreases KERNEL_TASK_SLOT_COUNT - slot,
        {
            if !self.records[slot].published {
                proof {
                    let c = choose|i: int|
                        0 <= i < KERNEL_TASK_SLOT_COUNT && !(#[trigger] self.records@[i]).published
                            && forall|j: int| 0 <= j < i ==> self.records@[j].published;
                    assert(0 <= c < KERNEL_TASK_SLOT_COUNT && !self.records@[c].published
                        && forall|j: int| 0 <= j < c ==> self.records@[j].published);
                    if c < slot {
                        assert(self.records@[c].published);
                    }
                    if c > slot {
                        assert(self.records@[slot as int].published);
                    }
                }
                return Some(slot);
            }
            slot += 1;
        }
        None
    }
}

/// What running a kernel task's preset and setup steps reported, for the task in the
/// slot that `first_free_slot` names: the identity metadata, preset adoption and flow
/// declaration (`preset_ok`); the switch context, setup adoption, flow CPU binding and
/// flow publication (`setup_ok`).
#[derive(Clone, Copy, PartialEq, Eq, Structural, Debug)]
pub struct TaskSetupOutcome {
    pub preset_ok: bool,
    pub setup_ok: bool,
}

/// A reserved (or coalesced) inbox entry, to be published or rolled back.
#[derive(Clone, Copy, PartialEq, Eq, Structural, Debug)]
pub struct InboxReservation {
    pub logical_id: usize,
    pub index: usize,
    pub task_ref: TaskRef,
    pub target_cpu: CpuRef,
    pub kind: InboundKind,
    pub ordinal: u64,
    pub coalesced: bool,
}

impl KernelTasks {
    /// The kernel task table and the inbox geometry agree.
    pub open spec fn same_table(&self, other: &Self) -> bool {
        &&& self.records@ == other.records@
        &&& self.cpu_count == other.cpu_count
        &&& self.user_slot_count == other.user_slot_count
        &&& self.init_generation == other.init_generation
    }

    /// The counters kept beside the inbox slots agree.
    pub open spec fn same_counters(&self, other: &Self) -> bool {
        &&& self.max_consumed_ordinal@ == other.max_consumed_ordinal@
        &&& self.need_resched@ == other.need_resched@
        &&& self.ipi_sent@ == other.ipi_sent@
        &&& self.ipi_received@ == other.ipi_received@
        &&& self.consumed@ == other.consumed@
        &&& self.nonidentity_switches@ == other.nonidentity_switches@
        &&& self.identity_schedules@ == other.identity_schedules@
        &&& self.idle_restores@ == other.idle_restores@
        &&& self.next_auto_ordinal == other.next_auto_ordinal
    }

    /// Nothing at all changed.
    pub open spec fn unchanged(&self, other: &Self) -> bool {
        &&& self.same_table(other)
        &&& self.same_counters(other)
        &&& self.slots@ == other.slots@
        &&& self.last_claimed_ordinal@ == other.last_claimed_ordinal@
    }

    /// The record that publishing slot `slot` for `target_cpu` leaves behind.
    pub open spec fn published_record(&self, slot: int, target_cpu: CpuRef) -> KernelTaskRecord {
        KernelTaskRecord {
            published: true,
            task_ref: self.records@[slot].task_ref,
            target_cpu,
            pid: (KERNEL_TASK_PID_BASE + slot) as usize,
        }
    }

    /// Creates a kernel task placed on `target_cpu`, in the first free slot, and
    /// publishes it to that CPU.
    pub fn create(&mut self, target_cpu: CpuRef, outcome: TaskSetupOutcome) -> (r: Result<
        TaskRef,
        KernelTaskError,
    >)
        requires
            old(self).wf(),
        ensures
            final(self).wf(),
            target_cpu.logical_id == usize::MAX || target_cpu.logical_id == 0 ==> r == Err::<
                TaskRef,
                KernelTaskError,
            >(KernelTaskError::Target),
            target_cpu.logical_id != usize::MAX && target_cpu.logical_id != 0 && old(self).spec_first_free_slot()
                is None ==> r == Err::<TaskRef, KernelTaskError>(KernelTaskError::SlotsExhausted),
            target_cpu.logical_id != usize::MAX && target_cpu.logical_id != 0 && old(self).spec_first_free_slot()
                is Some && !outcome.preset_ok ==> r == Err::<TaskRef, KernelTaskError>(
                KernelTaskError::Preset,
            ),
            target_cpu.logical_id != usize::MAX && target_cpu.logical_id != 0 && old(self).spec_first_free_slot()
                is Some && outcome.preset_ok && !outcome.setup_ok ==> r == Err::<
                TaskRef,
                KernelTaskError,
            >(KernelTaskError::Setup),
            r is Err ==> final(self).unchanged(old(self)),
            target_cpu.logical_id != usize::MAX && target_cpu.logical_id != 0 && old(self).spec_first_free_slot()
                is Some && outcome.preset_ok && outcome.setup_ok ==> r is Ok,
            r matches Ok(t) ==> {
                let s = old(self).spec_first_free_slot()->0;
                &&& t == (TaskRef::Kernel { slot: s as usize, generation: KERNEL_TASK_GENERATION })
                &&& final(self).records@ == old(self).records@.update(
                    s,
                    old(self).published_record(s, target_cpu),
                )
                &&& final(self).same_counters(old(self))
                &&& final(self).slots@ == old(self).slots@
                &&& final(self).last_claimed_ordinal@ == old(self).last_claimed_ordinal@
                &&& final(self).cpu_count == old(self).cpu_count
                &&& final(self).user_slot_count == old(self).user_slot_count
                &&& final(self).init_generation == old(self).init_generation
            },
    {
        if !target_cpu.is_valid() || target_cpu.is_boot_cpu() {
            return Err(KernelTaskError::Target);
        }
        let slot = match self.first_free_slot() {
            Some(s) => s,
            None => {
                return Err(KernelTaskError::SlotsExhausted);
            },
        };
        let task_ref = TaskRef::kernel(slot, KERNEL_TASK_GENERATION);
        let record = self.records[slot];
        if !record.task_ref.same_identity(task_ref) || !outcome.preset_ok {
            return Err(KernelTaskError::Preset);
        }
        if !outcome.setup_ok {
            return Err(KernelTaskError::Setup);
        }
        let published = KernelTaskRecord {
            published: true,
            task_ref: record.task_ref,
            target_cpu,
            pid: KERNEL_TASK_PID_BASE + slot,
        };
        self.records.set(slot, published);
        Ok(task_ref)
    }

    /// Claims `ordinal` on CPU `cpu`'s inbox: it must exceed every ordinal claimed there
    /// before, and becomes the last claimed one.
    pub fn claim_ordinal(&mut self, cpu: usize, ordinal: u64) -> (r: bool)
        requires
            old(self).wf(),
            cpu < old(self).cpu_count,
        ensures
            final(self).wf(),
            r == (ordinal > old(self).last_claimed_ordinal@[cpu as int]),
            r ==> final(self).last_claimed_ordinal@ == old(self).last_claimed_ordinal@.update(
                cpu as int,
                ordinal,
            ),
            !r ==> final(self).last_claimed_ordinal@ == old(self).last_claimed_ordinal@,
            final(self).same_table(old(self)),
            final(self).same_counters(old(self)),
            final(self).slots@ == old(self).slots@,
    {
        if ordinal <= self.last_claimed_ordinal[cpu] {
            return false;
        }
        self.last_claimed_ordinal.set(cpu, ordinal);
        true
    }

    /// A published slot of the same generation and CPU absorbs a second notification.
    pub open spec fn spec_coalesces(&self, cpu: int, index: int, task_ref: TaskRef) -> bool {
        let s = self.slot(cpu, index);
        &&& s.state == InboxSlotState::Published
        &&& s.task_generation == task_ref.spec_generation()
        &&& s.target_cpu == cpu
    }

    /// The error, if any, with which a reservation is refused.
    pub open spec fn reserve_error(
        &self,
        task_ref: TaskRef,
        target_cpu: CpuRef,
        ordinal: u64,
        registry: &UserRegistryView,
    ) -> Option<KernelTaskError> {
        let cpu = target_cpu.logical_id as int;
        if cpu >= self.cpu_count || ordinal == 0 {
            Some(KernelTaskError::InboxTargetOrOrdinal)
        } else if !self.spec_reservable_target(task_ref, target_cpu, registry) {
            Some(KernelTaskError::InboxTaskRefOrGeneration)
        } else {
            match self.spec_inbox_index(task_ref) {
                None => Some(KernelTaskError::InboxTaskSlot),
                Some(index) => if self.spec_coalesces(cpu, index, task_ref) {
                    if ordinal <= self.last_claimed_ordinal@[cpu] {
                        Some(KernelTaskError::InboxOrdinal)
                    } else {
                        None
                    }
                } else if self.slot(cpu, index).state != InboxSlotState::Empty {
                    Some(KernelTaskError::InboxTaskPending)
                } else if ordinal <= self.last_claimed_ordinal@[cpu] {
                    Some(KernelTaskError::InboxOrdinal)
                } else {
                    None
                },
            }
        }
    }

    /// The slot that a fresh reservation writes.
    pub open spec fn reserved_slot(task_ref: TaskRef, cpu: int, kind: InboundKind, ordinal: u64) -> InboundSlot {
        InboundSlot {
            state: InboxSlotState::Reserved,
            task_generation: task_ref.spec_generation(),
            target_cpu: cpu as usize,
            kind: kind_code(kind),
            ordinal,
        }
    }

    /// Reserves the task's slot in the target CPU's inbox for one notification, or
    /// coalesces it into the notification already published there. Either way the
    /// ordinal is claimed on that inbox, and it must exceed every ordinal claimed before.
    #[verifier::rlimit(40)]
    pub fn reserve_inbound(
        &mut self,
        task_ref: TaskRef,
        target_cpu: CpuRef,
        kind: InboundKind,
        ordinal: u64,
        registry: &UserRegistryView,
    ) -> (r: Result<InboxReservation, KernelTaskError>)
        requires
            old(self).wf(),
        ensures
            final(self).wf(),
            final(self).same_table(old(self)),
            final(self).same_counters(old(self)),
            r matches Err(e) ==> old(self).reserve_error(task_ref, target_cpu, ordinal, registry)
                == Some(e) && final(self).unchanged(old(self)),
            r is Ok <==> old(self).reserve_error(task_ref, target_cpu, ordinal, registry) is None,
            r matches Ok(res) ==> {
                let cpu = target_cpu.logical_id as int;
                let index = old(self).spec_inbox_index(task_ref)->0;
                &&& res.logical_id == cpu
                &&& res.index == index
                &&& res.task_ref == task_ref
                &&& res.target_cpu == target_cpu
                &&& res.kind == kind
                &&& res.ordinal == ordinal
                &&& res.coalesced == old(self).spec_coalesces(cpu, index, task_ref)
                &&& final(self).last_claimed_ordinal@ == old(self).last_claimed_ordinal@.update(
                    cpu,
                    ordinal,
                )
                &&& res.coalesced ==> final(self).slots@ == old(self).slots@
                &&& !res.coalesced ==> final(self).slots@ == old(self).slots@.update(
                    old(self).pos(cpu, index),
                    KernelTasks::reserved_slot(task_ref, cpu, kind, ordinal),
                )
            },
    {
        let logical_id = target_cpu.logical_id();
        if logical_id >= self.cpu_count || ordinal == 0 {
            return Err(KernelTaskError::InboxTargetOrOrdinal);
        }
        if !self.validate_reservable_target(task_ref, target_cpu, registry) {
            return Err(KernelTaskError::InboxTaskRefOrGeneration);
        }
        let index = match self.inbox_index(task_ref) {
            Some(i) => i,
            None => {
                return Err(KernelTaskError::InboxTaskSlot);
            },
        };
        let spi = self.slots_per_inbox();
        proof {
            lemma_pos_bounds(spi as int, self.cpu_count as int, logical_id as int, index as int);
        }
        let pos = logical_id * spi + index;
        let slot = self.slots[pos];
        if slot.state == InboxSlotState::Published && slot.task_generation == task_ref.generation()
            && slot.target_cpu == logical_id {
            if !self.claim_ordinal(logical_id, ordinal) {
                return Err(KernelTaskError::InboxOrdinal);
            }
            return Ok(
                InboxReservation {
                    logical_id,
                    index,
                    task_ref,
                    target_cpu,
                    kind,
                    ordinal,
                    coalesced: true,
                },
            );
        }
        if slot.state != InboxSlotState::Empty {
            return Err(KernelTaskError::InboxTaskPending);
        }
        if !self.claim_ordinal(logical_id, ordinal) {
            return Err(KernelTaskError::InboxOrdinal);
        }
        let reserved = InboundSlot {
            state: InboxSlotState::Reserved,
            task_generation: task_ref.generation(),
            target_cpu: logical_id,
            kind: encode_kind(kind),
            ordinal,
        };
        self.slots.set(pos, reserved);
        Ok(
            InboxReservation {
                logical_id,
                index,
                task_ref,
                target_cpu,
                kind,
                ordinal,
                coalesced: false,
            },
        )
    }
}

impl KernelTasks {
    /// Whether a reservation still matches the slot it reserved.
    pub open spec fn reservation_matches(&self, res: InboxReservation) -> bool {
        let s = self.slot(res.logical_id as int, res.index as int);
        &&& s.task_generation == res.task_ref.spec_generation()
        &&& s.target_cpu == res.target_cpu.logical_id
        &&& s.ordinal == res.ordinal
        &&& s.kind == kind_code(res.kind)
        &&& s.state == InboxSlotState::Reserved
    }

    /// Publishes a reserved slot. `Ok(true)` when the slot became published, `Ok(false)`
    /// when the reservation had coalesced into an already published notification.
    pub fn publish_reserved(&mut self, reservation: InboxReservation) -> (r: Result<
        bool,
        KernelTaskError,
    >)
        requires
            old(self).wf(),
        ensures
            final(self).wf(),
            final(self).same_table(old(self)),
            final(self).same_counters(old(self)),
            final(self).last_claimed_ordinal@ == old(self).last_claimed_ordinal@,
            reservation.coalesced ==> r == Ok::<bool, KernelTaskError>(false)
                && final(self).slots@ == old(self).slots@,
            !reservation.coalesced && reservation.logical_id >= old(self).cpu_count ==> r == Err::<
                bool,
                KernelTaskError,
            >(KernelTaskError::ReservationCpu),
            !reservation.coalesced && reservation.logical_id < old(self).cpu_count
                && reservation.index >= old(self).spec_slots_per_inbox() ==> r == Err::<
                bool,
                KernelTaskError,
            >(KernelTaskError::ReservationSlot),
            !reservation.coalesced && reservation.logical_id < old(self).cpu_count
                && reservation.index < old(self).spec_slots_per_inbox()
                && !old(self).reservation_matches(reservation) ==> r == Err::<
                bool,
                KernelTaskError,
            >(KernelTaskError::ReservationStale),
            r is Err ==> final(self).slots@ == old(self).slots@,
            !reservation.coalesced && reservation.logical_id < old(self).cpu_count
                && reservation.index < old(self).spec_slots_per_inbox()
                && old(self).reservation_matches(reservation) ==> r == Ok::<bool, KernelTaskError>(
                true,
            ) && final(self).slots@ == old(self).slots@.update(
                old(self).pos(reservation.logical_id as int, reservation.index as int),
                InboundSlot {
                    state: InboxSlotState::Published,
                    ..old(self).slot(reservation.logical_id as int, reservation.index as int)
                },
            ),
    {
        if reservation.coalesced {
            return Ok(false);
        }
        if reservation.logical_id >= self.cpu_count {
            return Err(KernelTaskError::ReservationCpu);
        }
        let spi = self.slots_per_inbox();
        if reservation.index >= spi {
            return Err(KernelTaskError::ReservationSlot);
        }
        proof {
            lemma_pos_bounds(
                spi as int,
                self.cpu_count as int,
                reservation.logical_id as int,
                reservation.index as int,
            );
        }
        let pos = reservation.logical_id * spi + reservation.index;
        let slot = self.slots[pos];
        if slot.task_generation != reservation.task_ref.generation() || slot.target_cpu
            != reservation.target_cpu.logical_id() || slot.ordinal != reservation.ordinal
            || slot.kind != encode_kind(reservation.kind) || slot.state != InboxSlotState::Reserved {
            return Err(KernelTaskError::ReservationStale);
        }
        self.slots.set(pos, InboundSlot { state: InboxSlotState::Published, ..slot });
        Ok(true)
    }

    /// Gives a reserved slot back. A coalesced reservation holds no slot and rolls back
    /// trivially; otherwise the slot must still be reserved.
    pub fn rollback_reserved(&mut self, reservation: InboxReservation) -> (r: bool)
        requires
            old(self).wf(),
        ensures
            final(self).wf(),
            final(self).same_table(old(self)),
            final(self).same_counters(old(self)),
            final(self).last_claimed_ordinal@ == old(self).last_claimed_ordinal@,
            reservation.coalesced ==> r && final(self).slots@ == old(self).slots@,
            !reservation.coalesced ==> r == (reservation.logical_id < old(self).cpu_count
                && reservation.index < old(self).spec_slots_per_inbox() && old(self).slot(
                reservation.logical_id as int,
                reservation.index as int,
            ).state == InboxSlotState::Reserved),
            !reservation.coalesced && r ==> final(self).slots@ == old(self).slots@.update(
                old(self).pos(reservation.logical_id as int, reservation.index as int),
                InboundSlot {
                    state: InboxSlotState::Empty,
                    ..old(self).slot(reservation.logical_id as int, reservation.index as int)
                },
            ),
            !r ==> final(self).slots@ == old(self).slots@,
    {
        if reservation.coalesced {
            return true;
        }
        if reservation.logical_id >= self.cpu_count {
            return false;
        }
        let spi = self.slots_per_inbox();
        if reservation.index >= spi {
            return false;
        }
        proof {
            lemma_pos_bounds(
                spi as int,
                self.cpu_count as int,
                reservation.logical_id as int,
                reservation.index as int,
            );
        }
        let pos = reservation.logical_id * spi + reservation.index;
        let slot = self.slots[pos];
        if slot.state != InboxSlotState::Reserved {
            return false;
        }
        self.slots.set(pos, InboundSlot { state: InboxSlotState::Empty, ..slot });
        true
    }

    /// Reserves and publishes one notification; `Ok(true)` when a new notification was
    /// published (the target CPU is then owed an IPI), `Ok(false)` when it coalesced.
    pub fn publish_and_ipi(
        &mut self,
        task_ref: TaskRef,
        target_cpu: CpuRef,
        kind: InboundKind,
        ordinal: u64,
        registry: &UserRegistryView,
    ) -> (r: Result<bool, KernelTaskError>)
        requires
            old(self).wf(),
        ensures
            final(self).wf(),
            final(self).same_table(old(self)),
            final(self).same_counters(old(self)),
            r matches Err(e) ==> old(self).reserve_error(task_ref, target_cpu, ordinal, registry)
                == Some(e) && final(self).unchanged(old(self)),
            r is Ok <==> old(self).reserve_error(task_ref, target_cpu, ordinal, registry) is None,
            r matches Ok(fresh) ==> {
                let cpu = target_cpu.logical_id as int;
                let index = old(self).spec_inbox_index(task_ref)->0;
                &&& fresh == !old(self).spec_coalesces(cpu, index, task_ref)
                &&& final(self).last_claimed_ordinal@ == old(self).last_claimed_ordinal@.update(
                    cpu,
                    ordinal,
                )
                &&& !fresh ==> final(self).slots@ == old(self).slots@
                &&& fresh ==> final(self).slots@ == old(self).slots@.update(
                    old(self).pos(cpu, index),
                    InboundSlot {
                        state: InboxSlotState::Published,
                        ..KernelTasks::reserved_slot(task_ref, cpu, kind, ordinal)
                    },
                )
            },
    {
        let reservation = match self.reserve_inbound(task_ref, target_cpu, kind, ordinal, registry) {
            Ok(res) => res,
            Err(e) => {
                return Err(e);
            },
        };
        proof {
            lemma_pos_bounds(
                self.spec_slots_per_inbox(),
                self.cpu_count as int,
                reservation.logical_id as int,
                reservation.index as int,
            );
        }
        let r = self.publish_reserved(reservation);
        match r {
            Ok(b) => Ok(b),
            Err(e) => Err(e),
        }
    }

    /// Reserves and publishes one notification, telling nobody.
    pub fn publish(
        &mut self,
        task_ref: TaskRef,
        target_cpu: CpuRef,
        kind: InboundKind,
        ordinal: u64,
        registry: &UserRegistryView,
    ) -> (r: Result<(), KernelTaskError>)
        requires
            old(self).wf(),
        ensures
            final(self).wf(),
            final(self).same_table(old(self)),
            final(self).same_counters(old(self)),
            r matches Err(e) ==> old(self).reserve_error(task_ref, target_cpu, ordinal, registry)
                == Some(e) && final(self).unchanged(old(self)),
            r is Ok <==> old(self).reserve_error(task_ref, target_cpu, ordinal, registry) is None,
    {
        match self.publish_and_ipi(task_ref, target_cpu, kind, ordinal, registry) {
            Ok(_) => Ok(()),
            Err(e) => Err(e),
        }
    }

    /// Publishes a reservation made on behalf of `producer_cpu`; `Ok(true)` when the
    /// target CPU is another CPU and was handed a new notification, so that an IPI to it
    /// is owed (the caller sends it and then calls `mark_ipi_sent`).
    pub fn publish_reserved_and_signal_from(
        &mut self,
        reservation: InboxReservation,
        producer_cpu: CpuRef,
    ) -> (r: Result<bool, KernelTaskError>)
        requires
            old(self).wf(),
        ensures
            final(self).wf(),
            final(self).same_table(old(self)),
            final(self).same_counters(old(self)),
            final(self).last_claimed_ordinal@ == old(self).last_claimed_ordinal@,
            reservation.coalesced ==> r == Ok::<bool, KernelTaskError>(false),
            !reservation.coalesced && reservation.logical_id < old(self).cpu_count
                && reservation.index < old(self).spec_slots_per_inbox()
                && old(self).reservation_matches(reservation) ==> r == Ok::<bool, KernelTaskError>(
                reservation.logical_id != producer_cpu.logical_id,
            ),
            !reservation.coalesced && !(reservation.logical_id < old(self).cpu_count
                && reservation.index < old(self).spec_slots_per_inbox()
                && old(self).reservation_matches(reservation)) ==> r is Err
                && final(self).slots@ == old(self).slots@,
    {
        let logical_id = reservation.logical_id;
        let newly_published = match self.publish_reserved(reservation) {
            Ok(b) => b,
            Err(e) => {
                return Err(e);
            },
        };
        Ok(newly_published && logical_id != producer_cpu.logical_id())
    }

    /// Publishes a reservation made on the boot CPU.
    pub fn publish_reserved_and_signal(&mut self, reservation: InboxReservation) -> (r: Result<
        bool,
        KernelTaskError,
    >)
        requires
            old(self).wf(),
        ensures
            final(self).wf(),
            final(self).same_table(old(self)),
            final(self).same_counters(old(self)),
            reservation.coalesced ==> r == Ok::<bool, KernelTaskError>(false),
            !reservation.coalesced && reservation.logical_id < old(self).cpu_count
                && reservation.index < old(self).spec_slots_per_inbox()
                && old(self).reservation_matches(reservation) ==> r == Ok::<bool, KernelTaskError>(
                reservation.logical_id != 0,
            ),
    {
        self.publish_reserved_and_signal_from(reservation, CpuRef::new(0))
    }

    /// Hands out the next automatic ordinal, skipping 0 when the counter wraps.
    pub fn next_inbound_ordinal(&mut self) -> (r: u64)
        requires
            old(self).wf(),
        ensures
            final(self).wf(),
            r != 0,
            r == (if old(self).next_auto_ordinal == 0 { 1 } else { old(self).next_auto_ordinal }),
            final(self).next_auto_ordinal == (r as int + 1) % 0x1_0000_0000_0000_0000,
            final(self).same_table(old(self)),
            final(self).slots@ == old(self).slots@,
            final(self).last_claimed_ordinal@ == old(self).last_claimed_ordinal@,
    {
        let mut ordinal = self.next_auto_ordinal;
        self.next_auto_ordinal = self.next_auto_ordinal.wrapping_add(1);
        if ordinal == 0 {
            ordinal = self.next_auto_ordinal;
            self.next_auto_ordinal = self.next_auto_ordinal.wrapping_add(1);
        }
        ordinal
    }
}

impl KernelTasks {
    /// Slot `i` of CPU `cpu` is the one a take picks: published, with an ordinal below
    /// `u64::MAX`, no published slot has a smaller ordinal, and none before it has the
    /// same one.
    pub open spec fn is_selected(&self, cpu: int, i: int) -> bool {
        &&& 0 <= i < self.spec_slots_per_inbox()
        &&& self.slot(cpu, i).state == InboxSlotState::Published
        &&& self.slot(cpu, i).ordinal < u64::MAX
        &&& forall|j: int|
            0 <= j < self.spec_slots_per_inbox() && #[trigger] self.slot(cpu, j).state
                == InboxSlotState::Published ==> self.slot(cpu, i).ordinal <= self.slot(
                cpu,
                j,
            ).ordinal
        &&& forall|j: int|
            0 <= j < i && #[trigger] self.slot(cpu, j).state == InboxSlotState::Published
                ==> self.slot(cpu, j).ordinal != self.slot(cpu, i).ordinal
    }

    /// The slot a take on CPU `cpu` picks, if any.
    pub open spec fn selected_index(&self, cpu: int) -> Option<int> {
        if exists|i: int| self.is_selected(cpu, i) {
            Some(choose|i: int| self.is_selected(cpu, i))
        } else {
            None
        }
    }

    /// A take picks the oldest published message: the selected slot is published and its
    /// ordinal is no larger than that of any other published slot, and where several share
    /// that ordinal it is the one at the lowest index. Whenever some slot is published with
    /// an ordinal below `u64::MAX`, some slot is selected.
    pub proof fn lemma_selected_is_oldest(&self, cpu: int, i: int, j: int)
        requires
            0 <= j < self.spec_slots_per_inbox(),
            self.slot(cpu, j).state == InboxSlotState::Published,
        ensures
            self.is_selected(cpu, i) ==> self.slot(cpu, i).state == InboxSlotState::Published
                && self.slot(cpu, i).ordinal <= self.slot(cpu, j).ordinal && (self.slot(
                cpu,
                j,
            ).ordinal == self.slot(cpu, i).ordinal ==> i <= j),
            self.slot(cpu, j).ordinal < u64::MAX ==> self.selected_index(cpu) is Some,
    {
        if self.slot(cpu, j).ordinal < u64::MAX {
            self.lemma_oldest_exists(cpu, j, self.spec_slots_per_inbox());
        }
    }

    /// Among the published slots below `n` with ordinal below `u64::MAX`, one is selected
    /// when `j` is such a slot and `n` covers every slot.
    proof fn lemma_oldest_exists(&self, cpu: int, j: int, n: int)
        requires
            n == self.spec_slots_per_inbox(),
            0 <= j < n,
            self.slot(cpu, j).state == InboxSlotState::Published,
            self.slot(cpu, j).ordinal < u64::MAX,
        ensures
            exists|i: int| self.is_selected(cpu, i),
        decreases self.slot(cpu, j).ordinal, j,
    {
        if exists|k: int|
            0 <= k < n && self.slot(cpu, k).state == InboxSlotState::Published && (self.slot(
                cpu,
                k,
            ).ordinal < self.slot(cpu, j).ordinal || (self.slot(cpu, k).ordinal == self.slot(
                cpu,
                j,
            ).ordinal && k < j)) {
            let k = choose|k: int|
                0 <= k < n && self.slot(cpu, k).state == InboxSlotState::Published && (self.slot(
                    cpu,
                    k,
                ).ordinal < self.slot(cpu, j).ordinal || (self.slot(cpu, k).ordinal
                    == self.slot(cpu, j).ordinal && k < j));
            self.lemma_oldest_exists(cpu, k, n);
        } else {
            assert(self.is_selected(cpu, j));
        }
    }

    /// At most one slot is selected.
    pub proof fn lemma_selected_unique(&self, cpu: int, a: int, b: int)
        requires
            self.is_selected(cpu, a),
            self.is_selected(cpu, b),
        ensures
            a == b,
    {
        assert(self.slot(cpu, b).state == InboxSlotState::Published);
        assert(self.slot(cpu, a).state == InboxSlotState::Published);
        if a < b {
            assert(self.slot(cpu, a).ordinal != self.slot(cpu, b).ordinal);
        } else if b < a {
            assert(self.slot(cpu, b).ordinal != self.slot(cpu, a).ordinal);
        }
    }

    /// The message that slot `i` of CPU `cpu` decodes to, if it is well formed.
    pub open spec fn decoded(&self, cpu: int, i: int) -> Option<InboundMessage> {
        let s = self.slot(cpu, i);
        match (self.spec_task_ref_from_inbox_index(i, s.task_generation), kind_from_code(s.kind)) {
            (Some(task_ref), Some(kind)) => Some(
                InboundMessage {
                    task_ref,
                    target_cpu: CpuRef { logical_id: s.target_cpu },
                    kind,
                    ordinal: s.ordinal,
                },
            ),
            _ => None,
        }
    }

    /// A decoded message is delivered only to the CPU it names, and only while its task
    /// is still a published target there.
    pub open spec fn delivers(&self, cpu: int, m: InboundMessage, registry: &UserRegistryView) -> bool {
        m.target_cpu.logical_id == cpu && self.spec_published_target(
            m.task_ref,
            m.target_cpu,
            registry,
        )
    }

    fn select_inbound(&self, logical_id: usize) -> (r: Option<usize>)
        requires
            self.wf(),
            logical_id < self.cpu_count,
        ensures
            r matches Some(i) ==> self.is_selected(logical_id as int, i as int),
            r is None ==> self.selected_index(logical_id as int) is None,
            r matches Some(i) ==> self.selected_index(logical_id as int) == Some(i as int),
    {
        let spi = self.slots_per_inbox();
        let ghost cpu = logical_id as int;
        let mut selected: Option<usize> = None;
        let mut selected_ordinal: u64 = u64::MAX;
        let mut index: usize = 0;
        while index < spi
            invariant
                self.wf(),
                logical_id < self.cpu_count,
                cpu == logical_id,
                spi == self.spec_slots_per_inbox(),
                index <= spi,
                selected is None ==> selected_ordinal == u64::MAX && forall|j: int|
                    0 <= j < index && #[trigger] self.slot(cpu, j).state
                        == InboxSlotState::Published ==> self.slot(cpu, j).ordinal == u64::MAX,
                selected matches Some(k) ==> {
                    &&& k < index
                    &&& self.slot(cpu, k as int).state == InboxSlotState::Published
                    &&& self.slot(cpu, k as int).ordinal == selected_ordinal
                    &&& selected_ordinal < u64::MAX
                    &&& forall|j: int|
                        0 <= j < index && #[trigger] self.slot(cpu, j).state
                            == InboxSlotState::Published ==> selected_ordinal <= self.slot(
                            cpu,
                            j,
                        ).ordinal
                    &&& forall|j: int|
                        0 <= j < k && #[trigger] self.slot(cpu, j).state
                            == InboxSlotState::Published ==> selected_ordinal < self.slot(
                            cpu,
                            j,
                        ).ordinal
                },
            decreases spi - index,
        {
            proof {
                lemma_pos_bounds(spi as int, self.cpu_count as int, cpu, index as int);
            }
            let slot = self.slots[logical_id * spi + index];
            if slot.state == InboxSlotState::Published {
                if slot.ordinal < selected_ordinal {
                    selected = Some(index);
                    selected_ordinal = slot.ordinal;
                }
            }
            index += 1;
        }
        match selected {
            Some(k) => {
                proof {
                    assert(self.is_selected(cpu, k as int));
                    let c = choose|i: int| self.is_selected(cpu, i);
                    self.lemma_selected_unique(cpu, c, k as int);
                }
                Some(k)
            },
            None => {
                proof {
                    if exists|i: int| self.is_selected(cpu, i) {
                        let c = choose|i: int| self.is_selected(cpu, i);
                        assert(self.slot(cpu, c).state == InboxSlotState::Published);
                    }
                }
                None
            },
        }
    }

    /// Takes the published notification with the smallest ordinal out of CPU
    /// `logical_id`'s inbox. The slot is emptied even when its contents turn out to be
    /// malformed or stale; only a message for this CPU whose task is still a published
    /// target there is returned and counted.
    #[verifier::rlimit(40)]
    pub fn take_inbound(&mut self, logical_id: usize, registry: &UserRegistryView) -> (r: Option<
        InboundMessage,
    >)
        requires
            old(self).wf(),
        ensures
            final(self).wf(),
            final(self).same_table(old(self)),
            final(self).last_claimed_ordinal@ == old(self).last_claimed_ordinal@,
            final(self).need_resched@ == old(self).need_resched@,
            final(self).ipi_sent@ == old(self).ipi_sent@,
            final(self).ipi_received@ == old(self).ipi_received@,
            logical_id >= old(self).cpu_count ==> r is None && final(self).unchanged(old(self)),
            logical_id < old(self).cpu_count && old(self).selected_index(logical_id as int) is None
                ==> r is None && final(self).unchanged(old(self)),
            logical_id < old(self).cpu_count && old(self).selected_index(logical_id as int) is Some
                ==> {
                let cpu = logical_id as int;
                let i = old(self).selected_index(cpu)->0;
                let m = old(self).decoded(cpu, i);
                &&& final(self).slots@ == old(self).slots@.update(
                    old(self).pos(cpu, i),
                    InboundSlot { state: InboxSlotState::Empty, ..old(self).slot(cpu, i) },
                )
                &&& r == (if m is Some && old(self).delivers(cpu, m->0, registry) {
                    m
                } else {
                    None
                })
            },
            r is None ==> final(self).max_consumed_ordinal@ == old(self).max_consumed_ordinal@
                && final(self).consumed@ == old(self).consumed@,
            r matches Some(m) ==> final(self).max_consumed_ordinal@
                == old(self).max_consumed_ordinal@.update(
                logical_id as int,
                if m.ordinal > old(self).max_consumed_ordinal@[logical_id as int] {
                    m.ordinal
                } else {
                    old(self).max_consumed_ordinal@[logical_id as int]
                },
            ) && final(self).consumed@ == old(self).consumed@.update(
                logical_id as int,
                ((old(self).consumed@[logical_id as int] + 1) % 0x1_0000_0000_0000_0000) as u64,
            ),
            final(self).nonidentity_switches@ == old(self).nonidentity_switches@,
            final(self).identity_schedules@ == old(self).identity_schedules@,
            final(self).idle_restores@ == old(self).idle_restores@,
            final(self).next_auto_ordinal == old(self).next_auto_ordinal,
    {
        if logical_id >= self.cpu_count {
            return None;
        }
        let index = match self.select_inbound(logical_id) {
            Some(i) => i,
            None => {
                return None;
            },
        };
        let spi = self.slots_per_inbox();
        proof {
            lemma_pos_bounds(spi as int, self.cpu_count as int, logical_id as int, index as int);
        }
        let pos = logical_id * spi + index;
        let slot = self.slots[pos];
        self.slots.set(pos, InboundSlot { state: InboxSlotState::Empty, ..slot });
        let task_ref = match self.task_ref_from_inbox_index(index, slot.task_generation) {
            Some(t) => t,
            None => {
                return None;
            },
        };
        let kind = match decode_kind(slot.kind) {
            Some(k) => k,
            None => {
                return None;
            },
        };
        let message = InboundMessage {
            task_ref,
            target_cpu: CpuRef::new(slot.target_cpu),
            kind,
            ordinal: slot.ordinal,
        };
        let fresh = slot.target_cpu == logical_id && self.validate_published_target(
            task_ref,
            message.target_cpu,
            registry,
        );
        if !fresh {
            return None;
        }
        let old_max = self.max_consumed_ordinal[logical_id];
        if slot.ordinal > old_max {
            self.max_consumed_ordinal.set(logical_id, slot.ordinal);
        }
        let old_consumed = self.consumed[logical_id];
        self.consumed.set(logical_id, old_consumed.wrapping_add(1));
        Some(message)
    }

    /// Whether CPU `logical_id` has a published notification waiting.
    pub open spec fn spec_has_inbound(&self, cpu: int) -> bool {
        exists|j: int|
            0 <= j < self.spec_slots_per_inbox() && #[trigger] self.slot(cpu, j).state
                == InboxSlotState::Published
    }

    pub fn has_inbound(&self, logical_id: usize) -> (r: bool)
        requires
            self.wf(),
        ensures
            r == (logical_id < self.cpu_count && self.spec_has_inbound(logical_id as int)),
    {
        if logical_id >= self.cpu_count {
            return false;
        }
        let spi = self.slots_per_inbox();
        let mut index: usize = 0;
        while index < spi
            invariant
                self.wf(),
                logical_id < self.cpu_count,
                spi == self.spec_slots_per_inbox(),
                index <= spi,
                forall|j: int|
                    0 <= j < index ==> #[trigger] self.slot(logical_id as int, j).state
                        != InboxSlotState::Published,
            decreases spi - index,
        {
            proof {
                lemma_pos_bounds(spi as int, self.cpu_count as int, logical_id as int, index as int);
            }
            if self.slots[logical_id * spi + index].state == InboxSlotState::Published {
                assert(self.slot(logical_id as int, index as int).state == InboxSlotState::Published);
                return true;
            }
            index += 1;
        }
        false
    }
}

/// The law of the inbox: when exactly one slot of a CPU's inbox is published, and its
/// ordinal is below `u64::MAX`, a take picks that slot.
pub proof fn lemma_sole_published_is_taken(t: &KernelTasks, cpu: int, i: int)
    requires
        0 <= i < t.spec_slots_per_inbox(),
        t.slot(cpu, i).state == InboxSlotState::Published,
        t.slot(cpu, i).ordinal < u64::MAX,
        forall|j: int|
            0 <= j < t.spec_slots_per_inbox() && j != i ==> #[trigger] t.slot(cpu, j).state
                != InboxSlotState::Published,
    ensures
        t.selected_index(cpu) == Some(i),
{
    assert(t.is_selected(cpu, i));
    let c = choose|k: int| t.is_selected(cpu, k);
    t.lemma_selected_unique(cpu, c, i);
}

/// Adds one to a per-CPU counter, wrapping as the atomic counters of the kernel do.
fn bump(counters: &mut Vec<u64>, cpu: usize)
    requires
        cpu < old(counters)@.len(),
    ensures
        final(counters)@ == old(counters)@.update(
            cpu as int,
            ((old(counters)@[cpu as int] + 1) % 0x1_0000_0000_0000_0000) as u64,
        ),
{
    let v = counters[cpu];
    counters.set(cpu, v.wrapping_add(1));
}

impl KernelTasks {
    /// Counts an IPI sent to CPU `logical_id`; an unknown CPU is ignored.
    pub fn mark_ipi_sent(&mut self, logical_id: usize)
        requires
            old(self).wf(),
        ensures
            final(self).wf(),
            logical_id >= old(self).cpu_count ==> final(self).ipi_sent@ == old(self).ipi_sent@,
            logical_id < old(self).cpu_count ==> final(self).ipi_sent@ == old(self).ipi_sent@.update(
                logical_id as int,
                ((old(self).ipi_sent@[logical_id as int] + 1) % 0x1_0000_0000_0000_0000) as u64,
            ),
            final(self).same_table(old(self)),
            final(self).slots@ == old(self).slots@,
            final(self).need_resched@ == old(self).need_resched@,
            final(self).ipi_received@ == old(self).ipi_received@,
    {
        if logical_id < self.cpu_count {
            bump(&mut self.ipi_sent, logical_id);
        }
    }

    /// Notes a reschedule IPI received on CPU `logical_id`: a reschedule is then pending.
    pub fn handle_reschedule_ipi(&mut self, logical_id: usize)
        requires
            old(self).wf(),
        ensures
            final(self).wf(),
            logical_id >= old(self).cpu_count ==> final(self).need_resched@ == old(self).need_resched@ && final(self).ipi_received@ == old(self).ipi_received@,
            logical_id < old(self).cpu_count ==> final(self).need_resched@ == old(self).need_resched@.update(logical_id as int, true) && final(self).ipi_received@ == old(self).ipi_received@.update(
                logical_id as int,
                ((old(self).ipi_received@[logical_id as int] + 1) % 0x1_0000_0000_0000_0000) as u64,
            ),
            final(self).same_table(old(self)),
            final(self).slots@ == old(self).slots@,
            final(self).ipi_sent@ == old(self).ipi_sent@,
    {
        if logical_id < self.cpu_count {
            self.need_resched.set(logical_id, true);
            bump(&mut self.ipi_received, logical_id);
        }
    }

    /// Reads and clears the pending-reschedule flag of CPU `logical_id`.
    pub fn take_need_resched(&mut self, logical_id: usize) -> (r: bool)
        requires
            old(self).wf(),
        ensures
            final(self).wf(),
            r == (logical_id < old(self).cpu_count && old(self).need_resched@[logical_id as int]),
            logical_id < old(self).cpu_count ==> final(self).need_resched@ == old(self).need_resched@.update(logical_id as int, false),
            logical_id >= old(self).cpu_count ==> final(self).need_resched@ == old(self).need_resched@,
            final(self).same_table(old(self)),
            final(self).slots@ == old(self).slots@,
            final(self).ipi_sent@ == old(self).ipi_sent@,
            final(self).ipi_received@ == old(self).ipi_received@,
    {
        if logical_id >= self.cpu_count {
            return false;
        }
        let pending = self.need_resched[logical_id];
        self.need_resched.set(logical_id, false);
        pending
    }

    pub fn need_resched_pending(&self, logical_id: usize) -> (r: bool)
        requires
            self.wf(),
        ensures
            r == (logical_id < self.cpu_count && self.need_resched@[logical_id as int]),
    {
        logical_id < self.cpu_count && self.need_resched[logical_id]
    }

    pub fn record_nonidentity_switch(&mut self, logical_id: usize)
        requires
            old(self).wf(),
        ensures
            final(self).wf(),
            logical_id < old(self).cpu_count ==> final(self).nonidentity_switches@ == old(self).nonidentity_switches@.update(
                logical_id as int,
                ((old(self).nonidentity_switches@[logical_id as int] + 1)
                    % 0x1_0000_0000_0000_0000) as u64,
            ),
            logical_id >= old(self).cpu_count ==> final(self).nonidentity_switches@ == old(self).nonidentity_switches@,
            final(self).same_table(old(self)),
            final(self).slots@ == old(self).slots@,
    {
        if logical_id < self.cpu_count {
            bump(&mut self.nonidentity_switches, logical_id);
        }
    }

    pub fn record_identity_schedule(&mut self, logical_id: usize)
        requires
            old(self).wf(),
        ensures
            final(self).wf(),
            logical_id < old(self).cpu_count ==> final(self).identity_schedules@ == old(self).identity_schedules@.update(
                logical_id as int,
                ((old(self).identity_schedules@[logical_id as int] + 1) % 0x1_0000_0000_0000_0000) as u64,
            ),
            logical_id >= old(self).cpu_count ==> final(self).identity_schedules@ == old(self).identity_schedules@,
            final(self).same_table(old(self)),
            final(self).slots@ == old(self).slots@,
    {
        if logical_id < self.cpu_count {
            bump(&mut self.identity_schedules, logical_id);
        }
    }

    pub fn record_idle_restore(&mut self, logical_id: usize)
        requires
            old(self).wf(),
        ensures
            final(self).wf(),
            logical_id < old(self).cpu_count ==> final(self).idle_restores@ == old(self).idle_restores@.update(
                logical_id as int,
                ((old(self).idle_restores@[logical_id as int] + 1) % 0x1_0000_0000_0000_0000) as u64,
            ),
            logical_id >= old(self).cpu_count ==> final(self).idle_restores@ == old(self).idle_restores@,
            final(self).same_table(old(self)),
            final(self).slots@ == old(self).slots@,
    {
        if logical_id < self.cpu_count {
            bump(&mut self.idle_restores, logical_id);
        }
    }

    /// The published kernel task slot that holds `task_ref`, if any.
    pub open spec fn spec_task_by_ref(&self, task_ref: TaskRef) -> Option<int> {
        match task_ref {
            TaskRef::Kernel { slot, .. } => if slot < KERNEL_TASK_SLOT_COUNT
                && self.records@[slot as int].published && self.records@[slot as int].task_ref
                == task_ref {
                Some(slot as int)
            } else {
                None
            },
            _ => None,
        }
    }

    pub fn task_by_ref(&self, task_ref: TaskRef) -> (r: Option<usize>)
        requires
            self.wf(),
        ensures
            r matches Some(s) ==> self.spec_task_by_ref(task_ref) == Some(s as int),
            r is None ==> self.spec_task_by_ref(task_ref) is None,
    {
        let slot = match task_ref.kernel_slot() {
            Some(s) => s,
            None => {
                return None;
            },
        };
        if slot >= KERNEL_TASK_SLOT_COUNT || !self.records[slot].published {
            return None;
        }
        if self.records[slot].task_ref.same_identity(task_ref) {
            Some(slot)
        } else {
            None
        }
    }

    /// The published kernel task slot that holds `task_ref` and runs on CPU `logical_id`:
    /// the only place from which that task may be changed.
    pub fn task_mut_by_ref_on_cpu(&self, task_ref: TaskRef, logical_id: usize) -> (r: Option<usize>)
        requires
            self.wf(),
        ensures
            r matches Some(s) ==> self.spec_task_by_ref(task_ref) == Some(s as int)
                && self.records@[s as int].target_cpu.logical_id == logical_id,
            r is None ==> !(self.spec_task_by_ref(task_ref) is Some && self.records@[self.spec_task_by_ref(
                task_ref,
            )->0].target_cpu.logical_id == logical_id),
    {
        let slot = match self.task_by_ref(task_ref) {
            Some(s) => s,
            None => {
                return None;
            },
        };
        if self.records[slot].target_cpu.logical_id() != logical_id {
            return None;
        }
        Some(slot)
    }

    /// The slot of the task to enable and pin on CPU `logical_id` for an Activate
    /// notification; the caller then runs the task's enable and pin steps.
    pub fn activate_for_enqueue(&self, task_ref: TaskRef, logical_id: usize) -> (r: Result<
        usize,
        EventError,
    >)
        requires
            self.wf(),
        ensures
            r matches Ok(s) ==> self.spec_task_by_ref(task_ref) == Some(s as int)
                && self.records@[s as int].target_cpu.logical_id == logical_id,
            r is Err ==> r == Err::<usize, EventError>(
                EventError::spec_failed(
                    EventErrorCode::ConditionFailed,
                    LifecycleEvent::Enable,
                    State::Ready,
                    State::Online,
                    State::Online,
                ),
            ) && !(self.spec_task_by_ref(task_ref) is Some && self.records@[self.spec_task_by_ref(
                task_ref,
            )->0].target_cpu.logical_id == logical_id),
    {
        match self.task_mut_by_ref_on_cpu(task_ref, logical_id) {
            Some(s) => Ok(s),
            None => Err(
                EventError::failed(
                    EventErrorCode::ConditionFailed,
                    LifecycleEvent::Enable,
                    State::Ready,
                    State::Online,
                    State::Online,
                ),
            ),
        }
    }

    /// The slot of the task to wake on CPU `logical_id` for a Wake notification; the
    /// caller then runs the task's wake step.
    pub fn wake_for_enqueue(&self, task_ref: TaskRef, logical_id: usize) -> (r: Result<
        usize,
        EventError,
    >)
        requires
            self.wf(),
        ensures
            r matches Ok(s) ==> self.spec_task_by_ref(task_ref) == Some(s as int)
                && self.records@[s as int].target_cpu.logical_id == logical_id,
            r is Err ==> r == Err::<usize, EventError>(
                EventError::spec_failed(
                    EventErrorCode::ConditionFailed,
                    LifecycleEvent::Dispatch,
                    State::Online,
                    State::Online,
                    State::Online,
                ),
            ) && !(self.spec_task_by_ref(task_ref) is Some && self.records@[self.spec_task_by_ref(
                task_ref,
            )->0].target_cpu.logical_id == logical_id),
    {
        match self.task_mut_by_ref_on_cpu(task_ref, logical_id) {
            Some(s) => Ok(s),
            None => Err(
                EventError::failed(
                    EventErrorCode::ConditionFailed,
                    LifecycleEvent::Dispatch,
                    State::Online,
                    State::Online,
                    State::Online,
                ),
            ),
        }
    }

    /// IPIs sent, IPIs received and notifications consumed on CPU `logical_id`.
    pub fn counters(&self, logical_id: usize) -> (r: Option<(u64, u64, u64)>)
        requires
            self.wf(),
        ensures
            logical_id >= self.cpu_count ==> r is None,
            logical_id < self.cpu_count ==> r == Some(
                (
                    self.ipi_sent@[logical_id as int],
                    self.ipi_received@[logical_id as int],
                    self.consumed@[logical_id as int],
                ),
            ),
    {
        if logical_id >= self.cpu_count {
            return None;
        }
        Some((self.ipi_sent[logical_id], self.ipi_received[logical_id], self.consumed[logical_id]))
    }

    /// Non-identity switches, identity schedules and idle restores on CPU `logical_id`.
    pub fn switch_counters(&self, logical_id: usize) -> (r: Option<(u64, u64, u64)>)
        requires
            self.wf(),
        ensures
            logical_id >= self.cpu_count ==> r is None,
            logical_id < self.cpu_count ==> r == Some(
                (
                    self.nonidentity_switches@[logical_id as int],
                    self.identity_schedules@[logical_id as int],
                    self.idle_restores@[logical_id as int],
                ),
            ),
    {
        if logical_id >= self.cpu_count {
            return None;
        }
        Some(
            (
                self.nonidentity_switches[logical_id],
                self.identity_schedules[logical_id],
                self.idle_restores[logical_id],
            ),
        )
    }
}

} // verus!
