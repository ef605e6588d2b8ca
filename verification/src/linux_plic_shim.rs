//! The state behind the shim that runs the Linux PLIC driver: what the kernel records
//! as the driver registers, matches, probes, instantiates its interrupt domain and
//! maps its interrupts, and the decisions taken on each of those calls.
//!
//! Every call into Linux code, and every read or write of the memory that Linux code
//! sees, is done by the caller; here the values it read are taken as arguments and the
//! values to write are returned.
use vstd::prelude::*;
use crate::arith::{checked_round_up, checked_round_up_spec, is_pow2, is_power_of_two};
use crate::state::{condition_error, failed_condition, EventError, EventResult, LifecycleEvent, State};

verus! {

/// The Linux external-interrupt number of the parent interrupt.
pub const LINUX_RV_IRQ_EXT: u32 = 9;

/// Bytes of the bump heap that Linux allocations come from.
pub const LINUX_PLIC_HEAP_SIZE: usize = 16384;

/// Leaf interrupt records the shim keeps.
pub const LINUX_PLIC_LEAF_IRQ_CAPACITY: usize = 32;

/// Entries of a driver's match table that are scanned.
pub const LINUX_OF_MATCH_SCAN_LIMIT: usize = 16;

/// Bytes of a machine word on the target (riscv64).
pub const LINUX_WORD_BYTES: usize = 8;

/// The Linux error number for an invalid argument, negated.
pub const LINUX_EINVAL: i32 = -22;

/// The compatible string of the SiFive PLIC.
pub open spec fn plic_compatible_sifive() -> Seq<u8> {
    seq![115u8, 105, 102, 105, 118, 101, 44, 112, 108, 105, 99, 45, 49, 46, 48, 46, 48]
}

/// The compatible string of the generic RISC-V PLIC.
pub open spec fn plic_compatible_riscv() -> Seq<u8> {
    seq![114u8, 105, 115, 99, 118, 44, 112, 108, 105, 99, 48]
}

/// Whether two byte slices hold the same bytes.
pub fn bytes_equal(a: &[u8], b: &[u8]) -> (r: bool)
    ensures
        r == (a@ == b@),
{
    if a.len() != b.len() {
        return false;
    }
    let mut i: usize = 0;
    while i < a.len()
        invariant
            a@.len() == b@.len(),
            i <= a@.len(),
            forall|j: int| 0 <= j < i ==> a@[j] == b@[j],
        decreases a@.len() - i,
    {
        if a[i] != b[i] {
            return false;
        }
        i += 1;
    }
    assert(a@ =~= b@);
    true
}

/// Whether `bytes` is one of the two PLIC compatible strings.
pub fn is_plic_compatible(bytes: &[u8]) -> (r: bool)
    ensures
        r == (bytes@ == plic_compatible_sifive() || bytes@ == plic_compatible_riscv()),
{
    let sifive: Vec<u8> = vec![115u8, 105, 102, 105, 118, 101, 44, 112, 108, 105, 99, 45, 49, 46, 48, 46, 48];
    let riscv: Vec<u8> = vec![114u8, 105, 115, 99, 118, 44, 112, 108, 105, 99, 48];
    assert(sifive@ =~= plic_compatible_sifive());
    assert(riscv@ =~= plic_compatible_riscv());
    bytes_equal(bytes, sifive.as_slice()) || bytes_equal(bytes, riscv.as_slice())
}

/// `n` is the length of the C string at the start of `s`: no zero before it, and a
/// zero at it unless the string fills `s`.
pub open spec fn is_cstr_len(s: Seq<u8>, n: int) -> bool {
    &&& 0 <= n <= s.len()
    &&& forall|i: int| 0 <= i < n ==> s[i] != 0
    &&& n < s.len() ==> s[n] == 0
}

/// The C string at the start of `s`.
pub open spec fn cstr(s: Seq<u8>) -> Seq<u8> {
    s.take(choose|n: int| is_cstr_len(s, n))
}

pub proof fn lemma_cstr_len_unique(s: Seq<u8>, a: int, b: int)
    requires
        is_cstr_len(s, a),
        is_cstr_len(s, b),
    ensures
        a == b,
{
    if a < b {
        assert(s[a] != 0);
    } else if b < a {
        assert(s[b] != 0);
    }
}

/// The length of the C string at the start of `bytes`.
pub fn cstr_len(bytes: &[u8]) -> (r: usize)
    ensures
        is_cstr_len(bytes@, r as int),
        cstr(bytes@) == bytes@.take(r as int),
{
    let mut len: usize = 0;
    while len < bytes.len() && bytes[len] != 0
        invariant
            len <= bytes@.len(),
            forall|i: int| 0 <= i < len ==> bytes@[i] != 0,
        decreases bytes@.len() - len,
    {
        len += 1;
    }
    proof {
        assert(is_cstr_len(bytes@, len as int));
        let c = choose|n: int| is_cstr_len(bytes@, n);
        lemma_cstr_len_unique(bytes@, c, len as int);
    }
    len
}

/// The `riscv,ndev` property: the number of interrupt sources, read big-endian from
/// its first four bytes.
pub open spec fn spec_source_count(value: Seq<u8>) -> Option<u32> {
    if value.len() < 4 {
        None
    } else {
        Some(
            (value[0] as int * 0x100_0000 + value[1] as int * 0x1_0000 + value[2] as int * 0x100
                + value[3] as int) as u32,
        )
    }
}

/// The `interrupts-extended` property: one context per eight bytes.
pub open spec fn spec_context_count(value: Seq<u8>) -> Option<usize> {
    if value.len() < 8 || value.len() % 8 != 0 {
        None
    } else {
        Some((value.len() / 8) as usize)
    }
}

/// What the device tree holds at the PLIC node `/soc/plic@c000000`.
pub struct PlicNodeView {
    pub present: bool,
    pub compatibles: Vec<Vec<u8>>,
    pub ndev: Option<Vec<u8>>,
    pub interrupts_extended: Option<Vec<u8>>,
}

impl PlicNodeView {
    /// The node exists and names one of the PLIC compatible strings.
    pub open spec fn spec_available(&self) -> bool {
        &&& self.present
        &&& exists|i: int|
            0 <= i < self.compatibles@.len() && (#[trigger] self.compatibles@[i]@
                == plic_compatible_sifive() || self.compatibles@[i]@ == plic_compatible_riscv())
    }

    pub open spec fn spec_node_source_count(&self) -> Option<u32> {
        if !self.present {
            None
        } else {
            match self.ndev {
                Some(v) => spec_source_count(v@),
                None => None,
            }
        }
    }

    pub open spec fn spec_node_context_count(&self) -> Option<usize> {
        if !self.present {
            None
        } else {
            match self.interrupts_extended {
                Some(v) => spec_context_count(v@),
                None => None,
            }
        }
    }

    pub fn plic_node_available(&self) -> (r: bool)
        ensures
            r == self.spec_available(),
    {
        if !self.present {
            return false;
        }
        let mut i: usize = 0;
        while i < self.compatibles.len()
            invariant
                self.present,
                i <= self.compatibles@.len(),
                forall|j: int|
                    0 <= j < i ==> !(#[trigger] self.compatibles@[j]@ == plic_compatible_sifive()
                        || self.compatibles@[j]@ == plic_compatible_riscv()),
            decreases self.compatibles@.len() - i,
        {
            if is_plic_compatible(self.compatibles[i].as_slice()) {
                return true;
            }
            i += 1;
        }
        false
    }

    pub fn plic_node_source_count(&self) -> (r: Option<u32>)
        ensures
            r == self.spec_node_source_count(),
    {
        if !self.present {
            return None;
        }
        match &self.ndev {
            Some(value) => {
                if value.len() < 4 {
                    return None;
                }
                let b0 = value[0] as u32;
                let b1 = value[1] as u32;
                let b2 = value[2] as u32;
                let b3 = value[3] as u32;
                Some(b0 * 0x100_0000 + b1 * 0x1_0000 + b2 * 0x100 + b3)
            },
            None => None,
        }
    }

    pub fn plic_node_context_count(&self) -> (r: Option<usize>)
        ensures
            r == self.spec_node_context_count(),
    {
        if !self.present {
            return None;
        }
        match &self.interrupts_extended {
            Some(value) => {
                if value.len() < 8 || value.len() % 8 != 0 {
                    return None;
                }
                Some(value.len() / 8)
            },
            None => None,
        }
    }
}

/// The index of the entry of a match table that a scan stops at with a match: the
/// scan covers at most `LINUX_OF_MATCH_SCAN_LIMIT` entries and stops, without a
/// match, at an entry whose compatible string is empty or when the entries run out.
pub open spec fn spec_match_index(entries: Seq<Vec<u8>>) -> Option<int> {
    if exists|k: int| spec_is_match_at(entries, k) {
        Some(choose|k: int| spec_is_match_at(entries, k))
    } else {
        None
    }
}

pub open spec fn spec_is_match_at(entries: Seq<Vec<u8>>, k: int) -> bool {
    &&& 0 <= k < entries.len()
    &&& k < LINUX_OF_MATCH_SCAN_LIMIT
    &&& (cstr(entries[k]@) == plic_compatible_sifive() || cstr(entries[k]@)
        == plic_compatible_riscv())
    &&& forall|j: int|
        0 <= j < k ==> cstr(#[trigger] entries[j]@).len() != 0 && cstr(entries[j]@)
            != plic_compatible_sifive() && cstr(entries[j]@) != plic_compatible_riscv()
}

/// Scans the compatible strings of a driver's match table for a PLIC entry.
pub fn of_match_index(entries: &Vec<Vec<u8>>) -> (r: Option<usize>)
    ensures
        r matches Some(k) ==> spec_match_index(entries@) == Some(k as int),
        r is None ==> spec_match_index(entries@) is None,
{
    let mut scanned: usize = 0;
    while scanned < LINUX_OF_MATCH_SCAN_LIMIT && scanned < entries.len()
        invariant
            scanned <= LINUX_OF_MATCH_SCAN_LIMIT,
            scanned <= entries@.len(),
            forall|j: int|
                0 <= j < scanned ==> cstr(#[trigger] entries@[j]@).len() != 0 && cstr(
                    entries@[j]@,
                ) != plic_compatible_sifive() && cstr(entries@[j]@) != plic_compatible_riscv(),
        decreases LINUX_OF_MATCH_SCAN_LIMIT - scanned,
    {
        let entry = &entries[scanned];
        let len = cstr_len(entry.as_slice());
        if len == 0 {
            proof {
                if exists|k: int| spec_is_match_at(entries@, k) {
                    let k = choose|k: int| spec_is_match_at(entries@, k);
                    if k > scanned {
                        assert(cstr(entries@[scanned as int]@).len() != 0);
                    } else if k < scanned {
                        assert(cstr(entries@[k]@).len() != 0);
                    } else {
                        assert(cstr(entries@[k]@) =~= Seq::<u8>::empty());
                    }
                }
            }
            return None;
        }
        let prefix = vstd::slice::slice_subrange(entry.as_slice(), 0, len);
        assert(prefix@ =~= cstr(entries@[scanned as int]@));
        if is_plic_compatible(prefix) {
            proof {
                assert(spec_is_match_at(entries@, scanned as int));
                let k = choose|k: int| spec_is_match_at(entries@, k);
                if k < scanned {
                    assert(cstr(entries@[k]@) != plic_compatible_sifive());
                } else if k > scanned {
                    assert(cstr(entries@[scanned as int]@) != plic_compatible_sifive());
                }
            }
            return Some(scanned);
        }
        scanned += 1;
    }
    proof {
        if exists|k: int| spec_is_match_at(entries@, k) {
            let k = choose|k: int| spec_is_match_at(entries@, k);
            assert(k < scanned);
            assert(cstr(entries@[k]@) != plic_compatible_sifive());
        }
    }
    None
}

/// Whether a registered driver's match table names the PLIC; `None` is a driver with
/// no match table.
pub fn driver_matches_qemu_plic(of_match_table: &Option<Vec<Vec<u8>>>) -> (r: bool)
    ensures
        r == (match of_match_table {
            Some(t) => spec_match_index(t@) is Some,
            None => false,
        }),
{
    match of_match_table {
        Some(table) => of_match_index(table).is_some(),
        None => false,
    }
}

/// A counter after one more event; the kernel's atomic counters wrap.
pub open spec fn wrap_inc(x: usize) -> usize {
    if x == usize::MAX {
        0
    } else {
        (x + 1) as usize
    }
}

pub fn increment(x: usize) -> (r: usize)
    ensures
        r == wrap_inc(x),
{
    if x == usize::MAX {
        0
    } else {
        x + 1
    }
}

/// One interrupt that Linux mapped below the PLIC domain.
#[derive(Clone, Copy, PartialEq, Eq, Structural, Debug)]
pub struct LinuxPlicLeafIrqRecord {
    pub in_use: bool,
    pub virq: u32,
    pub hwirq: u32,
    pub chip: usize,
    pub flow_handler: usize,
}

impl LinuxPlicLeafIrqRecord {
    pub open spec fn spec_empty() -> Self {
        LinuxPlicLeafIrqRecord { in_use: false, virq: 0, hwirq: 0, chip: 0, flow_handler: 0 }
    }

    pub fn empty() -> (r: Self)
        ensures
            r == Self::spec_empty(),
    {
        LinuxPlicLeafIrqRecord { in_use: false, virq: 0, hwirq: 0, chip: 0, flow_handler: 0 }
    }
}

/// The chip callbacks the shim calls, each at its offset in a Linux `irq_chip`.
#[derive(Clone, Copy, PartialEq, Eq, Structural, Debug)]
pub enum LinuxIrqChipCallbackSlot {
    Enable,
    Disable,
    Mask,
    Unmask,
    Eoi,
}

impl LinuxIrqChipCallbackSlot {
    pub open spec fn spec_offset(self) -> usize {
        match self {
            LinuxIrqChipCallbackSlot::Enable => 24,
            LinuxIrqChipCallbackSlot::Disable => 32,
            LinuxIrqChipCallbackSlot::Mask => 48,
            LinuxIrqChipCallbackSlot::Unmask => 64,
            LinuxIrqChipCallbackSlot::Eoi => 72,
        }
    }

    pub fn offset(self) -> (r: usize)
        ensures
            r == self.spec_offset(),
    {
        match self {
            LinuxIrqChipCallbackSlot::Enable => 24,
            LinuxIrqChipCallbackSlot::Disable => 32,
            LinuxIrqChipCallbackSlot::Mask => 48,
            LinuxIrqChipCallbackSlot::Unmask => 64,
            LinuxIrqChipCallbackSlot::Eoi => 72,
        }
    }
}

/// What the kernel's PLIC instance reports.
#[derive(Clone, Copy, PartialEq, Eq, Structural, Debug)]
pub struct PlicInstanceView {
    pub membase: usize,
    pub source_count: usize,
    pub context_id: usize,
}

/// What the registered Linux platform driver holds: its probe function and the
/// compatible strings of its match table (`None` when it has no match table).
pub struct LinuxDriverView {
    pub probe: usize,
    pub of_match_table: Option<Vec<Vec<u8>>>,
}

/// Addresses and values that only the memory of the running kernel holds, read by the
/// caller for `boundary_facts`.
#[derive(Clone, Copy, PartialEq, Eq, Structural, Debug)]
pub struct LinuxPlicAddresses {
    pub driver_probe_ptr: usize,
    pub platform_device_ptr: usize,
    pub fwnode_ptr: usize,
    pub fwnode_ops_ptr: usize,
    pub expected_fwnode_ops_ptr: usize,
    pub thread_info_base: usize,
    pub thread_info_cpu: u32,
    pub per_cpu_offset0: usize,
}

/// A snapshot of everything the shim recorded, for checks at the boundary.
#[derive(Clone, Copy, PartialEq, Eq, Structural, Debug)]
pub struct LinuxPlicBoundaryFacts {
    pub initcall_seq: usize,
    pub driver_register_seq: usize,
    pub platform_match_seq: usize,
    pub probe_enter_seq: usize,
    pub probe_return_seq: usize,
    pub domain_instantiate_seq: usize,
    pub find_parent_domain_seq: usize,
    pub create_mapping_seq: usize,
    pub set_handler_seq: usize,
    pub cpuhp_seq: usize,
    pub syscore_seq: usize,
    pub driver_registered: bool,
    pub driver_matched: bool,
    pub probe_entered: bool,
    pub probe_return: Option<i32>,
    pub driver_ptr: usize,
    pub probe_ptr: usize,
    pub platform_device_ptr: usize,
    pub fwnode_ptr: usize,
    pub fwnode_ops_ptr: usize,
    pub expected_fwnode_ops_ptr: usize,
    pub membase: usize,
    pub source_count: usize,
    pub context_count: usize,
    pub context_id: usize,
    pub domain_ptr: usize,
    pub domain_ops: usize,
    pub domain_host_data: usize,
    pub parent_irq: usize,
    pub chained_irq: usize,
    pub chained_handler: usize,
    pub chained_is_chained: usize,
    pub thread_info_base: usize,
    pub thread_info_cpu: u32,
    pub per_cpu_offset0: usize,
    pub of_iomap_calls: usize,
    pub of_irq_count_calls: usize,
    pub of_irq_parse_calls: usize,
    pub of_irq_parse_successes: usize,
    pub of_match_calls: usize,
    pub of_property_ndev_calls: usize,
    pub heap_used: usize,
    pub chip_enable_count: usize,
    pub chip_disable_count: usize,
    pub chip_mask_count: usize,
    pub chip_unmask_count: usize,
    pub chip_eoi_count: usize,
    pub chip_callback_probe_successes: usize,
}

/// Everything the shim records, as plain values.
#[derive(Debug)]
pub struct LinuxPlicShim {
    pub driver_registered: bool,
    pub driver_ptr: usize,
    pub driver_matched: bool,
    pub probe_entered: bool,
    pub probe_return: Option<i32>,
    pub membase: usize,
    pub source_count: usize,
    pub context_count: usize,
    pub context_id: usize,
    pub domain_ptr: usize,
    pub parent_irq: usize,
    pub chained_irq: usize,
    pub chained_handler: usize,
    pub chained_is_chained: usize,
    pub domain_ops: usize,
    pub domain_host_data: usize,
    pub event_seq: usize,
    pub initcall_seq: usize,
    pub driver_register_seq: usize,
    pub platform_match_seq: usize,
    pub probe_enter_seq: usize,
    pub probe_return_seq: usize,
    pub domain_instantiate_seq: usize,
    pub find_parent_domain_seq: usize,
    pub create_mapping_seq: usize,
    pub set_handler_seq: usize,
    pub cpuhp_seq: usize,
    pub syscore_seq: usize,
    pub of_iomap_calls: usize,
    pub of_irq_count_calls: usize,
    pub of_irq_parse_calls: usize,
    pub of_irq_parse_successes: usize,
    pub of_match_calls: usize,
    pub of_property_ndev_calls: usize,
    pub runtime_claim_count: usize,
    pub runtime_zero_claim_count: usize,
    pub runtime_dispatch_count: usize,
    pub runtime_complete_count: usize,
    pub runtime_loop_exit_count: usize,
    pub saved_rust_tp: usize,
    pub runtime_last_claimed_source: u32,
    pub runtime_last_completed_source: u32,
    pub chip_enable_count: usize,
    pub chip_disable_count: usize,
    pub chip_mask_count: usize,
    pub chip_unmask_count: usize,
    pub chip_eoi_count: usize,
    pub chip_callback_probe_successes: usize,
    pub heap_offset: usize,
    pub leaf_records: Vec<LinuxPlicLeafIrqRecord>,
}

impl LinuxPlicShim {
    /// The leaf table has its capacity and the heap cursor is within the heap; at most one
    /// in-use leaf record holds a hardware interrupt; and the claim loop has ended exactly
    /// once for each claim that found no source.
    pub open spec fn wf(&self) -> bool {
        &&& self.leaf_records@.len() == LINUX_PLIC_LEAF_IRQ_CAPACITY
        &&& self.heap_offset <= LINUX_PLIC_HEAP_SIZE
        &&& forall|i: int, j: int|
            0 <= i < LINUX_PLIC_LEAF_IRQ_CAPACITY && 0 <= j < LINUX_PLIC_LEAF_IRQ_CAPACITY && i
                != j && #[trigger] self.leaf_records@[i].in_use
                && #[trigger] self.leaf_records@[j].in_use ==> self.leaf_records@[i].hwirq
                != self.leaf_records@[j].hwirq
        &&& self.runtime_loop_exit_count == self.runtime_zero_claim_count
    }

    /// A shim that has recorded nothing.
    pub fn new() -> (r: Self)
        ensures
            r.wf(),
            !r.driver_registered && r.driver_ptr == 0 && !r.driver_matched && !r.probe_entered,
            r.probe_return is None,
            r.event_seq == 0 && r.heap_offset == 0 && r.domain_ptr == 0 && r.chained_handler == 0,
            r.membase == 0 && r.source_count == 0 && r.context_count == 0 && r.context_id == 0,
            r.parent_irq == 0 && r.domain_ops == 0 && r.saved_rust_tp == 0,
            forall|i: int|
                0 <= i < LINUX_PLIC_LEAF_IRQ_CAPACITY ==> #[trigger] r.leaf_records@[i]
                    == LinuxPlicLeafIrqRecord::spec_empty(),
    {
        let mut leaf_records: Vec<LinuxPlicLeafIrqRecord> = Vec::new();
        while leaf_records.len() < LINUX_PLIC_LEAF_IRQ_CAPACITY
            invariant
                leaf_records@.len() <= LINUX_PLIC_LEAF_IRQ_CAPACITY,
                forall|i: int|
                    0 <= i < leaf_records@.len() ==> #[trigger] leaf_records@[i]
                        == LinuxPlicLeafIrqRecord::spec_empty(),
            decreases LINUX_PLIC_LEAF_IRQ_CAPACITY - leaf_records@.len(),
        {
            leaf_records.push(LinuxPlicLeafIrqRecord::empty());
        }
        LinuxPlicShim {
            driver_registered: false,
            driver_ptr: 0,
            driver_matched: false,
            probe_entered: false,
            probe_return: None,
            membase: 0,
            source_count: 0,
            context_count: 0,
            context_id: 0,
            domain_ptr: 0,
            parent_irq: 0,
            chained_irq: 0,
            chained_handler: 0,
            chained_is_chained: 0,
            domain_ops: 0,
            domain_host_data: 0,
            event_seq: 0,
            initcall_seq: 0,
            driver_register_seq: 0,
            platform_match_seq: 0,
            probe_enter_seq: 0,
            probe_return_seq: 0,
            domain_instantiate_seq: 0,
            find_parent_domain_seq: 0,
            create_mapping_seq: 0,
            set_handler_seq: 0,
            cpuhp_seq: 0,
            syscore_seq: 0,
            of_iomap_calls: 0,
            of_irq_count_calls: 0,
            of_irq_parse_calls: 0,
            of_irq_parse_successes: 0,
            of_match_calls: 0,
            of_property_ndev_calls: 0,
            runtime_claim_count: 0,
            runtime_zero_claim_count: 0,
            runtime_dispatch_count: 0,
            runtime_complete_count: 0,
            runtime_loop_exit_count: 0,
            saved_rust_tp: 0,
            runtime_last_claimed_source: 0,
            runtime_last_completed_source: 0,
            chip_enable_count: 0,
            chip_disable_count: 0,
            chip_mask_count: 0,
            chip_unmask_count: 0,
            chip_eoi_count: 0,
            chip_callback_probe_successes: 0,
            heap_offset: 0,
            leaf_records,
        }
    }

    /// The next value of the event sequence, which orders the recorded events.
    pub fn next_event_seq(&mut self) -> (r: usize)
        ensures
            r == wrap_inc(old(self).event_seq),
            *final(self) == (LinuxPlicShim { event_seq: r, ..*old(self) }),
    {
        self.event_seq = increment(self.event_seq);
        self.event_seq
    }

    /// Notes the start of the Linux initcalls of level 6.
    pub fn note_initcall6(&mut self)
        ensures
            *final(self) == (LinuxPlicShim {
                event_seq: wrap_inc(old(self).event_seq),
                initcall_seq: wrap_inc(old(self).event_seq),
                ..*old(self)
            }),
    {
        let seq = self.next_event_seq();
        self.initcall_seq = seq;
    }

    /// Bump allocation from the shim heap: the offset of `size` zeroed bytes aligned to
    /// the power of two `align` (the caller zeroes them), or `None` when the request is
    /// malformed or the heap is exhausted.
    pub fn linux_plic_alloc(&mut self, size: usize, align: usize) -> (r: Option<usize>)
        requires
            old(self).wf(),
        ensures
            final(self).wf(),
            size == 0 || !is_pow2(align) ==> r is None && *final(self) == *old(self),
            size != 0 && is_pow2(align) ==> match checked_round_up_spec(old(self).heap_offset, align) {
                Some(aligned) => if aligned + size > LINUX_PLIC_HEAP_SIZE {
                    r is None && *final(self) == *old(self)
                } else {
                    r == Some(aligned) && *final(self) == (LinuxPlicShim {
                        heap_offset: (aligned + size) as usize,
                        ..*old(self)
                    })
                },
                None => r is None && *final(self) == *old(self),
            },
    {
        if size == 0 || !is_power_of_two(align) {
            return None;
        }
        let aligned = match checked_round_up(self.heap_offset, align) {
            Some(a) => a,
            None => {
                return None;
            },
        };
        let next = match aligned.checked_add(size) {
            Some(n) => n,
            None => {
                return None;
            },
        };
        if next > LINUX_PLIC_HEAP_SIZE {
            return None;
        }
        self.heap_offset = next;
        Some(aligned)
    }

    /// `kmalloc` for Linux code: word-aligned bytes from the shim heap.
    pub fn kmalloc(&mut self, size: usize) -> (r: Option<usize>)
        requires
            old(self).wf(),
        ensures
            final(self).wf(),
            size == 0 ==> r is None && *final(self) == *old(self),
            size != 0 ==> match checked_round_up_spec(old(self).heap_offset, LINUX_WORD_BYTES) {
                Some(aligned) => if aligned + size > LINUX_PLIC_HEAP_SIZE {
                    r is None && *final(self) == *old(self)
                } else {
                    r == Some(aligned) && *final(self) == (LinuxPlicShim {
                        heap_offset: (aligned + size) as usize,
                        ..*old(self)
                    })
                },
                None => r is None && *final(self) == *old(self),
            },
    {
        proof {
            assert(is_pow2(8usize)) by {
                vstd::arithmetic::power2::lemma2_to64();
            }
        }
        self.linux_plic_alloc(size, LINUX_WORD_BYTES)
    }

    /// `bitmap_zalloc` for Linux code: whole words for `nbits` bits.
    pub fn bitmap_zalloc(&mut self, nbits: usize) -> (r: Option<usize>)
        requires
            old(self).wf(),
        ensures
            final(self).wf(),
            ({
                let bytes = ((nbits + 63) / 64) * LINUX_WORD_BYTES;
                &&& bytes == 0 ==> r is None && *final(self) == *old(self)
                &&& bytes != 0 ==> match checked_round_up_spec(old(self).heap_offset, LINUX_WORD_BYTES) {
                    Some(aligned) => if aligned + bytes > LINUX_PLIC_HEAP_SIZE {
                        r is None && *final(self) == *old(self)
                    } else {
                        r == Some(aligned) && *final(self) == (LinuxPlicShim {
                            heap_offset: (aligned + bytes) as usize,
                            ..*old(self)
                        })
                    },
                    None => r is None && *final(self) == *old(self),
                }
            }),
    {
        let words = nbits / 64 + if nbits % 64 == 0 { 0 } else { 1 };
        assert(words == (nbits + 63) / 64);
        self.kmalloc(words * LINUX_WORD_BYTES)
    }
}

impl LinuxPlicShim {
    /// The first in-use leaf record with hardware interrupt `hwirq`.
    pub open spec fn spec_index_by_hwirq(&self, hwirq: u32) -> Option<int> {
        if exists|i: int| #[trigger] self.first_leaf_with(i, LeafKey::Hwirq(hwirq)) {
            Some(choose|i: int| #[trigger] self.first_leaf_with(i, LeafKey::Hwirq(hwirq)))
        } else {
            None
        }
    }

    /// The first in-use leaf record with Linux interrupt `virq`.
    pub open spec fn spec_index_by_virq(&self, virq: u32) -> Option<int> {
        if exists|i: int| #[trigger] self.first_leaf_with(i, LeafKey::Virq(virq)) {
            Some(choose|i: int| #[trigger] self.first_leaf_with(i, LeafKey::Virq(virq)))
        } else {
            None
        }
    }

    /// The first leaf record not in use.
    pub open spec fn spec_free_index(&self) -> Option<int> {
        if exists|i: int| #[trigger] self.first_leaf_with(i, LeafKey::Free) {
            Some(choose|i: int| #[trigger] self.first_leaf_with(i, LeafKey::Free))
        } else {
            None
        }
    }

    /// Record `i` is the first one that satisfies `p`.
    pub open spec fn first_leaf_with(&self, i: int, key: LeafKey) -> bool {
        &&& 0 <= i < self.leaf_records@.len()
        &&& key.matches(self.leaf_records@[i])
        &&& forall|j: int| 0 <= j < i ==> !key.matches(#[trigger] self.leaf_records@[j])
    }

    /// Where some leaf record matches `p`, a first one does.
    proof fn lemma_first_exists(&self, p: LeafKey, w: int)
        requires
            0 <= w < self.leaf_records@.len(),
            p.matches(self.leaf_records@[w]),
        ensures
            exists|i: int| #[trigger] self.first_leaf_with(i, p),
        decreases w,
    {
        if exists|j: int| 0 <= j < w && p.matches(#[trigger] self.leaf_records@[j]) {
            let j = choose|j: int| 0 <= j < w && p.matches(#[trigger] self.leaf_records@[j]);
            self.lemma_first_exists(p, j);
        } else {
            assert(self.first_leaf_with(w, p));
        }
    }

    proof fn lemma_first_unique(&self, p: LeafKey, a: int, b: int)
        requires
            self.first_leaf_with(a, p),
            self.first_leaf_with(b, p),
        ensures
            a == b,
    {
        if a < b {
            assert(!p.matches(self.leaf_records@[a]));
        } else if b < a {
            assert(!p.matches(self.leaf_records@[b]));
        }
    }

    pub fn linux_leaf_record_index_by_hwirq(&self, hwirq: u32) -> (r: Option<usize>)
        requires
            self.wf(),
        ensures
            r matches Some(i) ==> self.spec_index_by_hwirq(hwirq) == Some(i as int),
            r is None ==> self.spec_index_by_hwirq(hwirq) is None,
    {
        let ghost p: LeafKey = LeafKey::Hwirq(hwirq);
        let mut index: usize = 0;
        while index < LINUX_PLIC_LEAF_IRQ_CAPACITY
            invariant
                p == LeafKey::Hwirq(hwirq),
                self.wf(),
                index <= LINUX_PLIC_LEAF_IRQ_CAPACITY,
                forall|j: int| 0 <= j < index ==> !p.matches(#[trigger] self.leaf_records@[j]),
            decreases LINUX_PLIC_LEAF_IRQ_CAPACITY - index,
        {
            let record = self.leaf_records[index];
            if record.in_use && record.hwirq == hwirq {
                proof {
                    assert(self.first_leaf_with(index as int, p));
                    let c = choose|i: int| #[trigger] self.first_leaf_with(i, p);
                    self.lemma_first_unique(p, c, index as int);
                }
                return Some(index);
            }
            index += 1;
        }
        None
    }

    pub fn linux_leaf_record_index_by_virq(&self, virq: u32) -> (r: Option<usize>)
        requires
            self.wf(),
        ensures
            r matches Some(i) ==> self.spec_index_by_virq(virq) == Some(i as int),
            r is None ==> self.spec_index_by_virq(virq) is None,
    {
        let ghost p: LeafKey = LeafKey::Virq(virq);
        let mut index: usize = 0;
        while index < LINUX_PLIC_LEAF_IRQ_CAPACITY
            invariant
                p == LeafKey::Virq(virq),
                self.wf(),
                index <= LINUX_PLIC_LEAF_IRQ_CAPACITY,
                forall|j: int| 0 <= j < index ==> !p.matches(#[trigger] self.leaf_records@[j]),
            decreases LINUX_PLIC_LEAF_IRQ_CAPACITY - index,
        {
            let record = self.leaf_records[index];
            if record.in_use && record.virq == virq {
                proof {
                    assert(self.first_leaf_with(index as int, p));
                    let c = choose|i: int| #[trigger] self.first_leaf_with(i, p);
                    self.lemma_first_unique(p, c, index as int);
                }
                return Some(index);
            }
            index += 1;
        }
        None
    }

    pub fn leaf_free_index(&self) -> (r: Option<usize>)
        requires
            self.wf(),
        ensures
            r matches Some(i) ==> self.spec_free_index() == Some(i as int),
            r is None ==> self.spec_free_index() is None,
    {
        let ghost p: LeafKey = LeafKey::Free;
        let mut index: usize = 0;
        while index < LINUX_PLIC_LEAF_IRQ_CAPACITY
            invariant
                p == LeafKey::Free,
                self.wf(),
                index <= LINUX_PLIC_LEAF_IRQ_CAPACITY,
                forall|j: int| 0 <= j < index ==> !p.matches(#[trigger] self.leaf_records@[j]),
            decreases LINUX_PLIC_LEAF_IRQ_CAPACITY - index,
        {
            if !self.leaf_records[index].in_use {
                proof {
                    assert(self.first_leaf_with(index as int, p));
                    let c = choose|i: int| #[trigger] self.first_leaf_with(i, p);
                    self.lemma_first_unique(p, c, index as int);
                }
                return Some(index);
            }
            index += 1;
        }
        None
    }

    /// The record a store for (`virq`, `hwirq`) overwrites: the one already holding
    /// `hwirq`, else the one holding `virq`, else the first free one.
    pub open spec fn spec_store_index(&self, virq: u32, hwirq: u32) -> Option<int> {
        match self.spec_index_by_hwirq(hwirq) {
            Some(i) => Some(i),
            None => match self.spec_index_by_virq(virq) {
                Some(i) => Some(i),
                None => self.spec_free_index(),
            },
        }
    }

    /// Records the mapping of Linux interrupt `virq` to hardware interrupt `hwirq` with
    /// its chip and flow handler. Returns the record's index (whose descriptor the
    /// caller then prepares), or `None` when every record holds another interrupt.
    pub fn linux_store_leaf_irq_record(
        &mut self,
        virq: u32,
        hwirq: u32,
        chip: usize,
        flow_handler: usize,
    ) -> (r: Option<usize>)
        requires
            old(self).wf(),
        ensures
            final(self).wf(),
            r matches Some(i) ==> old(self).spec_store_index(virq, hwirq) == Some(i as int),
            r is None ==> old(self).spec_store_index(virq, hwirq) is None,
            r is None ==> *final(self) == *old(self),
            r matches Some(i) ==> final(self).leaf_records@ == old(self).leaf_records@.update(
                i as int,
                LinuxPlicLeafIrqRecord { in_use: true, virq, hwirq, chip, flow_handler },
            ),
            r matches Some(i) ==> *final(self) == (LinuxPlicShim {
                leaf_records: final(self).leaf_records,
                ..*old(self)
            }),
    {
        let index = match self.linux_leaf_record_index_by_hwirq(hwirq) {
            Some(i) => i,
            None => match self.linux_leaf_record_index_by_virq(virq) {
                Some(i) => i,
                None => match self.leaf_free_index() {
                    Some(i) => i,
                    None => {
                        return None;
                    },
                },
            },
        };
        let ghost before = *self;
        proof {
            let h = LeafKey::Hwirq(hwirq);
            if before.spec_index_by_hwirq(hwirq) is None {
                assert forall|j: int|
                    0 <= j < LINUX_PLIC_LEAF_IRQ_CAPACITY implies !h.matches(
                    #[trigger] before.leaf_records@[j],
                ) by {
                    if h.matches(before.leaf_records@[j]) {
                        before.lemma_first_exists(h, j);
                    }
                }
            } else {
                let c = choose|i: int| #[trigger] before.first_leaf_with(i, h);
                assert(before.first_leaf_with(c, h));
            }
        }
        self.leaf_records.set(
            index,
            LinuxPlicLeafIrqRecord { in_use: true, virq, hwirq, chip, flow_handler },
        );
        proof {
            assert forall|i: int, j: int|
                0 <= i < LINUX_PLIC_LEAF_IRQ_CAPACITY && 0 <= j < LINUX_PLIC_LEAF_IRQ_CAPACITY && i
                    != j && #[trigger] self.leaf_records@[i].in_use
                    && #[trigger] self.leaf_records@[j].in_use implies self.leaf_records@[i].hwirq
                != self.leaf_records@[j].hwirq by {
                if i != index && j != index {
                    assert(before.leaf_records@[i].in_use && before.leaf_records@[j].in_use);
                } else if i == index {
                    assert(before.leaf_records@[j].in_use);
                } else {
                    assert(before.leaf_records@[i].in_use);
                }
            }
        }
        Some(index)
    }

    /// `irq_domain_set_info` from Linux: records a leaf mapping on the PLIC domain.
    /// Returns the index of the record written, or `None` when the call is refused or no
    /// record is free.
    pub fn irq_domain_set_info(
        &mut self,
        domain: usize,
        virq: u32,
        hwirq: usize,
        chip: usize,
        handler: usize,
    ) -> (r: Option<usize>)
        requires
            old(self).wf(),
        ensures
            final(self).wf(),
            domain == 0 || domain != old(self).domain_ptr || virq == 0 || hwirq == 0 || chip == 0
                || handler == 0 || hwirq > u32::MAX ==> r is None && *final(self) == *old(self),
            !(domain == 0 || domain != old(self).domain_ptr || virq == 0 || hwirq == 0 || chip == 0
                || handler == 0 || hwirq > u32::MAX) ==> {
                &&& r matches Some(i) ==> old(self).spec_store_index(virq, hwirq as u32) == Some(
                    i as int,
                ) && final(self).leaf_records@ == old(self).leaf_records@.update(
                    i as int,
                    LinuxPlicLeafIrqRecord {
                        in_use: true,
                        virq,
                        hwirq: hwirq as u32,
                        chip,
                        flow_handler: handler,
                    },
                )
                &&& r is None ==> old(self).spec_store_index(virq, hwirq as u32) is None
                    && *final(self) == *old(self)
            },
    {
        if domain == 0 || domain != self.domain_ptr || virq == 0 || hwirq == 0 || chip == 0
            || handler == 0 || hwirq > u32::MAX as usize {
            return None;
        }
        self.linux_store_leaf_irq_record(virq, hwirq as u32, chip, handler)
    }

    /// `irq_get_irq_data` from Linux: the descriptor whose data belongs to `irq`.
    pub fn irq_get_irq_data(&self, irq: u32) -> (r: IrqDataTarget)
        requires
            self.wf(),
        ensures
            self.parent_irq != 0 && irq as usize == self.parent_irq ==> r == IrqDataTarget::Parent,
            !(self.parent_irq != 0 && irq as usize == self.parent_irq) ==> match self.spec_index_by_virq(irq) {
                Some(i) => r == IrqDataTarget::Leaf(i as usize),
                None => r == IrqDataTarget::Unknown,
            },
    {
        if self.parent_irq != 0 && irq as usize == self.parent_irq {
            return IrqDataTarget::Parent;
        }
        match self.linux_leaf_record_index_by_virq(irq) {
            Some(i) => IrqDataTarget::Leaf(i),
            None => IrqDataTarget::Unknown,
        }
    }

    /// `irq_create_mapping_affinity` from Linux: the parent interrupt number for `hwirq`
    /// (the external interrupt keeps its number; others are offset by 32, and 0 when
    /// that does not fit in `u32`), recorded as the parent interrupt.
    pub fn irq_create_mapping_affinity(&mut self, hwirq: usize) -> (r: u32)
        ensures
            r == (if hwirq == LINUX_RV_IRQ_EXT as usize {
                9
            } else if 32 + hwirq > usize::MAX {
                if usize::MAX <= u32::MAX { usize::MAX as u32 } else { 0 }
            } else if 32 + hwirq <= u32::MAX {
                (32 + hwirq) as u32
            } else {
                0
            }),
            *final(self) == (LinuxPlicShim {
                event_seq: wrap_inc(old(self).event_seq),
                create_mapping_seq: wrap_inc(old(self).event_seq),
                parent_irq: r as usize,
                ..*old(self)
            }),
    {
        let seq = self.next_event_seq();
        self.create_mapping_seq = seq;
        let irq: u32 = if hwirq == LINUX_RV_IRQ_EXT as usize {
            9
        } else {
            let sum = if hwirq > usize::MAX - 32 { usize::MAX } else { 32 + hwirq };
            if sum <= u32::MAX as usize {
                sum as u32
            } else {
                0
            }
        };
        self.parent_irq = irq as usize;
        irq
    }
}

/// Which leaf records a search looks for.
#[derive(Clone, Copy, PartialEq, Eq, Structural, Debug)]
pub enum LeafKey {
    Hwirq(u32),
    Virq(u32),
    Free,
}

impl LeafKey {
    pub open spec fn matches(self, r: LinuxPlicLeafIrqRecord) -> bool {
        match self {
            LeafKey::Hwirq(h) => r.in_use && r.hwirq == h,
            LeafKey::Virq(v) => r.in_use && r.virq == v,
            LeafKey::Free => !r.in_use,
        }
    }
}

/// Whose interrupt data an `irq_get_irq_data` call names.
#[derive(Clone, Copy, PartialEq, Eq, Structural, Debug)]
pub enum IrqDataTarget {
    Parent,
    Leaf(usize),
    Unknown,
}

/// The error of a refused step of bringing the Linux PLIC driver up.
pub open spec fn plic_setup_error() -> EventError {
    condition_error(LifecycleEvent::Setup, State::Base, State::Ready, State::Ready)
}

/// The number of initcall entries between `start` and `end`, or `None` when the
/// section is absent or not a whole number of entries.
pub fn initcall_count(start: usize, end: usize, entry_size: usize) -> (r: Option<usize>)
    ensures
        start == 0 || end <= start || entry_size == 0 || (end - start) % (entry_size as int) != 0
            ==> r is None,
        !(start == 0 || end <= start || entry_size == 0 || (end - start) % (entry_size as int)
            != 0) ==> r == Some(((end - start) / (entry_size as int)) as usize),
{
    if start == 0 || end <= start || entry_size == 0 || (end - start) % entry_size != 0 {
        return None;
    }
    Some((end - start) / entry_size)
}

impl LinuxPlicShim {
    /// The conditions under which the registered driver is probed on the PLIC node.
    pub open spec fn probe_allowed(
        &self,
        node: &PlicNodeView,
        plic: PlicInstanceView,
        driver: &Option<LinuxDriverView>,
    ) -> bool {
        &&& node.spec_node_source_count() is Some
        &&& node.spec_node_context_count() is Some
        &&& self.driver_ptr != 0
        &&& driver is Some
        &&& node.spec_available()
        &&& plic.membase != 0
        &&& plic.source_count != 0
        &&& match driver {
            Some(d) => match d.of_match_table {
                Some(t) => spec_match_index(t@) is Some,
                None => false,
            },
            None => false,
        }
        &&& driver->0.probe != 0
    }

    /// Matches the registered driver against the PLIC node and, when it matches, records
    /// the PLIC's facts and the entry into the probe. Returns the probe function, which
    /// the caller then calls and reports with `platform_driver_probe_returned`. `driver`
    /// is what the registered driver holds (`None` when none is registered).
    pub fn platform_driver_match_and_probe(
        &mut self,
        node: &PlicNodeView,
        plic: PlicInstanceView,
        driver: &Option<LinuxDriverView>,
    ) -> (r: Result<usize, EventError>)
        ensures
            !old(self).probe_allowed(node, plic, driver) ==> r == Err::<usize, EventError>(
                plic_setup_error(),
            ) && *final(self) == *old(self),
            old(self).probe_allowed(node, plic, driver) ==> r == Ok::<usize, EventError>(
                driver->0.probe,
            ) && *final(self) == (LinuxPlicShim {
                membase: plic.membase,
                source_count: node.spec_node_source_count()->0 as usize,
                context_count: node.spec_node_context_count()->0,
                context_id: plic.context_id,
                driver_matched: true,
                probe_entered: true,
                event_seq: wrap_inc(wrap_inc(old(self).event_seq)),
                platform_match_seq: wrap_inc(old(self).event_seq),
                probe_enter_seq: wrap_inc(wrap_inc(old(self).event_seq)),
                ..*old(self)
            }),
    {
        let source_count = match node.plic_node_source_count() {
            Some(c) => c,
            None => {
                return Err(EventError::failed(
                    crate::state::EventErrorCode::ConditionFailed,
                    LifecycleEvent::Setup,
                    State::Base,
                    State::Ready,
                    State::Ready,
                ));
            },
        };
        let context_count = match node.plic_node_context_count() {
            Some(c) => c,
            None => {
                return Err(EventError::failed(
                    crate::state::EventErrorCode::ConditionFailed,
                    LifecycleEvent::Setup,
                    State::Base,
                    State::Ready,
                    State::Ready,
                ));
            },
        };
        let d = match driver {
            Some(d) => d,
            None => {
                return Err(EventError::failed(
                    crate::state::EventErrorCode::ConditionFailed,
                    LifecycleEvent::Setup,
                    State::Base,
                    State::Ready,
                    State::Ready,
                ));
            },
        };
        if self.driver_ptr == 0 || !node.plic_node_available() || plic.membase == 0
            || plic.source_count == 0 || !driver_matches_qemu_plic(&d.of_match_table)
            || d.probe == 0 {
            return Err(EventError::failed(
                crate::state::EventErrorCode::ConditionFailed,
                LifecycleEvent::Setup,
                State::Base,
                State::Ready,
                State::Ready,
            ));
        }
        self.membase = plic.membase;
        self.source_count = source_count as usize;
        self.context_count = context_count;
        self.context_id = plic.context_id;
        self.driver_matched = true;
        self.probe_entered = true;
        let s1 = self.next_event_seq();
        self.platform_match_seq = s1;
        let s2 = self.next_event_seq();
        self.probe_enter_seq = s2;
        Ok(d.probe)
    }

    /// Records what the driver's probe returned; the probe succeeded when it returned 0. A
    /// return of -1 shares its stored form with "no return yet", so it is recorded as none.
    pub fn platform_driver_probe_returned(&mut self, ret: i32) -> (r: EventResult)
        ensures
            ret == 0 ==> r == Ok::<(), EventError>(()),
            ret != 0 ==> r == Err::<(), EventError>(plic_setup_error()),
            *final(self) == (LinuxPlicShim {
                probe_return: if ret == -1 {
                    None
                } else {
                    Some(ret)
                },
                event_seq: wrap_inc(old(self).event_seq),
                probe_return_seq: wrap_inc(old(self).event_seq),
                ..*old(self)
            }),
    {
        self.probe_return = if ret == -1 {
            None
        } else {
            Some(ret)
        };
        let seq = self.next_event_seq();
        self.probe_return_seq = seq;
        if ret != 0 {
            return failed_condition(LifecycleEvent::Setup, State::Base, State::Ready, State::Ready);
        }
        Ok(())
    }

    /// `__platform_driver_register` from Linux: 0 once the driver at `driver` is
    /// recorded, -1 for a null driver.
    pub fn platform_driver_register(&mut self, driver: usize) -> (r: i32)
        ensures
            driver == 0 ==> r == -1 && *final(self) == *old(self),
            driver != 0 ==> r == 0 && *final(self) == (LinuxPlicShim {
                driver_ptr: driver,
                driver_registered: true,
                event_seq: wrap_inc(old(self).event_seq),
                driver_register_seq: wrap_inc(old(self).event_seq),
                ..*old(self)
            }),
    {
        if driver == 0 {
            return -1;
        }
        self.driver_ptr = driver;
        self.driver_registered = true;
        let seq = self.next_event_seq();
        self.driver_register_seq = seq;
        0
    }

    pub fn platform_driver_registered(&self) -> (r: bool)
        ensures
            r == self.driver_registered,
    {
        self.driver_registered
    }

    /// `irq_domain_instantiate` from Linux. `info` holds the fwnode, ops and host data
    /// read from the domain info (`None` for a null info); `domain` is the address of the
    /// shim's domain. Returns the domain, or 0, and the caller writes the ops and host
    /// data into the returned domain.
    pub fn irq_domain_instantiate(&mut self, info: Option<(usize, usize, usize)>, domain: usize) -> (r: usize)
        ensures
            info is None ==> r == 0 && *final(self) == *old(self),
            info matches Some((fwnode, ops, host_data)) ==> {
                &&& fwnode == 0 ==> r == 0 && *final(self) == (LinuxPlicShim {
                    event_seq: wrap_inc(old(self).event_seq),
                    domain_instantiate_seq: wrap_inc(old(self).event_seq),
                    domain_ptr: domain,
                    ..*old(self)
                })
                &&& fwnode != 0 ==> r == domain && *final(self) == (LinuxPlicShim {
                    event_seq: wrap_inc(old(self).event_seq),
                    domain_instantiate_seq: wrap_inc(old(self).event_seq),
                    domain_ptr: domain,
                    domain_ops: ops,
                    domain_host_data: host_data,
                    ..*old(self)
                })
            },
    {
        let (fwnode, ops, host_data) = match info {
            Some(i) => i,
            None => {
                return 0;
            },
        };
        let seq = self.next_event_seq();
        self.domain_instantiate_seq = seq;
        self.domain_ptr = domain;
        if fwnode == 0 {
            return 0;
        }
        self.domain_ops = ops;
        self.domain_host_data = host_data;
        domain
    }

    /// `__irq_set_handler` from Linux: records the chained handler of `irq`.
    pub fn irq_set_handler(&mut self, irq: u32, handler: usize, is_chained: usize)
        ensures
            *final(self) == (LinuxPlicShim {
                event_seq: wrap_inc(old(self).event_seq),
                set_handler_seq: wrap_inc(old(self).event_seq),
                chained_irq: irq as usize,
                chained_handler: handler,
                chained_is_chained: is_chained,
                ..*old(self)
            }),
    {
        let seq = self.next_event_seq();
        self.set_handler_seq = seq;
        self.chained_irq = irq as usize;
        self.chained_handler = handler;
        self.chained_is_chained = is_chained;
    }

    /// `__cpuhp_setup_state` from Linux: records the call; whether the startup
    /// callback is to be run on the boot CPU (the caller runs it and returns its result).
    pub fn cpuhp_setup_state(&mut self, invoke: bool, startup: usize) -> (r: bool)
        ensures
            r == (invoke && startup != 0),
            *final(self) == (LinuxPlicShim {
                event_seq: wrap_inc(old(self).event_seq),
                cpuhp_seq: wrap_inc(old(self).event_seq),
                ..*old(self)
            }),
    {
        let seq = self.next_event_seq();
        self.cpuhp_seq = seq;
        invoke && startup != 0
    }

    /// `register_syscore_ops` from Linux: recorded, and always accepted.
    pub fn register_syscore_ops(&mut self) -> (r: i32)
        ensures
            r == 0,
            *final(self) == (LinuxPlicShim {
                event_seq: wrap_inc(old(self).event_seq),
                syscore_seq: wrap_inc(old(self).event_seq),
                ..*old(self)
            }),
    {
        let seq = self.next_event_seq();
        self.syscore_seq = seq;
        0
    }

    /// `irq_find_matching_fwspec` from Linux: recorded; the caller returns the parent
    /// interrupt-controller domain.
    pub fn irq_find_matching_fwspec(&mut self)
        ensures
            *final(self) == (LinuxPlicShim {
                event_seq: wrap_inc(old(self).event_seq),
                find_parent_domain_seq: wrap_inc(old(self).event_seq),
                ..*old(self)
            }),
    {
        let seq = self.next_event_seq();
        self.find_parent_domain_seq = seq;
    }

    /// `of_iomap` from Linux: the PLIC's registers for index 0, null otherwise.
    pub fn of_iomap(&mut self, index: i32) -> (r: usize)
        ensures
            r == (if index == 0 { old(self).membase } else { 0 }),
            *final(self) == (LinuxPlicShim {
                of_iomap_calls: wrap_inc(old(self).of_iomap_calls),
                ..*old(self)
            }),
    {
        self.of_iomap_calls = increment(self.of_iomap_calls);
        if index != 0 {
            return 0;
        }
        self.membase
    }

    /// `of_irq_count` from Linux: the number of PLIC contexts, or 0 when it does not
    /// fit in `i32`.
    pub fn of_irq_count(&mut self) -> (r: i32)
        ensures
            r == (if old(self).context_count <= i32::MAX { old(self).context_count as i32 } else { 0 }),
            *final(self) == (LinuxPlicShim {
                of_irq_count_calls: wrap_inc(old(self).of_irq_count_calls),
                ..*old(self)
            }),
    {
        self.of_irq_count_calls = increment(self.of_irq_count_calls);
        if self.context_count <= i32::MAX as usize {
            self.context_count as i32
        } else {
            0
        }
    }

    /// `of_irq_parse_one` from Linux: succeeds (0) only for this hart's context, whose
    /// parent is the external interrupt; -1 otherwise. The caller fills the output.
    pub fn of_irq_parse_one(&mut self, index: i32, out_present: bool) -> (r: i32)
        ensures
            ({
                let ok = out_present && index >= 0 && index as int == old(self).context_id;
                &&& r == (if ok { 0i32 } else { -1i32 })
                &&& *final(self) == (LinuxPlicShim {
                    of_irq_parse_calls: wrap_inc(old(self).of_irq_parse_calls),
                    of_irq_parse_successes: if ok {
                        wrap_inc(old(self).of_irq_parse_successes)
                    } else {
                        old(self).of_irq_parse_successes
                    },
                    ..*old(self)
                })
            }),
    {
        self.of_irq_parse_calls = increment(self.of_irq_parse_calls);
        if !out_present || index < 0 || index as usize != self.context_id {
            return -1;
        }
        self.of_irq_parse_successes = increment(self.of_irq_parse_successes);
        0
    }

    /// `of_match_node` from Linux: the index of the PLIC entry of a match table.
    pub fn of_match_node(&mut self, entries: &Vec<Vec<u8>>) -> (r: Option<usize>)
        ensures
            r matches Some(k) ==> spec_match_index(entries@) == Some(k as int),
            r is None ==> spec_match_index(entries@) is None,
            *final(self) == (LinuxPlicShim {
                of_match_calls: wrap_inc(old(self).of_match_calls),
                ..*old(self)
            }),
    {
        self.of_match_calls = increment(self.of_match_calls);
        of_match_index(entries)
    }

    /// `of_property_read_variable_u32_array` from Linux: only `riscv,ndev` is known,
    /// and reads as the source count (truncated to `u32`). Returns the count of values
    /// read (1) with the value, or -22.
    pub fn of_property_read_variable_u32_array(&mut self, propname: &[u8], sz_min: usize) -> (r: (i32, u32))
        ensures
            sz_min != 0 && cstr(propname@) == riscv_ndev_name() ==> r == (
                1i32,
                old(self).source_count as u32,
            ) && *final(self) == (LinuxPlicShim {
                of_property_ndev_calls: wrap_inc(old(self).of_property_ndev_calls),
                ..*old(self)
            }),
            !(sz_min != 0 && cstr(propname@) == riscv_ndev_name()) ==> r.0 == LINUX_EINVAL
                && *final(self) == *old(self),
    {
        if sz_min == 0 {
            return (LINUX_EINVAL, 0);
        }
        let len = cstr_len(propname);
        let name = vstd::slice::slice_subrange(propname, 0, len);
        let ndev: Vec<u8> = vec![114u8, 105, 115, 99, 118, 44, 110, 100, 101, 118];
        assert(ndev@ =~= riscv_ndev_name());
        assert(name@ =~= cstr(propname@));
        if bytes_equal(name, ndev.as_slice()) {
            self.of_property_ndev_calls = increment(self.of_property_ndev_calls);
            return (1, self.source_count as u32);
        }
        (LINUX_EINVAL, 0)
    }

    /// `generic_handle_domain_irq` from Linux, up to the lookup of the interrupt: the
    /// claim of `hwirq` on the PLIC domain is counted and its source returned, or -22
    /// for another domain or a bad interrupt.
    pub fn claim_domain_irq(&mut self, domain: usize, hwirq: usize) -> (r: Result<u32, i32>)
        ensures
            domain == 0 || domain != old(self).domain_ptr || hwirq == 0 || hwirq > u32::MAX
                ==> r == Err::<u32, i32>(LINUX_EINVAL) && *final(self) == *old(self),
            !(domain == 0 || domain != old(self).domain_ptr || hwirq == 0 || hwirq > u32::MAX)
                ==> r == Ok::<u32, i32>(hwirq as u32) && *final(self) == (LinuxPlicShim {
                runtime_claim_count: wrap_inc(old(self).runtime_claim_count),
                runtime_last_claimed_source: hwirq as u32,
                ..*old(self)
            }),
    {
        if domain == 0 || domain != self.domain_ptr || hwirq == 0 || hwirq > u32::MAX as usize {
            return Err(LINUX_EINVAL);
        }
        self.runtime_claim_count = increment(self.runtime_claim_count);
        self.runtime_last_claimed_source = hwirq as u32;
        Ok(hwirq as u32)
    }

    /// The flow handler to run for leaf record `index`, or -22 when it has none.
    pub fn leaf_flow_handler(&self, index: usize) -> (r: Result<usize, i32>)
        requires
            self.wf(),
            index < LINUX_PLIC_LEAF_IRQ_CAPACITY,
        ensures
            self.leaf_records@[index as int].flow_handler == 0 ==> r == Err::<usize, i32>(
                LINUX_EINVAL,
            ),
            self.leaf_records@[index as int].flow_handler != 0 ==> r == Ok::<usize, i32>(
                self.leaf_records@[index as int].flow_handler,
            ),
    {
        let handler = self.leaf_records[index].flow_handler;
        if handler == 0 {
            return Err(LINUX_EINVAL);
        }
        Ok(handler)
    }

    /// Counts a chip callback that ran.
    pub fn note_chip_callback(&mut self, slot: LinuxIrqChipCallbackSlot)
        ensures
            *final(self) == match slot {
                LinuxIrqChipCallbackSlot::Enable => LinuxPlicShim {
                    chip_enable_count: wrap_inc(old(self).chip_enable_count),
                    ..*old(self)
                },
                LinuxIrqChipCallbackSlot::Disable => LinuxPlicShim {
                    chip_disable_count: wrap_inc(old(self).chip_disable_count),
                    ..*old(self)
                },
                LinuxIrqChipCallbackSlot::Mask => LinuxPlicShim {
                    chip_mask_count: wrap_inc(old(self).chip_mask_count),
                    ..*old(self)
                },
                LinuxIrqChipCallbackSlot::Unmask => LinuxPlicShim {
                    chip_unmask_count: wrap_inc(old(self).chip_unmask_count),
                    ..*old(self)
                },
                LinuxIrqChipCallbackSlot::Eoi => LinuxPlicShim {
                    chip_eoi_count: wrap_inc(old(self).chip_eoi_count),
                    ..*old(self)
                },
            },
    {
        match slot {
            LinuxIrqChipCallbackSlot::Enable => {
                self.chip_enable_count = increment(self.chip_enable_count);
            },
            LinuxIrqChipCallbackSlot::Disable => {
                self.chip_disable_count = increment(self.chip_disable_count);
            },
            LinuxIrqChipCallbackSlot::Mask => {
                self.chip_mask_count = increment(self.chip_mask_count);
            },
            LinuxIrqChipCallbackSlot::Unmask => {
                self.chip_unmask_count = increment(self.chip_unmask_count);
            },
            LinuxIrqChipCallbackSlot::Eoi => {
                self.chip_eoi_count = increment(self.chip_eoi_count);
            },
        }
    }

    /// Counts a probe of the UART's leaf chip callbacks in which all four ran.
    pub fn note_uart_callback_probe(&mut self, callbacks_ok: bool) -> (r: bool)
        ensures
            r == callbacks_ok,
            callbacks_ok ==> *final(self) == (LinuxPlicShim {
                chip_callback_probe_successes: wrap_inc(old(self).chip_callback_probe_successes),
                ..*old(self)
            }),
            !callbacks_ok ==> *final(self) == *old(self),
    {
        if callbacks_ok {
            self.chip_callback_probe_successes = increment(self.chip_callback_probe_successes);
        }
        callbacks_ok
    }

    /// The accounting of `handle_fasteoi_irq` for leaf record `index`: an end of
    /// interrupt that ran completes its source, a dispatch is counted.
    pub fn note_fasteoi(&mut self, index: usize, eoi_ok: bool, dispatched: bool)
        requires
            old(self).wf(),
            index < LINUX_PLIC_LEAF_IRQ_CAPACITY,
        ensures
            final(self).wf(),
            *final(self) == (LinuxPlicShim {
                runtime_complete_count: if eoi_ok {
                    wrap_inc(old(self).runtime_complete_count)
                } else {
                    old(self).runtime_complete_count
                },
                runtime_last_completed_source: if eoi_ok {
                    old(self).leaf_records@[index as int].hwirq
                } else {
                    old(self).runtime_last_completed_source
                },
                runtime_dispatch_count: if dispatched {
                    wrap_inc(old(self).runtime_dispatch_count)
                } else {
                    old(self).runtime_dispatch_count
                },
                ..*old(self)
            }),
    {
        if eoi_ok {
            self.runtime_complete_count = increment(self.runtime_complete_count);
            self.runtime_last_completed_source = self.leaf_records[index].hwirq;
        }
        if dispatched {
            self.runtime_dispatch_count = increment(self.runtime_dispatch_count);
        }
    }

    /// The accounting after a chained parent handler returned.
    pub fn note_chained_handler_return(&mut self)
        ensures
            old(self).wf() ==> final(self).wf(),
            *final(self) == (LinuxPlicShim {
                runtime_zero_claim_count: wrap_inc(old(self).runtime_zero_claim_count),
                runtime_loop_exit_count: wrap_inc(old(self).runtime_loop_exit_count),
                ..*old(self)
            }),
    {
        self.runtime_zero_claim_count = increment(self.runtime_zero_claim_count);
        self.runtime_loop_exit_count = increment(self.runtime_loop_exit_count);
    }

    /// The thread pointer to restore after a call into Linux: the current one, unless
    /// it is Linux's own thread info, in which case the one saved before.
    pub fn current_rust_tp_for_linux_call(&self, current_tp: usize, thread_info_addr: usize) -> (r: usize)
        ensures
            r == (if current_tp != thread_info_addr { current_tp } else { self.saved_rust_tp }),
    {
        if current_tp != thread_info_addr {
            return current_tp;
        }
        self.saved_rust_tp
    }

    /// Saves a kernel thread pointer, ignoring 0 and Linux's own thread info.
    pub fn remember_rust_tp(&mut self, tp: usize, thread_info_addr: usize)
        ensures
            tp != 0 && tp != thread_info_addr ==> *final(self) == (LinuxPlicShim {
                saved_rust_tp: tp,
                ..*old(self)
            }),
            !(tp != 0 && tp != thread_info_addr) ==> *final(self) == *old(self),
    {
        if tp != 0 && tp != thread_info_addr {
            self.saved_rust_tp = tp;
        }
    }

    pub open spec fn spec_boundary_facts(&self, a: LinuxPlicAddresses) -> LinuxPlicBoundaryFacts {
        LinuxPlicBoundaryFacts {
            initcall_seq: self.initcall_seq,
            driver_register_seq: self.driver_register_seq,
            platform_match_seq: self.platform_match_seq,
            probe_enter_seq: self.probe_enter_seq,
            probe_return_seq: self.probe_return_seq,
            domain_instantiate_seq: self.domain_instantiate_seq,
            find_parent_domain_seq: self.find_parent_domain_seq,
            create_mapping_seq: self.create_mapping_seq,
            set_handler_seq: self.set_handler_seq,
            cpuhp_seq: self.cpuhp_seq,
            syscore_seq: self.syscore_seq,
            driver_registered: self.driver_registered,
            driver_matched: self.driver_matched,
            probe_entered: self.probe_entered,
            probe_return: self.probe_return,
            driver_ptr: self.driver_ptr,
            probe_ptr: if self.driver_ptr == 0 { 0 } else { a.driver_probe_ptr },
            platform_device_ptr: a.platform_device_ptr,
            fwnode_ptr: a.fwnode_ptr,
            fwnode_ops_ptr: a.fwnode_ops_ptr,
            expected_fwnode_ops_ptr: a.expected_fwnode_ops_ptr,
            membase: self.membase,
            source_count: self.source_count,
            context_count: self.context_count,
            context_id: self.context_id,
            domain_ptr: self.domain_ptr,
            domain_ops: self.domain_ops,
            domain_host_data: self.domain_host_data,
            parent_irq: self.parent_irq,
            chained_irq: self.chained_irq,
            chained_handler: self.chained_handler,
            chained_is_chained: self.chained_is_chained,
            thread_info_base: a.thread_info_base,
            thread_info_cpu: a.thread_info_cpu,
            per_cpu_offset0: a.per_cpu_offset0,
            of_iomap_calls: self.of_iomap_calls,
            of_irq_count_calls: self.of_irq_count_calls,
            of_irq_parse_calls: self.of_irq_parse_calls,
            of_irq_parse_successes: self.of_irq_parse_successes,
            of_match_calls: self.of_match_calls,
            of_property_ndev_calls: self.of_property_ndev_calls,
            heap_used: self.heap_offset,
            chip_enable_count: self.chip_enable_count,
            chip_disable_count: self.chip_disable_count,
            chip_mask_count: self.chip_mask_count,
            chip_unmask_count: self.chip_unmask_count,
            chip_eoi_count: self.chip_eoi_count,
            chip_callback_probe_successes: self.chip_callback_probe_successes,
        }
    }

    /// Everything the shim recorded, with the addresses only memory holds.
    pub fn boundary_facts(&self, a: LinuxPlicAddresses) -> (r: LinuxPlicBoundaryFacts)
        ensures
            r == self.spec_boundary_facts(a),
    {
        LinuxPlicBoundaryFacts {
            initcall_seq: self.initcall_seq,
            driver_register_seq: self.driver_register_seq,
            platform_match_seq: self.platform_match_seq,
            probe_enter_seq: self.probe_enter_seq,
            probe_return_seq: self.probe_return_seq,
            domain_instantiate_seq: self.domain_instantiate_seq,
            find_parent_domain_seq: self.find_parent_domain_seq,
            create_mapping_seq: self.create_mapping_seq,
            set_handler_seq: self.set_handler_seq,
            cpuhp_seq: self.cpuhp_seq,
            syscore_seq: self.syscore_seq,
            driver_registered: self.driver_registered,
            driver_matched: self.driver_matched,
            probe_entered: self.probe_entered,
            probe_return: self.probe_return,
            driver_ptr: self.driver_ptr,
            probe_ptr: if self.driver_ptr == 0 { 0 } else { a.driver_probe_ptr },
            platform_device_ptr: a.platform_device_ptr,
            fwnode_ptr: a.fwnode_ptr,
            fwnode_ops_ptr: a.fwnode_ops_ptr,
            expected_fwnode_ops_ptr: a.expected_fwnode_ops_ptr,
            membase: self.membase,
            source_count: self.source_count,
            context_count: self.context_count,
            context_id: self.context_id,
            domain_ptr: self.domain_ptr,
            domain_ops: self.domain_ops,
            domain_host_data: self.domain_host_data,
            parent_irq: self.parent_irq,
            chained_irq: self.chained_irq,
            chained_handler: self.chained_handler,
            chained_is_chained: self.chained_is_chained,
            thread_info_base: a.thread_info_base,
            thread_info_cpu: a.thread_info_cpu,
            per_cpu_offset0: a.per_cpu_offset0,
            of_iomap_calls: self.of_iomap_calls,
            of_irq_count_calls: self.of_irq_count_calls,
            of_irq_parse_calls: self.of_irq_parse_calls,
            of_irq_parse_successes: self.of_irq_parse_successes,
            of_match_calls: self.of_match_calls,
            of_property_ndev_calls: self.of_property_ndev_calls,
            heap_used: self.heap_offset,
            chip_enable_count: self.chip_enable_count,
            chip_disable_count: self.chip_disable_count,
            chip_mask_count: self.chip_mask_count,
            chip_unmask_count: self.chip_unmask_count,
            chip_eoi_count: self.chip_eoi_count,
            chip_callback_probe_successes: self.chip_callback_probe_successes,
        }
    }
}

/// The property name `riscv,ndev`.
pub open spec fn riscv_ndev_name() -> Seq<u8> {
    seq![114u8, 105, 115, 99, 118, 44, 110, 100, 101, 118]
}

/// `irq_domain_translate_onecell` from Linux: the hardware interrupt is the first
/// parameter of the specifier, of type 0; -22 for a specifier without parameters.
pub fn irq_domain_translate_onecell(param_count: i32, param0: u32) -> (r: Result<(usize, u32), i32>)
    ensures
        param_count < 1 ==> r == Err::<(usize, u32), i32>(LINUX_EINVAL),
        param_count >= 1 ==> r == Ok::<(usize, u32), i32>((param0 as usize, 0u32)),
{
    if param_count < 1 {
        return Err(LINUX_EINVAL);
    }
    Ok((param0 as usize, 0))
}

/// `riscv_hartid_to_cpuid` from Linux: only hart 0 is known, as CPU 0.
pub fn riscv_hartid_to_cpuid(hartid: usize) -> (r: i32)
    ensures
        r == (if hartid == 0 { 0i32 } else { -1i32 }),
{
    if hartid == 0 {
        0
    } else {
        -1
    }
}

impl LinuxPlicShim {
    /// The registered driver's probe function (`driver_probe`, read from the driver),
    /// or 0 when no driver is registered.
    pub fn platform_driver_probe_ptr(&self, driver_probe: usize) -> (r: usize)
        ensures
            r == (if self.driver_ptr == 0 { 0 } else { driver_probe }),
    {
        if self.driver_ptr == 0 {
            0
        } else {
            driver_probe
        }
    }

    pub fn runtime_claim_count(&self) -> (r: usize)
        ensures
            r == self.runtime_claim_count,
    {
        self.runtime_claim_count
    }

    pub fn runtime_zero_claim_count(&self) -> (r: usize)
        ensures
            r == self.runtime_zero_claim_count,
    {
        self.runtime_zero_claim_count
    }

    pub fn runtime_dispatch_count(&self) -> (r: usize)
        ensures
            r == self.runtime_dispatch_count,
    {
        self.runtime_dispatch_count
    }

    pub fn runtime_complete_count(&self) -> (r: usize)
        ensures
            r == self.runtime_complete_count,
    {
        self.runtime_complete_count
    }

    pub fn runtime_loop_exit_count(&self) -> (r: usize)
        ensures
            r == self.runtime_loop_exit_count,
    {
        self.runtime_loop_exit_count
    }

    pub fn runtime_last_claimed_source(&self) -> (r: u32)
        ensures
            r == self.runtime_last_claimed_source,
    {
        self.runtime_last_claimed_source
    }

    pub fn runtime_last_completed_source(&self) -> (r: u32)
        ensures
            r == self.runtime_last_completed_source,
    {
        self.runtime_last_completed_source
    }

    /// The chained handler to run for an external interrupt, if one was set.
    pub fn handle_external_interrupt(&self) -> (r: Option<usize>)
        ensures
            r == (if self.chained_handler == 0 { None } else { Some(self.chained_handler) }),
    {
        if self.chained_handler == 0 {
            None
        } else {
            Some(self.chained_handler)
        }
    }

    /// Whether the domain's allocation callback may be called: a domain and recorded
    /// operations are needed; -22 otherwise.
    pub fn domain_alloc_allowed(&self, domain: usize) -> (r: Result<usize, i32>)
        ensures
            domain == 0 || self.domain_ops == 0 ==> r == Err::<usize, i32>(LINUX_EINVAL),
            !(domain == 0 || self.domain_ops == 0) ==> r == Ok::<usize, i32>(self.domain_ops),
    {
        if domain == 0 || self.domain_ops == 0 {
            return Err(LINUX_EINVAL);
        }
        Ok(self.domain_ops)
    }
}

/// The Linux interrupt number under which a PLIC source is enabled: none for source 0,
/// an invalid logical interrupt, or one that does not fit in `u32`.
pub fn mapped_source_virq(source: u32, logical_irq: usize, logical_irq_valid: bool) -> (r: Option<u32>)
    ensures
        source == 0 || !logical_irq_valid || logical_irq > u32::MAX ==> r is None,
        !(source == 0 || !logical_irq_valid || logical_irq > u32::MAX) ==> r == Some(
            logical_irq as u32,
        ),
{
    if source == 0 || !logical_irq_valid || logical_irq > u32::MAX as usize {
        return None;
    }
    Some(logical_irq as u32)
}

/// Whether a chip callback can be called: the record needs a chip, the interrupt data
/// must exist and the callback read from the chip must be set.
pub fn chip_callback_callable(record: LinuxPlicLeafIrqRecord, irq_data: usize, callback: usize) -> (r: bool)
    ensures
        r == (record.chip != 0 && irq_data != 0 && callback != 0),
{
    record.chip != 0 && irq_data != 0 && callback != 0
}


impl LinuxPlicShim {
    /// The leaf record for `hwirq` if it is already mapped; `None` means the caller
    /// asks the domain to allocate it (after `domain_alloc_allowed`) and looks again.
    pub fn ensure_linux_leaf_irq(&self, hwirq: u32) -> (r: Option<usize>)
        requires
            self.wf(),
        ensures
            r matches Some(i) ==> self.spec_index_by_hwirq(hwirq) == Some(i as int),
            r is None ==> self.spec_index_by_hwirq(hwirq) is None,
    {
        self.linux_leaf_record_index_by_hwirq(hwirq)
    }
}

} // verus!
