//! Sv39 page tables: table pages, entry encodings, the boot mappings of the kernel and the
//! linear map, and the tables reserved for the vmalloc window.
use vstd::prelude::*;
use crate::arith::{is_pow2, is_power_of_two, lemma_align_masks};

verus! {

pub const SWAPPER_L1_TABLES: usize = 4;

pub const SWAPPER_VMALLOC_L0_TABLES: usize = 4;

pub const PAGE_TABLE_ENTRIES: usize = 512;

pub const VMALLOC_RUNTIME_L1_TABLE_SLOTS: usize = 32;

pub const VMALLOC_RUNTIME_L0_TABLE_SLOTS: usize = 16384;

pub const VMALLOC_L0_SLOT_CHUNK_SIZE: usize = 128;

pub const VMALLOC_L0_SLOT_CHUNKS: usize = 128;

pub const PTE_V: usize = 1;

pub const PTE_R: usize = 2;

pub const PTE_W: usize = 4;

pub const PTE_X: usize = 8;

pub const PTE_U: usize = 16;

pub const PTE_A: usize = 64;

pub const PTE_D: usize = 128;

/// A valid, accessed and dirty kernel leaf that can be read and written.
pub const PTE_LEAF_RW: usize = 199;

/// A valid, accessed and dirty kernel leaf that can be read, written and executed.
pub const PTE_LEAF_RWX: usize = 207;

/// The first root entry of the upper half of the address space.
pub const SV39_HIGH_HALF_ROOT_INDEX: usize = 256;

/// The bytes one table page spans.
pub const PAGE_TABLE_PAGE_BYTES: usize = 4096;

/// The nine-bit table index of `virt` at the level that starts at bit `shift`.
pub open spec fn sv39_index_spec(virt: usize, shift: usize) -> usize {
    (virt >> shift) & 0x1ff
}

pub fn sv39_index(virt: usize, shift: usize) -> (r: usize)
    requires
        shift < usize::BITS,
    ensures
        r == sv39_index_spec(virt, shift),
        r < PAGE_TABLE_ENTRIES,
{
    let r = (virt >> shift) & 0x1ff;
    assert(((virt >> shift) & 0x1ff) < 512) by (bit_vector);
    r
}

/// The entry that points at the next-level table at `table_addr`.
pub open spec fn table_pte_spec(table_addr: usize) -> usize {
    ((table_addr >> 12usize) << 10usize) | PTE_V
}

/// The leaf entry that maps `phys` with `flags`.
pub open spec fn leaf_pte_spec(phys: usize, flags: usize) -> usize {
    ((phys >> 12usize) << 10usize) | flags
}

pub fn table_pte(table_addr: usize) -> (r: usize)
    ensures
        r == table_pte_spec(table_addr),
{
    ((table_addr >> 12usize) << 10usize) | PTE_V
}

pub fn leaf_pte(phys: usize, flags: usize) -> (r: usize)
    ensures
        r == leaf_pte_spec(phys, flags),
{
    ((phys >> 12usize) << 10usize) | flags
}

pub fn table_pte_from_phys(table_phys: usize) -> (r: usize)
    ensures
        r == table_pte_spec(table_phys),
{
    table_pte(table_phys)
}

/// The three Sv39 table indices of `virt`, from the root down.
pub fn sv39_indices(virt: usize) -> (r: (usize, usize, usize))
    ensures
        r == (sv39_index_spec(virt, 30), sv39_index_spec(virt, 21), sv39_index_spec(virt, 12)),
{
    (sv39_index(virt, 30), sv39_index(virt, 21), sv39_index(virt, 12))
}

/// The flags of a user leaf: valid, user, accessed, dirty, and the requested permissions.
pub open spec fn user_leaf_flags(readable: bool, writable: bool, executable: bool) -> usize {
    (PTE_V | PTE_U | PTE_A | PTE_D) | (if readable {
        PTE_R
    } else {
        0
    }) | (if writable {
        PTE_W
    } else {
        0
    }) | (if executable {
        PTE_X
    } else {
        0
    })
}

/// A user leaf for the page at `phys`; refused for an address that is not page aligned, a
/// writable page that is not readable, and a page with no permission.
/// A leaf entry names the frame of `phys` in its physical page number (bits 10 and up) and
/// keeps the flags given in its low ten bits; an entry pointing at a next-level table names
/// that table's frame and has only its valid bit set among the low ten bits, so it is not a
/// leaf.
pub proof fn lemma_pte_layout(phys: usize, flags: usize, table_addr: usize)
    requires
        flags < 1024,
    ensures
        leaf_pte_spec(phys, flags) >> 10 == phys >> 12,
        leaf_pte_spec(phys, flags) & 0x3ff == flags,
        table_pte_spec(table_addr) >> 10 == table_addr >> 12,
        table_pte_spec(table_addr) & 0x3ff == 1,
{
    assert((((phys >> 12usize) << 10usize) | flags) >> 10 == phys >> 12 && (((phys >> 12usize)
        << 10usize) | flags) & 0x3ff == flags) by (bit_vector)
        requires
            flags < 1024,
    ;
    assert((((table_addr >> 12usize) << 10usize) | 1usize) >> 10 == table_addr >> 12 && (((
    table_addr >> 12usize) << 10usize) | 1usize) & 0x3ff == 1) by (bit_vector);
}

/// The user leaf entry for `phys` with the given permissions, where one can be built.
pub open spec fn user_leaf_pte_spec(phys: usize, readable: bool, writable: bool, executable: bool) -> Option<usize> {
    if phys & 0xfff != 0 || (!readable && writable) || (!readable && !writable && !executable) {
        None
    } else {
        Some(leaf_pte_spec(phys, user_leaf_flags(readable, writable, executable)))
    }
}

/// A user leaf entry maps the frame of `phys` and carries exactly the permissions asked
/// for: it is valid, user-accessible, accessed and dirty, readable exactly when `readable`,
/// writable exactly when `writable`, executable exactly when `executable`. It is refused
/// exactly for a frame address that is not page-aligned, for write without read, and for
/// no permission at all.
pub proof fn lemma_user_leaf_pte_bits(phys: usize, readable: bool, writable: bool, executable: bool)
    ensures
        (user_leaf_pte_spec(phys, readable, writable, executable) is None) == (phys % 4096 != 0
            || (writable && !readable) || (!readable && !writable && !executable)),
        user_leaf_pte_spec(phys, readable, writable, executable) matches Some(pte) ==> {
            &&& (pte & 8 != 0) == executable
            &&& (pte & 2 != 0) == readable
            &&& (pte & 4 != 0) == writable
            &&& pte & 1 != 0
            &&& pte & 16 != 0
            &&& pte & 64 != 0
            &&& pte & 128 != 0
            &&& pte >> 10 == phys >> 12
        },
{
    assert((phys & 0xfff != 0) == (phys % 4096 != 0)) by (bit_vector);
    let a: usize = if readable { 2 } else { 0 };
    let b: usize = if writable { 4 } else { 0 };
    let c: usize = if executable { 8 } else { 0 };
    let f = user_leaf_flags(readable, writable, executable);
    assert((1usize | 16usize | 64usize | 128usize) == 209usize) by (bit_vector);
    assert(f == 209usize | a | b | c);
    assert(((209usize | a | b | c) & 8 != 0) == (c == 8) && ((209usize | a | b | c) & 2 != 0) == (a
        == 2) && ((209usize | a | b | c) & 4 != 0) == (b == 4) && (209usize | a | b | c) & 1 != 0
        && (209usize | a | b | c) & 16 != 0 && (209usize | a | b | c) & 64 != 0 && (209usize | a
        | b | c) & 128 != 0 && (209usize | a | b | c) < 1024) by (bit_vector)
        requires
            a == 0 || a == 2,
            b == 0 || b == 4,
            c == 0 || c == 8,
    ;
    let pte = ((phys >> 12usize) << 10usize) | f;
    assert(pte & 8 == f & 8 && pte & 2 == f & 2 && pte & 4 == f & 4 && pte & 1 == f & 1 && pte
        & 16 == f & 16 && pte & 64 == f & 64 && pte & 128 == f & 128 && pte >> 10 == phys >> 12)
        by (bit_vector)
        requires
            pte == ((phys >> 12usize) << 10usize) | f,
            f < 1024,
    ;
}

pub fn user_leaf_pte_from_phys(phys: usize, readable: bool, writable: bool, executable: bool) -> (r:
    Option<usize>)
    ensures
        r == user_leaf_pte_spec(phys, readable, writable, executable),
        r == (if phys & 0xfff != 0 || (!readable && writable) || (!readable && !writable
            && !executable) {
            None
        } else {
            Some(leaf_pte_spec(phys, user_leaf_flags(readable, writable, executable)))
        }),
{
    if phys & 0xfff != 0 || (!readable && writable) || (!readable && !writable && !executable) {
        return None;
    }
    let mut flags = PTE_V | PTE_U | PTE_A | PTE_D;
    if readable {
        flags = flags | PTE_R;
    }
    if writable {
        flags = flags | PTE_W;
    }
    if executable {
        flags = flags | PTE_X;
    }
    proof {
        let base = PTE_V | PTE_U | PTE_A | PTE_D;
        assert(base | 0 == base) by (bit_vector);
        assert(flags == user_leaf_flags(readable, writable, executable)) by {
            assert(forall|x: usize| #[trigger] (x | 0usize) == x) by (bit_vector);
        }
    }
    Some(leaf_pte(phys, flags))
}

/// `value` is a multiple of the power of two `align`.
pub open spec fn aligned_spec(value: usize, align: usize) -> bool {
    is_pow2(align) && value % align == 0
}

pub fn aligned(value: usize, align: usize) -> (r: bool)
    ensures
        r == aligned_spec(value, align),
{
    proof {
        if is_pow2(align) {
            lemma_align_masks(value, align);
        }
    }
    align != 0 && is_power_of_two(align) && value & (align - 1) == 0
}

/// `value + align - 1` with the low bits of `align - 1` cleared; `None` for a zero alignment
/// or where the sum overflows. For a power of two this rounds up to a multiple of it.
pub open spec fn pt_round_up_spec(value: usize, align: usize) -> Option<usize> {
    if align == 0 || value + (align - 1) > usize::MAX {
        None
    } else {
        Some(((value + (align - 1)) as usize) & !((align - 1) as usize))
    }
}

/// For a power-of-two `align`, rounding up gives the first multiple of `align` at or after
/// `value`, and fails only where that sum would leave the address space.
pub proof fn lemma_pt_round_up_is_next_multiple(value: usize, align: usize)
    requires
        is_pow2(align),
    ensures
        (pt_round_up_spec(value, align) is None) == (value + align - 1 > usize::MAX),
        pt_round_up_spec(value, align) matches Some(r) ==> r % align == 0 && value <= r && r
            < value + align,
{
    lemma_align_masks(0, align);
    if value + align - 1 <= usize::MAX {
        let x = (value + (align - 1)) as usize;
        lemma_align_masks(x, align);
        assert(x % align < align);
        vstd::arithmetic::div_mod::lemma_fundamental_div_mod(x as int, align as int);
        vstd::arithmetic::div_mod::lemma_mod_multiples_basic(x as int / align as int, align as int);
        assert((x - x % align) % (align as int) == 0) by {
            assert(x - x % align == align * (x as int / align as int));
        }
    }
}

/// The Sv39 table index at a level is the level's nine bits of the virtual address: the
/// address divided by the level's span, modulo 512.
pub proof fn lemma_sv39_index_bits(virt: usize)
    ensures
        sv39_index_spec(virt, 12) as int == (virt as int / 0x1000) % 512,
        sv39_index_spec(virt, 21) as int == (virt as int / 0x20_0000) % 512,
        sv39_index_spec(virt, 30) as int == (virt as int / 0x4000_0000) % 512,
{
    assert((virt >> 12usize) & 0x1ffusize == (virt / 0x1000usize) % 512usize) by (bit_vector);
    assert((virt >> 21usize) & 0x1ffusize == (virt / 0x20_0000usize) % 512usize) by (bit_vector);
    assert((virt >> 30usize) & 0x1ffusize == (virt / 0x4000_0000usize) % 512usize) by (bit_vector);
}

pub fn round_up(value: usize, align: usize) -> (r: Option<usize>)
    ensures
        r == pt_round_up_spec(value, align),
{
    let addend = match align.checked_sub(1) {
        Some(a) => a,
        None => return None,
    };
    match value.checked_add(addend) {
        Some(sum) => Some(sum & !addend),
        None => None,
    }
}

/// One table page: 512 entries.
#[derive(Clone, Copy)]
pub struct PageTablePage {
    pub entries: [usize; 512],
}

impl PageTablePage {
    pub fn zeroed() -> (r: Self)
        ensures
            forall|i: int| 0 <= i < PAGE_TABLE_ENTRIES ==> #[trigger] r.entries@[i] == 0,
    {
        Self { entries: [0; 512] }
    }

    pub fn clear(&mut self)
        ensures
            forall|i: int| 0 <= i < PAGE_TABLE_ENTRIES ==> #[trigger] final(self).entries@[i] == 0,
    {
        let mut i: usize = 0;
        while i < PAGE_TABLE_ENTRIES
            invariant
                i <= PAGE_TABLE_ENTRIES,
                forall|j: int| 0 <= j < i ==> #[trigger] self.entries@[j] == 0,
            decreases PAGE_TABLE_ENTRIES - i,
        {
            self.entries[i] = 0;
            i += 1;
        }
    }

    pub fn entry(&self, index: usize) -> (r: Option<usize>)
        ensures
            r == (if index < PAGE_TABLE_ENTRIES {
                Some(self.entries@[index as int])
            } else {
                None
            }),
    {
        if index < PAGE_TABLE_ENTRIES {
            Some(self.entries[index])
        } else {
            None
        }
    }

    pub fn set_entry(&mut self, index: usize, value: usize) -> (r: bool)
        ensures
            r == (index < PAGE_TABLE_ENTRIES),
            r ==> final(self).entries@ == old(self).entries@.update(index as int, value),
            !r ==> *final(self) == *old(self),
    {
        if index >= PAGE_TABLE_ENTRIES {
            return false;
        }
        self.entries[index] = value;
        true
    }

    fn set(&mut self, index: usize, value: usize)
        requires
            index < PAGE_TABLE_ENTRIES,
        ensures
            final(self).entries@ == old(self).entries@.update(index as int, value),
    {
        self.entries[index] = value;
    }
}

/// The nonzero entries of `src` in `[lo, hi)`.
pub open spec fn nonzero_count(src: Seq<usize>, lo: int, hi: int) -> int
    decreases hi - lo,
{
    if hi <= lo {
        0
    } else {
        nonzero_count(src, lo, hi - 1) + if src[hi - 1] != 0 {
            1int
        } else {
            0
        }
    }
}

/// Copies the nonzero upper-half root entries of `src` into `dst` and counts them.
pub fn copy_high_half_root_entries(dst: &mut PageTablePage, src: &PageTablePage) -> (r: usize)
    ensures
        r == nonzero_count(src.entries@, SV39_HIGH_HALF_ROOT_INDEX as int, PAGE_TABLE_ENTRIES as int),
        forall|i: int|
            0 <= i < PAGE_TABLE_ENTRIES ==> #[trigger] final(dst).entries@[i] == if i
                >= SV39_HIGH_HALF_ROOT_INDEX && src.entries@[i] != 0 {
                src.entries@[i]
            } else {
                old(dst).entries@[i]
            },
{
    let mut copied: usize = 0;
    let mut index = SV39_HIGH_HALF_ROOT_INDEX;
    while index < PAGE_TABLE_ENTRIES
        invariant
            SV39_HIGH_HALF_ROOT_INDEX <= index <= PAGE_TABLE_ENTRIES,
            copied == nonzero_count(src.entries@, SV39_HIGH_HALF_ROOT_INDEX as int, index as int),
            copied <= index - SV39_HIGH_HALF_ROOT_INDEX,
            forall|i: int|
                0 <= i < PAGE_TABLE_ENTRIES ==> #[trigger] dst.entries@[i] == if SV39_HIGH_HALF_ROOT_INDEX
                    <= i < index && src.entries@[i] != 0 {
                    src.entries@[i]
                } else {
                    old(dst).entries@[i]
                },
        decreases PAGE_TABLE_ENTRIES - index,
    {
        match src.entry(index) {
            Some(entry) => {
                if entry != 0 && dst.set_entry(index, entry) {
                    copied += 1;
                }
            },
            None => {},
        }
        index += 1;
    }
    copied
}

#[derive(Clone, Copy, PartialEq, Eq, Structural, Debug)]
pub struct PageTablePageSlot {
    pub addr: usize,
    pub phys: usize,
    pub present: bool,
}

impl PageTablePageSlot {
    pub open spec fn spec_empty() -> PageTablePageSlot {
        PageTablePageSlot { addr: 0, phys: 0, present: false }
    }

    pub fn empty() -> (r: Self)
        ensures
            r == Self::spec_empty(),
    {
        Self { addr: 0, phys: 0, present: false }
    }

    pub fn new(addr: usize, phys: usize) -> (r: Self)
        ensures
            r == (PageTablePageSlot { addr, phys, present: true }),
    {
        Self { addr, phys, present: true }
    }

    pub fn addr(self) -> (r: usize)
        ensures
            r == self.addr,
    {
        self.addr
    }

    pub fn phys(self) -> (r: usize)
        ensures
            r == self.phys,
    {
        self.phys
    }

    pub open spec fn spec_ready(self) -> bool {
        self.present && self.addr != 0 && self.phys != 0
    }

    pub fn ready(self) -> (r: bool)
        ensures
            r == self.spec_ready(),
    {
        self.present && self.addr != 0 && self.phys != 0
    }
}

/// A page of slots that record the level-0 tables of the vmalloc window.
pub struct PageTablePageSlotChunk {
    pub slots: [PageTablePageSlot; 128],
}

impl PageTablePageSlotChunk {
    pub fn empty() -> (r: Self)
        ensures
            forall|i: int| 0 <= i < VMALLOC_L0_SLOT_CHUNK_SIZE ==> #[trigger] r.slots@[i]
                == PageTablePageSlot::spec_empty(),
    {
        Self { slots: [PageTablePageSlot { addr: 0, phys: 0, present: false }; 128] }
    }

    pub fn slot(&self, index: usize) -> (r: Option<PageTablePageSlot>)
        ensures
            r == (if index < VMALLOC_L0_SLOT_CHUNK_SIZE {
                Some(self.slots@[index as int])
            } else {
                None
            }),
    {
        if index < VMALLOC_L0_SLOT_CHUNK_SIZE {
            Some(self.slots[index])
        } else {
            None
        }
    }

    pub fn set_slot(&mut self, index: usize, slot: PageTablePageSlot) -> (r: bool)
        ensures
            r == (index < VMALLOC_L0_SLOT_CHUNK_SIZE),
            r ==> final(self).slots@ == old(self).slots@.update(index as int, slot),
            !r ==> final(self).slots@ == old(self).slots@,
    {
        if index >= VMALLOC_L0_SLOT_CHUNK_SIZE {
            return false;
        }
        self.slots[index] = slot;
        true
    }
}

/// Table storage at `addr` can hold a table page: a power-of-two page size that aligns the
/// address and that a table page covers.
pub open spec fn page_table_storage_ready_spec(addr: usize, page_size: usize) -> bool {
    is_pow2(page_size) && addr % page_size == 0 && PAGE_TABLE_PAGE_BYTES >= page_size
}

pub fn page_table_storage_ready(addr: usize, page_size: usize) -> (r: bool)
    ensures
        r == page_table_storage_ready_spec(addr, page_size),
{
    proof {
        if is_pow2(page_size) {
            lemma_align_masks(addr, page_size);
        }
    }
    page_size != 0 && is_power_of_two(page_size) && addr & (page_size - 1) == 0
        && PAGE_TABLE_PAGE_BYTES >= page_size
}

/// The leaves that `map_pmd_range` writes for `bytes` of `pmd_size` pages, where its guards
/// hold.
pub open spec fn pmd_range_count(bytes: usize, virt_start: usize, phys_start: usize, pmd_size: usize) -> Option<int> {
    if bytes == 0 || !aligned_spec(virt_start, pmd_size) || !aligned_spec(phys_start, pmd_size) {
        None
    } else {
        match pt_round_up_spec(bytes, pmd_size) {
            Some(covered) => Some((covered / pmd_size) as int),
            None => None,
        }
    }
}

/// Maps `[virt_start, virt_start + bytes)` to `phys_start` with 2 MiB leaves of `pmd_size`
/// in `leaf_table`, whose physical address is `leaf_table_phys`, and links it from the root.
/// On failure the root is unchanged and `leaf_table` may hold a prefix of the leaves.
pub fn map_pmd_range(
    root: &mut PageTablePage,
    leaf_table: &mut PageTablePage,
    leaf_table_phys: Option<usize>,
    virt_start: usize,
    phys_start: usize,
    bytes: usize,
    pmd_size: usize,
) -> (r: bool)
    ensures
        bytes == 0 || !aligned_spec(virt_start, pmd_size) || !aligned_spec(phys_start, pmd_size)
            || pt_round_up_spec(bytes, pmd_size) is None || leaf_table_phys is None ==> !r
            && *final(root) == *old(root) && *final(leaf_table) == *old(leaf_table),
        !r ==> *final(root) == *old(root),
        pmd_range_count(bytes, virt_start, phys_start, pmd_size) matches Some(count) ==> {
            let vpn1 = sv39_index_spec(virt_start, 21) as int;
            &&& leaf_table_phys is Some ==> (r <==> (vpn1 + count <= PAGE_TABLE_ENTRIES
                && phys_start + count * pmd_size <= usize::MAX))
            &&& forall|i: int|
                0 <= i < PAGE_TABLE_ENTRIES ==> #[trigger] final(leaf_table).entries@[i] == old(leaf_table).entries@[i] || (vpn1 <= i < vpn1 + count && final(leaf_table).entries@[i]
                    == leaf_pte_spec((phys_start + (i - vpn1) * pmd_size) as usize, PTE_LEAF_RWX))
        },
        r ==> {
            let count = (pt_round_up_spec(bytes, pmd_size)->0 / pmd_size) as int;
            let vpn1 = sv39_index_spec(virt_start, 21) as int;
            &&& vpn1 + count <= PAGE_TABLE_ENTRIES
            &&& final(root).entries@ == old(root).entries@.update(
                sv39_index_spec(virt_start, 30) as int,
                table_pte_spec(leaf_table_phys->0),
            )
            &&& forall|i: int|
                0 <= i < PAGE_TABLE_ENTRIES ==> #[trigger] final(leaf_table).entries@[i] == if vpn1
                    <= i < vpn1 + count {
                    leaf_pte_spec((phys_start + (i - vpn1) * pmd_size) as usize, PTE_LEAF_RWX)
                } else {
                    old(leaf_table).entries@[i]
                }
        },
{
    if bytes == 0 || !aligned(virt_start, pmd_size) || !aligned(phys_start, pmd_size) {
        return false;
    }
    let covered = match round_up(bytes, pmd_size) {
        Some(c) => c,
        None => return false,
    };
    let leaf_phys = match leaf_table_phys {
        Some(p) => p,
        None => return false,
    };
    proof {
        lemma_align_masks(0, pmd_size);
    }
    let vpn2 = sv39_index(virt_start, 30);
    let vpn1_start = sv39_index(virt_start, 21);
    let mut vpn1 = vpn1_start;
    let mut phys = phys_start;
    let count = covered / pmd_size;
    assert(pmd_range_count(bytes, virt_start, phys_start, pmd_size) == Some(count as int));
    let mut k: usize = 0;
    while k < count
        invariant
            pmd_size > 0,
            k <= count,
            vpn1 == vpn1_start + k,
            vpn1 <= PAGE_TABLE_ENTRIES,
            bytes != 0 && aligned_spec(virt_start, pmd_size) && aligned_spec(phys_start, pmd_size)
                && pt_round_up_spec(bytes, pmd_size) is Some && leaf_table_phys is Some,
            phys == phys_start + k * pmd_size,
            vpn1_start == sv39_index_spec(virt_start, 21),
            pmd_range_count(bytes, virt_start, phys_start, pmd_size) == Some(count as int),
            vpn1_start + k <= PAGE_TABLE_ENTRIES,
            *root == *old(root),
            forall|i: int|
                0 <= i < PAGE_TABLE_ENTRIES ==> #[trigger] leaf_table.entries@[i] == if vpn1_start
                    <= i < vpn1_start + k {
                    leaf_pte_spec((phys_start + (i - vpn1_start) * pmd_size) as usize, PTE_LEAF_RWX)
                } else {
                    old(leaf_table).entries@[i]
                },
        decreases count - k,
    {
        if vpn1 >= PAGE_TABLE_ENTRIES {
            return false;
        }
        leaf_table.set(vpn1, leaf_pte(phys, PTE_LEAF_RWX));
        vpn1 += 1;
        let next_phys = match phys.checked_add(pmd_size) {
            Some(p) => p,
            None => {
                proof {
                    assert(phys_start + (k + 1) * pmd_size == phys_start + k * pmd_size + pmd_size)
                        by (nonlinear_arith);
                    assert(phys_start + count * pmd_size >= phys_start + (k + 1) * pmd_size)
                        by (nonlinear_arith)
                        requires
                            k + 1 <= count,
                            pmd_size > 0,
                    ;
                }
                return false;
            },
        };
        phys = next_phys;
        proof {
            assert(phys_start + (k + 1) * pmd_size == phys_start + k * pmd_size + pmd_size)
                by (nonlinear_arith);
        }
        k += 1;
    }
    root.set(vpn2, table_pte(leaf_phys));
    true
}

/// The guards of `map_page_range` that hold before any entry is written, and the
/// number of pages it then maps.
pub open spec fn page_range_count(bytes: usize, virt_start: usize, phys_start: usize, page_size: usize) -> Option<int> {
    if bytes == 0 || !aligned_spec(virt_start, page_size) || !is_pow2(page_size) {
        None
    } else if bytes + phys_start % page_size > usize::MAX {
        None
    } else {
        match pt_round_up_spec((bytes + phys_start % page_size) as usize, page_size) {
            Some(covered) => Some((covered / page_size) as int),
            None => None,
        }
    }
}

/// Maps `[virt_start, virt_start + bytes)` to the pages holding
/// `[phys_start, phys_start + bytes)` with 4 KiB leaves in `l0_table`, linked from
/// `l1_table` and the root; `l1_table_phys` and `l0_table_phys` are the tables' physical
/// addresses. On failure the root and `l1_table` are unchanged and `l0_table` may hold a
/// prefix of the leaves.
#[verifier::rlimit(40)]
pub fn map_page_range(
    root: &mut PageTablePage,
    l1_table: &mut PageTablePage,
    l0_table: &mut PageTablePage,
    l1_table_phys: Option<usize>,
    l0_table_phys: Option<usize>,
    virt_start: usize,
    phys_start: usize,
    bytes: usize,
    page_size: usize,
) -> (r: bool)
    ensures
        page_range_count(bytes, virt_start, phys_start, page_size) is None || l1_table_phys is None
            || l0_table_phys is None ==> !r && *final(root) == *old(root) && *final(l1_table) == *old(l1_table) && *final(l0_table) == *old(l0_table),
        !r ==> *final(root) == *old(root) && *final(l1_table) == *old(l1_table),
        page_range_count(bytes, virt_start, phys_start, page_size) matches Some(count) ==> {
            let vpn0 = sv39_index_spec(virt_start, 12) as int;
            let base = phys_start - phys_start % page_size;
            &&& forall|i: int|
                0 <= i < PAGE_TABLE_ENTRIES ==> #[trigger] final(l0_table).entries@[i] == old(l0_table).entries@[i] || (vpn0 <= i < vpn0 + count && final(l0_table).entries@[i]
                    == leaf_pte_spec((base + (i - vpn0) * page_size) as usize, PTE_LEAF_RWX))
            &&& l1_table_phys is Some && l0_table_phys is Some ==> (r <==> (vpn0 + count
                <= PAGE_TABLE_ENTRIES && base + count * page_size <= usize::MAX))
            &&& r ==> {
                &&& forall|i: int|
                    0 <= i < PAGE_TABLE_ENTRIES ==> #[trigger] final(l0_table).entries@[i] == if vpn0
                        <= i < vpn0 + count {
                        leaf_pte_spec((base + (i - vpn0) * page_size) as usize, PTE_LEAF_RWX)
                    } else {
                        old(l0_table).entries@[i]
                    }
                &&& final(l1_table).entries@ == old(l1_table).entries@.update(
                    sv39_index_spec(virt_start, 21) as int,
                    table_pte_spec(l0_table_phys->0),
                )
                &&& final(root).entries@ == old(root).entries@.update(
                    sv39_index_spec(virt_start, 30) as int,
                    table_pte_spec(l1_table_phys->0),
                )
            }
        },
{
    if bytes == 0 || !aligned(virt_start, page_size) || !is_power_of_two(page_size) {
        return false;
    }
    proof {
        lemma_align_masks(phys_start, page_size);
        lemma_align_masks(0, page_size);
    }
    let page_offset = phys_start & (page_size - 1);
    let phys_base = phys_start - page_offset;
    let mapped_bytes = match bytes.checked_add(page_offset) {
        Some(m) => m,
        None => {
            return false;
        },
    };
    let covered = match round_up(mapped_bytes, page_size) {
        Some(c) => c,
        None => {
            return false;
        },
    };
    let l1_phys = match l1_table_phys {
        Some(p) => p,
        None => {
            return false;
        },
    };
    let l0_phys = match l0_table_phys {
        Some(p) => p,
        None => {
            return false;
        },
    };
    let vpn2 = sv39_index(virt_start, 30);
    let vpn1 = sv39_index(virt_start, 21);
    let vpn0_start = sv39_index(virt_start, 12);
    let mut vpn0 = vpn0_start;
    let mut phys = phys_base;
    let count = covered / page_size;
    let ghost base = phys_base as int;
    assert(page_range_count(bytes, virt_start, phys_start, page_size) == Some(count as int));
    let mut k: usize = 0;
    while k < count
        invariant
            page_range_count(bytes, virt_start, phys_start, page_size) == Some(count as int),
            l1_table_phys == Some(l1_phys),
            l0_table_phys == Some(l0_phys),
            base == phys_start - phys_start % page_size,
            vpn0_start == sv39_index_spec(virt_start, 12),
            vpn1 == sv39_index_spec(virt_start, 21),
            vpn2 == sv39_index_spec(virt_start, 30),
            page_size > 0,
            k <= count,
            vpn0 == vpn0_start + k,
            vpn0_start < PAGE_TABLE_ENTRIES,
            vpn0 <= PAGE_TABLE_ENTRIES,
            phys == base + k * page_size,
            vpn0_start + k <= PAGE_TABLE_ENTRIES,
            base + k * page_size <= usize::MAX,
            *root == *old(root),
            *l1_table == *old(l1_table),
            forall|i: int|
                0 <= i < PAGE_TABLE_ENTRIES ==> #[trigger] l0_table.entries@[i] == if vpn0_start
                    <= i < vpn0_start + k {
                    leaf_pte_spec((base + (i - vpn0_start) * page_size) as usize, PTE_LEAF_RWX)
                } else {
                    old(l0_table).entries@[i]
                },
        decreases count - k,
    {
        if vpn0 >= PAGE_TABLE_ENTRIES {
            return false;
        }
        l0_table.set(vpn0, leaf_pte(phys, PTE_LEAF_RWX));
        vpn0 += 1;
        let next_phys = match phys.checked_add(page_size) {
            Some(p) => p,
            None => {
                proof {
                    assert(base + (k + 1) * page_size == base + k * page_size + page_size)
                        by (nonlinear_arith);
                    assert(base + count * page_size >= base + (k + 1) * page_size)
                        by (nonlinear_arith)
                        requires
                            k + 1 <= count,
                            page_size > 0,
                    ;
                }
                return false;
            },
        };
        phys = next_phys;
        proof {
            assert(base + (k + 1) * page_size == base + k * page_size + page_size)
                by (nonlinear_arith);
        }
        k += 1;
    }
    l1_table.set(vpn1, table_pte(l0_phys));
    root.set(vpn2, table_pte(l1_phys));
    true
}

/// The tables reserved for the vmalloc window: the root, up to 32 level-1 tables, and the
/// level-0 tables recorded in slot chunks.
pub struct PageTableInstallRange {
    pub root_addr: usize,
    pub l1_table_count: usize,
    pub l1_slots: [PageTablePageSlot; 32],
    pub l0_table_count: usize,
    pub l0_slot_chunk_addrs: [usize; 128],
    pub l0_slot_chunk_count: usize,
    pub virt_start: usize,
    pub virt_end: usize,
    pub page_size: usize,
    /// The contents of the slot chunks: slot `s` of chunk `c` at `c * 128 + s`.
    pub l0_slots: Vec<PageTablePageSlot>,
}

impl PageTableInstallRange {
    pub open spec fn wf(&self) -> bool {
        self.l0_slots@.len() == VMALLOC_RUNTIME_L0_TABLE_SLOTS
    }

    fn empty_slots() -> (r: Vec<PageTablePageSlot>)
        ensures
            r@.len() == VMALLOC_RUNTIME_L0_TABLE_SLOTS,
            forall|i: int| 0 <= i < r@.len() ==> #[trigger] r@[i] == PageTablePageSlot::spec_empty(),
    {
        let mut v: Vec<PageTablePageSlot> = Vec::new();
        let mut i: usize = 0;
        while i < VMALLOC_RUNTIME_L0_TABLE_SLOTS
            invariant
                i <= VMALLOC_RUNTIME_L0_TABLE_SLOTS,
                v@.len() == i,
                forall|j: int| 0 <= j < i ==> #[trigger] v@[j] == PageTablePageSlot::spec_empty(),
            decreases VMALLOC_RUNTIME_L0_TABLE_SLOTS - i,
        {
            v.push(PageTablePageSlot::empty());
            i += 1;
        }
        v
    }

    pub fn empty() -> (r: Self)
        ensures
            r.wf(),
            r.root_addr == 0 && r.l1_table_count == 0 && r.l0_table_count == 0,
            r.l0_slot_chunk_count == 0 && r.virt_start == 0 && r.virt_end == 0 && r.page_size == 0,
            forall|i: int| 0 <= i < VMALLOC_L0_SLOT_CHUNKS ==> #[trigger] r.l0_slot_chunk_addrs@[i] == 0,
            forall|i: int| 0 <= i < VMALLOC_RUNTIME_L1_TABLE_SLOTS ==> #[trigger] r.l1_slots@[i]
                == PageTablePageSlot::spec_empty(),
    {
        Self::new(0, 0, 0, 0)
    }

    pub fn new(root_addr: usize, virt_start: usize, virt_end: usize, page_size: usize) -> (r: Self)
        ensures
            r.wf(),
            r.root_addr == root_addr && r.virt_start == virt_start && r.virt_end == virt_end
                && r.page_size == page_size,
            r.l1_table_count == 0 && r.l0_table_count == 0 && r.l0_slot_chunk_count == 0,
            forall|i: int| 0 <= i < VMALLOC_L0_SLOT_CHUNKS ==> #[trigger] r.l0_slot_chunk_addrs@[i] == 0,
            forall|i: int| 0 <= i < VMALLOC_RUNTIME_L1_TABLE_SLOTS ==> #[trigger] r.l1_slots@[i]
                == PageTablePageSlot::spec_empty(),
            forall|i: int| 0 <= i < VMALLOC_RUNTIME_L0_TABLE_SLOTS ==> #[trigger] r.l0_slots@[i]
                == PageTablePageSlot::spec_empty(),
    {
        Self {
            root_addr,
            l1_table_count: 0,
            l1_slots: [PageTablePageSlot { addr: 0, phys: 0, present: false }; 32],
            l0_table_count: 0,
            l0_slot_chunk_addrs: [0; 128],
            l0_slot_chunk_count: 0,
            virt_start,
            virt_end,
            page_size,
            l0_slots: Self::empty_slots(),
        }
    }

    /// The two ranges record the same tables.
    pub open spec fn same_as(&self, other: &Self) -> bool {
        &&& self.root_addr == other.root_addr
        &&& self.l1_table_count == other.l1_table_count
        &&& self.l1_slots == other.l1_slots
        &&& self.l0_table_count == other.l0_table_count
        &&& self.l0_slot_chunk_addrs == other.l0_slot_chunk_addrs
        &&& self.l0_slot_chunk_count == other.l0_slot_chunk_count
        &&& self.virt_start == other.virt_start
        &&& self.virt_end == other.virt_end
        &&& self.page_size == other.page_size
        &&& self.l0_slots@ == other.l0_slots@
    }

    /// A copy of the range.
    pub fn duplicate(&self) -> (r: Self)
        ensures
            r.same_as(self),
    {
        let mut slots: Vec<PageTablePageSlot> = Vec::new();
        let mut i: usize = 0;
        while i < self.l0_slots.len()
            invariant
                i <= self.l0_slots@.len(),
                slots@ == self.l0_slots@.subrange(0, i as int),
            decreases self.l0_slots@.len() - i,
        {
            slots.push(self.l0_slots[i]);
            i += 1;
            assert(slots@ =~= self.l0_slots@.subrange(0, i as int));
        }
        assert(slots@ =~= self.l0_slots@);
        let r = Self {
            root_addr: self.root_addr,
            l1_table_count: self.l1_table_count,
            l1_slots: self.l1_slots,
            l0_table_count: self.l0_table_count,
            l0_slot_chunk_addrs: self.l0_slot_chunk_addrs,
            l0_slot_chunk_count: self.l0_slot_chunk_count,
            virt_start: self.virt_start,
            virt_end: self.virt_end,
            page_size: self.page_size,
            l0_slots: slots,
        };
        r
    }

    /// The range can carry mappings: a root, at least one table at each level within the
    /// slot capacity, the first level-1 slot and a slot chunk in place, a non-empty window
    /// and a power-of-two page size.
    pub open spec fn spec_ready(&self) -> bool {
        &&& self.root_addr != 0
        &&& self.l1_table_count != 0
        &&& self.l0_table_count != 0
        &&& self.l1_table_count <= VMALLOC_RUNTIME_L1_TABLE_SLOTS
        &&& self.l0_table_count <= VMALLOC_RUNTIME_L0_TABLE_SLOTS
        &&& self.l1_slots@[0].spec_ready()
        &&& self.l0_slot_chunk_count != 0
        &&& self.virt_start != 0
        &&& self.virt_start < self.virt_end
        &&& is_pow2(self.page_size)
    }

    pub fn ready(&self) -> (r: bool)
        ensures
            r == self.spec_ready(),
    {
        proof {
            if is_pow2(self.page_size) {
                lemma_align_masks(0, self.page_size);
            }
        }
        self.root_addr != 0 && self.l1_table_count != 0 && self.l0_table_count != 0
            && self.l1_table_count <= VMALLOC_RUNTIME_L1_TABLE_SLOTS && self.l0_table_count
            <= self.max_l0_table_count() && self.l1_slots[0].ready() && self.l0_slot_chunk_count
            != 0 && self.virt_start != 0 && self.virt_start < self.virt_end && self.page_size != 0
            && is_power_of_two(self.page_size)
    }

    pub fn window_start(&self) -> (r: usize)
        ensures
            r == self.virt_start,
    {
        self.virt_start
    }

    pub fn window_size(&self) -> (r: usize)
        ensures
            r == (if self.virt_end >= self.virt_start {
                (self.virt_end - self.virt_start) as usize
            } else {
                0
            }),
    {
        if self.virt_end >= self.virt_start {
            self.virt_end - self.virt_start
        } else {
            0
        }
    }

    pub fn window_end(&self) -> (r: usize)
        ensures
            r == self.virt_end,
    {
        self.virt_end
    }

    pub fn l0_table_count(&self) -> (r: usize)
        ensures
            r == self.l0_table_count,
    {
        self.l0_table_count
    }

    /// The span one level-0 table maps: 512 pages, saturating.
    pub open spec fn spec_l0_window_size(&self) -> usize {
        crate::arith::saturating_mul_spec(PAGE_TABLE_ENTRIES, self.page_size)
    }

    pub fn l0_window_size(&self) -> (r: usize)
        ensures
            r == self.spec_l0_window_size(),
    {
        crate::arith::saturating_mul(PAGE_TABLE_ENTRIES, self.page_size)
    }

    /// The span one level-1 table maps: 512 level-0 windows, saturating.
    pub fn l1_window_size(&self) -> (r: usize)
        ensures
            r == crate::arith::saturating_mul_spec(PAGE_TABLE_ENTRIES, self.spec_l0_window_size()),
    {
        crate::arith::saturating_mul(PAGE_TABLE_ENTRIES, self.l0_window_size())
    }

    pub fn max_l1_table_count(&self) -> (r: usize)
        ensures
            r == VMALLOC_RUNTIME_L1_TABLE_SLOTS,
    {
        VMALLOC_RUNTIME_L1_TABLE_SLOTS
    }

    pub fn max_l0_table_count(&self) -> (r: usize)
        ensures
            r == VMALLOC_RUNTIME_L0_TABLE_SLOTS,
    {
        VMALLOC_RUNTIME_L0_TABLE_SLOTS
    }

    pub open spec fn spec_l1_slot(&self, index: usize) -> Option<PageTablePageSlot> {
        if index < VMALLOC_RUNTIME_L1_TABLE_SLOTS && self.l1_slots@[index as int].spec_ready() {
            Some(self.l1_slots@[index as int])
        } else {
            None
        }
    }

    pub fn l1_slot(&self, index: usize) -> (r: Option<PageTablePageSlot>)
        ensures
            r == self.spec_l1_slot(index),
    {
        if index < VMALLOC_RUNTIME_L1_TABLE_SLOTS && self.l1_slots[index].ready() {
            Some(self.l1_slots[index])
        } else {
            None
        }
    }

    /// The ready level-0 slot `index`, where its chunk is in place.
    pub open spec fn spec_l0_slot(&self, index: usize) -> Option<PageTablePageSlot> {
        if index >= VMALLOC_RUNTIME_L0_TABLE_SLOTS || self.l0_slot_chunk_addrs@[(index / 128) as int]
            == 0 || !self.l0_slots@[index as int].spec_ready() {
            None
        } else {
            Some(self.l0_slots@[index as int])
        }
    }

    pub fn l0_slot(&self, index: usize) -> (r: Option<PageTablePageSlot>)
        requires
            self.wf(),
        ensures
            r == self.spec_l0_slot(index),
    {
        if index >= self.max_l0_table_count() {
            return None;
        }
        let chunk_index = index / VMALLOC_L0_SLOT_CHUNK_SIZE;
        let chunk_addr = self.l0_slot_chunk_addrs[chunk_index];
        if chunk_addr == 0 {
            return None;
        }
        let slot = self.l0_slots[index];
        if slot.ready() {
            Some(slot)
        } else {
            None
        }
    }

    pub open spec fn spec_l0_slot_chunk_addr(&self, chunk_index: usize) -> Option<usize> {
        if chunk_index < VMALLOC_L0_SLOT_CHUNKS && self.l0_slot_chunk_addrs@[chunk_index as int] != 0 {
            Some(self.l0_slot_chunk_addrs@[chunk_index as int])
        } else {
            None
        }
    }

    pub fn l0_slot_chunk_addr(&self, chunk_index: usize) -> (r: Option<usize>)
        ensures
            r == self.spec_l0_slot_chunk_addr(chunk_index),
    {
        if chunk_index < VMALLOC_L0_SLOT_CHUNKS && self.l0_slot_chunk_addrs[chunk_index] != 0 {
            Some(self.l0_slot_chunk_addrs[chunk_index])
        } else {
            None
        }
    }

    /// Puts a slot chunk in place; counted once per chunk index.
    pub fn install_l0_slot_chunk(&mut self, chunk_index: usize, chunk_addr: usize) -> (r: bool)
        requires
            old(self).l0_slot_chunk_count < usize::MAX,
        ensures
            r == (chunk_index < VMALLOC_L0_SLOT_CHUNKS && chunk_addr != 0),
            !r ==> *final(self) == *old(self),
            r ==> *final(self) == (PageTableInstallRange {
                l0_slot_chunk_addrs: final(self).l0_slot_chunk_addrs,
                l0_slot_chunk_count: if old(self).l0_slot_chunk_addrs@[chunk_index as int] == 0 {
                    (old(self).l0_slot_chunk_count + 1) as usize
                } else {
                    old(self).l0_slot_chunk_count
                },
                ..*old(self)
            }) && final(self).l0_slot_chunk_addrs@ == old(self).l0_slot_chunk_addrs@.update(
                chunk_index as int,
                chunk_addr,
            ),
    {
        if chunk_index >= VMALLOC_L0_SLOT_CHUNKS || chunk_addr == 0 {
            return false;
        }
        if self.l0_slot_chunk_addrs[chunk_index] == 0 {
            self.l0_slot_chunk_count += 1;
        }
        self.l0_slot_chunk_addrs[chunk_index] = chunk_addr;
        true
    }

    /// Records the level-1 table at `addr` (physical `phys`) in slot `index`; counted once per
    /// slot.
    pub fn install_l1_table(&mut self, index: usize, addr: usize, phys: usize, page_size: usize) -> (r:
        bool)
        requires
            old(self).l1_table_count < usize::MAX,
        ensures
            r == (index < VMALLOC_RUNTIME_L1_TABLE_SLOTS && page_size == old(self).page_size
                && page_table_storage_ready_spec(addr, page_size) && phys % page_size == 0),
            !r ==> *final(self) == *old(self),
            r ==> *final(self) == (PageTableInstallRange {
                l1_slots: final(self).l1_slots,
                l1_table_count: if old(self).l1_slots@[index as int].spec_ready() {
                    old(self).l1_table_count
                } else {
                    (old(self).l1_table_count + 1) as usize
                },
                ..*old(self)
            }) && final(self).l1_slots@ == old(self).l1_slots@.update(
                index as int,
                PageTablePageSlot { addr, phys, present: true },
            ),
    {
        proof {
            if is_pow2(page_size) {
                lemma_align_masks(phys, page_size);
            }
        }
        if index >= VMALLOC_RUNTIME_L1_TABLE_SLOTS || page_size != self.page_size
            || !page_table_storage_ready(addr, page_size) || phys % page_size != 0 {
            return false;
        }
        if !self.l1_slots[index].ready() {
            self.l1_table_count += 1;
        }
        self.l1_slots[index] = PageTablePageSlot::new(addr, phys);
        true
    }

    /// Records the level-0 table at `addr` (physical `phys`) in slot `index`, whose chunk must
    /// be in place; counted once per slot.
    pub fn install_l0_table(&mut self, index: usize, addr: usize, phys: usize, page_size: usize) -> (r:
        bool)
        requires
            old(self).wf(),
            old(self).l0_table_count < usize::MAX,
        ensures
            final(self).wf(),
            r == (index < VMALLOC_RUNTIME_L0_TABLE_SLOTS && page_size == old(self).page_size
                && page_table_storage_ready_spec(addr, page_size) && phys % page_size == 0
                && old(self).l0_slot_chunk_addrs@[(index / 128) as int] != 0),
            !r ==> *final(self) == *old(self),
            r ==> *final(self) == (PageTableInstallRange {
                l0_slots: final(self).l0_slots,
                l0_table_count: if old(self).l0_slots@[index as int].spec_ready() {
                    old(self).l0_table_count
                } else {
                    (old(self).l0_table_count + 1) as usize
                },
                ..*old(self)
            }) && final(self).l0_slots@ == old(self).l0_slots@.update(
                index as int,
                PageTablePageSlot { addr, phys, present: true },
            ),
    {
        proof {
            if is_pow2(page_size) {
                lemma_align_masks(phys, page_size);
            }
        }
        if index >= self.max_l0_table_count() || page_size != self.page_size
            || !page_table_storage_ready(addr, page_size) || phys % page_size != 0 {
            return false;
        }
        let chunk_index = index / VMALLOC_L0_SLOT_CHUNK_SIZE;
        if self.l0_slot_chunk_addr(chunk_index).is_none() {
            return false;
        }
        if !self.l0_slots[index].ready() {
            self.l0_table_count += 1;
        }
        self.l0_slots.set(index, PageTablePageSlot::new(addr, phys));
        true
    }

    /// Records the level-0 table at `addr` in the next free slot, after the ones in use.
    pub fn push_l0_table(&mut self, addr: usize, phys: usize, page_size: usize) -> (r: bool)
        requires
            old(self).wf(),
        ensures
            final(self).wf(),
            !r ==> *final(self) == *old(self),
            r ==> final(self).l0_table_count >= old(self).l0_table_count,
            r == (old(self).l0_table_count < VMALLOC_RUNTIME_L0_TABLE_SLOTS && page_size == old(self).page_size && page_table_storage_ready_spec(addr, page_size) && phys % page_size == 0
                && old(self).l0_slot_chunk_addrs@[(old(self).l0_table_count / 128) as int] != 0),
    {
        if self.l0_table_count >= VMALLOC_RUNTIME_L0_TABLE_SLOTS {
            return false;
        }
        let index = self.l0_table_count;
        self.install_l0_table(index, addr, phys, page_size)
    }
}

impl PageTableInstallRange {
    /// The window can be mapped at run time: the tables are ready, the window starts on
    /// a 1 GiB boundary, the level-1 tables cover it, and their root entries fit.
    pub open spec fn spec_install_range_valid(&self) -> bool {
        let vpn2_start = sv39_index_spec(self.virt_start, 30);
        let window = if self.virt_end >= self.virt_start { self.virt_end - self.virt_start } else { 0 };
        let l1_window = crate::arith::saturating_mul_spec(PAGE_TABLE_ENTRIES, self.spec_l0_window_size());
        &&& self.spec_ready()
        &&& sv39_index_spec(self.virt_start, 12) == 0
        &&& sv39_index_spec(self.virt_start, 21) == 0
        &&& l1_window * VMALLOC_RUNTIME_L1_TABLE_SLOTS <= usize::MAX
        &&& window <= l1_window * VMALLOC_RUNTIME_L1_TABLE_SLOTS
        &&& vpn2_start + VMALLOC_RUNTIME_L1_TABLE_SLOTS <= PAGE_TABLE_ENTRIES
    }

    pub fn install_range_valid(&self) -> (r: bool)
        ensures
            r == self.spec_install_range_valid(),
    {
        let vpn2_start = sv39_index(self.window_start(), 30);
        if !self.ready() || sv39_index(self.window_start(), 12) != 0 || sv39_index(
            self.window_start(),
            21,
        ) != 0 {
            return false;
        }
        let size = match self.l1_window_size().checked_mul(self.max_l1_table_count()) {
            Some(s) => s,
            None => {
                return false;
            },
        };
        self.window_size() <= size && vpn2_start + self.max_l1_table_count() <= PAGE_TABLE_ENTRIES
    }

    /// `[virt_start, virt_start + bytes)` lies inside the window.
    pub fn range_within_install_range(&self, virt_start: usize, bytes: usize) -> (r: bool)
        ensures
            r == (virt_start + bytes <= usize::MAX && virt_start >= self.virt_start && virt_start
                + bytes <= self.virt_end),
    {
        let virt_end = match virt_start.checked_add(bytes) {
            Some(e) => e,
            None => {
                return false;
            },
        };
        virt_start >= self.window_start() && virt_end <= self.window_end()
    }

    /// The level-0 table that covers `virt`, by its index from the window's start.
    pub open spec fn spec_install_window_index(&self, virt: usize) -> Option<usize> {
        if virt < self.virt_start || self.spec_l0_window_size() == 0 {
            None
        } else if (virt - self.virt_start) / (self.spec_l0_window_size() as int)
            < VMALLOC_RUNTIME_L0_TABLE_SLOTS {
            Some(((virt - self.virt_start) / (self.spec_l0_window_size() as int)) as usize)
        } else {
            None
        }
    }

    pub fn install_window_index(&self, virt: usize) -> (r: Option<usize>)
        ensures
            r == self.spec_install_window_index(virt),
    {
        if virt < self.window_start() {
            return None;
        }
        let offset = virt - self.window_start();
        let window_size = self.l0_window_size();
        if window_size == 0 {
            return None;
        }
        let index = offset / window_size;
        if index < self.max_l0_table_count() {
            Some(index)
        } else {
            None
        }
    }

    /// The level-1 and level-0 table indices that cover `virt`.
    pub fn install_window_indices(&self, virt: usize) -> (r: Option<(usize, usize)>)
        ensures
            r == (match self.spec_install_window_index(virt) {
                Some(l0) => if l0 / PAGE_TABLE_ENTRIES < VMALLOC_RUNTIME_L1_TABLE_SLOTS {
                    Some(((l0 / PAGE_TABLE_ENTRIES) as usize, l0))
                } else {
                    None
                },
                None => None,
            }),
    {
        let l0_index = match self.install_window_index(virt) {
            Some(i) => i,
            None => {
                return None;
            },
        };
        let l1_index = l0_index / PAGE_TABLE_ENTRIES;
        if l1_index < self.max_l1_table_count() {
            Some((l1_index, l0_index))
        } else {
            None
        }
    }

    /// The address of level-0 table `index`, if its slot is recorded.
    pub fn l0_table_addr(&self, index: usize) -> (r: Option<usize>)
        requires
            self.wf(),
        ensures
            r == (match self.spec_l0_slot(index) {
                Some(s) => Some(s.addr),
                None => None,
            }),
    {
        match self.l0_slot(index) {
            Some(s) => Some(s.addr),
            None => None,
        }
    }

    /// The physical address of level-0 table `index`, if its slot is recorded.
    pub fn l0_table_phys(&self, index: usize) -> (r: Option<usize>)
        requires
            self.wf(),
        ensures
            r == (match self.spec_l0_slot(index) {
                Some(s) => Some(s.phys),
                None => None,
            }),
    {
        match self.l0_slot(index) {
            Some(s) => Some(s.phys),
            None => None,
        }
    }
}

} // verus!
