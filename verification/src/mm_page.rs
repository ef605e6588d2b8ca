//! Page frames and their metadata: frame numbers, physical and linear addresses, and the map
//! from each frame of the managed range to its metadata record.
use vstd::prelude::*;
use crate::arith::{checked_round_up, checked_round_up_spec, is_pow2, is_power_of_two, lemma_align_masks};
use crate::boot_facts::{Config, Vm, Zones};
use crate::memblock::MemBlock;
use crate::mm_topology::{phys_to_pfn_spec, phys_to_pfn_value, zone_phys_bounds, zone_phys_bounds_spec};
use crate::raw_dtb::PhysRange;
use crate::state::{
    condition_error, failed_condition, transition_result, transition_state, EventError,
    EventResult, Lifecycle, LifecycleEvent, State,
};

verus! {

/// The size of one metadata record: six machine words.
pub const PAGE_METADATA_SIZE: usize = 48;

pub const BUDDY_INVALID_INDEX: usize = usize::MAX;

pub const PAGE_METADATA_FLAG_BUDDY_FREE: usize = 1;

pub const PAGE_METADATA_FLAG_BUDDY_ALLOCATED: usize = 2;

#[derive(Clone, Copy, PartialEq, Eq, Structural, Debug)]
pub struct Pfn {
    pub value: usize,
}

impl Pfn {
    pub fn new(value: usize) -> (r: Self)
        ensures
            r.value == value,
    {
        Self { value }
    }

    pub fn value(self) -> (r: usize)
        ensures
            r == self.value,
    {
        self.value
    }
}

#[derive(Clone, Copy, PartialEq, Eq, Structural, Debug)]
pub struct PhysPageAddr {
    pub addr: usize,
}

impl PhysPageAddr {
    pub fn new(addr: usize) -> (r: Self)
        ensures
            r.addr == addr,
    {
        Self { addr }
    }

    pub fn value(self) -> (r: usize)
        ensures
            r == self.addr,
    {
        self.addr
    }
}

#[derive(Clone, Copy, PartialEq, Eq, Structural, Debug)]
pub struct LinearMappedPageAddr {
    pub addr: usize,
}

impl LinearMappedPageAddr {
    pub fn new(addr: usize) -> (r: Self)
        ensures
            r.addr == addr,
    {
        Self { addr }
    }

    pub fn value(self) -> (r: usize)
        ensures
            r == self.addr,
    {
        self.addr
    }
}

/// Allocation flags.
#[derive(Clone, Copy, PartialEq, Eq, Structural, Debug)]
pub struct GfpFlags {
    pub bits: usize,
}

pub const GFP_KERNEL_BITS: usize = 1;

impl GfpFlags {
    pub fn empty() -> (r: Self)
        ensures
            r.bits == 0,
    {
        Self { bits: 0 }
    }

    pub fn kernel() -> (r: Self)
        ensures
            r.bits == GFP_KERNEL_BITS,
    {
        Self { bits: GFP_KERNEL_BITS }
    }

    pub fn bits(self) -> (r: usize)
        ensures
            r == self.bits,
    {
        self.bits
    }

    /// The boot buddy allocator serves requests with no flag but the kernel one.
    pub open spec fn spec_boot_buddy_allowed(self) -> bool {
        self.bits & !GFP_KERNEL_BITS == 0
    }

    pub fn boot_buddy_allowed(self) -> (r: bool)
        ensures
            r == self.spec_boot_buddy_allowed(),
    {
        self.bits & !GFP_KERNEL_BITS == 0
    }
}

/// A handle to one managed page frame: its number, its metadata record, and its addresses.
#[derive(Clone, Copy, PartialEq, Eq, Structural, Debug)]
pub struct PageRef {
    pub pfn: Pfn,
    pub metadata_index: usize,
    pub metadata_linear: usize,
    pub phys: PhysPageAddr,
    pub linear: LinearMappedPageAddr,
}

impl PageRef {
    pub fn pfn(self) -> (r: Pfn)
        ensures
            r == self.pfn,
    {
        self.pfn
    }

    pub fn metadata_index(self) -> (r: usize)
        ensures
            r == self.metadata_index,
    {
        self.metadata_index
    }

    pub fn metadata_linear(self) -> (r: usize)
        ensures
            r == self.metadata_linear,
    {
        self.metadata_linear
    }

    pub fn phys(self) -> (r: PhysPageAddr)
        ensures
            r == self.phys,
    {
        self.phys
    }

    pub fn linear(self) -> (r: LinearMappedPageAddr)
        ensures
            r == self.linear,
    {
        self.linear
    }
}

/// The metadata record of one page frame, with its buddy free-list links.
#[derive(Clone, Copy, PartialEq, Eq, Structural, Debug)]
pub struct PageMetadata {
    pub pfn: usize,
    pub flags: usize,
    pub refcount: usize,
    pub buddy_order: usize,
    pub buddy_prev: usize,
    pub buddy_next: usize,
}

impl PageMetadata {
    pub open spec fn spec_new(pfn: usize) -> PageMetadata {
        PageMetadata {
            pfn,
            flags: 0,
            refcount: 0,
            buddy_order: 0,
            buddy_prev: BUDDY_INVALID_INDEX,
            buddy_next: BUDDY_INVALID_INDEX,
        }
    }

    pub fn new(pfn: usize) -> (r: Self)
        ensures
            r == Self::spec_new(pfn),
    {
        Self {
            pfn,
            flags: 0,
            refcount: 0,
            buddy_order: 0,
            buddy_prev: BUDDY_INVALID_INDEX,
            buddy_next: BUDDY_INVALID_INDEX,
        }
    }

    pub fn pfn(self) -> (r: Pfn)
        ensures
            r.value == self.pfn,
    {
        Pfn::new(self.pfn)
    }

    pub open spec fn spec_is_buddy_free(self) -> bool {
        self.flags & PAGE_METADATA_FLAG_BUDDY_FREE != 0
    }

    pub open spec fn spec_is_buddy_allocated(self) -> bool {
        self.flags & PAGE_METADATA_FLAG_BUDDY_ALLOCATED != 0
    }

    pub fn is_buddy_free(self) -> (r: bool)
        ensures
            r == self.spec_is_buddy_free(),
    {
        self.flags & PAGE_METADATA_FLAG_BUDDY_FREE != 0
    }

    pub fn is_buddy_allocated(self) -> (r: bool)
        ensures
            r == self.spec_is_buddy_allocated(),
    {
        self.flags & PAGE_METADATA_FLAG_BUDDY_ALLOCATED != 0
    }

    pub fn buddy_order(self) -> (r: usize)
        ensures
            r == self.buddy_order,
    {
        self.buddy_order
    }

    pub open spec fn link(index: usize) -> Option<usize> {
        if index == BUDDY_INVALID_INDEX {
            None
        } else {
            Some(index)
        }
    }

    pub fn buddy_prev(self) -> (r: Option<usize>)
        ensures
            r == Self::link(self.buddy_prev),
    {
        if self.buddy_prev == BUDDY_INVALID_INDEX {
            None
        } else {
            Some(self.buddy_prev)
        }
    }

    pub fn buddy_next(self) -> (r: Option<usize>)
        ensures
            r == Self::link(self.buddy_next),
    {
        if self.buddy_next == BUDDY_INVALID_INDEX {
            None
        } else {
            Some(self.buddy_next)
        }
    }

    /// The record of a free block of `order` heading at this frame.
    pub open spec fn spec_marked_free(self, order: usize, prev: usize, next: usize) -> PageMetadata {
        PageMetadata {
            flags: (self.flags & !PAGE_METADATA_FLAG_BUDDY_ALLOCATED)
                | PAGE_METADATA_FLAG_BUDDY_FREE,
            refcount: 0,
            buddy_order: order,
            buddy_prev: prev,
            buddy_next: next,
            ..self
        }
    }

    /// The record of an allocated block of `order` heading at this frame.
    pub open spec fn spec_marked_allocated(self, order: usize) -> PageMetadata {
        PageMetadata {
            flags: (self.flags & !PAGE_METADATA_FLAG_BUDDY_FREE)
                | PAGE_METADATA_FLAG_BUDDY_ALLOCATED,
            refcount: 1,
            buddy_order: order,
            buddy_prev: BUDDY_INVALID_INDEX,
            buddy_next: BUDDY_INVALID_INDEX,
            ..self
        }
    }

    /// The record with no buddy state.
    pub open spec fn spec_cleared(self) -> PageMetadata {
        PageMetadata {
            flags: self.flags & !(PAGE_METADATA_FLAG_BUDDY_FREE
                | PAGE_METADATA_FLAG_BUDDY_ALLOCATED),
            refcount: 0,
            buddy_order: 0,
            buddy_prev: BUDDY_INVALID_INDEX,
            buddy_next: BUDDY_INVALID_INDEX,
            ..self
        }
    }

    /// What each marking leaves in the two buddy flag bits.
    pub proof fn lemma_marks(self, order: usize, prev: usize, next: usize)
        ensures
            self.spec_marked_free(order, prev, next).spec_is_buddy_free(),
            !self.spec_marked_free(order, prev, next).spec_is_buddy_allocated(),
            self.spec_marked_allocated(order).spec_is_buddy_allocated(),
            !self.spec_marked_allocated(order).spec_is_buddy_free(),
            !self.spec_cleared().spec_is_buddy_free(),
            !self.spec_cleared().spec_is_buddy_allocated(),
    {
        let f = self.flags;
        assert(((f & !2usize) | 1usize) & 1usize != 0) by (bit_vector);
        assert(((f & !2usize) | 1usize) & 2usize == 0) by (bit_vector);
        assert(((f & !1usize) | 2usize) & 2usize != 0) by (bit_vector);
        assert(((f & !1usize) | 2usize) & 1usize == 0) by (bit_vector);
        assert((f & !(1usize | 2usize)) & 1usize == 0) by (bit_vector);
        assert((f & !(1usize | 2usize)) & 2usize == 0) by (bit_vector);
    }

    pub fn mark_buddy_free(&mut self, order: usize, prev: usize, next: usize)
        ensures
            *final(self) == old(self).spec_marked_free(order, prev, next),
    {
        self.flags = self.flags & !PAGE_METADATA_FLAG_BUDDY_ALLOCATED;
        self.flags = self.flags | PAGE_METADATA_FLAG_BUDDY_FREE;
        self.refcount = 0;
        self.buddy_order = order;
        self.buddy_prev = prev;
        self.buddy_next = next;
    }

    pub fn mark_buddy_allocated(&mut self, order: usize)
        ensures
            *final(self) == old(self).spec_marked_allocated(order),
    {
        self.flags = self.flags & !PAGE_METADATA_FLAG_BUDDY_FREE;
        self.flags = self.flags | PAGE_METADATA_FLAG_BUDDY_ALLOCATED;
        self.refcount = 1;
        self.buddy_order = order;
        self.buddy_prev = BUDDY_INVALID_INDEX;
        self.buddy_next = BUDDY_INVALID_INDEX;
    }

    pub fn clear_buddy_state(&mut self)
        ensures
            *final(self) == old(self).spec_cleared(),
    {
        self.flags = self.flags & !(PAGE_METADATA_FLAG_BUDDY_FREE
            | PAGE_METADATA_FLAG_BUDDY_ALLOCATED);
        self.refcount = 0;
        self.buddy_order = 0;
        self.buddy_prev = BUDDY_INVALID_INDEX;
        self.buddy_next = BUDDY_INVALID_INDEX;
    }
}

/// The frame range under management and its metadata records, one per frame, stored in
/// memory taken from the boot allocator and reached through the linear map.
pub struct PageMetadataMap {
    pub lifecycle: Lifecycle,
    pub start_pfn: usize,
    pub end_pfn: usize,
    pub page_size: usize,
    pub metadata_bytes: usize,
    pub metadata_storage_size: usize,
    pub metadata_storage: PhysRange,
    pub metadata_storage_linear: usize,
    pub linear_map_virt_start: usize,
    pub metadata_count: usize,
    /// The records, by metadata index.
    pub metadata: Vec<PageMetadata>,
}

impl PageMetadataMap {
    /// A ready map holds one record per frame of `[start_pfn, end_pfn)`, with a power-of-two
    /// page size.
    pub open spec fn wf(&self) -> bool {
        self.lifecycle@ == State::Ready ==> {
            &&& self.metadata@.len() == self.metadata_count
            &&& self.end_pfn == self.start_pfn + self.metadata_count
            &&& is_pow2(self.page_size)
        }
    }

    pub fn new() -> (s: Self)
        ensures
            s.wf(),
            s.lifecycle@ == State::Base,
            s.metadata_count == 0,
            s.metadata@.len() == 0,
    {
        Self {
            lifecycle: Lifecycle::new(State::Base),
            start_pfn: 0,
            end_pfn: 0,
            page_size: 0,
            metadata_bytes: 0,
            metadata_storage_size: 0,
            metadata_storage: PhysRange::empty(),
            metadata_storage_linear: 0,
            linear_map_virt_start: 0,
            metadata_count: 0,
            metadata: Vec::new(),
        }
    }

    pub fn state(&self) -> (r: State)
        ensures
            r == self.lifecycle@,
    {
        self.lifecycle.state()
    }

    pub fn start_pfn(&self) -> (r: Pfn)
        ensures
            r.value == self.start_pfn,
    {
        Pfn::new(self.start_pfn)
    }

    pub fn end_pfn(&self) -> (r: Pfn)
        ensures
            r.value == self.end_pfn,
    {
        Pfn::new(self.end_pfn)
    }

    pub fn page_size(&self) -> (r: usize)
        ensures
            r == self.page_size,
    {
        self.page_size
    }

    pub fn metadata_count(&self) -> (r: usize)
        ensures
            r == self.metadata_count,
    {
        self.metadata_count
    }

    pub fn metadata_bytes(&self) -> (r: usize)
        ensures
            r == self.metadata_bytes,
    {
        self.metadata_bytes
    }

    pub fn metadata_storage_size(&self) -> (r: usize)
        ensures
            r == self.metadata_storage_size,
    {
        self.metadata_storage_size
    }

    pub fn metadata_storage(&self) -> (r: PhysRange)
        ensures
            r == self.metadata_storage,
    {
        self.metadata_storage
    }

    pub fn metadata_storage_linear(&self) -> (r: usize)
        ensures
            r == self.metadata_storage_linear,
    {
        self.metadata_storage_linear
    }

    /// The handle of frame `pfn`, where its addresses are representable.
    pub open spec fn spec_page_ref_from_pfn(&self, pfn: usize) -> Option<PageRef> {
        if pfn < self.start_pfn {
            None
        } else {
            let index = pfn - self.start_pfn;
            let offset = index * PAGE_METADATA_SIZE;
            let metadata_linear = self.metadata_storage_linear + offset;
            let phys = pfn * self.page_size;
            let linear = phys + self.linear_map_virt_start;
            if offset > usize::MAX || metadata_linear > usize::MAX || phys > usize::MAX || linear
                > usize::MAX {
                None
            } else {
                Some(
                    PageRef {
                        pfn: Pfn { value: pfn },
                        metadata_index: index as usize,
                        metadata_linear: metadata_linear as usize,
                        phys: PhysPageAddr { addr: phys as usize },
                        linear: LinearMappedPageAddr { addr: linear as usize },
                    },
                )
            }
        }
    }

    fn page_ref_from_pfn(&self, pfn: usize) -> (r: Option<PageRef>)
        ensures
            r == self.spec_page_ref_from_pfn(pfn),
    {
        let metadata_index = match pfn.checked_sub(self.start_pfn) {
            Some(i) => i,
            None => return None,
        };
        let metadata_offset = match metadata_index.checked_mul(PAGE_METADATA_SIZE) {
            Some(o) => o,
            None => return None,
        };
        let metadata_linear = match self.metadata_storage_linear.checked_add(metadata_offset) {
            Some(l) => l,
            None => return None,
        };
        let phys = match pfn.checked_mul(self.page_size) {
            Some(p) => p,
            None => return None,
        };
        let linear = match phys.checked_add(self.linear_map_virt_start) {
            Some(l) => l,
            None => return None,
        };
        Some(
            PageRef {
                pfn: Pfn::new(pfn),
                metadata_index,
                metadata_linear,
                phys: PhysPageAddr::new(phys),
                linear: LinearMappedPageAddr::new(linear),
            },
        )
    }

    pub open spec fn spec_contains_pfn(&self, pfn: Pfn) -> bool {
        self.lifecycle@ == State::Ready && pfn.value >= self.start_pfn && pfn.value < self.end_pfn
    }

    pub fn contains_pfn(&self, pfn: Pfn) -> (r: bool)
        ensures
            r == self.spec_contains_pfn(pfn),
    {
        self.lifecycle.state() == State::Ready && pfn.value() >= self.start_pfn && pfn.value()
            < self.end_pfn
    }

    pub open spec fn spec_pfn_to_page(&self, pfn: Pfn) -> Option<PageRef> {
        if !self.spec_contains_pfn(pfn) {
            None
        } else {
            self.spec_page_ref_from_pfn(pfn.value)
        }
    }

    /// The handle of a managed frame.
    pub fn pfn_to_page(&self, pfn: Pfn) -> (r: Option<PageRef>)
        ensures
            r == self.spec_pfn_to_page(pfn),
    {
        if !self.contains_pfn(pfn) {
            return None;
        }
        self.page_ref_from_pfn(pfn.value())
    }

    pub open spec fn spec_phys_to_page(&self, phys: PhysPageAddr) -> Option<PageRef> {
        if self.lifecycle@ != State::Ready || self.page_size == 0 || phys.addr % self.page_size
            != 0 {
            None
        } else {
            match phys_to_pfn_spec(phys.addr, self.page_size) {
                Some(pfn) => self.spec_pfn_to_page(Pfn { value: pfn }),
                None => None,
            }
        }
    }

    /// The handle of the managed frame at a page-aligned physical address.
    pub fn phys_to_page(&self, phys: PhysPageAddr) -> (r: Option<PageRef>)
        ensures
            r == self.spec_phys_to_page(phys),
    {
        if self.lifecycle.state() != State::Ready || self.page_size == 0 {
            return None;
        }
        if phys.value() % self.page_size != 0 {
            return None;
        }
        let pfn = match phys_to_pfn_value(phys.value(), self.page_size) {
            Some(p) => p,
            None => return None,
        };
        self.pfn_to_page(Pfn::new(pfn))
    }

    pub open spec fn spec_virt_to_page(&self, linear: LinearMappedPageAddr) -> Option<PageRef> {
        if self.lifecycle@ != State::Ready || linear.addr < self.linear_map_virt_start {
            None
        } else {
            self.spec_phys_to_page(
                PhysPageAddr { addr: (linear.addr - self.linear_map_virt_start) as usize },
            )
        }
    }

    /// The handle of the managed frame at a linear-map address.
    pub fn virt_to_page(&self, linear: LinearMappedPageAddr) -> (r: Option<PageRef>)
        ensures
            r == self.spec_virt_to_page(linear),
    {
        if self.lifecycle.state() != State::Ready {
            return None;
        }
        let phys = match linear.value().checked_sub(self.linear_map_virt_start) {
            Some(p) => p,
            None => return None,
        };
        self.phys_to_page(PhysPageAddr::new(phys))
    }

    /// A handle is valid when it is the one the map gives for its frame.
    pub open spec fn spec_validate_page(&self, page: PageRef) -> bool {
        self.spec_pfn_to_page(page.pfn) == Some(page)
    }

    fn validate_page(&self, page: PageRef) -> (r: bool)
        ensures
            r == self.spec_validate_page(page),
    {
        match self.pfn_to_page(page.pfn()) {
            Some(p) => p == page,
            None => false,
        }
    }

    pub fn page_to_pfn(&self, page: PageRef) -> (r: Option<Pfn>)
        ensures
            r == (if self.spec_validate_page(page) {
                Some(page.pfn)
            } else {
                None
            }),
    {
        if self.validate_page(page) {
            Some(page.pfn())
        } else {
            None
        }
    }

    pub fn page_to_phys(&self, page: PageRef) -> (r: Option<PhysPageAddr>)
        ensures
            r == (if self.spec_validate_page(page) {
                Some(page.phys)
            } else {
                None
            }),
    {
        if self.validate_page(page) {
            Some(page.phys())
        } else {
            None
        }
    }

    pub open spec fn spec_page_to_virt(&self, page: PageRef) -> Option<LinearMappedPageAddr> {
        if self.spec_validate_page(page) {
            Some(page.linear)
        } else {
            None
        }
    }

    pub fn page_to_virt(&self, page: PageRef) -> (r: Option<LinearMappedPageAddr>)
        ensures
            r == self.spec_page_to_virt(page),
    {
        if self.validate_page(page) {
            Some(page.linear())
        } else {
            None
        }
    }

    pub fn page_address(&self, page: PageRef) -> (r: Option<usize>)
        ensures
            r == (if self.spec_validate_page(page) {
                Some(page.linear.addr)
            } else {
                None
            }),
    {
        match self.page_to_virt(page) {
            Some(addr) => Some(addr.value()),
            None => None,
        }
    }

    /// A handle of the map is valid only while it is ready, and names a stored record.
    pub proof fn lemma_valid_page(&self, page: PageRef)
        requires
            self.wf(),
            self.spec_validate_page(page),
        ensures
            self.lifecycle@ == State::Ready,
            page.metadata_index < self.metadata@.len(),
            page.metadata_index == page.pfn.value - self.start_pfn,
            self.spec_page_ref_from_metadata_index(page.metadata_index) == Some(page),
    {
    }

    pub open spec fn spec_page_metadata(&self, page: PageRef) -> Option<PageMetadata> {
        if self.spec_validate_page(page) {
            Some(self.metadata@[page.metadata_index as int])
        } else {
            None
        }
    }

    /// The record of a valid handle.
    pub fn page_metadata(&self, page: PageRef) -> (r: Option<PageMetadata>)
        requires
            self.wf(),
        ensures
            r == self.spec_page_metadata(page),
    {
        if !self.validate_page(page) {
            return None;
        }
        proof {
            self.lemma_valid_page(page);
        }
        Some(self.metadata[page.metadata_index])
    }

    pub fn page_metadata_pfn(&self, page: PageRef) -> (r: Option<Pfn>)
        requires
            self.wf(),
        ensures
            r == (match self.spec_page_metadata(page) {
                Some(m) => Some(Pfn { value: m.pfn }),
                None => None,
            }),
    {
        match self.page_metadata(page) {
            Some(m) => Some(m.pfn()),
            None => None,
        }
    }

    pub fn page_metadata_is_buddy_free(&self, page: PageRef) -> (r: Option<bool>)
        requires
            self.wf(),
        ensures
            r == (match self.spec_page_metadata(page) {
                Some(m) => Some(m.spec_is_buddy_free()),
                None => None,
            }),
    {
        match self.page_metadata(page) {
            Some(m) => Some(m.is_buddy_free()),
            None => None,
        }
    }

    /// The order of the free block that a valid handle heads; `None` for any other frame.
    pub fn page_metadata_buddy_order(&self, page: PageRef) -> (r: Option<usize>)
        requires
            self.wf(),
        ensures
            r == (match self.spec_page_metadata(page) {
                Some(m) => if m.spec_is_buddy_free() {
                    Some(m.buddy_order)
                } else {
                    None
                },
                None => None,
            }),
    {
        let metadata = match self.page_metadata(page) {
            Some(m) => m,
            None => return None,
        };
        if metadata.is_buddy_free() {
            Some(metadata.buddy_order())
        } else {
            None
        }
    }

    pub open spec fn spec_page_ref_from_metadata_index(&self, metadata_index: usize) -> Option<
        PageRef,
    > {
        if metadata_index >= self.metadata_count || self.start_pfn + metadata_index
            > usize::MAX {
            None
        } else {
            self.spec_page_ref_from_pfn((self.start_pfn + metadata_index) as usize)
        }
    }

    pub fn page_ref_from_metadata_index(&self, metadata_index: usize) -> (r: Option<PageRef>)
        ensures
            r == self.spec_page_ref_from_metadata_index(metadata_index),
    {
        if metadata_index >= self.metadata_count {
            return None;
        }
        let pfn = match self.start_pfn.checked_add(metadata_index) {
            Some(p) => p,
            None => return None,
        };
        self.page_ref_from_pfn(pfn)
    }

    /// The handle at a metadata index names that index.
    pub proof fn lemma_ref_index(&self, metadata_index: usize)
        ensures
            self.spec_page_ref_from_metadata_index(metadata_index) matches Some(p) ==> p.metadata_index
                == metadata_index && metadata_index < self.metadata_count && p.pfn.value
                == self.start_pfn + metadata_index,
    {
    }

    /// The record at a metadata index of a ready map.
    pub open spec fn spec_metadata_by_index(&self, metadata_index: usize) -> Option<
        PageMetadata,
    > {
        if self.lifecycle@ == State::Ready && metadata_index < self.metadata_count
            && self.spec_page_ref_from_metadata_index(metadata_index) is Some {
            Some(self.metadata@[metadata_index as int])
        } else {
            None
        }
    }

    pub fn metadata_by_index(&self, metadata_index: usize) -> (r: Option<PageMetadata>)
        requires
            self.wf(),
        ensures
            r == self.spec_metadata_by_index(metadata_index),
    {
        let page = match self.page_ref_from_metadata_index(metadata_index) {
            Some(p) => p,
            None => return None,
        };
        self.page_metadata(page)
    }

    /// Replaces the record at a metadata index that has a handle.
    pub fn write_metadata_by_index(&mut self, metadata_index: usize, metadata: PageMetadata) -> (r:
        bool)
        requires
            old(self).wf(),
            old(self).lifecycle@ == State::Ready,
        ensures
            final(self).wf(),
            r == old(self).spec_page_ref_from_metadata_index(metadata_index) is Some,
            r ==> *final(self) == (PageMetadataMap {
                metadata: final(self).metadata,
                ..*old(self)
            }) && final(self).metadata@ == old(self).metadata@.update(
                metadata_index as int,
                metadata,
            ),
            !r ==> *final(self) == *old(self),
    {
        let page = match self.page_ref_from_metadata_index(metadata_index) {
            Some(p) => p,
            None => return false,
        };
        self.metadata.set(page.metadata_index, metadata);
        true
    }

    /// Fills the records for every frame of the range; refused without storage.
    fn initialize_metadata(&mut self) -> (r: bool)
        requires
            old(self).start_pfn + old(self).metadata_count <= usize::MAX,
        ensures
            r == (old(self).metadata_storage_linear != 0 && old(self).metadata_count != 0),
            r ==> *final(self) == (PageMetadataMap {
                metadata: final(self).metadata,
                ..*old(self)
            }) && final(self).metadata@.len() == old(self).metadata_count && (forall|i: int|
                0 <= i < old(self).metadata_count ==> #[trigger] final(self).metadata@[i]
                    == PageMetadata::spec_new((old(self).start_pfn + i) as usize)),
            !r ==> *final(self) == *old(self),
    {
        if self.metadata_storage_linear == 0 || self.metadata_count == 0 {
            return false;
        }
        let mut records: Vec<PageMetadata> = Vec::new();
        let mut index: usize = 0;
        while index < self.metadata_count
            invariant
                index <= self.metadata_count,
                *self == *old(self),
                self.start_pfn + self.metadata_count <= usize::MAX,
                records@.len() == index,
                forall|i: int|
                    0 <= i < index ==> #[trigger] records@[i] == PageMetadata::spec_new(
                        (self.start_pfn + i) as usize,
                    ),
            decreases self.metadata_count - index,
        {
            let pfn = self.start_pfn + index;
            records.push(PageMetadata::new(pfn));
            index += 1;
        }
        self.metadata = records;
        true
    }

    /// The conditions under which setup lays the map out over the zones.
    pub open spec fn setup_guard(
        &self,
        memblock_state: State,
        zones: &Zones,
        vm: &Vm,
        config: &Config,
    ) -> bool {
        &&& self.lifecycle@ == State::Base
        &&& memblock_state == State::Online
        &&& zones.state == State::Ready
        &&& vm.entry_successor_ready
        &&& config.state == State::Online
        &&& is_pow2(config.page_size)
    }

    /// Whether setup lays the map out: its guard holds, the zones have page-aligned bounds
    /// with at least one frame, the record bytes and their page round-up fit, the boot
    /// allocator hands out the storage, and the storage has a non-zero linear address.
    pub open spec fn setup_owed(
        &self,
        memblock: MemBlock,
        zones: &Zones,
        vm: &Vm,
        config: &Config,
    ) -> bool {
        let b = zone_phys_bounds_spec(zones)->0;
        let ps = config.page_size;
        let count = b.1 / ps - b.0 / ps;
        let bytes = count * PAGE_METADATA_SIZE;
        let size = checked_round_up_spec(bytes as usize, ps)->0;
        let storage = memblock.spec_alloc_phys(size, ps)->0;
        &&& self.setup_guard(memblock.lifecycle@, zones, vm, config)
        &&& zone_phys_bounds_spec(zones) is Some
        &&& b.0 < b.1
        &&& b.0 % ps == 0
        &&& b.1 % ps == 0
        &&& bytes <= usize::MAX
        &&& checked_round_up_spec(bytes as usize, ps) is Some
        &&& memblock.spec_alloc_phys(size, ps) is Some
        &&& config.spec_phys_to_linear(storage.start) is Some
        &&& config.spec_phys_to_linear(storage.start)->0 != 0
    }

    /// Lays the map out over the physical bounds of the zones: one record per frame, stored
    /// in page-aligned memory taken from the boot allocator.
    pub fn setup(&mut self, memblock: &mut MemBlock, zones: &Zones, vm: &Vm, config: &Config) -> (r:
        EventResult)
        requires
            old(self).wf(),
            old(memblock).wf(),
        ensures
            final(self).wf(),
            final(memblock).wf(),
            !old(self).setup_guard(old(memblock).lifecycle@, zones, vm, config) ==> r == Err::<
                (),
                EventError,
            >(
                condition_error(
                    LifecycleEvent::Setup,
                    old(self).lifecycle@,
                    State::Base,
                    State::Ready,
                ),
            ) && *final(self) == *old(self) && *final(memblock) == *old(memblock),
            r is Ok ==> {
                let bounds = zone_phys_bounds_spec(zones);
                let b = bounds->0;
                &&& old(self).setup_guard(old(memblock).lifecycle@, zones, vm, config)
                &&& bounds is Some
                &&& final(self).lifecycle@ == State::Ready
                &&& b.0 == config.page_size * final(self).start_pfn
                &&& b.1 == config.page_size * final(self).end_pfn
                &&& final(self).page_size == config.page_size
                &&& final(self).linear_map_virt_start == config.linear_map_virt_start
                &&& final(self).metadata_count == final(self).end_pfn - final(self).start_pfn
                &&& final(self).metadata_bytes == final(self).metadata_count * PAGE_METADATA_SIZE
                &&& Some(final(self).metadata_storage_size) == checked_round_up_spec(
                    final(self).metadata_bytes,
                    config.page_size,
                )
                &&& final(self).metadata_storage.end == final(self).metadata_storage.start
                    + final(self).metadata_storage_size
                &&& Some(final(self).metadata_storage_linear) == config.spec_phys_to_linear(
                    final(self).metadata_storage.start,
                )
                &&& final(memblock).reserved@ == old(memblock).reserved@.push(
                    final(self).metadata_storage,
                )
                &&& final(self).metadata_storage.start % config.page_size == 0
                &&& Some(final(self).metadata_storage) == old(memblock).spec_alloc_phys(
                    final(self).metadata_storage_size,
                    config.page_size,
                )
                &&& forall|i: int|
                    0 <= i < final(self).metadata_count ==> #[trigger] final(self).metadata@[i]
                        == PageMetadata::spec_new((final(self).start_pfn + i) as usize)
            },
            r is Err ==> r == Err::<(), EventError>(
                condition_error(
                    LifecycleEvent::Setup,
                    old(self).lifecycle@,
                    State::Base,
                    State::Ready,
                ),
            ) && final(self).lifecycle == old(self).lifecycle,
            old(self).setup_owed(*old(memblock), zones, vm, config) ==> r is Ok,
    {
        if self.lifecycle.state() != State::Base || memblock.state() != State::Online
            || zones.state != State::Ready || !vm.entry_successor_ready || config.state
            != State::Online || config.page_size == 0 || !is_power_of_two(config.page_size) {
            return self.failed_setup();
        }
        proof {
            lemma_align_masks(0, config.page_size);
        }
        let page_size = config.page_size;
        let (start, end) = match zone_phys_bounds(zones) {
            Some(b) => b,
            None => return self.failed_setup(),
        };
        if start >= end || start % page_size != 0 || end % page_size != 0 {
            return self.failed_setup();
        }
        let start_pfn = match phys_to_pfn_value(start, page_size) {
            Some(p) => p,
            None => return self.failed_setup(),
        };
        let end_pfn = match phys_to_pfn_value(end, page_size) {
            Some(p) => p,
            None => return self.failed_setup(),
        };
        proof {
            vstd::arithmetic::div_mod::lemma_fundamental_div_mod(start as int, page_size as int);
            vstd::arithmetic::div_mod::lemma_fundamental_div_mod(end as int, page_size as int);
            let a = start as int;
            let b = end as int;
            let ps = page_size as int;
            assert(a / ps < b / ps) by (nonlinear_arith)
                requires
                    ps > 0,
                    a < b,
                    a == ps * (a / ps),
                    b == ps * (b / ps),
            ;
        }
        let metadata_count = match end_pfn.checked_sub(start_pfn) {
            Some(c) => c,
            None => return self.failed_setup(),
        };
        if metadata_count == 0 {
            return self.failed_setup();
        }
        let metadata_bytes = match metadata_count.checked_mul(PAGE_METADATA_SIZE) {
            Some(b) => b,
            None => return self.failed_setup(),
        };
        let metadata_storage_size = match checked_round_up(metadata_bytes, page_size) {
            Some(s) => s,
            None => return self.failed_setup(),
        };
        let storage = match memblock.alloc_phys(metadata_storage_size, page_size) {
            Some(s) => s,
            None => return self.failed_setup(),
        };
        let metadata_storage_linear = match config.phys_to_linear(storage.start()) {
            Some(l) => l,
            None => return self.failed_setup(),
        };
        let storage_end = match storage.start().checked_add(metadata_storage_size) {
            Some(e) => e,
            None => return self.failed_setup(),
        };
        if storage.end() != storage_end || storage.start() % page_size != 0 {
            return self.failed_setup();
        }
        proof {
            vstd::arithmetic::div_mod::lemma_fundamental_div_mod(start as int, page_size as int);
            vstd::arithmetic::div_mod::lemma_fundamental_div_mod(end as int, page_size as int);
        }
        self.start_pfn = start_pfn;
        self.end_pfn = end_pfn;
        self.page_size = page_size;
        self.metadata_bytes = metadata_bytes;
        self.metadata_storage_size = metadata_storage_size;
        self.metadata_storage = storage;
        self.metadata_storage_linear = metadata_storage_linear;
        self.linear_map_virt_start = config.linear_map_virt_start;
        self.metadata_count = metadata_count;
        if !self.initialize_metadata() {
            return self.failed_setup();
        }
        self.lifecycle.transition(LifecycleEvent::Setup, State::Base, State::Ready)
    }

    fn failed_setup(&self) -> (r: EventResult)
        ensures
            r == Err::<(), EventError>(
                condition_error(LifecycleEvent::Setup, self.lifecycle@, State::Base, State::Ready),
            ),
    {
        failed_condition(LifecycleEvent::Setup, self.lifecycle.state(), State::Base, State::Ready)
    }
}

} // verus!
