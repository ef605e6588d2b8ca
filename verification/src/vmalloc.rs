use vstd::prelude::*;
use crate::arith::{checked_round_up, checked_round_up_spec, is_pow2, is_power_of_two,
    lemma_align_masks};
use crate::boot_facts::{Config, CpuGroup, Vm};
use crate::mm_page::{GfpFlags, PageMetadataMap, PageRef};
use crate::page_allocator::PageAllocator;
use crate::page_table::{PageTableInstallRange, VMALLOC_RUNTIME_L0_TABLE_SLOTS};
use crate::slab::KmallocSlab;
use crate::state::{
    condition_error, failed_condition, transition_result, transition_state, EventError,
    EventResult, Lifecycle, LifecycleEvent, State,
};

verus! {

/// The first address of the vmalloc space.
pub const VMALLOC_START: usize = 0xffff_ffc8_0000_0000u64 as usize;

/// The end of the vmalloc space.
pub const VMALLOC_END: usize = 0xffff_ffd0_0000_0000u64 as usize;

pub const VMALLOC_RUNTIME_PAGE_SIZE: usize = 4096;

pub const MAX_VMAP_AREAS: usize = 16;

pub const MAX_VMAP_MAPPINGS: usize = 16;

pub const MAX_DYNAMIC_VMALLOC_PGTABLES: usize = 12;
pub struct PageTableCaches {
    pub lifecycle: Lifecycle,
    pub lock_cache: PageTableLockCache,
    pub vmalloc_install_range: PageTableInstallRange,
    pub dynamic_vmalloc_pgtable_pages: [PageRef; 12],
    pub dynamic_vmalloc_pgtable_count: usize,
    pub vmalloc_pgtable_preallocated: bool,
    pub vmalloc_pgtable_dynamic_allocator_ready: bool,
    pub modules_path_trimmed: bool,
    pub memory_hotplug_path_trimmed: bool,
}

impl PageTableCaches {
    pub fn new() -> (s: Self)
        ensures
            s.lifecycle@ == State::Base,
            s.lock_cache.lifecycle@ == State::Base,
            s.vmalloc_install_range.wf(),
            s.dynamic_vmalloc_pgtable_count == 0,
            !s.vmalloc_pgtable_preallocated,
            !s.vmalloc_pgtable_dynamic_allocator_ready,
    {
        Self {
            lifecycle: Lifecycle::new(State::Base),
            lock_cache: PageTableLockCache::new(),
            vmalloc_install_range: PageTableInstallRange::empty(),
            dynamic_vmalloc_pgtable_pages: [KmallocSlab::empty().page; 12],
            dynamic_vmalloc_pgtable_count: 0,
            vmalloc_pgtable_preallocated: false,
            vmalloc_pgtable_dynamic_allocator_ready: false,
            modules_path_trimmed: false,
            memory_hotplug_path_trimmed: false,
        }
    }

    pub fn state(&self) -> (r: State)
        ensures
            r == self.lifecycle@,
    {
        self.lifecycle.state()
    }

    pub fn lock_cache(&self) -> (r: &PageTableLockCache)
        ensures
            *r == self.lock_cache,
    {
        &self.lock_cache
    }

    pub fn vmalloc_pgtable_preallocated(&self) -> (r: bool)
        ensures
            r == self.vmalloc_pgtable_preallocated,
    {
        self.vmalloc_pgtable_preallocated
    }

    pub fn vmalloc_pgtable_dynamic_allocator_ready(&self) -> (r: bool)
        ensures
            r == self.vmalloc_pgtable_dynamic_allocator_ready,
    {
        self.vmalloc_pgtable_dynamic_allocator_ready
    }


    pub fn dynamic_vmalloc_pgtable_count(&self) -> (r: usize)
        ensures
            r == self.dynamic_vmalloc_pgtable_count,
    {
        self.dynamic_vmalloc_pgtable_count
    }

    pub fn vmalloc_install_range(&self) -> (r: PageTableInstallRange)
        ensures
            r.same_as(&self.vmalloc_install_range),
    {
        self.vmalloc_install_range.duplicate()
    }

    /// Binds the vmalloc table range that the swapper tables reserve (`swapper_range`, where
    /// the static objects could give one) and sets up the page-table lock cache.
    pub fn setup(
        &mut self,
        slub_allocator_state: State,
        page_allocator_state: State,
        page_metadata_map_state: State,
        config: &Config,
        vm: &Vm,
        swapper_range: Option<PageTableInstallRange>,
    ) -> (r: EventResult)
        ensures
            old(self).lifecycle@ != State::Base || slub_allocator_state != State::Ready
                || page_allocator_state != State::Ready || page_metadata_map_state != State::Ready
                || config.state != State::Online || config.page_size != VMALLOC_RUNTIME_PAGE_SIZE
                || vm.state != State::Online || !vm.entry_successor_ready || swapper_range is None
                ==> r == Err::<(), EventError>(
                condition_error(
                    LifecycleEvent::Setup,
                    old(self).lifecycle@,
                    State::Base,
                    State::Ready,
                ),
            ) && *final(self) == *old(self),
            r is Ok ==> {
                &&& final(self).lifecycle@ == State::Ready
                &&& final(self).lock_cache.lifecycle@ == State::Ready
                &&& final(self).vmalloc_install_range == swapper_range->0
                &&& final(self).vmalloc_pgtable_preallocated
                &&& final(self).vmalloc_pgtable_dynamic_allocator_ready
            },
            old(self).lifecycle@ == State::Base && slub_allocator_state == State::Ready
                && page_allocator_state == State::Ready && page_metadata_map_state == State::Ready
                && config.state == State::Online && config.page_size == VMALLOC_RUNTIME_PAGE_SIZE
                && vm.state == State::Online && vm.entry_successor_ready && swapper_range is Some
                && old(self).lock_cache.lifecycle@ == State::Base ==> r is Ok,
            r is Err ==> final(self).lifecycle == old(self).lifecycle,
    {
        if self.lifecycle.state() != State::Base || slub_allocator_state != State::Ready
            || page_allocator_state != State::Ready || page_metadata_map_state != State::Ready
            || config.state != State::Online || config.page_size != VMALLOC_RUNTIME_PAGE_SIZE
            || vm.state != State::Online || !vm.entry_successor_ready {
            return self.failed_setup();
        }
        let vmalloc_install_range = match swapper_range {
            Some(r) => r,
            None => return self.failed_setup(),
        };
        let lr = self.lock_cache.setup(slub_allocator_state);
        if lr.is_err() {
            return lr;
        }
        self.vmalloc_install_range = vmalloc_install_range;
        self.vmalloc_pgtable_preallocated = true;
        self.vmalloc_pgtable_dynamic_allocator_ready = true;
        self.modules_path_trimmed = true;
        self.memory_hotplug_path_trimmed = true;
        self.lifecycle.transition(LifecycleEvent::Setup, State::Base, State::Ready)
    }

    fn failed_setup(&self) -> (r: EventResult)
        ensures
            r == Err::<(), EventError>(
                condition_error(LifecycleEvent::Setup, self.lifecycle@, State::Base, State::Ready),
            ),
    {
        failed_condition(LifecycleEvent::Setup, self.lifecycle.state(), State::Base, State::Ready)
    }

    /// Grows the vmalloc range to `target_count` level-0 tables, each a fresh page from the
    /// page allocator, and hands back a copy of the range; the new table pages are zeroed by
    /// the caller.
    pub fn ensure_vmalloc_l0_windows(
        &mut self,
        target_count: usize,
        page_allocator: &mut PageAllocator,
        page_metadata_map: &mut PageMetadataMap,
        config: &Config,
    ) -> (r: Option<PageTableInstallRange>)
        requires
            old(self).vmalloc_install_range.wf(),
            old(self).dynamic_vmalloc_pgtable_count <= MAX_DYNAMIC_VMALLOC_PGTABLES,
            old(page_allocator).inv(),
            old(page_metadata_map).wf(),
        ensures
            final(self).vmalloc_install_range.wf(),
            final(self).dynamic_vmalloc_pgtable_count <= MAX_DYNAMIC_VMALLOC_PGTABLES,
            final(page_allocator).inv(),
            final(page_metadata_map).wf(),
            old(self).lifecycle@ != State::Ready || !old(self).vmalloc_pgtable_dynamic_allocator_ready
                || target_count == 0 || target_count > VMALLOC_RUNTIME_L0_TABLE_SLOTS || !is_pow2(
                config.page_size,
            ) ==> r is None && *final(self) == *old(self) && *final(page_allocator) == *old(page_allocator),
            final(self).lifecycle == old(self).lifecycle,
            r matches Some(range) ==> range.same_as(&final(self).vmalloc_install_range)
                && final(self).vmalloc_install_range.l0_table_count >= target_count,
            old(self).lifecycle@ == State::Ready && old(self).vmalloc_pgtable_dynamic_allocator_ready
                && 0 < target_count <= VMALLOC_RUNTIME_L0_TABLE_SLOTS && is_pow2(config.page_size)
                && old(self).vmalloc_install_range.l0_table_count >= target_count ==> r is Some
                && *final(self) == *old(self) && *final(page_allocator) == *old(page_allocator)
                && *final(page_metadata_map) == *old(page_metadata_map),
    {
        proof {
            if is_pow2(config.page_size) {
                lemma_align_masks(0, config.page_size);
            }
        }
        if self.lifecycle.state() != State::Ready || !self.vmalloc_pgtable_dynamic_allocator_ready
            || target_count == 0 || target_count > self.vmalloc_install_range.max_l0_table_count()
            || config.page_size == 0 || !is_power_of_two(config.page_size) {
            return None;
        }
        while self.vmalloc_install_range.l0_table_count() < target_count
            invariant
                self.vmalloc_install_range.wf(),
                self.dynamic_vmalloc_pgtable_count <= MAX_DYNAMIC_VMALLOC_PGTABLES,
                page_allocator.inv(),
                page_metadata_map.wf(),
                self.lifecycle == old(self).lifecycle,
                old(self).lifecycle@ == State::Ready && old(self).vmalloc_pgtable_dynamic_allocator_ready
                    && target_count != 0 && target_count <= VMALLOC_RUNTIME_L0_TABLE_SLOTS
                    && is_pow2(config.page_size),
                old(self).vmalloc_install_range.l0_table_count >= target_count ==> *self == *old(self) && *page_allocator == *old(page_allocator) && *page_metadata_map == *old(page_metadata_map),
            decreases MAX_DYNAMIC_VMALLOC_PGTABLES - self.dynamic_vmalloc_pgtable_count,
        {
            if self.dynamic_vmalloc_pgtable_count >= MAX_DYNAMIC_VMALLOC_PGTABLES {
                return None;
            }
            let page = match page_allocator.alloc_page(GfpFlags::kernel(), page_metadata_map) {
                Some(p) => p,
                None => return None,
            };
            let phys = match page_metadata_map.page_to_phys(page) {
                Some(p) => p.value(),
                None => return None,
            };
            let linear = match config.phys_to_linear(phys) {
                Some(l) => l,
                None => return None,
            };
            if !self.vmalloc_install_range.push_l0_table(linear, phys, config.page_size) {
                let _ = page_allocator.free_pages(page, 0, page_metadata_map);
                return None;
            }
            self.dynamic_vmalloc_pgtable_pages[self.dynamic_vmalloc_pgtable_count] = page;
            self.dynamic_vmalloc_pgtable_count += 1;
        }
        Some(self.vmalloc_install_range.duplicate())
    }
}

pub struct PageTableLockCache {
    pub lifecycle: Lifecycle,
    pub page_ptl_cache_created: bool,
}

impl PageTableLockCache {
    pub fn new() -> (s: Self)
        ensures
            s.lifecycle@ == State::Base,
            !s.page_ptl_cache_created,
    {
        Self {
            lifecycle: Lifecycle::new(State::Base),
            page_ptl_cache_created: false,
        }
    }

    pub fn state(&self) -> (r: State)
        ensures
            r == self.lifecycle@,
    {
        self.lifecycle.state()
    }

    pub fn page_ptl_cache_created(&self) -> (r: bool)
        ensures
            r == self.page_ptl_cache_created,
    {
        self.page_ptl_cache_created
    }

    pub fn setup(&mut self, slub_allocator_state: State) -> (r: EventResult)
        ensures
            !(old(self).lifecycle@ != State::Base || slub_allocator_state != State::Ready) ==> {
                &&& r == Ok::<(), EventError>(())
                &&& final(self).lifecycle@ == State::Ready
                &&& *final(self) == (PageTableLockCache {
                    page_ptl_cache_created: true,
                    lifecycle: final(self).lifecycle,
                    ..*old(self)
                })
            },
            old(self).lifecycle@ != State::Base || slub_allocator_state != State::Ready ==> {
                &&& r == Err::<(), EventError>(
                    condition_error(
                        LifecycleEvent::Setup,
                        old(self).lifecycle@,
                        State::Base,
                        State::Ready,
                    ),
                )
                &&& *final(self) == *old(self)
            },
    {
        if self.lifecycle.state() != State::Base || slub_allocator_state != State::Ready {
            return failed_condition(
                LifecycleEvent::Setup,
                self.lifecycle.state(),
                State::Base,
                State::Ready,
            );
        }
        self.page_ptl_cache_created = true;
        self.lifecycle.transition(LifecycleEvent::Setup, State::Base, State::Ready)
    }
}

#[derive(Clone, Copy, PartialEq, Eq, Structural, Debug)]
pub enum VmapAreaFlags {
    VmIoremap,
}

impl VmapAreaFlags {
    pub fn is_vm_ioremap(self) -> (r: bool)
        ensures
            r == (self == VmapAreaFlags::VmIoremap),
    {
        match self {
            Self::VmIoremap => true,
        }
    }
}

#[derive(Clone, Copy, PartialEq, Eq, Structural, Debug)]
pub enum PageProtection {
    IoMemory,
}

impl PageProtection {
    pub fn is_io_memory(self) -> (r: bool)
        ensures
            r == (self == PageProtection::IoMemory),
    {
        match self {
            Self::IoMemory => true,
        }
    }


    pub fn kind(self) -> (r: PageProtectionKind)
        ensures
            r == PageProtectionKind::IoMemory,
    {
        match self {
            Self::IoMemory => PageProtectionKind::IoMemory,
        }
    }
}


#[derive(Clone, Copy, PartialEq, Eq, Structural, Debug)]
pub enum PageProtectionKind {
    IoMemory,
}


impl PageProtectionKind {
    pub fn is_io_memory(self) -> (r: bool)
        ensures
            r == (self == PageProtectionKind::IoMemory),
    {
        match self {
            Self::IoMemory => true,
        }
    }
}

#[derive(Clone, Copy, PartialEq, Eq, Structural, Debug)]
pub struct VmapArea {
    pub index: usize,
    pub virt_base: usize,
    pub size: usize,
    pub flags: VmapAreaFlags,
    pub busy: bool,
    pub vm_struct_metadata_ready: bool,
    pub vmap_area_metadata_ready: bool,
    pub released: bool,
}

impl VmapArea {
    pub fn empty() -> (s: Self)
        ensures
            s.index == usize::MAX,
            s.virt_base == 0,
            s.size == 0,
            s.flags == VmapAreaFlags::VmIoremap,
            !s.busy,
            !s.vm_struct_metadata_ready,
            !s.vmap_area_metadata_ready,
            !s.released,
    {
        Self {
            index: usize::MAX,
            virt_base: 0,
            size: 0,
            flags: VmapAreaFlags::VmIoremap,
            busy: false,
            vm_struct_metadata_ready: false,
            vmap_area_metadata_ready: false,
            released: false,
        }
    }

    pub fn new(index: usize, virt_base: usize, size: usize, flags: VmapAreaFlags) -> (s: Self)
        ensures
            s == (VmapArea {
                index,
                virt_base,
                size,
                flags,
                busy: true,
                vm_struct_metadata_ready: true,
                vmap_area_metadata_ready: true,
                released: false,
            }),
    {
        Self {
            index,
            virt_base,
            size,
            flags,
            busy: true,
            vm_struct_metadata_ready: true,
            vmap_area_metadata_ready: true,
            released: false,
        }
    }
    pub open spec fn spec_release(self) -> VmapArea {
        VmapArea {
            busy: false,
            vm_struct_metadata_ready: false,
            vmap_area_metadata_ready: false,
            released: true,
            ..self
        }
    }

    /// The area after it is given back: no longer busy, its metadata dropped.
    pub fn release(self) -> (r: Self)
        ensures
            r == (VmapArea {
                busy: false,
                vm_struct_metadata_ready: false,
                vmap_area_metadata_ready: false,
                released: true,
                ..self
            }),
    {
        VmapArea {
            busy: false,
            vm_struct_metadata_ready: false,
            vmap_area_metadata_ready: false,
            released: true,
            ..self
        }
    }

    pub fn index(self) -> (r: usize)
        ensures
            r == self.index,
    {
        self.index
    }

    pub fn virt_base(self) -> (r: usize)
        ensures
            r == self.virt_base,
    {
        self.virt_base
    }

    pub fn size(self) -> (r: usize)
        ensures
            r == self.size,
    {
        self.size
    }


    pub fn flags(self) -> (r: VmapAreaFlags)
        ensures
            r == self.flags,
    {
        self.flags
    }

    pub fn busy(self) -> (r: bool)
        ensures
            r == self.busy,
    {
        self.busy
    }


    pub fn released(self) -> (r: bool)
        ensures
            r == self.released,
    {
        self.released
    }


    pub fn vm_struct_metadata_ready(self) -> (r: bool)
        ensures
            r == self.vm_struct_metadata_ready,
    {
        self.vm_struct_metadata_ready
    }


    pub fn vmap_area_metadata_ready(self) -> (r: bool)
        ensures
            r == self.vmap_area_metadata_ready,
    {
        self.vmap_area_metadata_ready
    }

    pub open spec fn spec_end(self) -> usize {
        if self.virt_base + self.size > usize::MAX {
            usize::MAX
        } else {
            (self.virt_base + self.size) as usize
        }
    }

    /// The end of the area, saturating.
    pub fn end(self) -> (r: usize)
        ensures
            r == self.spec_end(),
    {
        self.virt_base.saturating_add(self.size)
    }

    pub fn is_vm_ioremap(self) -> (r: bool)
        ensures
            r == (self.flags == VmapAreaFlags::VmIoremap),
    {
        self.flags.is_vm_ioremap()
    }
}

#[derive(Clone, Copy, PartialEq, Eq, Structural, Debug)]
pub struct VmapMapping {
    pub index: usize,
    pub area: VmapArea,
    pub phys_base: usize,
    pub size: usize,
    pub protection: PageProtection,
    pub installed: bool,
    pub record_created: bool,
    pub removed: bool,
}

impl VmapMapping {
    pub fn empty() -> (s: Self)
        ensures
            s.index == usize::MAX,
            s.area.index == usize::MAX && !s.area.busy,
            s.phys_base == 0,
            s.size == 0,
            s.protection == PageProtection::IoMemory,
            !s.installed,
            !s.record_created,
            !s.removed,
    {
        Self {
            index: usize::MAX,
            area: VmapArea::empty(),
            phys_base: 0,
            size: 0,
            protection: PageProtection::IoMemory,
            installed: false,
            record_created: false,
            removed: false,
        }
    }

    pub fn new(
        index: usize,
        area: VmapArea,
        phys_base: usize,
        size: usize,
        protection: PageProtection,
    ) -> (s: Self)
        ensures
            s == (VmapMapping {
                index,
                area,
                phys_base,
                size,
                protection,
                installed: true,
                record_created: true,
                removed: false,
            }),
    {
        Self {
            index,
            area,
            phys_base,
            size,
            protection,
            installed: true,
            record_created: true,
            removed: false,
        }
    }
    /// The mapping after it is torn down.
    pub fn remove(self) -> (r: Self)
        ensures
            r == (VmapMapping { installed: false, removed: true, ..self }),
    {
        VmapMapping { installed: false, removed: true, ..self }
    }


    pub fn index(self) -> (r: usize)
        ensures
            r == self.index,
    {
        self.index
    }


    pub fn area(self) -> (r: VmapArea)
        ensures
            r == self.area,
    {
        self.area
    }


    pub fn phys_base(self) -> (r: usize)
        ensures
            r == self.phys_base,
    {
        self.phys_base
    }


    pub fn size(self) -> (r: usize)
        ensures
            r == self.size,
    {
        self.size
    }


    pub fn protection(self) -> (r: PageProtection)
        ensures
            r == self.protection,
    {
        self.protection
    }


    pub fn installed(self) -> (r: bool)
        ensures
            r == self.installed,
    {
        self.installed
    }


    pub fn record_created(self) -> (r: bool)
        ensures
            r == self.record_created,
    {
        self.record_created
    }


    pub fn removed(self) -> (r: bool)
        ensures
            r == self.removed,
    {
        self.removed
    }

    pub fn uses_io_memory_protection(self) -> (r: bool)
        ensures
            r == (self.protection == PageProtection::IoMemory),
    {
        self.protection.is_io_memory()
    }


    pub fn protection_kind(self) -> (r: PageProtectionKind)
        ensures
            r == PageProtectionKind::IoMemory,
    {
        self.protection.kind()
    }
}

pub struct VmallocAllocator {
    pub lifecycle: Lifecycle,
    pub area_cache: VmapAreaCache,
    pub address_space: VmapAddressSpace,
    pub node_set: VmapNodeSet,
    pub block_queues: VmapBlockQueues,
    pub deferred_set: VfreeDeferredSet,
    pub initialized: bool,
    pub vmap_area_api_ready: bool,
    pub page_range_mapping_api_ready: bool,
    pub vm_struct_metadata_ready: bool,
    pub vmap_area_metadata_ready: bool,
    pub mapping_policy_external: bool,
    pub physical_resource_policy_external: bool,
    pub runtime_page_table_mapping_ready: bool,
    pub page_table_install_range: PageTableInstallRange,
    pub runtime_mapping_window_start: usize,
    pub runtime_mapping_window_end: usize,
    pub runtime_mapping_window_count: usize,
    pub multi_window_mapping_supported: bool,
    pub preallocated_mapping_window_bound: bool,
    pub dynamic_l0_window_allocation_supported: bool,
    pub duplicate_area_mapping_rejected: bool,
    pub next_vaddr: usize,
    pub area_count: usize,
    pub mapping_count: usize,
    pub areas: [VmapArea; 16],
    pub mappings: [VmapMapping; 16],
    pub reclaim_hook_ready: bool,
}

impl VmallocAllocator {
    /// The counts are within their capacities; areas exist only once the allocator is ready,
    /// and each of them ends at or below the cursor, no later than the next one starts.
    pub open spec fn wf(&self) -> bool {
        &&& self.area_count <= MAX_VMAP_AREAS
        &&& self.mapping_count <= MAX_VMAP_MAPPINGS
        &&& self.page_table_install_range.wf()
        &&& self.lifecycle@ != State::Ready ==> self.area_count == 0
        &&& forall|i: int|
            0 <= i < self.area_count ==> #[trigger] self.areas@[i].virt_base + self.areas@[i].size
                <= self.next_vaddr
        &&& forall|i: int, j: int|
            0 <= i < j < self.area_count ==> #[trigger] self.areas@[i].virt_base
                + self.areas@[i].size <= #[trigger] self.areas@[j].virt_base
    }

    pub fn new() -> (s: Self)
        ensures
            s.lifecycle@ == State::Base,
            !s.initialized,
            !s.vmap_area_api_ready,
            !s.page_range_mapping_api_ready,
            !s.vm_struct_metadata_ready,
            !s.vmap_area_metadata_ready,
            !s.mapping_policy_external,
            !s.physical_resource_policy_external,
            !s.runtime_page_table_mapping_ready,
            s.runtime_mapping_window_start == 0,
            s.runtime_mapping_window_end == 0,
            s.runtime_mapping_window_count == 0,
            !s.multi_window_mapping_supported,
            !s.preallocated_mapping_window_bound,
            !s.dynamic_l0_window_allocation_supported,
            !s.duplicate_area_mapping_rejected,
            s.next_vaddr == 0,
            s.area_count == 0,
            s.mapping_count == 0,
            !s.reclaim_hook_ready,
            s.wf(),
            s.area_cache.lifecycle@ == State::Base,
            s.address_space.lifecycle@ == State::Base,
            s.node_set.lifecycle@ == State::Base,
            s.block_queues.lifecycle@ == State::Base,
            s.deferred_set.lifecycle@ == State::Base,
    {
        Self {
            lifecycle: Lifecycle::new(State::Base),
            area_cache: VmapAreaCache::new(),
            address_space: VmapAddressSpace::new(),
            node_set: VmapNodeSet::new(),
            block_queues: VmapBlockQueues::new(),
            deferred_set: VfreeDeferredSet::new(),
            initialized: false,
            vmap_area_api_ready: false,
            page_range_mapping_api_ready: false,
            vm_struct_metadata_ready: false,
            vmap_area_metadata_ready: false,
            mapping_policy_external: false,
            physical_resource_policy_external: false,
            runtime_page_table_mapping_ready: false,
            page_table_install_range: PageTableInstallRange::empty(),
            runtime_mapping_window_start: 0,
            runtime_mapping_window_end: 0,
            runtime_mapping_window_count: 0,
            multi_window_mapping_supported: false,
            preallocated_mapping_window_bound: false,
            dynamic_l0_window_allocation_supported: false,
            duplicate_area_mapping_rejected: false,
            next_vaddr: 0,
            area_count: 0,
            mapping_count: 0,
            areas: [VmapArea::empty(); 16],
            mappings: [VmapMapping::empty(); 16],
            reclaim_hook_ready: false,
        }
    }

    pub fn state(&self) -> (r: State)
        ensures
            r == self.lifecycle@,
    {
        self.lifecycle.state()
    }

    pub fn area_cache(&self) -> (r: &VmapAreaCache)
        ensures
            *r == self.area_cache,
    {
        &self.area_cache
    }

    pub fn address_space(&self) -> (r: &VmapAddressSpace)
        ensures
            *r == self.address_space,
    {
        &self.address_space
    }

    pub fn node_set(&self) -> (r: &VmapNodeSet)
        ensures
            *r == self.node_set,
    {
        &self.node_set
    }

    pub fn block_queues(&self) -> (r: &VmapBlockQueues)
        ensures
            *r == self.block_queues,
    {
        &self.block_queues
    }

    pub fn deferred_set(&self) -> (r: &VfreeDeferredSet)
        ensures
            *r == self.deferred_set,
    {
        &self.deferred_set
    }

    pub fn initialized(&self) -> (r: bool)
        ensures
            r == self.initialized,
    {
        self.initialized
    }

    pub fn vmap_area_api_ready(&self) -> (r: bool)
        ensures
            r == self.vmap_area_api_ready,
    {
        self.vmap_area_api_ready
    }

    pub fn page_range_mapping_api_ready(&self) -> (r: bool)
        ensures
            r == self.page_range_mapping_api_ready,
    {
        self.page_range_mapping_api_ready
    }

    pub fn vm_struct_metadata_ready(&self) -> (r: bool)
        ensures
            r == self.vm_struct_metadata_ready,
    {
        self.vm_struct_metadata_ready
    }

    pub fn vmap_area_metadata_ready(&self) -> (r: bool)
        ensures
            r == self.vmap_area_metadata_ready,
    {
        self.vmap_area_metadata_ready
    }

    pub fn mapping_policy_external(&self) -> (r: bool)
        ensures
            r == self.mapping_policy_external,
    {
        self.mapping_policy_external
    }

    pub fn physical_resource_policy_external(&self) -> (r: bool)
        ensures
            r == self.physical_resource_policy_external,
    {
        self.physical_resource_policy_external
    }

    pub fn runtime_page_table_mapping_ready(&self) -> (r: bool)
        ensures
            r == self.runtime_page_table_mapping_ready,
    {
        self.runtime_page_table_mapping_ready
    }

    pub open spec fn spec_runtime_mapping_window_ready(&self) -> bool {
        self.runtime_mapping_window_start != 0 && self.runtime_mapping_window_start
            < self.runtime_mapping_window_end && self.runtime_mapping_window_count != 0
    }

    pub fn runtime_mapping_window_ready(&self) -> (r: bool)
        ensures
            r == self.spec_runtime_mapping_window_ready(),
    {
        self.runtime_mapping_window_start != 0 && self.runtime_mapping_window_start
            < self.runtime_mapping_window_end && self.runtime_mapping_window_count != 0
    }

    /// Takes a fresh copy of the vmalloc table range and the window it maps.
    pub fn refresh_runtime_mapping_window(&mut self, page_table_caches: &PageTableCaches)
        requires
            old(self).wf(),
            page_table_caches.vmalloc_install_range.wf(),
        ensures
            final(self).wf(),
            final(self).page_table_install_range.same_as(&page_table_caches.vmalloc_install_range),
            final(self).runtime_page_table_mapping_ready
                == page_table_caches.vmalloc_install_range.spec_ready(),
            final(self).runtime_mapping_window_start
                == page_table_caches.vmalloc_install_range.virt_start,
            final(self).runtime_mapping_window_end
                == page_table_caches.vmalloc_install_range.virt_end,
            final(self).runtime_mapping_window_count
                == page_table_caches.vmalloc_install_range.l0_table_count,
            final(self).multi_window_mapping_supported == (
            page_table_caches.vmalloc_install_range.l0_table_count > 1),
            final(self).areas == old(self).areas && final(self).area_count == old(self).area_count,
            final(self).mappings == old(self).mappings && final(self).mapping_count == old(self).mapping_count,
            final(self).lifecycle == old(self).lifecycle,
    {
        self.page_table_install_range = page_table_caches.vmalloc_install_range();
        self.runtime_page_table_mapping_ready = self.page_table_install_range.ready();
        self.runtime_mapping_window_start = self.page_table_install_range.window_start();
        self.runtime_mapping_window_end = self.page_table_install_range.window_end();
        self.runtime_mapping_window_count = self.page_table_install_range.l0_table_count();
        self.multi_window_mapping_supported = self.runtime_mapping_window_count > 1;
    }


    pub fn runtime_mapping_window_start(&self) -> (r: usize)
        ensures
            r == self.runtime_mapping_window_start,
    {
        self.runtime_mapping_window_start
    }


    pub fn runtime_mapping_window_end(&self) -> (r: usize)
        ensures
            r == self.runtime_mapping_window_end,
    {
        self.runtime_mapping_window_end
    }


    pub fn runtime_mapping_window_count(&self) -> (r: usize)
        ensures
            r == self.runtime_mapping_window_count,
    {
        self.runtime_mapping_window_count
    }

    pub fn multi_window_mapping_supported(&self) -> (r: bool)
        ensures
            r == self.multi_window_mapping_supported,
    {
        self.multi_window_mapping_supported
    }

    pub fn preallocated_mapping_window_bound(&self) -> (r: bool)
        ensures
            r == self.preallocated_mapping_window_bound,
    {
        self.preallocated_mapping_window_bound
    }

    pub fn dynamic_l0_window_allocation_supported(&self) -> (r: bool)
        ensures
            r == self.dynamic_l0_window_allocation_supported,
    {
        self.dynamic_l0_window_allocation_supported
    }

    pub fn duplicate_area_mapping_rejected(&self) -> (r: bool)
        ensures
            r == self.duplicate_area_mapping_rejected,
    {
        self.duplicate_area_mapping_rejected
    }


    pub fn area_count(&self) -> (r: usize)
        ensures
            r == self.area_count,
    {
        self.area_count
    }


    pub fn mapping_count(&self) -> (r: usize)
        ensures
            r == self.mapping_count,
    {
        self.mapping_count
    }

    pub fn reclaim_hook_ready(&self) -> (r: bool)
        ensures
            r == self.reclaim_hook_ready,
    {
        self.reclaim_hook_ready
    }

    /// Sets up the area cache, the address space, the node set, the block queues and the
    /// deferred-free set in turn, then binds the vmalloc table range; a refusal by one of the
    /// parts is passed on as it came.
    pub fn setup(
        &mut self,
        slub_allocator_state: State,
        page_table_caches: &PageTableCaches,
        per_cpu_storage_state: State,
    ) -> (r: EventResult)
        requires
            old(self).wf(),
            page_table_caches.vmalloc_install_range.wf(),
        ensures
            final(self).wf(),
            old(self).lifecycle@ != State::Base || slub_allocator_state != State::Ready
                || page_table_caches.lifecycle@ != State::Ready || per_cpu_storage_state
                != State::Ready ==> r == Err::<(), EventError>(
                condition_error(
                    LifecycleEvent::Setup,
                    old(self).lifecycle@,
                    State::Base,
                    State::Ready,
                ),
            ) && *final(self) == *old(self),
            r is Ok ==> {
                &&& final(self).lifecycle@ == State::Ready
                &&& final(self).initialized && final(self).vmap_area_api_ready
                &&& final(self).page_range_mapping_api_ready
                &&& final(self).address_space.lifecycle@ == State::Ready
                &&& final(self).address_space.start == VMALLOC_START
                &&& final(self).address_space.end == VMALLOC_END
                &&& final(self).address_space.free_space_ready
                &&& final(self).next_vaddr == VMALLOC_START
                &&& final(self).page_table_install_range.same_as(
                    &page_table_caches.vmalloc_install_range,
                )
                &&& final(self).runtime_page_table_mapping_ready
                    == page_table_caches.vmalloc_install_range.spec_ready()
                &&& final(self).dynamic_l0_window_allocation_supported
                    == page_table_caches.vmalloc_pgtable_dynamic_allocator_ready
                &&& final(self).area_count == old(self).area_count
                &&& final(self).mapping_count == old(self).mapping_count
            },
            old(self).lifecycle@ == State::Base && slub_allocator_state == State::Ready
                && page_table_caches.lifecycle@ == State::Ready && per_cpu_storage_state
                == State::Ready && old(self).area_cache.lifecycle@ == State::Base && old(self).address_space.lifecycle@ == State::Base && old(self).node_set.lifecycle@
                == State::Base && old(self).block_queues.lifecycle@ == State::Base && old(self).deferred_set.lifecycle@ == State::Base && VMALLOC_START < VMALLOC_END ==> r is Ok,
            r is Err ==> final(self).lifecycle == old(self).lifecycle,
    {
        if self.lifecycle.state() != State::Base || slub_allocator_state != State::Ready
            || page_table_caches.state() != State::Ready || per_cpu_storage_state
            != State::Ready {
            return self.failed_setup();
        }
        let r1 = self.area_cache.setup(slub_allocator_state);
        if r1.is_err() {
            return r1;
        }
        let r2 = self.address_space.setup(self.area_cache.state(), page_table_caches.state());
        if r2.is_err() {
            return r2;
        }
        let r3 = self.node_set.setup(self.address_space.state(), per_cpu_storage_state);
        if r3.is_err() {
            return r3;
        }
        let r4 = self.block_queues.setup(self.node_set.state(), per_cpu_storage_state);
        if r4.is_err() {
            return r4;
        }
        let r5 = self.deferred_set.setup(per_cpu_storage_state);
        if r5.is_err() {
            return r5;
        }
        self.initialized = true;
        self.vmap_area_api_ready = true;
        self.page_range_mapping_api_ready = true;
        self.vm_struct_metadata_ready = true;
        self.vmap_area_metadata_ready = true;
        self.mapping_policy_external = true;
        self.physical_resource_policy_external = true;
        self.page_table_install_range = page_table_caches.vmalloc_install_range();
        self.runtime_page_table_mapping_ready = self.page_table_install_range.ready();
        self.runtime_mapping_window_start = self.page_table_install_range.window_start();
        self.runtime_mapping_window_end = self.page_table_install_range.window_end();
        self.runtime_mapping_window_count = self.page_table_install_range.l0_table_count();
        self.multi_window_mapping_supported = self.runtime_mapping_window_count > 1;
        self.preallocated_mapping_window_bound = true;
        self.dynamic_l0_window_allocation_supported =
            page_table_caches.vmalloc_pgtable_dynamic_allocator_ready();
        self.duplicate_area_mapping_rejected = true;
        self.next_vaddr = self.address_space.start();
        self.reclaim_hook_ready = true;
        self.lifecycle.transition(LifecycleEvent::Setup, State::Base, State::Ready)
    }

    /// Whether `get_vm_area` serves a request of `size` bytes: the allocator is ready, a slot
    /// is free, and the page-rounded request fits after the cursor below the end of the space.
    pub open spec fn spec_get_vm_area(&self, size: usize) -> Option<(usize, usize)> {
        if self.lifecycle@ != State::Ready || !self.vmap_area_api_ready
            || !self.address_space.free_space_ready || size == 0 || self.area_count
            >= MAX_VMAP_AREAS {
            None
        } else {
            match (
                checked_round_up_spec(size, VMALLOC_RUNTIME_PAGE_SIZE),
                checked_round_up_spec(self.next_vaddr, VMALLOC_RUNTIME_PAGE_SIZE),
            ) {
                (Some(aligned_size), Some(virt_base)) => if virt_base + aligned_size
                    > self.address_space.end {
                    None
                } else {
                    Some((virt_base, aligned_size))
                },
                _ => None,
            }
        }
    }

    /// An area handed out starts at or after the cursor, holds at least the bytes asked for,
    /// and ends within the vmalloc space.
    pub proof fn lemma_area_after_cursor(&self, size: usize)
        ensures
            self.spec_get_vm_area(size) matches Some((b, z)) ==> self.next_vaddr <= b && size <= z
                && b + z <= self.address_space.end,
    {
        if let Some((b, z)) = self.spec_get_vm_area(size) {
            crate::arith::lemma_round_up_bounds(size as int, VMALLOC_RUNTIME_PAGE_SIZE as int);
            crate::arith::lemma_round_up_bounds(
                self.next_vaddr as int,
                VMALLOC_RUNTIME_PAGE_SIZE as int,
            );
        }
    }

    /// A request is served whenever it fits: on a ready allocator with a free slot, a request
    /// of `size > 0` bytes gets the area at the first page boundary at or after the cursor,
    /// `base`, sized to the first page multiple at or above `size`, `bytes`, as long as that
    /// area ends within the vmalloc space.
    pub proof fn lemma_get_vm_area_serves_what_fits(&self, size: usize, base: int, bytes: int)
        requires
            self.lifecycle@ == State::Ready,
            self.vmap_area_api_ready,
            self.address_space.free_space_ready,
            self.area_count < MAX_VMAP_AREAS,
            size > 0,
            base % 4096 == 0,
            self.next_vaddr <= base < self.next_vaddr + 4096,
            bytes % 4096 == 0,
            size <= bytes < size + 4096,
            base + bytes <= self.address_space.end,
        ensures
            self.spec_get_vm_area(size) == Some((base as usize, bytes as usize)),
    {
        crate::arith::lemma_round_up_bounds(size as int, 4096);
        crate::arith::lemma_round_up_bounds(self.next_vaddr as int, 4096);
        Self::lemma_page_multiple_unique(size as int, bytes);
        Self::lemma_page_multiple_unique(self.next_vaddr as int, base);
    }

    /// The first page multiple at or above `value` is the only page multiple in
    /// `[value, value + 4096)`.
    proof fn lemma_page_multiple_unique(value: int, m: int)
        requires
            value >= 0,
            m % 4096 == 0,
            value <= m < value + 4096,
        ensures
            crate::arith::round_up_spec(value, 4096) == m,
    {
        crate::arith::lemma_round_up_bounds(value, 4096);
        let r = crate::arith::round_up_spec(value, 4096);
        vstd::arithmetic::div_mod::lemma_fundamental_div_mod(r, 4096);
        vstd::arithmetic::div_mod::lemma_fundamental_div_mod(m, 4096);
        let k = r / 4096;
        let j = m / 4096;
        assert(k == j) by (nonlinear_arith)
            requires
                r == 4096 * k,
                m == 4096 * j,
                value <= r < value + 4096,
                value <= m < value + 4096,
        ;
    }

    /// The first address after the area that `get_vm_area` of `size` bytes hands out.
    pub open spec fn spec_area_end(&self, size: usize) -> int {
        match self.spec_get_vm_area(size) {
            Some((b, z)) => b + z,
            None => 0,
        }
    }

    /// Areas handed out one after the other do not overlap: the second starts where the
    /// first ends or later.
    pub proof fn lemma_areas_in_turn_disjoint(
        s0: VmallocAllocator,
        s1: VmallocAllocator,
        size0: usize,
        size1: usize,
    )
        requires
            s0.spec_get_vm_area(size0) is Some,
            s1.next_vaddr == s0.spec_area_end(size0),
        ensures
            s1.spec_get_vm_area(size1) matches Some((b1, z1)) ==> s0.spec_area_end(size0) <= b1,
    {
        s1.lemma_area_after_cursor(size1);
    }

    /// Reserves a page-aligned area of at least `size` bytes at the next free address of the
    /// vmalloc space.
    pub fn get_vm_area(&mut self, size: usize, flags: VmapAreaFlags) -> (r: Option<VmapArea>)
        requires
            old(self).wf(),
        ensures
            final(self).wf(),
            match old(self).spec_get_vm_area(size) {
                None => r is None && *final(self) == *old(self),
                Some((virt_base, aligned_size)) => {
                    let area = VmapArea {
                        index: old(self).area_count,
                        virt_base,
                        size: aligned_size,
                        flags,
                        busy: true,
                        vm_struct_metadata_ready: true,
                        vmap_area_metadata_ready: true,
                        released: false,
                    };
                    &&& r == Some(area)
                    &&& final(self).areas@ == old(self).areas@.update(
                        old(self).area_count as int,
                        area,
                    )
                    &&& final(self).area_count == old(self).area_count + 1
                    &&& final(self).next_vaddr == virt_base + aligned_size
                    &&& final(self).mappings == old(self).mappings
                    &&& final(self).mapping_count == old(self).mapping_count
                    &&& final(self).lifecycle == old(self).lifecycle
                },
            },
    {
        if self.lifecycle.state() != State::Ready || !self.vmap_area_api_ready
            || !self.address_space.free_space_ready() || size == 0 || self.area_count
            >= MAX_VMAP_AREAS {
            return None;
        }
        proof {
            vstd::arithmetic::power2::lemma2_to64();
            assert(is_pow2(4096usize)) by {
                assert(4096usize == vstd::arithmetic::power2::pow2(12));
            }
        }
        let aligned_size = match align_up(size, self.page_size()) {
            Some(a) => a,
            None => return None,
        };
        let virt_base = match align_up(self.next_vaddr, self.page_size()) {
            Some(v) => v,
            None => return None,
        };
        let area_end = match virt_base.checked_add(aligned_size) {
            Some(e) => e,
            None => return None,
        };
        if area_end > self.address_space.end() {
            return None;
        }
        let area = VmapArea::new(self.area_count, virt_base, aligned_size, flags);
        self.areas[self.area_count] = area;
        self.area_count += 1;
        self.next_vaddr = area_end;
        Some(area)
    }

    /// Gives an area back: it must be a busy, unreleased area of this allocator with no
    /// installed mapping.
    pub fn free_vm_area(&mut self, area: VmapArea) -> (r: bool)
        requires
            old(self).wf(),
        ensures
            final(self).wf(),
            r == (old(self).lifecycle@ == State::Ready && old(self).vmap_area_api_ready
                && area.busy && !area.released && old(self).spec_area_known(area)
                && !old(self).spec_area_has_installed_mapping(area)),
            !r ==> *final(self) == *old(self),
            r ==> final(self).areas@ == old(self).areas@.update(area.index as int, area.spec_release())
                && final(self).area_count == old(self).area_count && final(self).mappings == old(self).mappings && final(self).mapping_count == old(self).mapping_count,
    {
        if self.lifecycle.state() != State::Ready || !self.vmap_area_api_ready || !area.busy()
            || area.released || !self.area_known(area) || self.area_has_installed_mapping(area) {
            return false;
        }
        self.areas[area.index()] = area.release();
        true
    }


    pub fn area(&self, index: usize) -> (r: Option<VmapArea>)
        requires
            self.wf(),
        ensures
            r == (if index < self.area_count {
                Some(self.areas@[index as int])
            } else {
                None
            }),
    {
        if index < self.area_count {
            Some(self.areas[index])
        } else {
            None
        }
    }


    pub fn mapping(&self, index: usize) -> (r: Option<VmapMapping>)
        requires
            self.wf(),
        ensures
            r == (if index < self.mapping_count {
                Some(self.mappings@[index as int])
            } else {
                None
            }),
    {
        if index < self.mapping_count {
            Some(self.mappings[index])
        } else {
            None
        }
    }

    pub open spec fn spec_area_known(&self, area: VmapArea) -> bool {
        area.busy && area.index < self.area_count && self.areas@[area.index as int] == area
    }

    fn area_known(&self, area: VmapArea) -> (r: bool)
        requires
            self.wf(),
        ensures
            r == self.spec_area_known(area),
    {
        area.busy() && area.index() < self.area_count && self.areas[area.index()] == area
    }

    pub open spec fn spec_area_within_runtime_mapping_window(&self, area: VmapArea) -> bool {
        self.spec_runtime_mapping_window_ready() && area.virt_base
            >= self.runtime_mapping_window_start && area.spec_end()
            <= self.runtime_mapping_window_end
    }

    fn area_within_runtime_mapping_window(&self, area: VmapArea) -> (r: bool)
        ensures
            r == self.spec_area_within_runtime_mapping_window(area),
    {
        self.runtime_mapping_window_ready() && area.virt_base() >= self.runtime_mapping_window_start
            && area.end() <= self.runtime_mapping_window_end
    }

    /// The level-0 windows needed, from the start of the window, to reach the end of `area`.
    pub open spec fn spec_required_runtime_window_count(&self, area: VmapArea) -> Option<usize> {
        let window_size = self.page_table_install_range.spec_l0_window_size();
        let start = self.runtime_mapping_window_start;
        if area.virt_base < start || window_size == 0 || area.spec_end() <= start {
            None
        } else if area.spec_end() - start + (window_size - 1) > usize::MAX {
            None
        } else {
            Some(((area.spec_end() - start + (window_size - 1)) / (window_size as int)) as usize)
        }
    }

    fn required_runtime_window_count(&self, area: VmapArea) -> (r: Option<usize>)
        ensures
            r == self.spec_required_runtime_window_count(area),
    {
        if area.virt_base() < self.runtime_mapping_window_start {
            return None;
        }
        let window_size = self.page_table_install_range.l0_window_size();
        if window_size == 0 {
            return None;
        }
        let end = area.end();
        if end <= self.runtime_mapping_window_start {
            return None;
        }
        let covered = end - self.runtime_mapping_window_start;
        match covered.checked_add(window_size - 1) {
            Some(value) => Some(value / window_size),
            None => None,
        }
    }
    pub open spec fn spec_mapping_known(&self, mapping: VmapMapping) -> bool {
        mapping.index < self.mapping_count && self.mappings@[mapping.index as int] == mapping
    }

    fn mapping_known(&self, mapping: VmapMapping) -> (r: bool)
        requires
            self.wf(),
        ensures
            r == self.spec_mapping_known(mapping),
    {
        mapping.index < self.mapping_count && self.mappings[mapping.index] == mapping
    }
    pub open spec fn spec_area_has_installed_mapping(&self, area: VmapArea) -> bool {
        exists|i: int|
            0 <= i < self.mapping_count && #[trigger] self.mappings@[i].area == area
                && self.mappings@[i].installed && !self.mappings@[i].removed
    }

    fn area_has_installed_mapping(&self, area: VmapArea) -> (r: bool)
        requires
            self.wf(),
        ensures
            r == self.spec_area_has_installed_mapping(area),
    {
        let mut index: usize = 0;
        while index < self.mapping_count
            invariant
                self.wf(),
                index <= self.mapping_count,
                forall|i: int|
                    0 <= i < index ==> !(#[trigger] self.mappings@[i].area == area
                        && self.mappings@[i].installed && !self.mappings@[i].removed),
            decreases self.mapping_count - index,
        {
            let mapping = self.mappings[index];
            if mapping.area == area && mapping.installed && !mapping.removed {
                return true;
            }
            index += 1;
        }
        false
    }

    fn page_size(&self) -> (r: usize)
        ensures
            r == VMALLOC_RUNTIME_PAGE_SIZE,
    {
        4096
    }

    fn failed_setup(&self) -> (r: EventResult)
        ensures
            r == Err::<(), EventError>(
                condition_error(LifecycleEvent::Setup, self.lifecycle@, State::Base, State::Ready),
            ),
    {
        failed_condition(LifecycleEvent::Setup, self.lifecycle.state(), State::Base, State::Ready)
    }
}

pub struct VmapAreaCache {
    pub lifecycle: Lifecycle,
}

impl VmapAreaCache {
    pub fn new() -> (s: Self)
        ensures
            s.lifecycle@ == State::Base,
    {
        Self {
            lifecycle: Lifecycle::new(State::Base),
        }
    }

    pub fn state(&self) -> (r: State)
        ensures
            r == self.lifecycle@,
    {
        self.lifecycle.state()
    }

    pub fn setup(&mut self, slub_allocator_state: State) -> (r: EventResult)
        ensures
            !(old(self).lifecycle@ != State::Base || slub_allocator_state != State::Ready) ==> {
                &&& r == Ok::<(), EventError>(())
                &&& final(self).lifecycle@ == State::Ready
                &&& *final(self) == (VmapAreaCache {
                    lifecycle: final(self).lifecycle,
                    ..*old(self)
                })
            },
            old(self).lifecycle@ != State::Base || slub_allocator_state != State::Ready ==> {
                &&& r == Err::<(), EventError>(
                    condition_error(
                        LifecycleEvent::Setup,
                        old(self).lifecycle@,
                        State::Base,
                        State::Ready,
                    ),
                )
                &&& *final(self) == *old(self)
            },
    {
        if self.lifecycle.state() != State::Base || slub_allocator_state != State::Ready {
            return failed_condition(
                LifecycleEvent::Setup,
                self.lifecycle.state(),
                State::Base,
                State::Ready,
            );
        }
        self.lifecycle.transition(LifecycleEvent::Setup, State::Base, State::Ready)
    }
}

pub struct VmapAddressSpace {
    pub lifecycle: Lifecycle,
    pub start: usize,
    pub end: usize,
    pub existing_vmlist_busy_imported: bool,
    pub free_space_ready: bool,
}

impl VmapAddressSpace {
    pub fn new() -> (s: Self)
        ensures
            s.lifecycle@ == State::Base,
            s.start == 0,
            s.end == 0,
            !s.existing_vmlist_busy_imported,
            !s.free_space_ready,
    {
        Self {
            lifecycle: Lifecycle::new(State::Base),
            start: 0,
            end: 0,
            existing_vmlist_busy_imported: false,
            free_space_ready: false,
        }
    }

    pub fn state(&self) -> (r: State)
        ensures
            r == self.lifecycle@,
    {
        self.lifecycle.state()
    }

    pub fn start(&self) -> (r: usize)
        ensures
            r == self.start,
    {
        self.start
    }

    pub fn end(&self) -> (r: usize)
        ensures
            r == self.end,
    {
        self.end
    }

    pub fn existing_vmlist_busy_imported(&self) -> (r: bool)
        ensures
            r == self.existing_vmlist_busy_imported,
    {
        self.existing_vmlist_busy_imported
    }

    pub fn free_space_ready(&self) -> (r: bool)
        ensures
            r == self.free_space_ready,
    {
        self.free_space_ready
    }

    pub fn setup(&mut self, area_cache_state: State, page_table_caches_state: State) -> (r: EventResult)
        ensures
            !(old(self).lifecycle@ != State::Base || area_cache_state != State::Ready || page_table_caches_state != State::Ready || VMALLOC_START >= VMALLOC_END ) ==> {
                &&& r == Ok::<(), EventError>(())
                &&& final(self).lifecycle@ == State::Ready
                &&& *final(self) == (VmapAddressSpace {
                    start: VMALLOC_START,
                    end: VMALLOC_END,
                    existing_vmlist_busy_imported: true,
                    free_space_ready: true,
                    lifecycle: final(self).lifecycle,
                    ..*old(self)
                })
            },
            old(self).lifecycle@ != State::Base || area_cache_state != State::Ready || page_table_caches_state != State::Ready || VMALLOC_START >= VMALLOC_END  ==> {
                &&& r == Err::<(), EventError>(
                    condition_error(
                        LifecycleEvent::Setup,
                        old(self).lifecycle@,
                        State::Base,
                        State::Ready,
                    ),
                )
                &&& *final(self) == *old(self)
            },
    {
        if self.lifecycle.state() != State::Base || area_cache_state != State::Ready || page_table_caches_state != State::Ready || VMALLOC_START >= VMALLOC_END  {
            return failed_condition(
                LifecycleEvent::Setup,
                self.lifecycle.state(),
                State::Base,
                State::Ready,
            );
        }
        self.start = VMALLOC_START;
        self.end = VMALLOC_END;
        self.existing_vmlist_busy_imported = true;
        self.free_space_ready = true;
        self.lifecycle.transition(LifecycleEvent::Setup, State::Base, State::Ready)
    }
}

/// `value` rounded up to the power of two `align`; `None` for any other alignment or where
/// it overflows.
pub fn align_up(value: usize, align: usize) -> (r: Option<usize>)
    ensures
        r == (if is_pow2(align) {
            checked_round_up_spec(value, align)
        } else {
            None
        }),
{
    proof {
        if is_pow2(align) {
            lemma_align_masks(0, align);
        }
    }
    if align == 0 || !is_power_of_two(align) {
        return None;
    }
    checked_round_up(value, align)
}

pub struct VmapNodeSet {
    pub lifecycle: Lifecycle,
    pub node_count: usize,
    pub route_ready: bool,
}

impl VmapNodeSet {
    pub fn new() -> (s: Self)
        ensures
            s.lifecycle@ == State::Base,
            s.node_count == 0,
            !s.route_ready,
    {
        Self {
            lifecycle: Lifecycle::new(State::Base),
            node_count: 0,
            route_ready: false,
        }
    }

    pub fn state(&self) -> (r: State)
        ensures
            r == self.lifecycle@,
    {
        self.lifecycle.state()
    }

    pub fn node_count(&self) -> (r: usize)
        ensures
            r == self.node_count,
    {
        self.node_count
    }

    pub fn route_ready(&self) -> (r: bool)
        ensures
            r == self.route_ready,
    {
        self.route_ready
    }

    pub fn setup(&mut self, address_space_state: State, per_cpu_storage_state: State) -> (r: EventResult)
        ensures
            !(old(self).lifecycle@ != State::Base || address_space_state != State::Ready || per_cpu_storage_state != State::Ready ) ==> {
                &&& r == Ok::<(), EventError>(())
                &&& final(self).lifecycle@ == State::Ready
                &&& *final(self) == (VmapNodeSet {
                    node_count: 1,
                    route_ready: true,
                    lifecycle: final(self).lifecycle,
                    ..*old(self)
                })
            },
            old(self).lifecycle@ != State::Base || address_space_state != State::Ready || per_cpu_storage_state != State::Ready  ==> {
                &&& r == Err::<(), EventError>(
                    condition_error(
                        LifecycleEvent::Setup,
                        old(self).lifecycle@,
                        State::Base,
                        State::Ready,
                    ),
                )
                &&& *final(self) == *old(self)
            },
    {
        if self.lifecycle.state() != State::Base || address_space_state != State::Ready || per_cpu_storage_state != State::Ready  {
            return failed_condition(
                LifecycleEvent::Setup,
                self.lifecycle.state(),
                State::Base,
                State::Ready,
            );
        }
        self.node_count = 1;
        self.route_ready = true;
        self.lifecycle.transition(LifecycleEvent::Setup, State::Base, State::Ready)
    }
}

pub struct VmapBlockQueues {
    pub lifecycle: Lifecycle,
    pub fast_path_metadata_ready: bool,
}

impl VmapBlockQueues {
    pub fn new() -> (s: Self)
        ensures
            s.lifecycle@ == State::Base,
            !s.fast_path_metadata_ready,
    {
        Self {
            lifecycle: Lifecycle::new(State::Base),
            fast_path_metadata_ready: false,
        }
    }

    pub fn state(&self) -> (r: State)
        ensures
            r == self.lifecycle@,
    {
        self.lifecycle.state()
    }

    pub fn fast_path_metadata_ready(&self) -> (r: bool)
        ensures
            r == self.fast_path_metadata_ready,
    {
        self.fast_path_metadata_ready
    }

    pub fn setup(&mut self, node_set_state: State, per_cpu_storage_state: State) -> (r: EventResult)
        ensures
            !(old(self).lifecycle@ != State::Base || node_set_state != State::Ready || per_cpu_storage_state != State::Ready ) ==> {
                &&& r == Ok::<(), EventError>(())
                &&& final(self).lifecycle@ == State::Ready
                &&& *final(self) == (VmapBlockQueues {
                    fast_path_metadata_ready: true,
                    lifecycle: final(self).lifecycle,
                    ..*old(self)
                })
            },
            old(self).lifecycle@ != State::Base || node_set_state != State::Ready || per_cpu_storage_state != State::Ready  ==> {
                &&& r == Err::<(), EventError>(
                    condition_error(
                        LifecycleEvent::Setup,
                        old(self).lifecycle@,
                        State::Base,
                        State::Ready,
                    ),
                )
                &&& *final(self) == *old(self)
            },
    {
        if self.lifecycle.state() != State::Base || node_set_state != State::Ready || per_cpu_storage_state != State::Ready  {
            return failed_condition(
                LifecycleEvent::Setup,
                self.lifecycle.state(),
                State::Base,
                State::Ready,
            );
        }
        self.fast_path_metadata_ready = true;
        self.lifecycle.transition(LifecycleEvent::Setup, State::Base, State::Ready)
    }
}

pub struct VfreeDeferredSet {
    pub lifecycle: Lifecycle,
    pub work_ready: bool,
}

impl VfreeDeferredSet {
    pub fn new() -> (s: Self)
        ensures
            s.lifecycle@ == State::Base,
            !s.work_ready,
    {
        Self {
            lifecycle: Lifecycle::new(State::Base),
            work_ready: false,
        }
    }

    pub fn state(&self) -> (r: State)
        ensures
            r == self.lifecycle@,
    {
        self.lifecycle.state()
    }

    pub fn work_ready(&self) -> (r: bool)
        ensures
            r == self.work_ready,
    {
        self.work_ready
    }

    pub fn setup(&mut self, per_cpu_storage_state: State) -> (r: EventResult)
        ensures
            !(old(self).lifecycle@ != State::Base || per_cpu_storage_state != State::Ready) ==> {
                &&& r == Ok::<(), EventError>(())
                &&& final(self).lifecycle@ == State::Ready
                &&& *final(self) == (VfreeDeferredSet {
                    work_ready: true,
                    lifecycle: final(self).lifecycle,
                    ..*old(self)
                })
            },
            old(self).lifecycle@ != State::Base || per_cpu_storage_state != State::Ready ==> {
                &&& r == Err::<(), EventError>(
                    condition_error(
                        LifecycleEvent::Setup,
                        old(self).lifecycle@,
                        State::Base,
                        State::Ready,
                    ),
                )
                &&& *final(self) == *old(self)
            },
    {
        if self.lifecycle.state() != State::Base || per_cpu_storage_state != State::Ready {
            return failed_condition(
                LifecycleEvent::Setup,
                self.lifecycle.state(),
                State::Base,
                State::Ready,
            );
        }
        self.work_ready = true;
        self.lifecycle.transition(LifecycleEvent::Setup, State::Base, State::Ready)
    }
}

pub struct MmStructCache {
    pub lifecycle: Lifecycle,
    pub object_size: usize,
    pub saved_auxv_usercopy_ready: bool,
    pub vma_caches_deferred: bool,
}

/// The bytes of a machine word.
pub open spec fn word_bytes() -> usize {
    (usize::BITS / 8) as usize
}

impl MmStructCache {
    pub fn new() -> (s: Self)
        ensures
            s.lifecycle@ == State::Base,
            s.object_size == 0,
            !s.saved_auxv_usercopy_ready,
            !s.vma_caches_deferred,
    {
        Self {
            lifecycle: Lifecycle::new(State::Base),
            object_size: 0,
            saved_auxv_usercopy_ready: false,
            vma_caches_deferred: false,
        }
    }

    pub fn state(&self) -> (r: State)
        ensures
            r == self.lifecycle@,
    {
        self.lifecycle.state()
    }

    pub fn object_size(&self) -> (r: usize)
        ensures
            r == self.object_size,
    {
        self.object_size
    }

    pub fn saved_auxv_usercopy_ready(&self) -> (r: bool)
        ensures
            r == self.saved_auxv_usercopy_ready,
    {
        self.saved_auxv_usercopy_ready
    }

    pub fn vma_caches_deferred(&self) -> (r: bool)
        ensures
            r == self.vma_caches_deferred,
    {
        self.vma_caches_deferred
    }

    /// Sizes the mm_struct objects: sixteen words plus a CPU mask of one bit per possible CPU,
    /// rounded up to whole words.
    pub fn setup(&mut self, slub_allocator_state: State, cpu_group: &CpuGroup) -> (r: EventResult)
        ensures
            old(self).lifecycle@ != State::Base || slub_allocator_state != State::Ready
                || cpu_group.state != State::Ready || cpu_group.possible_cpu_count == 0 ==> r
                == Err::<(), EventError>(
                condition_error(
                    LifecycleEvent::Setup,
                    old(self).lifecycle@,
                    State::Base,
                    State::Ready,
                ),
            ) && *final(self) == *old(self),
            r is Ok ==> {
                &&& checked_round_up_spec(cpu_group.possible_cpu_count, word_bytes()) matches Some(
                    mask_bytes,
                ) && final(self).object_size == word_bytes() * 16 + mask_bytes
                &&& final(self).lifecycle@ == State::Ready
                &&& final(self).saved_auxv_usercopy_ready
                &&& final(self).vma_caches_deferred
            },
            old(self).lifecycle@ == State::Base && slub_allocator_state == State::Ready
                && cpu_group.state == State::Ready && cpu_group.possible_cpu_count != 0
                && cpu_group.possible_cpu_count <= 0x1_0000 ==> r is Ok,
            r is Err ==> final(self).lifecycle == old(self).lifecycle,
    {
        if self.lifecycle.state() != State::Base || slub_allocator_state != State::Ready
            || cpu_group.state != State::Ready || cpu_group.possible_cpu_count == 0 {
            return self.failed_setup();
        }
        let word = (usize::BITS / 8) as usize;
        proof {
            vstd::arithmetic::power2::lemma2_to64();
            assert(is_pow2(word)) by {
                if usize::BITS == 64 {
                    assert(word == vstd::arithmetic::power2::pow2(3));
                } else {
                    assert(word == vstd::arithmetic::power2::pow2(2));
                }
            }
        }
        let mask_bytes = match checked_round_up(cpu_group.possible_cpu_count, word) {
            Some(m) => m,
            None => return self.failed_setup(),
        };
        let object_size = match (word * 16).checked_add(mask_bytes) {
            Some(s) => s,
            None => return self.failed_setup(),
        };
        self.object_size = object_size;
        self.saved_auxv_usercopy_ready = true;
        self.vma_caches_deferred = true;
        self.lifecycle.transition(LifecycleEvent::Setup, State::Base, State::Ready)
    }

    fn failed_setup(&self) -> (r: EventResult)
        ensures
            r == Err::<(), EventError>(
                condition_error(LifecycleEvent::Setup, self.lifecycle@, State::Base, State::Ready),
            ),
    {
        failed_condition(LifecycleEvent::Setup, self.lifecycle.state(), State::Base, State::Ready)
    }
}

} // verus!
