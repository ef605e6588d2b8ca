use vstd::prelude::*;
use crate::boot_facts::{Workqueue, Zones};
use crate::mm_page::{GfpFlags, PageMetadataMap};
use crate::mm_topology::{zone_present_pages, zone_present_pages_spec};
use crate::page_allocator::PageAllocator;
use crate::slab::{KmallocAllocRef, KmallocCaches, KmallocSlab, FREELIST_SCAN_LIMIT, layout_supported, layout_supported_spec};
use crate::state::{
    condition_error, failed_condition, transition_result, transition_state, EventError,
    EventResult, Lifecycle, LifecycleEvent, State,
};

verus! {
pub struct MemoryDebugHardening {
    pub lifecycle: Lifecycle,
    pub init_on_alloc: bool,
    pub init_on_free: bool,
    pub debug_pagealloc: bool,
    pub debug_guardpage: bool,
    pub check_pages: bool,
}

impl MemoryDebugHardening {
    pub fn new() -> (s: Self)
        ensures
            s.lifecycle@ == State::Base,
            !s.init_on_alloc,
            !s.init_on_free,
            !s.debug_pagealloc,
            !s.debug_guardpage,
            !s.check_pages,
    {
        Self {
            lifecycle: Lifecycle::new(State::Base),
            init_on_alloc: false,
            init_on_free: false,
            debug_pagealloc: false,
            debug_guardpage: false,
            check_pages: false,
        }
    }

    pub fn state(&self) -> (r: State)
        ensures
            r == self.lifecycle@,
    {
        self.lifecycle.state()
    }

    pub fn init_on_alloc(&self) -> (r: bool)
        ensures
            r == self.init_on_alloc,
    {
        self.init_on_alloc
    }

    pub fn init_on_free(&self) -> (r: bool)
        ensures
            r == self.init_on_free,
    {
        self.init_on_free
    }

    pub fn debug_pagealloc(&self) -> (r: bool)
        ensures
            r == self.debug_pagealloc,
    {
        self.debug_pagealloc
    }

    pub fn debug_guardpage(&self) -> (r: bool)
        ensures
            r == self.debug_guardpage,
    {
        self.debug_guardpage
    }

    pub fn check_pages(&self) -> (r: bool)
        ensures
            r == self.check_pages,
    {
        self.check_pages
    }

    /// Fixes the memory hardening choices: page checks on, the other switches off. The static
    /// keys that mirror them are set by the caller from these fields.
    pub fn setup(&mut self, static_branch_state: State, early_param_state: State, config_state: State) -> (r: EventResult)
        ensures
            old(self).lifecycle@ != State::Base || static_branch_state != State::Ready
                || early_param_state != State::Ready || config_state != State::Online ==> r
                == Err::<(), EventError>(
                condition_error(
                    LifecycleEvent::Setup,
                    old(self).lifecycle@,
                    State::Base,
                    State::Ready,
                ),
            ) && *final(self) == *old(self),
            old(self).lifecycle@ == State::Base && static_branch_state == State::Ready
                && early_param_state == State::Ready && config_state == State::Online ==> r == Ok::<
                (),
                EventError,
            >(()) && final(self).lifecycle@ == State::Ready && !final(self).init_on_alloc
                && !final(self).init_on_free && !final(self).debug_pagealloc
                && !final(self).debug_guardpage && final(self).check_pages,
    {
        if self.lifecycle.state() != State::Base || static_branch_state != State::Ready
            || early_param_state != State::Ready || config_state != State::Online {
            return failed_condition(
                LifecycleEvent::Setup,
                self.lifecycle.state(),
                State::Base,
                State::Ready,
            );
        }
        self.init_on_alloc = false;
        self.init_on_free = false;
        self.debug_pagealloc = false;
        self.debug_guardpage = false;
        self.check_pages = true;
        self.lifecycle.transition(LifecycleEvent::Setup, State::Base, State::Ready)
    }
}

pub struct StackDepot {
    pub lifecycle: Lifecycle,
    pub early_storage_ready: bool,
}

impl StackDepot {
    pub fn new() -> (s: Self)
        ensures
            s.lifecycle@ == State::Base,
            !s.early_storage_ready,
    {
        Self {
            lifecycle: Lifecycle::new(State::Base),
            early_storage_ready: false,
        }
    }

    pub fn state(&self) -> (r: State)
        ensures
            r == self.lifecycle@,
    {
        self.lifecycle.state()
    }

    pub fn early_storage_ready(&self) -> (r: bool)
        ensures
            r == self.early_storage_ready,
    {
        self.early_storage_ready
    }

    pub fn setup(&mut self, memblock_state: State, memory_debug_hardening_state: State) -> (r: EventResult)
        ensures
            !(old(self).lifecycle@ != State::Base || memblock_state != State::Online || memory_debug_hardening_state != State::Ready ) ==> {
                &&& r == Ok::<(), EventError>(())
                &&& final(self).lifecycle@ == State::Ready
                &&& *final(self) == (StackDepot {
                    early_storage_ready: true,
                    lifecycle: final(self).lifecycle,
                    ..*old(self)
                })
            },
            old(self).lifecycle@ != State::Base || memblock_state != State::Online || memory_debug_hardening_state != State::Ready  ==> {
                &&& r == Err::<(), EventError>(
                    condition_error(
                        LifecycleEvent::Setup,
                        old(self).lifecycle@,
                        State::Base,
                        State::Ready,
                    ),
                )
                &&& *final(self) == *old(self)
            },
    {
        if self.lifecycle.state() != State::Base || memblock_state != State::Online || memory_debug_hardening_state != State::Ready  {
            return failed_condition(
                LifecycleEvent::Setup,
                self.lifecycle.state(),
                State::Base,
                State::Ready,
            );
        }
        self.early_storage_ready = true;
        self.lifecycle.transition(LifecycleEvent::Setup, State::Base, State::Ready)
    }

}

pub struct Swiotlb {
    pub lifecycle: Lifecycle,
    pub pool_required: bool,
    pub early_pool_ready: bool,
    pub dynamic_growth_trimmed: bool,
}

impl Swiotlb {
    pub fn new() -> (s: Self)
        ensures
            s.lifecycle@ == State::Base,
            !s.pool_required,
            !s.early_pool_ready,
            !s.dynamic_growth_trimmed,
    {
        Self {
            lifecycle: Lifecycle::new(State::Base),
            pool_required: false,
            early_pool_ready: false,
            dynamic_growth_trimmed: false,
        }
    }

    pub fn state(&self) -> (r: State)
        ensures
            r == self.lifecycle@,
    {
        self.lifecycle.state()
    }

    pub fn pool_required(&self) -> (r: bool)
        ensures
            r == self.pool_required,
    {
        self.pool_required
    }

    pub fn early_pool_ready(&self) -> (r: bool)
        ensures
            r == self.early_pool_ready,
    {
        self.early_pool_ready
    }

    /// Decides whether a bounce-buffer pool is required: for non-coherent DMA with a cache
    /// line above one byte, on a machine with present memory.
    pub fn setup(&mut self, dma_cache_policy_state: State, noncoherent_supported: bool, cache_alignment: usize, memblock_state: State, zones: &Zones) -> (r: EventResult)
        ensures
            !(old(self).lifecycle@ != State::Base || dma_cache_policy_state != State::Ready || memblock_state != State::Online || zones.state != State::Ready ) ==> {
                &&& r == Ok::<(), EventError>(())
                &&& final(self).lifecycle@ == State::Ready
                &&& *final(self) == (Swiotlb {
                    pool_required: noncoherent_supported && cache_alignment > 1 && (
                    zone_present_pages_spec(zones, 4096) matches Some(p) && p != 0),
                    early_pool_ready: true,
                    dynamic_growth_trimmed: true,
                    lifecycle: final(self).lifecycle,
                    ..*old(self)
                })
            },
            old(self).lifecycle@ != State::Base || dma_cache_policy_state != State::Ready || memblock_state != State::Online || zones.state != State::Ready  ==> {
                &&& r == Err::<(), EventError>(
                    condition_error(
                        LifecycleEvent::Setup,
                        old(self).lifecycle@,
                        State::Base,
                        State::Ready,
                    ),
                )
                &&& *final(self) == *old(self)
            },
    {
        if self.lifecycle.state() != State::Base || dma_cache_policy_state != State::Ready || memblock_state != State::Online || zones.state != State::Ready  {
            return failed_condition(
                LifecycleEvent::Setup,
                self.lifecycle.state(),
                State::Base,
                State::Ready,
            );
        }
        let present = match zone_present_pages(zones, 4096) {
            Some(p) => p,
            None => 0,
        };
        self.pool_required = noncoherent_supported && cache_alignment > 1 && present != 0;
        self.early_pool_ready = true;
        self.dynamic_growth_trimmed = true;
        self.lifecycle.transition(LifecycleEvent::Setup, State::Base, State::Ready)
    }

}

pub struct KernelGlobalAllocator {
    pub lifecycle: Lifecycle,
    pub alloc_api_ready: bool,
    pub alloc_zeroed_api_ready: bool,
    pub dealloc_api_ready: bool,
    pub uses_slub_allocator: bool,
}

impl KernelGlobalAllocator {
    pub fn new() -> (s: Self)
        ensures
            s.lifecycle@ == State::Base,
            !s.alloc_api_ready,
            !s.alloc_zeroed_api_ready,
            !s.dealloc_api_ready,
            !s.uses_slub_allocator,
    {
        Self {
            lifecycle: Lifecycle::new(State::Base),
            alloc_api_ready: false,
            alloc_zeroed_api_ready: false,
            dealloc_api_ready: false,
            uses_slub_allocator: false,
        }
    }

    pub fn state(&self) -> (r: State)
        ensures
            r == self.lifecycle@,
    {
        self.lifecycle.state()
    }

    pub fn alloc_api_ready(&self) -> (r: bool)
        ensures
            r == self.alloc_api_ready,
    {
        self.alloc_api_ready
    }

    pub fn alloc_zeroed_api_ready(&self) -> (r: bool)
        ensures
            r == self.alloc_zeroed_api_ready,
    {
        self.alloc_zeroed_api_ready
    }

    pub fn dealloc_api_ready(&self) -> (r: bool)
        ensures
            r == self.dealloc_api_ready,
    {
        self.dealloc_api_ready
    }

    pub fn uses_slub_allocator(&self) -> (r: bool)
        ensures
            r == self.uses_slub_allocator,
    {
        self.uses_slub_allocator
    }

    pub fn setup(&mut self, slub_allocator: &SlubAllocator) -> (r: EventResult)
        ensures
            !(old(self).lifecycle@ != State::Base || slub_allocator.lifecycle@ != State::Ready || slub_allocator.kmalloc_caches.lifecycle@ != State::Ready ) ==> {
                &&& r == Ok::<(), EventError>(())
                &&& final(self).lifecycle@ == State::Ready
                &&& *final(self) == (KernelGlobalAllocator {
                    alloc_api_ready: true,
                    alloc_zeroed_api_ready: true,
                    dealloc_api_ready: true,
                    uses_slub_allocator: true,
                    lifecycle: final(self).lifecycle,
                    ..*old(self)
                })
            },
            old(self).lifecycle@ != State::Base || slub_allocator.lifecycle@ != State::Ready || slub_allocator.kmalloc_caches.lifecycle@ != State::Ready  ==> {
                &&& r == Err::<(), EventError>(
                    condition_error(
                        LifecycleEvent::Setup,
                        old(self).lifecycle@,
                        State::Base,
                        State::Ready,
                    ),
                )
                &&& *final(self) == *old(self)
            },
    {
        if self.lifecycle.state() != State::Base || slub_allocator.state() != State::Ready || slub_allocator.kmalloc_caches.state() != State::Ready  {
            return failed_condition(
                LifecycleEvent::Setup,
                self.lifecycle.state(),
                State::Base,
                State::Ready,
            );
        }
        self.alloc_api_ready = true;
        self.alloc_zeroed_api_ready = true;
        self.dealloc_api_ready = true;
        self.uses_slub_allocator = true;
        self.lifecycle.transition(LifecycleEvent::Setup, State::Base, State::Ready)
    }
}

pub struct DynamicContainerRuntime {
    pub lifecycle: Lifecycle,
    pub uses_global_allocator: bool,
    pub vec_api_ready: bool,
    pub list_api_ready: bool,
    pub set_api_ready: bool,
}

impl DynamicContainerRuntime {
    pub fn new() -> (s: Self)
        ensures
            s.lifecycle@ == State::Base,
            !s.uses_global_allocator,
            !s.vec_api_ready,
            !s.list_api_ready,
            !s.set_api_ready,
    {
        Self {
            lifecycle: Lifecycle::new(State::Base),
            uses_global_allocator: false,
            vec_api_ready: false,
            list_api_ready: false,
            set_api_ready: false,
        }
    }

    pub fn state(&self) -> (r: State)
        ensures
            r == self.lifecycle@,
    {
        self.lifecycle.state()
    }

    pub fn uses_global_allocator(&self) -> (r: bool)
        ensures
            r == self.uses_global_allocator,
    {
        self.uses_global_allocator
    }

    pub fn vec_api_ready(&self) -> (r: bool)
        ensures
            r == self.vec_api_ready,
    {
        self.vec_api_ready
    }

    pub fn list_api_ready(&self) -> (r: bool)
        ensures
            r == self.list_api_ready,
    {
        self.list_api_ready
    }

    pub fn set_api_ready(&self) -> (r: bool)
        ensures
            r == self.set_api_ready,
    {
        self.set_api_ready
    }

    pub fn setup(&mut self, global_allocator_state: State) -> (r: EventResult)
        ensures
            !(old(self).lifecycle@ != State::Base || global_allocator_state != State::Ready) ==> {
                &&& r == Ok::<(), EventError>(())
                &&& final(self).lifecycle@ == State::Ready
                &&& *final(self) == (DynamicContainerRuntime {
                    uses_global_allocator: true,
                    vec_api_ready: true,
                    list_api_ready: true,
                    set_api_ready: true,
                    lifecycle: final(self).lifecycle,
                    ..*old(self)
                })
            },
            old(self).lifecycle@ != State::Base || global_allocator_state != State::Ready ==> {
                &&& r == Err::<(), EventError>(
                    condition_error(
                        LifecycleEvent::Setup,
                        old(self).lifecycle@,
                        State::Base,
                        State::Ready,
                    ),
                )
                &&& *final(self) == *old(self)
            },
    {
        if self.lifecycle.state() != State::Base || global_allocator_state != State::Ready {
            return failed_condition(
                LifecycleEvent::Setup,
                self.lifecycle.state(),
                State::Base,
                State::Ready,
            );
        }
        self.uses_global_allocator = true;
        self.vec_api_ready = true;
        self.list_api_ready = true;
        self.set_api_ready = true;
        self.lifecycle.transition(LifecycleEvent::Setup, State::Base, State::Ready)
    }
}

pub struct SlubCacheRegistry {
    pub lifecycle: Lifecycle,
    pub boot_caches_registered: bool,
    pub global_list_ready: bool,
    pub cache_count: usize,
}

impl SlubCacheRegistry {
    pub fn new() -> (s: Self)
        ensures
            s.lifecycle@ == State::Base,
            !s.boot_caches_registered,
            !s.global_list_ready,
            s.cache_count == 0,
    {
        Self {
            lifecycle: Lifecycle::new(State::Base),
            boot_caches_registered: false,
            global_list_ready: false,
            cache_count: 0,
        }
    }

    pub fn state(&self) -> (r: State)
        ensures
            r == self.lifecycle@,
    {
        self.lifecycle.state()
    }

    pub fn boot_caches_registered(&self) -> (r: bool)
        ensures
            r == self.boot_caches_registered,
    {
        self.boot_caches_registered
    }

    pub fn global_list_ready(&self) -> (r: bool)
        ensures
            r == self.global_list_ready,
    {
        self.global_list_ready
    }

    pub fn cache_count(&self) -> (r: usize)
        ensures
            r == self.cache_count,
    {
        self.cache_count
    }

    pub fn setup(&mut self, slub_state: State) -> (r: EventResult)
        ensures
            !(old(self).lifecycle@ != State::Base || slub_state != State::Prepared) ==> {
                &&& r == Ok::<(), EventError>(())
                &&& final(self).lifecycle@ == State::Ready
                &&& *final(self) == (SlubCacheRegistry {
                    boot_caches_registered: true,
                    global_list_ready: true,
                    cache_count: 2,
                    lifecycle: final(self).lifecycle,
                    ..*old(self)
                })
            },
            old(self).lifecycle@ != State::Base || slub_state != State::Prepared ==> {
                &&& r == Err::<(), EventError>(
                    condition_error(
                        LifecycleEvent::Setup,
                        old(self).lifecycle@,
                        State::Base,
                        State::Ready,
                    ),
                )
                &&& *final(self) == *old(self)
            },
    {
        if self.lifecycle.state() != State::Base || slub_state != State::Prepared {
            return failed_condition(
                LifecycleEvent::Setup,
                self.lifecycle.state(),
                State::Base,
                State::Ready,
            );
        }
        self.boot_caches_registered = true;
        self.global_list_ready = true;
        self.cache_count = 2;
        self.lifecycle.transition(LifecycleEvent::Setup, State::Base, State::Ready)
    }
}

/// The phases of slab bring-up.
#[derive(Clone, Copy, PartialEq, Eq, Structural, Debug)]
pub enum SlubState {
    Down,
    Partial,
    Up,
}

/// The hotplug step under which the slab allocator registers.
pub const SLUB_CPUHP_STEP: usize = 0x201;

pub struct SlubAllocator {
    pub lifecycle: Lifecycle,
    pub slab_state: SlubState,
    pub boot_kmem_cache_node_ready: bool,
    pub bootstrap_completed: bool,
    pub cpu_cache_ready: bool,
    pub cpuhp_step_registered: bool,
    pub flush_workqueue_ready: bool,
    pub cache_registry: SlubCacheRegistry,
    pub kmalloc_caches: KmallocCaches,
}

impl SlubAllocator {
    pub open spec fn wf(&self) -> bool {
        self.kmalloc_caches.wf()
    }

    /// The allocator hands out objects.
    pub open spec fn serving(&self) -> bool {
        self.lifecycle@ == State::Ready && self.slab_state == SlubState::Up
    }

    pub fn new() -> (s: Self)
        ensures
            s.wf(),
            s.lifecycle@ == State::Base,
            s.slab_state == SlubState::Down,
            s.cache_registry.lifecycle@ == State::Base,
            s.kmalloc_caches.lifecycle@ == State::Base,
            !s.bootstrap_completed,
    {
        Self {
            lifecycle: Lifecycle::new(State::Base),
            slab_state: SlubState::Down,
            boot_kmem_cache_node_ready: false,
            bootstrap_completed: false,
            cpu_cache_ready: false,
            cpuhp_step_registered: false,
            flush_workqueue_ready: false,
            cache_registry: SlubCacheRegistry::new(),
            kmalloc_caches: KmallocCaches::new(),
        }
    }

    pub fn state(&self) -> (r: State)
        ensures
            r == self.lifecycle@,
    {
        self.lifecycle.state()
    }

    pub fn slab_state(&self) -> (r: SlubState)
        ensures
            r == self.slab_state,
    {
        self.slab_state
    }

    pub fn boot_kmem_cache_node_ready(&self) -> (r: bool)
        ensures
            r == self.boot_kmem_cache_node_ready,
    {
        self.boot_kmem_cache_node_ready
    }

    pub fn bootstrap_completed(&self) -> (r: bool)
        ensures
            r == self.bootstrap_completed,
    {
        self.bootstrap_completed
    }

    pub fn cpu_cache_ready(&self) -> (r: bool)
        ensures
            r == self.cpu_cache_ready,
    {
        self.cpu_cache_ready
    }

    pub fn cpuhp_step_registered(&self) -> (r: bool)
        ensures
            r == self.cpuhp_step_registered,
    {
        self.cpuhp_step_registered
    }

    pub fn flush_workqueue_ready(&self) -> (r: bool)
        ensures
            r == self.flush_workqueue_ready,
    {
        self.flush_workqueue_ready
    }

    pub fn cache_registry(&self) -> (r: &SlubCacheRegistry)
        ensures
            *r == self.cache_registry,
    {
        &self.cache_registry
    }

    pub fn kmalloc_caches(&self) -> (r: &KmallocCaches)
        ensures
            *r == self.kmalloc_caches,
    {
        &self.kmalloc_caches
    }

    /// Allocates an object of at least `size` bytes.
    pub fn kmalloc(
        &mut self,
        size: usize,
        gfp: GfpFlags,
        page_allocator: &mut PageAllocator,
        page_metadata_map: &mut PageMetadataMap,
    ) -> (r: Option<KmallocAllocRef>)
        requires
            old(self).wf(),
            old(page_allocator).inv(),
            old(page_metadata_map).wf(),
        ensures
            final(self).wf(),
            final(page_allocator).inv(),
            final(page_metadata_map).wf(),
            !old(self).serving() || old(self).kmalloc_caches.spec_cache_index_for_size(size) is None
                ==> r is None && *final(self) == *old(self) && *final(page_allocator) == *old(page_allocator) && *final(page_metadata_map) == *old(page_metadata_map),
            r matches Some(a) ==> old(self).kmalloc_caches.spec_cache_index_for_size(size) == Some(
                a.cache_index,
            ) && a.requested_size == size && size <= a.cache_size,
            old(self).serving() ==> (old(self).kmalloc_caches.spec_cache_index_for_size(
                size,
            ) matches Some(c) && old(self).kmalloc_caches.free_list(c as int).len() > 0 ==> (r is Some)
                == old(self).kmalloc_caches.spec_pops_listed(size)),
            old(self).serving() && old(self).kmalloc_caches.spec_pops_listed(size) ==> old(self).kmalloc_caches.popped_listed(final(self).kmalloc_caches, size),
            *final(self) == (SlubAllocator { kmalloc_caches: final(self).kmalloc_caches, ..*old(self) }),
            old(self).serving() && old(self).kmalloc_caches.spec_pops_listed(size) ==> r == Some(
                KmallocAllocRef {
                    addr: old(self).kmalloc_caches.free_list(
                        old(self).kmalloc_caches.spec_cache_index_for_size(size)->0 as int,
                    ).last(),
                    requested_size: size,
                    cache_size: old(self).kmalloc_caches.caches@[old(self).kmalloc_caches.spec_cache_index_for_size(size)->0 as int].object_size,
                    cache_index: old(self).kmalloc_caches.spec_cache_index_for_size(size)->0,
                },
            ),
    {
        if self.lifecycle.state() != State::Ready || self.slab_state != SlubState::Up {
            return None;
        }
        self.kmalloc_caches.kmalloc(size, gfp, page_allocator, page_metadata_map, false)
    }

    /// Allocates an object of at least `size` bytes for a zero-filled request; writing the
    /// zeros into the object is the caller's raw memory write.
    pub fn kzalloc(
        &mut self,
        size: usize,
        gfp: GfpFlags,
        page_allocator: &mut PageAllocator,
        page_metadata_map: &mut PageMetadataMap,
    ) -> (r: Option<KmallocAllocRef>)
        requires
            old(self).wf(),
            old(page_allocator).inv(),
            old(page_metadata_map).wf(),
        ensures
            final(self).wf(),
            final(page_allocator).inv(),
            final(page_metadata_map).wf(),
            !old(self).serving() || old(self).kmalloc_caches.spec_cache_index_for_size(size) is None
                ==> r is None && *final(self) == *old(self) && *final(page_allocator) == *old(page_allocator) && *final(page_metadata_map) == *old(page_metadata_map),
            r matches Some(a) ==> old(self).kmalloc_caches.spec_cache_index_for_size(size) == Some(
                a.cache_index,
            ) && a.requested_size == size && size <= a.cache_size,
            old(self).serving() ==> (old(self).kmalloc_caches.spec_cache_index_for_size(
                size,
            ) matches Some(c) && old(self).kmalloc_caches.free_list(c as int).len() > 0 ==> (r is Some)
                == old(self).kmalloc_caches.spec_pops_listed(size)),
            old(self).serving() && old(self).kmalloc_caches.spec_pops_listed(size) ==> old(self).kmalloc_caches.popped_listed(final(self).kmalloc_caches, size),
            *final(self) == (SlubAllocator { kmalloc_caches: final(self).kmalloc_caches, ..*old(self) }),
            old(self).serving() && old(self).kmalloc_caches.spec_pops_listed(size) ==> r == Some(
                KmallocAllocRef {
                    addr: old(self).kmalloc_caches.free_list(
                        old(self).kmalloc_caches.spec_cache_index_for_size(size)->0 as int,
                    ).last(),
                    requested_size: size,
                    cache_size: old(self).kmalloc_caches.caches@[old(self).kmalloc_caches.spec_cache_index_for_size(size)->0 as int].object_size,
                    cache_index: old(self).kmalloc_caches.spec_cache_index_for_size(size)->0,
                },
            ),
    {
        if self.lifecycle.state() != State::Ready || self.slab_state != SlubState::Up {
            return None;
        }
        self.kmalloc_caches.kmalloc(size, gfp, page_allocator, page_metadata_map, true)
    }

    /// Frees an object that kmalloc handed out.
    pub fn kfree(&mut self, alloc_ref: KmallocAllocRef) -> (r: bool)
        requires
            old(self).wf(),
        ensures
            final(self).wf(),
            r == (old(self).serving() && old(self).kmalloc_caches.spec_can_kfree(alloc_ref)),
            !r ==> *final(self) == *old(self),
            r ==> {
                let c = alloc_ref.cache_index as int;
                let caches = old(self).kmalloc_caches;
                let si = caches.spec_slab_index_for_addr(alloc_ref.addr)->0 as int;
                &&& *final(self) == (SlubAllocator {
                    kmalloc_caches: final(self).kmalloc_caches,
                    ..*old(self)
                })
                &&& final(self).kmalloc_caches.free_list(c) == caches.free_list(c).push(alloc_ref.addr)
                &&& final(self).kmalloc_caches.slabs@ == caches.slabs@.update(
                    si,
                    KmallocSlab { free_count: (caches.slabs@[si].free_count + 1) as usize, ..caches.slabs@[si] },
                )
            },
    {
        if self.lifecycle.state() != State::Ready || self.slab_state != SlubState::Up {
            return false;
        }
        self.kmalloc_caches.kfree(alloc_ref)
    }

    /// Frees the object at `addr` of a request of `size` bytes.
    pub fn kfree_addr(&mut self, addr: usize, size: usize) -> (r: bool)
        requires
            old(self).wf(),
        ensures
            final(self).wf(),
            !old(self).serving() ==> !r,
            !r ==> *final(self) == *old(self),
            r == (old(self).serving() && old(self).kmalloc_caches.spec_can_kfree_addr(addr, size)),
            r ==> {
                let c = old(self).kmalloc_caches.slabs@[old(self).kmalloc_caches.spec_slab_index_for_addr(addr)->0 as int].cache_index;
                &&& final(self).kmalloc_caches.free_list(c as int) == old(self).kmalloc_caches.free_list(c as int).push(addr)
                &&& *final(self) == (SlubAllocator {
                    kmalloc_caches: final(self).kmalloc_caches,
                    ..*old(self)
                })
            },
    {
        if self.lifecycle.state() != State::Ready || self.slab_state != SlubState::Up {
            return false;
        }
        self.kmalloc_caches.kfree_addr(addr, size)
    }

    /// Brings up the boot cache node once the page allocator and the per-CPU areas are ready.
    pub fn preset(&mut self, page_allocator_state: State, per_cpu_storage_state: State) -> (r:
        EventResult)
        ensures
            old(self).lifecycle@ != State::Base || page_allocator_state != State::Ready
                || per_cpu_storage_state != State::Ready ==> r == Err::<(), EventError>(
                condition_error(
                    LifecycleEvent::Preset,
                    old(self).lifecycle@,
                    State::Base,
                    State::Prepared,
                ),
            ) && *final(self) == *old(self),
            old(self).lifecycle@ == State::Base && page_allocator_state == State::Ready
                && per_cpu_storage_state == State::Ready ==> r == Ok::<(), EventError>(())
                && final(self).lifecycle@ == State::Prepared && *final(self) == (SlubAllocator {
                boot_kmem_cache_node_ready: true,
                slab_state: SlubState::Partial,
                lifecycle: final(self).lifecycle,
                ..*old(self)
            }),
    {
        if self.lifecycle.state() != State::Base || page_allocator_state != State::Ready
            || per_cpu_storage_state != State::Ready {
            return failed_condition(
                LifecycleEvent::Preset,
                self.lifecycle.state(),
                State::Base,
                State::Prepared,
            );
        }
        self.boot_kmem_cache_node_ready = true;
        self.slab_state = SlubState::Partial;
        self.lifecycle.transition(LifecycleEvent::Preset, State::Base, State::Prepared)
    }

    /// Registers the boot caches and sets up the kmalloc classes; a refusal of either is
    /// passed on as it came.
    pub fn setup(
        &mut self,
        page_allocator_state: State,
        stack_depot_state: State,
        per_cpu_storage_state: State,
        cpu_hotplug_state: State,
    ) -> (r: EventResult)
        requires
            old(self).wf(),
        ensures
            final(self).wf(),
            old(self).lifecycle@ != State::Prepared || page_allocator_state != State::Ready
                || stack_depot_state != State::Ready || per_cpu_storage_state != State::Ready
                || cpu_hotplug_state != State::Ready ==> r == Err::<(), EventError>(
                condition_error(
                    LifecycleEvent::Setup,
                    old(self).lifecycle@,
                    State::Prepared,
                    State::Ready,
                ),
            ) && *final(self) == *old(self),
            old(self).lifecycle@ == State::Prepared && page_allocator_state == State::Ready
                && stack_depot_state == State::Ready && per_cpu_storage_state == State::Ready
                && cpu_hotplug_state == State::Ready && old(self).cache_registry.lifecycle@
                == State::Base && old(self).kmalloc_caches.lifecycle@ == State::Base ==> {
                &&& r == Ok::<(), EventError>(())
                &&& final(self).lifecycle@ == State::Ready
                &&& final(self).slab_state == SlubState::Up
                &&& final(self).bootstrap_completed && final(self).cpu_cache_ready
                &&& final(self).cpuhp_step_registered
                &&& final(self).cache_registry.lifecycle@ == State::Ready
                &&& final(self).kmalloc_caches.lifecycle@ == State::Ready
                &&& final(self).kmalloc_caches.count == 11
            },
            r is Err ==> final(self).lifecycle == old(self).lifecycle,
    {
        if self.lifecycle.state() != State::Prepared || page_allocator_state != State::Ready
            || stack_depot_state != State::Ready || per_cpu_storage_state != State::Ready
            || cpu_hotplug_state != State::Ready {
            return failed_condition(
                LifecycleEvent::Setup,
                self.lifecycle.state(),
                State::Prepared,
                State::Ready,
            );
        }
        let rr = self.cache_registry.setup(self.lifecycle.state());
        if rr.is_err() {
            return rr;
        }
        let kr = self.kmalloc_caches.setup(self.lifecycle.state(), self.cache_registry.state());
        if kr.is_err() {
            return kr;
        }
        self.bootstrap_completed = true;
        self.cpu_cache_ready = true;
        self.cpuhp_step_registered = SLUB_CPUHP_STEP != 0;
        self.slab_state = SlubState::Up;
        self.lifecycle.transition(LifecycleEvent::Setup, State::Prepared, State::Ready)
    }

    /// Binds the cache flush workqueue.
    pub fn setup_flush_workqueue(&mut self, workqueue: &Workqueue) -> (r: EventResult)
        ensures
            old(self).lifecycle@ != State::Ready || old(self).kmalloc_caches.lifecycle@
                != State::Ready || workqueue.state != State::Prepared ==> r == Err::<
                (),
                EventError,
            >(
                condition_error(
                    LifecycleEvent::Setup,
                    old(self).lifecycle@,
                    State::Ready,
                    State::Ready,
                ),
            ) && *final(self) == *old(self),
            old(self).lifecycle@ == State::Ready && old(self).kmalloc_caches.lifecycle@
                == State::Ready && workqueue.state == State::Prepared ==> r == Ok::<(), EventError>(
                (),
            ) && *final(self) == (SlubAllocator { flush_workqueue_ready: true, ..*old(self) }),
    {
        if self.lifecycle.state() != State::Ready || self.kmalloc_caches.state() != State::Ready
            || workqueue.state != State::Prepared {
            return failed_condition(
                LifecycleEvent::Setup,
                self.lifecycle.state(),
                State::Ready,
                State::Ready,
            );
        }
        self.flush_workqueue_ready = true;
        Ok(())
    }
}

/// The address the kernel global allocator hands out for a layout of `size` bytes aligned
/// to `align`: a kmalloc object, or `None` (a null pointer) where the layout is not served,
/// kmalloc fails, or the object is not aligned (it is then freed again).
pub fn global_alloc(
    slub_allocator: &mut SlubAllocator,
    page_allocator: &mut PageAllocator,
    page_metadata_map: &mut PageMetadataMap,
    size: usize,
    align: usize,
    zeroed: bool,
) -> (r: Option<usize>)
    requires
        old(slub_allocator).wf(),
        old(page_allocator).inv(),
        old(page_metadata_map).wf(),
    ensures
        final(slub_allocator).wf(),
        final(page_allocator).inv(),
        final(page_metadata_map).wf(),
        !layout_supported_spec(size, align) ==> r is None && *final(slub_allocator) == *old(slub_allocator),
        r matches Some(addr) ==> align != 0 && addr % align == 0 && addr != 0,
        layout_supported_spec(size, align) && old(slub_allocator).serving() && old(slub_allocator).kmalloc_caches.spec_pops_listed(size) && old(slub_allocator).kmalloc_caches.spec_returns_popped(size) ==> {
            let caches = old(slub_allocator).kmalloc_caches;
            let c = caches.spec_cache_index_for_size(size)->0 as int;
            let addr = caches.free_list(c).last();
            !(align != 0 && addr % align == 0) ==> final(slub_allocator).kmalloc_caches.free_list(c)
                == caches.free_list(c) && final(slub_allocator).kmalloc_caches.slabs@
                == caches.slabs@
        },
        layout_supported_spec(size, align) && old(slub_allocator).serving() && old(slub_allocator).kmalloc_caches.spec_pops_listed(size) ==> {
            let caches = old(slub_allocator).kmalloc_caches;
            let addr = caches.free_list(caches.spec_cache_index_for_size(size)->0 as int).last();
            r == (if align != 0 && addr % align == 0 {
                Some(addr)
            } else {
                None
            })
        },
{
    if !layout_supported(size, align) {
        return None;
    }
    let allocation = if zeroed {
        slub_allocator.kzalloc(size, GfpFlags::kernel(), page_allocator, page_metadata_map)
    } else {
        slub_allocator.kmalloc(size, GfpFlags::kernel(), page_allocator, page_metadata_map)
    };
    let alloc_ref = match allocation {
        Some(a) => a,
        None => return None,
    };
    if align != 0 && alloc_ref.addr() % align == 0 && alloc_ref.addr() != 0 {
        Some(alloc_ref.addr())
    } else {
        let ghost s1 = slub_allocator.kmalloc_caches;
        proof {
            let s0 = old(slub_allocator).kmalloc_caches;
            if layout_supported_spec(size, align) && old(slub_allocator).serving()
                && s0.spec_pops_listed(size) && s0.spec_returns_popped(size) {
                let c = s0.spec_cache_index_for_size(size)->0;
                let list = s0.free_list(c as int);
                let addr = list.last();
                assert forall|i: int| 0 <= i < s0.slab_count implies #[trigger] s0.slabs@[i].spec_contains(
                    addr,
                ) == s1.slabs@[i].spec_contains(addr) by {}
                KmallocCaches::lemma_slab_index_frame(&s0, &s1, addr);
                assert(list.drop_last().push(addr) =~= list);
                if s1.spec_freelist_contains(c, addr) {
                    let j = choose|j: int|
                        0 <= j < s1.free_list(c as int).len() && s1.free_list(c as int).len() - j
                            <= FREELIST_SCAN_LIMIT && #[trigger] s1.free_list(c as int)[j] == addr;
                    assert(list[j] == list.last());
                }
            }
        }
        let _ = slub_allocator.kfree(alloc_ref);
        proof {
            let s0 = old(slub_allocator).kmalloc_caches;
            if layout_supported_spec(size, align) && old(slub_allocator).serving()
                && s0.spec_pops_listed(size) && s0.spec_returns_popped(size) {
                let c = s0.spec_cache_index_for_size(size)->0;
                let si = s0.spec_slab_index_for_addr(s0.free_list(c as int).last())->0 as int;
                assert(slub_allocator.kmalloc_caches.slabs@ =~= s0.slabs@);
            }
        }
        None
    }
}

/// Frees what `global_alloc` handed out for a layout of `size` bytes aligned to `align`;
/// `false` where the allocator refuses it, which the caller treats as fatal.
pub fn global_dealloc(slub_allocator: &mut SlubAllocator, addr: usize, size: usize, align: usize) -> (r: bool)
    requires
        old(slub_allocator).wf(),
    ensures
        final(slub_allocator).wf(),
        addr == 0 || !layout_supported_spec(size, align) ==> r && *final(slub_allocator) == *old(slub_allocator),
        addr != 0 && layout_supported_spec(size, align) ==> r == (old(slub_allocator).serving()
            && old(slub_allocator).kmalloc_caches.spec_can_kfree_addr(addr, size)),
{
    if addr == 0 || !layout_supported(size, align) {
        return true;
    }
    slub_allocator.kfree_addr(addr, size)
}

/// The named slab caches that kernel subsystems register.
#[derive(Clone, Copy, PartialEq, Eq, Structural, Debug)]
pub enum NamedSlubCacheKind {
    MapleNode,
    RadixTreeNode,
}

/// A registered named slab cache: its kind and its object size.
#[derive(Clone, Copy, PartialEq, Eq, Structural, Debug)]
pub struct NamedSlubCache {
    pub kind: NamedSlubCacheKind,
    pub object_size: usize,
}

} // verus!
