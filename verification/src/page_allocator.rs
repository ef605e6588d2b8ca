//! The boot page allocator: the zone fallback list, the buddy free lists and the per-zone
//! accounting, with the lifecycle that hands memory over from the boot block allocator.
use vstd::prelude::*;
use crate::boot_facts::{Config, CpuGroup, Workqueue, ZoneKind, Zones};
use crate::buddy::{
    block_fits_in_range, block_fits_spec, freed_merged, keeps_zones, order_pages, zone_pages, BuddyFreeBlock,
    BuddyFreePageSets, BUDDY_ORDER_COUNT,
};
use crate::memblock::MemBlock;
use crate::mm_page::{GfpFlags, PageMetadataMap, PageRef, BUDDY_INVALID_INDEX};
use crate::mm_topology::{
    bytes_to_pages, bytes_to_pages_spec, zone_refs_spec, zone_refs_step, BootZonelistSet,
    MemoryTopology, ZoneRef,
};
use crate::state::{
    condition_error, failed_condition, transition_result, transition_state, EventError,
    EventResult, Lifecycle, LifecycleEvent, State,
};
use crate::boot_facts::Zone;

verus! {

/// The hotplug step under which the page allocator registers.
pub const PAGE_ALLOC_CPUHP_STEP: usize = 0x200;

/// The managed pages of a list of zones.
pub open spec fn managed_sum(zones: Seq<ZoneRef>) -> int
    decreases zones.len(),
{
    if zones.len() == 0 {
        0
    } else {
        managed_sum(zones.drop_last()) + zones.last().managed_pages
    }
}

/// The zones of the machine as the allocator accounts for them, with their total managed
/// pages; `None` where a zone is missing, a size is not a whole number of pages, or the total
/// overflows.
pub open spec fn zone_facts_spec(zones: &Zones, page_size: usize) -> Option<(Seq<ZoneRef>, usize)> {
    match zone_refs_spec(zones, page_size) {
        Some(refs) => if managed_sum(refs) <= usize::MAX {
            Some((refs, managed_sum(refs) as usize))
        } else {
            None
        },
        None => None,
    }
}

/// The populated zones and their total managed pages.
pub struct ZoneFacts {
    pub facts: [ZoneRef; 3],
    pub count: usize,
    pub total_pages: usize,
}

impl ZoneFacts {
    pub open spec fn view(&self) -> Seq<ZoneRef> {
        self.facts@.subrange(0, self.count as int)
    }

    /// Appends `zone` of `kind` where it is populated.
    fn push(&mut self, zone: Option<Zone>, kind: ZoneKind, page_size: usize) -> (ok: bool)
        requires
            old(self).count < 3,
            old(self).total_pages == managed_sum(old(self)@),
        ensures
            final(self).count <= old(self).count + 1,
            ok ==> Some(final(self)@) == zone_refs_step(Some(old(self)@), zone, kind, page_size)
                && final(self).total_pages == managed_sum(final(self)@),
            !ok ==> zone_refs_step(Some(old(self)@), zone, kind, page_size) is None || managed_sum(
                zone_refs_step(Some(old(self)@), zone, kind, page_size)->0,
            ) > usize::MAX,
    {
        let z = match zone {
            Some(z) => z,
            None => return false,
        };
        if z.is_empty() {
            return true;
        }
        let pages = match bytes_to_pages(z.present_bytes(), page_size) {
            Some(p) => p,
            None => return false,
        };
        let ghost before = self@;
        let fact = ZoneRef { kind, range: z.range(), managed_pages: pages, free_pages: pages };
        assert(before.push(fact).drop_last() =~= before);
        let total = match self.total_pages.checked_add(pages) {
            Some(t) => t,
            None => return false,
        };
        self.facts[self.count] = fact;
        self.count += 1;
        self.total_pages = total;
        assert(self@ =~= before.push(fact));
        true
    }
}

/// Collects the populated zones in the order DMA32, Normal, Movable.
pub fn build_zone_facts(zones: &Zones, config: &Config) -> (r: Option<ZoneFacts>)
    ensures
        r matches Some(f) ==> zone_facts_spec(zones, config.page_size) == Some(
            (f@, f.total_pages),
        ) && f.count <= 3,
        r is None ==> zone_facts_spec(zones, config.page_size) is None,
{
    let mut facts = ZoneFacts {
        facts: [ZoneRef::empty(), ZoneRef::empty(), ZoneRef::empty()],
        count: 0,
        total_pages: 0,
    };
    assert(facts@ =~= Seq::<ZoneRef>::empty());
    if !facts.push(zones.zone(ZoneKind::Dma32), ZoneKind::Dma32, config.page_size) {
        proof {
            lemma_step_sum_grows(zones, config.page_size, 0);
        }
        return None;
    }
    if !facts.push(zones.zone(ZoneKind::Normal), ZoneKind::Normal, config.page_size) {
        proof {
            lemma_step_sum_grows(zones, config.page_size, 1);
        }
        return None;
    }
    if !facts.push(zones.zone(ZoneKind::Movable), ZoneKind::Movable, config.page_size) {
        return None;
    }
    Some(facts)
}

/// The managed sum only grows as zones are appended.
proof fn lemma_push_sum(zs: Seq<ZoneRef>, z: ZoneRef)
    ensures
        managed_sum(zs.push(z)) == managed_sum(zs) + z.managed_pages,
{
    assert(zs.push(z).drop_last() =~= zs);
}

/// Once the running sum overflows, appending more zones keeps it overflowing, and once a step
/// fails the later steps fail too.
proof fn lemma_step_sum_grows(zones: &Zones, page_size: usize, stage: int)
    requires
        0 <= stage <= 1,
    ensures
        ({
            let s0 = zone_refs_step(Some(Seq::empty()), zones.dma32, ZoneKind::Dma32, page_size);
            let s1 = zone_refs_step(s0, zones.normal, ZoneKind::Normal, page_size);
            let s2 = zone_refs_step(s1, zones.movable, ZoneKind::Movable, page_size);
            &&& (stage == 0 && (s0 is None || managed_sum(s0->0) > usize::MAX)) ==> (s2 is None
                || managed_sum(s2->0) > usize::MAX)
            &&& (stage == 1 && (s1 is None || managed_sum(s1->0) > usize::MAX)) ==> (s2 is None
                || managed_sum(s2->0) > usize::MAX)
        }),
{
    let s0 = zone_refs_step(Some(Seq::empty()), zones.dma32, ZoneKind::Dma32, page_size);
    let s1 = zone_refs_step(s0, zones.normal, ZoneKind::Normal, page_size);
    let s2 = zone_refs_step(s1, zones.movable, ZoneKind::Movable, page_size);
    if s0 is Some {
        let z = zones.normal;
        if s1 is Some && z is Some && z->0.present_bytes != 0 {
            lemma_push_sum(s0->0, s1->0.last());
            assert(s1->0.drop_last() =~= s0->0);
        }
    }
    if s1 is Some && s2 is Some {
        let z = zones.movable;
        if z is Some && z->0.present_bytes != 0 {
            assert(s2->0.drop_last() =~= s1->0);
        }
    }
}

pub struct PageAllocator {
    pub lifecycle: Lifecycle,
    pub boot_zonelist_set: BootZonelistSet,
    pub buddy_free_page_sets: BuddyFreePageSets,
    pub page_metadata_map_bound: bool,
    pub cpuhp_step_registered: bool,
    pub boot_pageset_checkpoint_ready: bool,
    pub handoff_complete: bool,
    pub full_gfp_mask_open: bool,
    pub late_ready: bool,
    pub memory_stats_ready: bool,
    pub buffer_init_ready: bool,
    pub memblock_private_discarded: bool,
    pub zone_contiguous_ready: bool,
    pub sysctl_ready: bool,
    pub deferred_struct_page_init_trimmed: bool,
    pub page_extension_late_trimmed: bool,
    pub shuffle_late_trimmed: bool,
    pub totalram_pages: usize,
    pub zone_facts: [ZoneRef; 3],
    pub zone_fact_count: usize,
}

/// `after` is `before` after a successful allocation of a block of `order`.
pub open spec fn allocated_from(before: PageAllocator, after: PageAllocator, order: usize) -> bool {
    after.buddy_free_page_sets.total_free_pages == before.buddy_free_page_sets.total_free_pages
        - order_pages(order as int)
}

/// `after` is `before` after a successful free of a block of `order`.
pub open spec fn freed_into(before: PageAllocator, after: PageAllocator, order: usize) -> bool {
    after.buddy_free_page_sets.total_free_pages == before.buddy_free_page_sets.total_free_pages
        + order_pages(order as int)
}

/// Freeing a block of the order that was allocated gives back exactly the pages the
/// allocation took: the free page count returns to what it was.
pub proof fn lemma_free_undoes_alloc(
    a0: PageAllocator,
    a1: PageAllocator,
    a2: PageAllocator,
    order: usize,
)
    requires
        allocated_from(a0, a1, order),
        freed_into(a1, a2, order),
    ensures
        a2.buddy_free_page_sets.total_free_pages == a0.buddy_free_page_sets.total_free_pages,
{
}

impl PageAllocator {
    /// The free lists agree with their counters, and the fact and fallback tables are within
    /// their capacity.
    pub open spec fn inv(&self) -> bool {
        &&& self.buddy_free_page_sets.inv()
        &&& self.boot_zonelist_set.wf()
        &&& self.zone_fact_count <= 3
    }

    /// The zone facts in use.
    pub open spec fn facts(&self) -> Seq<ZoneRef> {
        self.zone_facts@.subrange(0, self.zone_fact_count as int)
    }

    pub fn new() -> (s: Self)
        ensures
            s.inv(),
            s.lifecycle@ == State::Base,
            s.boot_zonelist_set.lifecycle@ == State::Base,
            !s.buddy_free_page_sets.ready,
            s.buddy_free_page_sets.total_free_pages == 0,
            !s.handoff_complete,
            !s.page_metadata_map_bound,
            s.totalram_pages == 0,
            s.zone_fact_count == 0,
    {
        Self {
            lifecycle: Lifecycle::new(State::Base),
            boot_zonelist_set: BootZonelistSet::new(),
            buddy_free_page_sets: BuddyFreePageSets::new(),
            page_metadata_map_bound: false,
            cpuhp_step_registered: false,
            boot_pageset_checkpoint_ready: false,
            handoff_complete: false,
            full_gfp_mask_open: false,
            late_ready: false,
            memory_stats_ready: false,
            buffer_init_ready: false,
            memblock_private_discarded: false,
            zone_contiguous_ready: false,
            sysctl_ready: false,
            deferred_struct_page_init_trimmed: false,
            page_extension_late_trimmed: false,
            shuffle_late_trimmed: false,
            totalram_pages: 0,
            zone_facts: [ZoneRef::empty(), ZoneRef::empty(), ZoneRef::empty()],
            zone_fact_count: 0,
        }
    }

    pub fn state(&self) -> (r: State)
        ensures
            r == self.lifecycle@,
    {
        self.lifecycle.state()
    }

    pub fn boot_zonelist_set(&self) -> (r: &BootZonelistSet)
        ensures
            *r == self.boot_zonelist_set,
    {
        &self.boot_zonelist_set
    }

    pub fn buddy_free_page_sets_ready(&self) -> (r: bool)
        ensures
            r == self.buddy_free_page_sets.ready,
    {
        self.buddy_free_page_sets.ready()
    }

    pub fn buddy_total_free_pages(&self) -> (r: usize)
        ensures
            r == self.buddy_free_page_sets.total_free_pages,
    {
        self.buddy_free_page_sets.total_free_pages()
    }

    pub fn buddy_free_block_count(&self) -> (r: usize)
        ensures
            r == self.buddy_free_page_sets.free_block_count,
    {
        self.buddy_free_page_sets.free_block_count()
    }

    pub fn page_metadata_map_bound(&self) -> (r: bool)
        ensures
            r == self.page_metadata_map_bound,
    {
        self.page_metadata_map_bound
    }

    pub fn cpuhp_step_registered(&self) -> (r: bool)
        ensures
            r == self.cpuhp_step_registered,
    {
        self.cpuhp_step_registered
    }

    pub fn boot_pageset_checkpoint_ready(&self) -> (r: bool)
        ensures
            r == self.boot_pageset_checkpoint_ready,
    {
        self.boot_pageset_checkpoint_ready
    }

    pub fn handoff_complete(&self) -> (r: bool)
        ensures
            r == self.handoff_complete,
    {
        self.handoff_complete
    }

    pub fn full_gfp_mask_open(&self) -> (r: bool)
        ensures
            r == self.full_gfp_mask_open,
    {
        self.full_gfp_mask_open
    }

    pub fn late_ready(&self) -> (r: bool)
        ensures
            r == self.late_ready,
    {
        self.late_ready
    }

    pub fn memory_stats_ready(&self) -> (r: bool)
        ensures
            r == self.memory_stats_ready,
    {
        self.memory_stats_ready
    }

    pub fn buffer_init_ready(&self) -> (r: bool)
        ensures
            r == self.buffer_init_ready,
    {
        self.buffer_init_ready
    }

    pub fn memblock_private_discarded(&self) -> (r: bool)
        ensures
            r == self.memblock_private_discarded,
    {
        self.memblock_private_discarded
    }

    pub fn zone_contiguous_ready(&self) -> (r: bool)
        ensures
            r == self.zone_contiguous_ready,
    {
        self.zone_contiguous_ready
    }

    pub fn sysctl_ready(&self) -> (r: bool)
        ensures
            r == self.sysctl_ready,
    {
        self.sysctl_ready
    }

    pub fn deferred_struct_page_init_trimmed(&self) -> (r: bool)
        ensures
            r == self.deferred_struct_page_init_trimmed,
    {
        self.deferred_struct_page_init_trimmed
    }

    pub fn page_extension_late_trimmed(&self) -> (r: bool)
        ensures
            r == self.page_extension_late_trimmed,
    {
        self.page_extension_late_trimmed
    }

    pub fn shuffle_late_trimmed(&self) -> (r: bool)
        ensures
            r == self.shuffle_late_trimmed,
    {
        self.shuffle_late_trimmed
    }

    pub fn totalram_pages(&self) -> (r: usize)
        ensures
            r == self.totalram_pages,
    {
        self.totalram_pages
    }

    pub fn zone_fact_count(&self) -> (r: usize)
        ensures
            r == self.zone_fact_count,
    {
        self.zone_fact_count
    }

    pub fn zone_fact(&self, index: usize) -> (r: Option<ZoneRef>)
        requires
            self.inv(),
        ensures
            r == (if index < self.zone_fact_count {
                Some(self.zone_facts@[index as int])
            } else {
                None
            }),
    {
        if index < self.zone_fact_count {
            Some(self.zone_facts[index])
        } else {
            None
        }
    }

    /// The first zone fact of `kind`.
    pub open spec fn spec_zone_fact_by_kind(&self, kind: ZoneKind) -> Option<ZoneRef> {
        if exists|i: int| 0 <= i < self.zone_fact_count && self.zone_facts@[i].kind == kind {
            Some(
                self.zone_facts@[choose|i: int|
                    0 <= i < self.zone_fact_count && self.zone_facts@[i].kind == kind && forall|
                        j: int,
                    |
                        0 <= j < i ==> self.zone_facts@[j].kind != kind],
            )
        } else {
            None
        }
    }

    fn zone_fact_by_kind(&self, kind: ZoneKind) -> (r: Option<ZoneRef>)
        requires
            self.inv(),
        ensures
            r == self.spec_zone_fact_by_kind(kind),
    {
        let mut index: usize = 0;
        while index < self.zone_fact_count
            invariant
                self.inv(),
                index <= self.zone_fact_count,
                forall|j: int| 0 <= j < index ==> self.zone_facts@[j].kind != kind,
            decreases self.zone_fact_count - index,
        {
            if self.zone_facts[index].kind() == kind {
                proof {
                    let i = index as int;
                    let c = choose|i: int|
                        0 <= i < self.zone_fact_count && self.zone_facts@[i].kind == kind && forall|
                            j: int,
                        |
                            0 <= j < i ==> self.zone_facts@[j].kind != kind;
                    assert(0 <= i < self.zone_fact_count && self.zone_facts@[i].kind == kind
                        && forall|j: int| 0 <= j < i ==> self.zone_facts@[j].kind != kind);
                    if c > i {
                        assert(self.zone_facts@[i].kind != kind);
                    }
                }
                return Some(self.zone_facts[index]);
            }
            index += 1;
        }
        None
    }

    pub fn zone_managed_pages(&self, kind: ZoneKind) -> (r: Option<usize>)
        requires
            self.inv(),
        ensures
            r == (match self.spec_zone_fact_by_kind(kind) {
                Some(z) => Some(z.managed_pages),
                None => None,
            }),
    {
        match self.zone_fact_by_kind(kind) {
            Some(zone) => Some(zone.managed_pages()),
            None => None,
        }
    }

    pub fn zone_free_pages(&self, kind: ZoneKind) -> (r: Option<usize>)
        requires
            self.inv(),
        ensures
            r == (match self.spec_zone_fact_by_kind(kind) {
                Some(z) => Some(z.free_pages),
                None => None,
            }),
    {
        match self.zone_fact_by_kind(kind) {
            Some(zone) => Some(zone.free_pages()),
            None => None,
        }
    }

    pub fn buddy_zone_free_pages(&self, kind: ZoneKind) -> (r: Option<usize>)
        requires
            self.inv(),
        ensures
            r == (match self.buddy_free_page_sets.spec_zone_index(kind) {
                Some(z) => Some(zone_pages(self.buddy_free_page_sets.areas@, z as int, 11) as usize),
                None => None,
            }),
    {
        self.buddy_free_page_sets.zone_free_pages(kind)
    }

    pub fn buddy_order_free_count(&self, kind: ZoneKind, order: usize) -> (r: Option<usize>)
        requires
            self.inv(),
        ensures
            r == (if order >= BUDDY_ORDER_COUNT {
                None
            } else {
                match self.buddy_free_page_sets.spec_zone_index(kind) {
                    Some(z) => Some(self.buddy_free_page_sets.area(z as int, order as int).nr_free),
                    None => None,
                }
            }),
    {
        self.buddy_free_page_sets.order_free_count(kind, order)
    }

    pub fn first_buddy_free_block(&self, page_metadata_map: &PageMetadataMap) -> (r: Option<
        BuddyFreeBlock,
    >)
        requires
            self.inv(),
        ensures
            r matches Some(b) ==> exists|z: int, o: int|
                {
                    &&& #[trigger] self.buddy_free_page_sets.first_nonempty(z, o)
                    &&& page_metadata_map.spec_page_ref_from_metadata_index(
                        self.buddy_free_page_sets.area(z, o).head_index,
                    ) == Some(b.page)
                    &&& Some(b.zone) == self.buddy_free_page_sets.zone_kinds@[z]
                    &&& b.order == o
                },
            r is None ==> forall|z: int, o: int|
                #[trigger] self.buddy_free_page_sets.first_nonempty(z, o)
                    ==> page_metadata_map.spec_page_ref_from_metadata_index(
                    self.buddy_free_page_sets.area(z, o).head_index,
                ) is None,
    {
        self.buddy_free_page_sets.first_free_block(page_metadata_map)
    }

    /// Each zone fact's free pages are what the buddy lists of its zone hold.
    pub open spec fn facts_synced(&self) -> bool {
        forall|i: int|
            0 <= i < self.zone_fact_count ==> (#[trigger] self.buddy_free_page_sets.spec_zone_index(
                self.zone_facts@[i].kind,
            ) matches Some(z) && self.zone_facts@[i].free_pages == zone_pages(
                self.buddy_free_page_sets.areas@,
                z as int,
                11,
            ))
    }

    /// An allocation of `order` for `gfp` takes the head of the list of that order in the zone
    /// of fallback entry `f` as it is, with no split: the allocator serves, the buddy lists
    /// and the fallback list are ready, every zone fact names a zone of the lists, that list is
    /// the first non-empty one the allocation tries, and its head can be unlinked.
    pub open spec fn alloc_takes_head(
        &self,
        order: usize,
        gfp: GfpFlags,
        map: &PageMetadataMap,
        f: int,
    ) -> bool {
        let sets = self.buddy_free_page_sets;
        let head = sets.candidate_head(self.boot_zonelist_set, f, order as int);
        &&& self.serving()
        &&& gfp.spec_boot_buddy_allowed()
        &&& sets.ready
        &&& self.boot_zonelist_set.lifecycle@ == State::Ready
        &&& map.lifecycle@ == State::Ready
        &&& self.facts_have_zones()
        &&& sets.is_first_candidate(self.boot_zonelist_set, order as int, f, order as int)
        &&& head != BUDDY_INVALID_INDEX
        &&& sets.spec_can_remove(
            sets.spec_zone_index(self.boot_zonelist_set.fallback@[f]->0)->0,
            order,
            head,
            map,
        )
    }

    /// An allocation of `order` for `gfp` is owed as it is: the head of some list is taken
    /// with no split.
    pub open spec fn spec_alloc_owed(&self, order: usize, gfp: GfpFlags, map: &PageMetadataMap) -> bool {
        exists|f: int| #[trigger] self.alloc_takes_head(order, gfp, map, f)
    }

    /// The page that an allocation owed as it is hands out.
    pub open spec fn spec_owed_page(&self, order: usize, gfp: GfpFlags, map: &PageMetadataMap) -> PageRef {
        let f = choose|f: int| #[trigger] self.alloc_takes_head(order, gfp, map, f);
        map.spec_page_ref_from_metadata_index(
            self.buddy_free_page_sets.candidate_head(self.boot_zonelist_set, f, order as int),
        )->0
    }

    /// Every zone fact in use names a zone that the buddy lists hold.
    pub open spec fn facts_have_zones(&self) -> bool {
        forall|i: int|
            0 <= i < self.zone_fact_count ==> (#[trigger] self.buddy_free_page_sets.spec_zone_index(
                self.zone_facts@[i].kind,
            )) is Some
    }

    /// Copies each zone's free page count from the buddy lists into its fact.
    fn sync_zone_free_pages(&mut self) -> (r: bool)
        requires
            old(self).inv(),
        ensures
            final(self).inv(),
            *final(self) == (PageAllocator { zone_facts: final(self).zone_facts, ..*old(self) }),
            forall|i: int|
                0 <= i < 3 ==> (#[trigger] final(self).zone_facts@[i]).kind == old(self).zone_facts@[i].kind && final(self).zone_facts@[i].managed_pages == old(self).zone_facts@[i].managed_pages && final(self).zone_facts@[i].range == old(self).zone_facts@[i].range,
            r ==> final(self).facts_synced(),
            r == forall|i: int|
                0 <= i < old(self).zone_fact_count ==> (
                #[trigger] old(self).buddy_free_page_sets.spec_zone_index(
                    old(self).zone_facts@[i].kind,
                )) is Some,
            r ==> forall|i: int|
                0 <= i < 3 ==> #[trigger] final(self).zone_facts@[i] == (if i
                    < old(self).zone_fact_count {
                    ZoneRef {
                        free_pages: zone_pages(
                            old(self).buddy_free_page_sets.areas@,
                            old(self).buddy_free_page_sets.spec_zone_index(
                                old(self).zone_facts@[i].kind,
                            )->0 as int,
                            11,
                        ) as usize,
                        ..old(self).zone_facts@[i]
                    }
                } else {
                    old(self).zone_facts@[i]
                }),
    {
        let mut zone_index: usize = 0;
        while zone_index < self.zone_fact_count
            invariant
                self.inv(),
                *self == (PageAllocator { zone_facts: self.zone_facts, ..*old(self) }),
                zone_index <= self.zone_fact_count,
                forall|i: int|
                    0 <= i < 3 ==> (#[trigger] self.zone_facts@[i]).kind == old(self).zone_facts@[i].kind && self.zone_facts@[i].managed_pages == old(self).zone_facts@[i].managed_pages && self.zone_facts@[i].range == old(self).zone_facts@[i].range,
                forall|i: int|
                    0 <= i < zone_index ==> (#[trigger] self.buddy_free_page_sets.spec_zone_index(
                        self.zone_facts@[i].kind,
                    ) matches Some(z) && self.zone_facts@[i].free_pages == zone_pages(
                        self.buddy_free_page_sets.areas@,
                        z as int,
                        11,
                    )),
                forall|i: int|
                    0 <= i < zone_index ==> (#[trigger] old(self).buddy_free_page_sets.spec_zone_index(old(self).zone_facts@[i].kind)) is Some,
                forall|i: int|
                    0 <= i < 3 ==> #[trigger] self.zone_facts@[i] == (if i < zone_index {
                        ZoneRef {
                            free_pages: zone_pages(
                                old(self).buddy_free_page_sets.areas@,
                                old(self).buddy_free_page_sets.spec_zone_index(
                                    old(self).zone_facts@[i].kind,
                                )->0 as int,
                                11,
                            ) as usize,
                            ..old(self).zone_facts@[i]
                        }
                    } else {
                        old(self).zone_facts@[i]
                    }),
            decreases self.zone_fact_count - zone_index,
        {
            let kind = self.zone_facts[zone_index].kind();
            let free_pages = match self.buddy_free_page_sets.zone_free_pages(kind) {
                Some(p) => p,
                None => {
                    assert(old(self).buddy_free_page_sets.spec_zone_index(
                        old(self).zone_facts@[zone_index as int].kind,
                    ) is None);
                    return false;
                },
            };
            let mut fact = self.zone_facts[zone_index];
            fact.free_pages = free_pages;
            let ghost before = self.zone_facts@;
            self.zone_facts[zone_index] = fact;
            assert(self.zone_facts@ == before.update(zone_index as int, fact));
            assert(self.buddy_free_page_sets.spec_zone_index(self.zone_facts@[zone_index as int].kind)
                matches Some(z) && self.zone_facts@[zone_index as int].free_pages == zone_pages(
                self.buddy_free_page_sets.areas@,
                z as int,
                11,
            ));
            zone_index += 1;
        }
        true
    }

    /// The allocator serves requests: it is ready, memory has been handed over, and the
    /// metadata map is bound.
    pub open spec fn serving(&self) -> bool {
        self.lifecycle@ == State::Ready && self.handoff_complete && self.page_metadata_map_bound
    }

    /// Allocates a block of `order` pages for a request with flags `gfp`, and brings the zone
    /// accounting up to date.
    #[verifier::rlimit(60)]
    pub fn alloc_pages(&mut self, order: usize, gfp: GfpFlags, page_metadata_map: &mut PageMetadataMap) -> (r:
        Option<PageRef>)
        requires
            old(self).inv(),
            old(page_metadata_map).wf(),
        ensures
            final(self).inv(),
            final(page_metadata_map).wf(),
            *final(page_metadata_map) == (PageMetadataMap {
                metadata: final(page_metadata_map).metadata,
                ..*old(page_metadata_map)
            }),
            *final(self) == (PageAllocator {
                buddy_free_page_sets: final(self).buddy_free_page_sets,
                zone_facts: final(self).zone_facts,
                ..*old(self)
            }),
            !old(self).serving() || !gfp.spec_boot_buddy_allowed() ==> r is None && *final(self)
                == *old(self) && *final(page_metadata_map) == *old(page_metadata_map),
            !old(self).buddy_free_page_sets.has_free_block_for(
                old(self).boot_zonelist_set,
                order as int,
            ) ==> r is None && *final(self) == *old(self) && *final(page_metadata_map) == *old(page_metadata_map),
            forall|f: int, o: int|
                #[trigger] old(self).buddy_free_page_sets.spec_alloc_owed(
                    old(self).boot_zonelist_set,
                    order,
                    old(page_metadata_map),
                    f,
                    o,
                ) && old(self).serving() && gfp.spec_boot_buddy_allowed() && old(self).facts_have_zones() ==> r is Some && r == old(page_metadata_map).spec_page_ref_from_metadata_index(
                    old(self).buddy_free_page_sets.candidate_head(old(self).boot_zonelist_set, f, o),
                ),
            forall|f: int|
                #[trigger] old(self).alloc_takes_head(order, gfp, old(page_metadata_map), f) ==> r
                    is Some && r == old(page_metadata_map).spec_page_ref_from_metadata_index(
                    old(self).buddy_free_page_sets.candidate_head(
                        old(self).boot_zonelist_set,
                        f,
                        order as int,
                    ),
                ),
            r matches Some(page) ==> {
                &&& exists|f: int, o: int|
                    #[trigger] old(self).buddy_free_page_sets.is_first_candidate(
                        old(self).boot_zonelist_set,
                        order as int,
                        f,
                        o,
                    ) && Some(page) == old(page_metadata_map).spec_page_ref_from_metadata_index(
                        old(self).buddy_free_page_sets.candidate_head(
                            old(self).boot_zonelist_set,
                            f,
                            o,
                        ),
                    )
                &&& allocated_from(*old(self), *final(self), order)
                &&& final(self).facts_synced()
                &&& final(page_metadata_map).metadata@[page.metadata_index as int].spec_is_buddy_allocated()
                &&& final(page_metadata_map).metadata@[page.metadata_index as int].buddy_order == order
                &&& old(page_metadata_map).spec_page_ref_from_metadata_index(page.metadata_index)
                    == Some(page)
            },
    {
        if self.lifecycle.state() != State::Ready || !self.handoff_complete
            || !self.page_metadata_map_bound || !gfp.boot_buddy_allowed() {
            return None;
        }
        let page = match self.buddy_free_page_sets.alloc_pages(
            &self.boot_zonelist_set,
            order,
            page_metadata_map,
        ) {
            Some(p) => p,
            None => return None,
        };
        proof {
            assert forall|i: int| 0 <= i < self.zone_fact_count implies (
            #[trigger] self.buddy_free_page_sets.spec_zone_index(self.zone_facts@[i].kind))
                == old(self).buddy_free_page_sets.spec_zone_index(old(self).zone_facts@[i].kind) by {
                assert(self.buddy_free_page_sets.zone_kinds@ == old(self).buddy_free_page_sets.zone_kinds@);
            }
        }
        if !self.sync_zone_free_pages() {
            return None;
        }
        Some(page)
    }

    pub fn alloc_page(&mut self, gfp: GfpFlags, page_metadata_map: &mut PageMetadataMap) -> (r:
        Option<PageRef>)
        requires
            old(self).inv(),
            old(page_metadata_map).wf(),
        ensures
            final(self).inv(),
            final(page_metadata_map).wf(),
            !old(self).serving() || !gfp.spec_boot_buddy_allowed() ==> r is None && *final(self)
                == *old(self) && *final(page_metadata_map) == *old(page_metadata_map),
            !old(self).buddy_free_page_sets.has_free_block_for(old(self).boot_zonelist_set, 0)
                ==> r is None && *final(self) == *old(self) && *final(page_metadata_map) == *old(page_metadata_map),
            forall|f: int|
                #[trigger] old(self).alloc_takes_head(0, gfp, old(page_metadata_map), f) ==> r
                    is Some && r == old(page_metadata_map).spec_page_ref_from_metadata_index(
                    old(self).buddy_free_page_sets.candidate_head(old(self).boot_zonelist_set, f, 0),
                ),
            r matches Some(page) ==> {
                &&& allocated_from(*old(self), *final(self), 0)
                &&& final(page_metadata_map).metadata@[page.metadata_index as int].spec_is_buddy_allocated()
                &&& final(page_metadata_map).metadata@[page.metadata_index as int].buddy_order == 0
            },
    {
        self.alloc_pages(0, gfp, page_metadata_map)
    }

    /// The first zone fact whose range holds the block of `order` at a valid page.
    pub open spec fn spec_zone_fact_index_for_page(
        &self,
        page: PageRef,
        order: usize,
        map: &PageMetadataMap,
    ) -> Option<usize> {
        if order >= BUDDY_ORDER_COUNT || !map.spec_validate_page(page) {
            None
        } else if exists|i: int|
            0 <= i < self.zone_fact_count && block_fits_spec(
                page.pfn.value,
                order,
                map.page_size,
                self.zone_facts@[i].range,
            ) {
            Some(
                (choose|i: int|
                    0 <= i < self.zone_fact_count && block_fits_spec(
                        page.pfn.value,
                        order,
                        map.page_size,
                        self.zone_facts@[i].range,
                    ) && forall|j: int|
                        0 <= j < i ==> !block_fits_spec(
                            page.pfn.value,
                            order,
                            map.page_size,
                            self.zone_facts@[j].range,
                        )) as usize,
            )
        } else {
            None
        }
    }

    fn zone_fact_index_for_page(&self, page: PageRef, order: usize, page_metadata_map: &PageMetadataMap) -> (r:
        Option<usize>)
        requires
            self.inv(),
        ensures
            r == self.spec_zone_fact_index_for_page(page, order, page_metadata_map),
            r matches Some(i) ==> i < self.zone_fact_count,
    {
        if order >= BUDDY_ORDER_COUNT {
            return None;
        }
        match page_metadata_map.page_to_pfn(page) {
            Some(pfn) => if pfn != page.pfn() {
                return None;
            },
            None => return None,
        }
        let mut index: usize = 0;
        while index < self.zone_fact_count
            invariant
                self.inv(),
                order < BUDDY_ORDER_COUNT,
                page_metadata_map.spec_validate_page(page),
                index <= self.zone_fact_count,
                forall|j: int|
                    0 <= j < index ==> !block_fits_spec(
                        page.pfn.value,
                        order,
                        page_metadata_map.page_size,
                        self.zone_facts@[j].range,
                    ),
            decreases self.zone_fact_count - index,
        {
            if block_fits_in_range(
                page.pfn().value(),
                order,
                page_metadata_map.page_size(),
                self.zone_facts[index].range(),
            ) {
                proof {
                    let i = index as int;
                    let c = choose|i: int|
                        0 <= i < self.zone_fact_count && block_fits_spec(
                            page.pfn.value,
                            order,
                            page_metadata_map.page_size,
                            self.zone_facts@[i].range,
                        ) && forall|j: int|
                            0 <= j < i ==> !block_fits_spec(
                                page.pfn.value,
                                order,
                                page_metadata_map.page_size,
                                self.zone_facts@[j].range,
                            );
                    assert(0 <= i < self.zone_fact_count && block_fits_spec(
                        page.pfn.value,
                        order,
                        page_metadata_map.page_size,
                        self.zone_facts@[i].range,
                    ) && forall|j: int|
                        0 <= j < i ==> !block_fits_spec(
                            page.pfn.value,
                            order,
                            page_metadata_map.page_size,
                            self.zone_facts@[j].range,
                        ));
                    if c > i {
                        assert(!block_fits_spec(
                            page.pfn.value,
                            order,
                            page_metadata_map.page_size,
                            self.zone_facts@[i].range,
                        ));
                    }
                }
                return Some(index);
            }
            index += 1;
        }
        None
    }

    /// Returns the allocated block of `order` at `page` to the zone whose range holds it,
    /// merging it with free buddies, and brings the zone accounting up to date.
    pub fn free_pages(&mut self, page: PageRef, order: usize, page_metadata_map: &mut PageMetadataMap) -> (r:
        bool)
        requires
            old(self).inv(),
            old(page_metadata_map).wf(),
        ensures
            final(self).inv(),
            final(page_metadata_map).wf(),
            *final(page_metadata_map) == (PageMetadataMap {
                metadata: final(page_metadata_map).metadata,
                ..*old(page_metadata_map)
            }),
            !old(self).serving() || order >= BUDDY_ORDER_COUNT || old(self).spec_zone_fact_index_for_page(page, order, old(page_metadata_map)) is None ==> !r
                && *final(self) == *old(self) && *final(page_metadata_map) == *old(page_metadata_map),
            r ==> freed_into(*old(self), *final(self), order) && final(self).facts_synced(),
            !(old(page_metadata_map).spec_metadata_by_index(page.metadata_index) is Some && old(page_metadata_map).metadata@[page.metadata_index as int].spec_is_buddy_allocated() && old(page_metadata_map).metadata@[page.metadata_index as int].buddy_order == order) ==> !r && *final(self)
                == *old(self) && *final(page_metadata_map) == *old(page_metadata_map),
            r ==> !final(page_metadata_map).metadata@[page.metadata_index as int].spec_is_buddy_allocated(),
            r && old(page_metadata_map).spec_validate_page(page) ==> {
                let zi = old(self).spec_zone_fact_index_for_page(page, order, old(page_metadata_map))->0;
                freed_merged(
                    old(self).buddy_free_page_sets,
                    final(self).buddy_free_page_sets,
                    old(page_metadata_map),
                    final(page_metadata_map),
                    zi,
                    old(self).zone_facts@[zi as int].range,
                    old(page_metadata_map).page_size,
                    page,
                    order,
                )
            },
            old(self).serving() && order < BUDDY_ORDER_COUNT && old(self).facts_have_zones() && old(self).spec_zone_fact_index_for_page(page, order, old(page_metadata_map)) is Some && {
                let zi = old(self).spec_zone_fact_index_for_page(
                    page,
                    order,
                    old(page_metadata_map),
                )->0;
                old(self).buddy_free_page_sets.spec_free_owed(
                    zi,
                    old(self).zone_facts@[zi as int].range,
                    old(page_metadata_map).page_size,
                    page,
                    order,
                    old(page_metadata_map),
                )
            } ==> r,
            old(self).serving() && order < BUDDY_ORDER_COUNT && old(self).facts_have_zones() && old(self).spec_zone_fact_index_for_page(page, order, old(page_metadata_map)) is Some && {
                let zi = old(self).spec_zone_fact_index_for_page(
                    page,
                    order,
                    old(page_metadata_map),
                )->0;
                old(self).buddy_free_page_sets.spec_can_free_in_place(
                    zi,
                    old(self).zone_facts@[zi as int].range,
                    old(page_metadata_map).page_size,
                    page,
                    order,
                    old(page_metadata_map),
                )
            } ==> r,
    {
        if self.lifecycle.state() != State::Ready || !self.handoff_complete
            || !self.page_metadata_map_bound || order >= BUDDY_ORDER_COUNT {
            return false;
        }
        let zone_index = match self.zone_fact_index_for_page(page, order, page_metadata_map) {
            Some(i) => i,
            None => return false,
        };
        let zone_range = self.zone_facts[zone_index].range();
        let page_size = page_metadata_map.page_size();
        if zone_index >= self.buddy_free_page_sets.zone_count {
            return false;
        }
        if !self.buddy_free_page_sets.free_pages(
            zone_index,
            zone_range,
            page_size,
            page,
            order,
            page_metadata_map,
        ) {
            return false;
        }
        self.sync_zone_free_pages()
    }

    /// The conditions under which preset builds the zone fallback list.
    pub open spec fn preset_guard(
        &self,
        topology: &MemoryTopology,
        page_metadata_map: &PageMetadataMap,
        cpu_hotplug_state: State,
        per_cpu_storage_state: State,
    ) -> bool {
        &&& self.lifecycle@ == State::Base
        &&& topology.lifecycle@ == State::Ready
        &&& topology.boot_zone_set.lifecycle@ == State::Ready
        &&& page_metadata_map.lifecycle@ == State::Ready
        &&& page_metadata_map.metadata_count != 0
        &&& cpu_hotplug_state == State::Ready
        &&& per_cpu_storage_state == State::Ready
    }

    /// Builds the zone fallback list and binds the metadata map; a refusal of the fallback
    /// list is passed on as it came.
    pub fn preset(
        &mut self,
        topology: &MemoryTopology,
        page_metadata_map: &PageMetadataMap,
        cpu_hotplug_state: State,
        per_cpu_storage_state: State,
    ) -> (r: EventResult)
        requires
            old(self).inv(),
            topology.wf(),
        ensures
            final(self).inv(),
            !old(self).preset_guard(
                topology,
                page_metadata_map,
                cpu_hotplug_state,
                per_cpu_storage_state,
            ) ==> r == Err::<(), EventError>(
                condition_error(
                    LifecycleEvent::Preset,
                    old(self).lifecycle@,
                    State::Base,
                    State::Prepared,
                ),
            ) && *final(self) == *old(self),
            old(self).preset_guard(
                topology,
                page_metadata_map,
                cpu_hotplug_state,
                per_cpu_storage_state,
            ) && old(self).boot_zonelist_set.lifecycle@ == State::Base && topology.boot_memory_node.lifecycle@
                == State::Ready && topology.boot_zone_set.populated_count > 0 ==> {
                &&& r == Ok::<(), EventError>(())
                &&& final(self).lifecycle@ == State::Prepared
                &&& final(self).boot_zonelist_set.lifecycle@ == State::Ready
                &&& final(self).page_metadata_map_bound
                &&& final(self).cpuhp_step_registered
                &&& final(self).boot_pageset_checkpoint_ready
            },
            r is Err ==> final(self).lifecycle == old(self).lifecycle,
    {
        if self.lifecycle.state() != State::Base || topology.state() != State::Ready
            || topology.boot_zone_set().state() != State::Ready || page_metadata_map.state()
            != State::Ready || page_metadata_map.metadata_count() == 0 || cpu_hotplug_state
            != State::Ready || per_cpu_storage_state != State::Ready {
            return failed_condition(
                LifecycleEvent::Preset,
                self.lifecycle.state(),
                State::Base,
                State::Prepared,
            );
        }
        let zr = self.boot_zonelist_set.setup(topology);
        if zr.is_err() {
            return zr;
        }
        self.page_metadata_map_bound = true;
        self.cpuhp_step_registered = PAGE_ALLOC_CPUHP_STEP != 0;
        self.boot_pageset_checkpoint_ready = true;
        self.lifecycle.transition(LifecycleEvent::Preset, State::Base, State::Prepared)
    }

    /// The conditions on the allocator and its dependencies for setup.
    pub open spec fn setup_guard(
        &self,
        memblock_state: State,
        zones: &Zones,
        page_metadata_map: &PageMetadataMap,
        memory_debug_hardening_state: State,
        swiotlb_state: State,
    ) -> bool {
        &&& self.lifecycle@ == State::Prepared
        &&& memblock_state == State::Online
        &&& zones.state == State::Ready
        &&& page_metadata_map.lifecycle@ == State::Ready
        &&& self.boot_zonelist_set.lifecycle@ == State::Ready
        &&& memory_debug_hardening_state == State::Ready
        &&& swiotlb_state == State::Ready
    }

    /// Takes memory over from the boot block allocator: records the zones, builds the free
    /// lists from the unreserved usable memory, and closes the boot allocator.
    pub fn setup(
        &mut self,
        memblock: &mut MemBlock,
        zones: &Zones,
        page_metadata_map: &mut PageMetadataMap,
        config: &Config,
        memory_debug_hardening_state: State,
        swiotlb_state: State,
    ) -> (r: EventResult)
        requires
            old(self).inv(),
            old(memblock).wf(),
            old(page_metadata_map).wf(),
        ensures
            final(self).inv(),
            final(memblock).wf(),
            final(page_metadata_map).wf(),
            *final(page_metadata_map) == (PageMetadataMap {
                metadata: final(page_metadata_map).metadata,
                ..*old(page_metadata_map)
            }),
            !old(self).setup_guard(
                old(memblock).lifecycle@,
                zones,
                old(page_metadata_map),
                memory_debug_hardening_state,
                swiotlb_state,
            ) ==> r == Err::<(), EventError>(
                condition_error(
                    LifecycleEvent::Setup,
                    old(self).lifecycle@,
                    State::Prepared,
                    State::Ready,
                ),
            ) && *final(self) == *old(self) && *final(memblock) == *old(memblock)
                && *final(page_metadata_map) == *old(page_metadata_map),
            r is Ok ==> {
                &&& old(self).setup_guard(
                    old(memblock).lifecycle@,
                    zones,
                    old(page_metadata_map),
                    memory_debug_hardening_state,
                    swiotlb_state,
                )
                &&& zone_facts_spec(zones, config.page_size) matches Some((refs, total)) && {
                    &&& final(self).totalram_pages == total
                    &&& refs.len() == final(self).zone_fact_count
                    &&& forall|i: int|
                        0 <= i < refs.len() ==> (#[trigger] final(self).zone_facts@[i]).kind
                            == refs[i].kind && final(self).zone_facts@[i].range == refs[i].range
                            && final(self).zone_facts@[i].managed_pages == refs[i].managed_pages
                }
                &&& final(self).lifecycle@ == State::Ready
                &&& final(self).handoff_complete
                &&& final(self).totalram_pages != 0
                &&& final(self).zone_fact_count != 0
                &&& final(self).buddy_free_page_sets.ready
                &&& final(self).buddy_free_page_sets.total_free_pages != 0
                &&& final(self).facts_synced()
                &&& final(memblock).lifecycle@ == State::Offline
            },
            r is Err ==> final(self).lifecycle == old(self).lifecycle,
            old(self).setup_guard(
                old(memblock).lifecycle@,
                zones,
                old(page_metadata_map),
                memory_debug_hardening_state,
                swiotlb_state,
            ) && zone_facts_spec(zones, config.page_size) is Some && {
                let facts = zone_facts_spec(zones, config.page_size)->0;
                &&& facts.1 != 0
                &&& facts.0.len() == 1
                &&& BuddyFreePageSets::setup_single_owed(
                    old(memblock),
                    facts.0[0].range,
                    1,
                    old(page_metadata_map),
                    config.page_size,
                )
            } ==> r is Ok,
    {
        if self.lifecycle.state() != State::Prepared || memblock.state() != State::Online
            || zones.state != State::Ready || page_metadata_map.state() != State::Ready
            || self.boot_zonelist_set.state() != State::Ready || memory_debug_hardening_state
            != State::Ready || swiotlb_state != State::Ready {
            return self.failed_setup();
        }
        let zone_facts = match build_zone_facts(zones, config) {
            Some(f) => f,
            None => return self.failed_setup(),
        };
        self.zone_facts = zone_facts.facts;
        self.zone_fact_count = zone_facts.count;
        self.totalram_pages = zone_facts.total_pages;
        if !self.buddy_free_page_sets.setup(
            memblock,
            &self.zone_facts,
            self.zone_fact_count,
            page_metadata_map,
            config.page_size,
        ) {
            return self.failed_setup();
        }
        proof {
            if self.zone_fact_count == 1 {
                assert(self.buddy_free_page_sets.zone_kinds@[0] == Some(self.zone_facts@[0].kind));
                assert(self.buddy_free_page_sets.spec_zone_index(self.zone_facts@[0].kind) is Some);
            }
        }
        if !self.sync_zone_free_pages() {
            return self.failed_setup();
        }
        self.handoff_complete = self.totalram_pages != 0 && self.zone_fact_count != 0
            && self.buddy_free_page_sets.ready() && self.buddy_free_page_sets.total_free_pages()
            != 0;
        if !self.handoff_complete {
            return self.failed_setup();
        }
        let dr = memblock.disable();
        if dr.is_err() {
            return dr;
        }
        self.lifecycle.transition(LifecycleEvent::Setup, State::Prepared, State::Ready)
    }

    /// Opens the full allocation flags once memory has been handed over.
    pub fn open_full_gfp_mask(&mut self) -> (r: EventResult)
        ensures
            old(self).lifecycle@ != State::Ready || !old(self).handoff_complete ==> r == Err::<
                (),
                EventError,
            >(
                condition_error(
                    LifecycleEvent::Enable,
                    old(self).lifecycle@,
                    State::Ready,
                    State::Ready,
                ),
            ) && *final(self) == *old(self),
            old(self).lifecycle@ == State::Ready && old(self).handoff_complete ==> r == Ok::<
                (),
                EventError,
            >(()) && *final(self) == (PageAllocator { full_gfp_mask_open: true, ..*old(self) }),
    {
        if self.lifecycle.state() != State::Ready || !self.handoff_complete {
            return failed_condition(
                LifecycleEvent::Enable,
                self.lifecycle.state(),
                State::Ready,
                State::Ready,
            );
        }
        self.full_gfp_mask_open = true;
        Ok(())
    }

    /// The conditions for the late setup.
    pub open spec fn setup_late_guard(&self, workqueue: &Workqueue, cpu_group: &CpuGroup) -> bool {
        &&& self.lifecycle@ == State::Ready
        &&& self.handoff_complete
        &&& self.full_gfp_mask_open
        &&& workqueue.state == State::Ready
        &&& workqueue.topology_ready
        &&& cpu_group.state == State::Ready
        &&& cpu_group.smp_concurrency_open
    }

    /// Marks the late parts of the allocator ready once SMP is up.
    pub fn setup_late(&mut self, workqueue: &Workqueue, cpu_group: &CpuGroup) -> (r: EventResult)
        ensures
            !old(self).setup_late_guard(workqueue, cpu_group) ==> r == Err::<(), EventError>(
                condition_error(
                    LifecycleEvent::Setup,
                    old(self).lifecycle@,
                    State::Ready,
                    State::Ready,
                ),
            ) && *final(self) == *old(self),
            old(self).setup_late_guard(workqueue, cpu_group) ==> r == Ok::<(), EventError>(())
                && *final(self) == (PageAllocator {
                late_ready: true,
                memory_stats_ready: true,
                buffer_init_ready: true,
                memblock_private_discarded: true,
                zone_contiguous_ready: true,
                sysctl_ready: true,
                deferred_struct_page_init_trimmed: true,
                page_extension_late_trimmed: true,
                shuffle_late_trimmed: true,
                ..*old(self)
            }),
    {
        if self.lifecycle.state() != State::Ready || !self.handoff_complete
            || !self.full_gfp_mask_open || workqueue.state != State::Ready
            || !workqueue.topology_ready || cpu_group.state != State::Ready
            || !cpu_group.smp_concurrency_open {
            return failed_condition(
                LifecycleEvent::Setup,
                self.lifecycle.state(),
                State::Ready,
                State::Ready,
            );
        }
        self.late_ready = true;
        self.memory_stats_ready = true;
        self.buffer_init_ready = true;
        self.memblock_private_discarded = true;
        self.zone_contiguous_ready = true;
        self.sysctl_ready = true;
        self.deferred_struct_page_init_trimmed = true;
        self.page_extension_late_trimmed = true;
        self.shuffle_late_trimmed = true;
        Ok(())
    }

    fn failed_setup(&self) -> (r: EventResult)
        ensures
            r == Err::<(), EventError>(
                condition_error(
                    LifecycleEvent::Setup,
                    self.lifecycle@,
                    State::Prepared,
                    State::Ready,
                ),
            ),
    {
        failed_condition(
            LifecycleEvent::Setup,
            self.lifecycle.state(),
            State::Prepared,
            State::Ready,
        )
    }
}

} // verus!
