//! The boot memory topology: the single memory node, the populated zones and the zone
//! fallback list, together with the page arithmetic they are built from.
use vstd::prelude::*;
use crate::arith::{is_pow2, is_power_of_two, lemma_align_masks};
use crate::boot_facts::{Config, Zone, ZoneKind, Zones};
use crate::raw_dtb::PhysRange;
use crate::state::{
    condition_error, failed_condition, transition_result, transition_state, EventError,
    EventResult, Lifecycle, LifecycleEvent, State,
};

verus! {

pub const MAX_BOOT_ZONES: usize = 3;

/// `bytes` as a page count, where the page size is a power of two and divides `bytes`.
pub open spec fn bytes_to_pages_spec(bytes: usize, page_size: usize) -> Option<usize> {
    if !is_pow2(page_size) || bytes % page_size != 0 {
        None
    } else {
        Some((bytes / page_size) as usize)
    }
}

/// A byte count converts to pages exactly when the page size is a power of two that
/// divides it, and then the pages times the page size give the bytes back.
pub proof fn lemma_bytes_to_pages_exact(bytes: usize, page_size: usize)
    ensures
        (bytes_to_pages_spec(bytes, page_size) is Some) == (is_pow2(page_size) && bytes
            % page_size == 0),
        bytes_to_pages_spec(bytes, page_size) matches Some(n) ==> n * page_size == bytes,
{
    if is_pow2(page_size) && bytes % page_size == 0 {
        lemma_align_masks(0, page_size);
        vstd::arithmetic::div_mod::lemma_fundamental_div_mod(bytes as int, page_size as int);
        let n = bytes / page_size;
        assert(n * page_size == bytes) by (nonlinear_arith)
            requires
                bytes == page_size * (bytes as int / page_size as int) + bytes % page_size,
                bytes % page_size == 0,
                n == bytes as int / page_size as int,
        ;
    }
}

pub fn bytes_to_pages(bytes: usize, page_size: usize) -> (r: Option<usize>)
    ensures
        r == bytes_to_pages_spec(bytes, page_size),
{
    proof {
        if is_pow2(page_size) {
            lemma_align_masks(0, page_size);
        }
    }
    if page_size == 0 || !is_power_of_two(page_size) || bytes % page_size != 0 {
        return None;
    }
    Some(bytes / page_size)
}

/// The page frame number of `phys`, where the page size is a power of two and divides it.
pub open spec fn phys_to_pfn_spec(phys: usize, page_size: usize) -> Option<usize> {
    bytes_to_pages_spec(phys, page_size)
}

pub fn phys_to_pfn_value(phys: usize, page_size: usize) -> (r: Option<usize>)
    ensures
        r == phys_to_pfn_spec(phys, page_size),
{
    bytes_to_pages(phys, page_size)
}

/// The sum of the present pages of the three zones; `None` where a zone is missing, a size
/// is not a whole number of pages, or the sum overflows.
pub open spec fn zone_present_pages_spec(zones: &Zones, page_size: usize) -> Option<usize> {
    match (zones.dma32, zones.normal, zones.movable) {
        (Some(a), Some(b), Some(c)) => match (
            bytes_to_pages_spec(a.present_bytes, page_size),
            bytes_to_pages_spec(b.present_bytes, page_size),
            bytes_to_pages_spec(c.present_bytes, page_size),
        ) {
            (Some(pa), Some(pb), Some(pc)) => if pa + pb + pc <= usize::MAX {
                Some((pa + pb + pc) as usize)
            } else {
                None
            },
            _ => None,
        },
        _ => None,
    }
}

pub fn zone_present_pages(zones: &Zones, page_size: usize) -> (r: Option<usize>)
    ensures
        r == zone_present_pages_spec(zones, page_size),
{
    let a = match zones.zone(ZoneKind::Dma32) {
        Some(z) => z,
        None => return None,
    };
    let pa = match bytes_to_pages(a.present_bytes(), page_size) {
        Some(p) => p,
        None => return None,
    };
    let b = match zones.zone(ZoneKind::Normal) {
        Some(z) => z,
        None => return None,
    };
    let pb = match bytes_to_pages(b.present_bytes(), page_size) {
        Some(p) => p,
        None => return None,
    };
    let total = match pa.checked_add(pb) {
        Some(t) => t,
        None => return None,
    };
    let c = match zones.zone(ZoneKind::Movable) {
        Some(z) => z,
        None => return None,
    };
    let pc = match bytes_to_pages(c.present_bytes(), page_size) {
        Some(p) => p,
        None => return None,
    };
    total.checked_add(pc)
}

/// The lowest start and the highest end over the non-empty zones; `None` where a zone is
/// missing, a non-empty zone's range is empty or reversed, or every zone is empty.
pub open spec fn zone_bounds_step(
    acc: Option<(usize, usize, bool)>,
    zone: Option<Zone>,
) -> Option<(usize, usize, bool)> {
    match (acc, zone) {
        (Some((start, end, found)), Some(z)) => if z.present_bytes == 0 {
            Some((start, end, found))
        } else if z.range.start >= z.range.end {
            None
        } else {
            Some(
                (
                    if z.range.start < start {
                        z.range.start
                    } else {
                        start
                    },
                    if z.range.end > end {
                        z.range.end
                    } else {
                        end
                    },
                    true,
                ),
            )
        },
        _ => None,
    }
}

/// Zone `z` is populated and its bytes lie in `[start, end)`.
pub open spec fn zone_within(z: Option<Zone>, start: usize, end: usize) -> bool {
    match z {
        Some(zone) => zone.present_bytes != 0 ==> start <= zone.range.start && zone.range.end
            <= end,
        None => true,
    }
}

/// Zone `z` is populated and starts at `start`, or ends at `end`.
pub open spec fn zone_touches(z: Option<Zone>, start: usize, end: usize) -> (bool, bool) {
    match z {
        Some(zone) => if zone.present_bytes != 0 {
            (zone.range.start == start, zone.range.end == end)
        } else {
            (false, false)
        },
        None => (false, false),
    }
}

/// The physical bounds of the zones are the smallest range that holds every populated zone:
/// each populated zone lies inside them, one starts at the lower bound and one ends at the
/// upper bound.
pub proof fn lemma_zone_bounds_hull(zones: &Zones)
    ensures
        zone_phys_bounds_spec(zones) matches Some((start, end)) ==> {
            &&& zone_within(zones.dma32, start, end)
            &&& zone_within(zones.normal, start, end)
            &&& zone_within(zones.movable, start, end)
            &&& zone_touches(zones.dma32, start, end).0 || zone_touches(zones.normal, start, end).0
                || zone_touches(zones.movable, start, end).0
            &&& zone_touches(zones.dma32, start, end).1 || zone_touches(zones.normal, start, end).1
                || zone_touches(zones.movable, start, end).1
        },
{
}

pub open spec fn zone_phys_bounds_spec(zones: &Zones) -> Option<(usize, usize)> {
    let acc = zone_bounds_step(
        zone_bounds_step(
            zone_bounds_step(Some((usize::MAX, 0usize, false)), zones.dma32),
            zones.normal,
        ),
        zones.movable,
    );
    match acc {
        Some((start, end, true)) => Some((start, end)),
        _ => None,
    }
}

fn zone_bounds_update(acc: (usize, usize, bool), zone: Option<Zone>) -> (r: Option<
    (usize, usize, bool),
>)
    ensures
        r == zone_bounds_step(Some(acc), zone),
{
    let z = match zone {
        Some(z) => z,
        None => return None,
    };
    if z.is_empty() {
        return Some(acc);
    }
    let range = z.range();
    if range.start() >= range.end() {
        return None;
    }
    let start = if range.start() < acc.0 {
        range.start()
    } else {
        acc.0
    };
    let end = if range.end() > acc.1 {
        range.end()
    } else {
        acc.1
    };
    Some((start, end, true))
}

pub fn zone_phys_bounds(zones: &Zones) -> (r: Option<(usize, usize)>)
    ensures
        r == zone_phys_bounds_spec(zones),
{
    let acc = match zone_bounds_update((usize::MAX, 0, false), zones.zone(ZoneKind::Dma32)) {
        Some(a) => a,
        None => return None,
    };
    let acc = match zone_bounds_update(acc, zones.zone(ZoneKind::Normal)) {
        Some(a) => a,
        None => return None,
    };
    let acc = match zone_bounds_update(acc, zones.zone(ZoneKind::Movable)) {
        Some(a) => a,
        None => return None,
    };
    if acc.2 {
        Some((acc.0, acc.1))
    } else {
        None
    }
}

/// A populated zone as the allocator accounts for it.
#[derive(Clone, Copy, PartialEq, Eq, Structural, Debug)]
pub struct ZoneRef {
    pub kind: ZoneKind,
    pub range: PhysRange,
    pub managed_pages: usize,
    pub free_pages: usize,
}

impl ZoneRef {
    pub open spec fn spec_empty() -> ZoneRef {
        ZoneRef {
            kind: ZoneKind::Dma32,
            range: PhysRange { start: 0, end: 0 },
            managed_pages: 0,
            free_pages: 0,
        }
    }

    pub fn empty() -> (r: Self)
        ensures
            r == Self::spec_empty(),
    {
        Self { kind: ZoneKind::Dma32, range: PhysRange::empty(), managed_pages: 0, free_pages: 0 }
    }

    pub fn kind(&self) -> (r: ZoneKind)
        ensures
            r == self.kind,
    {
        self.kind
    }

    pub fn range(&self) -> (r: PhysRange)
        ensures
            r == self.range,
    {
        self.range
    }

    pub fn managed_pages(&self) -> (r: usize)
        ensures
            r == self.managed_pages,
    {
        self.managed_pages
    }

    pub fn free_pages(&self) -> (r: usize)
        ensures
            r == self.free_pages,
    {
        self.free_pages
    }
}

/// One step of building the zone list: a missing zone fails, an empty one is skipped, a
/// populated one is appended with all its pages managed and free.
pub open spec fn zone_refs_step(
    acc: Option<Seq<ZoneRef>>,
    zone: Option<Zone>,
    kind: ZoneKind,
    page_size: usize,
) -> Option<Seq<ZoneRef>> {
    match (acc, zone) {
        (Some(prev), Some(z)) => if z.present_bytes == 0 {
            Some(prev)
        } else {
            match bytes_to_pages_spec(z.present_bytes, page_size) {
                Some(pages) => Some(
                    prev.push(
                        ZoneRef { kind, range: z.range, managed_pages: pages, free_pages: pages },
                    ),
                ),
                None => None,
            }
        },
        _ => None,
    }
}

/// The populated zones in the order DMA32, Normal, Movable.
pub open spec fn zone_refs_spec(zones: &Zones, page_size: usize) -> Option<Seq<ZoneRef>> {
    zone_refs_step(
        zone_refs_step(
            zone_refs_step(Some(Seq::empty()), zones.dma32, ZoneKind::Dma32, page_size),
            zones.normal,
            ZoneKind::Normal,
            page_size,
        ),
        zones.movable,
        ZoneKind::Movable,
        page_size,
    )
}

pub struct BootMemoryNode {
    pub lifecycle: Lifecycle,
    pub node_id: usize,
    pub present_pages: usize,
}

impl BootMemoryNode {
    pub fn new() -> (s: Self)
        ensures
            s.lifecycle@ == State::Base,
            s.node_id == 0,
            s.present_pages == 0,
    {
        Self { lifecycle: Lifecycle::new(State::Base), node_id: 0, present_pages: 0 }
    }

    pub fn state(&self) -> (r: State)
        ensures
            r == self.lifecycle@,
    {
        self.lifecycle.state()
    }

    pub fn node_id(&self) -> (r: usize)
        ensures
            r == self.node_id,
    {
        self.node_id
    }

    pub fn present_pages(&self) -> (r: usize)
        ensures
            r == self.present_pages,
    {
        self.present_pages
    }

    /// What `setup` returns and leaves: node 0 with the present pages of every zone counted
    /// in 4 KiB pages.
    pub open spec fn setup_model(self, zones: &Zones) -> (EventResult, BootMemoryNode) {
        if self.lifecycle@ != State::Base || zones.state != State::Ready {
            (Err(condition_error(LifecycleEvent::Setup, self.lifecycle@, State::Base, State::Ready)),
            self)
        } else {
            match zone_present_pages_spec(zones, 4096) {
                None => (
                    Err(
                        condition_error(
                            LifecycleEvent::Setup,
                            self.lifecycle@,
                            State::Base,
                            State::Ready,
                        ),
                    ),
                    BootMemoryNode { node_id: 0, ..self },
                ),
                Some(pages) => (
                    Ok(()),
                    BootMemoryNode {
                        node_id: 0,
                        present_pages: pages,
                        lifecycle: Lifecycle::spec_with_state(State::Ready),
                    },
                ),
            }
        }
    }

    pub fn setup(&mut self, zones: &Zones) -> (r: EventResult)
        ensures
            (r, *final(self)) == old(self).setup_model(zones),
    {
        if self.lifecycle.state() != State::Base || zones.state != State::Ready {
            return failed_condition(
                LifecycleEvent::Setup,
                self.lifecycle.state(),
                State::Base,
                State::Ready,
            );
        }
        self.node_id = 0;
        let present_pages = match zone_present_pages(zones, 4096) {
            Some(p) => p,
            None => {
                return failed_condition(
                    LifecycleEvent::Setup,
                    self.lifecycle.state(),
                    State::Base,
                    State::Ready,
                );
            },
        };
        self.present_pages = present_pages;
        let r = self.lifecycle.transition(LifecycleEvent::Setup, State::Base, State::Ready);
        proof {
            Lifecycle::lemma_with_state(self.lifecycle);
        }
        r
    }
}

pub struct BootZoneSet {
    pub lifecycle: Lifecycle,
    pub zones: [ZoneRef; 3],
    pub populated_count: usize,
}

impl BootZoneSet {
    /// The populated zones, in order.
    pub open spec fn populated(&self) -> Seq<ZoneRef> {
        self.zones@.subrange(0, self.populated_count as int)
    }

    pub open spec fn wf(&self) -> bool {
        self.populated_count <= MAX_BOOT_ZONES
    }

    pub fn new() -> (s: Self)
        ensures
            s.wf(),
            s.lifecycle@ == State::Base,
            s.populated_count == 0,
            s.zones@ == Seq::new(3, |i: int| ZoneRef::spec_empty()),
    {
        let s = Self {
            lifecycle: Lifecycle::new(State::Base),
            zones: [ZoneRef::empty(), ZoneRef::empty(), ZoneRef::empty()],
            populated_count: 0,
        };
        assert(s.zones@ =~= Seq::new(3, |i: int| ZoneRef::spec_empty()));
        s
    }

    pub fn state(&self) -> (r: State)
        ensures
            r == self.lifecycle@,
    {
        self.lifecycle.state()
    }

    pub fn populated_count(&self) -> (r: usize)
        ensures
            r == self.populated_count,
    {
        self.populated_count
    }

    pub fn populated_zone(&self, index: usize) -> (r: Option<ZoneRef>)
        requires
            self.wf(),
        ensures
            index < self.populated_count ==> r == Some(self.zones@[index as int]),
            index >= self.populated_count ==> r is None,
    {
        if index < self.populated_count {
            Some(self.zones[index])
        } else {
            None
        }
    }

    fn push_zone(&mut self, zone: Option<Zone>, kind: ZoneKind, page_size: usize) -> (ok: bool)
        requires
            old(self).wf(),
            old(self).populated_count < MAX_BOOT_ZONES,
        ensures
            final(self).wf(),
            final(self).lifecycle == old(self).lifecycle,
            final(self).populated_count <= old(self).populated_count + 1,
            ok ==> Some(final(self).populated()) == zone_refs_step(
                Some(old(self).populated()),
                zone,
                kind,
                page_size,
            ),
            !ok ==> zone_refs_step(Some(old(self).populated()), zone, kind, page_size) is None,
    {
        let z = match zone {
            Some(z) => z,
            None => return false,
        };
        if z.is_empty() {
            return true;
        }
        let pages = match bytes_to_pages(z.present_bytes(), page_size) {
            Some(p) => p,
            None => return false,
        };
        let ghost before = self.populated();
        self.zones[self.populated_count] = ZoneRef {
            kind,
            range: z.range(),
            managed_pages: pages,
            free_pages: pages,
        };
        self.populated_count += 1;
        assert(self.populated() =~= before.push(
            ZoneRef { kind, range: z.range, managed_pages: pages, free_pages: pages },
        ));
        true
    }

    /// What `setup` returns and leaves: the populated zones recorded in order, which must not
    /// be none.
    pub open spec fn setup_ok(&self, zones: &Zones, config: &Config) -> bool {
        &&& self.lifecycle@ == State::Base
        &&& zones.state == State::Ready
        &&& config.page_size != 0
        &&& zone_refs_spec(zones, config.page_size) is Some
        &&& zone_refs_spec(zones, config.page_size)->0.len() > 0
    }

    pub fn setup(&mut self, zones: &Zones, config: &Config) -> (r: EventResult)
        requires
            old(self).wf(),
        ensures
            final(self).wf(),
            !old(self).setup_ok(zones, config) ==> r == Err::<(), EventError>(
                condition_error(
                    LifecycleEvent::Setup,
                    old(self).lifecycle@,
                    State::Base,
                    State::Ready,
                ),
            ) && final(self).lifecycle == old(self).lifecycle,
            old(self).setup_ok(zones, config) ==> {
                &&& r == Ok::<(), EventError>(())
                &&& final(self).lifecycle@ == State::Ready
                &&& final(self).populated() == zone_refs_spec(zones, config.page_size)->0
            },
    {
        if self.lifecycle.state() != State::Base || zones.state != State::Ready
            || config.page_size == 0 {
            return self.failed_setup();
        }
        self.zones = [ZoneRef::empty(), ZoneRef::empty(), ZoneRef::empty()];
        self.populated_count = 0;
        assert(self.populated() =~= Seq::<ZoneRef>::empty());
        if !self.push_zone(zones.zone(ZoneKind::Dma32), ZoneKind::Dma32, config.page_size) {
            return self.failed_setup();
        }
        if !self.push_zone(zones.zone(ZoneKind::Normal), ZoneKind::Normal, config.page_size) {
            return self.failed_setup();
        }
        if !self.push_zone(zones.zone(ZoneKind::Movable), ZoneKind::Movable, config.page_size) {
            return self.failed_setup();
        }
        if self.populated_count == 0 {
            return self.failed_setup();
        }
        self.lifecycle.transition(LifecycleEvent::Setup, State::Base, State::Ready)
    }

    fn failed_setup(&self) -> (r: EventResult)
        ensures
            r == Err::<(), EventError>(
                condition_error(LifecycleEvent::Setup, self.lifecycle@, State::Base, State::Ready),
            ),
    {
        failed_condition(LifecycleEvent::Setup, self.lifecycle.state(), State::Base, State::Ready)
    }
}

pub struct MemoryTopology {
    pub lifecycle: Lifecycle,
    pub boot_memory_node: BootMemoryNode,
    pub boot_zone_set: BootZoneSet,
    pub node_count: usize,
}

impl MemoryTopology {
    pub open spec fn wf(&self) -> bool {
        self.boot_zone_set.wf()
    }

    pub fn new() -> (s: Self)
        ensures
            s.wf(),
            s.lifecycle@ == State::Base,
            s.boot_memory_node.lifecycle@ == State::Base,
            s.boot_zone_set.lifecycle@ == State::Base,
            s.boot_zone_set.populated_count == 0,
            s.node_count == 0,
    {
        Self {
            lifecycle: Lifecycle::new(State::Base),
            boot_memory_node: BootMemoryNode::new(),
            boot_zone_set: BootZoneSet::new(),
            node_count: 0,
        }
    }

    pub fn state(&self) -> (r: State)
        ensures
            r == self.lifecycle@,
    {
        self.lifecycle.state()
    }

    pub fn node_count(&self) -> (r: usize)
        ensures
            r == self.node_count,
    {
        self.node_count
    }

    pub fn boot_memory_node(&self) -> (r: &BootMemoryNode)
        ensures
            *r == self.boot_memory_node,
    {
        &self.boot_memory_node
    }

    pub fn boot_zone_set(&self) -> (r: &BootZoneSet)
        ensures
            *r == self.boot_zone_set,
    {
        &self.boot_zone_set
    }

    /// The conditions on the topology itself and its dependencies.
    pub open spec fn setup_guard(
        &self,
        zones: &Zones,
        cpu_group_state: State,
        config: &Config,
    ) -> bool {
        &&& self.lifecycle@ == State::Base
        &&& zones.state == State::Ready
        &&& cpu_group_state == State::Ready
        &&& config.state == State::Online
    }

    /// Sets up the memory node and the zones; the topology is ready when both are and at
    /// least one zone is populated. A refusal by the node or the zone set is passed on as it
    /// came.
    pub fn setup(&mut self, zones: &Zones, cpu_group_state: State, config: &Config) -> (r:
        EventResult)
        requires
            old(self).wf(),
        ensures
            final(self).wf(),
            !old(self).setup_guard(zones, cpu_group_state, config) ==> r == Err::<
                (),
                EventError,
            >(
                condition_error(
                    LifecycleEvent::Setup,
                    old(self).lifecycle@,
                    State::Base,
                    State::Ready,
                ),
            ) && *final(self) == *old(self),
            old(self).setup_guard(zones, cpu_group_state, config) ==> {
                let (node_r, node) = old(self).boot_memory_node.setup_model(zones);
                if node_r is Err {
                    &&& r == node_r
                    &&& final(self).boot_memory_node == node
                    &&& final(self).lifecycle == old(self).lifecycle
                } else if !old(self).boot_zone_set.setup_ok(zones, config) {
                    &&& r == Err::<(), EventError>(
                        condition_error(
                            LifecycleEvent::Setup,
                            old(self).boot_zone_set.lifecycle@,
                            State::Base,
                            State::Ready,
                        ),
                    )
                    &&& final(self).boot_memory_node == node
                    &&& final(self).lifecycle == old(self).lifecycle
                } else {
                    &&& r == Ok::<(), EventError>(())
                    &&& final(self).lifecycle@ == State::Ready
                    &&& final(self).node_count == 1
                    &&& final(self).boot_memory_node == node
                    &&& final(self).boot_zone_set.lifecycle@ == State::Ready
                    &&& final(self).boot_zone_set.populated() == zone_refs_spec(
                        zones,
                        config.page_size,
                    )->0
                }
            },
    {
        if self.lifecycle.state() != State::Base || zones.state != State::Ready
            || cpu_group_state != State::Ready || config.state != State::Online {
            return self.failed_setup();
        }
        let node_r = self.boot_memory_node.setup(zones);
        if node_r.is_err() {
            return node_r;
        }
        let zone_r = self.boot_zone_set.setup(zones, config);
        if zone_r.is_err() {
            return zone_r;
        }
        self.node_count = 1;
        proof {
            Lifecycle::lemma_view_with_state(State::Ready);
        }
        if self.boot_memory_node.state() != State::Ready || self.boot_zone_set.state()
            != State::Ready || self.boot_zone_set.populated_count() == 0 {
            return self.failed_setup();
        }
        self.lifecycle.transition(LifecycleEvent::Setup, State::Base, State::Ready)
    }

    fn failed_setup(&self) -> (r: EventResult)
        ensures
            r == Err::<(), EventError>(
                condition_error(LifecycleEvent::Setup, self.lifecycle@, State::Base, State::Ready),
            ),
    {
        failed_condition(LifecycleEvent::Setup, self.lifecycle.state(), State::Base, State::Ready)
    }
}

pub struct BootZonelistSet {
    pub lifecycle: Lifecycle,
    pub fallback: [Option<ZoneKind>; 4],
    pub fallback_count: usize,
    pub null_sentinel_ready: bool,
}

impl BootZonelistSet {
    pub open spec fn wf(&self) -> bool {
        self.fallback_count <= MAX_BOOT_ZONES
    }

    /// The fallback order: the populated zone kinds from the last populated zone back to the
    /// first.
    pub open spec fn fallback_order(&self) -> Seq<Option<ZoneKind>> {
        self.fallback@.subrange(0, self.fallback_count as int)
    }

    pub fn new() -> (s: Self)
        ensures
            s.wf(),
            s.lifecycle@ == State::Base,
            s.fallback@ == Seq::new(4, |i: int| None::<ZoneKind>),
            s.fallback_count == 0,
            !s.null_sentinel_ready,
    {
        let s = Self {
            lifecycle: Lifecycle::new(State::Base),
            fallback: [None, None, None, None],
            fallback_count: 0,
            null_sentinel_ready: false,
        };
        assert(s.fallback@ =~= Seq::new(4, |i: int| None::<ZoneKind>));
        s
    }

    pub fn state(&self) -> (r: State)
        ensures
            r == self.lifecycle@,
    {
        self.lifecycle.state()
    }

    pub fn fallback_count(&self) -> (r: usize)
        ensures
            r == self.fallback_count,
    {
        self.fallback_count
    }

    pub fn null_sentinel_ready(&self) -> (r: bool)
        ensures
            r == self.null_sentinel_ready,
    {
        self.null_sentinel_ready
    }

    pub fn fallback_zone_kind(&self, index: usize) -> (r: Option<ZoneKind>)
        requires
            self.wf(),
        ensures
            index < self.fallback_count ==> r == self.fallback@[index as int],
            index >= self.fallback_count ==> r is None,
    {
        if index < self.fallback_count {
            self.fallback[index]
        } else {
            None
        }
    }

    /// Builds the zone fallback list from the populated zones, the highest zone first, and
    /// ends it with the null sentinel.
    pub fn setup(&mut self, topology: &MemoryTopology) -> (r: EventResult)
        requires
            old(self).wf(),
            topology.wf(),
        ensures
            final(self).wf(),
            old(self).lifecycle@ != State::Base || topology.boot_memory_node.lifecycle@
                != State::Ready || topology.boot_zone_set.lifecycle@ != State::Ready
                ==> r == Err::<(), EventError>(
                condition_error(
                    LifecycleEvent::Setup,
                    old(self).lifecycle@,
                    State::Base,
                    State::Ready,
                ),
            ) && *final(self) == *old(self),
            old(self).lifecycle@ == State::Base && topology.boot_memory_node.lifecycle@
                == State::Ready && topology.boot_zone_set.lifecycle@ == State::Ready ==> {
                let zs = topology.boot_zone_set.populated();
                &&& final(self).fallback_count == zs.len()
                &&& forall|i: int|
                    0 <= i < zs.len() ==> #[trigger] final(self).fallback@[i] == Some(
                        zs[zs.len() - 1 - i].kind,
                    )
                &&& final(self).fallback@[zs.len() as int] is None
                &&& final(self).null_sentinel_ready
                &&& zs.len() == 0 ==> r == Err::<(), EventError>(
                    condition_error(
                        LifecycleEvent::Setup,
                        State::Base,
                        State::Base,
                        State::Ready,
                    ),
                ) && final(self).lifecycle == old(self).lifecycle
                &&& zs.len() > 0 ==> r == Ok::<(), EventError>(()) && final(self).lifecycle@
                    == State::Ready
            },
    {
        if self.lifecycle.state() != State::Base || topology.boot_memory_node().state()
            != State::Ready || topology.boot_zone_set().state() != State::Ready {
            return self.failed_setup();
        }
        self.fallback = [None, None, None, None];
        self.fallback_count = 0;
        let zone_set = topology.boot_zone_set();
        let ghost zs = zone_set.populated();
        let mut index = zone_set.populated_count();
        while index != 0
            invariant
                self.wf(),
                self.lifecycle == old(self).lifecycle,
                zone_set.wf(),
                zs == zone_set.populated(),
                index <= zone_set.populated_count,
                self.fallback_count == zone_set.populated_count - index,
                forall|i: int|
                    0 <= i < self.fallback_count ==> #[trigger] self.fallback@[i] == Some(
                        zs[zs.len() - 1 - i].kind,
                    ),
                forall|i: int| self.fallback_count <= i < 4 ==> #[trigger] self.fallback@[i] is None,
            decreases index,
        {
            index -= 1;
            let zone = match zone_set.populated_zone(index) {
                Some(z) => z,
                None => return self.failed_setup(),
            };
            self.fallback[self.fallback_count] = Some(zone.kind());
            self.fallback_count += 1;
        }
        self.fallback[self.fallback_count] = None;
        self.null_sentinel_ready = true;
        if self.fallback_count == 0 {
            return self.failed_setup();
        }
        self.lifecycle.transition(LifecycleEvent::Setup, State::Base, State::Ready)
    }

    fn failed_setup(&self) -> (r: EventResult)
        ensures
            r == Err::<(), EventError>(
                condition_error(LifecycleEvent::Setup, self.lifecycle@, State::Base, State::Ready),
            ),
    {
        failed_condition(LifecycleEvent::Setup, self.lifecycle.state(), State::Base, State::Ready)
    }
}

} // verus!
