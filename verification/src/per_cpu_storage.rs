//! Per-CPU storage: the static per-CPU image, the first chunk with one unit per possible CPU,
//! and the table of offsets from the image to each unit.
use vstd::prelude::*;
use crate::boot_facts::{Config, CpuGroup, CpuIdMap, PerCpuSections, Vm};
use crate::arith::lemma_round_up_bounds;
use crate::buddy::{round_up_value, round_up_value_spec};
use crate::memblock::MemBlock;
use crate::raw_dtb::PhysRange;
use crate::state::{
    condition_error, failed_condition, transition_result, transition_state, EventError,
    EventResult, Lifecycle, LifecycleEvent, State,
};

verus! {

pub const MAX_PER_CPU_UNITS: usize = 16;

pub const DYNAMIC_RESERVE_SIZE: usize = 4096;

pub const RESERVED_SIZE: usize = 0;

/// A per-CPU variable: the address of its template in the static image and its size.
#[derive(Clone, Copy, PartialEq, Eq, Structural, Debug)]
pub struct PerCpuSymbol {
    pub template: usize,
    pub size: usize,
}

impl PerCpuSymbol {
    pub fn new(template: usize, size: usize) -> (r: Self)
        ensures
            r == (PerCpuSymbol { template, size }),
    {
        Self { template, size }
    }

    pub fn template_addr(&self) -> (r: usize)
        ensures
            r == self.template,
    {
        self.template
    }
}

pub struct PerCpuStaticImage {
    pub lifecycle: Lifecycle,
    pub start: usize,
    pub end: usize,
    pub load: usize,
    pub size: usize,
}

impl PerCpuStaticImage {
    pub fn new() -> (s: Self)
        ensures
            s.lifecycle@ == State::Base,
            s.start == 0 && s.end == 0 && s.load == 0 && s.size == 0,
    {
        Self { lifecycle: Lifecycle::new(State::Base), start: 0, end: 0, load: 0, size: 0 }
    }

    pub fn state(&self) -> (r: State)
        ensures
            r == self.lifecycle@,
    {
        self.lifecycle.state()
    }

    pub fn start(&self) -> (r: usize)
        ensures
            r == self.start,
    {
        self.start
    }

    pub fn end(&self) -> (r: usize)
        ensures
            r == self.end,
    {
        self.end
    }

    pub fn load(&self) -> (r: usize)
        ensures
            r == self.load,
    {
        self.load
    }

    pub fn size(&self) -> (r: usize)
        ensures
            r == self.size,
    {
        self.size
    }

    /// `[addr, addr + size)` lies in the image; a zero-sized object may sit at its end.
    pub open spec fn spec_contains(&self, addr: usize, size: usize) -> bool {
        if size == 0 {
            addr >= self.start && addr <= self.end
        } else {
            addr + size <= usize::MAX && addr >= self.start && addr + size <= self.end
        }
    }

    pub fn contains(&self, addr: usize, size: usize) -> (r: bool)
        ensures
            r == self.spec_contains(addr, size),
    {
        if size == 0 {
            return addr >= self.start && addr <= self.end;
        }
        let end = match addr.checked_add(size) {
            Some(e) => e,
            None => return false,
        };
        addr >= self.start && end <= self.end
    }

    /// Records the static per-CPU image, which must be non-empty and hold the anchor variable
    /// at `anchor`.
    pub fn setup(
        &mut self,
        lds_state: State,
        sections: PerCpuSections,
        static_objects_state: State,
        anchor: usize,
    ) -> (r: EventResult)
        requires
            sections.start <= sections.end,
        ensures
            old(self).lifecycle@ != State::Base || lds_state != State::Online
                || static_objects_state != State::Online || !sections.layout_ready || anchor
                < sections.start || anchor >= sections.end ==> r == Err::<(), EventError>(
                condition_error(
                    LifecycleEvent::Setup,
                    old(self).lifecycle@,
                    State::Base,
                    State::Ready,
                ),
            ) && *final(self) == *old(self),
            old(self).lifecycle@ == State::Base && lds_state == State::Online
                && static_objects_state == State::Online && sections.layout_ready && sections.start
                <= anchor < sections.end ==> r == Ok::<(), EventError>(())
                && final(self).lifecycle@ == State::Ready && final(self).start == sections.start
                && final(self).end == sections.end && final(self).load == sections.load
                && final(self).size == sections.end - sections.start,
    {
        if self.lifecycle.state() != State::Base || lds_state != State::Online
            || static_objects_state != State::Online || !sections.layout_ready {
            return self.failed_setup();
        }
        let start = sections.start;
        let end = sections.end;
        let size = end - start;
        if anchor < start || anchor >= end || size == 0 {
            return self.failed_setup();
        }
        self.start = start;
        self.end = end;
        self.load = sections.load;
        self.size = size;
        self.lifecycle.transition(LifecycleEvent::Setup, State::Base, State::Ready)
    }

    fn failed_setup(&self) -> (r: EventResult)
        ensures
            r == Err::<(), EventError>(
                condition_error(LifecycleEvent::Setup, self.lifecycle@, State::Base, State::Ready),
            ),
    {
        failed_condition(LifecycleEvent::Setup, self.lifecycle.state(), State::Base, State::Ready)
    }
}

/// The static image can be copied to `destination`: it is non-empty and neither its source
/// nor its destination range wraps.
pub open spec fn static_image_copyable(image: &PerCpuStaticImage, destination: usize) -> bool {
    image.size != 0 && destination + image.size <= usize::MAX && image.load + image.size
        <= usize::MAX
}

/// Checks that the static image can be copied to `destination`; the copy itself, of `size`
/// bytes from `load`, is the caller's.
pub fn copy_static_image(static_image: &PerCpuStaticImage, destination: usize) -> (r: bool)
    ensures
        r == static_image_copyable(static_image, destination),
{
    if static_image.size() == 0 || destination.checked_add(static_image.size()).is_none()
        || static_image.load().checked_add(static_image.size()).is_none() {
        return false;
    }
    true
}

/// One CPU's unit of the first chunk.
#[derive(Clone, Copy, PartialEq, Eq, Structural, Debug)]
pub struct PerCpuUnit {
    pub logical_id: usize,
    pub hartid: usize,
    pub base: usize,
    pub static_start: usize,
    pub dynamic_start: usize,
    pub end: usize,
}

impl PerCpuUnit {
    pub open spec fn spec_empty() -> PerCpuUnit {
        PerCpuUnit {
            logical_id: usize::MAX,
            hartid: usize::MAX,
            base: 0,
            static_start: 0,
            dynamic_start: 0,
            end: 0,
        }
    }

    pub fn empty() -> (r: Self)
        ensures
            r == Self::spec_empty(),
    {
        Self {
            logical_id: usize::MAX,
            hartid: usize::MAX,
            base: 0,
            static_start: 0,
            dynamic_start: 0,
            end: 0,
        }
    }

    pub fn logical_id(self) -> (r: usize)
        ensures
            r == self.logical_id,
    {
        self.logical_id
    }

    pub fn hartid(self) -> (r: usize)
        ensures
            r == self.hartid,
    {
        self.hartid
    }

    pub fn base(self) -> (r: usize)
        ensures
            r == self.base,
    {
        self.base
    }

    pub fn static_start(self) -> (r: usize)
        ensures
            r == self.static_start,
    {
        self.static_start
    }

    pub fn dynamic_start(self) -> (r: usize)
        ensures
            r == self.dynamic_start,
    {
        self.dynamic_start
    }

    pub fn end(self) -> (r: usize)
        ensures
            r == self.end,
    {
        self.end
    }
}

/// The unit of logical CPU `i` in a chunk at `base_virt` with units of `unit_size`: the
/// static copy at its start, then the reserved and the dynamic areas.
pub open spec fn unit_layout(
    i: int,
    hartid: usize,
    base_virt: usize,
    unit_size: usize,
    static_size: usize,
) -> PerCpuUnit {
    let base = base_virt + unit_size * i;
    PerCpuUnit {
        logical_id: i as usize,
        hartid,
        base: base as usize,
        static_start: base as usize,
        dynamic_start: (base + static_size + RESERVED_SIZE) as usize,
        end: (base + unit_size) as usize,
    }
}

/// The units of a chunk follow one another without overlap: unit `i` starts `i` unit
/// sizes into the chunk, spans one unit size, holds the static copy at its start, and its
/// dynamic area starts right after the static copy and the reserved area.
pub proof fn lemma_unit_layout_tiles(
    i: int,
    j: int,
    hi: usize,
    hj: usize,
    base_virt: usize,
    unit_size: usize,
    static_size: usize,
)
    requires
        0 <= i < j < MAX_PER_CPU_UNITS,
        base_virt + unit_size * (j + 1) <= usize::MAX,
        static_size + RESERVED_SIZE <= unit_size,
    ensures
        ({
            let a = unit_layout(i, hi, base_virt, unit_size, static_size);
            let b = unit_layout(j, hj, base_virt, unit_size, static_size);
            &&& a.base as int == base_virt + unit_size * i
            &&& a.end - a.base == unit_size
            &&& a.static_start == a.base
            &&& a.dynamic_start - a.base == static_size + RESERVED_SIZE
            &&& a.end <= b.base
            &&& a.logical_id == i && b.logical_id == j
        }),
{
    assert(unit_size * i + unit_size <= unit_size * j) by (nonlinear_arith)
        requires
            i < j,
            unit_size >= 0,
    ;
    assert(unit_size * j + unit_size == unit_size * (j + 1)) by (nonlinear_arith);
    assert(unit_size * i + unit_size == unit_size * (i + 1)) by (nonlinear_arith);
    assert(unit_size * (i + 1) <= unit_size * (j + 1)) by (nonlinear_arith)
        requires
            i < j,
            unit_size >= 0,
    ;
    assert(0 <= unit_size * j) by (nonlinear_arith)
        requires
            j >= 0,
            unit_size >= 0,
    ;
    assert(0 <= unit_size * i) by (nonlinear_arith)
        requires
            i >= 0,
            unit_size >= 0,
    ;
}

pub struct PerCpuFirstChunk {
    pub lifecycle: Lifecycle,
    pub range: PhysRange,
    pub base_virt: usize,
    pub unit_size: usize,
    pub static_size: usize,
    pub reserved_size: usize,
    pub dynamic_size: usize,
    pub unit_count: usize,
    pub units: [PerCpuUnit; 16],
}

impl PerCpuFirstChunk {
    pub open spec fn wf(&self) -> bool {
        self.unit_count <= MAX_PER_CPU_UNITS
    }

    pub fn new() -> (s: Self)
        ensures
            s.wf(),
            s.lifecycle@ == State::Base,
            s.unit_count == 0,
    {
        Self {
            lifecycle: Lifecycle::new(State::Base),
            range: PhysRange::empty(),
            base_virt: 0,
            unit_size: 0,
            static_size: 0,
            reserved_size: 0,
            dynamic_size: 0,
            unit_count: 0,
            units: [PerCpuUnit::empty(); 16],
        }
    }

    pub fn state(&self) -> (r: State)
        ensures
            r == self.lifecycle@,
    {
        self.lifecycle.state()
    }

    pub fn range(&self) -> (r: PhysRange)
        ensures
            r == self.range,
    {
        self.range
    }

    pub fn base_virt(&self) -> (r: usize)
        ensures
            r == self.base_virt,
    {
        self.base_virt
    }

    pub fn unit_size(&self) -> (r: usize)
        ensures
            r == self.unit_size,
    {
        self.unit_size
    }

    pub fn static_size(&self) -> (r: usize)
        ensures
            r == self.static_size,
    {
        self.static_size
    }

    pub fn reserved_size(&self) -> (r: usize)
        ensures
            r == self.reserved_size,
    {
        self.reserved_size
    }

    pub fn dynamic_size(&self) -> (r: usize)
        ensures
            r == self.dynamic_size,
    {
        self.dynamic_size
    }

    pub fn unit_count(&self) -> (r: usize)
        ensures
            r == self.unit_count,
    {
        self.unit_count
    }

    pub fn unit(&self, logical_id: usize) -> (r: Option<PerCpuUnit>)
        requires
            self.wf(),
        ensures
            r == (if logical_id < self.unit_count {
                Some(self.units@[logical_id as int])
            } else {
                None
            }),
    {
        if logical_id < self.unit_count {
            Some(self.units[logical_id])
        } else {
            None
        }
    }

    /// The conditions for laying the chunk out.
    pub open spec fn setup_guard(
        &self,
        static_image: &PerCpuStaticImage,
        memblock_state: State,
        vm: &Vm,
        config: &Config,
        cpu_group: &CpuGroup,
        cpu_id_map: &CpuIdMap,
    ) -> bool {
        &&& self.lifecycle@ == State::Base
        &&& static_image.lifecycle@ == State::Ready
        &&& memblock_state == State::Online
        &&& vm.state == State::Online
        &&& vm.entry_successor_ready
        &&& config.state == State::Online
        &&& cpu_group.state == State::Ready
        &&& cpu_id_map.state == State::Ready
        &&& cpu_id_map.hartids@.len() != 0
        &&& cpu_id_map.hartids@.len() == cpu_group.possible_cpu_count
        &&& cpu_id_map.hartids@.len() <= MAX_PER_CPU_UNITS
    }

    /// Whether setup lays the chunk out for a ready static image: see `setup_owed_sized`.
    pub open spec fn setup_owed(
        &self,
        static_image: &PerCpuStaticImage,
        memblock: MemBlock,
        vm: &Vm,
        config: &Config,
        cpu_group: &CpuGroup,
        cpu_id_map: &CpuIdMap,
    ) -> bool {
        &&& static_image.lifecycle@ == State::Ready
        &&& self.setup_owed_sized(
            static_image.size,
            static_image.load,
            memblock,
            vm,
            config,
            cpu_group,
            cpu_id_map,
        )
    }

    /// Whether setup lays the chunk out for a ready static image of `image_size` bytes loaded
    /// at `image_load`: the rest of its guard holds, the unit size (the static image, the
    /// reserved and the dynamic areas, rounded up to whole pages) and the chunk size fit, the
    /// boot allocator hands out the chunk, its linear addresses are representable, and the
    /// static image is non-empty and readable.
    pub open spec fn setup_owed_sized(
        &self,
        image_size: usize,
        image_load: usize,
        memblock: MemBlock,
        vm: &Vm,
        config: &Config,
        cpu_group: &CpuGroup,
        cpu_id_map: &CpuIdMap,
    ) -> bool {
        let payload = image_size + RESERVED_SIZE + DYNAMIC_RESERVE_SIZE;
        let unit = round_up_value_spec(payload as usize, config.page_size)->0;
        let total = unit * cpu_id_map.hartids@.len();
        let range = memblock.spec_alloc_phys(total as usize, config.page_size)->0;
        &&& self.lifecycle@ == State::Base
        &&& memblock.lifecycle@ == State::Online
        &&& vm.state == State::Online
        &&& vm.entry_successor_ready
        &&& config.state == State::Online
        &&& cpu_group.state == State::Ready
        &&& cpu_id_map.state == State::Ready
        &&& cpu_id_map.hartids@.len() != 0
        &&& cpu_id_map.hartids@.len() == cpu_group.possible_cpu_count
        &&& cpu_id_map.hartids@.len() <= MAX_PER_CPU_UNITS
        &&& payload <= usize::MAX
        &&& round_up_value_spec(payload as usize, config.page_size) is Some
        &&& total <= usize::MAX
        &&& memblock.spec_alloc_phys(total as usize, config.page_size) is Some
        &&& config.spec_phys_to_linear(range.start) is Some
        &&& config.spec_phys_to_linear(range.start)->0 + total <= usize::MAX
        &&& image_size != 0
        &&& image_load + image_size <= usize::MAX
    }

    /// Allocates one unit per CPU, each the static image size plus the dynamic reserve rounded
    /// up to whole pages, in one physically contiguous range, and lays the units out.
    #[verifier::loop_isolation(false)]
    pub fn setup(
        &mut self,
        static_image: &PerCpuStaticImage,
        memblock: &mut MemBlock,
        vm: &Vm,
        config: &Config,
        cpu_group: &CpuGroup,
        cpu_id_map: &CpuIdMap,
    ) -> (r: EventResult)
        requires
            old(self).wf(),
            old(memblock).wf(),
        ensures
            final(self).wf(),
            final(memblock).wf(),
            !old(self).setup_guard(
                static_image,
                old(memblock).lifecycle@,
                vm,
                config,
                cpu_group,
                cpu_id_map,
            ) ==> r == Err::<(), EventError>(
                condition_error(
                    LifecycleEvent::Setup,
                    old(self).lifecycle@,
                    State::Base,
                    State::Ready,
                ),
            ) && *final(self) == *old(self) && *final(memblock) == *old(memblock),
            r is Err ==> r == Err::<(), EventError>(
                condition_error(
                    LifecycleEvent::Setup,
                    old(self).lifecycle@,
                    State::Base,
                    State::Ready,
                ),
            ) && final(self).lifecycle == old(self).lifecycle,
            r is Ok ==> {
                &&& old(self).setup_guard(
                    static_image,
                    old(memblock).lifecycle@,
                    vm,
                    config,
                    cpu_group,
                    cpu_id_map,
                )
                &&& final(self).lifecycle@ == State::Ready
                &&& Some(final(self).unit_size) == round_up_value_spec(
                    (static_image.size + RESERVED_SIZE + DYNAMIC_RESERVE_SIZE) as usize,
                    config.page_size,
                )
                &&& final(self).unit_count == cpu_id_map.hartids@.len()
                &&& final(self).static_size == static_image.size
                &&& final(self).reserved_size == RESERVED_SIZE
                &&& final(self).dynamic_size == DYNAMIC_RESERVE_SIZE
                &&& final(self).range.end - final(self).range.start == final(self).unit_size
                    * final(self).unit_count
                &&& final(memblock).reserved@ == old(memblock).reserved@.push(final(self).range)
                &&& Some(final(self).base_virt) == config.spec_phys_to_linear(
                    final(self).range.start,
                )
                &&& forall|i: int|
                    0 <= i < final(self).unit_count ==> #[trigger] final(self).units@[i]
                        == unit_layout(
                        i,
                        cpu_id_map.hartids@[i],
                        final(self).base_virt,
                        final(self).unit_size,
                        static_image.size,
                    )
                &&& forall|i: int|
                    0 <= i < final(self).unit_count ==> static_image_copyable(
                        static_image,
                        #[trigger] final(self).units@[i].base,
                    )
            },
            old(self).setup_owed(
                static_image,
                *old(memblock),
                vm,
                config,
                cpu_group,
                cpu_id_map,
            ) ==> r is Ok,
    {
        if self.lifecycle.state() != State::Base || static_image.state() != State::Ready
            || memblock.state() != State::Online || vm.state != State::Online
            || !vm.entry_successor_ready || config.state != State::Online || cpu_group.state
            != State::Ready || cpu_id_map.state != State::Ready || cpu_id_map.count() == 0
            || cpu_id_map.count() != cpu_group.possible_cpu_count || cpu_id_map.count()
            > MAX_PER_CPU_UNITS {
            return self.failed_setup();
        }
        let count = cpu_id_map.count();
        let dynamic_offset = match static_image.size().checked_add(RESERVED_SIZE) {
            Some(d) => d,
            None => return self.failed_setup(),
        };
        let unit_payload_size = match dynamic_offset.checked_add(DYNAMIC_RESERVE_SIZE) {
            Some(u) => u,
            None => return self.failed_setup(),
        };
        let unit_size = match round_up_value(unit_payload_size, config.page_size) {
            Some(u) => u,
            None => return self.failed_setup(),
        };
        let total_size = match unit_size.checked_mul(count) {
            Some(t) => t,
            None => return self.failed_setup(),
        };
        let range = match memblock.alloc_phys(total_size, config.page_size) {
            Some(r) => r,
            None => return self.failed_setup(),
        };
        let base_virt = match config.phys_to_linear(range.start()) {
            Some(b) => b,
            None => return self.failed_setup(),
        };
        if base_virt.checked_add(total_size).is_none() {
            return self.failed_setup();
        }
        let ghost owed = old(self).setup_owed(
            static_image,
            *old(memblock),
            vm,
            config,
            cpu_group,
            cpu_id_map,
        );
        proof {
            if owed {
                lemma_round_up_bounds(unit_payload_size as int, config.page_size as int);
            }
        }
        let mut units = [PerCpuUnit::empty(); 16];
        let mut logical_id: usize = 0;
        while logical_id < count
            invariant
                count == cpu_id_map.hartids@.len(),
                count <= MAX_PER_CPU_UNITS,
                logical_id <= count,
                dynamic_offset == static_image.size + RESERVED_SIZE,
                base_virt + unit_size * count <= usize::MAX,
                forall|i: int|
                    0 <= i < logical_id ==> #[trigger] units@[i] == unit_layout(
                        i,
                        cpu_id_map.hartids@[i],
                        base_virt,
                        unit_size,
                        static_image.size,
                    ) && static_image_copyable(static_image, units@[i].base),
                self.lifecycle == old(self).lifecycle,
                self.wf(),
            decreases count - logical_id,
        {
            let hartid = match cpu_id_map.entry(logical_id) {
                Some(h) => h,
                None => return self.failed_setup(),
            };
            proof {
                assert(unit_size * logical_id + unit_size <= unit_size * count) by (nonlinear_arith)
                    requires
                        logical_id < count,
                ;
                assert(unit_size * logical_id >= 0) by (nonlinear_arith);
            }
            let unit_offset = match unit_size.checked_mul(logical_id) {
                Some(o) => o,
                None => return self.failed_setup(),
            };
            let unit_base = match base_virt.checked_add(unit_offset) {
                Some(b) => b,
                None => return self.failed_setup(),
            };
            let static_end = match unit_base.checked_add(static_image.size()) {
                Some(e) => e,
                None => return self.failed_setup(),
            };
            let dynamic_start = match unit_base.checked_add(dynamic_offset) {
                Some(d) => d,
                None => return self.failed_setup(),
            };
            let dynamic_end = match dynamic_start.checked_add(DYNAMIC_RESERVE_SIZE) {
                Some(d) => d,
                None => return self.failed_setup(),
            };
            let unit_end = match unit_base.checked_add(unit_size) {
                Some(e) => e,
                None => return self.failed_setup(),
            };
            if static_end > dynamic_start || dynamic_start > dynamic_end || dynamic_end > unit_end {
                return self.failed_setup();
            }
            if !copy_static_image(static_image, unit_base) {
                return self.failed_setup();
            }
            units[logical_id] = PerCpuUnit {
                logical_id,
                hartid,
                base: unit_base,
                static_start: unit_base,
                dynamic_start,
                end: unit_end,
            };
            logical_id += 1;
        }
        self.range = range;
        self.base_virt = base_virt;
        self.unit_size = unit_size;
        self.static_size = static_image.size();
        self.reserved_size = RESERVED_SIZE;
        self.dynamic_size = DYNAMIC_RESERVE_SIZE;
        self.unit_count = count;
        self.units = units;
        proof {
            if owed {
                assert(unit_size * count > 0) by (nonlinear_arith)
                    requires
                        unit_size > 0,
                        count > 0,
                ;
                assert forall|i: int| 0 <= i < self.unit_count implies #[trigger] self.unit_fact_ok(
                    i,
                    cpu_id_map,
                ) by {
                    assert(unit_size * i + unit_size <= unit_size * count) by (nonlinear_arith)
                        requires
                            i < count,
                    ;
                    assert(unit_size * i >= 0) by (nonlinear_arith)
                        requires
                            i >= 0,
                    ;
                }
            }
        }
        if !self.ready_facts_hold(static_image, cpu_id_map) {
            return self.failed_setup();
        }
        self.lifecycle.transition(LifecycleEvent::Setup, State::Base, State::Ready)
    }

    fn failed_setup(&self) -> (r: EventResult)
        ensures
            r == Err::<(), EventError>(
                condition_error(LifecycleEvent::Setup, self.lifecycle@, State::Base, State::Ready),
            ),
    {
        failed_condition(LifecycleEvent::Setup, self.lifecycle.state(), State::Base, State::Ready)
    }

    /// Unit `i` is where the layout puts it, with every address representable.
    pub open spec fn unit_fact_ok(&self, i: int, cpu_id_map: &CpuIdMap) -> bool {
        let unit = self.units@[i];
        &&& self.base_virt + self.unit_size * i <= usize::MAX
        &&& unit.static_start + self.static_size + self.reserved_size <= usize::MAX
        &&& unit.base + self.unit_size <= usize::MAX
        &&& unit.logical_id == i
        &&& unit.hartid == cpu_id_map.hartids@[i]
        &&& unit.base == self.base_virt + self.unit_size * i
        &&& unit.static_start == unit.base
        &&& unit.dynamic_start >= unit.static_start + self.static_size + self.reserved_size
        &&& unit.end == unit.base + self.unit_size
    }

    /// The chunk agrees with its own layout: a non-empty range of one unit per CPU, and each
    /// unit where the layout puts it.
    pub open spec fn spec_ready_facts(&self, static_image: &PerCpuStaticImage, cpu_id_map: &CpuIdMap) -> bool {
        &&& self.range.start < self.range.end
        &&& self.range.end - self.range.start == self.unit_size * self.unit_count
        &&& self.unit_count == cpu_id_map.hartids@.len()
        &&& self.static_size == static_image.size
        &&& self.dynamic_size != 0
        &&& forall|i: int|
            0 <= i < self.unit_count ==> #[trigger] self.unit_fact_ok(i, cpu_id_map)
    }

    #[verifier::loop_isolation(false)]
    fn ready_facts_hold(&self, static_image: &PerCpuStaticImage, cpu_id_map: &CpuIdMap) -> (r: bool)
        requires
            self.wf(),
        ensures
            r == self.spec_ready_facts(static_image, cpu_id_map),
    {
        if self.range.start() >= self.range.end() {
            return false;
        }
        let total = match self.unit_size.checked_mul(self.unit_count) {
            Some(t) => t,
            None => return false,
        };
        if self.range.size() != total || self.unit_count != cpu_id_map.count()
            || self.static_size != static_image.size() || self.dynamic_size == 0 {
            return false;
        }
        let mut logical_id: usize = 0;
        while logical_id < self.unit_count
            invariant
                self.wf(),
                logical_id <= self.unit_count,
                self.unit_count == cpu_id_map.hartids@.len(),
                forall|i: int|
                    0 <= i < logical_id ==> #[trigger] self.unit_fact_ok(i, cpu_id_map),
            decreases self.unit_count - logical_id,
        {
            let hartid = match cpu_id_map.entry(logical_id) {
                Some(h) => h,
                None => return false,
            };
            let unit = self.units[logical_id];
            let unit_offset = match self.unit_size.checked_mul(logical_id) {
                Some(o) => o,
                None => {
                    proof {
                        assert(!self.unit_fact_ok(logical_id as int, cpu_id_map));
                    }
                    return false;
                },
            };
            let expected_base = match self.base_virt.checked_add(unit_offset) {
                Some(b) => b,
                None => {
                    proof {
                        assert(!self.unit_fact_ok(logical_id as int, cpu_id_map));
                    }
                    return false;
                },
            };
            let static_end = match unit.static_start.checked_add(self.static_size) {
                Some(e) => e,
                None => {
                    proof {
                        assert(!self.unit_fact_ok(logical_id as int, cpu_id_map));
                    }
                    return false;
                },
            };
            let reserved_end = match static_end.checked_add(self.reserved_size) {
                Some(e) => e,
                None => {
                    proof {
                        assert(!self.unit_fact_ok(logical_id as int, cpu_id_map));
                    }
                    return false;
                },
            };
            let unit_end = match unit.base.checked_add(self.unit_size) {
                Some(e) => e,
                None => {
                    proof {
                        assert(!self.unit_fact_ok(logical_id as int, cpu_id_map));
                    }
                    return false;
                },
            };
            if unit.logical_id != logical_id || unit.hartid != hartid || unit.base
                != expected_base || unit.static_start != unit.base || unit.dynamic_start
                < reserved_end || unit.end != unit_end {
                proof {
                    assert(!self.unit_fact_ok(logical_id as int, cpu_id_map));
                }
                return false;
            }
            assert(self.base_virt + self.unit_size * (logical_id as int) == expected_base);
            assert(self.units@[logical_id as int] == unit);
            assert(self.unit_fact_ok(logical_id as int, cpu_id_map));
            logical_id += 1;
        }
        true
    }
}

pub struct PerCpuOffsetTable {
    pub lifecycle: Lifecycle,
    pub offsets: [usize; 16],
    pub count: usize,
}

impl PerCpuOffsetTable {
    pub open spec fn wf(&self) -> bool {
        self.count <= MAX_PER_CPU_UNITS
    }

    pub fn new() -> (s: Self)
        ensures
            s.wf(),
            s.lifecycle@ == State::Base,
            s.count == 0,
    {
        Self { lifecycle: Lifecycle::new(State::Base), offsets: [0; 16], count: 0 }
    }

    pub fn state(&self) -> (r: State)
        ensures
            r == self.lifecycle@,
    {
        self.lifecycle.state()
    }

    pub fn count(&self) -> (r: usize)
        ensures
            r == self.count,
    {
        self.count
    }

    pub open spec fn spec_offset(&self, logical_id: usize) -> Option<usize> {
        if logical_id < self.count {
            Some(self.offsets@[logical_id as int])
        } else {
            None
        }
    }

    pub fn offset(&self, logical_id: usize) -> (r: Option<usize>)
        requires
            self.wf(),
        ensures
            r == self.spec_offset(logical_id),
    {
        if logical_id < self.count {
            Some(self.offsets[logical_id])
        } else {
            None
        }
    }

    /// Records, for each CPU, the distance from the static image to its unit.
    pub fn setup(
        &mut self,
        static_image: &PerCpuStaticImage,
        first_chunk: &PerCpuFirstChunk,
        cpu_group: &CpuGroup,
        cpu_id_map: &CpuIdMap,
    ) -> (r: EventResult)
        requires
            old(self).wf(),
            first_chunk.wf(),
        ensures
            final(self).wf(),
            old(self).lifecycle@ != State::Base || static_image.lifecycle@ != State::Ready
                || first_chunk.lifecycle@ != State::Ready || cpu_group.state != State::Ready
                || cpu_id_map.state != State::Ready || first_chunk.unit_count
                != cpu_group.possible_cpu_count || first_chunk.unit_count
                != cpu_id_map.hartids@.len() ==> r == Err::<(), EventError>(
                condition_error(
                    LifecycleEvent::Setup,
                    old(self).lifecycle@,
                    State::Base,
                    State::Ready,
                ),
            ) && *final(self) == *old(self),
            old(self).lifecycle@ == State::Base && static_image.lifecycle@ == State::Ready
                && first_chunk.lifecycle@ == State::Ready && cpu_group.state == State::Ready
                && cpu_id_map.state == State::Ready && first_chunk.unit_count
                == cpu_group.possible_cpu_count && first_chunk.unit_count
                == cpu_id_map.hartids@.len() ==> {
                &&& r == Ok::<(), EventError>(())
                &&& final(self).lifecycle@ == State::Ready
                &&& final(self).count == first_chunk.unit_count
                &&& forall|i: int|
                    0 <= i < final(self).count ==> #[trigger] final(self).offsets@[i]
                        == vstd::wrapping::usize_specs::wrapping_sub(
                        first_chunk.units@[i].base,
                        static_image.start,
                    )
            },
    {
        if self.lifecycle.state() != State::Base || static_image.state() != State::Ready
            || first_chunk.state() != State::Ready || cpu_group.state != State::Ready
            || cpu_id_map.state != State::Ready || first_chunk.unit_count()
            != cpu_group.possible_cpu_count || first_chunk.unit_count() != cpu_id_map.count() {
            return failed_condition(
                LifecycleEvent::Setup,
                self.lifecycle.state(),
                State::Base,
                State::Ready,
            );
        }
        let count = cpu_id_map.count();
        let mut offsets = [0usize; 16];
        let mut logical_id: usize = 0;
        while logical_id < count
            invariant
                count == first_chunk.unit_count,
                first_chunk.wf(),
                logical_id <= count,
                forall|i: int|
                    0 <= i < logical_id ==> #[trigger] offsets@[i]
                        == vstd::wrapping::usize_specs::wrapping_sub(
                        first_chunk.units@[i].base,
                        static_image.start,
                    ),
            decreases count - logical_id,
        {
            let unit = match first_chunk.unit(logical_id) {
                Some(u) => u,
                None => {
                    return failed_condition(
                        LifecycleEvent::Setup,
                        self.lifecycle.state(),
                        State::Base,
                        State::Ready,
                    );
                },
            };
            offsets[logical_id] = unit.base().wrapping_sub(static_image.start());
            logical_id += 1;
        }
        self.offsets = offsets;
        self.count = count;
        self.lifecycle.transition(LifecycleEvent::Setup, State::Base, State::Ready)
    }
}

pub struct PerCpuStorage {
    pub lifecycle: Lifecycle,
    pub static_image: PerCpuStaticImage,
    pub first_chunk: PerCpuFirstChunk,
    pub offset_table: PerCpuOffsetTable,
}

impl PerCpuStorage {
    pub open spec fn wf(&self) -> bool {
        self.first_chunk.wf() && self.offset_table.wf()
    }

    pub fn new() -> (s: Self)
        ensures
            s.wf(),
            s.lifecycle@ == State::Base,
            s.static_image.lifecycle@ == State::Base,
            s.first_chunk.lifecycle@ == State::Base,
            s.offset_table.lifecycle@ == State::Base,
    {
        Self {
            lifecycle: Lifecycle::new(State::Base),
            static_image: PerCpuStaticImage::new(),
            first_chunk: PerCpuFirstChunk::new(),
            offset_table: PerCpuOffsetTable::new(),
        }
    }

    pub fn state(&self) -> (r: State)
        ensures
            r == self.lifecycle@,
    {
        self.lifecycle.state()
    }

    pub fn static_image(&self) -> (r: &PerCpuStaticImage)
        ensures
            *r == self.static_image,
    {
        &self.static_image
    }

    pub fn first_chunk(&self) -> (r: &PerCpuFirstChunk)
        ensures
            *r == self.first_chunk,
    {
        &self.first_chunk
    }

    pub fn offset_table(&self) -> (r: &PerCpuOffsetTable)
        ensures
            *r == self.offset_table,
    {
        &self.offset_table
    }

    /// The address of CPU `logical_id`'s copy of `symbol`: its template address moved by the
    /// CPU's offset, for a symbol inside the static image of ready storage.
    pub open spec fn spec_per_cpu_ptr(&self, symbol: PerCpuSymbol, logical_id: usize) -> Option<usize> {
        if self.lifecycle@ != State::Ready || !self.static_image.spec_contains(
            symbol.template,
            symbol.size,
        ) {
            None
        } else {
            match self.offset_table.spec_offset(logical_id) {
                Some(offset) => Some(vstd::wrapping::usize_specs::wrapping_add(symbol.template, offset)),
                None => None,
            }
        }
    }

    pub fn per_cpu_ptr(&self, symbol: PerCpuSymbol, logical_id: usize) -> (r: Option<usize>)
        requires
            self.wf(),
        ensures
            r == self.spec_per_cpu_ptr(symbol, logical_id),
    {
        let template_addr = symbol.template_addr();
        if self.lifecycle.state() != State::Ready || !self.static_image.contains(
            template_addr,
            symbol.size,
        ) {
            return None;
        }
        let offset = match self.offset_table.offset(logical_id) {
            Some(o) => o,
            None => return None,
        };
        Some(template_addr.wrapping_add(offset))
    }

    /// The conditions on the storage and its dependencies.
    pub open spec fn setup_guard(
        &self,
        lds_state: State,
        static_objects_state: State,
        memblock_state: State,
        vm: &Vm,
        config: &Config,
        cpu_group: &CpuGroup,
        cpu_id_map: &CpuIdMap,
    ) -> bool {
        &&& self.lifecycle@ == State::Base
        &&& lds_state == State::Online
        &&& static_objects_state == State::Online
        &&& memblock_state == State::Online
        &&& vm.state == State::Online
        &&& vm.entry_successor_ready
        &&& config.state == State::Online
        &&& cpu_group.state == State::Ready
        &&& cpu_id_map.state == State::Ready
    }

    /// Sets up the static image, the first chunk and the offset table; a refusal by one of them
    /// is passed on as it came.
    pub fn setup(
        &mut self,
        lds_state: State,
        sections: PerCpuSections,
        anchor: usize,
        static_objects_state: State,
        memblock: &mut MemBlock,
        vm: &Vm,
        config: &Config,
        cpu_group: &CpuGroup,
        cpu_id_map: &CpuIdMap,
    ) -> (r: EventResult)
        requires
            old(self).wf(),
            old(memblock).wf(),
            sections.start <= sections.end,
        ensures
            final(self).wf(),
            final(memblock).wf(),
            !old(self).setup_guard(
                lds_state,
                static_objects_state,
                old(memblock).lifecycle@,
                vm,
                config,
                cpu_group,
                cpu_id_map,
            ) ==> r == Err::<(), EventError>(
                condition_error(
                    LifecycleEvent::Setup,
                    old(self).lifecycle@,
                    State::Base,
                    State::Ready,
                ),
            ) && *final(self) == *old(self) && *final(memblock) == *old(memblock),
            old(self).setup_guard(
                lds_state,
                static_objects_state,
                old(memblock).lifecycle@,
                vm,
                config,
                cpu_group,
                cpu_id_map,
            ) && old(self).static_image.lifecycle@ == State::Base && sections.layout_ready
                && sections.start <= anchor < sections.end && old(self).offset_table.lifecycle@
                == State::Base && old(self).first_chunk.setup_owed_sized(
                (sections.end - sections.start) as usize,
                sections.load,
                *old(memblock),
                vm,
                config,
                cpu_group,
                cpu_id_map,
            ) ==> r is Ok,
            r is Ok ==> {
                &&& final(self).lifecycle@ == State::Ready
                &&& final(self).static_image.lifecycle@ == State::Ready
                &&& final(self).first_chunk.lifecycle@ == State::Ready
                &&& final(self).offset_table.lifecycle@ == State::Ready
                &&& final(self).first_chunk.unit_count == cpu_group.possible_cpu_count
                &&& final(self).offset_table.count == final(self).first_chunk.unit_count
                &&& final(self).first_chunk.static_size == final(self).static_image.size
                &&& final(self).first_chunk.dynamic_size != 0
            },
            r is Err ==> final(self).lifecycle == old(self).lifecycle,
    {
        if self.lifecycle.state() != State::Base || lds_state != State::Online
            || static_objects_state != State::Online || memblock.state() != State::Online
            || vm.state != State::Online || !vm.entry_successor_ready || config.state
            != State::Online || cpu_group.state != State::Ready || cpu_id_map.state
            != State::Ready {
            return self.failed_setup();
        }
        let r1 = self.static_image.setup(lds_state, sections, static_objects_state, anchor);
        if r1.is_err() {
            return r1;
        }
        let r2 = self.first_chunk.setup(
            &self.static_image,
            memblock,
            vm,
            config,
            cpu_group,
            cpu_id_map,
        );
        if r2.is_err() {
            return r2;
        }
        let r3 = self.offset_table.setup(
            &self.static_image,
            &self.first_chunk,
            cpu_group,
            cpu_id_map,
        );
        if r3.is_err() {
            return r3;
        }
        if !self.ready_facts_hold(cpu_group) {
            return self.failed_setup();
        }
        self.lifecycle.transition(LifecycleEvent::Setup, State::Base, State::Ready)
    }

    fn failed_setup(&self) -> (r: EventResult)
        ensures
            r == Err::<(), EventError>(
                condition_error(LifecycleEvent::Setup, self.lifecycle@, State::Base, State::Ready),
            ),
    {
        failed_condition(LifecycleEvent::Setup, self.lifecycle.state(), State::Base, State::Ready)
    }

    fn ready_facts_hold(&self, cpu_group: &CpuGroup) -> (r: bool)
        ensures
            r == (self.static_image.lifecycle@ == State::Ready && self.first_chunk.lifecycle@
                == State::Ready && self.offset_table.lifecycle@ == State::Ready
                && self.first_chunk.unit_count == cpu_group.possible_cpu_count
                && self.offset_table.count == self.first_chunk.unit_count
                && self.first_chunk.static_size == self.static_image.size
                && self.first_chunk.dynamic_size != 0),
    {
        self.static_image.state() == State::Ready && self.first_chunk.state() == State::Ready
            && self.offset_table.state() == State::Ready && self.first_chunk.unit_count()
            == cpu_group.possible_cpu_count && self.offset_table.count()
            == self.first_chunk.unit_count() && self.first_chunk.static_size()
            == self.static_image.size() && self.first_chunk.dynamic_size() != 0
    }
}

} // verus!
