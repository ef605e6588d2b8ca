//! The boot memory block allocator: usable RAM, the ranges reserved in it, and a bump cursor.
use vstd::prelude::*;
use crate::arith::{checked_round_up, checked_round_up_spec, is_pow2, is_power_of_two, max_usize,
    round_up_spec, lemma_round_up_bounds, max_spec, lemma_align_masks};
use crate::phys_range_set::{PhysRangeSet, PHYS_RANGE_SET_CAPACITY};
use crate::physical_memory::PhysicalMemory;
use crate::raw_dtb::{PhysRange, RawDtb};
use crate::state::{
    condition_error, failed_condition, transition_result, transition_state, EventError,
    EventResult, Lifecycle, LifecycleEvent, State,
};

verus! {

pub struct MemBlock {
    pub lifecycle: Lifecycle,
    pub usable: PhysRangeSet,
    pub reserved: PhysRangeSet,
    pub alloc_cursor: usize,
}

/// How the search for a free block within one usable range ends.
pub enum ScanOutcome {
    /// The block that starts here overlaps no reservation.
    Found(usize),
    /// The next candidate would pass the end of the range.
    Exhausted,
    /// An address computation would overflow, which ends the whole search.
    Overflow,
}

/// The search within `range`: candidates are tried from `start` on, and after one that
/// overlaps a reservation the next begins at the first multiple of `align` at or after its
/// end.
pub open spec fn scan_range(
    reserved: PhysRangeSet,
    range: PhysRange,
    start: int,
    size: int,
    align: int,
) -> ScanOutcome
    decreases usize::MAX + 1 - start,
    via scan_range_decreases
{
    if start < 0 || size <= 0 || align <= 0 || start + size > usize::MAX {
        ScanOutcome::Overflow
    } else if start + size > range.end {
        ScanOutcome::Exhausted
    } else if !reserved.spec_overlaps_range(
        PhysRange { start: start as usize, end: (start + size) as usize },
    ) {
        ScanOutcome::Found(start as usize)
    } else if start + size + align - 1 > usize::MAX {
        ScanOutcome::Overflow
    } else {
        scan_range(reserved, range, round_up_spec(start + size, align), size, align)
    }
}

#[via_fn]
proof fn scan_range_decreases(
    reserved: PhysRangeSet,
    range: PhysRange,
    start: int,
    size: int,
    align: int,
) {
    if start >= 0 && size > 0 && align > 0 && start + size + align - 1 <= usize::MAX {
        lemma_round_up_bounds(start + size, align);
    }
}

/// The first-fit search over the usable ranges from the `index`-th on: each range is
/// searched from the first multiple of `align` at or after both its start and the cursor,
/// and the search moves to the next range only when one is exhausted.
pub open spec fn scan_ranges(m: MemBlock, index: int, size: int, align: int) -> ScanOutcome
    decreases m.usable@.len() - index,
{
    if index < 0 || index >= m.usable@.len() {
        ScanOutcome::Exhausted
    } else {
        let range = m.usable@[index];
        let lower = max_spec(range.start as int, m.alloc_cursor as int);
        if lower + align - 1 > usize::MAX {
            ScanOutcome::Overflow
        } else {
            match scan_range(m.reserved, range, round_up_spec(lower, align), size, align) {
                ScanOutcome::Exhausted => scan_ranges(m, index + 1, size, align),
                other => other,
            }
        }
    }
}

/// The first multiple of `align` at or after `value` is at or below any multiple of
/// `align` at or after `value`.
proof fn lemma_round_up_below_aligned(value: int, align: int, c: int)
    requires
        value >= 0,
        align > 0,
        c >= value,
        c % align == 0,
    ensures
        round_up_spec(value, align) <= c,
{
    lemma_round_up_bounds(value, align);
    let r = round_up_spec(value, align);
    vstd::arithmetic::div_mod::lemma_fundamental_div_mod(r, align);
    vstd::arithmetic::div_mod::lemma_fundamental_div_mod(c, align);
    let k = r / align;
    let j = c / align;
    if r > c {
        assert(j < k) by (nonlinear_arith)
            requires
                r == align * k,
                c == align * j,
                r > c,
                align > 0,
        ;
        assert(r >= c + align) by (nonlinear_arith)
            requires
                r == align * k,
                c == align * j,
                j < k,
                align > 0,
        ;
    }
}

/// With no reservations, the search from usable range `i` on finds a block wherever some
/// range from `i` up to `ri` holds an aligned block of `size` bytes at or after the cursor.
proof fn lemma_scan_finds_from(m: MemBlock, i: int, size: usize, align: usize, ri: int, c: int)
    requires
        0 <= i <= ri < m.usable@.len(),
        m.reserved@.len() == 0,
        size > 0,
        is_pow2(align),
        c % (align as int) == 0,
        c >= m.alloc_cursor,
        c >= m.usable@[ri].start,
        c + size <= m.usable@[ri].end,
        forall|j: int|
            0 <= j < m.usable@.len() ==> #[trigger] m.usable@[j].start + size + align
                <= usize::MAX && m.usable@[j].end + size + align <= usize::MAX,
    ensures
        scan_ranges(m, i, size as int, align as int) is Found,
    decreases ri - i,
{
    lemma_align_masks(0, align);
    let range = m.usable@[i];
    let lower = max_spec(range.start as int, m.alloc_cursor as int);
    lemma_round_up_bounds(lower, align as int);
    let s0 = round_up_spec(lower, align as int);
    assert(!m.reserved.spec_overlaps_range(PhysRange { start: s0 as usize, end: (s0 + size) as usize }));
    if i == ri {
        lemma_round_up_below_aligned(lower, align as int, c);
    } else {
        lemma_scan_finds_from(m, i + 1, size, align, ri, c);
    }
}

impl MemBlock {
    /// Both range sets are within their capacity.
    pub open spec fn wf(&self) -> bool {
        self.usable.wf() && self.reserved.wf()
    }

    pub fn new() -> (s: Self)
        ensures
            s.wf(),
            s.lifecycle@ == State::Base,
            s.usable@ == Seq::<PhysRange>::empty(),
            s.reserved@ == Seq::<PhysRange>::empty(),
            s.alloc_cursor == 0,
    {
        Self {
            lifecycle: Lifecycle::new(State::Base),
            usable: PhysRangeSet::empty(),
            reserved: PhysRangeSet::empty(),
            alloc_cursor: 0,
        }
    }

    pub fn state(&self) -> (r: State)
        ensures
            r == self.lifecycle@,
    {
        self.lifecycle.state()
    }

    pub fn usable_ranges(&self) -> (r: &PhysRangeSet)
        ensures
            *r == self.usable,
    {
        &self.usable
    }

    pub fn reserved_ranges(&self) -> (r: &PhysRangeSet)
        ensures
            *r == self.reserved,
    {
        &self.reserved
    }

    /// Closes the boot allocator once the page allocator has taken memory over.
    pub fn disable(&mut self) -> (r: EventResult)
        ensures
            r == transition_result(
                LifecycleEvent::Disable,
                old(self).lifecycle@,
                State::Online,
                State::Offline,
            ),
            final(self).lifecycle@ == transition_state(
                old(self).lifecycle@,
                State::Online,
                State::Offline,
            ),
            *final(self) == (MemBlock { lifecycle: final(self).lifecycle, ..*old(self) }),
    {
        self.lifecycle.transition(LifecycleEvent::Disable, State::Online, State::Offline)
    }

    /// The block that `alloc_phys` of `size` bytes aligned to `align` hands out, if any.
    pub open spec fn spec_alloc_phys(&self, size: usize, align: usize) -> Option<PhysRange> {
        if self.lifecycle@ != State::Online || size == 0 || !is_pow2(align) {
            None
        } else {
            match scan_ranges(*self, 0, size as int, align as int) {
                ScanOutcome::Found(s) => if self.reserved.count < PHYS_RANGE_SET_CAPACITY {
                    Some(PhysRange { start: s, end: (s + size) as usize })
                } else {
                    None
                },
                _ => None,
            }
        }
    }

    /// With no reservations, an allocation succeeds whenever some usable range holds an
    /// aligned block of `size` bytes at or after the cursor: the search goes on through
    /// every usable range. (Ranges end well below the top of the address space.)
    pub proof fn lemma_alloc_phys_searches_every_range(self, size: usize, align: usize, ri: int, c: int)
        requires
            self.wf(),
            self.lifecycle@ == State::Online,
            self.reserved@.len() == 0,
            size > 0,
            is_pow2(align),
            0 <= ri < self.usable@.len(),
            c % (align as int) == 0,
            c >= self.alloc_cursor,
            c >= self.usable@[ri].start,
            c + size <= self.usable@[ri].end,
            forall|j: int|
                0 <= j < self.usable@.len() ==> #[trigger] self.usable@[j].start + size + align
                    <= usize::MAX && self.usable@[j].end + size + align <= usize::MAX,
        ensures
            self.spec_alloc_phys(size, align) is Some,
    {
        lemma_scan_finds_from(self, 0, size, align, ri, c);
    }

    /// Allocates `size` bytes aligned to `align` from usable memory, after the cursor and
    /// clear of every reservation, and reserves them.
    pub fn alloc_phys(&mut self, size: usize, align: usize) -> (r: Option<PhysRange>)
        requires
            old(self).wf(),
        ensures
            final(self).wf(),
            final(self).lifecycle == old(self).lifecycle,
            final(self).usable == old(self).usable,
            old(self).lifecycle@ != State::Online || size == 0 || !is_pow2(align) ==> r is None
                && *final(self) == *old(self),
            r matches Some(c) ==> {
                &&& c.end == c.start + size
                &&& (c.start as int) % (align as int) == 0
                &&& c.start >= old(self).alloc_cursor
                &&& old(self).usable.spec_contains_range(c)
                &&& !old(self).reserved.spec_overlaps_range(c)
                &&& final(self).reserved@ == old(self).reserved@.push(c)
                &&& final(self).alloc_cursor == c.end
            },
            r is None ==> final(self).reserved == old(self).reserved,
            old(self).lifecycle@ == State::Online && size > 0 && is_pow2(align) ==> match scan_ranges(
                *old(self),
                0,
                size as int,
                align as int,
            ) {
                ScanOutcome::Found(s) => {
                    &&& final(self).alloc_cursor == s + size
                    &&& old(self).reserved.count < PHYS_RANGE_SET_CAPACITY ==> r == Some(
                        PhysRange { start: s, end: (s + size) as usize },
                    )
                    &&& old(self).reserved.count >= PHYS_RANGE_SET_CAPACITY ==> r is None
                        && final(self).reserved == old(self).reserved
                },
                _ => r is None && *final(self) == *old(self),
            },
            r == old(self).spec_alloc_phys(size, align),
    {
        if self.lifecycle.state() != State::Online || size == 0 || align == 0
            || !is_power_of_two(align) {
            return None;
        }
        let ghost old_self = *self;
        let mut range_index: usize = 0;
        while range_index < self.usable.count()
            invariant
                self.wf(),
                *self == old_self,
                old_self == *old(self),
                old_self.lifecycle@ == State::Online,
                size > 0,
                is_pow2(align),
                align > 0,
                range_index <= self.usable.count,
                scan_ranges(old_self, 0, size as int, align as int) == scan_ranges(
                    old_self,
                    range_index as int,
                    size as int,
                    align as int,
                ),
            decreases self.usable.count - range_index,
        {
            let range = match self.usable.get(range_index) {
                Some(r) => r,
                None => return None,
            };
            let lower = max_usize(range.start(), self.alloc_cursor);
            let mut start = match checked_round_up(lower, align) {
                Some(s) => s,
                None => return None,
            };
            proof {
                lemma_round_up_bounds(lower as int, align as int);
            }
            loop
                invariant
                    self.wf(),
                    *self == old_self,
                old_self == *old(self),
                    old_self.lifecycle@ == State::Online,
                    size > 0,
                    is_pow2(align),
                align > 0,
                    range_index < self.usable.count,
                    range == self.usable@[range_index as int],
                    (start as int) % (align as int) == 0,
                    start >= self.alloc_cursor,
                    start >= range.start,
                    scan_ranges(old_self, 0, size as int, align as int) == match scan_range(
                        old_self.reserved,
                        range,
                        start as int,
                        size as int,
                        align as int,
                    ) {
                        ScanOutcome::Exhausted => scan_ranges(
                            old_self,
                            range_index + 1,
                            size as int,
                            align as int,
                        ),
                        other => other,
                    },
                ensures
                    scan_ranges(old_self, 0, size as int, align as int) == scan_ranges(
                        old_self,
                        range_index + 1,
                        size as int,
                        align as int,
                    ),
                decreases usize::MAX - start,
            {
                let end = match start.checked_add(size) {
                    Some(e) => e,
                    None => return None,
                };
                if end > range.end() {
                    break;
                }
                let candidate = PhysRange::new(start, end);
                if !self.reserved.overlaps_range(candidate) {
                    assert(self.usable.spec_contains_range(candidate)) by {
                        assert(self.usable@[range_index as int].start <= candidate.start);
                    }
                    self.alloc_cursor = end;
                    if self.reserved.push(candidate) {
                        return Some(candidate);
                    }
                    return None;
                }
                let next = match checked_round_up(end, align) {
                    Some(s) => s,
                    None => return None,
                };
                proof {
                    lemma_round_up_bounds(end as int, align as int);
                }
                start = next;
            }
            range_index += 1;
        }
        None
    }

    /// Takes the usable ranges over from the physical memory description.
    pub fn preset(
        &mut self,
        early_dtb_state: State,
        physical_memory: &PhysicalMemory,
        raw_dtb_state: State,
    ) -> (r: EventResult)
        ensures
            early_dtb_state != State::Prepared || physical_memory.lifecycle@ != State::Online
                || raw_dtb_state != State::Ready ==> r == Err::<(), EventError>(
                condition_error(
                    LifecycleEvent::Preset,
                    old(self).lifecycle@,
                    State::Base,
                    State::Prepared,
                ),
            ) && *final(self) == *old(self),
            early_dtb_state == State::Prepared && physical_memory.lifecycle@ == State::Online
                && raw_dtb_state == State::Ready ==> r == transition_result(
                LifecycleEvent::Preset,
                old(self).lifecycle@,
                State::Base,
                State::Prepared,
            ) && final(self).lifecycle@ == transition_state(
                old(self).lifecycle@,
                State::Base,
                State::Prepared,
            ) && *final(self) == (MemBlock {
                usable: physical_memory.ram,
                lifecycle: final(self).lifecycle,
                ..*old(self)
            }),
    {
        if early_dtb_state != State::Prepared || physical_memory.state() != State::Online
            || raw_dtb_state != State::Ready {
            return failed_condition(
                LifecycleEvent::Preset,
                self.lifecycle.state(),
                State::Base,
                State::Prepared,
            );
        }
        self.usable = *physical_memory.ram();
        self.lifecycle.transition(LifecycleEvent::Preset, State::Base, State::Prepared)
    }

    /// The conditions under which `setup` reserves the kernel image and the device tree.
    pub open spec fn spec_setup_ready(
        &self,
        early_dtb_state: State,
        kernel_image_state: State,
        kernel_start_phys: Option<usize>,
        kernel_end_phys: Option<usize>,
        raw_dtb: &RawDtb,
        config_state: State,
        physical_memory_state: State,
    ) -> bool {
        &&& kernel_start_phys is Some
        &&& kernel_end_phys is Some
        &&& early_dtb_state == State::Ready
        &&& self.lifecycle@ == State::Prepared
        &&& kernel_image_state == State::Online
        &&& raw_dtb.lifecycle@ == State::Ready
        &&& config_state == State::Online
        &&& physical_memory_state == State::Online
        &&& self.usable.spec_contains_range(
            PhysRange { start: kernel_start_phys->0, end: kernel_end_phys->0 },
        )
        &&& self.usable.spec_contains_range(raw_dtb.range)
    }

    /// Reserves the early device-tree reservations, the kernel image (given by its physical
    /// bounds, where the kernel image could translate them) and the device tree blob.
    pub fn setup(
        &mut self,
        early_dtb_state: State,
        early_dtb_reserved: &PhysRangeSet,
        kernel_image_state: State,
        kernel_start_phys: Option<usize>,
        kernel_end_phys: Option<usize>,
        raw_dtb: &RawDtb,
        config_state: State,
        physical_memory_state: State,
    ) -> (r: EventResult)
        requires
            old(self).wf(),
            early_dtb_reserved.wf(),
        ensures
            final(self).wf(),
            !old(self).spec_setup_ready(
                early_dtb_state,
                kernel_image_state,
                kernel_start_phys,
                kernel_end_phys,
                raw_dtb,
                config_state,
                physical_memory_state,
            ) ==> r == Err::<(), EventError>(
                condition_error(
                    LifecycleEvent::Setup,
                    old(self).lifecycle@,
                    State::Prepared,
                    State::Ready,
                ),
            ) && *final(self) == *old(self),
            old(self).spec_setup_ready(
                early_dtb_state,
                kernel_image_state,
                kernel_start_phys,
                kernel_end_phys,
                raw_dtb,
                config_state,
                physical_memory_state,
            ) ==> {
                let kernel = PhysRange { start: kernel_start_phys->0, end: kernel_end_phys->0 };
                if early_dtb_reserved.count + 2 <= PHYS_RANGE_SET_CAPACITY {
                    &&& r == Ok::<(), EventError>(())
                    &&& final(self).lifecycle@ == State::Ready
                    &&& final(self).reserved@ == early_dtb_reserved@.push(kernel).push(
                        raw_dtb.range,
                    )
                    &&& final(self).usable == old(self).usable
                    &&& final(self).alloc_cursor == old(self).alloc_cursor
                } else {
                    &&& r == Err::<(), EventError>(
                        condition_error(
                            LifecycleEvent::Setup,
                            State::Prepared,
                            State::Prepared,
                            State::Ready,
                        ),
                    )
                    &&& final(self).lifecycle == old(self).lifecycle
                    &&& final(self).usable == old(self).usable
                    &&& final(self).alloc_cursor == old(self).alloc_cursor
                }
            },
    {
        let kernel_start = match kernel_start_phys {
            Some(v) => v,
            None => return self.failed_setup(),
        };
        let kernel_end = match kernel_end_phys {
            Some(v) => v,
            None => return self.failed_setup(),
        };
        if early_dtb_state != State::Ready || self.lifecycle.state() != State::Prepared
            || kernel_image_state != State::Online || raw_dtb.state() != State::Ready
            || config_state != State::Online || physical_memory_state != State::Online
            || !self.usable.contains_range(PhysRange::new(kernel_start, kernel_end))
            || !self.usable.contains_range(raw_dtb.range()) {
            return self.failed_setup();
        }
        self.reserved = *early_dtb_reserved;
        if !self.reserved.push(PhysRange::new(kernel_start, kernel_end)) {
            return self.failed_setup();
        }
        if !self.reserved.push(raw_dtb.range()) {
            return self.failed_setup();
        }
        self.lifecycle.transition(LifecycleEvent::Setup, State::Prepared, State::Ready)
    }

    /// Opens allocation once virtual memory is up.
    pub fn enable(&mut self, vm_state: State) -> (r: EventResult)
        ensures
            vm_state != State::Online ==> r == Err::<(), EventError>(
                condition_error(
                    LifecycleEvent::Enable,
                    old(self).lifecycle@,
                    State::Ready,
                    State::Online,
                ),
            ) && *final(self) == *old(self),
            vm_state == State::Online ==> r == transition_result(
                LifecycleEvent::Enable,
                old(self).lifecycle@,
                State::Ready,
                State::Online,
            ) && final(self).lifecycle@ == transition_state(
                old(self).lifecycle@,
                State::Ready,
                State::Online,
            ) && *final(self) == (MemBlock { lifecycle: final(self).lifecycle, ..*old(self) }),
    {
        if vm_state != State::Online {
            return failed_condition(
                LifecycleEvent::Enable,
                self.lifecycle.state(),
                State::Ready,
                State::Online,
            );
        }
        self.lifecycle.transition(LifecycleEvent::Enable, State::Ready, State::Online)
    }

    fn failed_setup(&self) -> (r: EventResult)
        ensures
            r == Err::<(), EventError>(
                condition_error(
                    LifecycleEvent::Setup,
                    self.lifecycle@,
                    State::Prepared,
                    State::Ready,
                ),
            ),
    {
        failed_condition(
            LifecycleEvent::Setup,
            self.lifecycle.state(),
            State::Prepared,
            State::Ready,
        )
    }
}

} // verus!
