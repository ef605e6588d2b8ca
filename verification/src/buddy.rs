//! The buddy free lists: per zone and per order, a doubly linked list of free blocks threaded
//! through the page metadata records, with counters of free blocks and free pages.
use vstd::prelude::*;
use vstd::arithmetic::power2::{pow2, lemma2_to64, lemma_pow2_pos, lemma_pow2_strictly_increases};
use vstd::bits::{lemma_usize_pow2_no_overflow, lemma_usize_shl_is_mul};
use crate::arith::{checked_round_up, checked_round_up_spec, is_pow2, is_power_of_two,
    lemma_align_masks, max_usize, min_usize, round_down, round_down_spec, lemma_round_down_bounds,
    lemma_round_up_bounds, max_spec, min_spec, round_up_spec};
use crate::boot_facts::ZoneKind;
use crate::memblock::MemBlock;
use crate::mm_page::{PageMetadata, PageMetadataMap, PageRef, Pfn, BUDDY_INVALID_INDEX};
use crate::mm_topology::{phys_to_pfn_value, BootZonelistSet, ZoneRef};
use crate::raw_dtb::PhysRange;
use crate::state::State;

verus! {

pub const BUDDY_ORDER_COUNT: usize = 11;

/// Zones times orders.
pub const BUDDY_AREA_COUNT: usize = 33;

/// The pages in a block of `order`.
pub open spec fn order_pages(order: int) -> int {
    pow2(order as nat) as int
}

/// The pages in a block of `order`, for an order the allocator serves.
pub fn block_pages(order: usize) -> (r: usize)
    requires
        order < BUDDY_ORDER_COUNT,
    ensures
        r == order_pages(order as int),
        1 <= r <= 1024,
{
    proof {
        lemma2_to64();
        lemma_pow2_pos(order as nat);
        if order < 10 {
            lemma_pow2_strictly_increases(order as nat, 10);
        }
        lemma_usize_pow2_no_overflow(order as nat);
        lemma_usize_shl_is_mul(1, order);
    }
    1usize << order
}

/// The free list of one order in one zone.
#[derive(Clone, Copy, PartialEq, Eq, Structural, Debug)]
pub struct BuddyFreeArea {
    pub head_index: usize,
    pub nr_free: usize,
}

impl BuddyFreeArea {
    pub open spec fn spec_empty() -> BuddyFreeArea {
        BuddyFreeArea { head_index: BUDDY_INVALID_INDEX, nr_free: 0 }
    }

    pub fn empty() -> (r: Self)
        ensures
            r == Self::spec_empty(),
    {
        Self { head_index: BUDDY_INVALID_INDEX, nr_free: 0 }
    }
}

/// The free pages counted by the lists of zone `z`, orders below `n`.
pub open spec fn zone_pages(s: Seq<BuddyFreeArea>, z: int, n: int) -> int
    decreases n,
{
    if n <= 0 {
        0
    } else {
        zone_pages(s, z, n - 1) + s[z * 11 + (n - 1)].nr_free * order_pages(n - 1)
    }
}

/// The free blocks counted by the lists of zone `z`, orders below `n`.
pub open spec fn zone_blocks(s: Seq<BuddyFreeArea>, z: int, n: int) -> int
    decreases n,
{
    if n <= 0 {
        0
    } else {
        zone_blocks(s, z, n - 1) + s[z * 11 + (n - 1)].nr_free
    }
}

pub open spec fn total_pages(s: Seq<BuddyFreeArea>) -> int {
    zone_pages(s, 0, 11) + zone_pages(s, 1, 11) + zone_pages(s, 2, 11)
}

pub open spec fn total_blocks(s: Seq<BuddyFreeArea>) -> int {
    zone_blocks(s, 0, 11) + zone_blocks(s, 1, 11) + zone_blocks(s, 2, 11)
}

/// The buddy of the block of `order` at `pfn` lies one block away from it, on one side.
proof fn lemma_buddy_distance(pfn: usize, order: usize)
    requires
        order < BUDDY_ORDER_COUNT,
    ensures
        ({
            let b = pfn ^ (order_pages(order as int) as usize);
            b > pfn && b - pfn == order_pages(order as int) || b < pfn && pfn - b == order_pages(
                order as int,
            )
        }),
{
    vstd::bits::lemma_usize_pow2_no_overflow(order as nat);
    vstd::bits::lemma_usize_shl_is_mul(1, order);
    let h: usize = 1usize << order;
    assert(h == order_pages(order as int));
    assert(((pfn & h) == 0usize ==> (pfn ^ h) > pfn && (pfn ^ h) - pfn == h) && ((pfn & h)
        != 0usize ==> (pfn ^ h) < pfn && pfn - (pfn ^ h) == h)) by (bit_vector)
        requires
            h == 1usize << order,
            order < 11usize,
    ;
}

proof fn lemma_term_nonneg(a: int, b: int)
    requires
        a >= 0,
        b >= 0,
    ensures
        a * b >= 0,
{
    assert(a * b >= 0) by (nonlinear_arith)
        requires
            a >= 0,
            b >= 0,
    ;
}

/// Changing one list counter moves the sums of its zone by the change times the block size.
proof fn lemma_zone_update(s: Seq<BuddyFreeArea>, k: int, v: BuddyFreeArea, z: int, n: int)
    requires
        s.len() == BUDDY_AREA_COUNT,
        0 <= k < BUDDY_AREA_COUNT,
        0 <= z < 3,
        0 <= n <= 11,
    ensures
        zone_pages(s.update(k, v), z, n) == zone_pages(s, z, n) + (if z * 11 <= k < z * 11 + n {
            (v.nr_free - s[k].nr_free) * order_pages(k - z * 11)
        } else {
            0
        }),
        zone_blocks(s.update(k, v), z, n) == zone_blocks(s, z, n) + (if z * 11 <= k < z * 11
            + n {
            v.nr_free - s[k].nr_free
        } else {
            0
        }),
    decreases n,
{
    if n > 0 {
        lemma_zone_update(s, k, v, z, n - 1);
        let j = z * 11 + (n - 1);
        if j == k {
            let p = order_pages(n - 1);
            let a = v.nr_free as int;
            let b = s[k].nr_free as int;
            assert(a * p - b * p == (a - b) * p) by (nonlinear_arith);
        }
    }
}

/// Changing one list counter moves the totals by the change times the block size.
pub proof fn lemma_total_update(s: Seq<BuddyFreeArea>, k: int, v: BuddyFreeArea)
    requires
        s.len() == BUDDY_AREA_COUNT,
        0 <= k < BUDDY_AREA_COUNT,
    ensures
        total_pages(s.update(k, v)) == total_pages(s) + (v.nr_free - s[k].nr_free) * order_pages(
            k % 11,
        ),
        total_blocks(s.update(k, v)) == total_blocks(s) + (v.nr_free - s[k].nr_free),
{
    lemma_zone_update(s, k, v, 0, 11);
    lemma_zone_update(s, k, v, 1, 11);
    lemma_zone_update(s, k, v, 2, 11);
}

/// The sums of a zone grow with the number of orders counted.
proof fn lemma_zone_monotone(s: Seq<BuddyFreeArea>, z: int, n: int, m: int)
    requires
        s.len() == BUDDY_AREA_COUNT,
        0 <= z < 3,
        0 <= n <= m <= 11,
    ensures
        0 <= zone_pages(s, z, n) <= zone_pages(s, z, m),
        0 <= zone_blocks(s, z, n) <= zone_blocks(s, z, m),
    decreases m,
{
    if m > 0 {
        if n < m {
            lemma_zone_monotone(s, z, n, m - 1);
        } else {
            lemma_zone_monotone(s, z, n - 1, m - 1);
        }
        lemma_pow2_pos((m - 1) as nat);
        lemma_term_nonneg(s[z * 11 + (m - 1)].nr_free as int, order_pages(m - 1));
    }
}

/// A zone with no free blocks on its lists has no free pages on them.
proof fn lemma_zone_no_blocks_no_pages(s: Seq<BuddyFreeArea>, z: int, n: int)
    requires
        s.len() == BUDDY_AREA_COUNT,
        0 <= z < 3,
        0 <= n <= 11,
        zone_blocks(s, z, n) == 0,
    ensures
        zone_pages(s, z, n) == 0,
    decreases n,
{
    if n > 0 {
        lemma_zone_monotone(s, z, n - 1, n - 1);
        lemma_zone_no_blocks_no_pages(s, z, n - 1);
        assert(s[z * 11 + (n - 1)].nr_free == 0);
        assert(s[z * 11 + (n - 1)].nr_free * order_pages(n - 1) == 0) by (nonlinear_arith)
            requires
                s[z * 11 + (n - 1)].nr_free == 0,
        ;
    }
}

/// Lists with free pages hold at least one free block.
pub proof fn lemma_pages_need_blocks(s: Seq<BuddyFreeArea>)
    requires
        s.len() == BUDDY_AREA_COUNT,
        total_pages(s) != 0,
    ensures
        total_blocks(s) != 0,
{
    lemma_zone_monotone(s, 0, 0, 11);
    lemma_zone_monotone(s, 1, 0, 11);
    lemma_zone_monotone(s, 2, 0, 11);
    if total_blocks(s) == 0 {
        lemma_zone_no_blocks_no_pages(s, 0, 11);
        lemma_zone_no_blocks_no_pages(s, 1, 11);
        lemma_zone_no_blocks_no_pages(s, 2, 11);
    }
}

/// Each list contributes its blocks and pages to the totals.
pub proof fn lemma_total_covers(s: Seq<BuddyFreeArea>, k: int)
    requires
        s.len() == BUDDY_AREA_COUNT,
        0 <= k < BUDDY_AREA_COUNT,
    ensures
        total_pages(s) >= s[k].nr_free * order_pages(k % 11),
        total_blocks(s) >= s[k].nr_free,
        total_pages(s) >= 0,
        total_blocks(s) >= 0,
{
    let z = k / 11;
    let o = k % 11;
    lemma_zone_monotone(s, 0, 0, 11);
    lemma_zone_monotone(s, 1, 0, 11);
    lemma_zone_monotone(s, 2, 0, 11);
    lemma_zone_monotone(s, z, 0, o);
    lemma_zone_monotone(s, z, o + 1, 11);
    lemma_pow2_pos(o as nat);
    lemma_term_nonneg(s[k].nr_free as int, order_pages(o));
}


/// A block of `order` at frame `pfn` lies inside `range`, with every address representable.
pub open spec fn block_fits_spec(pfn: usize, order: usize, page_size: usize, range: PhysRange) -> bool {
    &&& order < BUDDY_ORDER_COUNT
    &&& is_pow2(page_size)
    &&& pfn * page_size <= usize::MAX
    &&& page_size * order_pages(order as int) <= usize::MAX
    &&& pfn * page_size + page_size * order_pages(order as int) <= usize::MAX
    &&& pfn * page_size >= range.start
    &&& pfn * page_size + page_size * order_pages(order as int) <= range.end
}

pub fn block_fits_in_range(pfn: usize, order: usize, page_size: usize, range: PhysRange) -> (r:
    bool)
    ensures
        r == block_fits_spec(pfn, order, page_size, range),
{
    proof {
        if is_pow2(page_size) {
            lemma_align_masks(0, page_size);
        }
    }
    if order >= BUDDY_ORDER_COUNT || page_size == 0 || !is_power_of_two(page_size) {
        return false;
    }
    let start = match pfn.checked_mul(page_size) {
        Some(s) => s,
        None => return false,
    };
    let bytes = match page_size.checked_mul(block_pages(order)) {
        Some(b) => b,
        None => return false,
    };
    let end = match start.checked_add(bytes) {
        Some(e) => e,
        None => return false,
    };
    start >= range.start() && end <= range.end()
}

/// `value` rounded up to the power of two `align`; `None` for any other alignment.
pub open spec fn round_up_value_spec(value: usize, align: usize) -> Option<usize> {
    if !is_pow2(align) {
        None
    } else {
        checked_round_up_spec(value, align)
    }
}

pub fn round_up_value(value: usize, align: usize) -> (r: Option<usize>)
    ensures
        r == round_up_value_spec(value, align),
{
    proof {
        if is_pow2(align) {
            lemma_align_masks(0, align);
        }
    }
    if align == 0 || !is_power_of_two(align) {
        return None;
    }
    checked_round_up(value, align)
}

/// `value` rounded down to the power of two `align`; `None` for any other alignment.
pub fn round_down_value(value: usize, align: usize) -> (r: Option<usize>)
    ensures
        r == (if is_pow2(align) {
            Some(round_down_spec(value as int, align as int) as usize)
        } else {
            None
        }),
{
    proof {
        if is_pow2(align) {
            lemma_align_masks(value, align);
        }
    }
    if align == 0 || !is_power_of_two(align) {
        return None;
    }
    Some(round_down(value, align))
}

/// A block of `order` at frame `pfn` is naturally aligned and no longer than `remaining`.
pub open spec fn buddy_order_fits(pfn: usize, remaining: usize, order: int) -> bool {
    remaining >= order_pages(order) && pfn % (order_pages(order) as usize) == 0
}

/// The block of `order` fits at frame `pfn` within `remaining` frames exactly when it has no
/// more than `remaining` frames (2^order of them) and `pfn` is a multiple of its size.
pub proof fn lemma_buddy_order_fits_meaning(pfn: usize, remaining: usize, order: int)
    requires
        0 <= order < BUDDY_ORDER_COUNT,
    ensures
        buddy_order_fits(pfn, remaining, order) == (remaining as int >= pow2(order as nat) && pfn
            as int % pow2(order as nat) as int == 0),
{
    lemma2_to64();
    lemma_pow2_pos(order as nat);
    if order < 10 {
        lemma_pow2_strictly_increases(order as nat, 10);
    }
}

/// The largest order below the order count whose block fits at `pfn` within `remaining`
/// frames; order 0 where none does.
pub fn largest_buddy_order(pfn: usize, remaining: usize) -> (r: usize)
    ensures
        r < BUDDY_ORDER_COUNT,
        r == 0 || buddy_order_fits(pfn, remaining, r as int),
        forall|o: int| r < o < BUDDY_ORDER_COUNT ==> !#[trigger] buddy_order_fits(pfn, remaining, o),
{
    let mut order: usize = BUDDY_ORDER_COUNT - 1;
    while order != 0
        invariant
            order < BUDDY_ORDER_COUNT,
            forall|o: int| order < o < BUDDY_ORDER_COUNT ==> !#[trigger] buddy_order_fits(pfn, remaining, o),
        decreases order,
    {
        let pages = block_pages(order);
        if remaining >= pages && pfn % pages == 0 {
            return order;
        }
        order -= 1;
    }
    0
}

/// The reserved range overlapping `[start, end)` that starts lowest (the first such where
/// several start alike).
pub fn next_reserved_overlap(memblock: &MemBlock, start: usize, end: usize) -> (r: Option<PhysRange>)
    requires
        memblock.wf(),
    ensures
        r is None <==> !memblock.reserved.spec_overlaps_range(PhysRange { start, end }),
        r matches Some(range) ==> {
            &&& memblock.reserved@.contains(range)
            &&& range.start < end && start < range.end
            &&& forall|i: int|
                0 <= i < memblock.reserved@.len() && #[trigger] memblock.reserved@[i].start < end
                    && start < memblock.reserved@[i].end ==> range.start <= memblock.reserved@[i].start
        },
{
    let reserved_ranges = memblock.reserved_ranges();
    let mut best: Option<PhysRange> = None;
    let mut index: usize = 0;
    while index < reserved_ranges.count()
        invariant
            memblock.wf(),
            *reserved_ranges == memblock.reserved,
            index <= reserved_ranges.count,
            best is None <==> forall|i: int|
                0 <= i < index ==> !(#[trigger] reserved_ranges@[i].start < end && start
                    < reserved_ranges@[i].end),
            best matches Some(b) ==> {
                &&& reserved_ranges@.contains(b)
                &&& b.start < end && start < b.end
                &&& forall|i: int|
                    0 <= i < index && #[trigger] reserved_ranges@[i].start < end && start
                        < reserved_ranges@[i].end ==> b.start <= reserved_ranges@[i].start
            },
        decreases reserved_ranges.count - index,
    {
        let range = match reserved_ranges.get(index) {
            Some(r) => r,
            None => return None,
        };
        if range.start() < end && start < range.end() {
            best = match best {
                Some(current) => if current.start() <= range.start() {
                    Some(current)
                } else {
                    Some(range)
                },
                None => Some(range),
            };
            assert(reserved_ranges@[index as int] == range);
        }
        index += 1;
    }
    proof {
        if best is None {
            assert forall|i: int|
                0 <= i < memblock.reserved@.len() implies !(#[trigger] memblock.reserved@[i].start < end
                    && start < memblock.reserved@[i].end) by {}
        } else {
            let b = best->0;
            let j = choose|j: int| 0 <= j < reserved_ranges@.len() && reserved_ranges@[j] == b;
            assert(memblock.reserved@[j].start < end && start < memblock.reserved@[j].end);
        }
    }
    best
}

/// Frame `p` is managed, has a record, and its record carries no buddy state.
pub open spec fn frame_addable(map: &PageMetadataMap, p: int) -> bool {
    &&& 0 <= p <= usize::MAX
    &&& map.spec_pfn_to_page(Pfn { value: p as usize }) is Some
    &&& {
        let index = map.spec_pfn_to_page(Pfn { value: p as usize })->0.metadata_index;
        &&& map.spec_metadata_by_index(index) is Some
        &&& !map.metadata@[index as int].spec_is_buddy_free()
        &&& !map.metadata@[index as int].spec_is_buddy_allocated()
    }
}

/// The block of `order` at frame `pfn` has no buddy to merge with: it is of the top order, or
/// its buddy lies outside the zone, is not managed, or has a record that is not that of a
/// free block of `order`.
pub open spec fn spec_no_merge(
    pfn: usize,
    order: usize,
    page_size: usize,
    zone_range: PhysRange,
    map: &PageMetadataMap,
) -> bool {
    order + 1 >= BUDDY_ORDER_COUNT || {
        let buddy = pfn ^ (order_pages(order as int) as usize);
        ||| !block_fits_spec(buddy, order, page_size, zone_range)
        ||| map.spec_pfn_to_page(Pfn { value: buddy }) is None
        ||| {
            let bi = map.spec_pfn_to_page(Pfn { value: buddy })->0.metadata_index;
            &&& map.spec_metadata_by_index(bi) is Some
            &&& !(map.metadata@[bi as int].spec_is_buddy_free() && map.metadata@[
                bi as int
            ].buddy_order == order)
        }
    }
}

/// Where freeing the block of `order` at frame `pfn` ends: while the block's buddy of the same
/// order lies in the zone and is a free block of that order, the two merge one order up at
/// the lower frame.
pub open spec fn merge_end(
    pfn: usize,
    order: usize,
    page_size: usize,
    zone_range: PhysRange,
    map: &PageMetadataMap,
) -> (usize, usize)
    decreases BUDDY_ORDER_COUNT - order,
{
    if order + 1 >= BUDDY_ORDER_COUNT || spec_no_merge(pfn, order, page_size, zone_range, map) {
        (pfn, order)
    } else {
        let b = pfn ^ (order_pages(order as int) as usize);
        merge_end(
            if b < pfn {
                b
            } else {
                pfn
            },
            (order + 1) as usize,
            page_size,
            zone_range,
            map,
        )
    }
}

/// The merge ends at an order the allocator serves, with no buddy left to merge with.
pub proof fn lemma_merge_end_stops(
    pfn: usize,
    order: usize,
    page_size: usize,
    zone_range: PhysRange,
    map: &PageMetadataMap,
)
    requires
        order < BUDDY_ORDER_COUNT,
    ensures
        ({
            let e = merge_end(pfn, order, page_size, zone_range, map);
            &&& order <= e.1 < BUDDY_ORDER_COUNT
            &&& spec_no_merge(e.0, e.1, page_size, zone_range, map)
        }),
    decreases BUDDY_ORDER_COUNT - order,
{
    if !(order + 1 >= BUDDY_ORDER_COUNT || spec_no_merge(pfn, order, page_size, zone_range, map)) {
        let b = pfn ^ (order_pages(order as int) as usize);
        lemma_merge_end_stops(
            if b < pfn {
                b
            } else {
                pfn
            },
            (order + 1) as usize,
            page_size,
            zone_range,
            map,
        );
    }
}

/// `after` and `after_map` are the lists and records once the allocated block of `order` at
/// `page` went back to zone `zone_index`: the block merged as `merge_end` says, each buddy it
/// merged with left its list, the merged block heads the list of its order, and no buddy is
/// left to merge with.
pub open spec fn freed_merged(
    before: BuddyFreePageSets,
    after: BuddyFreePageSets,
    before_map: &PageMetadataMap,
    after_map: &PageMetadataMap,
    zone_index: usize,
    zone_range: PhysRange,
    page_size: usize,
    page: PageRef,
    order: usize,
) -> bool {
    let e = merge_end(page.pfn.value, order, page_size, zone_range, before_map);
    let z = zone_index * 11;
    let idx = before_map.spec_pfn_to_page(Pfn { value: e.0 })->0.metadata_index;
    &&& order <= e.1 < BUDDY_ORDER_COUNT
    &&& spec_no_merge(e.0, e.1, page_size, zone_range, before_map)
    &&& after.areas@[z + e.1].head_index == idx
    &&& after.areas@[z + e.1].nr_free == before.areas@[z + e.1].nr_free + 1
    &&& forall|k: int|
        order <= k < e.1 ==> #[trigger] after.areas@[z + k].nr_free == before.areas@[z + k].nr_free - 1
    &&& forall|a: int|
        0 <= a < BUDDY_AREA_COUNT && !(z + order <= a <= z + e.1) ==> #[trigger] after.areas@[a] == before.areas@[a]
    &&& after_map.metadata@[idx as int].spec_is_buddy_free()
    &&& after_map.metadata@[idx as int].buddy_order == e.1
}

/// Record `i` is free in `after` and was not in `before`: a block newly put on a list.
pub open spec fn newly_free(before: &PageMetadataMap, after: &PageMetadataMap, i: int) -> bool {
    &&& 0 <= i < after.metadata@.len()
    &&& after.metadata@[i].spec_is_buddy_free()
    &&& !(i < before.metadata@.len() && before.metadata@[i].spec_is_buddy_free())
}

/// The block of order `o` at frame `p`, with pages of `page_size` bytes, starts at a frame
/// that is a multiple of its size and lies in the bytes `[lo, hi)`.
pub open spec fn block_within(p: int, o: int, page_size: int, lo: int, hi: int) -> bool {
    &&& 0 <= o < BUDDY_ORDER_COUNT
    &&& p >= 0
    &&& p % order_pages(o) == 0
    &&& lo <= p * page_size
    &&& (p + order_pages(o)) * page_size <= hi
}

/// The bytes of the block of order `o` at frame `p`, with pages of `page_size` bytes.
pub open spec fn block_range(p: int, o: int, page_size: int) -> PhysRange {
    PhysRange { start: (p * page_size) as usize, end: ((p + order_pages(o)) * page_size) as usize }
}

/// The block of order `o` at frame `q` lies in the overlap of usable range `ri` of
/// `memblock` and zone range `zone_range`.
pub open spec fn block_in_segment(
    memblock: &MemBlock,
    zone_range: PhysRange,
    ri: int,
    q: int,
    o: int,
    page_size: int,
) -> bool {
    let u = memblock.usable@[ri];
    block_within(
        q,
        o,
        page_size,
        max_spec(u.start as int, zone_range.start as int),
        min_spec(u.end as int, zone_range.end as int),
    )
}

/// Frame `q` lies in a block newly put on a list between `before` and `after`.
pub open spec fn frame_covered(before: &PageMetadataMap, after: &PageMetadataMap, q: int) -> bool {
    exists|i: int|
        #[trigger] newly_free(before, after, i) && before.start_pfn + i <= q < before.start_pfn + i
            + order_pages(after.metadata@[i].buddy_order as int)
}

/// Every reservation of `memblock` ends at or after its start.
pub open spec fn reservations_well_formed(memblock: &MemBlock) -> bool {
    forall|x: int|
        0 <= x < memblock.reserved@.len() ==> #[trigger] memblock.reserved@[x].start
            <= memblock.reserved@[x].end
}

/// The blocks newly put on the lists between `before` and `after` do not overlap.
pub open spec fn blocks_disjoint(before: &PageMetadataMap, after: &PageMetadataMap) -> bool {
    forall|i: int, j: int|
        #[trigger] newly_free(before, after, i) && #[trigger] newly_free(before, after, j) && i
            != j ==> {
            let qi = before.start_pfn + i;
            let qj = before.start_pfn + j;
            qi + order_pages(after.metadata@[i].buddy_order as int) <= qj || qj + order_pages(
                after.metadata@[j].buddy_order as int,
            ) <= qi
        }
}

/// The bytes of page frame `q`, with pages of `page_size` bytes.
pub open spec fn page_range(q: int, page_size: int) -> PhysRange {
    PhysRange { start: (q * page_size) as usize, end: ((q + 1) * page_size) as usize }
}

/// Page frame `q` lies in the overlap of usable range `ri` of `memblock` and zone range
/// `zone_range`.
pub open spec fn page_in_segment(
    memblock: &MemBlock,
    zone_range: PhysRange,
    ri: int,
    q: int,
    page_size: int,
) -> bool {
    let u = memblock.usable@[ri];
    &&& max_spec(u.start as int, zone_range.start as int) <= q * page_size
    &&& (q + 1) * page_size <= min_spec(u.end as int, zone_range.end as int)
}

/// The bytes where usable range `ri` of `memblock` and zone range `zone_range` overlap.
pub open spec fn segment_of(memblock: &MemBlock, zone_range: PhysRange, ri: int) -> (int, int) {
    let u = memblock.usable@[ri];
    (
        max_spec(u.start as int, zone_range.start as int),
        min_spec(u.end as int, zone_range.end as int),
    )
}

/// The overlaps of the usable ranges with the first `zone_fact_count` zone ranges do not
/// overlap one another.
pub open spec fn segments_disjoint(
    memblock: &MemBlock,
    zone_facts: &[ZoneRef; 3],
    zone_fact_count: usize,
) -> bool {
    forall|ri: int, zi: int, rj: int, zj: int|
        0 <= ri < memblock.usable@.len() && 0 <= rj < memblock.usable@.len() && 0 <= zi
            < zone_fact_count && 0 <= zj < zone_fact_count && (ri != rj || zi != zj) ==> {
            let a = #[trigger] segment_of(memblock, zone_facts@[zi].range, ri);
            let b = #[trigger] segment_of(memblock, zone_facts@[zj].range, rj);
            a.1 <= a.0 || b.1 <= b.0 || a.1 <= b.0 || b.1 <= a.0
        }
}

/// The records free in `before` are free in `after` with the same flags and order.
pub open spec fn keeps_free_records(before: &PageMetadataMap, after: &PageMetadataMap) -> bool {
    forall|i: int|
        0 <= i < before.metadata@.len() && #[trigger] before.metadata@[i].spec_is_buddy_free()
            ==> i < after.metadata@.len() && after.metadata@[i].flags == before.metadata@[i].flags
            && after.metadata@[i].buddy_order == before.metadata@[i].buddy_order
}

/// A free block as the allocator reports it.
#[derive(Clone, Copy, PartialEq, Eq, Structural, Debug)]
pub struct BuddyFreeBlock {
    pub zone: ZoneKind,
    pub order: usize,
    pub page: PageRef,
}

impl BuddyFreeBlock {
    pub fn zone(self) -> (r: ZoneKind)
        ensures
            r == self.zone,
    {
        self.zone
    }

    pub fn order(self) -> (r: usize)
        ensures
            r == self.order,
    {
        self.order
    }

    pub fn page(self) -> (r: PageRef)
        ensures
            r == self.page,
    {
        self.page
    }

    pub fn pages(self) -> (r: usize)
        requires
            self.order < BUDDY_ORDER_COUNT,
        ensures
            r == order_pages(self.order as int),
    {
        block_pages(self.order)
    }
}

/// The record at `index` with its forward link replaced.
pub open spec fn with_next(meta: Seq<PageMetadata>, index: usize, next: usize) -> Seq<
    PageMetadata,
> {
    meta.update(index as int, PageMetadata { buddy_next: next, ..meta[index as int] })
}

/// The record at `index` with its backward link replaced.
pub open spec fn with_prev(meta: Seq<PageMetadata>, index: usize, prev: usize) -> Seq<
    PageMetadata,
> {
    meta.update(index as int, PageMetadata { buddy_prev: prev, ..meta[index as int] })
}

/// The records after the predecessor of the unlinked record `m` skips it.
pub open spec fn unlink_prev(meta: Seq<PageMetadata>, m: PageMetadata) -> Seq<PageMetadata> {
    if m.buddy_prev == BUDDY_INVALID_INDEX {
        meta
    } else {
        with_next(meta, m.buddy_prev, m.buddy_next)
    }
}

/// The records after the successor of the unlinked record `m` points back past it.
pub open spec fn unlink_next(meta: Seq<PageMetadata>, m: PageMetadata) -> Seq<PageMetadata> {
    if m.buddy_next == BUDDY_INVALID_INDEX {
        meta
    } else {
        with_prev(meta, m.buddy_next, m.buddy_prev)
    }
}

/// Two states of the lists with the same zones and the same readiness.
pub open spec fn keeps_zones(a: BuddyFreePageSets, b: BuddyFreePageSets) -> bool {
    a.zone_count == b.zone_count && a.zone_kinds == b.zone_kinds && a.ready == b.ready
}

/// The free lists of every populated zone.
#[derive(Clone, Copy)]
pub struct BuddyFreePageSets {
    pub ready: bool,
    pub zone_kinds: [Option<ZoneKind>; 3],
    pub zone_count: usize,
    /// The list of zone `z` and order `o` is at `z * 11 + o`.
    pub areas: [BuddyFreeArea; 33],
    pub total_free_pages: usize,
    pub free_block_count: usize,
}

impl BuddyFreePageSets {
    /// The counters agree with the lists: the free pages are the sum over the lists of their
    /// length times their block size, and the free blocks the sum of their lengths.
    pub open spec fn inv(&self) -> bool {
        &&& self.zone_count <= 3
        &&& self.total_free_pages == total_pages(self.areas@)
        &&& self.free_block_count == total_blocks(self.areas@)
    }

    pub open spec fn area(&self, zone_index: int, order: int) -> BuddyFreeArea {
        self.areas@[zone_index * 11 + order]
    }

    proof fn lemma_empty_sums(s: Seq<BuddyFreeArea>, z: int, n: int)
        requires
            s.len() == BUDDY_AREA_COUNT,
            forall|k: int| 0 <= k < BUDDY_AREA_COUNT ==> #[trigger] s[k].nr_free == 0,
            0 <= z < 3,
            0 <= n <= 11,
        ensures
            zone_pages(s, z, n) == 0,
            zone_blocks(s, z, n) == 0,
        decreases n,
    {
        if n > 0 {
            Self::lemma_empty_sums(s, z, n - 1);
            assert(s[z * 11 + (n - 1)].nr_free == 0);
        }
    }

    pub fn new() -> (s: Self)
        ensures
            s.inv(),
            !s.ready,
            s.zone_count == 0,
            s.total_free_pages == 0,
            s.free_block_count == 0,
            forall|k: int| 0 <= k < BUDDY_AREA_COUNT ==> #[trigger] s.areas@[k]
                == BuddyFreeArea::spec_empty(),
    {
        let s = Self {
            ready: false,
            zone_kinds: [None, None, None],
            zone_count: 0,
            areas: [BuddyFreeArea { head_index: BUDDY_INVALID_INDEX, nr_free: 0 }; 33],
            total_free_pages: 0,
            free_block_count: 0,
        };
        proof {
            assert forall|k: int| 0 <= k < BUDDY_AREA_COUNT implies #[trigger] s.areas@[k].nr_free
                == 0 by {
                assert(s.areas@[k] == BuddyFreeArea::spec_empty());
            }
            Self::lemma_empty_sums(s.areas@, 0, 11);
            Self::lemma_empty_sums(s.areas@, 1, 11);
            Self::lemma_empty_sums(s.areas@, 2, 11);
        }
        s
    }

    pub fn ready(&self) -> (r: bool)
        ensures
            r == self.ready,
    {
        self.ready
    }

    pub fn total_free_pages(&self) -> (r: usize)
        ensures
            r == self.total_free_pages,
    {
        self.total_free_pages
    }

    pub fn free_block_count(&self) -> (r: usize)
        ensures
            r == self.free_block_count,
    {
        self.free_block_count
    }

    /// The position of the first populated zone of `kind`.
    pub open spec fn spec_zone_index(&self, kind: ZoneKind) -> Option<usize> {
        if exists|i: int| 0 <= i < self.zone_count && self.zone_kinds@[i] == Some(kind) {
            Some(
                (choose|i: int|
                    0 <= i < self.zone_count && self.zone_kinds@[i] == Some(kind) && forall|
                        j: int,
                    |
                        0 <= j < i ==> self.zone_kinds@[j] != Some(kind)) as usize,
            )
        } else {
            None
        }
    }

    /// The list of order `o` of the zone of `kind` is not empty.
    pub open spec fn zone_area_nonempty(&self, kind: Option<ZoneKind>, o: int) -> bool {
        match kind {
            Some(k) => match self.spec_zone_index(k) {
                Some(z) => self.areas@[z * 11 + o].nr_free != 0,
                None => false,
            },
            None => false,
        }
    }

    /// Some zone of the fallback list holds a free block of `order` or larger.
    pub open spec fn has_free_block_for(&self, zonelist: BootZonelistSet, order: int) -> bool {
        exists|f: int, o: int|
            0 <= f < zonelist.fallback_count && order <= o < BUDDY_ORDER_COUNT
                && #[trigger] self.zone_area_nonempty(zonelist.fallback@[f], o)
    }

    /// The head record of the list of order `o` in the zone of fallback entry `f`.
    pub open spec fn candidate_head(&self, zonelist: BootZonelistSet, f: int, o: int) -> usize {
        self.area(self.spec_zone_index(zonelist.fallback@[f]->0)->0 as int, o).head_index
    }

    /// Fallback entry `f` and order `o` are where `alloc_pages` of `order` takes its block:
    /// every entry up to `f` names a zone kind, every list tried before is empty, and the list
    /// of order `o` in the zone of entry `f` is not.
    pub open spec fn is_first_candidate(
        &self,
        zonelist: BootZonelistSet,
        order: int,
        f: int,
        o: int,
    ) -> bool {
        &&& 0 <= f < zonelist.fallback_count
        &&& order <= o < BUDDY_ORDER_COUNT
        &&& self.zone_area_nonempty(zonelist.fallback@[f], o)
        &&& forall|g: int| 0 <= g <= f ==> (#[trigger] zonelist.fallback@[g]) is Some
        &&& forall|g: int, p: int|
            0 <= g < f && order <= p < BUDDY_ORDER_COUNT ==> !#[trigger] self.zone_area_nonempty(
                zonelist.fallback@[g],
                p,
            )
        &&& forall|p: int|
            order <= p < o ==> !#[trigger] self.zone_area_nonempty(zonelist.fallback@[f], p)
    }

    /// Whether `alloc_pages` of `order` owes the head of the list of order `o` in the zone of
    /// fallback entry `f`, its first candidate: the lists and the fallback list are ready,
    /// the head can be unlinked, every other frame of its block is managed with a record that
    /// carries no buddy state, the lower lists of the zone that take the split-off halves
    /// have heads with records or none, and the block counter has room for those halves.
    pub open spec fn spec_alloc_owed(
        &self,
        zonelist: BootZonelistSet,
        order: usize,
        map: &PageMetadataMap,
        f: int,
        o: int,
    ) -> bool {
        let z = self.spec_zone_index(zonelist.fallback@[f]->0)->0;
        let head = self.candidate_head(zonelist, f, o);
        &&& self.ready
        &&& zonelist.lifecycle@ == State::Ready
        &&& map.lifecycle@ == State::Ready
        &&& order < BUDDY_ORDER_COUNT
        &&& self.is_first_candidate(zonelist, order as int, f, o)
        &&& head != BUDDY_INVALID_INDEX
        &&& self.spec_can_remove(z, o as usize, head, map)
        &&& forall|j: int|
            head < j < head + order_pages(o) ==> #[trigger] frame_addable(map, map.start_pfn + j)
        &&& forall|k: int|
            order <= k < o ==> #[trigger] self.area(z as int, k).head_index == BUDDY_INVALID_INDEX
                || map.spec_metadata_by_index(self.area(z as int, k).head_index) is Some
        &&& self.free_block_count + BUDDY_ORDER_COUNT <= usize::MAX
    }

    pub fn zone_index(&self, kind: ZoneKind) -> (r: Option<usize>)
        requires
            self.inv(),
        ensures
            r == self.spec_zone_index(kind),
            r matches Some(i) ==> i < self.zone_count && self.zone_kinds@[i as int] == Some(kind),
    {
        let mut index: usize = 0;
        while index < self.zone_count
            invariant
                self.inv(),
                index <= self.zone_count,
                forall|j: int| 0 <= j < index ==> self.zone_kinds@[j] != Some(kind),
            decreases self.zone_count - index,
        {
            let matches = match self.zone_kinds[index] {
                Some(k) => k == kind,
                None => false,
            };
            if matches {
                proof {
                    let i = index as int;
                    assert(0 <= i < self.zone_count && self.zone_kinds@[i] == Some(kind)
                        && forall|j: int| 0 <= j < i ==> self.zone_kinds@[j] != Some(kind));
                    let c = choose|i: int|
                        0 <= i < self.zone_count && self.zone_kinds@[i] == Some(kind) && forall|
                            j: int,
                        |
                            0 <= j < i ==> self.zone_kinds@[j] != Some(kind);
                    if c < i {
                    } else if c > i {
                        assert(self.zone_kinds@[i] != Some(kind));
                    }
                }
                return Some(index);
            }
            index += 1;
        }
        None
    }

    /// The free blocks on the list of `order` in the zone of `kind`.
    pub fn order_free_count(&self, kind: ZoneKind, order: usize) -> (r: Option<usize>)
        requires
            self.inv(),
        ensures
            r == (if order >= BUDDY_ORDER_COUNT {
                None
            } else {
                match self.spec_zone_index(kind) {
                    Some(z) => Some(self.area(z as int, order as int).nr_free),
                    None => None,
                }
            }),
    {
        if order >= BUDDY_ORDER_COUNT {
            return None;
        }
        let z = match self.zone_index(kind) {
            Some(z) => z,
            None => return None,
        };
        Some(self.areas[z * 11 + order].nr_free)
    }

    /// The free pages on all lists of the zone of `kind`.
    pub fn zone_free_pages(&self, kind: ZoneKind) -> (r: Option<usize>)
        requires
            self.inv(),
        ensures
            r == (match self.spec_zone_index(kind) {
                Some(z) => Some(zone_pages(self.areas@, z as int, 11) as usize),
                None => None,
            }),
            r matches Some(p) ==> p as int == zone_pages(
                self.areas@,
                self.spec_zone_index(kind)->0 as int,
                11,
            ),
    {
        let z = match self.zone_index(kind) {
            Some(z) => z,
            None => return None,
        };
        proof {
            lemma_zone_monotone(self.areas@, 0, 0, 11);
            lemma_zone_monotone(self.areas@, 1, 0, 11);
            lemma_zone_monotone(self.areas@, 2, 0, 11);
        }
        let mut pages: usize = 0;
        let mut order: usize = 0;
        while order < BUDDY_ORDER_COUNT
            invariant
                self.inv(),
                z < 3,
                order <= BUDDY_ORDER_COUNT,
                pages == zone_pages(self.areas@, z as int, order as int),
                zone_pages(self.areas@, z as int, 11) <= self.total_free_pages,
            decreases BUDDY_ORDER_COUNT - order,
        {
            proof {
                lemma_zone_monotone(self.areas@, z as int, order + 1, 11);
                lemma_zone_monotone(self.areas@, z as int, order as int, order + 1);
            }
            let block = block_pages(order);
            let nr = self.areas[z * 11 + order].nr_free;
            let term = match nr.checked_mul(block) {
                Some(t) => t,
                None => return None,
            };
            pages = match pages.checked_add(term) {
                Some(p) => p,
                None => return None,
            };
            order += 1;
        }
        Some(pages)
    }

    /// Whether `add_free_block` links a block of `order` at frame `pfn` into the list of
    /// zone `zone_index`: the frame is managed and its record carries no buddy state, the
    /// list head (if any) has a record, and no counter overflows.
    pub open spec fn spec_can_add(
        &self,
        zone_index: usize,
        order: usize,
        pfn: usize,
        map: &PageMetadataMap,
    ) -> bool {
        &&& zone_index < self.zone_count
        &&& order < BUDDY_ORDER_COUNT
        &&& map.spec_pfn_to_page(Pfn { value: pfn }) is Some
        &&& {
            let index = map.spec_pfn_to_page(Pfn { value: pfn })->0.metadata_index;
            let area = self.area(zone_index as int, order as int);
            &&& map.spec_metadata_by_index(index) is Some
            &&& !map.metadata@[index as int].spec_is_buddy_free()
            &&& !map.metadata@[index as int].spec_is_buddy_allocated()
            &&& area.head_index == BUDDY_INVALID_INDEX || map.spec_metadata_by_index(
                area.head_index,
            ) is Some
            &&& area.nr_free + 1 <= usize::MAX
            &&& self.total_free_pages + order_pages(order as int) <= usize::MAX
            &&& self.free_block_count + 1 <= usize::MAX
        }
    }

    /// Whether the frames `[lo, hi)` can all be added to the lists of zone `zone_index`: each
    /// frame can head a block, every list of the zone has a head with a record or none, and
    /// the counters have room for every frame.
    pub open spec fn spec_can_add_frames(
        &self,
        zone_index: usize,
        lo: int,
        hi: int,
        map: &PageMetadataMap,
    ) -> bool {
        &&& zone_index < self.zone_count
        &&& forall|p: int| lo <= p < hi ==> #[trigger] frame_addable(map, p)
        &&& forall|o: int|
            0 <= o < BUDDY_ORDER_COUNT ==> #[trigger] self.area(zone_index as int, o).head_index
                == BUDDY_INVALID_INDEX || map.spec_metadata_by_index(
                self.area(zone_index as int, o).head_index,
            ) is Some
        &&& self.total_free_pages + (hi - lo) <= usize::MAX
        &&& self.free_block_count + (hi - lo) <= usize::MAX
    }

    /// Pushes the block of `order` at frame `pfn` on the front of its list.
    pub fn add_free_block(
        &mut self,
        zone_index: usize,
        order: usize,
        pfn: usize,
        map: &mut PageMetadataMap,
    ) -> (r: bool)
        requires
            old(self).inv(),
            old(map).wf(),
            old(map).lifecycle@ == State::Ready,
        ensures
            final(self).inv(),
            keeps_zones(*old(self), *final(self)),
            final(map).wf(),
            *final(map) == (PageMetadataMap { metadata: final(map).metadata, ..*old(map) }),
            r == old(self).spec_can_add(zone_index, order, pfn, old(map)),
            r ==> {
                let index = old(map).spec_pfn_to_page(Pfn { value: pfn })->0.metadata_index;
                let a = zone_index * 11 + order;
                let head = old(self).areas@[a].head_index;
                let meta = old(map).metadata@;
                let linked = if head == BUDDY_INVALID_INDEX {
                    meta
                } else {
                    with_prev(meta, head, index)
                };
                &&& *final(self) == (BuddyFreePageSets {
                    areas: final(self).areas,
                    total_free_pages: (old(self).total_free_pages + order_pages(
                        order as int,
                    )) as usize,
                    free_block_count: (old(self).free_block_count + 1) as usize,
                    ..*old(self)
                })
                &&& final(self).areas@ == old(self).areas@.update(
                    a as int,
                    BuddyFreeArea {
                        head_index: index,
                        nr_free: (old(self).areas@[a as int].nr_free + 1) as usize,
                    },
                )
                &&& final(map).metadata@ == linked.update(
                    index as int,
                    meta[index as int].spec_marked_free(order, BUDDY_INVALID_INDEX, head),
                )
            },
            !r ==> *final(self) == *old(self),
            zone_index >= old(self).zone_count || order >= BUDDY_ORDER_COUNT || old(map).spec_pfn_to_page(Pfn { value: pfn }) is None || {
                let index = old(map).spec_pfn_to_page(Pfn { value: pfn })->0.metadata_index;
                let area = old(self).area(zone_index as int, order as int);
                ||| old(map).spec_metadata_by_index(index) is None
                ||| old(map).metadata@[index as int].spec_is_buddy_free()
                ||| old(map).metadata@[index as int].spec_is_buddy_allocated()
                ||| area.head_index != BUDDY_INVALID_INDEX && old(map).spec_metadata_by_index(
                    area.head_index,
                ) is None
            } ==> !r && *final(map) == *old(map),
    {
        if zone_index >= self.zone_count || order >= BUDDY_ORDER_COUNT {
            return false;
        }
        let page = match map.pfn_to_page(Pfn::new(pfn)) {
            Some(p) => p,
            None => return false,
        };
        let metadata_index = page.metadata_index();
        let mut metadata = match map.metadata_by_index(metadata_index) {
            Some(m) => m,
            None => return false,
        };
        if metadata.is_buddy_free() || metadata.is_buddy_allocated() {
            return false;
        }
        let a = zone_index * 11 + order;
        let area = self.areas[a];
        if area.head_index != BUDDY_INVALID_INDEX {
            let mut old_head = match map.metadata_by_index(area.head_index) {
                Some(m) => m,
                None => return false,
            };
            old_head.buddy_prev = metadata_index;
            if !map.write_metadata_by_index(area.head_index, old_head) {
                return false;
            }
        }
        metadata.mark_buddy_free(order, BUDDY_INVALID_INDEX, area.head_index);
        if !map.write_metadata_by_index(metadata_index, metadata) {
            return false;
        }
        let nr_free = match area.nr_free.checked_add(1) {
            Some(n) => n,
            None => return false,
        };
        let pages = block_pages(order);
        let total_free_pages = match self.total_free_pages.checked_add(pages) {
            Some(t) => t,
            None => return false,
        };
        let free_block_count = match self.free_block_count.checked_add(1) {
            Some(c) => c,
            None => return false,
        };
        let ghost old_areas = self.areas@;
        assert((zone_index * 11 + order) % 11 == order);
        let new_area = BuddyFreeArea { head_index: metadata_index, nr_free };
        self.areas[a] = new_area;
        self.total_free_pages = total_free_pages;
        self.free_block_count = free_block_count;
        proof {
            lemma_total_update(old_areas, a as int, new_area);
            assert(self.areas@ == old_areas.update(a as int, new_area));
            let d = new_area.nr_free - old_areas[a as int].nr_free;
            let p = order_pages(order as int);
            assert(d * p == p) by (nonlinear_arith)
                requires
                    d == 1,
            ;
        }
        true
    }

    /// Whether `remove_free_block_by_index` unlinks the record at `metadata_index` from the
    /// list of `order` in zone `zone_index`: the record heads a free block of that order and
    /// its neighbours point back at it.
    pub open spec fn spec_can_remove(
        &self,
        zone_index: usize,
        order: usize,
        metadata_index: usize,
        map: &PageMetadataMap,
    ) -> bool {
        &&& zone_index < self.zone_count
        &&& order < BUDDY_ORDER_COUNT
        &&& map.spec_metadata_by_index(metadata_index) is Some
        &&& {
            let meta = map.metadata@;
            let m = meta[metadata_index as int];
            let after_prev = unlink_prev(meta, m);
            &&& m.spec_is_buddy_free()
            &&& m.buddy_order == order
            &&& self.area(zone_index as int, order as int).nr_free >= 1
            &&& if m.buddy_prev == BUDDY_INVALID_INDEX {
                self.area(zone_index as int, order as int).head_index == metadata_index
            } else {
                &&& map.spec_metadata_by_index(m.buddy_prev) is Some
                &&& meta[m.buddy_prev as int].buddy_next == metadata_index
            }
            &&& m.buddy_next == BUDDY_INVALID_INDEX || {
                &&& map.spec_metadata_by_index(m.buddy_next) is Some
                &&& after_prev[m.buddy_next as int].buddy_prev == metadata_index
            }
        }
    }

    /// Unlinks the free block whose record is at `metadata_index` and clears its buddy state.
    pub fn remove_free_block_by_index(
        &mut self,
        zone_index: usize,
        order: usize,
        metadata_index: usize,
        map: &mut PageMetadataMap,
    ) -> (r: Option<PageRef>)
        requires
            old(self).inv(),
            old(map).wf(),
            old(map).lifecycle@ == State::Ready,
        ensures
            final(self).inv(),
            keeps_zones(*old(self), *final(self)),
            final(map).wf(),
            *final(map) == (PageMetadataMap { metadata: final(map).metadata, ..*old(map) }),
            (r is Some) == old(self).spec_can_remove(zone_index, order, metadata_index, old(map)),
            r is Some ==> {
                let a = zone_index * 11 + order;
                let meta = old(map).metadata@;
                let m = meta[metadata_index as int];
                let area = old(self).areas@[a as int];
                &&& r == old(map).spec_page_ref_from_metadata_index(metadata_index)
                &&& final(self).total_free_pages == old(self).total_free_pages - order_pages(
                    order as int,
                )
                &&& final(self).free_block_count == old(self).free_block_count - 1
                &&& *final(self) == (BuddyFreePageSets {
                    areas: final(self).areas,
                    total_free_pages: (old(self).total_free_pages - order_pages(
                        order as int,
                    )) as usize,
                    free_block_count: (old(self).free_block_count - 1) as usize,
                    ..*old(self)
                })
                &&& final(self).areas@ == old(self).areas@.update(
                    a as int,
                    BuddyFreeArea {
                        head_index: if m.buddy_prev == BUDDY_INVALID_INDEX {
                            m.buddy_next
                        } else {
                            area.head_index
                        },
                        nr_free: (area.nr_free - 1) as usize,
                    },
                )
                &&& final(map).metadata@ == unlink_next(unlink_prev(meta, m), m).update(
                    metadata_index as int,
                    m.spec_cleared(),
                )
            },
            r is None ==> final(self).total_free_pages == old(self).total_free_pages
                && final(self).free_block_count == old(self).free_block_count,
    {
        if zone_index >= self.zone_count || order >= BUDDY_ORDER_COUNT {
            return None;
        }
        let mut metadata = match map.metadata_by_index(metadata_index) {
            Some(m) => m,
            None => return None,
        };
        if !metadata.is_buddy_free() || metadata.buddy_order() != order {
            return None;
        }
        let a = zone_index * 11 + order;
        let ghost old_areas = self.areas@;
        let prev = metadata.buddy_prev;
        let next = metadata.buddy_next;
        let mut area = self.areas[a];
        if prev == BUDDY_INVALID_INDEX {
            if area.head_index != metadata_index {
                return None;
            }
            area.head_index = next;
            self.areas[a] = area;
        } else {
            let mut prev_metadata = match map.metadata_by_index(prev) {
                Some(m) => m,
                None => return None,
            };
            if prev_metadata.buddy_next != metadata_index {
                return None;
            }
            prev_metadata.buddy_next = next;
            if !map.write_metadata_by_index(prev, prev_metadata) {
                return None;
            }
        }
        proof {
            lemma_total_update(old_areas, a as int, self.areas@[a as int]);
            assert(self.areas@ == old_areas.update(a as int, self.areas@[a as int]));
            let d = self.areas@[a as int].nr_free - old_areas[a as int].nr_free;
            let p = order_pages((a % 11) as int);
            assert(d * p == 0) by (nonlinear_arith)
                requires
                    d == 0,
            ;
        }
        if next != BUDDY_INVALID_INDEX {
            let mut next_metadata = match map.metadata_by_index(next) {
                Some(m) => m,
                None => return None,
            };
            if next_metadata.buddy_prev != metadata_index {
                return None;
            }
            next_metadata.buddy_prev = prev;
            if !map.write_metadata_by_index(next, next_metadata) {
                return None;
            }
        }
        metadata.clear_buddy_state();
        if !map.write_metadata_by_index(metadata_index, metadata) {
            return None;
        }
        let pages = block_pages(order);
        proof {
            lemma_total_covers(self.areas@, a as int);
            lemma_term_nonneg(self.areas@[a as int].nr_free as int, order_pages(order as int));
        }
        let area = self.areas[a];
        if area.nr_free == 0 {
            return None;
        }
        proof {
            assert(area.nr_free * order_pages(order as int) >= order_pages(order as int))
                by (nonlinear_arith)
                requires
                    area.nr_free >= 1,
                    order_pages(order as int) >= 1,
            ;
        }
        assert((zone_index * 11 + order) % 11 == order);
        let new_area = BuddyFreeArea { head_index: area.head_index, nr_free: area.nr_free - 1 };
        let ghost mid_areas = self.areas@;
        self.areas[a] = new_area;
        self.total_free_pages = self.total_free_pages - pages;
        self.free_block_count = self.free_block_count - 1;
        proof {
            lemma_total_update(mid_areas, a as int, new_area);
            assert(self.areas@ == mid_areas.update(a as int, new_area));
            let d = new_area.nr_free - mid_areas[a as int].nr_free;
            let p = order_pages(order as int);
            assert(d * p == -p) by (nonlinear_arith)
                requires
                    d == -1,
            ;
            assert(new_area.nr_free * order_pages(order as int) == area.nr_free * order_pages(
                order as int,
            ) - order_pages(order as int)) by (nonlinear_arith)
                requires
                    new_area.nr_free == area.nr_free - 1,
            ;
        }
        map.page_ref_from_metadata_index(metadata_index)
    }

    /// Unlinks the first block on the list of `order` in zone `zone_index`.
    pub fn remove_head_free_block(
        &mut self,
        zone_index: usize,
        order: usize,
        map: &mut PageMetadataMap,
    ) -> (r: Option<PageRef>)
        requires
            old(self).inv(),
            old(map).wf(),
            old(map).lifecycle@ == State::Ready,
        ensures
            final(self).inv(),
            keeps_zones(*old(self), *final(self)),
            final(map).wf(),
            *final(map) == (PageMetadataMap { metadata: final(map).metadata, ..*old(map) }),
            zone_index >= old(self).zone_count || order >= BUDDY_ORDER_COUNT || old(self).area(
                zone_index as int,
                order as int,
            ).head_index == BUDDY_INVALID_INDEX ==> r is None && *final(self) == *old(self)
                && *final(map) == *old(map),
            (r is Some) == (zone_index < old(self).zone_count && order < BUDDY_ORDER_COUNT
                && old(self).area(zone_index as int, order as int).head_index != BUDDY_INVALID_INDEX
                && old(self).spec_can_remove(
                zone_index,
                order,
                old(self).area(zone_index as int, order as int).head_index,
                old(map),
            )),
            r is Some ==> {
                let a = zone_index * 11 + order;
                let head = old(self).areas@[a as int].head_index;
                let meta = old(map).metadata@;
                let m = meta[head as int];
                &&& r == old(map).spec_page_ref_from_metadata_index(head)
                &&& final(self).total_free_pages == old(self).total_free_pages - order_pages(
                    order as int,
                )
                &&& final(self).free_block_count == old(self).free_block_count - 1
                &&& final(self).areas@ == old(self).areas@.update(
                    a as int,
                    BuddyFreeArea {
                        head_index: if m.buddy_prev == BUDDY_INVALID_INDEX {
                            m.buddy_next
                        } else {
                            head
                        },
                        nr_free: (old(self).areas@[a as int].nr_free - 1) as usize,
                    },
                )
                &&& final(map).metadata@ == unlink_next(unlink_prev(meta, m), m).update(
                    head as int,
                    m.spec_cleared(),
                )
            },
            r is None ==> final(self).total_free_pages == old(self).total_free_pages
                && final(self).free_block_count == old(self).free_block_count,
    {
        if zone_index >= self.zone_count || order >= BUDDY_ORDER_COUNT {
            return None;
        }
        let head_index = self.areas[zone_index * 11 + order].head_index;
        if head_index == BUDDY_INVALID_INDEX {
            return None;
        }
        self.remove_free_block_by_index(zone_index, order, head_index, map)
    }

    /// The scan of `first_free_block` reaches the list of zone `z` and order `o`: every zone
    /// up to `z` has its kind recorded and every earlier list is empty.
    pub open spec fn scan_reaches(&self, z: int, o: int) -> bool {
        &&& 0 <= z < self.zone_count
        &&& 0 <= o < 11
        &&& forall|j: int| 0 <= j <= z ==> #[trigger] self.zone_kinds@[j] is Some
        &&& forall|k: int| 0 <= k < z * 11 + o ==> #[trigger] self.areas@[k].head_index
            == BUDDY_INVALID_INDEX
    }

    /// The list of zone `z` and order `o` is the first non-empty one the scan reaches.
    pub open spec fn first_nonempty(&self, z: int, o: int) -> bool {
        self.scan_reaches(z, o) && self.area(z, o).head_index != BUDDY_INVALID_INDEX
    }

    /// The head of the first non-empty list, zones in order and orders from the smallest.
    pub fn first_free_block(&self, map: &PageMetadataMap) -> (r: Option<BuddyFreeBlock>)
        requires
            self.inv(),
        ensures
            r matches Some(b) ==> exists|z: int, o: int|
                {
                    &&& #[trigger] self.first_nonempty(z, o)
                    &&& map.spec_page_ref_from_metadata_index(self.area(z, o).head_index)
                        == Some(b.page)
                    &&& Some(b.zone) == self.zone_kinds@[z]
                    &&& b.order == o
                },
            r is None ==> forall|z: int, o: int|
                #[trigger] self.first_nonempty(z, o) ==> map.spec_page_ref_from_metadata_index(
                    self.area(z, o).head_index,
                ) is None,
    {
        let mut zone_index: usize = 0;
        while zone_index < self.zone_count
            invariant
                self.inv(),
                zone_index <= self.zone_count,
                forall|j: int| 0 <= j < zone_index ==> #[trigger] self.zone_kinds@[j] is Some,
                forall|k: int|
                    0 <= k < zone_index * 11 ==> #[trigger] self.areas@[k].head_index
                        == BUDDY_INVALID_INDEX,
            decreases self.zone_count - zone_index,
        {
            let zone = match self.zone_kinds[zone_index] {
                Some(z) => z,
                None => {
                    proof {
                        assert forall|z: int, o: int|
                            #[trigger] self.first_nonempty(z, o) implies map.spec_page_ref_from_metadata_index(
                            self.area(z, o).head_index,
                        ) is None by {
                            if z >= zone_index {
                                assert(self.zone_kinds@[zone_index as int] is Some);
                            } else {
                                assert(self.areas@[z * 11 + o].head_index == BUDDY_INVALID_INDEX);
                            }
                        }
                    }
                    return None;
                },
            };
            let mut order: usize = 0;
            while order < BUDDY_ORDER_COUNT
                invariant
                    self.inv(),
                    zone_index < self.zone_count,
                    order <= BUDDY_ORDER_COUNT,
                    self.zone_kinds@[zone_index as int] == Some(zone),
                    forall|j: int| 0 <= j < zone_index ==> #[trigger] self.zone_kinds@[j] is Some,
                    forall|k: int|
                        0 <= k < zone_index * 11 + order ==> #[trigger] self.areas@[k].head_index
                            == BUDDY_INVALID_INDEX,
                decreases BUDDY_ORDER_COUNT - order,
            {
                let area = self.areas[zone_index * 11 + order];
                if area.head_index != BUDDY_INVALID_INDEX {
                    proof {
                        assert forall|j: int| 0 <= j <= zone_index implies #[trigger] self.zone_kinds@[j] is Some by {
                            if j < zone_index {
                            }
                        }
                        assert(self.first_nonempty(zone_index as int, order as int));
                        assert forall|z: int, o: int|
                            #[trigger] self.first_nonempty(z, o) implies z == zone_index && o
                            == order by {
                            if z * 11 + o < zone_index * 11 + order {
                                assert(self.areas@[z * 11 + o].head_index == BUDDY_INVALID_INDEX);
                            } else if z * 11 + o > zone_index * 11 + order {
                                assert(self.areas@[zone_index * 11 + order].head_index
                                    == BUDDY_INVALID_INDEX);
                            }
                        }
                    }
                    let page = match map.page_ref_from_metadata_index(area.head_index) {
                        Some(p) => p,
                        None => return None,
                    };
                    return Some(BuddyFreeBlock { zone, order, page });
                }
                order += 1;
            }
            zone_index += 1;
        }
        proof {
            assert forall|z: int, o: int|
                #[trigger] self.first_nonempty(z, o) implies map.spec_page_ref_from_metadata_index(
                self.area(z, o).head_index,
            ) is None by {
                assert(self.areas@[z * 11 + o].head_index == BUDDY_INVALID_INDEX);
            }
        }
        None
    }

    /// Allocates a block of `order` from the first zone of the fallback list that has one,
    /// splitting a larger block where needed; the split-off halves go back on their lists.
    pub fn alloc_pages(
        &mut self,
        zonelist: &BootZonelistSet,
        order: usize,
        map: &mut PageMetadataMap,
    ) -> (r: Option<PageRef>)
        requires
            old(self).inv(),
            old(map).wf(),
            zonelist.wf(),
        ensures
            final(self).inv(),
            keeps_zones(*old(self), *final(self)),
            final(map).wf(),
            *final(map) == (PageMetadataMap { metadata: final(map).metadata, ..*old(map) }),
            !old(self).ready || zonelist.lifecycle@ != State::Ready || old(map).lifecycle@
                != State::Ready || order >= BUDDY_ORDER_COUNT ==> r is None && *final(self)
                == *old(self) && *final(map) == *old(map),
            !old(self).has_free_block_for(*zonelist, order as int) ==> r is None && *final(self)
                == *old(self) && *final(map) == *old(map),
            r matches Some(page) ==> {
                &&& final(self).total_free_pages == old(self).total_free_pages - order_pages(
                    order as int,
                )
                &&& page.metadata_index < final(map).metadata@.len()
                &&& final(map).metadata@[page.metadata_index as int].spec_is_buddy_allocated()
                &&& !final(map).metadata@[page.metadata_index as int].spec_is_buddy_free()
                &&& final(map).metadata@[page.metadata_index as int].buddy_order == order
                &&& old(map).spec_page_ref_from_metadata_index(page.metadata_index) == Some(page)
                &&& exists|f: int, o: int|
                    #[trigger] old(self).is_first_candidate(*zonelist, order as int, f, o)
                        && Some(page) == old(map).spec_page_ref_from_metadata_index(
                        old(self).candidate_head(*zonelist, f, o),
                    )
            },
            forall|f: int, o: int|
                #[trigger] old(self).spec_alloc_owed(*zonelist, order, old(map), f, o) ==> r
                    is Some && r == old(map).spec_page_ref_from_metadata_index(
                    old(self).candidate_head(*zonelist, f, o),
                ),
            forall|f: int|
                #![trigger old(self).is_first_candidate(*zonelist, order as int, f, order as int)]
                old(self).ready && zonelist.lifecycle@ == State::Ready && old(map).lifecycle@
                    == State::Ready && old(self).is_first_candidate(
                    *zonelist,
                    order as int,
                    f,
                    order as int,
                ) && old(self).candidate_head(*zonelist, f, order as int) != BUDDY_INVALID_INDEX
                    && old(self).spec_can_remove(
                    old(self).spec_zone_index(zonelist.fallback@[f]->0)->0,
                    order,
                    old(self).candidate_head(*zonelist, f, order as int),
                    old(map),
                ) ==> r == old(map).spec_page_ref_from_metadata_index(
                    old(self).candidate_head(*zonelist, f, order as int),
                ) && r is Some,
    {
        if !self.ready || zonelist.state() != State::Ready || map.state() != State::Ready
            || order >= BUDDY_ORDER_COUNT {
            return None;
        }
        let ghost old_total = self.total_free_pages;
        let mut fallback_index: usize = 0;
        while fallback_index < zonelist.fallback_count()
            invariant
                self.inv(),
                keeps_zones(*old(self), *self),
                map.wf(),
                map.lifecycle@ == State::Ready,
                *map == (PageMetadataMap { metadata: map.metadata, ..*old(map) }),
                self.total_free_pages == old_total,
                old_total == old(self).total_free_pages,
                order < BUDDY_ORDER_COUNT,
                zonelist.wf(),
                old(self).ready && zonelist.lifecycle@ == State::Ready && old(map).lifecycle@
                    == State::Ready,
                *self == *old(self),
                *map == *old(map),
                forall|g: int| 0 <= g < fallback_index ==> (#[trigger] zonelist.fallback@[g]) is Some,
                forall|g: int, p: int|
                    0 <= g < fallback_index && order <= p < BUDDY_ORDER_COUNT
                        ==> !#[trigger] self.zone_area_nonempty(zonelist.fallback@[g], p),
                fallback_index <= zonelist.fallback_count,
            decreases zonelist.fallback_count - fallback_index,
        {
            let zone_kind = match zonelist.fallback_zone_kind(fallback_index) {
                Some(k) => k,
                None => {
                    proof {
                        assert forall|f: int, o: int|
                            old(self).is_first_candidate(*zonelist, order as int, f, o) implies false by {
                            if f >= fallback_index {
                                assert(zonelist.fallback@[fallback_index as int] is Some);
                            } else {
                                assert(!self.zone_area_nonempty(zonelist.fallback@[f], o));
                            }
                        }
                    }
                    return None;
                },
            };
            let zone_index = match self.zone_index(zone_kind) {
                Some(z) => z,
                None => {
                    proof {
                        assert forall|g: int, p: int|
                            0 <= g < fallback_index + 1 && order <= p < BUDDY_ORDER_COUNT
                                implies !#[trigger] self.zone_area_nonempty(
                            zonelist.fallback@[g],
                            p,
                        ) by {
                            if g == fallback_index {
                                assert(zonelist.fallback@[g] == Some(zone_kind));
                            }
                        }
                    }
                    fallback_index += 1;
                    continue;
                },
            };
            let mut current_order = order;
            while current_order < BUDDY_ORDER_COUNT
                invariant
                    self.inv(),
                    keeps_zones(*old(self), *self),
                    map.wf(),
                    map.lifecycle@ == State::Ready,
                    *map == (PageMetadataMap { metadata: map.metadata, ..*old(map) }),
                    self.total_free_pages == old_total,
                    old_total == old(self).total_free_pages,
                    order <= current_order <= BUDDY_ORDER_COUNT,
                    zone_index < self.zone_count,
                    old(self).ready && zonelist.lifecycle@ == State::Ready && old(map).lifecycle@
                        == State::Ready,
                    *self == *old(self),
                    *map == *old(map),
                    fallback_index < zonelist.fallback_count,
                    zonelist.fallback@[fallback_index as int] == Some(zone_kind),
                    self.spec_zone_index(zone_kind) == Some(zone_index),
                    forall|g: int|
                        0 <= g < fallback_index ==> (#[trigger] zonelist.fallback@[g]) is Some,
                    forall|g: int, p: int|
                        0 <= g < fallback_index && order <= p < BUDDY_ORDER_COUNT
                            ==> !#[trigger] self.zone_area_nonempty(zonelist.fallback@[g], p),
                    forall|p: int|
                        order <= p < current_order ==> !#[trigger] self.zone_area_nonempty(
                            zonelist.fallback@[fallback_index as int],
                            p,
                        ),
                decreases BUDDY_ORDER_COUNT - current_order,
            {
                if self.areas[zone_index * 11 + current_order].nr_free != 0 {
                    assert(old(self).has_free_block_for(*zonelist, order as int)) by {
                        assert(old(self).zone_area_nonempty(
                            zonelist.fallback@[fallback_index as int],
                            current_order as int,
                        ));
                    }
                    let ghost f0 = fallback_index as int;
                    let ghost o0 = current_order as int;
                    let ghost head = old(self).candidate_head(*zonelist, f0, o0);
                    proof {
                        assert(old(self).zone_area_nonempty(zonelist.fallback@[f0], o0));
                        assert forall|g: int| 0 <= g <= f0 implies (#[trigger] zonelist.fallback@[g]) is Some by {
                            if g < f0 {
                            }
                        }
                        assert(old(self).is_first_candidate(*zonelist, order as int, f0, o0));
                        assert(head == self.areas@[zone_index * 11 + current_order].head_index);
                        assert forall|f: int, o: int|
                            #[trigger] old(self).is_first_candidate(*zonelist, order as int, f, o)
                                implies f == f0 && o == o0 by {
                            if f < f0 {
                                assert(!self.zone_area_nonempty(zonelist.fallback@[f], o));
                            } else if f > f0 {
                                assert(!old(self).zone_area_nonempty(zonelist.fallback@[f0], o0));
                            } else if o0 > o {
                                assert(!self.zone_area_nonempty(zonelist.fallback@[f0], o));
                            } else if o0 < o {
                                assert(!self.zone_area_nonempty(zonelist.fallback@[f0], o0));
                            }
                        }
                        assert forall|f: int|
                            #[trigger] old(self).is_first_candidate(
                                *zonelist,
                                order as int,
                                f,
                                order as int,
                            ) implies f == f0 && o0 == order by {}
                    }
                    let page = match self.remove_head_free_block(zone_index, current_order, map) {
                        Some(p) => p,
                        None => return None,
                    };
                    let ghost map_r = *map;
                    let ghost m_head = old(map).metadata@[head as int];
                    let ghost owed = old(self).spec_alloc_owed(*zonelist, order, old(map), f0, o0);
                    let ghost start_pfn = old(map).start_pfn as int;
                    let ghost zb = zone_index * 11;
                    proof {
                        old(map).lemma_ref_index(head);
                        m_head.lemma_marks(0, 0, 0);
                        if owed {
                            let m = m_head;
                            assert forall|j: int|
                                #![trigger old(map).metadata@[j]]
                                head < j < head + order_pages(o0) && 0 <= j < old(map).metadata@.len()
                                    implies map.metadata@[j].flags == old(map).metadata@[j].flags by {
                                assert(j != head);
                            }
                        }
                    }
                    while current_order > order
                        invariant
                            self.inv(),
                            keeps_zones(*old(self), *self),
                            map.wf(),
                            map.lifecycle@ == State::Ready,
                            *map == (PageMetadataMap { metadata: map.metadata, ..*old(map) }),
                            order <= current_order < BUDDY_ORDER_COUNT,
                            zone_index < self.zone_count,
                            old(self).ready && zonelist.lifecycle@ == State::Ready
                                && old(map).lifecycle@ == State::Ready,
                            self.total_free_pages == old_total - order_pages(
                                current_order as int,
                            ),
                            old_total == old(self).total_free_pages,
                            old(self).has_free_block_for(*zonelist, order as int),
                            current_order <= o0,
                            old(self).is_first_candidate(*zonelist, order as int, f0, o0),
                            page == old(map).spec_page_ref_from_metadata_index(head)->0,
                            old(map).spec_page_ref_from_metadata_index(head) is Some,
                            head == old(self).candidate_head(*zonelist, f0, o0),
                            o0 == order ==> *map == map_r,
                            map_r.metadata@.len() == old(map).metadata@.len(),
                            forall|f: int|
                                #[trigger] old(self).is_first_candidate(
                                    *zonelist,
                                    order as int,
                                    f,
                                    order as int,
                                ) ==> f == f0 && o0 == order,
                            forall|f: int, o: int|
                                #[trigger] old(self).is_first_candidate(*zonelist, order as int, f, o)
                                    ==> f == f0 && o == o0,
                            owed == old(self).spec_alloc_owed(*zonelist, order, old(map), f0, o0),
                            start_pfn == old(map).start_pfn,
                            zb == zone_index * 11,
                            old(map).wf(),
                            owed ==> {
                                &&& zone_index == old(self).spec_zone_index(
                                    zonelist.fallback@[f0]->0,
                                )->0
                                &&& page.pfn.value == start_pfn + head
                                &&& page.metadata_index == head
                                &&& head < map.metadata@.len()
                                &&& !map.metadata@[head as int].spec_is_buddy_free()
                                &&& !map.metadata@[head as int].spec_is_buddy_allocated()
                                &&& self.free_block_count + current_order == old(self).free_block_count - 1 + o0
                                &&& forall|j: int|
                                    #![trigger old(map).metadata@[j]]
                                    head < j < head + order_pages(current_order as int) && 0 <= j
                                        < old(map).metadata@.len() ==> map.metadata@[j].flags == old(map).metadata@[j].flags
                                &&& forall|k: int|
                                    #![trigger self.areas@[zb + k]]
                                    order <= k < current_order ==> self.areas@[zb + k] == old(self).areas@[zb + k]
                            },
                        decreases current_order,
                    {
                        current_order -= 1;
                        let half = block_pages(current_order);
                        proof {
                            vstd::arithmetic::power2::lemma_pow2_unfold((current_order + 1) as nat);
                            vstd::arithmetic::power2::lemma_pow2_pos(current_order as nat);
                            if owed {
                                vstd::arithmetic::power2::lemma_pow2_strictly_increases(
                                    current_order as nat,
                                    o0 as nat,
                                );
                                assert(old(self).spec_alloc_owed(*zonelist, order, old(map), f0, o0));
                                assert(head < head + half < head + order_pages(o0));
                                assert(frame_addable(old(map), old(map).start_pfn + (head + half)));
                            }
                        }
                        let split_pfn = match page.pfn().value().checked_add(half) {
                            Some(p) => p,
                            None => return None,
                        };
                        let ghost map2 = *map;
                        let ghost self2 = *self;
                        proof {
                            if owed {
                                let sj = head + half;
                                assert(map.metadata@[sj].flags == old(map).metadata@[sj].flags);
                                lemma_total_covers(self.areas@, zb + current_order);
                                assert(self.areas@[zb + current_order] == old(self).areas@[zb
                                    + current_order]);
                                assert(map.spec_pfn_to_page(Pfn { value: split_pfn }) == old(map).spec_pfn_to_page(Pfn { value: split_pfn }));
                                let idx = map.spec_pfn_to_page(Pfn { value: split_pfn })->0.metadata_index;
                                assert(idx == sj);
                                assert(map.spec_metadata_by_index(idx) is Some);
                                assert(!map.metadata@[sj].spec_is_buddy_free());
                                assert(!map.metadata@[sj].spec_is_buddy_allocated());
                                assert(old(self).area(zone_index as int, current_order as int).head_index
                                    == BUDDY_INVALID_INDEX || old(map).spec_metadata_by_index(
                                    old(self).area(zone_index as int, current_order as int).head_index,
                                ) is Some);
                                assert(self.area(zone_index as int, current_order as int).nr_free + 1
                                    <= usize::MAX);
                                assert(self.total_free_pages + order_pages(current_order as int)
                                    <= usize::MAX);
                                assert(self.free_block_count + 1 <= usize::MAX);
                                assert(self.spec_can_add(zone_index, current_order, split_pfn, map));
                            }
                        }
                        if !self.add_free_block(zone_index, current_order, split_pfn, map) {
                            return None;
                        }
                        proof {
                            if owed {
                                let sj = head + half;
                                let oh = self2.areas@[zb + current_order].head_index as int;
                                assert forall|j: int|
                                    #![trigger old(map).metadata@[j]]
                                    head < j < head + order_pages(current_order as int) && 0 <= j
                                        < old(map).metadata@.len() implies map.metadata@[j].flags
                                    == old(map).metadata@[j].flags by {
                                    assert(j != sj);
                                    assert(map.metadata@[j].flags == map2.metadata@[j].flags);
                                }
                                assert(map.metadata@[head as int].flags == map2.metadata@[head as int].flags);
                                assert forall|k: int|
                                    #![trigger self.areas@[zb + k]]
                                    order <= k < current_order implies self.areas@[zb + k] == old(self).areas@[zb + k] by {
                                    assert(self.areas@[zb + k] == self2.areas@[zb + k]);
                                }
                            }
                        }
                    }
                    let mut metadata = match map.metadata_by_index(page.metadata_index()) {
                        Some(m) => m,
                        None => return None,
                    };
                    if metadata.is_buddy_free() || metadata.is_buddy_allocated() {
                        return None;
                    }
                    proof {
                        map.lemma_ref_index(page.metadata_index);
                    }
                    let ghost before = metadata;
                    metadata.mark_buddy_allocated(order);
                    proof {
                        before.lemma_marks(order, 0, 0);
                    }
                    if !map.write_metadata_by_index(page.metadata_index(), metadata) {
                        return None;
                    }
                    return Some(page);
                }
                current_order += 1;
            }
            fallback_index += 1;
        }
        None
    }

    /// Free record `i` of `map` is linked consistently for zone `zone_index` of range
    /// `zone_range`: its neighbours are free records of its order that point back at it, and
    /// where its block lies in the zone it is counted on that zone's list of its order, which
    /// it heads when it has no predecessor.
    pub open spec fn record_linked(
        &self,
        zone_index: usize,
        zone_range: PhysRange,
        page_size: usize,
        map: &PageMetadataMap,
        i: int,
    ) -> bool {
        let m = map.metadata@[i];
        let o = m.buddy_order;
        &&& o < BUDDY_ORDER_COUNT
        &&& m.buddy_prev == BUDDY_INVALID_INDEX || {
            &&& map.spec_metadata_by_index(m.buddy_prev) is Some
            &&& map.metadata@[m.buddy_prev as int].spec_is_buddy_free()
            &&& map.metadata@[m.buddy_prev as int].buddy_order == o
            &&& map.metadata@[m.buddy_prev as int].buddy_next == i
        }
        &&& m.buddy_next == BUDDY_INVALID_INDEX || {
            &&& map.spec_metadata_by_index(m.buddy_next) is Some
            &&& map.metadata@[m.buddy_next as int].spec_is_buddy_free()
            &&& map.metadata@[m.buddy_next as int].buddy_order == o
            &&& map.metadata@[m.buddy_next as int].buddy_prev == i
        }
        &&& block_fits_spec((map.start_pfn + i) as usize, o, page_size, zone_range) ==> {
            &&& self.area(zone_index as int, o as int).nr_free >= 1
            &&& m.buddy_prev == BUDDY_INVALID_INDEX ==> self.area(
                zone_index as int,
                o as int,
            ).head_index == i
        }
    }

    /// Every free record of `map` is linked consistently for zone `zone_index`, and every
    /// list of the zone has a head with a record or none.
    pub open spec fn spec_links_consistent(
        &self,
        zone_index: usize,
        zone_range: PhysRange,
        page_size: usize,
        map: &PageMetadataMap,
    ) -> bool {
        &&& forall|i: int|
            0 <= i < map.metadata@.len() && #[trigger] map.metadata@[i].spec_is_buddy_free()
                ==> self.record_linked(zone_index, zone_range, page_size, map, i)
        &&& forall|o: int|
            0 <= o < BUDDY_ORDER_COUNT ==> #[trigger] self.area(zone_index as int, o).head_index
                == BUDDY_INVALID_INDEX || map.spec_metadata_by_index(
                self.area(zone_index as int, o).head_index,
            ) is Some
    }

    /// Whether `free_pages` owes success: the lists are ready, the block of `order` at `page`
    /// lies in the zone and its record is that of an allocated block of `order`, the lists
    /// are linked consistently, and the counters have room for the block.
    pub open spec fn spec_free_owed(
        &self,
        zone_index: usize,
        zone_range: PhysRange,
        page_size: usize,
        page: PageRef,
        order: usize,
        map: &PageMetadataMap,
    ) -> bool {
        &&& self.ready
        &&& zone_index < self.zone_count
        &&& order < BUDDY_ORDER_COUNT
        &&& block_fits_spec(page.pfn.value, order, page_size, zone_range)
        &&& map.spec_validate_page(page)
        &&& map.spec_metadata_by_index(page.metadata_index) is Some
        &&& map.metadata@[page.metadata_index as int].spec_is_buddy_allocated()
        &&& !map.metadata@[page.metadata_index as int].spec_is_buddy_free()
        &&& map.metadata@[page.metadata_index as int].buddy_order == order
        &&& self.spec_links_consistent(zone_index, zone_range, page_size, map)
        &&& self.total_free_pages + order_pages(order as int) <= usize::MAX
        &&& self.free_block_count + 1 <= usize::MAX
    }

    /// Whether `free_pages` puts the allocated block of `order` at `page` back on the list of
    /// zone `zone_index` as it is: the block lies in the zone, its record is that of an
    /// allocated block of `order`, it has no buddy to merge with, the list head (if any) has a
    /// record, and no counter overflows.
    pub open spec fn spec_can_free_in_place(
        &self,
        zone_index: usize,
        zone_range: PhysRange,
        page_size: usize,
        page: PageRef,
        order: usize,
        map: &PageMetadataMap,
    ) -> bool {
        &&& self.ready
        &&& zone_index < self.zone_count
        &&& order < BUDDY_ORDER_COUNT
        &&& block_fits_spec(page.pfn.value, order, page_size, zone_range)
        &&& map.spec_validate_page(page)
        &&& map.spec_metadata_by_index(page.metadata_index) is Some
        &&& map.metadata@[page.metadata_index as int].spec_is_buddy_allocated()
        &&& map.metadata@[page.metadata_index as int].buddy_order == order
        &&& spec_no_merge(page.pfn.value, order, page_size, zone_range, map)
        &&& {
            let area = self.area(zone_index as int, order as int);
            &&& area.head_index == BUDDY_INVALID_INDEX || map.spec_metadata_by_index(
                area.head_index,
            ) is Some
            &&& area.nr_free + 1 <= usize::MAX
        }
        &&& self.total_free_pages + order_pages(order as int) <= usize::MAX
        &&& self.free_block_count + 1 <= usize::MAX
    }

    /// Returns the allocated block of `order` at `page` to zone `zone_index`, merging it with
    /// its free buddy as long as the buddy is a free block of the same order inside the zone.
    #[verifier::rlimit(100)]
    pub fn free_pages(
        &mut self,
        zone_index: usize,
        zone_range: PhysRange,
        page_size: usize,
        page: PageRef,
        order: usize,
        map: &mut PageMetadataMap,
    ) -> (r: bool)
        requires
            old(self).inv(),
            old(map).wf(),
            old(map).lifecycle@ == State::Ready,
        ensures
            final(self).inv(),
            keeps_zones(*old(self), *final(self)),
            final(map).wf(),
            *final(map) == (PageMetadataMap { metadata: final(map).metadata, ..*old(map) }),
            !old(self).ready || zone_index >= old(self).zone_count || order >= BUDDY_ORDER_COUNT
                || !block_fits_spec(page.pfn.value, order, page_size, zone_range) ==> !r
                && *final(self) == *old(self) && *final(map) == *old(map),
            r ==> final(self).total_free_pages == old(self).total_free_pages + order_pages(
                order as int,
            ),
            !(old(map).spec_metadata_by_index(page.metadata_index) is Some && old(map).metadata@[page.metadata_index as int].spec_is_buddy_allocated() && old(map).metadata@[page.metadata_index as int].buddy_order == order) ==> !r && *final(self)
                == *old(self) && *final(map) == *old(map),
            r ==> !final(map).metadata@[page.metadata_index as int].spec_is_buddy_allocated(),
            r && old(map).spec_validate_page(page) ==> freed_merged(
                *old(self),
                *final(self),
                old(map),
                final(map),
                zone_index,
                zone_range,
                page_size,
                page,
                order,
            ),
            old(self).spec_free_owed(zone_index, zone_range, page_size, page, order, old(map)) ==> r,
            old(self).spec_can_free_in_place(zone_index, zone_range, page_size, page, order, old(map))
                ==> r && final(self).areas@ == old(self).areas@.update(
                zone_index * 11 + order,
                BuddyFreeArea {
                    head_index: page.metadata_index,
                    nr_free: (old(self).areas@[zone_index * 11 + order].nr_free + 1) as usize,
                },
            ),
    {
        proof {
            if is_pow2(page_size) {
                lemma_align_masks(0, page_size);
            }
        }
        if !self.ready || zone_index >= self.zone_count || order >= BUDDY_ORDER_COUNT
            || page_size == 0 || !is_power_of_two(page_size) || !block_fits_in_range(
            page.pfn().value(),
            order,
            page_size,
            zone_range,
        ) {
            return false;
        }
        let mut metadata = match map.metadata_by_index(page.metadata_index()) {
            Some(m) => m,
            None => return false,
        };
        if !metadata.is_buddy_allocated() || metadata.buddy_order() != order {
            return false;
        }
        let ghost m_old = metadata;
        metadata.clear_buddy_state();
        if !map.write_metadata_by_index(page.metadata_index(), metadata) {
            return false;
        }
        let ghost inplace = old(self).spec_can_free_in_place(
            zone_index,
            zone_range,
            page_size,
            page,
            order,
            old(map),
        );
        proof {
            m_old.lemma_marks(0, 0, 0);
            old(map).lemma_ref_index(page.metadata_index);
        }
        let ghost old_total = self.total_free_pages;
        let ghost owed = old(self).spec_free_owed(
            zone_index,
            zone_range,
            page_size,
            page,
            order,
            old(map),
        );
        let ghost valid = old(map).spec_validate_page(page);
        let ghost zb = zone_index * 11;
        let ghost start_pfn = old(map).start_pfn as int;
        let mut pfn = page.pfn().value();
        let mut current_order = order;
        proof {
            vstd::arithmetic::power2::lemma_pow2_pos(order as nat);
        }
        while current_order + 1 < BUDDY_ORDER_COUNT
            invariant
                valid == old(map).spec_validate_page(page),
                page.metadata_index < map.metadata@.len(),
                !map.metadata@[page.metadata_index as int].spec_is_buddy_allocated(),
                old(map).spec_metadata_by_index(page.metadata_index) is Some && old(map).metadata@[page.metadata_index as int].spec_is_buddy_allocated() && old(map).metadata@[page.metadata_index as int].buddy_order == order,
                zb == zone_index * 11,
                start_pfn == old(map).start_pfn,
                map.metadata@.len() == old(map).metadata@.len(),
                valid ==> merge_end(page.pfn.value, order, page_size, zone_range, old(map))
                    == merge_end(pfn, current_order, page_size, zone_range, old(map)),
                valid ==> pfn >= start_pfn,
                valid ==> forall|i: int|
                    #![trigger map.metadata@[i]]
                    0 <= i < map.metadata@.len() && !(pfn - start_pfn <= i < pfn - start_pfn
                        + order_pages(current_order as int)) ==> map.metadata@[i].flags
                        == old(map).metadata@[i].flags && map.metadata@[i].buddy_order == old(map).metadata@[i].buddy_order,
                valid ==> forall|a: int|
                    #![trigger self.areas@[a]]
                    0 <= a < BUDDY_AREA_COUNT ==> (if zb + order <= a < zb + current_order {
                        self.areas@[a].nr_free == old(self).areas@[a].nr_free - 1
                    } else {
                        self.areas@[a] == old(self).areas@[a]
                    }),
                self.inv(),
                keeps_zones(*old(self), *self),
                map.wf(),
                map.lifecycle@ == State::Ready,
                *map == (PageMetadataMap { metadata: map.metadata, ..*old(map) }),
                order <= current_order < BUDDY_ORDER_COUNT,
                zone_index < self.zone_count,
                old(self).ready && zone_index < old(self).zone_count && block_fits_spec(
                    page.pfn.value,
                    order,
                    page_size,
                    zone_range,
                ),
                self.total_free_pages + order_pages(current_order as int) == old_total
                    + order_pages(order as int),
                old_total == old(self).total_free_pages,
                inplace ==> current_order == order && pfn == page.pfn.value && *self == *old(self)
                    && map.metadata@ == old(map).metadata@.update(
                    page.metadata_index as int,
                    m_old.spec_cleared(),
                ),
                old(map).wf(),
                old(map).lifecycle@ == State::Ready,
                inplace == old(self).spec_can_free_in_place(
                    zone_index,
                    zone_range,
                    page_size,
                    page,
                    order,
                    old(map),
                ),
                owed == old(self).spec_free_owed(
                    zone_index,
                    zone_range,
                    page_size,
                    page,
                    order,
                    old(map),
                ),
                owed ==> forall|i: int|
                    #![trigger old(map).metadata@[i]]
                    0 <= i < map.metadata@.len() && old(map).metadata@[i].spec_is_buddy_free() && old(map).metadata@[i].buddy_order >= current_order ==> map.metadata@[i] == old(map).metadata@[i],
                owed ==> map.spec_pfn_to_page(Pfn { value: pfn }) is Some && {
                    let ip = map.spec_pfn_to_page(Pfn { value: pfn })->0.metadata_index as int;
                    &&& 0 <= ip < map.metadata@.len()
                    &&& !map.metadata@[ip].spec_is_buddy_free()
                    &&& !map.metadata@[ip].spec_is_buddy_allocated()
                },
                owed ==> self.free_block_count <= old(self).free_block_count,
            ensures
                valid ==> merge_end(page.pfn.value, order, page_size, zone_range, old(map)) == (
                pfn,
                current_order,
            ),
            decreases BUDDY_ORDER_COUNT - current_order,
        {
            let half = block_pages(current_order);
            let buddy_pfn = pfn ^ half;
            let ghost map0 = *map;
            let ghost self0 = *self;
            proof {
                lemma_buddy_distance(pfn, current_order);
                if valid {
                    if let Some(bp) = old(map).spec_pfn_to_page(Pfn { value: buddy_pfn }) {
                        assert(bp.metadata_index == buddy_pfn - start_pfn);
                        if bp.metadata_index < map.metadata@.len() {
                            assert(map.metadata@[bp.metadata_index as int].flags == old(map).metadata@[bp.metadata_index as int].flags);
                        }
                    }
                }
            }
            proof {
                assert(half != 0 ==> buddy_pfn != pfn) by (bit_vector)
                    requires
                        buddy_pfn == pfn ^ half,
                ;
                if inplace {
                    old(map).lemma_ref_index(page.metadata_index);
                    assert(old(self).spec_can_free_in_place(
                        zone_index,
                        zone_range,
                        page_size,
                        page,
                        order,
                        old(map),
                    ));
                    assert(old(map).spec_metadata_by_index(page.metadata_index) is Some);
                    assert(old(map).lifecycle@ == State::Ready);
                    assert(old(map).wf());
                    assert(page.metadata_index < old(map).metadata_count);
                    assert(page.metadata_index < old(map).metadata@.len());
                    assert(buddy_pfn == page.pfn.value ^ (order_pages(order as int) as usize));
                    assert(map.spec_pfn_to_page(Pfn { value: buddy_pfn }) == old(map).spec_pfn_to_page(Pfn { value: buddy_pfn }));
                    if let Some(bp) = old(map).spec_pfn_to_page(Pfn { value: buddy_pfn }) {
                        assert(bp.metadata_index != page.metadata_index);
                        if bp.metadata_index < old(map).metadata@.len() {
                            assert(map.metadata@[bp.metadata_index as int] == old(map).metadata@[bp.metadata_index as int]);
                        }
                        assert(map.spec_metadata_by_index(bp.metadata_index) is Some
                            == old(map).spec_metadata_by_index(bp.metadata_index) is Some);
                    }
                }
            }
            if !block_fits_in_range(buddy_pfn, current_order, page_size, zone_range) {
                break;
            }
            let buddy_page = match map.pfn_to_page(Pfn::new(buddy_pfn)) {
                Some(p) => p,
                None => break,
            };
            let buddy_metadata = match map.metadata_by_index(buddy_page.metadata_index()) {
                Some(m) => m,
                None => return false,
            };
            if !buddy_metadata.is_buddy_free() || buddy_metadata.buddy_order() != current_order {
                break;
            }
            proof {
                if owed {
                    let ib = buddy_page.metadata_index as int;
                    old(map).lemma_ref_index(buddy_page.metadata_index);
                    assert(old(map).metadata@[ib].flags == map.metadata@[ib].flags);
                    assert(map.metadata@[ib] == old(map).metadata@[ib]);
                    assert(old(self).record_linked(zone_index, zone_range, page_size, old(map), ib));
                    let m = old(map).metadata@[ib];
                    if m.buddy_prev != BUDDY_INVALID_INDEX {
                        assert(map.metadata@[m.buddy_prev as int] == old(map).metadata@[m.buddy_prev as int]);
                    }
                    if m.buddy_next != BUDDY_INVALID_INDEX {
                        assert(map.metadata@[m.buddy_next as int] == old(map).metadata@[m.buddy_next as int]);
                    }
                    assert(self.areas@[zb + current_order] == old(self).areas@[zb + current_order]);
                    assert(self.spec_can_remove(
                        zone_index,
                        current_order,
                        buddy_page.metadata_index,
                        map,
                    ));
                }
            }
            if self.remove_free_block_by_index(
                zone_index,
                current_order,
                buddy_page.metadata_index(),
                map,
            ).is_none() {
                return false;
            }
            proof {
                vstd::arithmetic::power2::lemma_pow2_unfold((current_order + 1) as nat);
                if owed {
                    let ib = buddy_page.metadata_index as int;
                    let m = map0.metadata@[ib];
                    assert forall|i: int|
                        #![trigger old(map).metadata@[i]]
                        0 <= i < map.metadata@.len() && old(map).metadata@[i].spec_is_buddy_free()
                            && old(map).metadata@[i].buddy_order >= current_order + 1 implies map.metadata@[i]
                        == old(map).metadata@[i] by {
                        assert(map0.metadata@[i] == old(map).metadata@[i]);
                        assert(i != ib);
                        assert(i != m.buddy_prev);
                        assert(i != m.buddy_next);
                    }
                    let ip = map0.spec_pfn_to_page(Pfn { value: pfn })->0.metadata_index as int;
                    if buddy_pfn < pfn {
                        m.lemma_marks(0, 0, 0);
                    } else {
                        assert(ip != ib);
                        assert(ip != m.buddy_prev);
                        assert(ip != m.buddy_next);
                    }
                }
                let pi = page.metadata_index as int;
                if pi == buddy_page.metadata_index as int {
                    map0.metadata@[pi].lemma_marks(0, 0, 0);
                } else {
                    assert(map.metadata@[pi].flags == map0.metadata@[pi].flags);
                }
                if valid {
                    let ib = buddy_page.metadata_index as int;
                    let lo = if buddy_pfn < pfn {
                        buddy_pfn
                    } else {
                        pfn
                    };
                    assert(!spec_no_merge(pfn, current_order, page_size, zone_range, old(map)));
                    assert forall|i: int|
                        #![trigger map.metadata@[i]]
                        0 <= i < map.metadata@.len() && !(lo - start_pfn <= i < lo - start_pfn
                            + order_pages(current_order + 1)) implies map.metadata@[i].flags
                        == old(map).metadata@[i].flags && map.metadata@[i].buddy_order == old(map).metadata@[i].buddy_order by {
                        assert(i != ib);
                        assert(map.metadata@[i].flags == map0.metadata@[i].flags);
                        assert(map.metadata@[i].buddy_order == map0.metadata@[i].buddy_order);
                    }
                    assert forall|a: int|
                        #![trigger self.areas@[a]]
                        0 <= a < BUDDY_AREA_COUNT implies (if zb + order <= a < zb
                        + current_order + 1 {
                        self.areas@[a].nr_free == old(self).areas@[a].nr_free - 1
                    } else {
                        self.areas@[a] == old(self).areas@[a]
                    }) by {
                        if a != zb + current_order {
                            assert(self.areas@[a] == self0.areas@[a]);
                        }
                    }
                }
            }
            pfn = if buddy_pfn < pfn {
                buddy_pfn
            } else {
                pfn
            };
            current_order += 1;
        }
        let ghost map1 = *map;
        let ghost self1 = *self;
        proof {
            if owed {
                lemma_total_covers(self.areas@, zb + current_order);
                assert(self.areas@[zb + current_order] == old(self).areas@[zb + current_order]);
                let ip = map.spec_pfn_to_page(Pfn { value: pfn })->0.metadata_index;
                map.lemma_ref_index(ip);
                assert(map.spec_metadata_by_index(ip) is Some);
                assert(old(self).area(zone_index as int, current_order as int).head_index
                    == BUDDY_INVALID_INDEX || old(map).spec_metadata_by_index(
                    old(self).area(zone_index as int, current_order as int).head_index,
                ) is Some);
                assert(self.area(zone_index as int, current_order as int) == old(self).area(
                    zone_index as int,
                    current_order as int,
                ));
                assert(self.total_free_pages + order_pages(current_order as int) <= usize::MAX);
                assert(self.spec_can_add(zone_index, current_order, pfn, map));
            }
        }
        let added = self.add_free_block(zone_index, current_order, pfn, map);
        proof {
            if added {
                let pi = page.metadata_index as int;
                let idx = map1.spec_pfn_to_page(Pfn { value: pfn })->0.metadata_index as int;
                if pi == idx {
                    map1.metadata@[pi].lemma_marks(current_order, 0, 0);
                } else {
                    assert(map.metadata@[pi].flags == map1.metadata@[pi].flags);
                }
            }
            if added && valid {
                let idx = old(map).spec_pfn_to_page(Pfn { value: pfn })->0.metadata_index;
                map1.metadata@[idx as int].lemma_marks(current_order, 0, 0);
                lemma_merge_end_stops(page.pfn.value, order, page_size, zone_range, old(map));
                assert forall|a: int|
                    0 <= a < BUDDY_AREA_COUNT && !(zb + order <= a <= zb + current_order) implies #[trigger] self.areas@[a]
                    == old(self).areas@[a] by {
                    assert(self.areas@[a] == self1.areas@[a]);
                    assert(self1.areas@[a] == old(self).areas@[a]);
                }
                assert forall|k: int| order <= k < current_order implies #[trigger] self.areas@[zb
                    + k].nr_free == old(self).areas@[zb + k].nr_free - 1 by {
                    assert(self.areas@[zb + k] == self1.areas@[zb + k]);
                }
            }
        }
        added
    }

    /// A whole page inside `[start, end)` lies between the page-rounded bounds: its frame is
    /// at least the rounded-up start's frame and below the rounded-down end's frame.
    proof fn lemma_page_between_rounds(start: int, end: int, ps: int, q: int)
        requires
            ps > 0,
            0 <= start,
            0 <= end,
            start <= q * ps,
            (q + 1) * ps <= end,
        ensures
            round_up_spec(start, ps) / ps <= q,
            q < round_down_spec(end, ps) / ps,
            round_up_spec(start, ps) <= q * ps,
            (q + 1) * ps <= round_down_spec(end, ps),
    {
        lemma_round_up_bounds(start, ps);
        lemma_round_down_bounds(end, ps);
        let a = round_up_spec(start, ps);
        let b = round_down_spec(end, ps);
        vstd::arithmetic::div_mod::lemma_fundamental_div_mod(a, ps);
        vstd::arithmetic::div_mod::lemma_fundamental_div_mod(b, ps);
        let ka = a / ps;
        let kb = b / ps;
        assert(ka <= q) by (nonlinear_arith)
            requires
                a == ps * ka,
                a < start + ps,
                start <= q * ps,
                ps > 0,
        ;
        assert(q + 1 <= kb) by (nonlinear_arith)
            requires
                b == ps * kb,
                end - ps < b,
                (q + 1) * ps <= end,
                ps > 0,
        ;
        assert(a <= q * ps) by (nonlinear_arith)
            requires
                a == ps * ka,
                ka <= q,
                ps > 0,
        ;
        assert((q + 1) * ps <= b) by (nonlinear_arith)
            requires
                b == ps * kb,
                q + 1 <= kb,
                ps > 0,
        ;
    }

    /// A frame covered by a block newly put on a list stays covered while that block's record
    /// keeps its flags and order.
    proof fn lemma_covered_carry(
        base: &PageMetadataMap,
        m0: &PageMetadataMap,
        m1: &PageMetadataMap,
        q: int,
    )
        requires
            keeps_free_records(m0, m1),
            m0.metadata@.len() == m1.metadata@.len(),
            frame_covered(base, m0, q),
        ensures
            frame_covered(base, m1, q),
    {
        let w = choose|w: int|
            #[trigger] newly_free(base, m0, w) && base.start_pfn + w <= q < base.start_pfn + w
                + order_pages(m0.metadata@[w].buddy_order as int);
        assert(m0.metadata@[w].spec_is_buddy_free());
        assert(newly_free(base, m1, w));
    }

    /// A frame covered by a block newly put on a list since `m0` is covered by one newly put
    /// on a list since an earlier `base` whose free records `m0` kept.
    proof fn lemma_covered_rebase(
        base: &PageMetadataMap,
        m0: &PageMetadataMap,
        m1: &PageMetadataMap,
        q: int,
    )
        requires
            keeps_free_records(base, m0),
            base.start_pfn == m0.start_pfn,
            base.metadata@.len() == m0.metadata@.len(),
            frame_covered(m0, m1, q),
        ensures
            frame_covered(base, m1, q),
    {
        let w = choose|w: int|
            #[trigger] newly_free(m0, m1, w) && m0.start_pfn + w <= q < m0.start_pfn + w
                + order_pages(m1.metadata@[w].buddy_order as int);
        if w < base.metadata@.len() && base.metadata@[w].spec_is_buddy_free() {
            assert(m0.metadata@[w].spec_is_buddy_free());
        }
        assert(newly_free(base, m1, w));
    }

    /// Blocks put on the lists in two steps do not overlap when the first step's blocks end
    /// at or below `lo` and the second step's start at or above it.
    proof fn lemma_disjoint_step(
        base: &PageMetadataMap,
        m0: &PageMetadataMap,
        m1: &PageMetadataMap,
        page_size: int,
        lo: int,
    )
        requires
            page_size > 0,
            keeps_free_records(base, m0),
            keeps_free_records(m0, m1),
            base.start_pfn == m0.start_pfn,
            base.metadata@.len() == m0.metadata@.len(),
            m0.metadata@.len() == m1.metadata@.len(),
            blocks_disjoint(base, m0),
            blocks_disjoint(m0, m1),
            forall|i: int|
                #[trigger] newly_free(base, m0, i) ==> (base.start_pfn + i + order_pages(
                    m0.metadata@[i].buddy_order as int,
                )) * page_size <= lo,
            forall|i: int| #[trigger] newly_free(m0, m1, i) ==> lo <= (m0.start_pfn + i) * page_size,
        ensures
            blocks_disjoint(base, m1),
    {
        assert forall|a: int, c: int|
            #[trigger] newly_free(base, m1, a) && #[trigger] newly_free(base, m1, c) && a != c implies {
                let qa = base.start_pfn + a;
                let qc = base.start_pfn + c;
                qa + order_pages(m1.metadata@[a].buddy_order as int) <= qc || qc + order_pages(
                    m1.metadata@[c].buddy_order as int,
                ) <= qa
            } by {
            let fa = m0.metadata@[a].spec_is_buddy_free();
            let fc = m0.metadata@[c].spec_is_buddy_free();
            if fa {
                assert(newly_free(base, m0, a));
            } else {
                assert(newly_free(m0, m1, a));
            }
            if fc {
                assert(newly_free(base, m0, c));
            } else {
                assert(newly_free(m0, m1, c));
            }
            let qa = base.start_pfn + a;
            let qc = base.start_pfn + c;
            let na = order_pages(m1.metadata@[a].buddy_order as int);
            let nc = order_pages(m1.metadata@[c].buddy_order as int);
            if fa && !fc {
                assert(qa + na <= qc) by (nonlinear_arith)
                    requires
                        (qa + na) * page_size <= lo,
                        lo <= qc * page_size,
                        page_size > 0,
                ;
            } else if !fa && fc {
                assert(qc + nc <= qa) by (nonlinear_arith)
                    requires
                        (qc + nc) * page_size <= lo,
                        lo <= qa * page_size,
                        page_size > 0,
                ;
            }
        }
    }

    /// Blocks put on the lists in two steps do not overlap when the second step's blocks lie
    /// in `[lo, hi)` and each of the first step's blocks lies wholly below `lo` or at or above
    /// `hi`.
    proof fn lemma_disjoint_segments(
        base: &PageMetadataMap,
        m0: &PageMetadataMap,
        m1: &PageMetadataMap,
        page_size: int,
        lo: int,
        hi: int,
    )
        requires
            page_size > 0,
            keeps_free_records(base, m0),
            keeps_free_records(m0, m1),
            base.start_pfn == m0.start_pfn,
            base.metadata@.len() == m0.metadata@.len(),
            m0.metadata@.len() == m1.metadata@.len(),
            blocks_disjoint(base, m0),
            blocks_disjoint(m0, m1),
            forall|i: int|
                #[trigger] newly_free(base, m0, i) ==> (base.start_pfn + i + order_pages(
                    m0.metadata@[i].buddy_order as int,
                )) * page_size <= lo || hi <= (base.start_pfn + i) * page_size,
            forall|i: int|
                #[trigger] newly_free(m0, m1, i) ==> block_within(
                    m0.start_pfn + i,
                    m1.metadata@[i].buddy_order as int,
                    page_size,
                    lo,
                    hi,
                ),
        ensures
            blocks_disjoint(base, m1),
    {
        assert forall|a: int, c: int|
            #[trigger] newly_free(base, m1, a) && #[trigger] newly_free(base, m1, c) && a != c implies {
                let qa = base.start_pfn + a;
                let qc = base.start_pfn + c;
                qa + order_pages(m1.metadata@[a].buddy_order as int) <= qc || qc + order_pages(
                    m1.metadata@[c].buddy_order as int,
                ) <= qa
            } by {
            let fa = m0.metadata@[a].spec_is_buddy_free();
            let fc = m0.metadata@[c].spec_is_buddy_free();
            if fa {
                assert(newly_free(base, m0, a));
            } else {
                assert(newly_free(m0, m1, a));
            }
            if fc {
                assert(newly_free(base, m0, c));
            } else {
                assert(newly_free(m0, m1, c));
            }
            let qa = base.start_pfn + a;
            let qc = base.start_pfn + c;
            let na = order_pages(m1.metadata@[a].buddy_order as int);
            let nc = order_pages(m1.metadata@[c].buddy_order as int);
            if fa && !fc {
                if (qa + na) * page_size <= lo {
                    assert(qa + na <= qc) by (nonlinear_arith)
                        requires
                            (qa + na) * page_size <= lo,
                            lo <= qc * page_size,
                            page_size > 0,
                    ;
                } else {
                    assert(qc + nc <= qa) by (nonlinear_arith)
                        requires
                            (qc + nc) * page_size <= hi,
                            hi <= qa * page_size,
                            page_size > 0,
                    ;
                }
            } else if !fa && fc {
                if (qc + nc) * page_size <= lo {
                    assert(qc + nc <= qa) by (nonlinear_arith)
                        requires
                            (qc + nc) * page_size <= lo,
                            lo <= qa * page_size,
                            page_size > 0,
                    ;
                } else {
                    assert(qa + na <= qc) by (nonlinear_arith)
                        requires
                            (qa + na) * page_size <= hi,
                            hi <= qc * page_size,
                            page_size > 0,
                    ;
                }
            }
        }
    }

    /// Adds the whole pages of `[start, end)` to the lists of zone `zone_index`, each time
    /// as the largest naturally aligned block that fits.
    pub fn populate_free_segment(
        &mut self,
        zone_index: usize,
        start: usize,
        end: usize,
        map: &mut PageMetadataMap,
        page_size: usize,
    ) -> (r: bool)
        requires
            old(self).inv(),
            old(map).wf(),
            old(map).lifecycle@ == State::Ready,
        ensures
            final(self).inv(),
            keeps_zones(*old(self), *final(self)),
            final(map).wf(),
            *final(map) == (PageMetadataMap { metadata: final(map).metadata, ..*old(map) }),
            r ==> final(self).total_free_pages >= old(self).total_free_pages,
            r && is_pow2(page_size) && round_up_value_spec(start, page_size) is Some ==> {
                let lo = round_up_value_spec(start, page_size)->0;
                let hi = round_down_spec(end as int, page_size as int);
                final(self).total_free_pages == old(self).total_free_pages + (if lo < hi {
                    (hi - lo) / page_size as int
                } else {
                    0
                })
            },
            is_pow2(page_size) && round_up_value_spec(start, page_size) is Some ==> {
                let lo = round_up_value_spec(start, page_size)->0 as int;
                let hi = round_down_spec(end as int, page_size as int);
                lo < hi && old(self).spec_can_add_frames(
                    zone_index,
                    lo / page_size as int,
                    hi / page_size as int,
                    old(map),
                ) || lo >= hi ==> r
            },
            r ==> is_pow2(page_size),
            r ==> keeps_free_records(old(map), final(map)),
            r ==> blocks_disjoint(old(map), final(map)),
            r && is_pow2(page_size) ==> forall|q: int|
                start <= q * page_size && (q + 1) * page_size <= end ==> #[trigger] frame_covered(
                    old(map),
                    final(map),
                    q,
                ),
            r ==> forall|i: int|
                #[trigger] newly_free(old(map), final(map), i) ==> block_within(
                    old(map).start_pfn + i,
                    final(map).metadata@[i].buddy_order as int,
                    page_size as int,
                    start as int,
                    end as int,
                ),
    {
        let aligned_start = match round_up_value(start, page_size) {
            Some(s) => s,
            None => return false,
        };
        let aligned_end = match round_down_value(end, page_size) {
            Some(e) => e,
            None => return false,
        };
        proof {
            if is_pow2(page_size) {
                lemma_align_masks(0, page_size);
                lemma_round_down_bounds(end as int, page_size as int);
                lemma_round_up_bounds(start as int, page_size as int);
            }
        }
        if aligned_start >= aligned_end {
            assert forall|i: int| #[trigger] newly_free(old(map), map, i) implies false by {}
            proof {
                let ps = page_size as int;
                assert forall|q: int|
                    start <= q * ps && (q + 1) * ps <= end implies #[trigger] frame_covered(
                    old(map),
                    map,
                    q,
                ) by {
                    Self::lemma_page_between_rounds(start as int, end as int, ps, q);
                    assert((q + 1) * ps == q * ps + ps) by (nonlinear_arith);
                    assert(aligned_start as int == round_up_spec(start as int, ps));
                    assert(aligned_end as int == round_down_spec(end as int, ps));
                }
            }
            return true;
        }
        let mut pfn = match phys_to_pfn_value(aligned_start, page_size) {
            Some(p) => p,
            None => return false,
        };
        let end_pfn = match phys_to_pfn_value(aligned_end, page_size) {
            Some(p) => p,
            None => return false,
        };
        proof {
            lemma_align_masks(0, page_size);
            vstd::arithmetic::div_mod::lemma_fundamental_div_mod(aligned_start as int, page_size as int);
            vstd::arithmetic::div_mod::lemma_fundamental_div_mod(aligned_end as int, page_size as int);
            let ps = page_size as int;
            let a = aligned_start as int;
            let b = aligned_end as int;
            assert((b - a) / ps == b / ps - a / ps) by (nonlinear_arith)
                requires
                    ps > 0,
                    a == ps * (a / ps),
                    b == ps * (b / ps),
            {
                vstd::arithmetic::div_mod::lemma_div_multiples_vanish(b / ps - a / ps, ps);
                assert(b - a == ps * (b / ps - a / ps)) by (nonlinear_arith)
                    requires
                        a == ps * (a / ps),
                        b == ps * (b / ps),
                ;
            }
            assert(a / ps < b / ps) by (nonlinear_arith)
                requires
                    ps > 0,
                    a < b,
                    a == ps * (a / ps),
                    b == ps * (b / ps),
            ;
        }
        let ghost start_pfn = pfn;
        let ghost old_total = self.total_free_pages;
        let ghost addable = old(self).spec_can_add_frames(
            zone_index,
            pfn as int,
            end_pfn as int,
            old(map),
        );
        assert(start_pfn == aligned_start as int / page_size as int);
        assert(end_pfn == aligned_end as int / page_size as int);
        while pfn < end_pfn
            invariant
                self.inv(),
                keeps_zones(*old(self), *self),
                map.wf(),
                map.lifecycle@ == State::Ready,
                *map == (PageMetadataMap { metadata: map.metadata, ..*old(map) }),
                start_pfn <= pfn <= end_pfn,
                self.total_free_pages == old_total + (pfn - start_pfn),
                old_total == old(self).total_free_pages,
                addable ==> self.spec_can_add_frames(zone_index, pfn as int, end_pfn as int, map),
                addable == old(self).spec_can_add_frames(
                    zone_index,
                    start_pfn as int,
                    end_pfn as int,
                    old(map),
                ),
                is_pow2(page_size),
                aligned_start as int == round_up_value_spec(start, page_size)->0,
                round_up_value_spec(start, page_size) is Some,
                aligned_end as int == round_down_spec(end as int, page_size as int),
                aligned_start < aligned_end,
                start_pfn == aligned_start as int / page_size as int,
                end_pfn == aligned_end as int / page_size as int,
                start as int <= aligned_start,
                aligned_end <= end,
                map.metadata@.len() == old(map).metadata@.len(),
                keeps_free_records(old(map), map),
                forall|i: int|
                    #[trigger] newly_free(old(map), map, i) ==> {
                        let o = map.metadata@[i].buddy_order as int;
                        let q = old(map).start_pfn + i;
                        &&& 0 <= o < BUDDY_ORDER_COUNT
                        &&& q % order_pages(o) == 0
                        &&& start_pfn <= q
                        &&& q + order_pages(o) <= pfn
                    },
                forall|q: int| start_pfn <= q < pfn ==> #[trigger] frame_covered(old(map), map, q),
                blocks_disjoint(old(map), map),
            decreases end_pfn - pfn,
        {
            let remaining = end_pfn - pfn;
            let order = largest_buddy_order(pfn, remaining);
            proof {
                lemma2_to64();
                lemma_pow2_pos(order as nat);
                if order < 10 {
                    lemma_pow2_strictly_increases(order as nat, 10);
                }
                if addable {
                    assert(frame_addable(map, pfn as int));
                    lemma_total_covers(self.areas@, zone_index * 11 + order);
                    assert(self.area(zone_index as int, order as int).head_index
                        == BUDDY_INVALID_INDEX || map.spec_metadata_by_index(
                        self.area(zone_index as int, order as int).head_index,
                    ) is Some);
                    assert(self.spec_can_add(zone_index, order, pfn, map));
                }
            }
            let ghost s0 = *self;
            let ghost m0 = *map;
            if !self.add_free_block(zone_index, order, pfn, map) {
                return false;
            }
            let pages = block_pages(order);
            assert(pages <= remaining);
            proof {
                let index = m0.spec_pfn_to_page(Pfn { value: pfn })->0.metadata_index as int;
                let head = s0.areas@[zone_index * 11 + order].head_index as int;
                assert(index == pfn - old(map).start_pfn);
                m0.metadata@[index].lemma_marks(order, 0, 0);
                assert(pfn % (order_pages(order as int) as usize) == 0);
                assert forall|i: int|
                    0 <= i < old(map).metadata@.len() && #[trigger] old(map).metadata@[i].spec_is_buddy_free()
                        implies i < map.metadata@.len() && map.metadata@[i].flags == old(map).metadata@[i].flags
                        && map.metadata@[i].buddy_order == old(map).metadata@[i].buddy_order by {
                    assert(m0.metadata@[i].flags == old(map).metadata@[i].flags);
                    assert(i != index);
                }
                assert(newly_free(old(map), map, index));
                assert forall|a: int, c: int|
                    #[trigger] newly_free(old(map), map, a) && #[trigger] newly_free(old(map), map, c)
                        && a != c implies {
                        let qa = old(map).start_pfn + a;
                        let qc = old(map).start_pfn + c;
                        qa + order_pages(map.metadata@[a].buddy_order as int) <= qc || qc
                            + order_pages(map.metadata@[c].buddy_order as int) <= qa
                    } by {
                    if a != index {
                        assert(map.metadata@[a].flags == m0.metadata@[a].flags);
                        assert(map.metadata@[a].buddy_order == m0.metadata@[a].buddy_order);
                        assert(newly_free(old(map), &m0, a));
                    }
                    if c != index {
                        assert(map.metadata@[c].flags == m0.metadata@[c].flags);
                        assert(map.metadata@[c].buddy_order == m0.metadata@[c].buddy_order);
                        assert(newly_free(old(map), &m0, c));
                    }
                }
                assert forall|q: int| start_pfn <= q < pfn + pages implies #[trigger] frame_covered(
                    old(map),
                    map,
                    q,
                ) by {
                    if q < pfn {
                        assert(frame_covered(old(map), &m0, q));
                        let w = choose|w: int|
                            #[trigger] newly_free(old(map), &m0, w) && old(map).start_pfn + w <= q
                                < old(map).start_pfn + w + order_pages(
                                m0.metadata@[w].buddy_order as int,
                            );
                        assert(w != index);
                        assert(map.metadata@[w].flags == m0.metadata@[w].flags);
                        assert(map.metadata@[w].buddy_order == m0.metadata@[w].buddy_order);
                        assert(newly_free(old(map), map, w));
                    } else {
                        assert(map.metadata@[index].buddy_order == order);
                    }
                }
                assert forall|i: int| #[trigger] newly_free(old(map), map, i) implies {
                    let o = map.metadata@[i].buddy_order as int;
                    let q = old(map).start_pfn + i;
                    &&& 0 <= o < BUDDY_ORDER_COUNT
                    &&& q % order_pages(o) == 0
                    &&& start_pfn <= q
                    &&& q + order_pages(o) <= pfn + pages
                } by {
                    if i != index {
                        assert(map.metadata@[i].flags == m0.metadata@[i].flags);
                        assert(map.metadata@[i].buddy_order == m0.metadata@[i].buddy_order);
                        assert(newly_free(old(map), &m0, i));
                    }
                }
                if addable {
                    let index = m0.spec_pfn_to_page(Pfn { value: pfn })->0.metadata_index;
                    let head = s0.areas@[zone_index * 11 + order].head_index;
                    assert forall|p: int| pfn + pages <= p < end_pfn implies #[trigger] frame_addable(
                        map,
                        p,
                    ) by {
                        assert(frame_addable(&m0, p));
                        let ip = m0.spec_pfn_to_page(Pfn { value: p as usize })->0.metadata_index;
                        assert(ip != index);
                        assert(map.metadata@[ip as int].flags == m0.metadata@[ip as int].flags);
                    }
                    assert forall|o: int| 0 <= o < BUDDY_ORDER_COUNT implies #[trigger] self.area(
                        zone_index as int,
                        o,
                    ).head_index == BUDDY_INVALID_INDEX || map.spec_metadata_by_index(
                        self.area(zone_index as int, o).head_index,
                    ) is Some by {
                        assert(s0.area(zone_index as int, o).head_index == BUDDY_INVALID_INDEX
                            || m0.spec_metadata_by_index(s0.area(zone_index as int, o).head_index)
                            is Some);
                        if o != order {
                            assert(self.areas@[zone_index * 11 + o] == s0.areas@[zone_index * 11
                                + o]);
                        } else {
                            assert(self.area(zone_index as int, o).head_index == index);
                            assert(m0.spec_metadata_by_index(index) is Some);
                        }
                    }
                }
            }
            pfn = pfn + pages;
        }
        assert(aligned_start as int == round_up_value_spec(start, page_size)->0);
        assert(aligned_end as int == round_down_spec(end as int, page_size as int));
        assert(start_pfn == aligned_start as int / page_size as int);
        assert(end_pfn == aligned_end as int / page_size as int);
        proof {
            let ps = page_size as int;
            vstd::arithmetic::div_mod::lemma_fundamental_div_mod(aligned_start as int, ps);
            vstd::arithmetic::div_mod::lemma_fundamental_div_mod(aligned_end as int, ps);
            assert forall|q: int|
                start <= q * ps && (q + 1) * ps <= end implies #[trigger] frame_covered(
                old(map),
                map,
                q,
            ) by {
                Self::lemma_page_between_rounds(start as int, end as int, ps, q);
            }
            assert forall|i: int| #[trigger] newly_free(old(map), map, i) implies block_within(
                old(map).start_pfn + i,
                map.metadata@[i].buddy_order as int,
                ps,
                start as int,
                end as int,
            ) by {
                let o = map.metadata@[i].buddy_order as int;
                let q = old(map).start_pfn + i;
                let n = order_pages(o);
                let a = aligned_start as int / ps;
                let e = aligned_end as int / ps;
                assert(a * ps <= q * ps) by (nonlinear_arith)
                    requires
                        a <= q,
                        ps > 0,
                ;
                assert((q + n) * ps <= e * ps) by (nonlinear_arith)
                    requires
                        q + n <= e,
                        ps > 0,
                ;
                assert(aligned_start as int == ps * a);
                assert(aligned_end as int == ps * e);
            }
        }
        true
    }

    /// After a segment `[lo, hi)` of `[start, end)` that no reservation reaches into was
    /// added, the blocks newly put on the lists since `base` still lie in `[start, end)` and
    /// clear of every reservation.
    proof fn lemma_segment_step(
        memblock: &MemBlock,
        base: &PageMetadataMap,
        mid: &PageMetadataMap,
        after: &PageMetadataMap,
        page_size: usize,
        start: usize,
        end: usize,
        lo: usize,
        hi: usize,
    )
        requires
            start <= lo,
            hi <= end,
            mid.metadata@.len() == base.metadata@.len(),
            after.start_pfn == base.start_pfn,
            mid.start_pfn == base.start_pfn,
            forall|x: int|
                0 <= x < memblock.reserved@.len() && #[trigger] memblock.reserved@[x].start < hi
                    ==> memblock.reserved@[x].end <= lo,
            keeps_free_records(base, mid),
            forall|i: int|
                #[trigger] newly_free(base, mid, i) ==> {
                    let q = base.start_pfn + i;
                    let o = mid.metadata@[i].buddy_order as int;
                    &&& block_within(q, o, page_size as int, start as int, end as int)
                    &&& !memblock.reserved.spec_overlaps_range(block_range(q, o, page_size as int))
                },
            keeps_free_records(mid, after),
            forall|i: int|
                #[trigger] newly_free(mid, after, i) ==> block_within(
                    mid.start_pfn + i,
                    after.metadata@[i].buddy_order as int,
                    page_size as int,
                    lo as int,
                    hi as int,
                ),
            after.metadata@.len() == mid.metadata@.len(),
        ensures
            keeps_free_records(base, after),
            forall|i: int|
                #[trigger] newly_free(base, after, i) ==> {
                    let q = base.start_pfn + i;
                    let o = after.metadata@[i].buddy_order as int;
                    &&& block_within(q, o, page_size as int, start as int, end as int)
                    &&& !memblock.reserved.spec_overlaps_range(block_range(q, o, page_size as int))
                },
    {
        assert forall|i: int|
            0 <= i < base.metadata@.len() && #[trigger] base.metadata@[i].spec_is_buddy_free()
                implies i < after.metadata@.len() && after.metadata@[i].flags
                == base.metadata@[i].flags && after.metadata@[i].buddy_order
                == base.metadata@[i].buddy_order by {
            assert(mid.metadata@[i].spec_is_buddy_free());
        }
        assert forall|i: int| #[trigger] newly_free(base, after, i) implies {
            let q = base.start_pfn + i;
            let o = after.metadata@[i].buddy_order as int;
            &&& block_within(q, o, page_size as int, start as int, end as int)
            &&& !memblock.reserved.spec_overlaps_range(block_range(q, o, page_size as int))
        } by {
            if mid.metadata@[i].spec_is_buddy_free() {
                assert(newly_free(base, mid, i));
                assert(after.metadata@[i].buddy_order == mid.metadata@[i].buddy_order);
            } else {
                assert(newly_free(mid, after, i));
                let q = base.start_pfn + i;
                let o = after.metadata@[i].buddy_order as int;
                let br = block_range(q, o, page_size as int);
                let ps = page_size as int;
                assert(q * ps >= 0) by (nonlinear_arith)
                    requires
                        q >= 0,
                        ps >= 0,
                ;
                lemma_pow2_pos(o as nat);
                let n = order_pages(o);
                assert(q * ps <= (q + n) * ps) by (nonlinear_arith)
                    requires
                        n >= 0,
                        ps >= 0,
                ;
                assert(br.start == q * ps);
                assert(br.end == (q + order_pages(o)) * ps);
                if memblock.reserved.spec_overlaps_range(br) {
                    let x = choose|x: int|
                        0 <= x < memblock.reserved@.len() && #[trigger] memblock.reserved@[x].start
                            < br.end && br.start < memblock.reserved@[x].end;
                    assert(memblock.reserved@[x].start < hi);
                }
            }
        }
    }

    /// Adds the parts of `[start, end)` that no reservation covers, in address order.
    pub fn populate_unreserved_segment(
        &mut self,
        zone_index: usize,
        start: usize,
        end: usize,
        memblock: &MemBlock,
        map: &mut PageMetadataMap,
        page_size: usize,
    ) -> (r: bool)
        requires
            old(self).inv(),
            old(map).wf(),
            old(map).lifecycle@ == State::Ready,
            memblock.wf(),
        ensures
            final(self).inv(),
            keeps_zones(*old(self), *final(self)),
            final(map).wf(),
            *final(map) == (PageMetadataMap { metadata: final(map).metadata, ..*old(map) }),
            r ==> final(self).total_free_pages >= old(self).total_free_pages,
            start >= end ==> r && *final(self) == *old(self) && *final(map) == *old(map),
            start < end && !memblock.reserved.spec_overlaps_range(PhysRange { start, end }) && is_pow2(
                page_size,
            ) && round_up_value_spec(start, page_size) is Some ==> {
                let lo = round_up_value_spec(start, page_size)->0 as int;
                let hi = round_down_spec(end as int, page_size as int);
                &&& lo < hi && old(self).spec_can_add_frames(
                    zone_index,
                    lo / page_size as int,
                    hi / page_size as int,
                    old(map),
                ) || lo >= hi ==> r
                &&& r ==> final(self).total_free_pages == old(self).total_free_pages + (if lo
                    < hi {
                    (hi - lo) / page_size as int
                } else {
                    0
                })
            },
            r ==> keeps_free_records(old(map), final(map)),
            r && reservations_well_formed(memblock) ==> blocks_disjoint(old(map), final(map)),
            r && is_pow2(page_size) ==> forall|q: int|
                start <= q * page_size && (q + 1) * page_size <= end
                    && !memblock.reserved.spec_overlaps_range(page_range(q, page_size as int))
                    ==> #[trigger] frame_covered(old(map), final(map), q),
            r ==> forall|i: int|
                #[trigger] newly_free(old(map), final(map), i) ==> {
                    let q = old(map).start_pfn + i;
                    let o = final(map).metadata@[i].buddy_order as int;
                    &&& block_within(q, o, page_size as int, start as int, end as int)
                    &&& !memblock.reserved.spec_overlaps_range(block_range(q, o, page_size as int))
                },
    {
        let mut cursor = start;
        while cursor < end
            invariant
                self.inv(),
                keeps_zones(*old(self), *self),
                map.wf(),
                map.lifecycle@ == State::Ready,
                *map == (PageMetadataMap { metadata: map.metadata, ..*old(map) }),
                memblock.wf(),
                self.total_free_pages >= old(self).total_free_pages,
                cursor >= start,
                cursor == start ==> *self == *old(self) && *map == *old(map),
                start >= end ==> cursor == start,
                start < end && !memblock.reserved.spec_overlaps_range(PhysRange { start, end })
                    ==> cursor == start,
                map.metadata@.len() == old(map).metadata@.len(),
                keeps_free_records(old(map), map),
                forall|i: int|
                    #[trigger] newly_free(old(map), map, i) ==> {
                        let q = old(map).start_pfn + i;
                        let o = map.metadata@[i].buddy_order as int;
                        &&& block_within(q, o, page_size as int, start as int, end as int)
                        &&& !memblock.reserved.spec_overlaps_range(
                            block_range(q, o, page_size as int),
                        )
                    },
                is_pow2(page_size) ==> forall|q: int|
                    start <= q * page_size && q * page_size < cursor && (q + 1) * page_size <= end
                        && !memblock.reserved.spec_overlaps_range(page_range(q, page_size as int))
                        ==> #[trigger] frame_covered(old(map), map, q),
                map.start_pfn == old(map).start_pfn,
                reservations_well_formed(memblock) ==> blocks_disjoint(old(map), map),
                reservations_well_formed(memblock) ==> forall|i: int|
                    #[trigger] newly_free(old(map), map, i) ==> (old(map).start_pfn + i
                        + order_pages(map.metadata@[i].buddy_order as int)) * page_size <= cursor,
            decreases usize::MAX - cursor,
        {
            let ghost m0 = *map;
            let reserved = match next_reserved_overlap(memblock, cursor, end) {
                Some(r) => r,
                None => {
                    let r = self.populate_free_segment(zone_index, cursor, end, map, page_size);
                    proof {
                        if r && is_pow2(page_size) {
                            let ps = page_size as int;
                            assert forall|q: int|
                                start <= q * ps && (q + 1) * ps <= end
                                    && !memblock.reserved.spec_overlaps_range(page_range(q, ps))
                                    implies #[trigger] frame_covered(old(map), map, q) by {
                                if q * ps < cursor {
                                    assert(frame_covered(old(map), &m0, q));
                                    Self::lemma_covered_carry(old(map), &m0, map, q);
                                } else {
                                    assert(frame_covered(&m0, map, q));
                                    Self::lemma_covered_rebase(old(map), &m0, map, q);
                                }
                            }
                        }
                        if r {
                            if is_pow2(page_size) && reservations_well_formed(memblock) {
                                lemma_align_masks(0, page_size);
                                assert forall|i: int| #[trigger] newly_free(&m0, map, i) implies cursor
                                    <= (m0.start_pfn + i) * page_size by {}
                                Self::lemma_disjoint_step(
                                    old(map),
                                    &m0,
                                    map,
                                    page_size as int,
                                    cursor as int,
                                );
                            }
                            Self::lemma_segment_step(
                                memblock,
                                old(map),
                                &m0,
                                map,
                                page_size,
                                start,
                                end,
                                cursor,
                                end,
                            );
                        }
                    }
                    return r;
                },
            };
            if reserved.start() > cursor {
                let ghost m1 = *map;
                if !self.populate_free_segment(
                    zone_index,
                    cursor,
                    reserved.start(),
                    map,
                    page_size,
                ) {
                    return false;
                }
                proof {
                    assert forall|x: int|
                        0 <= x < memblock.reserved@.len() && #[trigger] memblock.reserved@[x].start
                            < reserved.start && cursor < memblock.reserved@[x].end implies false by {
                        assert(memblock.reserved@[x].start < end);
                    }
                    Self::lemma_segment_step(
                        memblock,
                        old(map),
                        &m1,
                        map,
                        page_size,
                        start,
                        end,
                        cursor,
                        reserved.start,
                    );
                }
            }
            let ghost old_cursor = cursor;
            let ghost m2 = *map;
            proof {
                if reservations_well_formed(memblock) && reserved.start > old_cursor {
                    lemma_align_masks(0, page_size);
                    assert forall|i: int| #[trigger] newly_free(&m0, map, i) implies old_cursor
                        <= (m0.start_pfn + i) * page_size by {}
                    Self::lemma_disjoint_step(
                        old(map),
                        &m0,
                        map,
                        page_size as int,
                        old_cursor as int,
                    );
                }
            }
            cursor = if cursor < reserved.end() {
                reserved.end()
            } else {
                cursor
            };
            proof {
                if reservations_well_formed(memblock) {
                    let xi = choose|xi: int|
                        0 <= xi < memblock.reserved@.len() && memblock.reserved@[xi] == reserved;
                    assert(memblock.reserved@[xi].start <= memblock.reserved@[xi].end);
                    assert forall|i: int| #[trigger] newly_free(old(map), map, i) implies (old(map).start_pfn + i + order_pages(map.metadata@[i].buddy_order as int))
                        * page_size <= cursor by {
                        if m0.metadata@[i].spec_is_buddy_free() {
                            assert(newly_free(old(map), &m0, i));
                        } else {
                            assert(newly_free(&m0, map, i));
                        }
                    }
                }
                if is_pow2(page_size) {
                    let ps = page_size as int;
                    lemma_align_masks(0, page_size);
                    let xi = choose|xi: int|
                        0 <= xi < memblock.reserved@.len() && memblock.reserved@[xi] == reserved;
                    assert forall|q: int|
                        start <= q * ps && q * ps < cursor && (q + 1) * ps <= end
                            && !memblock.reserved.spec_overlaps_range(page_range(q, ps))
                            implies #[trigger] frame_covered(old(map), map, q) by {
                        assert((q + 1) * ps == q * ps + ps) by (nonlinear_arith);
                        if q * ps < old_cursor {
                            assert(frame_covered(old(map), &m0, q));
                            if reserved.start > old_cursor {
                                Self::lemma_covered_carry(old(map), &m0, map, q);
                            }
                        } else if reserved.start > old_cursor && (q + 1) * ps <= reserved.start {
                            assert(frame_covered(&m0, map, q));
                            Self::lemma_covered_rebase(old(map), &m0, map, q);
                        } else {
                            assert(memblock.reserved@[xi].start < page_range(q, ps).end
                                && page_range(q, ps).start < memblock.reserved@[xi].end);
                        }
                    }
                }
            }
        }
        proof {
            if is_pow2(page_size) {
                let ps = page_size as int;
                lemma_align_masks(0, page_size);
                assert forall|q: int|
                    start <= q * ps && (q + 1) * ps <= end && !memblock.reserved.spec_overlaps_range(
                        page_range(q, ps),
                    ) implies #[trigger] frame_covered(old(map), map, q) by {
                    assert((q + 1) * ps == q * ps + ps) by (nonlinear_arith);
                }
            }
        }
        true
    }

    /// The whole pages of the overlap of the first usable range and the zone range `zr`.
    pub open spec fn single_segment_pages(memblock: &MemBlock, zr: PhysRange, page_size: usize) -> int {
        let u = memblock.usable@[0];
        let seg_start = max_spec(u.start as int, zr.start as int) as usize;
        let seg_end = min_spec(u.end as int, zr.end as int) as usize;
        let lo = round_up_value_spec(seg_start, page_size)->0 as int;
        let hi = round_down_spec(seg_end as int, page_size as int);
        (hi - lo) / page_size as int
    }

    /// Setup owes ready lists where memory is one usable range and one zone whose overlap
    /// no reservation touches and holds at least one whole page, each such page managed with
    /// a record that carries no buddy state.
    pub open spec fn setup_single_owed(
        memblock: &MemBlock,
        zr: PhysRange,
        zone_fact_count: usize,
        map: &PageMetadataMap,
        page_size: usize,
    ) -> bool {
        let u = memblock.usable@[0];
        let seg_start = max_spec(u.start as int, zr.start as int) as usize;
        let seg_end = min_spec(u.end as int, zr.end as int) as usize;
        let lo = round_up_value_spec(seg_start, page_size)->0 as int;
        let hi = round_down_spec(seg_end as int, page_size as int);
        &&& memblock.lifecycle@ == State::Online
        &&& map.lifecycle@ == State::Ready
        &&& zone_fact_count == 1
        &&& is_pow2(page_size)
        &&& memblock.usable@.len() == 1
        &&& seg_start < seg_end
        &&& !memblock.reserved.spec_overlaps_range(PhysRange { start: seg_start, end: seg_end })
        &&& round_up_value_spec(seg_start, page_size) is Some
        &&& lo < hi
        &&& forall|p: int|
            lo / (page_size as int) <= p < hi / (page_size as int) ==> #[trigger] frame_addable(
                map,
                p,
            )
    }

    /// Builds the lists of every zone from usable memory minus the reservations; the lists
    /// are ready when they hold at least one free page.
    pub fn setup(
        &mut self,
        memblock: &MemBlock,
        zone_facts: &[ZoneRef; 3],
        zone_fact_count: usize,
        map: &mut PageMetadataMap,
        page_size: usize,
    ) -> (r: bool)
        requires
            old(self).inv(),
            old(map).wf(),
            memblock.wf(),
            zone_fact_count <= 3,
        ensures
            final(self).inv(),
            final(map).wf(),
            *final(map) == (PageMetadataMap { metadata: final(map).metadata, ..*old(map) }),
            memblock.lifecycle@ != State::Online || old(map).lifecycle@ != State::Ready
                || zone_fact_count == 0 || !is_pow2(page_size) ==> !r && *final(self) == *old(self)
                && *final(map) == *old(map),
            memblock.lifecycle@ == State::Online && old(map).lifecycle@ == State::Ready
                && zone_fact_count != 0 && is_pow2(page_size) ==> r == final(self).ready,
            r ==> final(self).total_free_pages != 0 && final(self).free_block_count != 0,
            r ==> keeps_free_records(old(map), final(map)),
            r && reservations_well_formed(memblock) && segments_disjoint(
                memblock,
                zone_facts,
                zone_fact_count,
            ) ==> blocks_disjoint(old(map), final(map)),
            r ==> forall|q: int|
                (exists|ri: int, zi: int|
                    0 <= ri < memblock.usable@.len() && 0 <= zi < zone_fact_count
                        && #[trigger] page_in_segment(
                        memblock,
                        zone_facts@[zi].range,
                        ri,
                        q,
                        page_size as int,
                    )) && !memblock.reserved.spec_overlaps_range(page_range(q, page_size as int))
                    ==> #[trigger] frame_covered(old(map), final(map), q),
            r ==> forall|i: int|
                #[trigger] newly_free(old(map), final(map), i) ==> {
                    let q = old(map).start_pfn + i;
                    let o = final(map).metadata@[i].buddy_order as int;
                    &&& exists|ri: int, zi: int|
                        0 <= ri < memblock.usable@.len() && 0 <= zi < zone_fact_count
                            && #[trigger] block_in_segment(
                            memblock,
                            zone_facts@[zi].range,
                            ri,
                            q,
                            o,
                            page_size as int,
                        )
                    &&& !memblock.reserved.spec_overlaps_range(block_range(q, o, page_size as int))
                },
            r ==> final(self).zone_count == zone_fact_count && forall|i: int|
                0 <= i < zone_fact_count ==> #[trigger] final(self).zone_kinds@[i] == Some(
                    zone_facts@[i].kind,
                ),
            Self::setup_single_owed(
                memblock,
                zone_facts@[0].range,
                zone_fact_count,
                old(map),
                page_size,
            ) ==> r && final(self).total_free_pages == Self::single_segment_pages(
                memblock,
                zone_facts@[0].range,
                page_size,
            ),
    {
        proof {
            if is_pow2(page_size) {
                lemma_align_masks(0, page_size);
            }
        }
        if memblock.state() != State::Online || map.state() != State::Ready || zone_fact_count
            == 0 || page_size == 0 || !is_power_of_two(page_size) {
            return false;
        }
        let ghost single = Self::setup_single_owed(
            memblock,
            zone_facts@[0].range,
            zone_fact_count,
            old(map),
            page_size,
        );
        *self = Self::new();
        self.zone_count = zone_fact_count;
        let mut zone_index: usize = 0;
        while zone_index < zone_fact_count
            invariant
                self.inv(),
                !self.ready,
                self.zone_count == zone_fact_count,
                zone_fact_count <= 3,
                zone_index <= zone_fact_count,
                self.total_free_pages == 0,
                self.free_block_count == 0,
                forall|k: int| 0 <= k < BUDDY_AREA_COUNT ==> #[trigger] self.areas@[k]
                    == BuddyFreeArea::spec_empty(),
                forall|i: int| 0 <= i < zone_index ==> #[trigger] self.zone_kinds@[i] == Some(
                    zone_facts@[i].kind,
                ),
            decreases zone_fact_count - zone_index,
        {
            self.zone_kinds[zone_index] = Some(zone_facts[zone_index].kind());
            zone_index += 1;
        }
        let usable = memblock.usable_ranges();
        let mut range_index: usize = 0;
        while range_index < usable.count()
            invariant
                self.inv(),
                !self.ready,
                self.zone_count == zone_fact_count,
                zone_fact_count <= 3,
                forall|i: int| 0 <= i < zone_fact_count ==> #[trigger] self.zone_kinds@[i]
                    == Some(zone_facts@[i].kind),
                map.wf(),
                map.lifecycle@ == State::Ready,
                *map == (PageMetadataMap { metadata: map.metadata, ..*old(map) }),
                memblock.wf(),
                *usable == memblock.usable,
                range_index <= usable.count,
                memblock.lifecycle@ == State::Online && old(map).lifecycle@ == State::Ready
                    && zone_fact_count != 0 && is_pow2(page_size),
                single == Self::setup_single_owed(
                    memblock,
                    zone_facts@[0].range,
                    zone_fact_count,
                    old(map),
                    page_size,
                ),
                single && range_index == 0 ==> *map == *old(map) && self.total_free_pages == 0
                    && self.free_block_count == 0 && forall|k: int|
                    0 <= k < BUDDY_AREA_COUNT ==> #[trigger] self.areas@[k]
                        == BuddyFreeArea::spec_empty(),
                map.metadata@.len() == old(map).metadata@.len(),
                keeps_free_records(old(map), map),
                forall|i: int|
                    #[trigger] newly_free(old(map), map, i) ==> {
                        let q = old(map).start_pfn + i;
                        let o = map.metadata@[i].buddy_order as int;
                        &&& exists|ri: int, zi: int|
                            0 <= ri < memblock.usable@.len() && 0 <= zi < zone_fact_count
                                && #[trigger] block_in_segment(
                                memblock,
                                zone_facts@[zi].range,
                                ri,
                                q,
                                o,
                                page_size as int,
                            )
                        &&& !memblock.reserved.spec_overlaps_range(
                            block_range(q, o, page_size as int),
                        )
                    },
                forall|q: int|
                    (exists|ri: int, zi: int|
                        0 <= ri < range_index && 0 <= zi < zone_fact_count
                            && #[trigger] page_in_segment(
                            memblock,
                            zone_facts@[zi].range,
                            ri,
                            q,
                            page_size as int,
                        )) && !memblock.reserved.spec_overlaps_range(page_range(q, page_size as int))
                        ==> #[trigger] frame_covered(old(map), map, q),
                reservations_well_formed(memblock) && segments_disjoint(
                    memblock,
                    zone_facts,
                    zone_fact_count,
                ) ==> blocks_disjoint(old(map), map),
                forall|i: int|
                    #[trigger] newly_free(old(map), map, i) ==> exists|ri: int, zi: int|
                        0 <= ri < range_index && 0 <= zi < zone_fact_count
                            && #[trigger] block_in_segment(
                            memblock,
                            zone_facts@[zi].range,
                            ri,
                            old(map).start_pfn + i,
                            map.metadata@[i].buddy_order as int,
                            page_size as int,
                        ),
                map.start_pfn == old(map).start_pfn,
                single && range_index > 0 ==> self.total_free_pages != 0
                    && self.total_free_pages == Self::single_segment_pages(
                    memblock,
                    zone_facts@[0].range,
                    page_size,
                ),
            decreases usable.count - range_index,
        {
            let range = match usable.get(range_index) {
                Some(r) => r,
                None => return false,
            };
            let mut z: usize = 0;
            while z < zone_fact_count
                invariant
                    self.inv(),
                    !self.ready,
                    self.zone_count == zone_fact_count,
                    zone_fact_count <= 3,
                    forall|i: int| 0 <= i < zone_fact_count ==> #[trigger] self.zone_kinds@[i]
                        == Some(zone_facts@[i].kind),
                    map.wf(),
                    map.lifecycle@ == State::Ready,
                    *map == (PageMetadataMap { metadata: map.metadata, ..*old(map) }),
                    memblock.wf(),
                    z <= zone_fact_count,
                    memblock.lifecycle@ == State::Online && old(map).lifecycle@ == State::Ready
                        && zone_fact_count != 0 && is_pow2(page_size),
                    *usable == memblock.usable,
                    range_index < usable.count,
                    range == usable@[range_index as int],
                    single == Self::setup_single_owed(
                        memblock,
                        zone_facts@[0].range,
                        zone_fact_count,
                        old(map),
                        page_size,
                    ),
                    single && range_index == 0 && z == 0 ==> *map == *old(map)
                        && self.total_free_pages == 0 && self.free_block_count == 0 && forall|k: int|
                        0 <= k < BUDDY_AREA_COUNT ==> #[trigger] self.areas@[k]
                            == BuddyFreeArea::spec_empty(),
                    map.metadata@.len() == old(map).metadata@.len(),
                    keeps_free_records(old(map), map),
                    forall|i: int|
                        #[trigger] newly_free(old(map), map, i) ==> {
                            let q = old(map).start_pfn + i;
                            let o = map.metadata@[i].buddy_order as int;
                            &&& exists|ri: int, zi: int|
                                0 <= ri < memblock.usable@.len() && 0 <= zi < zone_fact_count
                                    && #[trigger] block_in_segment(
                                    memblock,
                                    zone_facts@[zi].range,
                                    ri,
                                    q,
                                    o,
                                    page_size as int,
                                )
                            &&& !memblock.reserved.spec_overlaps_range(
                                block_range(q, o, page_size as int),
                            )
                        },
                    forall|q: int|
                        (exists|ri: int, zi: int|
                            0 <= ri < memblock.usable@.len() && 0 <= zi < zone_fact_count && (ri
                                < range_index || ri == range_index && zi < z)
                                && #[trigger] page_in_segment(
                                memblock,
                                zone_facts@[zi].range,
                                ri,
                                q,
                                page_size as int,
                            )) && !memblock.reserved.spec_overlaps_range(
                            page_range(q, page_size as int),
                        ) ==> #[trigger] frame_covered(old(map), map, q),
                    reservations_well_formed(memblock) && segments_disjoint(
                        memblock,
                        zone_facts,
                        zone_fact_count,
                    ) ==> blocks_disjoint(old(map), map),
                    forall|i: int|
                        #[trigger] newly_free(old(map), map, i) ==> exists|ri: int, zi: int|
                            0 <= ri < memblock.usable@.len() && 0 <= zi < zone_fact_count && (ri
                                < range_index || ri == range_index && zi < z)
                                && #[trigger] block_in_segment(
                                memblock,
                                zone_facts@[zi].range,
                                ri,
                                old(map).start_pfn + i,
                                map.metadata@[i].buddy_order as int,
                                page_size as int,
                            ),
                    map.start_pfn == old(map).start_pfn,
                    single && (range_index > 0 || z > 0) ==> self.total_free_pages != 0
                        && self.total_free_pages == Self::single_segment_pages(
                        memblock,
                        zone_facts@[0].range,
                        page_size,
                    ),
                decreases zone_fact_count - z,
            {
                let zone_range = zone_facts[z].range();
                let seg_start = max_usize(range.start(), zone_range.start());
                let seg_end = min_usize(range.end(), zone_range.end());
                proof {
                    if single && range_index == 0 && z == 0 {
                        let ps = page_size as int;
                        let lo = round_up_value_spec(seg_start, page_size)->0 as int;
                        let hi = round_down_spec(seg_end as int, ps);
                        lemma_align_masks(0, page_size);
                        lemma_round_up_bounds(seg_start as int, ps);
                        lemma_round_down_bounds(seg_end as int, ps);
                        assert(hi / ps <= usize::MAX) by (nonlinear_arith)
                            requires
                                ps > 0,
                                0 <= hi <= usize::MAX,
                        ;
                        assert(lo / ps >= 0) by (nonlinear_arith)
                            requires
                                ps > 0,
                                lo >= 0,
                        ;
                        assert(self.spec_can_add_frames(0usize, lo / ps, hi / ps, map))
                            by {
                            assert forall|o: int| 0 <= o < BUDDY_ORDER_COUNT implies #[trigger] self.area(
                                0,
                                o,
                            ).head_index == BUDDY_INVALID_INDEX || map.spec_metadata_by_index(
                                self.area(0, o).head_index,
                            ) is Some by {
                                assert(self.areas@[0 * 11 + o] == BuddyFreeArea::spec_empty());
                            }
                        }
                        vstd::arithmetic::div_mod::lemma_fundamental_div_mod(lo, ps);
                        vstd::arithmetic::div_mod::lemma_fundamental_div_mod(hi, ps);
                        assert((hi - lo) / ps >= 1) by (nonlinear_arith)
                            requires
                                ps > 0,
                                lo < hi,
                                lo == ps * (lo / ps),
                                hi == ps * (hi / ps),
                        {
                            assert(lo / ps < hi / ps) by (nonlinear_arith)
                                requires
                                    ps > 0,
                                    lo < hi,
                                    lo == ps * (lo / ps),
                                    hi == ps * (hi / ps),
                            ;
                            assert(hi - lo >= ps) by (nonlinear_arith)
                                requires
                                    ps > 0,
                                    lo / ps < hi / ps,
                                    lo == ps * (lo / ps),
                                    hi == ps * (hi / ps),
                            ;
                            vstd::arithmetic::div_mod::lemma_div_is_ordered(ps, hi - lo, ps);
                            vstd::arithmetic::div_mod::lemma_div_by_self(ps);
                        }
                    }
                }
                let ghost m1 = *map;
                if seg_start < seg_end && !self.populate_unreserved_segment(
                    z,
                    seg_start,
                    seg_end,
                    memblock,
                    map,
                    page_size,
                ) {
                    return false;
                }
                proof {
                    let ps = page_size as int;
                    lemma_align_masks(0, page_size);
                    assert forall|q: int|
                        (exists|ri: int, zi: int|
                            0 <= ri < memblock.usable@.len() && 0 <= zi < zone_fact_count && (ri
                                < range_index || ri == range_index && zi < z + 1)
                                && #[trigger] page_in_segment(
                                memblock,
                                zone_facts@[zi].range,
                                ri,
                                q,
                                ps,
                            )) && !memblock.reserved.spec_overlaps_range(page_range(q, ps))
                            implies #[trigger] frame_covered(old(map), map, q) by {
                        let (ri, zi) = choose|ri: int, zi: int|
                            0 <= ri < memblock.usable@.len() && 0 <= zi < zone_fact_count && (ri
                                < range_index || ri == range_index && zi < z + 1)
                                && #[trigger] page_in_segment(
                                memblock,
                                zone_facts@[zi].range,
                                ri,
                                q,
                                ps,
                            );
                        if ri < range_index || zi < z {
                            assert(frame_covered(old(map), &m1, q));
                            if seg_start < seg_end {
                                Self::lemma_covered_carry(old(map), &m1, map, q);
                            }
                        } else {
                            assert((q + 1) * ps == q * ps + ps) by (nonlinear_arith);
                            assert(seg_start as int <= q * ps && (q + 1) * ps <= seg_end as int);
                            assert(frame_covered(&m1, map, q));
                            Self::lemma_covered_rebase(old(map), &m1, map, q);
                        }
                    }
                    assert forall|i: int| #[trigger] newly_free(old(map), map, i) implies exists|
                        ri: int,
                        zi: int,
                    |
                        0 <= ri < memblock.usable@.len() && 0 <= zi < zone_fact_count && (ri
                            < range_index || ri == range_index && zi < z + 1)
                            && #[trigger] block_in_segment(
                            memblock,
                            zone_facts@[zi].range,
                            ri,
                            old(map).start_pfn + i,
                            map.metadata@[i].buddy_order as int,
                            ps,
                        ) by {
                        if m1.metadata@[i].spec_is_buddy_free() || !(seg_start < seg_end) {
                            assert(newly_free(old(map), &m1, i));
                            assert(map.metadata@[i].buddy_order == m1.metadata@[i].buddy_order);
                        } else {
                            assert(newly_free(&m1, map, i));
                            assert(block_in_segment(
                                memblock,
                                zone_facts@[z as int].range,
                                range_index as int,
                                old(map).start_pfn + i,
                                map.metadata@[i].buddy_order as int,
                                ps,
                            ));
                        }
                    }
                    if seg_start < seg_end && reservations_well_formed(memblock) && segments_disjoint(
                        memblock,
                        zone_facts,
                        zone_fact_count,
                    ) {
                        assert forall|i: int|
                            #[trigger] newly_free(old(map), &m1, i) implies (old(map).start_pfn + i
                                + order_pages(m1.metadata@[i].buddy_order as int)) * ps
                                <= seg_start as int || seg_end as int <= (old(map).start_pfn + i) * ps by {
                            let (ri, zi) = choose|ri: int, zi: int|
                                0 <= ri < memblock.usable@.len() && 0 <= zi < zone_fact_count && (ri
                                    < range_index || ri == range_index && zi < z)
                                    && #[trigger] block_in_segment(
                                    memblock,
                                    zone_facts@[zi].range,
                                    ri,
                                    old(map).start_pfn + i,
                                    m1.metadata@[i].buddy_order as int,
                                    ps,
                                );
                            let sa = segment_of(memblock, zone_facts@[zi].range, ri);
                            let sb = segment_of(memblock, zone_facts@[z as int].range, range_index as int);
                            assert(sa.1 <= sa.0 || sb.1 <= sb.0 || sa.1 <= sb.0 || sb.1 <= sa.0);
                            let q = old(map).start_pfn + i;
                            let n = order_pages(m1.metadata@[i].buddy_order as int);
                            lemma_pow2_pos(m1.metadata@[i].buddy_order as nat);
                            assert(q * ps < (q + n) * ps) by (nonlinear_arith)
                                requires
                                    n > 0,
                                    ps > 0,
                            ;
                        }
                        Self::lemma_disjoint_segments(
                            old(map),
                            &m1,
                            map,
                            ps,
                            seg_start as int,
                            seg_end as int,
                        );
                    }
                    if seg_start < seg_end {
                        assert forall|i: int|
                            0 <= i < old(map).metadata@.len() && #[trigger] old(map).metadata@[i].spec_is_buddy_free() implies i < map.metadata@.len()
                            && map.metadata@[i].flags == old(map).metadata@[i].flags
                            && map.metadata@[i].buddy_order == old(map).metadata@[i].buddy_order by {
                            assert(m1.metadata@[i].spec_is_buddy_free());
                        }
                        assert forall|i: int| #[trigger] newly_free(old(map), map, i) implies {
                            let q = old(map).start_pfn + i;
                            let o = map.metadata@[i].buddy_order as int;
                            &&& exists|ri: int, zi: int|
                                0 <= ri < memblock.usable@.len() && 0 <= zi < zone_fact_count
                                    && #[trigger] block_in_segment(
                                    memblock,
                                    zone_facts@[zi].range,
                                    ri,
                                    q,
                                    o,
                                    page_size as int,
                                )
                            &&& !memblock.reserved.spec_overlaps_range(
                                block_range(q, o, page_size as int),
                            )
                        } by {
                            if m1.metadata@[i].spec_is_buddy_free() {
                                assert(newly_free(old(map), &m1, i));
                                assert(map.metadata@[i].buddy_order == m1.metadata@[i].buddy_order);
                            } else {
                                assert(newly_free(&m1, map, i));
                                let q = old(map).start_pfn + i;
                                let o = map.metadata@[i].buddy_order as int;
                                assert(block_in_segment(
                                    memblock,
                                    zone_facts@[z as int].range,
                                    range_index as int,
                                    q,
                                    o,
                                    page_size as int,
                                ));
                            }
                        }
                    }
                }
                z += 1;
            }
            range_index += 1;
        }
        proof {
            if self.total_free_pages != 0 {
                lemma_pages_need_blocks(self.areas@);
            }
        }
        self.ready = self.total_free_pages != 0 && self.free_block_count != 0;
        self.ready
    }
}

} // verus!
