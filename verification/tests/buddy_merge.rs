use lib::boot_facts::ZoneKind;
use lib::buddy::BuddyFreePageSets;
use lib::mm_page::{PageMetadata, PageMetadataMap};
use lib::memblock::MemBlock;
use lib::mm_topology::{BootZonelistSet, ZoneRef};
use lib::phys_range_set::PhysRangeSet;
use lib::raw_dtb::PhysRange;
use lib::state::{Lifecycle, State};

const START_PFN: usize = 0x80000;
const PAGE: usize = 4096;

fn map_of(frames: usize) -> PageMetadataMap {
    let mut m = PageMetadataMap::new();
    m.lifecycle = Lifecycle::new(State::Ready);
    m.start_pfn = START_PFN;
    m.end_pfn = START_PFN + frames;
    m.page_size = PAGE;
    m.metadata_count = frames;
    m.metadata_storage_linear = 0xffff_ffd6_0000_0000;
    m.linear_map_virt_start = 0xffff_ffd6_0000_0000;
    m.metadata = (0..frames).map(|i| PageMetadata::new(START_PFN + i)).collect();
    m
}

fn lists() -> BuddyFreePageSets {
    let mut b = BuddyFreePageSets::new();
    b.zone_count = 1;
    b.zone_kinds = [Some(ZoneKind::Dma32), None, None];
    b.ready = true;
    b
}

fn zonelist() -> BootZonelistSet {
    BootZonelistSet {
        lifecycle: Lifecycle::new(State::Ready),
        fallback: [Some(ZoneKind::Dma32), None, None, None],
        fallback_count: 1,
        null_sentinel_ready: true,
    }
}

#[test]
fn split_then_free_merges_back_to_one_block() {
    let mut map = map_of(4);
    let mut b = lists();
    let base = START_PFN * PAGE;
    assert!(b.populate_free_segment(0, base, base + 4 * PAGE, &mut map, PAGE));
    assert_eq!(b.total_free_pages(), 4);
    assert_eq!(b.order_free_count(ZoneKind::Dma32, 2), Some(1));
    let page = b.alloc_pages(&zonelist(), 0, &mut map).unwrap();
    assert_eq!(page.pfn.value, START_PFN);
    assert_eq!(b.total_free_pages(), 3);
    assert_eq!(b.order_free_count(ZoneKind::Dma32, 0), Some(1));
    assert_eq!(b.order_free_count(ZoneKind::Dma32, 1), Some(1));
    let zone = PhysRange::new(base, base + 4 * PAGE);
    assert!(b.free_pages(0, zone, PAGE, page, 0, &mut map));
    assert_eq!(b.total_free_pages(), 4);
    assert_eq!(b.order_free_count(ZoneKind::Dma32, 0), Some(0));
    assert_eq!(b.order_free_count(ZoneKind::Dma32, 1), Some(0));
    assert_eq!(b.order_free_count(ZoneKind::Dma32, 2), Some(1));
    // A second free of the same block is refused and changes nothing.
    assert!(!b.free_pages(0, zone, PAGE, page, 0, &mut map));
    assert_eq!(b.total_free_pages(), 4);
}

#[test]
fn setup_leaves_reserved_page_off_the_lists() {
    let base = START_PFN * PAGE;
    let mut usable = PhysRangeSet::empty();
    assert!(usable.push(PhysRange::new(base, base + 8 * PAGE)));
    let mut reserved = PhysRangeSet::empty();
    assert!(reserved.push(PhysRange::new(base + PAGE, base + 2 * PAGE)));
    let memblock = MemBlock { lifecycle: Lifecycle::new(State::Online), usable, reserved, alloc_cursor: 0 };
    let zone = ZoneRef { kind: ZoneKind::Dma32, range: PhysRange::new(base, base + 8 * PAGE), managed_pages: 8, free_pages: 0 };
    let facts = [zone, zone, zone];
    let mut map = map_of(8);
    let mut b = BuddyFreePageSets::new();
    assert!(b.setup(&memblock, &facts, 1, &mut map, PAGE));
    assert_eq!(b.total_free_pages(), 7);
    assert_eq!(b.order_free_count(ZoneKind::Dma32, 0), Some(1));
    assert_eq!(b.order_free_count(ZoneKind::Dma32, 1), Some(1));
    assert_eq!(b.order_free_count(ZoneKind::Dma32, 2), Some(1));
    assert!(!map.metadata[1].is_buddy_free());
    assert!(map.metadata[0].is_buddy_free());
    assert!(map.metadata[2].is_buddy_free());
    assert!(map.metadata[4].is_buddy_free());
}
