use lib::memblock::MemBlock;
use lib::phys_range_set::PhysRangeSet;
use lib::raw_dtb::PhysRange;
use lib::state::{Lifecycle, State};

fn online_block() -> MemBlock {
    let mut usable = PhysRangeSet::empty();
    assert!(usable.push(PhysRange::new(0x1000, 0x9000)));
    let mut reserved = PhysRangeSet::empty();
    assert!(reserved.push(PhysRange::new(0x1000, 0x2000)));
    MemBlock {
        lifecycle: Lifecycle::new(State::Online),
        usable,
        reserved,
        alloc_cursor: 0,
    }
}

#[test]
fn memblock_alloc_skips_reserved_and_advances_cursor() {
    let mut block = online_block();
    let first = block.alloc_phys(0x1800, 0x1000).unwrap();
    assert_eq!((first.start, first.end), (0x3000, 0x4800));
    assert_eq!(block.alloc_cursor, 0x4800);
    let second = block.alloc_phys(0x1000, 0x1000).unwrap();
    assert_eq!((second.start, second.end), (0x5000, 0x6000));
    assert_eq!(block.reserved.count(), 3);
}

#[test]
fn memblock_alloc_refuses_bad_requests() {
    let mut block = online_block();
    assert!(block.alloc_phys(0, 0x1000).is_none());
    assert!(block.alloc_phys(0x100, 3).is_none());
    assert!(block.alloc_phys(0x8000, 0x1000).is_none());
    assert_eq!(block.alloc_cursor, 0);
    assert_eq!(block.reserved.count(), 1);
}

#[test]
fn memblock_alloc_needs_online_state() {
    let mut block = online_block();
    block.lifecycle = Lifecycle::new(State::Prepared);
    assert!(block.alloc_phys(0x1000, 0x1000).is_none());
}
