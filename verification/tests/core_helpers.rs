use lib::arith::{checked_round_up, is_power_of_two, max_usize, min_usize, round_down, saturating_mul};
use lib::maple_tree::{MapleTree, MAPLE_NODE_CACHE_OBJECT_SIZE};
use lib::mm_topology::bytes_to_pages;
use lib::mutex::{Mutex, MutexLockOutcome, MutexOwner};
use lib::page_fault_exception_flow_type::{PageFaultAccess, PageFaultExceptionFlowType, PageFaultSource};
use lib::page_table::{
    aligned, leaf_pte, sv39_index, sv39_indices, table_pte, user_leaf_pte_from_phys, PTE_A, PTE_D,
    PTE_R, PTE_U, PTE_V, PTE_W,
};
use lib::params::Params;
use lib::radix_tree::RadixTree;
use lib::raw_dtb::{be_u32, RawDtb, FDT_MAGIC};
use lib::slab::{kmalloc_size_class_for, layout_supported};
use lib::slub::{NamedSlubCache, NamedSlubCacheKind};
use lib::state::{EventError, EventErrorCode, LifecycleEvent, State};

#[test]
fn arithmetic_helpers() {
    assert!(is_power_of_two(4096));
    assert!(!is_power_of_two(0));
    assert!(!is_power_of_two(12));
    assert_eq!(checked_round_up(4097, 4096), Some(8192));
    assert_eq!(checked_round_up(4096, 4096), Some(4096));
    assert_eq!(checked_round_up(usize::MAX, 2), None);
    assert_eq!(round_down(8191, 4096), 4096);
    assert_eq!(saturating_mul(usize::MAX, 2), usize::MAX);
    assert_eq!(saturating_mul(3, 5), 15);
    assert_eq!(max_usize(3, 9), 9);
    assert_eq!(min_usize(3, 9), 3);
    assert_eq!(bytes_to_pages(4097, 4096), None);
    assert_eq!(bytes_to_pages(8192, 4096), Some(2));
}

#[test]
fn sv39_entries() {
    let virt = (3usize << 30) | (5 << 21) | (7 << 12);
    assert_eq!(sv39_index(virt, 30), 3);
    assert_eq!(sv39_indices(virt), (3, 5, 7));
    assert_eq!(table_pte(0x8020_0000), ((0x8020_0000usize >> 12) << 10) | PTE_V);
    assert_eq!(leaf_pte(0x8000_0000, PTE_V | PTE_R), ((0x8000_0000usize >> 12) << 10) | 3);
    assert_eq!(
        user_leaf_pte_from_phys(0x8000_1000, true, true, false),
        Some(((0x8000_1000usize >> 12) << 10) | PTE_V | PTE_U | PTE_A | PTE_D | PTE_R | PTE_W)
    );
    assert_eq!(user_leaf_pte_from_phys(0x8000_1004, true, false, false), None);
    assert_eq!(user_leaf_pte_from_phys(0x8000_1000, false, true, false), None);
    assert!(aligned(0x2000, 0x1000));
    assert!(!aligned(0x2001, 0x1000));
}

#[test]
fn kmalloc_classes() {
    assert_eq!(kmalloc_size_class_for(1), Some(8));
    assert_eq!(kmalloc_size_class_for(9), Some(16));
    assert_eq!(kmalloc_size_class_for(4097), Some(8192));
    assert_eq!(kmalloc_size_class_for(0), None);
    assert_eq!(kmalloc_size_class_for(8193), None);
    assert!(layout_supported(64, 64));
    assert!(!layout_supported(8, 16));
}

#[test]
fn mutex_blocks_second_owner() {
    let mut m = Mutex::new_static();
    m.preset_static().unwrap();
    m.setup().unwrap();
    assert_eq!(m.lock_owner(MutexOwner::KernelInitTask), Ok(MutexLockOutcome::Acquired));
    assert_eq!(m.lock_owner(MutexOwner::SmokeMutexTask), Ok(MutexLockOutcome::Blocked));
    assert_eq!(m.contended_count(), 1);
    assert!(m.unlock_owner(MutexOwner::SmokeMutexTask).is_err());
    assert!(m.unlock_owner(MutexOwner::KernelInitTask).is_ok());
    assert!(m.unlocked());
}

#[test]
fn raw_dtb_checks_magic() {
    let mut d = RawDtb::new();
    let e = d.preset(State::Online, 0x8200_0000, 0x1234).unwrap_err();
    assert_eq!(e.code, EventErrorCode::ConditionFailed);
    assert_eq!(d.state(), State::Base);
    assert!(d.preset(State::Online, 0x8200_0000, FDT_MAGIC).is_ok());
    assert_eq!(d.state(), State::Prepared);
}

#[test]
fn node_caches_register_with_exact_kind_and_size() {
    let mut m = MapleTree::new();
    let wrong = Some(NamedSlubCache { kind: NamedSlubCacheKind::RadixTreeNode, object_size: MAPLE_NODE_CACHE_OBJECT_SIZE });
    assert!(m.setup(State::Ready, wrong).is_err());
    let right = Some(NamedSlubCache { kind: NamedSlubCacheKind::MapleNode, object_size: 128 });
    assert!(m.setup(State::Ready, right).is_ok());
    assert!(m.node_api_ready());
    let mut r = RadixTree::new();
    assert!(r.setup(State::Ready, State::Ready, None).is_err());
    let rn = Some(NamedSlubCache { kind: NamedSlubCacheKind::RadixTreeNode, object_size: 64 });
    assert!(r.setup(State::Ready, State::Ready, rn).is_ok());
    assert_eq!(r.cpuhp_step(), 0x300);
}

#[test]
fn params_stop_at_first_failed_step() {
    let mut p = Params::new();
    assert!(p.preset(State::Prepared, State::Ready, State::Ready, true, State::Base, Ok(())).is_ok());
    let boom = EventError { code: EventErrorCode::ConditionFailed, event: LifecycleEvent::Setup, current: State::Base, expected: State::Base, target: State::Ready };
    assert_eq!(p.setup(State::Ready, State::Ready, State::Base, State::Base, Ok(()), Err(boom), Ok(())), Err(boom));
    assert_eq!(p.state(), State::Prepared);
    assert!(p.setup(State::Ready, State::Ready, State::Base, State::Base, Ok(()), Ok(()), Ok(())).is_ok());
    assert_eq!(p.state(), State::Ready);
}

#[test]
fn page_fault_classification() {
    let mut f = PageFaultExceptionFlowType::new();
    assert!(f.preset(2, 0x1000, false).is_err());
    f.preset(15, 0xdead_0000, false).unwrap();
    assert_eq!(f.access, PageFaultAccess::Write);
    assert_eq!(f.source, PageFaultSource::Kernel);
    f.setup_context(false, false, true, Some(0x8000_0010)).unwrap();
    assert!(f.schedulable());
    assert!(!f.fatal_selected());
    assert_eq!(f.fixup_address(), Some(0x8000_0010));
    assert!(f.enable_after_handler().is_err());
    assert!(f.commit_kernel_fixup(0x8000_0011).is_err());
    f.commit_kernel_fixup(0x8000_0010).unwrap();
    f.enable_after_handler().unwrap();
    assert_eq!(f.state(), State::Online);

    let mut u = PageFaultExceptionFlowType::new();
    u.preset(12, 0x4000, true).unwrap();
    u.setup_context(false, true, true, None).unwrap();
    assert!(u.atomic_context());
    assert!(!u.schedulable());
    assert!(!u.fatal_selected());
    assert!(u.enable_after_handler().is_ok());
}

#[test]
fn dtb_total_size_is_read_big_endian() {
    assert_eq!(be_u32([0x00, 0x00, 0x10, 0x00]), 0x1000);
    assert_eq!(be_u32([0xd0, 0x0d, 0xfe, 0xed]), 0xd00d_feed);
    let mut d = RawDtb::new();
    assert!(d.preset(State::Online, 0x8200_0000, FDT_MAGIC).is_ok());
    assert!(d.setup([0x00, 0x00, 0x20, 0x00]).is_ok());
    assert_eq!(d.range.end, 0x8200_2000);
}
