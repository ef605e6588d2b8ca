use lib::page_table::{leaf_pte, map_pmd_range, table_pte, PageTablePage, PTE_LEAF_RWX};

const PMD: usize = 0x20_0000;

#[test]
fn pmd_range_maps_two_leaves_and_links_root() {
    let mut root = PageTablePage::zeroed();
    let mut leaf = PageTablePage::zeroed();
    let virt = 0xffff_ffc0_8000_0000usize;
    assert!(map_pmd_range(&mut root, &mut leaf, Some(0x8100_0000), virt, 0x8000_0000, PMD + 1, PMD));
    let vpn1 = (virt >> 21) & 0x1ff;
    let vpn2 = (virt >> 30) & 0x1ff;
    assert_eq!(leaf.entry(vpn1), Some(leaf_pte(0x8000_0000, PTE_LEAF_RWX)));
    assert_eq!(leaf.entry(vpn1 + 1), Some(leaf_pte(0x8000_0000 + PMD, PTE_LEAF_RWX)));
    assert_eq!(leaf.entry(vpn1 + 2), Some(0));
    assert_eq!(root.entry(vpn2), Some(table_pte(0x8100_0000)));
}

#[test]
fn pmd_range_past_last_entry_is_refused_and_root_kept() {
    let mut root = PageTablePage::zeroed();
    let mut leaf = PageTablePage::zeroed();
    // The last level-1 slot of a gigabyte window: two leaves do not fit.
    let virt = 0x3fe0_0000usize;
    assert!(!map_pmd_range(&mut root, &mut leaf, Some(0x8100_0000), virt, 0x8000_0000, 2 * PMD, PMD));
    assert_eq!(root.entry(0), Some(0));
}
