use lib::linux_plic_shim::{
    cstr_len, initcall_count, irq_domain_translate_onecell, is_plic_compatible, mapped_source_virq,
    of_match_index, riscv_hartid_to_cpuid, IrqDataTarget, LinuxDriverView, LinuxIrqChipCallbackSlot,
    LinuxPlicAddresses, LinuxPlicShim, PlicInstanceView, PlicNodeView,
};

fn compat(s: &str) -> Vec<u8> {
    let mut v = s.as_bytes().to_vec();
    v.resize(128, 0);
    v
}

fn node() -> PlicNodeView {
    PlicNodeView {
        present: true,
        compatibles: vec![b"sifive,plic-1.0.0".to_vec(), b"riscv,plic0".to_vec()],
        ndev: Some(vec![0, 0, 0, 0x5f]),
        interrupts_extended: Some(vec![0; 16]),
    }
}

#[test]
fn node_properties_parse() {
    let n = node();
    assert!(n.plic_node_available());
    assert_eq!(n.plic_node_source_count(), Some(95));
    assert_eq!(n.plic_node_context_count(), Some(2));
    let bad = PlicNodeView { present: true, compatibles: vec![b"other".to_vec()], ndev: Some(vec![1, 2]), interrupts_extended: Some(vec![0; 12]) };
    assert!(!bad.plic_node_available());
    assert_eq!(bad.plic_node_source_count(), None);
    assert_eq!(bad.plic_node_context_count(), None);
}

#[test]
fn match_table_scan() {
    assert!(is_plic_compatible(b"riscv,plic0"));
    assert!(!is_plic_compatible(b"riscv,plic"));
    assert_eq!(cstr_len(&compat("abc")), 3);
    assert_eq!(of_match_index(&vec![compat("foo"), compat("riscv,plic0")]), Some(1));
    assert_eq!(of_match_index(&vec![compat(""), compat("riscv,plic0")]), None);
    assert_eq!(of_match_index(&vec![compat("foo")]), None);
}

#[test]
fn probe_flow_records_facts() {
    let mut shim = LinuxPlicShim::new();
    let plic = PlicInstanceView { membase: 0xc00_0000, source_count: 95, context_id: 1 };
    let driver = Some(LinuxDriverView { probe: 0x1234, of_match_table: Some(vec![compat("sifive,plic-1.0.0")]) });
    assert!(shim.platform_driver_match_and_probe(&node(), plic, &driver).is_err());
    assert_eq!(shim.platform_driver_register(0), -1);
    assert_eq!(shim.platform_driver_register(0x8000), 0);
    assert_eq!(shim.platform_driver_match_and_probe(&node(), plic, &driver), Ok(0x1234));
    assert!(shim.platform_driver_probe_returned(0).is_ok());
    let facts = shim.boundary_facts(LinuxPlicAddresses {
        driver_probe_ptr: 0x1234,
        platform_device_ptr: 1,
        fwnode_ptr: 2,
        fwnode_ops_ptr: 3,
        expected_fwnode_ops_ptr: 3,
        thread_info_base: 4,
        thread_info_cpu: 0,
        per_cpu_offset0: 0,
    });
    assert_eq!(facts.driver_register_seq, 1);
    assert_eq!(facts.platform_match_seq, 2);
    assert_eq!(facts.probe_enter_seq, 3);
    assert_eq!(facts.probe_return_seq, 4);
    assert_eq!(facts.probe_return, Some(0));
    assert_eq!(facts.source_count, 95);
    assert_eq!(facts.context_count, 2);
    assert_eq!(facts.probe_ptr, 0x1234);
    assert!(shim.platform_driver_probe_returned(-5).is_err());
    assert!(shim.platform_driver_probe_returned(-1).is_err());
    let after = shim.boundary_facts(LinuxPlicAddresses {
        driver_probe_ptr: 0x1234,
        platform_device_ptr: 1,
        fwnode_ptr: 2,
        fwnode_ops_ptr: 3,
        expected_fwnode_ops_ptr: 3,
        thread_info_base: 4,
        thread_info_cpu: 0,
        per_cpu_offset0: 0,
    });
    assert_eq!(after.probe_return, None);
}

#[test]
fn heap_allocation_aligns_and_exhausts() {
    let mut shim = LinuxPlicShim::new();
    assert_eq!(shim.linux_plic_alloc(3, 1), Some(0));
    assert_eq!(shim.linux_plic_alloc(8, 8), Some(8));
    assert_eq!(shim.heap_offset, 16);
    assert_eq!(shim.linux_plic_alloc(8, 3), None);
    assert_eq!(shim.linux_plic_alloc(0, 8), None);
    assert_eq!(shim.linux_plic_alloc(16384, 8), None);
    assert_eq!(shim.bitmap_zalloc(65), Some(16));
    assert_eq!(shim.heap_offset, 32);
}

#[test]
fn leaf_records_store_and_find() {
    let mut shim = LinuxPlicShim::new();
    let domain = shim.irq_domain_instantiate(Some((1, 0x10, 0x20)), 0x9000);
    assert_eq!(domain, 0x9000);
    assert_eq!(shim.irq_domain_set_info(0x9000, 33, 10, 0x500, 0x600), Some(0));
    assert_eq!(shim.irq_domain_set_info(0x9000, 34, 11, 0x500, 0x600), Some(1));
    assert_eq!(shim.irq_domain_set_info(0x9000, 35, 10, 0x500, 0x700), Some(0));
    assert_eq!(shim.irq_domain_set_info(0x1, 35, 10, 0x500, 0x700), None);
    assert_eq!(shim.linux_leaf_record_index_by_hwirq(11), Some(1));
    assert_eq!(shim.linux_leaf_record_index_by_virq(35), Some(0));
    assert_eq!(shim.leaf_flow_handler(0), Ok(0x700));
    assert_eq!(shim.irq_get_irq_data(34), IrqDataTarget::Leaf(1));
    assert_eq!(shim.irq_create_mapping_affinity(9), 9);
    assert_eq!(shim.irq_get_irq_data(9), IrqDataTarget::Parent);
    assert_eq!(shim.irq_create_mapping_affinity(3), 35);
    assert_eq!(shim.claim_domain_irq(0x9000, 10), Ok(10));
    assert_eq!(shim.claim_domain_irq(0x9001, 10), Err(-22));
    shim.note_fasteoi(0, true, true);
    assert_eq!(shim.runtime_complete_count(), 1);
    assert_eq!(shim.runtime_last_completed_source(), 10);
    shim.note_chip_callback(LinuxIrqChipCallbackSlot::Eoi);
    assert_eq!(shim.chip_eoi_count, 1);
}

#[test]
fn linux_helpers() {
    assert_eq!(initcall_count(0x1000, 0x1018, 8), Some(3));
    assert_eq!(initcall_count(0x1000, 0x1019, 8), None);
    assert_eq!(initcall_count(0, 8, 8), None);
    assert_eq!(irq_domain_translate_onecell(1, 7), Ok((7, 0)));
    assert_eq!(irq_domain_translate_onecell(0, 7), Err(-22));
    assert_eq!(riscv_hartid_to_cpuid(0), 0);
    assert_eq!(riscv_hartid_to_cpuid(1), -1);
    assert_eq!(mapped_source_virq(10, 40, true), Some(40));
    assert_eq!(mapped_source_virq(0, 40, true), None);
    let mut shim = LinuxPlicShim::new();
    shim.platform_driver_register(1);
    let plic = PlicInstanceView { membase: 0xc00_0000, source_count: 95, context_id: 1 };
    let driver = Some(LinuxDriverView { probe: 5, of_match_table: Some(vec![compat("riscv,plic0")]) });
    shim.platform_driver_match_and_probe(&node(), plic, &driver).unwrap();
    assert_eq!(shim.of_irq_count(), 2);
    assert_eq!(shim.of_irq_parse_one(1, true), 0);
    assert_eq!(shim.of_irq_parse_one(0, true), -1);
    assert_eq!(shim.of_iomap(0), 0xc00_0000);
    assert_eq!(shim.of_property_read_variable_u32_array(b"riscv,ndev\0", 1), (1, 95));
    assert_eq!(shim.of_property_read_variable_u32_array(b"other\0", 1).0, -22);
}
