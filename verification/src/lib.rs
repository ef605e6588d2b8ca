pub mod state;
pub mod mutex;
pub mod rwlock;
pub mod percpu_rw_semaphore;
pub mod raw_dtb;
pub mod boot_facts;
pub mod arith;
pub mod task_entry;
pub mod phys_range_set;
pub mod lds;
pub mod physical_memory;
pub mod memblock;
pub mod mm_topology;
pub mod mm_page;
pub mod buddy;
pub mod page_allocator;
pub mod slab;
pub mod slub;
pub mod page_table;
pub mod per_cpu_storage;
pub mod vmalloc;
pub mod process_prepare;
pub mod rcu;
pub mod kernel_task;
pub mod linux_plic_shim;
pub mod sched_init_boundaries;
pub mod sched_init_trimmed;
pub mod randomness;
pub mod page_fault_exception_type;
pub mod sbi;
pub mod page_allocator_prepare;
pub mod riscv_hwcap;
pub mod platform_cpu_info;
pub mod params;
pub mod maple_tree;
pub mod radix_tree;
pub mod ns16550a;
pub mod printk;
pub mod rootfs;
pub mod rest_init;
pub mod page_fault_exception_flow_type;
pub mod plic_provider;
pub mod resource_tree;
pub mod pre_smp_init;
pub mod runtime_core;
pub mod payload_param;
