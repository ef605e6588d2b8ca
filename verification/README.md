# lib

Verified core of a small RISC-V kernel's early boot and runtime bookkeeping,
written in Verus.

- `src/` holds the logic with its contracts: locks (mutex, rwlock, per-CPU
  rw-semaphore), boot facts and device-tree blobs, physical memory ranges,
  memblock, buddy and page allocators, slab/slub caches, Sv39 page tables,
  vmalloc windows, kernel-task inboxes, the PLIC shim state, the 16550A UART
  buffers, the printk ring and console routing, and the boot parameter parser.
- `tests/` runs the library on concrete values.
- `app/` is the thin layer that the library cannot hold: the global allocator
  adapter, the printk globals and the IPI sending around the task inboxes.
