//! The kmalloc caches: power-of-two object size classes, each with a free list of objects
//! carved out of slabs taken from the page allocator.
use vstd::prelude::*;
use crate::arith::{is_pow2, is_power_of_two, lemma_align_masks};
use crate::buddy::{block_pages, order_pages};
use crate::mm_page::{GfpFlags, PageMetadataMap, PageRef};
use crate::page_allocator::{allocated_from, PageAllocator};
use crate::state::{
    condition_error, failed_condition, transition_result, transition_state, EventError,
    EventResult, Lifecycle, LifecycleEvent, State,
};

verus! {

pub const MAX_KMALLOC_CACHES: usize = 11;

pub const MAX_KMALLOC_SLABS: usize = 32;

/// The address that ends a free list.
pub const KMALLOC_NULL: usize = 0;

/// The largest request the kernel global allocator serves.
pub const GLOBAL_ALLOC_MAX_SIZE: usize = 8192;

/// How many free-list entries a membership scan visits at most.
pub const FREELIST_SCAN_LIMIT: usize = 16384;

/// One object handed out by kmalloc.
#[derive(Clone, Copy, PartialEq, Eq, Structural, Debug)]
pub struct KmallocAllocRef {
    pub addr: usize,
    pub requested_size: usize,
    pub cache_size: usize,
    pub cache_index: usize,
}

impl KmallocAllocRef {
    pub fn addr(self) -> (r: usize)
        ensures
            r == self.addr,
    {
        self.addr
    }

    pub fn requested_size(self) -> (r: usize)
        ensures
            r == self.requested_size,
    {
        self.requested_size
    }

    pub fn cache_size(self) -> (r: usize)
        ensures
            r == self.cache_size,
    {
        self.cache_size
    }

    pub fn cache_index(self) -> (r: usize)
        ensures
            r == self.cache_index,
    {
        self.cache_index
    }
}

/// A slab: a block of pages cut into objects of one size.
#[derive(Clone, Copy, PartialEq, Eq, Structural, Debug)]
pub struct KmallocSlab {
    pub page: PageRef,
    pub order: usize,
    pub base: usize,
    pub object_size: usize,
    pub object_count: usize,
    pub free_count: usize,
    pub cache_index: usize,
}

impl KmallocSlab {
    pub fn empty() -> (r: Self)
        ensures
            r.base == 0,
            r.object_size == 0,
            r.object_count == 0,
            r.free_count == 0,
            r.cache_index == usize::MAX,
    {
        Self {
            page: PageRef {
                pfn: crate::mm_page::Pfn { value: 0 },
                metadata_index: 0,
                metadata_linear: 0,
                phys: crate::mm_page::PhysPageAddr { addr: 0 },
                linear: crate::mm_page::LinearMappedPageAddr { addr: 0 },
            },
            order: 0,
            base: 0,
            object_size: 0,
            object_count: 0,
            free_count: 0,
            cache_index: usize::MAX,
        }
    }

    /// `addr` is the start of one of the slab's objects.
    pub open spec fn spec_contains(self, addr: usize) -> bool {
        &&& self.object_size * self.object_count <= usize::MAX
        &&& self.base + self.object_size * self.object_count <= usize::MAX
        &&& self.base != 0
        &&& self.object_size != 0
        &&& addr >= self.base
        &&& addr < self.base + self.object_size * self.object_count
        &&& (addr - self.base) % (self.object_size as int) == 0
    }

    pub fn contains(&self, addr: usize) -> (r: bool)
        ensures
            r == self.spec_contains(addr),
    {
        let bytes = match self.object_size.checked_mul(self.object_count) {
            Some(b) => b,
            None => return false,
        };
        let end = match self.base.checked_add(bytes) {
            Some(e) => e,
            None => return false,
        };
        self.base != 0 && self.object_size != 0 && addr >= self.base && addr < end && (addr
            - self.base) % self.object_size == 0
    }
}

#[derive(Clone, Copy, PartialEq, Eq, Structural, Debug)]
pub struct KmallocCache {
    pub object_size: usize,
    pub slab_count: usize,
}

/// The slab order for objects of `object_size`: one page, or two pages for objects up to
/// twice the page size.
pub open spec fn kmalloc_cache_order_spec(object_size: usize, page_size: usize) -> Option<usize> {
    if object_size == 0 || !is_pow2(page_size) {
        None
    } else if object_size <= page_size {
        Some(0)
    } else if page_size * 2 > usize::MAX {
        None
    } else if object_size <= page_size * 2 {
        Some(1)
    } else {
        None
    }
}

/// A slab for objects of `object_size` bytes is one page when an object fits in a page, two
/// pages when it fits in two but not one, and there is none for larger or empty objects or
/// a page size that is not a power of two.
pub proof fn lemma_cache_order_fits(object_size: usize, page_size: usize)
    ensures
        kmalloc_cache_order_spec(object_size, page_size) == Some(0usize) <==> (object_size != 0
            && is_pow2(page_size) && object_size <= page_size),
        kmalloc_cache_order_spec(object_size, page_size) == Some(1usize) <==> (is_pow2(page_size)
            && page_size < object_size && object_size <= 2 * page_size && 2 * page_size
            <= usize::MAX),
        kmalloc_cache_order_spec(object_size, page_size) matches Some(o) ==> o < 2,
{
}

pub fn kmalloc_cache_order(object_size: usize, page_size: usize) -> (r: Option<usize>)
    ensures
        r == kmalloc_cache_order_spec(object_size, page_size),
{
    proof {
        if is_pow2(page_size) {
            lemma_align_masks(0, page_size);
        }
    }
    if object_size == 0 || page_size == 0 || !is_power_of_two(page_size) {
        return None;
    }
    if object_size <= page_size {
        Some(0)
    } else {
        let double = match page_size.checked_mul(2) {
            Some(d) => d,
            None => return None,
        };
        if object_size <= double {
            Some(1)
        } else {
            None
        }
    }
}

/// The smallest size class, from 8 bytes doubling up to the largest served size, that holds
/// `size` bytes.
pub open spec fn size_class_spec(size: usize) -> Option<usize> {
    if size == 0 || size > GLOBAL_ALLOC_MAX_SIZE {
        None
    } else if size <= 8 {
        Some(8)
    } else if size <= 16 {
        Some(16)
    } else if size <= 32 {
        Some(32)
    } else if size <= 64 {
        Some(64)
    } else if size <= 128 {
        Some(128)
    } else if size <= 256 {
        Some(256)
    } else if size <= 512 {
        Some(512)
    } else if size <= 1024 {
        Some(1024)
    } else if size <= 2048 {
        Some(2048)
    } else if size <= 4096 {
        Some(4096)
    } else {
        Some(8192)
    }
}

/// Every request of 1 to `GLOBAL_ALLOC_MAX_SIZE` bytes has a size class: the smallest power
/// of two of at least 8 bytes that holds it (so at most twice the request, or 8). Larger and
/// empty requests have none.
pub proof fn lemma_size_class_smallest_power(size: usize)
    ensures
        0 < size <= GLOBAL_ALLOC_MAX_SIZE ==> (size_class_spec(size) matches Some(c) && size
            <= c && c >= 8 && is_pow2(c) && (c == 8 || c / 2 < size)),
        size == 0 || size > GLOBAL_ALLOC_MAX_SIZE ==> size_class_spec(size) is None,
{
    vstd::arithmetic::power2::lemma2_to64();
    if 0 < size <= GLOBAL_ALLOC_MAX_SIZE {
        let c = size_class_spec(size)->0;
        if size <= 8 {
            assert(c == vstd::arithmetic::power2::pow2(3));
        } else if size <= 16 {
            assert(c == vstd::arithmetic::power2::pow2(4));
        } else if size <= 32 {
            assert(c == vstd::arithmetic::power2::pow2(5));
        } else if size <= 64 {
            assert(c == vstd::arithmetic::power2::pow2(6));
        } else if size <= 128 {
            assert(c == vstd::arithmetic::power2::pow2(7));
        } else if size <= 256 {
            assert(c == vstd::arithmetic::power2::pow2(8));
        } else if size <= 512 {
            assert(c == vstd::arithmetic::power2::pow2(9));
        } else if size <= 1024 {
            assert(c == vstd::arithmetic::power2::pow2(10));
        } else if size <= 2048 {
            assert(c == vstd::arithmetic::power2::pow2(11));
        } else if size <= 4096 {
            assert(c == vstd::arithmetic::power2::pow2(12));
        } else {
            assert(c == vstd::arithmetic::power2::pow2(13));
        }
    }
}

/// A layout is served exactly when its size is 1 to `GLOBAL_ALLOC_MAX_SIZE` bytes and its
/// alignment is at most the smallest power of two of at least 8 bytes that holds the size.
pub proof fn lemma_layout_supported_exactly(size: usize, align: usize, c: usize)
    requires
        0 < size <= GLOBAL_ALLOC_MAX_SIZE,
        c >= 8,
        is_pow2(c),
        size <= c,
        c == 8 || c / 2 < size,
    ensures
        layout_supported_spec(size, align) == (align <= c),
{
    lemma_size_class_smallest_power(size);
    let d = size_class_spec(size)->0;
    if c != d {
        lemma_pow2_classes_unique(size, c, d);
    }
}

/// Two powers of two of at least 8 that both hold `size` and are each the smallest such
/// (at most twice `size`, or 8) are the same.
proof fn lemma_pow2_classes_unique(size: usize, c: usize, d: usize)
    requires
        0 < size,
        c >= 8,
        d >= 8,
        is_pow2(c),
        is_pow2(d),
        size <= c,
        size <= d,
        c == 8 || c / 2 < size,
        d == 8 || d / 2 < size,
    ensures
        c == d,
{
    let m = choose|n: nat| n < usize::BITS && c == vstd::arithmetic::power2::pow2(n);
    let n = choose|n: nat| n < usize::BITS && d == vstd::arithmetic::power2::pow2(n);
    if m < n {
        vstd::arithmetic::power2::lemma_pow2_adds((n - m - 1) as nat, (m + 1) as nat);
        vstd::arithmetic::power2::lemma_pow2_unfold((m + 1) as nat);
        vstd::arithmetic::power2::lemma_pow2_pos((n - m - 1) as nat);
        assert(d >= 2 * c) by (nonlinear_arith)
            requires
                d == vstd::arithmetic::power2::pow2((n - m - 1) as nat) * vstd::arithmetic::power2::pow2((m + 1) as nat),
                vstd::arithmetic::power2::pow2((m + 1) as nat) == 2 * c,
                vstd::arithmetic::power2::pow2((n - m - 1) as nat) >= 1,
        ;
    } else if n < m {
        vstd::arithmetic::power2::lemma_pow2_adds((m - n - 1) as nat, (n + 1) as nat);
        vstd::arithmetic::power2::lemma_pow2_unfold((n + 1) as nat);
        vstd::arithmetic::power2::lemma_pow2_pos((m - n - 1) as nat);
        assert(c >= 2 * d) by (nonlinear_arith)
            requires
                c == vstd::arithmetic::power2::pow2((m - n - 1) as nat) * vstd::arithmetic::power2::pow2((n + 1) as nat),
                vstd::arithmetic::power2::pow2((n + 1) as nat) == 2 * d,
                vstd::arithmetic::power2::pow2((m - n - 1) as nat) >= 1,
        ;
    }
}

pub fn kmalloc_size_class_for(size: usize) -> (r: Option<usize>)
    ensures
        r == size_class_spec(size),
{
    if size == 0 || size > GLOBAL_ALLOC_MAX_SIZE {
        return None;
    }
    let mut cache_size: usize = 8;
    while cache_size <= GLOBAL_ALLOC_MAX_SIZE
        invariant
            0 < size <= GLOBAL_ALLOC_MAX_SIZE,
            cache_size == 8 || cache_size == 16 || cache_size == 32 || cache_size == 64
                || cache_size == 128 || cache_size == 256 || cache_size == 512 || cache_size
                == 1024 || cache_size == 2048 || cache_size == 4096 || cache_size == 8192,
            cache_size == 8 || size > cache_size / 2,
        decreases 16384 - cache_size,
    {
        if size <= cache_size {
            return Some(cache_size);
        }
        cache_size = cache_size * 2;
    }
    None
}

/// The kernel global allocator serves a layout when its size has a class no smaller than
/// its alignment.
pub open spec fn layout_supported_spec(size: usize, align: usize) -> bool {
    size_class_spec(size) matches Some(c) && align <= c
}

pub fn layout_supported(size: usize, align: usize) -> (r: bool)
    ensures
        r == layout_supported_spec(size, align),
{
    match kmalloc_size_class_for(size) {
        Some(cache_size) => align <= cache_size,
        None => false,
    }
}

/// `after` is the free list `before` with `addr` taken off its head, where `before` had one.
pub open spec fn popped_from(before: Seq<usize>, after: Seq<usize>, addr: usize) -> bool {
    before.len() > 0 ==> before == after.push(addr)
}

/// `after` is the free list `before` with `addr` put on its head.
pub open spec fn pushed_onto(before: Seq<usize>, after: Seq<usize>, addr: usize) -> bool {
    after == before.push(addr)
}

/// Freeing the object that kmalloc took from a non-empty free list puts that list back as it
/// was.
pub proof fn lemma_kfree_restores_free_list(
    before: Seq<usize>,
    between: Seq<usize>,
    after: Seq<usize>,
    addr: usize,
)
    requires
        before.len() > 0,
        popped_from(before, between, addr),
        pushed_onto(between, after, addr),
    ensures
        after == before,
{
}

/// The kmalloc size classes with their free lists and slabs.
pub struct KmallocCaches {
    pub lifecycle: Lifecycle,
    pub size_index_ready: bool,
    pub default_cache_ready: bool,
    pub random_caches_trimmed: bool,
    pub memcg_caches_trimmed: bool,
    pub sizes: [usize; 11],
    pub caches: [KmallocCache; 11],
    /// The free objects of each class, the next to hand out last.
    pub free_lists: Vec<Vec<usize>>,
    pub slabs: [KmallocSlab; 32],
    pub slab_count: usize,
    pub count: usize,
}

impl KmallocCaches {
    pub open spec fn wf(&self) -> bool {
        &&& self.free_lists@.len() == MAX_KMALLOC_CACHES
        &&& self.count <= MAX_KMALLOC_CACHES
        &&& self.slab_count <= MAX_KMALLOC_SLABS
    }

    /// The free objects of class `cache_index`, the next to hand out last.
    pub open spec fn free_list(&self, cache_index: int) -> Seq<usize> {
        self.free_lists@[cache_index]@
    }

    pub fn new() -> (s: Self)
        ensures
            s.wf(),
            s.lifecycle@ == State::Base,
            s.count == 0,
            s.slab_count == 0,
            forall|c: int| 0 <= c < MAX_KMALLOC_CACHES ==> #[trigger] s.free_list(c).len() == 0,
    {
        let mut free_lists: Vec<Vec<usize>> = Vec::new();
        let mut i: usize = 0;
        while i < MAX_KMALLOC_CACHES
            invariant
                i <= MAX_KMALLOC_CACHES,
                free_lists@.len() == i,
                forall|c: int| 0 <= c < i ==> #[trigger] free_lists@[c]@.len() == 0,
            decreases MAX_KMALLOC_CACHES - i,
        {
            free_lists.push(Vec::new());
            i += 1;
        }
        let empty_cache = KmallocCache { object_size: 0, slab_count: 0 };
        Self {
            lifecycle: Lifecycle::new(State::Base),
            size_index_ready: false,
            default_cache_ready: false,
            random_caches_trimmed: false,
            memcg_caches_trimmed: false,
            sizes: [0; 11],
            caches: [empty_cache; 11],
            free_lists,
            slabs: [KmallocSlab::empty(); 32],
            slab_count: 0,
            count: 0,
        }
    }

    pub fn state(&self) -> (r: State)
        ensures
            r == self.lifecycle@,
    {
        self.lifecycle.state()
    }

    pub fn size_index_ready(&self) -> (r: bool)
        ensures
            r == self.size_index_ready,
    {
        self.size_index_ready
    }

    pub fn default_cache_ready(&self) -> (r: bool)
        ensures
            r == self.default_cache_ready,
    {
        self.default_cache_ready
    }

    pub fn random_caches_trimmed(&self) -> (r: bool)
        ensures
            r == self.random_caches_trimmed,
    {
        self.random_caches_trimmed
    }

    pub fn memcg_caches_trimmed(&self) -> (r: bool)
        ensures
            r == self.memcg_caches_trimmed,
    {
        self.memcg_caches_trimmed
    }

    pub fn count(&self) -> (r: usize)
        ensures
            r == self.count,
    {
        self.count
    }

    pub fn slab_count(&self) -> (r: usize)
        ensures
            r == self.slab_count,
    {
        self.slab_count
    }

    /// The pages backing the first `n` slabs.
    pub open spec fn backing_pages(&self, n: int) -> int
        decreases n,
    {
        if n <= 0 {
            0
        } else {
            self.backing_pages(n - 1) + if self.slabs@[n - 1].page.metadata_linear != 0 {
                order_pages(self.slabs@[n - 1].order as int)
            } else {
                0
            }
        }
    }

    /// The backing page sums grow with the number of slabs counted.
    proof fn lemma_backing_pages_grow(&self, i: int, n: int)
        requires
            0 <= i <= n,
        ensures
            0 <= self.backing_pages(i) <= self.backing_pages(n),
        decreases n,
    {
        if n > 0 {
            let j = if i < n {
                i
            } else {
                n - 1
            };
            self.lemma_backing_pages_grow(j, n - 1);
            vstd::arithmetic::power2::lemma_pow2_pos(self.slabs@[n - 1].order as nat);
        }
    }

    /// The pages backing the slabs.
    pub fn backing_page_count(&self) -> (r: usize)
        requires
            self.wf(),
            forall|i: int| 0 <= i < self.slab_count ==> #[trigger] self.slabs@[i].order < usize::BITS,
            self.backing_pages(self.slab_count as int) <= usize::MAX,
        ensures
            r == self.backing_pages(self.slab_count as int),
    {
        let mut count: usize = 0;
        let mut index: usize = 0;
        while index < self.slab_count
            invariant
                self.wf(),
                forall|i: int| 0 <= i < self.slab_count ==> #[trigger] self.slabs@[i].order < usize::BITS,
                self.backing_pages(self.slab_count as int) <= usize::MAX,
                index <= self.slab_count,
                count == self.backing_pages(index as int),
            decreases self.slab_count - index,
        {
            proof {
                self.lemma_backing_pages_grow(index + 1, self.slab_count as int);
            }
            if self.slabs[index].page.metadata_linear() != 0 {
                let order = self.slabs[index].order;
                proof {
                    vstd::bits::lemma_usize_pow2_no_overflow(order as nat);
                    vstd::bits::lemma_usize_shl_is_mul(1, order);
                }
                count += 1usize << order;
            }
            index += 1;
        }
        count
    }

    /// The first class whose objects hold `size` bytes.
    pub open spec fn spec_cache_index_for_size(&self, size: usize) -> Option<usize> {
        if self.lifecycle@ != State::Ready || size == 0 {
            None
        } else if exists|i: int| 0 <= i < self.count && size <= self.caches@[i].object_size {
            Some(
                (choose|i: int|
                    0 <= i < self.count && size <= self.caches@[i].object_size && forall|j: int|
                        0 <= j < i ==> size > self.caches@[j].object_size) as usize,
            )
        } else {
            None
        }
    }

    fn cache_index_for_size(&self, size: usize) -> (r: Option<usize>)
        requires
            self.wf(),
        ensures
            r == self.spec_cache_index_for_size(size),
            r matches Some(i) ==> i < self.count && size <= self.caches@[i as int].object_size,
    {
        if self.lifecycle.state() != State::Ready || size == 0 {
            return None;
        }
        let mut index: usize = 0;
        while index < self.count
            invariant
                self.wf(),
                index <= self.count,
                self.lifecycle@ == State::Ready && size != 0,
                forall|j: int| 0 <= j < index ==> size > self.caches@[j].object_size,
            decreases self.count - index,
        {
            if size <= self.caches[index].object_size {
                proof {
                    let i = index as int;
                    let c = choose|i: int|
                        0 <= i < self.count && size <= self.caches@[i].object_size && forall|
                            j: int,
                        |
                            0 <= j < i ==> size > self.caches@[j].object_size;
                    assert(0 <= i < self.count && size <= self.caches@[i].object_size && forall|
                        j: int,
                    |
                        0 <= j < i ==> size > self.caches@[j].object_size);
                    if c > i {
                        assert(size > self.caches@[i].object_size);
                    }
                }
                return Some(index);
            }
            index += 1;
        }
        None
    }

    /// The object size of the class that serves `size` bytes.
    pub fn kmalloc_size(&self, size: usize) -> (r: Option<usize>)
        requires
            self.wf(),
        ensures
            r == (match self.spec_cache_index_for_size(size) {
                Some(i) => Some(self.caches@[i as int].object_size),
                None => None,
            }),
    {
        match self.cache_index_for_size(size) {
            Some(index) => Some(self.caches[index].object_size),
            None => None,
        }
    }

    /// The free objects in the first `n` slabs of class `cache_index`.
    pub open spec fn free_objects(&self, cache_index: int, n: int) -> int
        decreases n,
    {
        if n <= 0 {
            0
        } else {
            self.free_objects(cache_index, n - 1) + if self.slabs@[n - 1].cache_index
                == cache_index {
                self.slabs@[n - 1].free_count as int
            } else {
                0
            }
        }
    }

    /// The free objects, over the slabs, of the class that serves `size` bytes; zero where no
    /// class does.
    /// The free object sums grow with the number of slabs counted.
    proof fn lemma_free_objects_grow(&self, cache_index: int, i: int, n: int)
        requires
            0 <= i <= n,
        ensures
            0 <= self.free_objects(cache_index, i) <= self.free_objects(cache_index, n),
        decreases n,
    {
        if n > 0 {
            let j = if i < n {
                i
            } else {
                n - 1
            };
            self.lemma_free_objects_grow(cache_index, j, n - 1);
        }
    }

    pub fn free_object_count(&self, size: usize) -> (r: usize)
        requires
            self.wf(),
            self.spec_cache_index_for_size(size) matches Some(c) ==> self.free_objects(
                c as int,
                self.slab_count as int,
            ) <= usize::MAX,
        ensures
            r == (match self.spec_cache_index_for_size(size) {
                Some(c) => self.free_objects(c as int, self.slab_count as int),
                None => 0,
            }),
    {
        let cache_index = match self.cache_index_for_size(size) {
            Some(c) => c,
            None => return 0,
        };
        let mut count: usize = 0;
        let mut slab_index: usize = 0;
        while slab_index < self.slab_count
            invariant
                self.wf(),
                self.free_objects(cache_index as int, self.slab_count as int) <= usize::MAX,
                slab_index <= self.slab_count,
                count == self.free_objects(cache_index as int, slab_index as int),
            decreases self.slab_count - slab_index,
        {
            proof {
                self.lemma_free_objects_grow(
                    cache_index as int,
                    slab_index + 1,
                    self.slab_count as int,
                );
            }
            if self.slabs[slab_index].cache_index == cache_index {
                count += self.slabs[slab_index].free_count;
            }
            slab_index += 1;
        }
        count
    }

    pub fn has_size(&self, size: usize) -> (r: bool)
        requires
            self.wf(),
        ensures
            r == exists|i: int| 0 <= i < self.count && self.sizes@[i] == size,
    {
        let mut index: usize = 0;
        while index < self.count
            invariant
                self.wf(),
                index <= self.count,
                forall|j: int| 0 <= j < index ==> self.sizes@[j] != size,
            decreases self.count - index,
        {
            if self.sizes[index] == size {
                return true;
            }
            index += 1;
        }
        false
    }

    /// The first slab holding an object at `addr`.
    pub open spec fn spec_slab_index_for_addr(&self, addr: usize) -> Option<usize> {
        if exists|i: int| 0 <= i < self.slab_count && self.slabs@[i].spec_contains(addr) {
            Some(
                (choose|i: int|
                    0 <= i < self.slab_count && self.slabs@[i].spec_contains(addr) && forall|
                        j: int,
                    |
                        0 <= j < i ==> !self.slabs@[j].spec_contains(addr)) as usize,
            )
        } else {
            None
        }
    }

    fn slab_index_for_addr(&self, addr: usize) -> (r: Option<usize>)
        requires
            self.wf(),
        ensures
            r == self.spec_slab_index_for_addr(addr),
            r matches Some(i) ==> i < self.slab_count && self.slabs@[i as int].spec_contains(addr),
    {
        let mut index: usize = 0;
        while index < self.slab_count
            invariant
                self.wf(),
                index <= self.slab_count,
                forall|j: int| 0 <= j < index ==> !self.slabs@[j].spec_contains(addr),
            decreases self.slab_count - index,
        {
            if self.slabs[index].contains(addr) {
                proof {
                    let i = index as int;
                    let c = choose|i: int|
                        0 <= i < self.slab_count && self.slabs@[i].spec_contains(addr) && forall|
                            j: int,
                        |
                            0 <= j < i ==> !self.slabs@[j].spec_contains(addr);
                    assert(0 <= i < self.slab_count && self.slabs@[i].spec_contains(addr)
                        && forall|j: int| 0 <= j < i ==> !self.slabs@[j].spec_contains(addr));
                    if c > i {
                        assert(!self.slabs@[i].spec_contains(addr));
                    }
                }
                return Some(index);
            }
            index += 1;
        }
        None
    }

    /// `addr` is among the entries of the free list of `cache_index` that a scan from its
    /// head visits.
    pub open spec fn spec_freelist_contains(&self, cache_index: usize, addr: usize) -> bool {
        cache_index < self.count && exists|j: int|
            0 <= j < self.free_list(cache_index as int).len() && self.free_list(
                cache_index as int,
            ).len() - j <= FREELIST_SCAN_LIMIT && #[trigger] self.free_list(cache_index as int)[j]
                == addr
    }

    fn freelist_contains(&self, cache_index: usize, addr: usize) -> (r: bool)
        requires
            self.wf(),
        ensures
            r == self.spec_freelist_contains(cache_index, addr),
    {
        if cache_index >= self.count {
            return false;
        }
        let list = &self.free_lists[cache_index];
        let len = list.len();
        let mut scanned: usize = 0;
        while scanned < len && scanned < FREELIST_SCAN_LIMIT
            invariant
                self.wf(),
                cache_index < self.count,
                *list == self.free_lists@[cache_index as int],
                len == list@.len(),
                scanned <= len,
                forall|j: int| len - scanned <= j < len ==> #[trigger] list@[j] != addr,
            decreases len - scanned,
        {
            if list[len - 1 - scanned] == addr {
                assert(self.free_list(cache_index as int)[len - 1 - scanned] == addr);
                return true;
            }
            scanned += 1;
        }
        false
    }

    /// Replaces the free list of `cache_index`.
    fn set_free_list(&mut self, cache_index: usize, list: Vec<usize>)
        requires
            old(self).wf(),
            cache_index < MAX_KMALLOC_CACHES,
        ensures
            final(self).wf(),
            *final(self) == (KmallocCaches { free_lists: final(self).free_lists, ..*old(self) }),
            final(self).free_lists@ == old(self).free_lists@.update(cache_index as int, list),
            final(self).free_list(cache_index as int) == list@,
            forall|c: int|
                0 <= c < MAX_KMALLOC_CACHES && c != cache_index ==> #[trigger] final(self).free_list(c)
                    == old(self).free_list(c),
    {
        let _ = self.free_lists.remove(cache_index);
        self.free_lists.insert(cache_index, list);
        assert(self.free_lists@ =~= old(self).free_lists@.update(cache_index as int, list));
    }

    /// Takes the free list of `cache_index` out, leaving it empty.
    fn take_free_list(&mut self, cache_index: usize) -> (list: Vec<usize>)
        requires
            old(self).wf(),
            cache_index < MAX_KMALLOC_CACHES,
        ensures
            final(self).wf(),
            *final(self) == (KmallocCaches { free_lists: final(self).free_lists, ..*old(self) }),
            list@ == old(self).free_list(cache_index as int),
            final(self).free_list(cache_index as int).len() == 0,
            forall|c: int|
                0 <= c < MAX_KMALLOC_CACHES && c != cache_index ==> #[trigger] final(self).free_list(c)
                    == old(self).free_list(c),
    {
        let list = self.free_lists.remove(cache_index);
        self.free_lists.insert(cache_index, Vec::new());
        assert forall|c: int|
            0 <= c < MAX_KMALLOC_CACHES && c != cache_index implies #[trigger] self.free_list(c)
            == old(self).free_list(c) by {
            if c < cache_index {
            } else {
            }
        }
        list
    }

    /// Fills the classes from 8 bytes up to the largest served size, each with an empty free
    /// list.
    pub fn setup(&mut self, slub_state: State, registry_state: State) -> (r: EventResult)
        requires
            old(self).wf(),
        ensures
            final(self).wf(),
            old(self).lifecycle@ != State::Base || slub_state != State::Prepared || registry_state
                != State::Ready ==> r == Err::<(), EventError>(
                condition_error(
                    LifecycleEvent::Setup,
                    old(self).lifecycle@,
                    State::Base,
                    State::Ready,
                ),
            ) && *final(self) == *old(self),
            old(self).lifecycle@ == State::Base && slub_state == State::Prepared && registry_state
                == State::Ready ==> {
                &&& r == Ok::<(), EventError>(())
                &&& final(self).lifecycle@ == State::Ready
                &&& final(self).count == MAX_KMALLOC_CACHES
                &&& final(self).sizes@ == seq![8usize, 16, 32, 64, 128, 256, 512, 1024, 2048, 4096, 8192]
                &&& forall|i: int|
                    0 <= i < MAX_KMALLOC_CACHES ==> #[trigger] final(self).caches@[i] == (
                    KmallocCache { object_size: final(self).sizes@[i], slab_count: 0 })
                &&& final(self).size_index_ready && final(self).default_cache_ready
                &&& final(self).random_caches_trimmed && final(self).memcg_caches_trimmed
                &&& final(self).free_lists == old(self).free_lists
                &&& final(self).slabs == old(self).slabs
                &&& final(self).slab_count == old(self).slab_count
            },
    {
        if self.lifecycle.state() != State::Base || slub_state != State::Prepared
            || registry_state != State::Ready {
            return failed_condition(
                LifecycleEvent::Setup,
                self.lifecycle.state(),
                State::Base,
                State::Ready,
            );
        }
        self.sizes = [8, 16, 32, 64, 128, 256, 512, 1024, 2048, 4096, 8192];
        assert(self.sizes@ =~= seq![8usize, 16, 32, 64, 128, 256, 512, 1024, 2048, 4096, 8192]);
        self.count = MAX_KMALLOC_CACHES;
        let mut index: usize = 0;
        while index < self.count
            invariant
                self.wf(),
                self.count == MAX_KMALLOC_CACHES,
                index <= self.count,
                self.lifecycle == old(self).lifecycle,
                self.sizes@ == seq![8usize, 16, 32, 64, 128, 256, 512, 1024, 2048, 4096, 8192],
                self.free_lists == old(self).free_lists,
                self.slabs == old(self).slabs,
                self.slab_count == old(self).slab_count,
                forall|i: int|
                    0 <= i < index ==> #[trigger] self.caches@[i] == (KmallocCache {
                        object_size: self.sizes@[i],
                        slab_count: 0,
                    }),
            decreases self.count - index,
        {
            self.caches[index] = KmallocCache { object_size: self.sizes[index], slab_count: 0 };
            index += 1;
        }
        self.size_index_ready = true;
        self.default_cache_ready = true;
        self.random_caches_trimmed = true;
        self.memcg_caches_trimmed = true;
        self.lifecycle.transition(LifecycleEvent::Setup, State::Base, State::Ready)
    }

    /// The objects of a new slab at `base`, the first one last so that it is handed out first.
    pub open spec fn slab_objects(base: usize, object_size: usize, count: usize) -> Seq<usize> {
        Seq::new(count as nat, |k: int| (base + (count - 1 - k) * object_size) as usize)
    }

    /// Whether `grow_cache` adds a slab to class `cache_index`: the class exists, there is room
    /// for one more slab, the class's objects fit in one or two pages, the page allocator owes
    /// the block as it is, and the slab's bytes end below the top of the address space.
    pub open spec fn spec_grow_owed(
        &self,
        cache_index: usize,
        gfp: GfpFlags,
        page_allocator: PageAllocator,
        map: &PageMetadataMap,
    ) -> bool {
        &&& cache_index < self.count
        &&& self.slab_count < MAX_KMALLOC_SLABS
        &&& kmalloc_cache_order_spec(self.caches@[cache_index as int].object_size, map.page_size)
            is Some
        &&& self.caches@[cache_index as int].slab_count != usize::MAX
        &&& {
            let order = kmalloc_cache_order_spec(
                self.caches@[cache_index as int].object_size,
                map.page_size,
            )->0;
            let slab_bytes = if order == 0 {
                map.page_size as int
            } else {
                map.page_size * 2
            };
            &&& page_allocator.spec_alloc_owed(order, gfp, map)
            &&& page_allocator.spec_owed_page(order, gfp, map).linear.addr + slab_bytes
                <= usize::MAX
        }
    }

    /// Adds a slab to class `cache_index`: pages from the page allocator cut into objects,
    /// which become the class's free list.
    fn grow_cache(
        &mut self,
        cache_index: usize,
        gfp: GfpFlags,
        page_allocator: &mut PageAllocator,
        page_metadata_map: &mut PageMetadataMap,
    ) -> (r: bool)
        requires
            old(self).wf(),
            old(page_allocator).inv(),
            old(page_metadata_map).wf(),
        ensures
            final(self).wf(),
            final(page_allocator).inv(),
            final(page_metadata_map).wf(),
            *final(page_metadata_map) == (PageMetadataMap {
                metadata: final(page_metadata_map).metadata,
                ..*old(page_metadata_map)
            }),
            !r ==> *final(self) == *old(self),
            final(self).count == old(self).count,
            final(self).lifecycle == old(self).lifecycle,
            forall|c: int|
                0 <= c < MAX_KMALLOC_CACHES ==> #[trigger] final(self).caches@[c].object_size
                    == old(self).caches@[c].object_size,
            r ==> {
                let slab = final(self).slabs@[old(self).slab_count as int];
                &&& cache_index < old(self).count
                &&& final(self).slab_count == old(self).slab_count + 1
                &&& slab.cache_index == cache_index
                &&& slab.object_size == old(self).caches@[cache_index as int].object_size
                &&& slab.free_count == slab.object_count
                &&& slab.object_count > 0
                &&& Some(slab.order) == kmalloc_cache_order_spec(
                    slab.object_size,
                    old(page_metadata_map).page_size,
                )
                &&& slab.object_count == (if slab.order == 0 {
                    old(page_metadata_map).page_size as int
                } else {
                    old(page_metadata_map).page_size * 2
                }) / slab.object_size as int
                &&& slab.base == slab.page.linear.addr
                &&& old(page_metadata_map).spec_validate_page(slab.page)
                &&& allocated_from(*old(page_allocator), *final(page_allocator), slab.order)
                &&& final(page_metadata_map).metadata@[slab.page.metadata_index as int].spec_is_buddy_allocated()
                &&& final(self).slabs@ == old(self).slabs@.update(old(self).slab_count as int, slab)
                &&& final(self).free_list(cache_index as int) == Self::slab_objects(
                    slab.base,
                    slab.object_size,
                    slab.object_count,
                )
                &&& forall|c: int|
                    0 <= c < MAX_KMALLOC_CACHES && c != cache_index ==> #[trigger] final(self).free_list(c) == old(self).free_list(c)
                &&& final(self).caches@[cache_index as int].slab_count == old(self).caches@[cache_index as int].slab_count + 1
            },
            old(self).spec_grow_owed(cache_index, gfp, *old(page_allocator), old(page_metadata_map))
                ==> r,
    {
        if cache_index >= self.count || self.slab_count >= MAX_KMALLOC_SLABS {
            return false;
        }
        let object_size = self.caches[cache_index].object_size;
        let page_size = page_metadata_map.page_size();
        let order = match kmalloc_cache_order(object_size, page_size) {
            Some(o) => o,
            None => return false,
        };
        if self.caches[cache_index].slab_count == usize::MAX {
            return false;
        }
        let ghost owed = old(self).spec_grow_owed(
            cache_index,
            gfp,
            *old(page_allocator),
            old(page_metadata_map),
        );
        proof {
            if owed {
                let f0 = choose|f: int| #[trigger] page_allocator.alloc_takes_head(
                    order,
                    gfp,
                    page_metadata_map,
                    f,
                );
                assert(page_allocator.alloc_takes_head(order, gfp, page_metadata_map, f0));
            }
        }
        let page = match page_allocator.alloc_pages(order, gfp, page_metadata_map) {
            Some(p) => p,
            None => return false,
        };
        proof {
            if owed {
                assert(page == old(page_allocator).spec_owed_page(
                    order,
                    gfp,
                    old(page_metadata_map),
                ));
                old(page_metadata_map).lemma_ref_index(page.metadata_index);
            }
        }
        let base = match page_metadata_map.page_address(page) {
            Some(b) => b,
            None => {
                let _ = page_allocator.free_pages(page, order, page_metadata_map);
                return false;
            },
        };
        proof {
            vstd::arithmetic::power2::lemma2_to64();
        }
        let slab_bytes = if order == 0 {
            page_size
        } else {
            page_size * 2
        };
        let object_count = slab_bytes / object_size;
        proof {
            assert(object_count * object_size <= slab_bytes) by (nonlinear_arith)
                requires
                    object_count == slab_bytes / object_size,
                    object_size > 0,
            ;
            if owed {
                assert(object_size <= slab_bytes);
                assert(object_count >= 1) by (nonlinear_arith)
                    requires
                        object_count == slab_bytes / object_size,
                        object_size > 0,
                        object_size <= slab_bytes,
                ;
                assert(base + slab_bytes <= usize::MAX);
            }
        }
        if object_count == 0 {
            let _ = page_allocator.free_pages(page, order, page_metadata_map);
            return false;
        }
        let ghost map_a = *page_metadata_map;
        let ghost pa_a = *page_allocator;
        let mut objects: Vec<usize> = Vec::new();
        let mut object_index = object_count;
        while object_index != 0
            invariant
                object_index <= object_count,
                object_count > 0,
                object_size > 0,
                objects@.len() == object_count - object_index,
                forall|k: int|
                    0 <= k < objects@.len() ==> #[trigger] objects@[k] == (base + (object_count
                        - 1 - k) * object_size) as usize && base + (object_count - 1 - k)
                        * object_size <= usize::MAX,
                page_allocator.inv(),
                page_metadata_map.wf(),
                *page_metadata_map == (PageMetadataMap {
                    metadata: page_metadata_map.metadata,
                    ..*old(page_metadata_map)
                }),
                *self == *old(self),
                self.wf(),
                object_count * object_size <= slab_bytes,
                owed ==> base + slab_bytes <= usize::MAX,
                *page_metadata_map == map_a,
                *page_allocator == pa_a,
                owed == old(self).spec_grow_owed(
                    cache_index,
                    gfp,
                    *old(page_allocator),
                    old(page_metadata_map),
                ),
            decreases object_index,
        {
            object_index -= 1;
            proof {
                assert(object_index * object_size + object_size <= object_count * object_size)
                    by (nonlinear_arith)
                    requires
                        object_index < object_count,
                        object_size > 0,
                ;
            }
            let offset = match object_index.checked_mul(object_size) {
                Some(o) => o,
                None => {
                    let _ = page_allocator.free_pages(page, order, page_metadata_map);
                    return false;
                },
            };
            let addr = match base.checked_add(offset) {
                Some(a) => a,
                None => {
                    let _ = page_allocator.free_pages(page, order, page_metadata_map);
                    return false;
                },
            };
            objects.push(addr);
        }
        let slab = KmallocSlab {
            page,
            order,
            base,
            object_size,
            object_count,
            free_count: object_count,
            cache_index,
        };
        self.slabs[self.slab_count] = slab;
        self.slab_count += 1;
        self.set_free_list(cache_index, objects);
        let mut cache = self.caches[cache_index];
        cache.slab_count = cache.slab_count + 1;
        self.caches[cache_index] = cache;
        proof {
            assert(objects@ =~= Self::slab_objects(base, object_size, object_count));
        }
        true
    }

    /// Whether `kmalloc` of `size` bytes pops an object from a free list that already holds
    /// one: the last entry is not null and lies in a slab with a free object counted.
    pub open spec fn spec_pops_listed(&self, size: usize) -> bool {
        &&& self.spec_cache_index_for_size(size) is Some
        &&& {
            let list = self.free_list(self.spec_cache_index_for_size(size)->0 as int);
            &&& list.len() > 0
            &&& list.last() != KMALLOC_NULL
            &&& self.spec_slab_index_for_addr(list.last()) is Some
            &&& self.slabs@[self.spec_slab_index_for_addr(list.last())->0 as int].free_count > 0
        }
    }

    /// The slab found for `addr` depends only on which slabs contain it.
    pub proof fn lemma_slab_index_frame(a: &KmallocCaches, b: &KmallocCaches, addr: usize)
        requires
            a.slab_count == b.slab_count,
            forall|i: int|
                0 <= i < a.slab_count ==> #[trigger] a.slabs@[i].spec_contains(addr)
                    == b.slabs@[i].spec_contains(addr),
        ensures
            a.spec_slab_index_for_addr(addr) == b.spec_slab_index_for_addr(addr),
    {
        if exists|i: int| 0 <= i < a.slab_count && a.slabs@[i].spec_contains(addr) {
            let ia = choose|i: int|
                0 <= i < a.slab_count && a.slabs@[i].spec_contains(addr) && forall|j: int|
                    0 <= j < i ==> !a.slabs@[j].spec_contains(addr);
            assert(exists|i: int| 0 <= i < b.slab_count && b.slabs@[i].spec_contains(addr)) by {
                let w = choose|i: int| 0 <= i < a.slab_count && a.slabs@[i].spec_contains(addr);
                assert(b.slabs@[w].spec_contains(addr));
            }
            assert(exists|i: int|
                0 <= i < a.slab_count && a.slabs@[i].spec_contains(addr) && forall|j: int|
                    0 <= j < i ==> !a.slabs@[j].spec_contains(addr)) by {
                let w = choose|i: int| 0 <= i < a.slab_count && a.slabs@[i].spec_contains(addr);
                Self::lemma_first_containing(a, addr, w);
            }
            assert(exists|i: int|
                0 <= i < b.slab_count && b.slabs@[i].spec_contains(addr) && forall|j: int|
                    0 <= j < i ==> !b.slabs@[j].spec_contains(addr)) by {
                assert(0 <= ia < b.slab_count && b.slabs@[ia].spec_contains(addr));
                assert forall|j: int| 0 <= j < ia implies !b.slabs@[j].spec_contains(addr) by {
                    assert(!a.slabs@[j].spec_contains(addr));
                }
            }
            let ib = choose|i: int|
                0 <= i < b.slab_count && b.slabs@[i].spec_contains(addr) && forall|j: int|
                    0 <= j < i ==> !b.slabs@[j].spec_contains(addr);
            if ia < ib {
                assert(!b.slabs@[ia].spec_contains(addr));
            } else if ib < ia {
                assert(!a.slabs@[ib].spec_contains(addr));
            }
        } else {
            assert(!exists|i: int| 0 <= i < b.slab_count && b.slabs@[i].spec_contains(addr)) by {
                if exists|i: int| 0 <= i < b.slab_count && b.slabs@[i].spec_contains(addr) {
                    let w = choose|i: int| 0 <= i < b.slab_count && b.slabs@[i].spec_contains(addr);
                    assert(a.slabs@[w].spec_contains(addr));
                }
            }
        }
    }

    /// Where some slab contains `addr`, a first one does.
    proof fn lemma_first_containing(a: &KmallocCaches, addr: usize, w: int)
        requires
            0 <= w < a.slab_count,
            a.slabs@[w].spec_contains(addr),
        ensures
            exists|i: int|
                0 <= i < a.slab_count && a.slabs@[i].spec_contains(addr) && forall|j: int|
                    0 <= j < i ==> !a.slabs@[j].spec_contains(addr),
        decreases w,
    {
        if exists|j: int| 0 <= j < w && a.slabs@[j].spec_contains(addr) {
            let j = choose|j: int| 0 <= j < w && a.slabs@[j].spec_contains(addr);
            Self::lemma_first_containing(a, addr, j);
        } else {
            assert(0 <= w < a.slab_count && a.slabs@[w].spec_contains(addr) && forall|j: int|
                0 <= j < w ==> !a.slabs@[j].spec_contains(addr));
        }
    }

    /// `after` is this state after `kmalloc` of `size` bytes popped the last entry of the
    /// class's free list: the entry is off the list, its slab counts one free object less,
    /// and the rest is as it was.
    pub open spec fn popped_listed(&self, after: KmallocCaches, size: usize) -> bool {
        let c = self.spec_cache_index_for_size(size)->0;
        let list = self.free_list(c as int);
        let si = self.spec_slab_index_for_addr(list.last())->0;
        &&& after.free_list(c as int) == list.drop_last()
        &&& forall|d: int|
            0 <= d < MAX_KMALLOC_CACHES && d != c ==> #[trigger] after.free_list(d)
                == self.free_list(d)
        &&& after.slabs@ == self.slabs@.update(
            si as int,
            KmallocSlab {
                free_count: (self.slabs@[si as int].free_count - 1) as usize,
                ..self.slabs@[si as int]
            },
        )
        &&& after.slab_count == self.slab_count
        &&& after.caches == self.caches
        &&& after.count == self.count
        &&& after.lifecycle == self.lifecycle
        &&& after.sizes == self.sizes
    }

    /// On a ready allocator, a request of `size > 0` bytes goes to the first class whose
    /// objects hold it; there is none exactly when no class holds it.
    pub proof fn lemma_cache_index_is_first_fitting(&self, size: usize)
        requires
            self.lifecycle@ == State::Ready,
            size > 0,
        ensures
            self.spec_cache_index_for_size(size) matches Some(i) ==> i < self.count && size
                <= self.caches@[i as int].object_size && forall|j: int|
                0 <= j < i ==> #[trigger] self.caches@[j].object_size < size,
            (self.spec_cache_index_for_size(size) is None) == (forall|j: int|
                0 <= j < self.count ==> #[trigger] self.caches@[j].object_size < size),
    {
        if exists|i: int| 0 <= i < self.count && size <= self.caches@[i].object_size {
            self.lemma_first_class_exists(size);
        }
    }

    /// Where some class holds `size` bytes, a first one does.
    proof fn lemma_first_class_exists(&self, size: usize)
        requires
            exists|i: int| 0 <= i < self.count && size <= self.caches@[i].object_size,
        ensures
            exists|i: int|
                0 <= i < self.count && size <= self.caches@[i].object_size && forall|j: int|
                    0 <= j < i ==> size > self.caches@[j].object_size,
    {
        let w = choose|i: int| 0 <= i < self.count && size <= self.caches@[i].object_size;
        self.lemma_first_class_below(size, w);
    }

    proof fn lemma_first_class_below(&self, size: usize, w: int)
        requires
            0 <= w < self.count,
            size <= self.caches@[w].object_size,
        ensures
            exists|i: int|
                0 <= i < self.count && size <= self.caches@[i].object_size && forall|j: int|
                    0 <= j < i ==> size > self.caches@[j].object_size,
        decreases w,
    {
        if exists|j: int| 0 <= j < w && size <= self.caches@[j].object_size {
            let j = choose|j: int| 0 <= j < w && size <= self.caches@[j].object_size;
            self.lemma_first_class_below(size, j);
        } else {
            assert(forall|j: int| 0 <= j < w ==> size > self.caches@[j].object_size);
        }
    }

    /// A kmalloc of `size` bytes that pops the object at `a.addr` from its class's free list,
    /// followed by a kfree of it, puts the list back as it was: the next kmalloc of `size`
    /// pops the same object again, and a second kfree of it is refused.
    pub proof fn lemma_kmalloc_kfree_round_trip(
        s0: KmallocCaches,
        s1: KmallocCaches,
        s2: KmallocCaches,
        size: usize,
        a: KmallocAllocRef,
    )
        requires
            s0.spec_pops_listed(size),
            s0.popped_listed(s1, size),
            a.cache_index == s0.spec_cache_index_for_size(size)->0,
            a.addr == s0.free_list(a.cache_index as int).last(),
            s2.free_list(a.cache_index as int) == s1.free_list(a.cache_index as int).push(a.addr),
            s2.count == s1.count,
        ensures
            s2.free_list(a.cache_index as int) == s0.free_list(a.cache_index as int),
            s2.free_list(a.cache_index as int).last() == a.addr,
            !s2.spec_can_kfree(a),
    {
        let c = a.cache_index as int;
        let list = s0.free_list(c);
        assert(list.drop_last().push(list.last()) =~= list);
        let n = s2.free_list(c).len();
        assert(s2.free_list(c)[n - 1] == a.addr);
        assert(a.cache_index < s0.count) by {
            assert(exists|i: int| 0 <= i < s0.count && size <= s0.caches@[i].object_size);
            s0.lemma_first_class_exists(size);
        }
        assert(s2.spec_freelist_contains(a.cache_index, a.addr)) by {
            assert(n - (n - 1) <= FREELIST_SCAN_LIMIT);
        }
    }

    /// Whether `kfree` takes back the object that `kmalloc` of `size` bytes pops from the
    /// class's free list: its slab belongs to the class, counts no more free objects than it
    /// holds, and the object is not found again on the rest of the list.
    pub open spec fn spec_returns_popped(&self, size: usize) -> bool {
        let c = self.spec_cache_index_for_size(size)->0;
        let list = self.free_list(c as int);
        let si = self.spec_slab_index_for_addr(list.last())->0;
        &&& self.slabs@[si as int].cache_index == c
        &&& self.slabs@[si as int].free_count <= self.slabs@[si as int].object_count
        &&& !(exists|j: int|
            0 <= j < list.len() - 1 && (list.len() - 1) - j <= FREELIST_SCAN_LIMIT && #[trigger] list[j]
                == list.last())
    }

    /// Pops the next free object of the class serving `size` bytes, growing the class by a
    /// slab first where its free list is empty.
    /// `zeroed` marks a request for a zero-filled object; filling the object's bytes with
    /// zeros is a raw memory write that the caller performs on the address handed back.
    pub fn kmalloc(
        &mut self,
        size: usize,
        gfp: GfpFlags,
        page_allocator: &mut PageAllocator,
        page_metadata_map: &mut PageMetadataMap,
        zeroed: bool,
    ) -> (r: Option<KmallocAllocRef>)
        requires
            old(self).wf(),
            old(page_allocator).inv(),
            old(page_metadata_map).wf(),
        ensures
            final(self).wf(),
            final(page_allocator).inv(),
            final(page_metadata_map).wf(),
            old(self).spec_cache_index_for_size(size) is None ==> r is None && *final(self)
                == *old(self) && *final(page_allocator) == *old(page_allocator)
                && *final(page_metadata_map) == *old(page_metadata_map),
            r matches Some(a) ==> {
                let c = a.cache_index as int;
                &&& old(self).spec_cache_index_for_size(size) == Some(a.cache_index)
                &&& a.requested_size == size
                &&& a.cache_size == old(self).caches@[c].object_size
                &&& size <= a.cache_size
                &&& popped_from(old(self).free_list(c), final(self).free_list(c), a.addr)
                &&& old(self).free_list(c).len() > 0 ==> final(self).slab_count == old(self).slab_count && *final(page_allocator) == *old(page_allocator)
                    && *final(page_metadata_map) == *old(page_metadata_map)
                &&& forall|d: int|
                    0 <= d < MAX_KMALLOC_CACHES && d != c ==> #[trigger] final(self).free_list(d)
                        == old(self).free_list(d)
            },
            old(self).spec_cache_index_for_size(size) matches Some(c) && old(self).free_list(
                c as int,
            ).len() > 0 ==> (r is Some) == old(self).spec_pops_listed(size),
            old(self).spec_pops_listed(size) ==> old(self).popped_listed(*final(self), size),
            old(self).spec_pops_listed(size) ==> r == Some(
                KmallocAllocRef {
                    addr: old(self).free_list(
                        old(self).spec_cache_index_for_size(size)->0 as int,
                    ).last(),
                    requested_size: size,
                    cache_size: old(self).caches@[old(self).spec_cache_index_for_size(
                        size,
                    )->0 as int].object_size,
                    cache_index: old(self).spec_cache_index_for_size(size)->0,
                },
            ),
    {
        if self.lifecycle.state() != State::Ready || size == 0 {
            return None;
        }
        let cache_index = match self.cache_index_for_size(size) {
            Some(c) => c,
            None => return None,
        };
        if self.free_lists[cache_index].len() == 0 && !self.grow_cache(
            cache_index,
            gfp,
            page_allocator,
            page_metadata_map,
        ) {
            return None;
        }
        let ghost s0 = *self;
        let mut list = self.take_free_list(cache_index);
        let ghost s1 = *self;
        let addr = match list.pop() {
            Some(a) => a,
            None => {
                self.set_free_list(cache_index, list);
                return None;
            },
        };
        if addr == KMALLOC_NULL {
            list.push(addr);
            self.set_free_list(cache_index, list);
            return None;
        }
        self.set_free_list(cache_index, list);
        let ghost s2 = *self;
        proof {
            let old_list = old(self).free_list(cache_index as int);
            if old_list.len() > 0 {
                assert(old_list.drop_last().push(old_list.last()) =~= old_list);
            }
        }
        let slab_index = match self.slab_index_for_addr(addr) {
            Some(s) => s,
            None => return None,
        };
        let mut slab = self.slabs[slab_index];
        if slab.free_count == 0 {
            return None;
        }
        slab.free_count = slab.free_count - 1;
        self.slabs[slab_index] = slab;
        assert forall|d: int| 0 <= d < MAX_KMALLOC_CACHES && d != cache_index implies #[trigger] self.free_list(d) == old(self).free_list(d) by {
            assert(self.free_list(d) == s2.free_list(d));
            assert(s2.free_list(d) == s1.free_list(d));
            assert(s1.free_list(d) == s0.free_list(d));
            assert(s0.free_list(d) == old(self).free_list(d));
        }
        Some(
            KmallocAllocRef {
                addr,
                requested_size: size,
                cache_size: self.caches[cache_index].object_size,
                cache_index,
            },
        )
    }

    /// Whether `kfree` takes `alloc_ref` back: an object of a slab of its class, handed out
    /// (its slab has one out and it is not on the free list), with the class's object size.
    pub open spec fn spec_can_kfree(&self, alloc_ref: KmallocAllocRef) -> bool {
        &&& self.lifecycle@ == State::Ready
        &&& alloc_ref.addr != KMALLOC_NULL
        &&& alloc_ref.cache_index < self.count
        &&& self.caches@[alloc_ref.cache_index as int].object_size == alloc_ref.cache_size
        &&& self.spec_slab_index_for_addr(alloc_ref.addr) matches Some(s) && {
            let slab = self.slabs@[s as int];
            &&& slab.cache_index == alloc_ref.cache_index
            &&& slab.free_count < slab.object_count
        }
        &&& !self.spec_freelist_contains(alloc_ref.cache_index, alloc_ref.addr)
    }

    /// Puts the object back on the front of its class's free list.
    pub fn kfree(&mut self, alloc_ref: KmallocAllocRef) -> (r: bool)
        requires
            old(self).wf(),
        ensures
            final(self).wf(),
            r == old(self).spec_can_kfree(alloc_ref),
            !r ==> *final(self) == *old(self),
            r ==> {
                let c = alloc_ref.cache_index as int;
                let s = old(self).spec_slab_index_for_addr(alloc_ref.addr)->0 as int;
                &&& pushed_onto(old(self).free_list(c), final(self).free_list(c), alloc_ref.addr)
                &&& forall|d: int|
                    0 <= d < MAX_KMALLOC_CACHES && d != c ==> #[trigger] final(self).free_list(d)
                        == old(self).free_list(d)
                &&& final(self).slabs@ == old(self).slabs@.update(
                    s,
                    KmallocSlab {
                        free_count: (old(self).slabs@[s].free_count + 1) as usize,
                        ..old(self).slabs@[s]
                    },
                )
                &&& final(self).slab_count == old(self).slab_count
                &&& final(self).caches == old(self).caches
                &&& final(self).count == old(self).count
                &&& final(self).lifecycle == old(self).lifecycle
            },
    {
        if self.lifecycle.state() != State::Ready || alloc_ref.addr() == KMALLOC_NULL
            || alloc_ref.cache_index() >= self.count
            || self.caches[alloc_ref.cache_index()].object_size != alloc_ref.cache_size() {
            return false;
        }
        let slab_index = match self.slab_index_for_addr(alloc_ref.addr()) {
            Some(s) => s,
            None => return false,
        };
        let slab = self.slabs[slab_index];
        if slab.cache_index != alloc_ref.cache_index() || !slab.contains(alloc_ref.addr())
            || slab.free_count >= slab.object_count || self.freelist_contains(
            alloc_ref.cache_index(),
            alloc_ref.addr(),
        ) {
            return false;
        }
        let cache_index = alloc_ref.cache_index();
        let ghost s0 = *self;
        let mut list = self.take_free_list(cache_index);
        let ghost s1 = *self;
        list.push(alloc_ref.addr());
        self.set_free_list(cache_index, list);
        let ghost s2 = *self;
        let mut slab = self.slabs[slab_index];
        slab.free_count = slab.free_count + 1;
        self.slabs[slab_index] = slab;
        assert forall|d: int| 0 <= d < MAX_KMALLOC_CACHES && d != cache_index implies #[trigger] self.free_list(d) == old(self).free_list(d) by {
            assert(self.free_list(d) == s2.free_list(d));
            assert(s2.free_list(d) == s1.free_list(d));
            assert(s1.free_list(d) == s0.free_list(d));
        }
        true
    }

    /// Whether `kfree_addr` takes back the object at `addr` of a request of `size` bytes: the
    /// slab that holds it names a class that serves `size`, and `kfree` takes the object back.
    pub open spec fn spec_can_kfree_addr(&self, addr: usize, size: usize) -> bool {
        &&& size != 0
        &&& self.spec_slab_index_for_addr(addr) is Some
        &&& {
            let c = self.slabs@[self.spec_slab_index_for_addr(addr)->0 as int].cache_index;
            &&& c < self.count
            &&& size <= self.caches@[c as int].object_size
            &&& self.spec_can_kfree(
                KmallocAllocRef {
                    addr,
                    requested_size: size,
                    cache_size: self.caches@[c as int].object_size,
                    cache_index: c,
                },
            )
        }
    }

    /// Frees the object at `addr` of a request of `size` bytes, finding its class from the
    /// slab that holds it.
    pub fn kfree_addr(&mut self, addr: usize, size: usize) -> (r: bool)
        requires
            old(self).wf(),
        ensures
            final(self).wf(),
            !r ==> *final(self) == *old(self),
            r ==> (old(self).spec_slab_index_for_addr(addr) matches Some(s) && {
                let c = old(self).slabs@[s as int].cache_index;
                &&& c < old(self).count
                &&& size <= old(self).caches@[c as int].object_size
                &&& old(self).spec_can_kfree(
                    KmallocAllocRef {
                        addr,
                        requested_size: size,
                        cache_size: old(self).caches@[c as int].object_size,
                        cache_index: c,
                    },
                )
                &&& final(self).free_list(c as int) == old(self).free_list(c as int).push(addr)
            }),
            old(self).lifecycle@ != State::Ready || addr == KMALLOC_NULL || size == 0 ==> !r,
            r == old(self).spec_can_kfree_addr(addr, size),
    {
        if self.lifecycle.state() != State::Ready || addr == KMALLOC_NULL || size == 0 {
            return false;
        }
        let slab_index = match self.slab_index_for_addr(addr) {
            Some(s) => s,
            None => return false,
        };
        let cache_index = self.slabs[slab_index].cache_index;
        if cache_index >= self.count || size > self.caches[cache_index].object_size {
            return false;
        }
        let alloc_ref = KmallocAllocRef {
            addr,
            requested_size: size,
            cache_size: self.caches[cache_index].object_size,
            cache_index,
        };
        self.kfree(alloc_ref)
    }
}

} // verus!
