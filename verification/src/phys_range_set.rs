//! A bounded set of physical ranges, as the device tree reports memory and reservations.
use vstd::prelude::*;
use crate::raw_dtb::PhysRange;

verus! {

pub const PHYS_RANGE_SET_CAPACITY: usize = 16;

#[derive(Clone, Copy)]
pub struct PhysRangeSet {
    pub ranges: [PhysRange; 16],
    pub count: usize,
}

impl PhysRangeSet {
    pub open spec fn wf(&self) -> bool {
        self.count <= PHYS_RANGE_SET_CAPACITY
    }

    /// The ranges in the set, in insertion order.
    pub open spec fn view(&self) -> Seq<PhysRange> {
        self.ranges@.subrange(0, self.count as int)
    }

    pub open spec fn spec_contains_range(&self, range: PhysRange) -> bool {
        exists|i: int|
            0 <= i < self@.len() && #[trigger] self@[i].start <= range.start && range.end
                <= self@[i].end
    }

    pub open spec fn spec_overlaps_range(&self, range: PhysRange) -> bool {
        exists|i: int|
            0 <= i < self@.len() && #[trigger] self@[i].start < range.end && range.start
                < self@[i].end
    }

    pub fn empty() -> (s: Self)
        ensures
            s.wf(),
            s@ == Seq::<PhysRange>::empty(),
    {
        PhysRangeSet { ranges: [PhysRange { start: 0, end: 0 }; 16], count: 0 }
    }

    pub fn count(&self) -> (r: usize)
        ensures
            r == self.count,
    {
        self.count
    }

    pub fn get(&self, index: usize) -> (r: Option<PhysRange>)
        requires
            self.wf(),
        ensures
            index < self@.len() ==> r == Some(self@[index as int]),
            index >= self@.len() ==> r is None,
    {
        if index < self.count {
            Some(self.ranges[index])
        } else {
            None
        }
    }

    /// Appends `range`; refused when the set is full.
    pub fn push(&mut self, range: PhysRange) -> (r: bool)
        requires
            old(self).wf(),
        ensures
            final(self).wf(),
            r == (old(self).count < PHYS_RANGE_SET_CAPACITY),
            r ==> final(self)@ == old(self)@.push(range) && final(self).count == old(self).count + 1,
            !r ==> *final(self) == *old(self),
    {
        if self.count >= PHYS_RANGE_SET_CAPACITY {
            return false;
        }
        self.ranges[self.count] = range;
        self.count = self.count + 1;
        assert(self@ =~= old(self)@.push(range));
        true
    }

    /// Some range of the set covers all of `range`.
    pub fn contains_range(&self, range: PhysRange) -> (r: bool)
        requires
            self.wf(),
        ensures
            r == self.spec_contains_range(range),
    {
        let mut index = 0usize;
        while index < self.count
            invariant
                self.wf(),
                index <= self.count,
                forall|i: int|
                    0 <= i < index ==> !(#[trigger] self@[i].start <= range.start && range.end
                        <= self@[i].end),
            decreases self.count - index,
        {
            let candidate = self.ranges[index];
            if candidate.start <= range.start && range.end <= candidate.end {
                assert(self@[index as int] == candidate);
                return true;
            }
            index += 1;
        }
        false
    }

    /// Some range of the set shares an address with `range`.
    pub fn overlaps_range(&self, range: PhysRange) -> (r: bool)
        requires
            self.wf(),
        ensures
            r == self.spec_overlaps_range(range),
    {
        let mut index = 0usize;
        while index < self.count
            invariant
                self.wf(),
                index <= self.count,
                forall|i: int|
                    0 <= i < index ==> !(#[trigger] self@[i].start < range.end && range.start
                        < self@[i].end),
            decreases self.count - index,
        {
            let candidate = self.ranges[index];
            if candidate.start < range.end && range.start < candidate.end {
                assert(self@[index as int] == candidate);
                return true;
            }
            index += 1;
        }
        false
    }
}

} // verus!
