use vstd::prelude::*;
use crate::state::{
    condition_error, failed_condition, transition_error, EventError, EventResult, Lifecycle,
    LifecycleEvent, State,
};

verus! {

/// The value of four bytes read as a big-endian 32-bit number.
pub open spec fn be_u32_spec(bytes: [u8; 4]) -> u32 {
    (bytes[0] as int * 0x100_0000 + bytes[1] as int * 0x1_0000 + bytes[2] as int * 0x100
        + bytes[3] as int) as u32
}

/// Reads four bytes as a big-endian 32-bit number, as device tree header fields are stored.
pub fn be_u32(bytes: [u8; 4]) -> (r: u32)
    ensures
        r == be_u32_spec(bytes),
        r as int == bytes[0] as int * 0x100_0000 + bytes[1] as int * 0x1_0000 + bytes[2] as int
            * 0x100 + bytes[3] as int,
{
    (bytes[0] as u32) * 0x100_0000 + (bytes[1] as u32) * 0x1_0000 + (bytes[2] as u32) * 0x100
        + (bytes[3] as u32)
}

pub const FDT_MAGIC: u32 = 0xd00d_feed;

pub const FDT_TOTAL_SIZE_OFFSET: usize = 4;

pub const FDT_HEADER_SIZE: usize = 40;

/// A half-open physical address range `[start, end)`.
#[derive(Clone, Copy, PartialEq, Eq, Structural, Debug)]
pub struct PhysRange {
    pub start: usize,
    pub end: usize,
}

impl PhysRange {
    pub fn empty() -> (r: Self)
        ensures
            r == (PhysRange { start: 0, end: 0 }),
    {
        Self { start: 0, end: 0 }
    }

    pub fn new(start: usize, end: usize) -> (r: Self)
        ensures
            r == (PhysRange { start, end }),
    {
        Self { start, end }
    }

    pub fn start(self) -> (r: usize)
        ensures
            r == self.start,
    {
        self.start
    }

    pub fn end(self) -> (r: usize)
        ensures
            r == self.end,
    {
        self.end
    }

    pub fn size(self) -> (r: usize)
        requires
            self.start <= self.end,
        ensures
            r == self.end - self.start,
    {
        self.end - self.start
    }
}

/// The two header words that the boot code checks: the magic and the total size.
#[derive(Clone, Copy, PartialEq, Eq, Structural, Debug)]
pub struct DtbHeader {
    pub magic: u32,
    pub total_size: usize,
}

impl DtbHeader {
    fn empty() -> (r: Self)
        ensures
            r == (DtbHeader { magic: 0, total_size: 0 }),
    {
        Self { magic: 0, total_size: 0 }
    }

    fn with_magic(magic: u32) -> (r: Self)
        ensures
            r == (DtbHeader { magic, total_size: 0 }),
    {
        Self { magic, total_size: 0 }
    }

    fn with_total_size(self, total_size: usize) -> (r: Self)
        ensures
            r == (DtbHeader { magic: self.magic, total_size }),
    {
        Self { magic: self.magic, total_size }
    }
}

/// The flattened device tree handed over by the firmware, located and sized from its header.
pub struct RawDtb {
    pub lifecycle: Lifecycle,
    pub header: DtbHeader,
    pub header_range: PhysRange,
    pub range: PhysRange,
}

impl RawDtb {
    pub fn new() -> (s: Self)
        ensures
            s.lifecycle@ == State::Base,
            s.header == (DtbHeader { magic: 0, total_size: 0 }),
            s.header_range == (PhysRange { start: 0, end: 0 }),
            s.range == (PhysRange { start: 0, end: 0 }),
    {
        Self {
            lifecycle: Lifecycle::new(State::Base),
            header: DtbHeader::empty(),
            header_range: PhysRange::empty(),
            range: PhysRange::empty(),
        }
    }

    pub fn state(&self) -> (r: State)
        ensures
            r == self.lifecycle@,
    {
        self.lifecycle.state()
    }

    pub fn header_range(&self) -> (r: PhysRange)
        ensures
            r == self.header_range,
    {
        self.header_range
    }

    pub fn range(&self) -> (r: PhysRange)
        ensures
            r == self.range,
    {
        self.range
    }

    /// Records the header of the tree at `dtb_pa`, whose first big-endian word is `magic`.
    /// The boot arguments must be online, the address non-null, its header in the address
    /// space, and the magic that of a flattened device tree.
    pub fn preset(&mut self, boot_args_state: State, dtb_pa: usize, magic: u32) -> (r: EventResult)
        ensures
            dtb_pa + FDT_HEADER_SIZE <= usize::MAX && boot_args_state == State::Online && dtb_pa
                != 0 && magic == FDT_MAGIC ==> {
                &&& r == crate::state::transition_result(
                    LifecycleEvent::Preset,
                    old(self).lifecycle@,
                    State::Base,
                    State::Prepared,
                )
                &&& final(self).lifecycle@ == crate::state::transition_state(
                    old(self).lifecycle@,
                    State::Base,
                    State::Prepared,
                )
                &&& final(self).header == (DtbHeader { magic, total_size: 0 })
                &&& final(self).header_range == (PhysRange {
                    start: dtb_pa,
                    end: (dtb_pa + FDT_HEADER_SIZE) as usize,
                })
                &&& final(self).range == old(self).range
            },
            !(dtb_pa + FDT_HEADER_SIZE <= usize::MAX && boot_args_state == State::Online && dtb_pa
                != 0 && magic == FDT_MAGIC) ==> {
                &&& r == Err::<(), EventError>(
                    condition_error(
                        LifecycleEvent::Preset,
                        old(self).lifecycle@,
                        State::Base,
                        State::Prepared,
                    ),
                )
                &&& *final(self) == *old(self)
            },
    {
        let header_end = match dtb_pa.checked_add(FDT_HEADER_SIZE) {
            Some(end) => end,
            None => {
                return self.failed(LifecycleEvent::Preset, State::Base, State::Prepared);
            },
        };
        if boot_args_state != State::Online || dtb_pa == 0 {
            return self.failed(LifecycleEvent::Preset, State::Base, State::Prepared);
        }
        if magic != FDT_MAGIC {
            return self.failed(LifecycleEvent::Preset, State::Base, State::Prepared);
        }
        self.header = DtbHeader::with_magic(magic);
        self.header_range = PhysRange::new(dtb_pa, header_end);
        self.lifecycle.transition(LifecycleEvent::Preset, State::Base, State::Prepared)
    }

    /// Sizes the tree from `total_size`, the big-endian word at offset 4 of its header.
    /// Outside the prepared state the call is a plain transition attempt, which is refused.
    pub fn setup(&mut self, total_size_field: [u8; 4]) -> (r: EventResult)
        ensures
            old(self).lifecycle@ != State::Prepared ==> {
                &&& r == Err::<(), EventError>(
                    transition_error(
                        LifecycleEvent::Setup,
                        old(self).lifecycle@,
                        State::Prepared,
                        State::Ready,
                    ),
                )
                &&& *final(self) == *old(self)
            },
            old(self).lifecycle@ == State::Prepared && old(self).header_range.start
                + be_u32_spec(total_size_field) <= usize::MAX && be_u32_spec(total_size_field) >= FDT_HEADER_SIZE ==> {
                &&& r is Ok
                &&& final(self).lifecycle@ == State::Ready
                &&& final(self).header == (DtbHeader {
                    magic: old(self).header.magic,
                    total_size: be_u32_spec(total_size_field) as usize,
                })
                &&& final(self).range == (PhysRange {
                    start: old(self).header_range.start,
                    end: (old(self).header_range.start + be_u32_spec(total_size_field)) as usize,
                })
                &&& final(self).header_range == old(self).header_range
            },
            old(self).lifecycle@ == State::Prepared && !(old(self).header_range.start
                + be_u32_spec(total_size_field) <= usize::MAX && be_u32_spec(total_size_field) >= FDT_HEADER_SIZE) ==> {
                &&& r == Err::<(), EventError>(
                    condition_error(
                        LifecycleEvent::Setup,
                        State::Prepared,
                        State::Prepared,
                        State::Ready,
                    ),
                )
                &&& *final(self) == *old(self)
            },
    {
        if self.lifecycle.state() != State::Prepared {
            return self.lifecycle.transition(LifecycleEvent::Setup, State::Prepared, State::Ready);
        }
        let total_size = be_u32(total_size_field) as usize;
        let range_end = match self.header_range.start.checked_add(total_size) {
            Some(end) => end,
            None => {
                return self.failed(LifecycleEvent::Setup, State::Prepared, State::Ready);
            },
        };
        if total_size < FDT_HEADER_SIZE || range_end <= self.header_range.start {
            return self.failed(LifecycleEvent::Setup, State::Prepared, State::Ready);
        }
        self.header = self.header.with_total_size(total_size);
        self.range = PhysRange::new(self.header_range.start, range_end);
        self.lifecycle.transition(LifecycleEvent::Setup, State::Prepared, State::Ready)
    }

    fn failed(&self, event: LifecycleEvent, expected: State, target: State) -> (r: EventResult)
        ensures
            r == Err::<(), EventError>(condition_error(event, self.lifecycle@, expected, target)),
    {
        failed_condition(event, self.lifecycle.state(), expected, target)
    }
}

} // verus!
