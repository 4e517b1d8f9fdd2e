//! Plain-value model of a raw event record as the tracing subsystem delivers it.
use vstd::prelude::*;

verus! {

/// A 128-bit identifier, in its four customary parts.
#[derive(Clone, Copy, Debug, PartialEq, Eq, Structural)]
pub struct Guid {
    pub data1: u32,
    pub data2: u16,
    pub data3: u16,
    /// The eight trailing bytes, the first one least significant.
    pub data4: u64,
}

/// Identity and classification of an event kind.
#[derive(Clone, Copy, Debug, PartialEq, Eq, Structural)]
pub struct EventDescriptor {
    pub id: u16,
    pub version: u8,
    pub channel: u8,
    pub level: u8,
    pub opcode: u8,
    pub task: u16,
    pub keyword: u64,
}

/// Header flag set when the recording process used 4-byte pointers.
pub const EVENT_HEADER_FLAG_32_BIT_HEADER: u16 = 0x0020;

/// Header of a raw event record.
#[derive(Clone, Copy, Debug, PartialEq, Eq, Structural)]
pub struct EventHeader {
    pub size: u16,
    pub header_type: u16,
    pub flags: u16,
    pub event_property: u16,
    pub thread_id: u32,
    pub process_id: u32,
    /// Time of the event, in 100 ns ticks since 1601-01-01.
    pub time_stamp: i64,
    pub provider_id: Guid,
    pub descriptor: EventDescriptor,
    pub activity_id: Guid,
}

/// One raw event: its header and its payload bytes.
#[derive(Clone, Debug)]
pub struct EventRecord {
    pub header: EventHeader,
    pub user_data: Vec<u8>,
}

/// Pointer width, in bytes, of the process that recorded an event with these header flags.
pub open spec fn pointer_size_of(flags: u16) -> usize {
    if flags & EVENT_HEADER_FLAG_32_BIT_HEADER != 0 {
        4
    } else {
        8
    }
}

impl EventRecord {
    /// Pointer width, in bytes, of the process that recorded this event (4 or 8).
    pub fn pointer_size(&self) -> (r: usize)
        ensures
            r == pointer_size_of(self.header.flags),
            r == 4 || r == 8,
    {
        if self.header.flags & EVENT_HEADER_FLAG_32_BIT_HEADER != 0 {
            4
        } else {
            8
        }
    }

    /// Identifier of this event's kind.
    pub fn event_id(&self) -> (r: u16)
        ensures
            r == self.header.descriptor.id,
    {
        self.header.descriptor.id
    }
}

} // verus!
