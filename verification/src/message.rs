//! Event records read from a fault handle, and their decoding.
//!
//! A record is `UFFD_MSG_SIZE` bytes long. Its first byte tells the kind of
//! the event, the next seven are reserved, and the remaining twenty-four hold
//! the payload of that kind. Fields are little-endian.

use vstd::prelude::*;
use crate::defines::{
    UFFD_EVENT_FORK, UFFD_EVENT_PAGEFAULT, UFFD_EVENT_REMAP, UFFD_EVENT_REMOVE, UFFD_EVENT_UNMAP,
    UFFD_MSG_SIZE,
};

verus! {

/// One event record as it is read from the descriptor.
pub type UffdMsg = [u8; 32];

/// The 16-bit field that starts at byte `at` of `s`.
pub open spec fn le_u16(s: Seq<u8>, at: int) -> int {
    s[at] + 0x100 * s[at + 1]
}

/// The 32-bit field that starts at byte `at` of `s`.
pub open spec fn le_u32(s: Seq<u8>, at: int) -> int {
    le_u16(s, at) + 0x1_0000 * le_u16(s, at + 2)
}

/// The 64-bit field that starts at byte `at` of `s`.
pub open spec fn le_u64(s: Seq<u8>, at: int) -> int {
    le_u32(s, at) + 0x1_0000_0000 * le_u32(s, at + 4)
}

/// The two bytes that hold `x`.
pub open spec fn u16_bytes(x: int) -> Seq<u8> {
    seq![(x % 0x100) as u8, (x / 0x100 % 0x100) as u8]
}

/// The four bytes that hold `x`.
pub open spec fn u32_bytes(x: int) -> Seq<u8> {
    u16_bytes(x % 0x1_0000) + u16_bytes(x / 0x1_0000)
}

/// The eight bytes that hold `x`.
pub open spec fn u64_bytes(x: int) -> Seq<u8> {
    u32_bytes(x % 0x1_0000_0000) + u32_bytes(x / 0x1_0000_0000)
}

/// The eight bytes that every record starts with.
pub open spec fn header_bytes(event: u8, res1: u8, res2: u16, res3: u32) -> Seq<u8> {
    seq![event, res1] + u16_bytes(res2 as int) + u32_bytes(res3 as int)
}

/// A number written as a low part below `base` and a high part splits back
/// into those two.
proof fn lemma_split(lo: int, hi: int, base: int)
    requires
        0 <= lo < base,
        0 <= hi,
    ensures
        (lo + base * hi) % base == lo,
        (lo + base * hi) / base == hi,
{
    assert(base * hi == hi * base) by (nonlinear_arith);
    vstd::arithmetic::div_mod::lemma_fundamental_div_mod_converse(lo + base * hi, base, hi, lo);
}

proof fn lemma_u16_bytes(s: Seq<u8>, at: int)
    requires
        0 <= at,
        at + 2 <= s.len(),
    ensures
        0 <= le_u16(s, at) < 0x1_0000,
        u16_bytes(le_u16(s, at)) == s.subrange(at, at + 2),
{
    lemma_split(s[at] as int, s[at + 1] as int, 0x100);
    assert(u16_bytes(le_u16(s, at)) =~= s.subrange(at, at + 2));
}

proof fn lemma_u32_bytes(s: Seq<u8>, at: int)
    requires
        0 <= at,
        at + 4 <= s.len(),
    ensures
        0 <= le_u32(s, at) < 0x1_0000_0000,
        u32_bytes(le_u32(s, at)) == s.subrange(at, at + 4),
{
    lemma_u16_bytes(s, at);
    lemma_u16_bytes(s, at + 2);
    lemma_split(le_u16(s, at), le_u16(s, at + 2), 0x1_0000);
    assert(s.subrange(at, at + 2) + s.subrange(at + 2, at + 4) =~= s.subrange(at, at + 4));
}

proof fn lemma_u64_bytes(s: Seq<u8>, at: int)
    requires
        0 <= at,
        at + 8 <= s.len(),
    ensures
        0 <= le_u64(s, at) < 0x1_0000_0000_0000_0000,
        u64_bytes(le_u64(s, at)) == s.subrange(at, at + 8),
{
    lemma_u32_bytes(s, at);
    lemma_u32_bytes(s, at + 4);
    lemma_split(le_u32(s, at), le_u32(s, at + 4), 0x1_0000_0000);
    assert(s.subrange(at, at + 4) + s.subrange(at + 4, at + 8) =~= s.subrange(at, at + 8));
}

proof fn lemma_widths(x: int)
    ensures
        u16_bytes(x).len() == 2,
        u32_bytes(x).len() == 4,
        u64_bytes(x).len() == 8,
{
    let lo = x % 0x1_0000_0000;
    let hi = x / 0x1_0000_0000;
    assert(u32_bytes(lo).len() == 4);
    assert(u32_bytes(hi).len() == 4);
}

proof fn lemma_header_width(event: u8, res1: u8, res2: u16, res3: u32)
    ensures
        header_bytes(event, res1, res2, res3).len() == 8,
{
    lemma_widths(res2 as int);
    lemma_widths(res3 as int);
}

proof fn lemma_header_bytes(s: Seq<u8>)
    requires
        s.len() >= 8,
    ensures
        header_bytes(s[0], s[1], le_u16(s, 2) as u16, le_u32(s, 4) as u32) == s.subrange(0, 8),
{
    lemma_u16_bytes(s, 2);
    lemma_u32_bytes(s, 4);
    assert(seq![s[0], s[1]] + s.subrange(2, 4) + s.subrange(4, 8) =~= s.subrange(0, 8));
}

fn read_u16(record: &UffdMsg, at: usize) -> (x: u16)
    requires
        at + 2 <= 32,
    ensures
        x == le_u16(record@, at as int),
{
    record[at] as u16 + 0x100 * (record[at + 1] as u16)
}

fn read_u32(record: &UffdMsg, at: usize) -> (x: u32)
    requires
        at + 4 <= 32,
    ensures
        x == le_u32(record@, at as int),
{
    read_u16(record, at) as u32 + 0x1_0000 * (read_u16(record, at + 2) as u32)
}

fn read_u64(record: &UffdMsg, at: usize) -> (x: u64)
    requires
        at + 8 <= 32,
    ensures
        x == le_u64(record@, at as int),
{
    read_u32(record, at) as u64 + 0x1_0000_0000 * (read_u32(record, at + 4) as u64)
}

/// A page of a registered range was touched and has no content yet.
#[derive(Clone, Copy, Debug, PartialEq, Eq)]
pub struct PagefaultMessage {
    pub event: u8,
    pub reserved1: u8,
    pub reserved2: u16,
    pub reserved3: u32,
    pub flags: u64,
    pub address: u64,
    pub pad: u64,
}

/// The process forked; `ufd` is the descriptor of the child's fault handle.
#[derive(Clone, Copy, Debug, PartialEq, Eq)]
pub struct ForkMessage {
    pub event: u8,
    pub reserved1: u8,
    pub reserved2: u16,
    pub reserved3: u32,
    pub ufd: u32,
    pub pad1: u32,
    pub pad2: u64,
    pub pad3: u64,
}

/// A registered region of `len` bytes moved from `from` to `to`.
#[derive(Clone, Copy, Debug, PartialEq, Eq)]
pub struct RemapMessage {
    pub event: u8,
    pub reserved1: u8,
    pub reserved2: u16,
    pub reserved3: u32,
    pub from: u64,
    pub to: u64,
    pub len: u64,
}

/// The content of the region from `start` to `end` was dropped.
#[derive(Clone, Copy, Debug, PartialEq, Eq)]
pub struct RemoveMessage {
    pub event: u8,
    pub reserved1: u8,
    pub reserved2: u16,
    pub reserved3: u32,
    pub start: u64,
    pub end: u64,
    pub pad1: u64,
}

/// The region from `start` to `end` was unmapped.
#[derive(Clone, Copy, Debug, PartialEq, Eq)]
pub struct UnmapMessage {
    pub event: u8,
    pub reserved1: u8,
    pub reserved2: u16,
    pub reserved3: u32,
    pub start: u64,
    pub end: u64,
    pub pad1: u64,
}

/// A decoded event record.
#[derive(Clone, Copy, Debug, PartialEq, Eq)]
pub enum Message {
    Pagefault(PagefaultMessage),
    Fork(ForkMessage),
    Remap(RemapMessage),
    Remove(RemoveMessage),
    Unmap(UnmapMessage),
}

impl PagefaultMessage {
    /// The message that the bytes of `record` spell.
    pub open spec fn of_record(record: Seq<u8>) -> Self {
        PagefaultMessage {
            event: record[0],
            reserved1: record[1],
            reserved2: le_u16(record, 2) as u16,
            reserved3: le_u32(record, 4) as u32,
            flags: le_u64(record, 8) as u64,
            address: le_u64(record, 16) as u64,
            pad: le_u64(record, 24) as u64,
        }
    }

    /// The bytes that spell this message, reserved ones included.
    pub open spec fn wire(&self) -> Seq<u8> {
        header_bytes(self.event, self.reserved1, self.reserved2, self.reserved3)
            + u64_bytes(self.flags as int)
            + u64_bytes(self.address as int)
            + u64_bytes(self.pad as int)
    }

    fn decode(record: &UffdMsg) -> (m: Self)
        ensures
            m == Self::of_record(record@),
    {
        PagefaultMessage {
            event: record[0],
            reserved1: record[1],
            reserved2: read_u16(record, 2),
            reserved3: read_u32(record, 4),
            flags: read_u64(record, 8),
            address: read_u64(record, 16),
            pad: read_u64(record, 24),
        }
    }

    proof fn lemma_wire(record: Seq<u8>)
        requires
            record.len() == UFFD_MSG_SIZE,
        ensures
            Self::of_record(record).wire() == record,
    {
        lemma_header_bytes(record);
        lemma_u64_bytes(record, 8);
        lemma_u64_bytes(record, 16);
        lemma_u64_bytes(record, 24);
        assert(Self::of_record(record).wire() =~= record);
    }
}

impl ForkMessage {
    /// The message that the bytes of `record` spell.
    pub open spec fn of_record(record: Seq<u8>) -> Self {
        ForkMessage {
            event: record[0],
            reserved1: record[1],
            reserved2: le_u16(record, 2) as u16,
            reserved3: le_u32(record, 4) as u32,
            ufd: le_u32(record, 8) as u32,
            pad1: le_u32(record, 12) as u32,
            pad2: le_u64(record, 16) as u64,
            pad3: le_u64(record, 24) as u64,
        }
    }

    /// The bytes that spell this message, reserved ones included.
    pub open spec fn wire(&self) -> Seq<u8> {
        header_bytes(self.event, self.reserved1, self.reserved2, self.reserved3)
            + u32_bytes(self.ufd as int)
            + u32_bytes(self.pad1 as int)
            + u64_bytes(self.pad2 as int)
            + u64_bytes(self.pad3 as int)
    }

    fn decode(record: &UffdMsg) -> (m: Self)
        ensures
            m == Self::of_record(record@),
    {
        ForkMessage {
            event: record[0],
            reserved1: record[1],
            reserved2: read_u16(record, 2),
            reserved3: read_u32(record, 4),
            ufd: read_u32(record, 8),
            pad1: read_u32(record, 12),
            pad2: read_u64(record, 16),
            pad3: read_u64(record, 24),
        }
    }

    proof fn lemma_wire(record: Seq<u8>)
        requires
            record.len() == UFFD_MSG_SIZE,
        ensures
            Self::of_record(record).wire() == record,
    {
        lemma_header_bytes(record);
        lemma_u32_bytes(record, 8);
        lemma_u32_bytes(record, 12);
        lemma_u64_bytes(record, 16);
        lemma_u64_bytes(record, 24);
        assert(Self::of_record(record).wire() =~= record);
    }
}

impl RemapMessage {
    /// The message that the bytes of `record` spell.
    pub open spec fn of_record(record: Seq<u8>) -> Self {
        RemapMessage {
            event: record[0],
            reserved1: record[1],
            reserved2: le_u16(record, 2) as u16,
            reserved3: le_u32(record, 4) as u32,
            from: le_u64(record, 8) as u64,
            to: le_u64(record, 16) as u64,
            len: le_u64(record, 24) as u64,
        }
    }

    /// The bytes that spell this message, reserved ones included.
    pub open spec fn wire(&self) -> Seq<u8> {
        header_bytes(self.event, self.reserved1, self.reserved2, self.reserved3)
            + u64_bytes(self.from as int)
            + u64_bytes(self.to as int)
            + u64_bytes(self.len as int)
    }

    fn decode(record: &UffdMsg) -> (m: Self)
        ensures
            m == Self::of_record(record@),
    {
        RemapMessage {
            event: record[0],
            reserved1: record[1],
            reserved2: read_u16(record, 2),
            reserved3: read_u32(record, 4),
            from: read_u64(record, 8),
            to: read_u64(record, 16),
            len: read_u64(record, 24),
        }
    }

    proof fn lemma_wire(record: Seq<u8>)
        requires
            record.len() == UFFD_MSG_SIZE,
        ensures
            Self::of_record(record).wire() == record,
    {
        lemma_header_bytes(record);
        lemma_u64_bytes(record, 8);
        lemma_u64_bytes(record, 16);
        lemma_u64_bytes(record, 24);
        assert(Self::of_record(record).wire() =~= record);
    }
}

impl RemoveMessage {
    /// The message that the bytes of `record` spell.
    pub open spec fn of_record(record: Seq<u8>) -> Self {
        RemoveMessage {
            event: record[0],
            reserved1: record[1],
            reserved2: le_u16(record, 2) as u16,
            reserved3: le_u32(record, 4) as u32,
            start: le_u64(record, 8) as u64,
            end: le_u64(record, 16) as u64,
            pad1: le_u64(record, 24) as u64,
        }
    }

    /// The bytes that spell this message, reserved ones included.
    pub open spec fn wire(&self) -> Seq<u8> {
        header_bytes(self.event, self.reserved1, self.reserved2, self.reserved3)
            + u64_bytes(self.start as int)
            + u64_bytes(self.end as int)
            + u64_bytes(self.pad1 as int)
    }

    fn decode(record: &UffdMsg) -> (m: Self)
        ensures
            m == Self::of_record(record@),
    {
        RemoveMessage {
            event: record[0],
            reserved1: record[1],
            reserved2: read_u16(record, 2),
            reserved3: read_u32(record, 4),
            start: read_u64(record, 8),
            end: read_u64(record, 16),
            pad1: read_u64(record, 24),
        }
    }

    proof fn lemma_wire(record: Seq<u8>)
        requires
            record.len() == UFFD_MSG_SIZE,
        ensures
            Self::of_record(record).wire() == record,
    {
        lemma_header_bytes(record);
        lemma_u64_bytes(record, 8);
        lemma_u64_bytes(record, 16);
        lemma_u64_bytes(record, 24);
        assert(Self::of_record(record).wire() =~= record);
    }
}

impl UnmapMessage {
    /// The message that the bytes of `record` spell.
    pub open spec fn of_record(record: Seq<u8>) -> Self {
        UnmapMessage {
            event: record[0],
            reserved1: record[1],
            reserved2: le_u16(record, 2) as u16,
            reserved3: le_u32(record, 4) as u32,
            start: le_u64(record, 8) as u64,
            end: le_u64(record, 16) as u64,
            pad1: le_u64(record, 24) as u64,
        }
    }

    /// The bytes that spell this message, reserved ones included.
    pub open spec fn wire(&self) -> Seq<u8> {
        header_bytes(self.event, self.reserved1, self.reserved2, self.reserved3)
            + u64_bytes(self.start as int)
            + u64_bytes(self.end as int)
            + u64_bytes(self.pad1 as int)
    }

    fn decode(record: &UffdMsg) -> (m: Self)
        ensures
            m == Self::of_record(record@),
    {
        UnmapMessage {
            event: record[0],
            reserved1: record[1],
            reserved2: read_u16(record, 2),
            reserved3: read_u32(record, 4),
            start: read_u64(record, 8),
            end: read_u64(record, 16),
            pad1: read_u64(record, 24),
        }
    }

    proof fn lemma_wire(record: Seq<u8>)
        requires
            record.len() == UFFD_MSG_SIZE,
        ensures
            Self::of_record(record).wire() == record,
    {
        lemma_header_bytes(record);
        lemma_u64_bytes(record, 8);
        lemma_u64_bytes(record, 16);
        lemma_u64_bytes(record, 24);
        assert(Self::of_record(record).wire() =~= record);
    }
}

/// Whether `event` is the discriminant of one of the five kinds.
pub open spec fn known_event(event: u8) -> bool {
    ||| event == UFFD_EVENT_PAGEFAULT
    ||| event == UFFD_EVENT_FORK
    ||| event == UFFD_EVENT_REMAP
    ||| event == UFFD_EVENT_REMOVE
    ||| event == UFFD_EVENT_UNMAP
}

impl Message {
    /// What `record` decodes to: its first byte selects the kind, and the
    /// kind gives each field its place. `None` for a record of no known kind.
    pub open spec fn of_record(record: Seq<u8>) -> Option<Message> {
        if record[0] == UFFD_EVENT_PAGEFAULT {
            Some(Message::Pagefault(PagefaultMessage::of_record(record)))
        } else if record[0] == UFFD_EVENT_FORK {
            Some(Message::Fork(ForkMessage::of_record(record)))
        } else if record[0] == UFFD_EVENT_REMAP {
            Some(Message::Remap(RemapMessage::of_record(record)))
        } else if record[0] == UFFD_EVENT_REMOVE {
            Some(Message::Remove(RemoveMessage::of_record(record)))
        } else if record[0] == UFFD_EVENT_UNMAP {
            Some(Message::Unmap(UnmapMessage::of_record(record)))
        } else {
            None
        }
    }

    /// The bytes that spell this message, reserved ones included.
    pub open spec fn wire(&self) -> Seq<u8> {
        match self {
            Message::Pagefault(m) => m.wire(),
            Message::Fork(m) => m.wire(),
            Message::Remap(m) => m.wire(),
            Message::Remove(m) => m.wire(),
            Message::Unmap(m) => m.wire(),
        }
    }

    /// Tells whether `event` is the discriminant of a kind that `decode` reads.
    pub fn is_known(event: u8) -> (known: bool)
        ensures
            known == known_event(event),
    {
        event == UFFD_EVENT_PAGEFAULT || event == UFFD_EVENT_FORK || event == UFFD_EVENT_REMAP
            || event == UFFD_EVENT_REMOVE || event == UFFD_EVENT_UNMAP
    }

    /// Decodes one record. A record of no known kind decodes to `None`.
    pub fn decode(record: &UffdMsg) -> (r: Option<Message>)
        ensures
            r == Message::of_record(record@),
            r is Some <==> known_event(record@[0]),
    {
        let event = record[0];
        if event == UFFD_EVENT_PAGEFAULT {
            Some(Message::Pagefault(PagefaultMessage::decode(record)))
        } else if event == UFFD_EVENT_FORK {
            Some(Message::Fork(ForkMessage::decode(record)))
        } else if event == UFFD_EVENT_REMAP {
            Some(Message::Remap(RemapMessage::decode(record)))
        } else if event == UFFD_EVENT_REMOVE {
            Some(Message::Remove(RemoveMessage::decode(record)))
        } else if event == UFFD_EVENT_UNMAP {
            Some(Message::Unmap(UnmapMessage::decode(record)))
        } else {
            None
        }
    }
}

/// A message of any kind spells exactly one record: the header and the
/// payload fields of its kind, padding included, add up to `UFFD_MSG_SIZE`
/// bytes.
pub proof fn lemma_wire_size(m: Message)
    ensures
        m.wire().len() == UFFD_MSG_SIZE,
{
    match m {
        Message::Pagefault(m) => {
            lemma_header_width(m.event, m.reserved1, m.reserved2, m.reserved3);
            lemma_widths(m.flags as int);
            lemma_widths(m.address as int);
            lemma_widths(m.pad as int);
        },
        Message::Fork(m) => {
            lemma_header_width(m.event, m.reserved1, m.reserved2, m.reserved3);
            lemma_widths(m.ufd as int);
            lemma_widths(m.pad1 as int);
            lemma_widths(m.pad2 as int);
            lemma_widths(m.pad3 as int);
        },
        Message::Remap(m) => {
            lemma_header_width(m.event, m.reserved1, m.reserved2, m.reserved3);
            lemma_widths(m.from as int);
            lemma_widths(m.to as int);
            lemma_widths(m.len as int);
        },
        Message::Remove(m) => {
            lemma_header_width(m.event, m.reserved1, m.reserved2, m.reserved3);
            lemma_widths(m.start as int);
            lemma_widths(m.end as int);
            lemma_widths(m.pad1 as int);
        },
        Message::Unmap(m) => {
            lemma_header_width(m.event, m.reserved1, m.reserved2, m.reserved3);
            lemma_widths(m.start as int);
            lemma_widths(m.end as int);
            lemma_widths(m.pad1 as int);
        },
    }
}

/// Decoding loses and moves nothing: the message that a record decodes to
/// spells that same record, byte for byte.
pub proof fn lemma_decode_wire(record: Seq<u8>)
    requires
        record.len() == UFFD_MSG_SIZE,
    ensures
        Message::of_record(record) matches Some(m) ==> m.wire() == record,
{
    PagefaultMessage::lemma_wire(record);
    ForkMessage::lemma_wire(record);
    RemapMessage::lemma_wire(record);
    RemoveMessage::lemma_wire(record);
    UnmapMessage::lemma_wire(record);
}

} // verus!
