//! Address ranges.

use vstd::prelude::*;
use vstd::std_specs::convert::FromSpecImpl;
use crate::defines::{UffdioRange, PAGE_SIZE};
use crate::message::PagefaultMessage;

verus! {

/// A region of memory: where it starts and how many bytes it spans.
///
/// A range only describes memory. Nothing here checks that it is aligned to
/// pages or that it is mapped: the kernel does, when an operation uses it.
#[derive(Clone, Copy, Debug, PartialEq, Eq, Structural)]
pub struct Range {
    pub start: u64,
    pub len: usize,
}

impl Range {
    /// The range of a buffer of `count` elements of `size` bytes each that
    /// lies at the address `start`.
    pub fn from_raw_parts(start: u64, count: usize, size: usize) -> (r: Range)
        requires
            count * size <= usize::MAX,
        ensures
            r.start == start,
            r.len == count * size,
    {
        Range { start, len: count * size }
    }
}

/// The page that a fault was reported for.
impl<'a> From<&'a PagefaultMessage> for Range {
    fn from(msg: &'a PagefaultMessage) -> (r: Range) {
        Range { start: msg.address, len: PAGE_SIZE }
    }
}

impl<'a> FromSpecImpl<&'a PagefaultMessage> for Range {
    open spec fn obeys_from_spec() -> bool {
        true
    }

    open spec fn from_spec(msg: &'a PagefaultMessage) -> Range {
        Range { start: msg.address, len: PAGE_SIZE }
    }
}

/// The range as the kernel takes it.
impl From<Range> for UffdioRange {
    fn from(other: Range) -> (r: UffdioRange) {
        UffdioRange { start: other.start, len: other.len as u64 }
    }
}

impl FromSpecImpl<Range> for UffdioRange {
    open spec fn obeys_from_spec() -> bool {
        true
    }

    open spec fn from_spec(other: Range) -> UffdioRange {
        UffdioRange { start: other.start, len: other.len as u64 }
    }
}

} // verus!
