//! Kernel ABI of the userfault mechanism: constants and request layouts.

use vstd::prelude::*;

verus! {

/// Descriptor-creation flag: close the descriptor on `exec`.
pub const O_CLOEXEC: u64 = 0x80000;

/// Descriptor-creation flag: reads and operations never block.
pub const O_NONBLOCK: u64 = 0x800;

/// Protocol version carried by the negotiation request.
pub const UFFD_API: u64 = 0xAA;

pub const UFFD_FEATURE_EVENT_FORK: u64 = 0x02;

pub const UFFD_FEATURE_EVENT_REMAP: u64 = 0x04;

pub const UFFD_FEATURE_EVENT_REMOVE: u64 = 0x08;

pub const UFFD_FEATURE_MISSING_HUGETLBFS: u64 = 0x10;

pub const UFFD_FEATURE_MISSING_SHMEM: u64 = 0x20;

pub const UFFD_FEATURE_EVENT_UNMAP: u64 = 0x40;

/// Command numbers of the control requests.
pub const UFFDIO_API: u64 = 0xC018_AA3F;

pub const UFFDIO_REGISTER: u64 = 0xC020_AA00;

pub const UFFDIO_UNREGISTER: u64 = 0x8010_AA01;

pub const UFFDIO_WAKE: u64 = 0x8010_AA02;

pub const UFFDIO_COPY: u64 = 0xC028_AA03;

pub const UFFDIO_ZEROPAGE: u64 = 0xC020_AA04;

/// Bit positions of the operations inside an available-operations mask.
pub const _UFFDIO_REGISTER: u64 = 0x00;

pub const _UFFDIO_UNREGISTER: u64 = 0x01;

pub const _UFFDIO_WAKE: u64 = 0x02;

pub const _UFFDIO_COPY: u64 = 0x03;

pub const _UFFDIO_ZEROPAGE: u64 = 0x04;

pub const _UFFDIO_API: u64 = 0x3F;

pub const UFFD_API_IOCTLS: u64 = 0x8000_0000_0000_0003;

pub const UFFD_API_RANGE_IOCTLS: u64 = 0x1C;

pub const UFFD_API_RANGE_IOCTLS_BASIC: u64 = 0x0C;

pub const UFFDIO_REGISTER_MODE_MISSING: u64 = 0x01;

pub const UFFDIO_REGISTER_MODE_WP: u64 = 0x02;

pub const UFFDIO_COPY_MODE_DONTWAKE: u64 = 0x01;

pub const UFFDIO_ZEROPAGE_MODE_DONTWAKE: u64 = 0x01;

/// Discriminants of the event record.
pub const UFFD_EVENT_PAGEFAULT: u8 = 0x12;

pub const UFFD_EVENT_FORK: u8 = 0x13;

pub const UFFD_EVENT_REMAP: u8 = 0x14;

pub const UFFD_EVENT_REMOVE: u8 = 0x15;

pub const UFFD_EVENT_UNMAP: u8 = 0x16;

/// Size in bytes of one event record.
pub const UFFD_MSG_SIZE: usize = 32;

/// Size in bytes of the page that a fault reports.
pub const PAGE_SIZE: usize = 4096;

/// Error numbers the protocol layer looks at.
pub const ENOENT: i32 = 2;

pub const EINTR: i32 = 4;

pub const EAGAIN: i32 = 11;

pub const EFAULT: i32 = 14;

pub const EBUSY: i32 = 16;

pub const EINVAL: i32 = 22;

pub const ENOSPC: i32 = 28;

/// Argument of the negotiation request. The kernel fills in the version it
/// speaks, the features it grants and the operations it honors.
#[derive(Clone, Copy, Debug, PartialEq, Eq, Structural)]
pub struct UffdioApi {
    pub api: u64,
    pub features: u64,
    pub ioctls: u64,
}

/// A memory range as the kernel takes it.
#[derive(Clone, Copy, Debug, PartialEq, Eq, Structural)]
pub struct UffdioRange {
    pub start: u64,
    pub len: u64,
}

/// Argument of the register request. The kernel fills in the operations it
/// honors on the range.
#[derive(Clone, Copy, Debug, PartialEq, Eq, Structural)]
pub struct UffdioRegister {
    pub range: UffdioRange,
    pub mode: u64,
    pub ioctls: u64,
}

/// Argument of the copy request. The kernel fills in `copy`, the number of
/// bytes it has copied.
#[derive(Clone, Copy, Debug, PartialEq, Eq, Structural)]
pub struct UffdioCopy {
    pub dst: u64,
    pub src: u64,
    pub len: u64,
    pub mode: u64,
    pub copy: i64,
}

/// Argument of the zero-fill request. The kernel fills in `zeropage`, the
/// number of bytes it has zeroed.
#[derive(Clone, Copy, Debug, PartialEq, Eq, Structural)]
pub struct UffdioZeropage {
    pub range: UffdioRange,
    pub mode: u64,
    pub zeropage: i64,
}

} // verus!
