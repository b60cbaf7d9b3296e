//! Operating-system errors as the kernel reports them.

use vstd::prelude::*;
use crate::defines::{EAGAIN, EBUSY, EFAULT, EINTR, EINVAL, ENOENT, ENOSPC};

verus! {

/// An error number returned by the kernel.
#[derive(Clone, Copy, Debug, PartialEq, Eq, Structural)]
pub struct OsError {
    pub errno: i32,
}

/// The creation call failed, so that there is no descriptor.
#[derive(Clone, Copy, Debug, PartialEq, Eq, Structural)]
pub struct CreationFailed(pub OsError);

/// Why a read gave no message.
#[derive(Clone, Copy, Debug, PartialEq, Eq, Structural)]
pub enum ReadFailed {
    /// The read failed with this error.
    Os(OsError),
    /// The read delivered this many bytes, which is not one whole record.
    Short(usize),
}

/// What an error number means to a caller of this library.
#[derive(Clone, Copy, Debug, PartialEq, Eq, Structural)]
pub enum ErrorKind {
    /// The call was interrupted before it did anything.
    Interrupted,
    /// The call would have to wait, or stopped after doing part of its work.
    WouldBlock,
    /// A range, an address or a mode was not acceptable.
    InvalidInput,
    /// The range belongs to another fault handle.
    Busy,
    /// The faulting process changed its memory layout during the operation.
    NotFound,
    /// The faulting process has exited.
    NoSpace,
    /// The request pointed outside the caller's address space.
    Fault,
    Other,
}

/// The kind of the error with the number `errno`.
pub open spec fn kind_of(errno: i32) -> ErrorKind {
    if errno == EINTR {
        ErrorKind::Interrupted
    } else if errno == EAGAIN {
        ErrorKind::WouldBlock
    } else if errno == EINVAL {
        ErrorKind::InvalidInput
    } else if errno == EBUSY {
        ErrorKind::Busy
    } else if errno == ENOENT {
        ErrorKind::NotFound
    } else if errno == ENOSPC {
        ErrorKind::NoSpace
    } else if errno == EFAULT {
        ErrorKind::Fault
    } else {
        ErrorKind::Other
    }
}

impl OsError {
    pub fn from_raw_os_error(errno: i32) -> (e: OsError)
        ensures
            e.errno == errno,
    {
        OsError { errno }
    }

    pub fn raw_os_error(&self) -> (errno: i32)
        ensures
            errno == self.errno,
    {
        self.errno
    }

    pub open spec fn spec_kind(&self) -> ErrorKind {
        kind_of(self.errno)
    }

    #[verifier::when_used_as_spec(spec_kind)]
    pub fn kind(&self) -> (k: ErrorKind)
        ensures
            k == kind_of(self.errno),
    {
        if self.errno == EINTR {
            ErrorKind::Interrupted
        } else if self.errno == EAGAIN {
            ErrorKind::WouldBlock
        } else if self.errno == EINVAL {
            ErrorKind::InvalidInput
        } else if self.errno == EBUSY {
            ErrorKind::Busy
        } else if self.errno == ENOENT {
            ErrorKind::NotFound
        } else if self.errno == ENOSPC {
            ErrorKind::NoSpace
        } else if self.errno == EFAULT {
            ErrorKind::Fault
        } else {
            ErrorKind::Other
        }
    }
}

} // verus!
