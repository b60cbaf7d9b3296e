//! The fault handle: what to ask the kernel for each operation.

use vstd::prelude::*;
use crate::defines::{
    UffdioCopy, UffdioRange, UffdioRegister, UffdioZeropage, UFFDIO_COPY, UFFDIO_REGISTER,
    UFFDIO_UNREGISTER, UFFDIO_WAKE, UFFDIO_ZEROPAGE, UFFD_MSG_SIZE,
};
use crate::error::{OsError, ReadFailed};
use crate::flags::{
    CopyMode, RegisterMode, ZeropageMode, COPY_MODE_ALL, REGISTER_MODE_ALL, ZEROPAGE_MODE_ALL,
};
use crate::message::{known_event, Message, UffdMsg};
use crate::range::Range;

verus! {

/// `mio::unix::EventedFd`, the form in which `mio` takes a descriptor that
/// some other code owns. Nothing is known here of what a value of it holds.
#[verifier::external_type_specification]
#[verifier::external_body]
pub struct ExEventedFd<'a>(mio::unix::EventedFd<'a>);

/// A control request to issue: the descriptor it goes to, its command
/// number, and the argument that the kernel reads and writes.
#[derive(Debug, PartialEq, Eq)]
pub struct ControlRequest<T> {
    pub fd: i32,
    pub cmd: u64,
    pub arg: T,
}

/// An open fault handle. Its view is the descriptor.
///
/// The handle stands for one open descriptor and is not to be duplicated.
/// It makes no call itself: each operation gives the request to issue, and
/// `raw_interface` tells what the kernel's answer to it means.
#[derive(Debug)]
pub struct Handle {
    fd: i32,
}

impl View for Handle {
    type V = i32;

    closed spec fn view(&self) -> i32 {
        self.fd
    }
}

impl Handle {
    /// Takes over the open descriptor `fd`.
    pub fn from_fd(fd: i32) -> (h: Handle)
        ensures
            h@ == fd,
    {
        Handle { fd }
    }

    pub fn as_raw_fd(&self) -> (fd: i32)
        ensures
            fd == self@,
    {
        self.fd
    }

    /// Gives the descriptor up to the caller, who has to close it.
    pub fn into_raw_fd(self) -> (fd: i32)
        ensures
            fd == self@,
    {
        self.fd
    }

    /// The request that registers `range` for the faults that `mode` names.
    /// No bit that the kernel does not define is set in its mode.
    pub fn register(&self, range: Range, mode: RegisterMode) -> (r: ControlRequest<UffdioRegister>)
        ensures
            r.fd == self@,
            r.cmd == UFFDIO_REGISTER,
            r.arg == (UffdioRegister {
                range: UffdioRange { start: range.start, len: range.len as u64 },
                mode: mode@,
                ioctls: 0,
            }),
            r.arg.mode & !REGISTER_MODE_ALL == 0,
    {
        ControlRequest {
            fd: self.fd,
            cmd: UFFDIO_REGISTER,
            arg: UffdioRegister { range: range.into(), mode: mode.bits(), ioctls: 0 },
        }
    }

    /// The request that releases `range`.
    pub fn unregister(&self, range: Range) -> (r: ControlRequest<UffdioRange>)
        ensures
            r.fd == self@,
            r.cmd == UFFDIO_UNREGISTER,
            r.arg == (UffdioRange { start: range.start, len: range.len as u64 }),
    {
        ControlRequest { fd: self.fd, cmd: UFFDIO_UNREGISTER, arg: range.into() }
    }

    /// The first request of a copy of `len` bytes from `src` to `dst`.
    pub fn copy(&self, dst: u64, src: u64, len: u64, mode: CopyMode) -> (r: ControlRequest<
        UffdioCopy,
    >)
        ensures
            r.fd == self@,
            r.cmd == UFFDIO_COPY,
            r.arg == (UffdioCopy { dst, src, len, mode: mode@, copy: 0 }),
            r.arg.mode & !COPY_MODE_ALL == 0,
    {
        ControlRequest {
            fd: self.fd,
            cmd: UFFDIO_COPY,
            arg: UffdioCopy { dst, src, len, mode: mode.bits(), copy: 0 },
        }
    }

    /// The first request of a zero-fill of `range`.
    pub fn zeropage(&self, range: Range, mode: ZeropageMode) -> (r: ControlRequest<UffdioZeropage>)
        ensures
            r.fd == self@,
            r.cmd == UFFDIO_ZEROPAGE,
            r.arg == (UffdioZeropage {
                range: UffdioRange { start: range.start, len: range.len as u64 },
                mode: mode@,
                zeropage: 0,
            }),
            r.arg.mode & !ZEROPAGE_MODE_ALL == 0,
    {
        ControlRequest {
            fd: self.fd,
            cmd: UFFDIO_ZEROPAGE,
            arg: UffdioZeropage { range: range.into(), mode: mode.bits(), zeropage: 0 },
        }
    }

    /// The request that wakes the threads blocked on a fault in `range`.
    pub fn wake(&self, range: Range) -> (r: ControlRequest<UffdioRange>)
        ensures
            r.fd == self@,
            r.cmd == UFFDIO_WAKE,
            r.arg == (UffdioRange { start: range.start, len: range.len as u64 }),
    {
        ControlRequest { fd: self.fd, cmd: UFFDIO_WAKE, arg: range.into() }
    }

    /// The descriptor in the form that `mio` registers with a poll, to learn
    /// when a message is ready to read. This wraps `mio::unix::EventedFd`
    /// around a reference to the descriptor; nothing is claimed of it.
    #[verifier::external_body]
    pub fn get_eventfd<'a>(&'a self) -> mio::unix::EventedFd<'a> {
        mio::unix::EventedFd(&self.fd)
    }

    /// The request that carries a copy on: `pending` is what is left of the
    /// copy, and it goes to the same descriptor under the same command as
    /// the first request did.
    pub fn copy_again(&self, pending: UffdioCopy) -> (r: ControlRequest<UffdioCopy>)
        ensures
            r.fd == self@,
            r.cmd == UFFDIO_COPY,
            r.arg == pending,
    {
        ControlRequest { fd: self.fd, cmd: UFFDIO_COPY, arg: pending }
    }

    /// The request that carries a zero-fill on: `pending` is what is left of
    /// the zero-fill, and it goes to the same descriptor under the same
    /// command as the first request did.
    pub fn zeropage_again(&self, pending: UffdioZeropage) -> (r: ControlRequest<UffdioZeropage>)
        ensures
            r.fd == self@,
            r.cmd == UFFDIO_ZEROPAGE,
            r.arg == pending,
    {
        ControlRequest { fd: self.fd, cmd: UFFDIO_ZEROPAGE, arg: pending }
    }

    /// Tells whether a read delivered one whole record.
    pub fn whole_record(outcome: &Result<usize, OsError>) -> (whole: bool)
        ensures
            whole == delivered_record(*outcome),
    {
        match outcome {
            Ok(n) => *n == UFFD_MSG_SIZE,
            Err(_) => false,
        }
    }

    /// The message that a read delivered. `outcome` is the outcome of the
    /// one read and `record` the buffer that it read into. A message comes
    /// of a read that delivered one whole record, and of no other: a read
    /// that failed gives its error, and a read of any other number of bytes
    /// gives that number. No second read is asked for.
    pub fn read_message(&self, outcome: Result<usize, OsError>, record: &UffdMsg) -> (r: Result<
        Message,
        ReadFailed,
    >)
        requires
            delivered_record(outcome) ==> known_event(record@[0]),
        ensures
            r == message_read(outcome, record@),
    {
        match outcome {
            Ok(n) => {
                if n == UFFD_MSG_SIZE {
                    let decoded = Message::decode(record);
                    Ok(decoded.unwrap())
                } else {
                    Err(ReadFailed::Short(n))
                }
            },
            Err(e) => Err(ReadFailed::Os(e)),
        }
    }
}

/// The read with the outcome `outcome` delivered one whole record.
pub open spec fn delivered_record(outcome: Result<usize, OsError>) -> bool {
    outcome == Ok::<usize, OsError>(UFFD_MSG_SIZE)
}

/// What comes of one read with the outcome `outcome` into a buffer that
/// then holds `record`: the message that `record` decodes to if the read
/// delivered one whole record, the number of bytes if it delivered any other
/// number, and the error if it failed.
pub open spec fn message_read(outcome: Result<usize, OsError>, record: Seq<u8>) -> Result<
    Message,
    ReadFailed,
> {
    match outcome {
        Ok(n) => if n == UFFD_MSG_SIZE {
            Ok(Message::of_record(record).unwrap())
        } else {
            Err(ReadFailed::Short(n))
        },
        Err(e) => Err(ReadFailed::Os(e)),
    }
}

} // verus!
