//! User-space page-fault handling over the Linux userfault mechanism.
//!
//! This crate is the protocol layer of a fault handle, written without any
//! system call in it: every operation is split into the request that has to
//! be issued against the descriptor and the meaning of what the kernel
//! answered. The caller owns the descriptor and performs the calls.

pub mod builder;
pub mod defines;
pub mod error;
pub mod flags;
pub mod handle;
pub mod message;
pub mod range;
pub mod raw_interface;

pub use builder::Builder;
pub use error::{CreationFailed, ErrorKind, OsError, ReadFailed};
pub use flags::{CopyMode, Ioctls, RegisterMode, ZeropageMode};
pub use handle::{ControlRequest, Handle};
pub use message::{
    ForkMessage, Message, PagefaultMessage, RemapMessage, RemoveMessage, UffdMsg, UnmapMessage,
};
pub use range::Range;
pub use raw_interface::{Progress, Transfer};
