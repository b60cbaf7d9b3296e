//! Options of a fault handle and its creation.

use vstd::prelude::*;
use crate::defines::{
    UffdioApi, O_CLOEXEC, O_NONBLOCK, UFFDIO_API, UFFD_API, UFFD_FEATURE_EVENT_FORK,
    UFFD_FEATURE_EVENT_REMAP, UFFD_FEATURE_EVENT_REMOVE, UFFD_FEATURE_EVENT_UNMAP,
    UFFD_FEATURE_MISSING_HUGETLBFS, UFFD_FEATURE_MISSING_SHMEM,
};
use crate::error::{CreationFailed, OsError};
use crate::handle::{ControlRequest, Handle};
use crate::raw_interface::{outcome_of, userfaultfd};

verus! {

/// The options that a fault handle is created with. All are off at first.
#[derive(Clone, Copy, Debug, PartialEq, Eq, Structural)]
pub struct Builder {
    /// Close the descriptor when the process executes another program.
    pub close_on_exec: bool,
    /// Reads and operations return at once where they would have to wait.
    pub non_block: bool,
    /// Report forks of the process.
    pub event_fork: bool,
    /// Report moves of registered regions.
    pub event_remap: bool,
    /// Report regions whose content was dropped.
    pub event_remove: bool,
    /// Report unmapped regions.
    pub event_unmap: bool,
    /// Allow ranges of huge pages.
    pub hugetlbfs: bool,
    /// Allow ranges of shared memory.
    pub shmem: bool,
}

/// `bit` if `on`, else no bit.
pub open spec fn bit_if(on: bool, bit: u64) -> u64 {
    if on {
        bit
    } else {
        0
    }
}

fn pick(on: bool, bit: u64) -> (r: u64)
    ensures
        r == bit_if(on, bit),
{
    if on {
        bit
    } else {
        0
    }
}

impl Default for Builder {
    fn default() -> (b: Builder)
        ensures
            b == Builder::all_off(),
    {
        Builder {
            close_on_exec: false,
            non_block: false,
            event_fork: false,
            event_remap: false,
            event_remove: false,
            event_unmap: false,
            hugetlbfs: false,
            shmem: false,
        }
    }
}

impl Builder {
    /// The options with every one of them off.
    pub open spec fn all_off() -> Builder {
        Builder {
            close_on_exec: false,
            non_block: false,
            event_fork: false,
            event_remap: false,
            event_remove: false,
            event_unmap: false,
            hugetlbfs: false,
            shmem: false,
        }
    }

    pub fn new() -> (b: Builder)
        ensures
            b == Builder::all_off(),
    {
        Builder::default()
    }

    pub fn close_on_exec(self, value: bool) -> (b: Builder)
        ensures
            b == (Builder { close_on_exec: value, ..self }),
    {
        Builder { close_on_exec: value, ..self }
    }

    pub fn non_block(self, value: bool) -> (b: Builder)
        ensures
            b == (Builder { non_block: value, ..self }),
    {
        Builder { non_block: value, ..self }
    }

    pub fn event_fork(self, value: bool) -> (b: Builder)
        ensures
            b == (Builder { event_fork: value, ..self }),
    {
        Builder { event_fork: value, ..self }
    }

    pub fn event_remap(self, value: bool) -> (b: Builder)
        ensures
            b == (Builder { event_remap: value, ..self }),
    {
        Builder { event_remap: value, ..self }
    }

    pub fn event_remove(self, value: bool) -> (b: Builder)
        ensures
            b == (Builder { event_remove: value, ..self }),
    {
        Builder { event_remove: value, ..self }
    }

    pub fn event_unmap(self, value: bool) -> (b: Builder)
        ensures
            b == (Builder { event_unmap: value, ..self }),
    {
        Builder { event_unmap: value, ..self }
    }

    pub fn hugetlbfs(self, value: bool) -> (b: Builder)
        ensures
            b == (Builder { hugetlbfs: value, ..self }),
    {
        Builder { hugetlbfs: value, ..self }
    }

    pub fn shmem(self, value: bool) -> (b: Builder)
        ensures
            b == (Builder { shmem: value, ..self }),
    {
        Builder { shmem: value, ..self }
    }

    /// The flags of the creation call: the bit of each of the two
    /// descriptor options that is on.
    pub open spec fn creation_flags(self) -> u64 {
        bit_if(self.close_on_exec, O_CLOEXEC) | bit_if(self.non_block, O_NONBLOCK)
    }

    /// The features to ask the kernel for: the bit of each of the six
    /// event and memory options that is on.
    pub open spec fn requested_features(self) -> u64 {
        bit_if(self.event_fork, UFFD_FEATURE_EVENT_FORK) | bit_if(
            self.event_remap,
            UFFD_FEATURE_EVENT_REMAP,
        ) | bit_if(self.event_remove, UFFD_FEATURE_EVENT_REMOVE) | bit_if(
            self.event_unmap,
            UFFD_FEATURE_EVENT_UNMAP,
        ) | bit_if(self.hugetlbfs, UFFD_FEATURE_MISSING_HUGETLBFS) | bit_if(
            self.shmem,
            UFFD_FEATURE_MISSING_SHMEM,
        )
    }

    /// The flags to hand to the creation call.
    pub fn flags(&self) -> (flags: u64)
        ensures
            flags == self.creation_flags(),
    {
        pick(self.close_on_exec, O_CLOEXEC) | pick(self.non_block, O_NONBLOCK)
    }

    /// The features to ask for in the negotiation.
    pub fn features(&self) -> (features: u64)
        ensures
            features == self.requested_features(),
    {
        pick(self.event_fork, UFFD_FEATURE_EVENT_FORK) | pick(
            self.event_remap,
            UFFD_FEATURE_EVENT_REMAP,
        ) | pick(self.event_remove, UFFD_FEATURE_EVENT_REMOVE) | pick(
            self.event_unmap,
            UFFD_FEATURE_EVENT_UNMAP,
        ) | pick(self.hugetlbfs, UFFD_FEATURE_MISSING_HUGETLBFS) | pick(
            self.shmem,
            UFFD_FEATURE_MISSING_SHMEM,
        )
    }

    /// Goes on with the creation once the creation call, made with
    /// `flags()`, has returned `raw`. Where the call failed, so does the
    /// creation. Else the result is the handle of the new descriptor and the
    /// negotiation request to issue on it; `raw_interface::uffdio_api` tells
    /// what the answer to that request means.
    pub fn create(self, raw: i64) -> (r: Result<(Handle, ControlRequest<UffdioApi>), CreationFailed>)
        ensures
            match outcome_of(raw) {
                Err(e) => r == Err::<(Handle, ControlRequest<UffdioApi>), CreationFailed>(
                    CreationFailed(e),
                ),
                Ok(fd) => r matches Ok((handle, request)) && {
                    &&& handle@ == fd as i32
                    &&& request.fd == fd as i32
                    &&& request.cmd == UFFDIO_API
                    &&& request.arg == (UffdioApi {
                        api: UFFD_API,
                        features: self.requested_features(),
                        ioctls: 0,
                    })
                },
            },
    {
        match userfaultfd(raw) {
            Err(e) => Err(CreationFailed(e)),
            Ok(fd) => {
                let request = ControlRequest {
                    fd,
                    cmd: UFFDIO_API,
                    arg: UffdioApi { api: UFFD_API, features: self.features(), ioctls: 0 },
                };
                Ok((Handle::from_fd(fd), request))
            },
        }
    }
}

/// Each option sets its own bit and no other: a bit of the creation flags
/// or of the requested features is set exactly if the option that it
/// belongs to is on.
pub proof fn lemma_option_bits(b: Builder)
    ensures
        b.creation_flags() & O_CLOEXEC != 0 <==> b.close_on_exec,
        b.creation_flags() & O_NONBLOCK != 0 <==> b.non_block,
        b.creation_flags() & !(O_CLOEXEC | O_NONBLOCK) == 0,
        b.requested_features() & UFFD_FEATURE_EVENT_FORK != 0 <==> b.event_fork,
        b.requested_features() & UFFD_FEATURE_EVENT_REMAP != 0 <==> b.event_remap,
        b.requested_features() & UFFD_FEATURE_EVENT_REMOVE != 0 <==> b.event_remove,
        b.requested_features() & UFFD_FEATURE_EVENT_UNMAP != 0 <==> b.event_unmap,
        b.requested_features() & UFFD_FEATURE_MISSING_HUGETLBFS != 0 <==> b.hugetlbfs,
        b.requested_features() & UFFD_FEATURE_MISSING_SHMEM != 0 <==> b.shmem,
        b.requested_features() & !(UFFD_FEATURE_EVENT_FORK | UFFD_FEATURE_EVENT_REMAP
            | UFFD_FEATURE_EVENT_REMOVE | UFFD_FEATURE_EVENT_UNMAP | UFFD_FEATURE_MISSING_HUGETLBFS
            | UFFD_FEATURE_MISSING_SHMEM) == 0,
{
    let c = bit_if(b.close_on_exec, O_CLOEXEC);
    let n = bit_if(b.non_block, O_NONBLOCK);
    assert((c == 0 || c == 0x80000) && (n == 0 || n == 0x800) ==> {
        &&& ((c | n) & 0x80000 != 0 <==> c != 0)
        &&& ((c | n) & 0x800 != 0 <==> n != 0)
        &&& (c | n) & !(0x80000u64 | 0x800u64) == 0
    }) by (bit_vector);
    let f1 = bit_if(b.event_fork, UFFD_FEATURE_EVENT_FORK);
    let f2 = bit_if(b.event_remap, UFFD_FEATURE_EVENT_REMAP);
    let f3 = bit_if(b.event_remove, UFFD_FEATURE_EVENT_REMOVE);
    let f4 = bit_if(b.event_unmap, UFFD_FEATURE_EVENT_UNMAP);
    let f5 = bit_if(b.hugetlbfs, UFFD_FEATURE_MISSING_HUGETLBFS);
    let f6 = bit_if(b.shmem, UFFD_FEATURE_MISSING_SHMEM);
    assert((f1 == 0 || f1 == 0x02) && (f2 == 0 || f2 == 0x04) && (f3 == 0 || f3 == 0x08) && (f4 == 0
        || f4 == 0x40) && (f5 == 0 || f5 == 0x10) && (f6 == 0 || f6 == 0x20) ==> {
        let all = f1 | f2 | f3 | f4 | f5 | f6;
        &&& (all & 0x02 != 0 <==> f1 != 0)
        &&& (all & 0x04 != 0 <==> f2 != 0)
        &&& (all & 0x08 != 0 <==> f3 != 0)
        &&& (all & 0x40 != 0 <==> f4 != 0)
        &&& (all & 0x10 != 0 <==> f5 != 0)
        &&& (all & 0x20 != 0 <==> f6 != 0)
        &&& all & !(0x02u64 | 0x04u64 | 0x08u64 | 0x40u64 | 0x10u64 | 0x20u64) == 0
    }) by (bit_vector);
}

} // verus!
