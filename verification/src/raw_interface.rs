//! What the answers of the kernel mean.
//!
//! The kernel answers every call with one signed number: a negative one is
//! an error number with its sign turned, zero or more is success. None of
//! the functions here makes a call. Each takes what a call returned and says
//! what the caller has got, or what has to be asked next.

use vstd::prelude::*;
use crate::defines::{UffdioApi, UffdioCopy, UffdioRange, UffdioRegister, UffdioZeropage};
use crate::error::{ErrorKind, OsError};
use crate::flags::{Ioctls, IOCTLS_ALL};

verus! {

/// What the raw result `v` of a call stands for: success with `v` if it is
/// not negative, else the error with the number `-v`. An error number is 32
/// bits wide; of a magnitude that does not fit, the low 32 bits are kept.
pub open spec fn outcome_of(v: i64) -> Result<i64, OsError> {
    if v < 0 {
        Err(OsError { errno: (-v) as i32 })
    } else {
        Ok(v)
    }
}

/// Turns the raw result of a call into success or an error.
pub fn cvt(v: i64) -> (r: Result<i64, OsError>)
    ensures
        r == outcome_of(v),
{
    if v < 0 {
        Err(OsError { errno: #[verifier::truncate] ((-(v as i128)) as i32) })
    } else {
        Ok(v)
    }
}

/// Whether the raw result `v` says that the call was interrupted.
pub open spec fn interrupted(v: i64) -> bool {
    outcome_of(v) matches Err(e) && e.kind() == ErrorKind::Interrupted
}

/// What a call comes to that is issued again for as long as it is
/// interrupted, where `attempts` holds the raw results of the successive
/// issues: the outcome of the first one that was not interrupted, or `None`
/// if all of them were.
pub open spec fn retried(attempts: Seq<i64>) -> Option<Result<i64, OsError>>
    decreases attempts.len(),
{
    if attempts.len() == 0 {
        None
    } else if interrupted(attempts[0]) {
        retried(attempts.drop_first())
    } else {
        Some(outcome_of(attempts[0]))
    }
}

/// Looks for the outcome of a call among the raw results of its successive
/// issues, oldest first. `None` tells that every issue so far was
/// interrupted and the call has to be issued once more.
pub fn retry(attempts: &[i64]) -> (r: Option<Result<i64, OsError>>)
    ensures
        r == retried(attempts@),
        r matches Some(Err(e)) ==> e.kind() != ErrorKind::Interrupted,
{
    let mut i: usize = 0;
    assert(attempts@.skip(0) =~= attempts@);
    while i < attempts.len()
        invariant
            i <= attempts@.len(),
            retried(attempts@) == retried(attempts@.skip(i as int)),
        decreases attempts@.len() - i,
    {
        let outcome = cvt(attempts[i]);
        proof {
            assert(attempts@.skip(i as int)[0] == attempts@[i as int]);
            assert(attempts@.skip(i as int).drop_first() =~= attempts@.skip(i + 1));
        }
        match outcome {
            Err(e) => {
                if e.kind() != ErrorKind::Interrupted {
                    return Some(Err(e));
                }
            },
            Ok(v) => {
                return Some(Ok(v));
            },
        }
        i += 1;
    }
    None
}

/// The descriptor that the creation call returned, or the error it failed
/// with. A descriptor is 32 bits wide.
pub fn userfaultfd(raw: i64) -> (r: Result<i32, OsError>)
    ensures
        r == match outcome_of(raw) {
            Ok(fd) => Ok::<i32, OsError>(fd as i32),
            Err(e) => Err(e),
        },
{
    match cvt(raw) {
        Ok(fd) => Ok(#[verifier::truncate] (fd as i32)),
        Err(e) => Err(e),
    }
}

/// The number of bytes that a read delivered, or the error it failed with.
pub fn read(outcome: Result<i64, OsError>) -> (r: Result<usize, OsError>)
    ensures
        r == match outcome {
            Ok(n) => Ok::<usize, OsError>(n as usize),
            Err(e) => Err(e),
        },
{
    match outcome {
        Ok(n) => Ok(#[verifier::truncate] (n as usize)),
        Err(e) => Err(e),
    }
}

/// A control request answers with zero or with an error. `settled` holds of
/// an outcome that keeps to that.
pub open spec fn settled(outcome: Result<i64, OsError>) -> bool {
    outcome matches Ok(x) ==> x == 0
}

/// The value of an outcome that a control request must never have: success
/// with a number other than zero.
pub fn unexpected(outcome: &Result<i64, OsError>) -> (r: Option<i64>)
    ensures
        r is None <==> settled(*outcome),
        r matches Some(x) ==> *outcome == Ok::<i64, OsError>(x),
{
    match outcome {
        Ok(x) => if *x != 0 {
            Some(*x)
        } else {
            None
        },
        Err(_) => None,
    }
}

/// The answer to a negotiation: the operations that the kernel honors on
/// the handle. `t` is the argument as the kernel left it.
pub fn uffdio_api(outcome: Result<i64, OsError>, t: &UffdioApi) -> (r: Result<u64, OsError>)
    requires
        settled(outcome),
    ensures
        r == match outcome {
            Ok(_) => Ok::<u64, OsError>(t.ioctls),
            Err(e) => Err(e),
        },
{
    match outcome {
        Ok(_) => Ok(t.ioctls),
        Err(e) => Err(e),
    }
}

/// The answer to a registration: the operations that the kernel honors on
/// the range. `t` is the argument as the kernel left it.
pub fn uffdio_register(outcome: Result<i64, OsError>, t: &UffdioRegister) -> (r: Result<
    Ioctls,
    OsError,
>)
    requires
        settled(outcome),
    ensures
        match outcome {
            Ok(_) => r matches Ok(set) && set@ == t.ioctls & IOCTLS_ALL,
            Err(e) => r == Err::<Ioctls, OsError>(e),
        },
{
    match outcome {
        Ok(_) => Ok(Ioctls::from_bits_truncate(t.ioctls)),
        Err(e) => Err(e),
    }
}

/// The answer to the release of a range.
pub fn uffdio_unregister(outcome: Result<i64, OsError>) -> (r: Result<(), OsError>)
    requires
        settled(outcome),
    ensures
        r == match outcome {
            Ok(_) => Ok::<(), OsError>(()),
            Err(e) => Err(e),
        },
{
    match outcome {
        Ok(_) => Ok(()),
        Err(e) => Err(e),
    }
}

/// The answer to a wake.
pub fn uffdio_wake(outcome: Result<i64, OsError>) -> (r: Result<(), OsError>)
    requires
        settled(outcome),
    ensures
        r == match outcome {
            Ok(_) => Ok::<(), OsError>(()),
            Err(e) => Err(e),
        },
{
    match outcome {
        Ok(_) => Ok(()),
        Err(e) => Err(e),
    }
}

/// The answer to one issue of a copy or a zero-fill: the outcome of the
/// control request, and what the kernel left in the field of the argument
/// in which it reports the number of bytes done.
#[derive(Clone, Copy, Debug, PartialEq, Eq)]
pub struct Progress {
    pub outcome: Result<i64, OsError>,
    pub done: i64,
}

/// Where a copy or a zero-fill stands.
#[derive(Debug, PartialEq, Eq)]
pub enum Transfer<R> {
    /// The request `R` is the next to issue.
    Pending(R),
    /// Everything asked for is done.
    Done,
    /// The operation failed; what was done before the failure stays done.
    Failed(OsError),
}

impl Progress {
    /// The kernel stopped after `done` bytes and wants to be asked again.
    pub open spec fn would_block(&self) -> bool {
        self.outcome matches Err(e) && e.kind() == ErrorKind::WouldBlock
    }
}

impl UffdioCopy {
    /// Whether `reply` can be the answer to this request: it is settled,
    /// and where it reports a stop, the bytes done are some of those asked
    /// for and lie within the address space.
    pub open spec fn admits(&self, reply: Progress) -> bool {
        &&& settled(reply.outcome)
        &&& reply.would_block() ==> {
            &&& 0 <= reply.done <= self.len
            &&& self.dst + reply.done <= u64::MAX
            &&& self.src + reply.done <= u64::MAX
        }
    }

    /// The request for what is left after `done` bytes: source and
    /// destination moved on by `done`, the length shortened by it.
    pub open spec fn advanced(&self, done: i64) -> UffdioCopy {
        UffdioCopy {
            dst: (self.dst + done) as u64,
            src: (self.src + done) as u64,
            len: (self.len - done) as u64,
            mode: self.mode,
            copy: done,
        }
    }

    /// Where the copy stands once `reply` has answered this request.
    pub open spec fn next(&self, reply: Progress) -> Transfer<UffdioCopy> {
        match reply.outcome {
            Ok(_) => Transfer::Done,
            Err(e) => if e.kind() == ErrorKind::WouldBlock {
                Transfer::Pending(self.advanced(reply.done))
            } else {
                Transfer::Failed(e)
            },
        }
    }

    /// Tells whether `reply` can be the answer to this request.
    pub fn accepts(&self, reply: &Progress) -> (ok: bool)
        ensures
            ok == self.admits(*reply),
    {
        match reply.outcome {
            Ok(x) => x == 0,
            Err(e) => match e.kind() {
                ErrorKind::WouldBlock => 0 <= reply.done && reply.done as u64 <= self.len
                    && reply.done as u64 <= u64::MAX - self.dst && reply.done as u64 <= u64::MAX
                    - self.src,
                _ => true,
            },
        }
    }

    fn resume(self, reply: &Progress) -> (r: Transfer<UffdioCopy>)
        requires
            self.admits(*reply),
        ensures
            r == self.next(*reply),
    {
        match reply.outcome {
            Ok(_) => Transfer::Done,
            Err(e) => match e.kind() {
                ErrorKind::WouldBlock => {
                    let done = reply.done as u64;
                    Transfer::Pending(
                        UffdioCopy {
                            dst: self.dst + done,
                            src: self.src + done,
                            len: self.len - done,
                            mode: self.mode,
                            copy: reply.done,
                        },
                    )
                },
                _ => Transfer::Failed(e),
            },
        }
    }
}

/// Where a copy that stands at `state` gets to when the kernel answers its
/// successive requests with `replies`. A request that the kernel stops
/// short of completing is followed by the request for the rest; the first
/// answer that is not such a stop ends the copy, and later answers are not
/// looked at.
pub open spec fn copy_run(state: Transfer<UffdioCopy>, replies: Seq<Progress>) -> Transfer<
    UffdioCopy,
>
    decreases replies.len(),
{
    match state {
        Transfer::Pending(copy) => if replies.len() == 0 {
            state
        } else {
            copy_run(copy.next(replies[0]), replies.drop_first())
        },
        _ => state,
    }
}

/// Each of `replies` that the copy gets to can be the answer to the request
/// it answers.
pub open spec fn copy_admits(state: Transfer<UffdioCopy>, replies: Seq<Progress>) -> bool
    decreases replies.len(),
{
    match state {
        Transfer::Pending(copy) => if replies.len() == 0 {
            true
        } else {
            copy.admits(replies[0]) && copy_admits(copy.next(replies[0]), replies.drop_first())
        },
        _ => true,
    }
}

/// Carries a copy on through the answers of the kernel to its successive
/// requests, oldest first. With one answer this is one step of the copy.
pub fn uffdio_copy(state: Transfer<UffdioCopy>, replies: &[Progress]) -> (r: Transfer<UffdioCopy>)
    requires
        copy_admits(state, replies@),
    ensures
        r == copy_run(state, replies@),
{
    let mut now = state;
    let mut i: usize = 0;
    assert(replies@.skip(0) =~= replies@);
    while i < replies.len()
        invariant
            i <= replies@.len(),
            copy_admits(now, replies@.skip(i as int)),
            copy_run(state, replies@) == copy_run(now, replies@.skip(i as int)),
        decreases replies@.len() - i,
    {
        proof {
            assert(replies@.skip(i as int)[0] == replies@[i as int]);
            assert(replies@.skip(i as int).drop_first() =~= replies@.skip(i + 1));
        }
        match now {
            Transfer::Pending(copy) => {
                now = copy.resume(&replies[i]);
            },
            _ => {
                return now;
            },
        }
        i += 1;
    }
    now
}

impl UffdioZeropage {
    /// Whether `reply` can be the answer to this request: it is settled,
    /// and where it reports a stop, the bytes done are some of those asked
    /// for and lie within the address space.
    pub open spec fn admits(&self, reply: Progress) -> bool {
        &&& settled(reply.outcome)
        &&& reply.would_block() ==> {
            &&& 0 <= reply.done <= self.range.len
            &&& self.range.start + reply.done <= u64::MAX
        }
    }

    /// The request for what is left after `done` bytes: the start of the
    /// range moved on by `done`, its length shortened by it.
    pub open spec fn advanced(&self, done: i64) -> UffdioZeropage {
        UffdioZeropage {
            range: UffdioRange {
                start: (self.range.start + done) as u64,
                len: (self.range.len - done) as u64,
            },
            mode: self.mode,
            zeropage: done,
        }
    }

    /// Where the zero-fill stands once `reply` has answered this request.
    pub open spec fn next(&self, reply: Progress) -> Transfer<UffdioZeropage> {
        match reply.outcome {
            Ok(_) => Transfer::Done,
            Err(e) => if e.kind() == ErrorKind::WouldBlock {
                Transfer::Pending(self.advanced(reply.done))
            } else {
                Transfer::Failed(e)
            },
        }
    }

    /// Tells whether `reply` can be the answer to this request.
    pub fn accepts(&self, reply: &Progress) -> (ok: bool)
        ensures
            ok == self.admits(*reply),
    {
        match reply.outcome {
            Ok(x) => x == 0,
            Err(e) => match e.kind() {
                ErrorKind::WouldBlock => 0 <= reply.done && reply.done as u64 <= self.range.len
                    && reply.done as u64 <= u64::MAX - self.range.start,
                _ => true,
            },
        }
    }

    fn resume(self, reply: &Progress) -> (r: Transfer<UffdioZeropage>)
        requires
            self.admits(*reply),
        ensures
            r == self.next(*reply),
    {
        match reply.outcome {
            Ok(_) => Transfer::Done,
            Err(e) => match e.kind() {
                ErrorKind::WouldBlock => {
                    let done = reply.done as u64;
                    Transfer::Pending(
                        UffdioZeropage {
                            range: UffdioRange {
                                start: self.range.start + done,
                                len: self.range.len - done,
                            },
                            mode: self.mode,
                            zeropage: reply.done,
                        },
                    )
                },
                _ => Transfer::Failed(e),
            },
        }
    }
}

/// Where a zero-fill that stands at `state` gets to when the kernel answers
/// its successive requests with `replies`. A request that the kernel stops
/// short of completing is followed by the request for the rest; the first
/// answer that is not such a stop ends the zero-fill, and later answers are
/// not looked at.
pub open spec fn zeropage_run(
    state: Transfer<UffdioZeropage>,
    replies: Seq<Progress>,
) -> Transfer<UffdioZeropage>
    decreases replies.len(),
{
    match state {
        Transfer::Pending(zeropage) => if replies.len() == 0 {
            state
        } else {
            zeropage_run(zeropage.next(replies[0]), replies.drop_first())
        },
        _ => state,
    }
}

/// Each of `replies` that the zero-fill gets to can be the answer to the
/// request it answers.
pub open spec fn zeropage_admits(state: Transfer<UffdioZeropage>, replies: Seq<Progress>) -> bool
    decreases replies.len(),
{
    match state {
        Transfer::Pending(zeropage) => if replies.len() == 0 {
            true
        } else {
            zeropage.admits(replies[0]) && zeropage_admits(
                zeropage.next(replies[0]),
                replies.drop_first(),
            )
        },
        _ => true,
    }
}

/// Carries a zero-fill on through the answers of the kernel to its
/// successive requests, oldest first. With one answer this is one step of
/// the zero-fill.
pub fn uffdio_zeropage(state: Transfer<UffdioZeropage>, replies: &[Progress]) -> (r: Transfer<
    UffdioZeropage,
>)
    requires
        zeropage_admits(state, replies@),
    ensures
        r == zeropage_run(state, replies@),
{
    let mut now = state;
    let mut i: usize = 0;
    assert(replies@.skip(0) =~= replies@);
    while i < replies.len()
        invariant
            i <= replies@.len(),
            zeropage_admits(now, replies@.skip(i as int)),
            zeropage_run(state, replies@) == zeropage_run(now, replies@.skip(i as int)),
        decreases replies@.len() - i,
    {
        proof {
            assert(replies@.skip(i as int)[0] == replies@[i as int]);
            assert(replies@.skip(i as int).drop_first() =~= replies@.skip(i + 1));
        }
        match now {
            Transfer::Pending(zeropage) => {
                now = zeropage.resume(&replies[i]);
            },
            _ => {
                return now;
            },
        }
        i += 1;
    }
    now
}

/// The bytes that `replies` report as done, all together.
pub open spec fn total_done(replies: Seq<Progress>) -> int
    decreases replies.len(),
{
    if replies.len() == 0 {
        0
    } else {
        replies[0].done + total_done(replies.drop_first())
    }
}

/// The outcome that ends a copy or a zero-fill.
pub open spec fn ended<R>(reply: Progress) -> Transfer<R> {
    match reply.outcome {
        Ok(_) => Transfer::Done,
        Err(e) => Transfer::Failed(e),
    }
}

/// An interrupted call is issued again until an issue is not interrupted,
/// and the outcome of that issue is the outcome of the call: whatever
/// `attempts` holds after the first result that is not an interruption has
/// no part in it.
pub proof fn lemma_retry_first_definitive(attempts: Seq<i64>, n: int)
    requires
        0 <= n < attempts.len(),
        forall|i: int| 0 <= i < n ==> interrupted(#[trigger] attempts[i]),
        !interrupted(attempts[n]),
    ensures
        retried(attempts) == Some(outcome_of(attempts[n])),
    decreases n,
{
    if n > 0 {
        lemma_retry_first_definitive(attempts.drop_first(), n - 1);
    }
}

/// As long as every issue was interrupted the call has no outcome yet.
pub proof fn lemma_retry_all_interrupted(attempts: Seq<i64>)
    requires
        forall|i: int| 0 <= i < attempts.len() ==> interrupted(#[trigger] attempts[i]),
    ensures
        retried(attempts) is None,
    decreases attempts.len(),
{
    if attempts.len() > 0 {
        lemma_retry_all_interrupted(attempts.drop_first());
    }
}

/// After answers that all report a stop, the copy is pending with a request
/// whose source and destination have moved on by the bytes done so far, all
/// together, and whose length is shorter by as much: the bytes done and the
/// bytes still asked for add up to the length first asked for.
pub proof fn lemma_copy_partial_progress(copy: UffdioCopy, replies: Seq<Progress>)
    requires
        forall|i: int| 0 <= i < replies.len() ==> (#[trigger] replies[i]).would_block(),
        copy_admits(Transfer::Pending(copy), replies),
    ensures
        0 <= total_done(replies) <= copy.len,
        copy_run(Transfer::Pending(copy), replies) matches Transfer::Pending(rest) && {
            &&& rest.dst == copy.dst + total_done(replies)
            &&& rest.src == copy.src + total_done(replies)
            &&& rest.len + total_done(replies) == copy.len
            &&& rest.mode == copy.mode
        },
    decreases replies.len(),
{
    if replies.len() > 0 {
        lemma_copy_partial_progress(copy.advanced(replies[0].done), replies.drop_first());
    }
}

/// A copy ends at the first answer that does not report a stop, with
/// success if that answer is one and else with its error; the answers after
/// it are not looked at.
pub proof fn lemma_copy_ends_at_first_definitive(copy: UffdioCopy, replies: Seq<Progress>, n: int)
    requires
        0 <= n < replies.len(),
        forall|i: int| 0 <= i < n ==> (#[trigger] replies[i]).would_block(),
        !replies[n].would_block(),
    ensures
        copy_run(Transfer::Pending(copy), replies) == ended::<UffdioCopy>(replies[n]),
    decreases n,
{
    reveal_with_fuel(copy_run, 2);
    if n > 0 {
        lemma_copy_ends_at_first_definitive(
            copy.advanced(replies[0].done),
            replies.drop_first(),
            n - 1,
        );
    }
}

/// After answers that all report a stop, the zero-fill is pending with a
/// request whose range starts further on by the bytes done so far, all
/// together, and is shorter by as much: the bytes done and the bytes still
/// asked for add up to the length first asked for.
pub proof fn lemma_zeropage_partial_progress(zeropage: UffdioZeropage, replies: Seq<Progress>)
    requires
        forall|i: int| 0 <= i < replies.len() ==> (#[trigger] replies[i]).would_block(),
        zeropage_admits(Transfer::Pending(zeropage), replies),
    ensures
        0 <= total_done(replies) <= zeropage.range.len,
        zeropage_run(Transfer::Pending(zeropage), replies) matches Transfer::Pending(rest) && {
            &&& rest.range.start == zeropage.range.start + total_done(replies)
            &&& rest.range.len + total_done(replies) == zeropage.range.len
            &&& rest.mode == zeropage.mode
        },
    decreases replies.len(),
{
    if replies.len() > 0 {
        lemma_zeropage_partial_progress(zeropage.advanced(replies[0].done), replies.drop_first());
    }
}

/// A zero-fill ends at the first answer that does not report a stop, with
/// success if that answer is one and else with its error; the answers after
/// it are not looked at.
pub proof fn lemma_zeropage_ends_at_first_definitive(
    zeropage: UffdioZeropage,
    replies: Seq<Progress>,
    n: int,
)
    requires
        0 <= n < replies.len(),
        forall|i: int| 0 <= i < n ==> (#[trigger] replies[i]).would_block(),
        !replies[n].would_block(),
    ensures
        zeropage_run(Transfer::Pending(zeropage), replies) == ended::<UffdioZeropage>(replies[n]),
    decreases n,
{
    reveal_with_fuel(zeropage_run, 2);
    if n > 0 {
        lemma_zeropage_ends_at_first_definitive(
            zeropage.advanced(replies[0].done),
            replies.drop_first(),
            n - 1,
        );
    }
}

/// Looking for the outcome one result at a time, as each comes in, finds
/// what looking through all of them at once finds.
pub proof fn lemma_retry_append(a: Seq<i64>, b: Seq<i64>)
    ensures
        retried(a + b) == match retried(a) {
            Some(outcome) => Some(outcome),
            None => retried(b),
        },
    decreases a.len(),
{
    if a.len() == 0 {
        assert(a + b =~= b);
    } else {
        assert((a + b).drop_first() =~= a.drop_first() + b);
        lemma_retry_append(a.drop_first(), b);
    }
}

/// Carrying a copy on answer by answer, as each comes in, gets to where
/// carrying it through all of them at once gets, and the answers can be
/// answers to the one exactly if they can to the other.
pub proof fn lemma_copy_run_append(state: Transfer<UffdioCopy>, a: Seq<Progress>, b: Seq<Progress>)
    ensures
        copy_run(state, a + b) == copy_run(copy_run(state, a), b),
        copy_admits(state, a + b) <==> copy_admits(state, a) && copy_admits(copy_run(state, a), b),
    decreases a.len(),
{
    if a.len() == 0 {
        assert(a + b =~= b);
    } else {
        assert((a + b).drop_first() =~= a.drop_first() + b);
        match state {
            Transfer::Pending(copy) => {
                lemma_copy_run_append(copy.next(a[0]), a.drop_first(), b);
            },
            _ => {},
        }
    }
}

/// Carrying a zero-fill on answer by answer, as each comes in, gets to
/// where carrying it through all of them at once gets, and the answers can
/// be answers to the one exactly if they can to the other.
pub proof fn lemma_zeropage_run_append(
    state: Transfer<UffdioZeropage>,
    a: Seq<Progress>,
    b: Seq<Progress>,
)
    ensures
        zeropage_run(state, a + b) == zeropage_run(zeropage_run(state, a), b),
        zeropage_admits(state, a + b) <==> zeropage_admits(state, a) && zeropage_admits(
            zeropage_run(state, a),
            b,
        ),
    decreases a.len(),
{
    if a.len() == 0 {
        assert(a + b =~= b);
    } else {
        assert((a + b).drop_first() =~= a.drop_first() + b);
        match state {
            Transfer::Pending(zeropage) => {
                lemma_zeropage_run_append(zeropage.next(a[0]), a.drop_first(), b);
            },
            _ => {},
        }
    }
}

} // verus!
