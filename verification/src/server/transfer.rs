//! Exact-length transfers over a stream that may take or give fewer bytes
//! than asked for, or none yet.
//!
//! Reading exactly `n` bytes and writing exactly `n` bytes are the same
//! bookkeeping: attempts are made until their counts add up to `n`. The
//! driver makes the attempts; [`ExactTransfer`] keeps the count and decides
//! after each attempt whether to go on.

use vstd::prelude::*;

verus! {

/// What one non-blocking read or write came to.
#[derive(Clone, Copy, Debug, PartialEq, Eq, Structural)]
pub enum Attempt {
    /// This many bytes were read or written. Zero means the peer has
    /// closed the stream.
    Transferred(usize),
    /// The stream was not ready after all; nothing was transferred.
    WouldBlock,
    /// The stream reported an error.
    Failed,
}

/// How a transfer stands.
#[derive(Clone, Copy, Debug, PartialEq, Eq, Structural)]
pub enum TransferStatus {
    /// Bytes are still missing: wait for readiness and try again.
    Pending,
    /// Exactly the wanted number of bytes has been transferred.
    Complete,
    /// The transfer cannot be completed.
    Failed,
}

/// The mathematical content of an [`ExactTransfer`].
pub struct Progress {
    /// How many bytes are wanted in all.
    pub len: nat,
    /// How many bytes have been transferred so far.
    pub offset: nat,
    /// Whether the transfer has been given up.
    pub failed: bool,
}

impl Progress {
    /// A transfer never holds more than is wanted, and one that has all
    /// its bytes has not failed.
    pub open spec fn wf(self) -> bool {
        &&& self.offset <= self.len
        &&& self.failed ==> self.offset < self.len
    }

    /// A transfer of `len` bytes of which none has been transferred.
    pub open spec fn start(len: nat) -> Progress {
        Progress { len, offset: 0, failed: false }
    }

    /// How many bytes are still missing.
    pub open spec fn remaining(self) -> nat {
        (self.len - self.offset) as nat
    }

    /// How the transfer stands.
    pub open spec fn status(self) -> TransferStatus {
        if self.failed {
            TransferStatus::Failed
        } else if self.offset >= self.len {
            TransferStatus::Complete
        } else {
            TransferStatus::Pending
        }
    }

    /// The transfer after one more attempt.
    ///
    /// A transfer that is complete or has failed stays as it is. On a
    /// pending one, a count between one and the number of missing bytes
    /// is added; no bytes at all, more bytes than were missing, and an
    /// error make it fail; a stream that was not ready changes nothing.
    pub open spec fn advance(self, attempt: Attempt) -> Progress {
        if self.status() is Pending {
            match attempt {
                Attempt::Transferred(count) => if 0 < count <= self.remaining() {
                    Progress { offset: self.offset + count as nat, ..self }
                } else {
                    Progress { failed: true, ..self }
                },
                Attempt::WouldBlock => self,
                Attempt::Failed => Progress { failed: true, ..self },
            }
        } else {
            self
        }
    }

    /// The transfer after a sequence of attempts, in order.
    pub open spec fn advance_all(self, attempts: Seq<Attempt>) -> Progress
        decreases attempts.len(),
    {
        if attempts.len() == 0 {
            self
        } else {
            self.advance_all(attempts.drop_last()).advance(attempts.last())
        }
    }
}

/// The number of bytes that a sequence of attempts reports as transferred.
pub open spec fn moved(attempts: Seq<Attempt>) -> nat
    decreases attempts.len(),
{
    if attempts.len() == 0 {
        0
    } else {
        moved(attempts.drop_last()) + match attempts.last() {
            Attempt::Transferred(count) => count as nat,
            _ => 0,
        }
    }
}

/// The count of bytes of one exact-length read or write.
#[derive(Debug)]
pub struct ExactTransfer {
    len: usize,
    offset: usize,
    failed: bool,
}

impl View for ExactTransfer {
    type V = Progress;

    closed spec fn view(&self) -> Progress {
        Progress { len: self.len as nat, offset: self.offset as nat, failed: self.failed }
    }
}

impl ExactTransfer {
    #[verifier::type_invariant]
    spec fn well_formed(self) -> bool {
        self@.wf()
    }

    /// A transfer of exactly `len` bytes, none of them transferred yet.
    pub fn new(len: usize) -> (transfer: Self)
        ensures
            transfer@ == Progress::start(len as nat),
    {
        ExactTransfer { len, offset: 0, failed: false }
    }

    /// How many bytes are wanted in all.
    pub fn len(&self) -> (len: usize)
        ensures
            len == self@.len,
    {
        self.len
    }

    /// How many bytes have been transferred: where in its buffer the next
    /// attempt starts.
    pub fn offset(&self) -> (offset: usize)
        ensures
            offset == self@.offset,
            offset <= self@.len,
    {
        proof {
            use_type_invariant(self);
        }
        self.offset
    }

    /// How many bytes are still missing: how much the next attempt may
    /// transfer at most.
    pub fn remaining(&self) -> (remaining: usize)
        ensures
            remaining == self@.remaining(),
    {
        proof {
            use_type_invariant(self);
        }
        self.len - self.offset
    }

    /// How the transfer stands.
    pub fn status(&self) -> (status: TransferStatus)
        ensures
            status == self@.status(),
    {
        if self.failed {
            TransferStatus::Failed
        } else if self.offset >= self.len {
            TransferStatus::Complete
        } else {
            TransferStatus::Pending
        }
    }

    /// Takes the result of one attempt into account and says how the
    /// transfer stands now.
    pub fn advance(&mut self, attempt: Attempt) -> (status: TransferStatus)
        ensures
            final(self)@ == old(self)@.advance(attempt),
            status == final(self)@.status(),
    {
        proof {
            use_type_invariant(&*self);
        }
        if !self.failed && self.offset < self.len {
            match attempt {
                Attempt::Transferred(count) => {
                    if 0 < count && count <= self.len - self.offset {
                        self.offset = self.offset + count;
                    } else {
                        self.failed = true;
                    }
                },
                Attempt::WouldBlock => {},
                Attempt::Failed => {
                    self.failed = true;
                },
            }
        }
        self.status()
    }
}

/// A transfer stays within its bounds: whatever the attempts, the wanted
/// length does not change, the count of transferred bytes never shrinks
/// and never passes the wanted length, and the transfer is complete
/// exactly when the two are equal.
pub proof fn transfer_stays_in_bounds(progress: Progress, attempts: Seq<Attempt>)
    requires
        progress.wf(),
    ensures
        progress.advance_all(attempts).wf(),
        progress.advance_all(attempts).len == progress.len,
        progress.offset <= progress.advance_all(attempts).offset <= progress.len,
        progress.advance_all(attempts).status() is Complete <==> progress.advance_all(
            attempts,
        ).offset == progress.len,
    decreases attempts.len(),
{
    if attempts.len() > 0 {
        transfer_stays_in_bounds(progress, attempts.drop_last());
    }
}

/// A transfer that is complete or has failed is over: further attempts
/// change nothing.
pub proof fn finished_transfer_is_final(progress: Progress, attempts: Seq<Attempt>)
    requires
        !(progress.status() is Pending),
    ensures
        progress.advance_all(attempts) == progress,
    decreases attempts.len(),
{
    if attempts.len() > 0 {
        finished_transfer_is_final(progress, attempts.drop_last());
    }
}

/// While a transfer is pending, every byte reported has been counted:
/// the count is what it was at the start plus all that the attempts
/// transferred.
pub proof fn pending_transfer_counts_every_byte(progress: Progress, attempts: Seq<Attempt>)
    requires
        progress.wf(),
        progress.advance_all(attempts).status() is Pending,
    ensures
        progress.advance_all(attempts).offset == progress.offset + moved(attempts),
    decreases attempts.len(),
{
    if attempts.len() > 0 {
        let earlier = progress.advance_all(attempts.drop_last());
        transfer_stays_in_bounds(progress, attempts.drop_last());
        assert(earlier.status() is Pending);
        pending_transfer_counts_every_byte(progress, attempts.drop_last());
    }
}

/// An exact transfer is exact: at the attempt that completes a transfer
/// started from nothing, the bytes transferred by all attempts so far add
/// up to the wanted length, no more and no fewer.
pub proof fn transfer_completes_exactly(len: nat, attempts: Seq<Attempt>, last: Attempt)
    requires
        Progress::start(len).advance_all(attempts).status() is Pending,
        Progress::start(len).advance_all(attempts.push(last)).status() is Complete,
    ensures
        last is Transferred,
        moved(attempts.push(last)) == len,
{
    let start = Progress::start(len);
    assert(attempts.push(last).drop_last() =~= attempts);
    transfer_stays_in_bounds(start, attempts);
    pending_transfer_counts_every_byte(start, attempts);
}

/// A stream that is not ready is no error: the transfer is left exactly
/// as it was.
pub proof fn would_block_changes_nothing(progress: Progress)
    ensures
        progress.advance(Attempt::WouldBlock) == progress,
{
}

/// A peer that closes before all bytes are there makes the transfer fail,
/// as does any error; a failed transfer holds fewer bytes than wanted.
pub proof fn early_close_is_fatal(progress: Progress)
    requires
        progress.wf(),
        progress.status() is Pending,
    ensures
        progress.advance(Attempt::Transferred(0)).status() is Failed,
        progress.advance(Attempt::Failed).status() is Failed,
        progress.advance(Attempt::Transferred(0)).offset < progress.len,
{
}

} // verus!
