//! Results of reception, and what each kind of reception promises about the queue of
//! messages and the buffer.
use crate::msgbuf::{max_nat, quota_limit, stored_msg, MsgBufView, QuotaExceeded};
use vstd::prelude::*;

verus! {

/// Result of a reception that never truncates.
#[derive(Copy, Clone, Debug, PartialEq, Eq)]
pub enum RecvResult {
    /// The message stream has ended and no more messages will be received.
    EndOfStream,
    /// The message fit into the buffer as it was.
    Fit,
    /// The message did not fit into the buffer as it was, which was grown to hold it.
    Spilled,
    /// The buffer would have had to grow past its quota.
    QuotaExceeded(QuotaExceeded),
}

/// Result of a reception that does not grow the buffer.
#[derive(Copy, Clone, Debug, PartialEq, Eq)]
pub enum TryRecvResult {
    /// The message stream has ended and no more messages will be received.
    EndOfStream,
    /// The message fit into the buffer.
    Fit,
    /// The message did not fit into the buffer; it is of the given size.
    Spilled(usize),
}

impl Default for RecvResult {
    /// End of stream.
    fn default() -> (r: Self)
        ensures
            r == RecvResult::EndOfStream,
    {
        RecvResult::EndOfStream
    }
}

impl Default for TryRecvResult {
    /// End of stream.
    fn default() -> (r: Self)
        ensures
            r == TryRecvResult::EndOfStream,
    {
        TryRecvResult::EndOfStream
    }
}

/// The outcome of a fitting or ending [`TryRecvResult`] as a [`RecvResult`].
pub open spec fn recv_result_of(r: TryRecvResult) -> RecvResult {
    match r {
        TryRecvResult::EndOfStream => RecvResult::EndOfStream,
        TryRecvResult::Fit => RecvResult::Fit,
        TryRecvResult::Spilled(_) => RecvResult::Spilled,
    }
}

impl From<TryRecvResult> for RecvResult {
    fn from(r: TryRecvResult) -> (out: RecvResult)
        ensures
            out == recv_result_of(r),
    {
        match r {
            TryRecvResult::EndOfStream => RecvResult::EndOfStream,
            TryRecvResult::Fit => RecvResult::Fit,
            TryRecvResult::Spilled(_) => RecvResult::Spilled,
        }
    }
}

impl vstd::std_specs::convert::FromSpecImpl<TryRecvResult> for RecvResult {
    open spec fn obeys_from_spec() -> bool {
        true
    }

    open spec fn from_spec(v: TryRecvResult) -> RecvResult {
        recv_result_of(v)
    }
}

/// The queue after a reception: the same after a peek, without its front message after a take.
pub open spec fn after_recv(q: Seq<Seq<u8>>, peek: bool) -> Seq<Seq<u8>> {
    if peek {
        q
    } else {
        q.drop_first()
    }
}

/// The queue after its front message is taken off, if there is one.
pub open spec fn discarded(q: Seq<Seq<u8>>) -> Seq<Seq<u8>> {
    if q.len() == 0 {
        q
    } else {
        q.drop_first()
    }
}

/// A buffer whose shape a reception kept: capacity, ownership and quota, the cursor invariant,
/// and an initialization cursor that did not fall back.
pub open spec fn same_shape(pre: MsgBufView, post: MsgBufView) -> bool {
    &&& post.wf()
    &&& post.cap() == pre.cap()
    &&& post.init >= pre.init
    &&& post.borrowed == pre.borrowed
    &&& post.quota == pre.quota
}

/// A buffer left after a failed reception: emptied of any message, or holding the front message
/// whole.
pub open spec fn left_after_error(q: Seq<Seq<u8>>, post: MsgBufView) -> bool {
    ||| !post.has_msg && post.fill == 0
    ||| post.has_msg && q.len() > 0 && post.filled() == q[0]
}

/// What a truncating reception promises. `q` and `q2` are the queue before and after, `pre`
/// and `post` the buffer before and after. On success the front message is stored in the
/// buffer, truncated to its capacity, with `Some(true)` exactly when it fit, and taken off the
/// queue unless `peek`; `None` means that the queue is empty.
pub open spec fn recv_trunc_outcome<E>(
    q: Seq<Seq<u8>>,
    peek: bool,
    pre: MsgBufView,
    q2: Seq<Seq<u8>>,
    post: MsgBufView,
    r: Result<Option<bool>, E>,
) -> bool {
    match r {
        Ok(None) => q.len() == 0 && q2 == q && same_shape(pre, post),
        Ok(Some(fit)) => {
            &&& q.len() > 0
            &&& q[0].len() <= usize::MAX
            &&& post == stored_msg(pre, q[0])
            &&& fit == (q[0].len() <= pre.cap())
            &&& q2 == after_recv(q, peek)
        },
        Err(_) => same_shape(pre, post),
    }
}

/// What a truncating reception that reports the full size promises: as
/// [`recv_trunc_outcome`], with the size of a message that did not fit.
pub open spec fn recv_full_outcome<E>(
    q: Seq<Seq<u8>>,
    peek: bool,
    pre: MsgBufView,
    q2: Seq<Seq<u8>>,
    post: MsgBufView,
    r: Result<TryRecvResult, E>,
) -> bool {
    match r {
        Ok(TryRecvResult::EndOfStream) => q.len() == 0 && q2 == q && same_shape(pre, post),
        Ok(TryRecvResult::Fit) => {
            &&& q.len() > 0
            &&& q[0].len() <= pre.cap()
            &&& q[0].len() <= usize::MAX
            &&& post == stored_msg(pre, q[0])
            &&& q2 == after_recv(q, peek)
        },
        Ok(TryRecvResult::Spilled(size)) => {
            &&& q.len() > 0
            &&& q[0].len() > pre.cap()
            &&& size == q[0].len()
            &&& post == stored_msg(pre, q[0])
            &&& q2 == after_recv(q, peek)
        },
        Err(_) => same_shape(pre, post),
    }
}

/// What a reception that does not grow the buffer promises. A message that fits is stored and
/// taken off the queue; one that does not is left on the queue, its size reported, and the
/// buffer left with nothing filled and no message.
pub open spec fn try_recv_outcome<E>(
    q: Seq<Seq<u8>>,
    pre: MsgBufView,
    q2: Seq<Seq<u8>>,
    post: MsgBufView,
    r: Result<TryRecvResult, E>,
) -> bool {
    match r {
        Ok(TryRecvResult::EndOfStream) => q.len() == 0 && q2 == q && same_shape(pre, post),
        Ok(TryRecvResult::Fit) => {
            &&& q.len() > 0
            &&& q[0].len() <= pre.cap()
            &&& post == stored_msg(pre, q[0])
            &&& q2 == q.drop_first()
        },
        Ok(TryRecvResult::Spilled(size)) => {
            &&& q.len() > 0
            &&& q[0].len() > pre.cap()
            &&& size == q[0].len()
            &&& same_shape(pre, post)
            &&& post.fill == 0
            &&& !post.has_msg
            &&& q2 == q
        },
        Err(_) => same_shape(pre, post) && left_after_error(q, post),
    }
}

/// What a reception that never truncates promises. The front message is received whole and
/// taken off the queue, exactly once: `Fit` if the buffer held it as it was, `Spilled` if the
/// buffer had to grow. A message larger than both the capacity and the quota is left on the
/// queue, with nothing filled. An empty queue gives `EndOfStream`. The capacity never falls. A
/// transport error may come at any point; it leaves the buffer emptied, or holding the message
/// whole if only taking it off the queue failed.
pub open spec fn recv_outcome<E>(
    q: Seq<Seq<u8>>,
    pre: MsgBufView,
    q2: Seq<Seq<u8>>,
    post: MsgBufView,
    r: Result<RecvResult, E>,
) -> bool {
    &&& post.wf()
    &&& post.quota == pre.quota
    &&& post.cap() >= pre.cap()
    &&& match r {
        Ok(RecvResult::EndOfStream) => q.len() == 0 && q2 == q,
        Ok(RecvResult::Fit) => {
            &&& q.len() > 0
            &&& q[0].len() <= pre.cap()
            &&& post.filled() == q[0]
            &&& post.has_msg
            &&& q2 == q.drop_first()
        },
        Ok(RecvResult::Spilled) => {
            &&& q.len() > 0
            &&& pre.cap() < q[0].len() <= quota_limit(pre.quota)
            &&& post.filled() == q[0]
            &&& post.has_msg
            &&& !post.borrowed
            &&& q2 == q.drop_first()
        },
        Ok(RecvResult::QuotaExceeded(e)) => {
            &&& q.len() > 0
            &&& q[0].len() > pre.cap()
            &&& q[0].len() > quota_limit(pre.quota)
            &&& e.quota == quota_limit(pre.quota)
            &&& e.attempted_alloc > quota_limit(pre.quota)
            &&& q2 == q
            &&& post.fill == 0
            &&& post.cap() <= max_nat(pre.cap(), quota_limit(pre.quota))
        },
        Err(_) => left_after_error(q, post),
    }
}

} // verus!
