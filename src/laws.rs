//! Properties of the buffer and of reception, proved over the contracts of the operations.
use crate::msgbuf::{
    amortized_cap, grow_outcome, lemma_stored_msg, max_nat, quota_limit, stored_msg, MsgBufView,
    QuotaExceeded,
};
use crate::nonblocking::{recv_poll_outcome, Poll};
use crate::recv::{recv_outcome, recv_trunc_outcome, RecvResult};
use vstd::prelude::*;

verus! {

/// Every outcome of growth, and every stored message, keeps the cursor invariant
/// `fill <= init <= capacity`.
pub proof fn cursor_invariant_kept(
    pre: MsgBufView,
    target: nat,
    post: MsgBufView,
    r: Result<(), QuotaExceeded>,
    msg: Seq<u8>,
)
    requires
        pre.wf(),
        grow_outcome(pre, target, post, r),
    ensures
        post.wf(),
        stored_msg(pre, msg).wf(),
{
    lemma_stored_msg(pre, msg);
}

/// Growth keeps the filled part, byte for byte, and never lowers the capacity; a successful
/// growth reaches the requested capacity.
pub proof fn growth_keeps_content(
    pre: MsgBufView,
    target: nat,
    post: MsgBufView,
    r: Result<(), QuotaExceeded>,
)
    requires
        pre.wf(),
        grow_outcome(pre, target, post, r),
    ensures
        post.filled() == pre.filled(),
        post.cap() >= pre.cap(),
        r is Ok ==> post.cap() >= target,
{
}

/// Growth never passes the quota: a request beyond both the capacity and the quota fails and
/// changes nothing, and any growth that happens stays within the quota. With a quota of zero
/// only a request that the capacity already meets succeeds.
pub proof fn quota_enforced(
    pre: MsgBufView,
    target: nat,
    post: MsgBufView,
    r: Result<(), QuotaExceeded>,
)
    requires
        pre.wf(),
        grow_outcome(pre, target, post, r),
    ensures
        target > pre.cap() && target > quota_limit(pre.quota) ==> r is Err && post == pre,
        post.cap() <= max_nat(pre.cap(), quota_limit(pre.quota)),
        r is Err ==> post == pre,
        pre.quota == Some(0usize) ==> (r is Ok <==> target <= pre.cap()),
{
}

/// Growth past the capacity of a buffer, borrowed or not, leaves a buffer that owns its memory;
/// the caller's region is only ever as long as it was lent.
pub proof fn growth_owns(
    pre: MsgBufView,
    target: nat,
    post: MsgBufView,
    r: Result<(), QuotaExceeded>,
)
    requires
        pre.wf(),
        grow_outcome(pre, target, post, r),
        target > pre.cap(),
        r is Ok,
    ensures
        !post.borrowed,
        post.cap() == amortized_cap(pre.cap(), target, pre.quota),
        post.filled() == pre.filled(),
{
}

/// A reception that never truncates delivers the front message whole: when it reports `Fit` or
/// `Spilled`, the filled part is exactly the message, whatever the buffer's size before.
pub proof fn no_truncation<E>(
    q: Seq<Seq<u8>>,
    pre: MsgBufView,
    q2: Seq<Seq<u8>>,
    post: MsgBufView,
    r: Result<RecvResult, E>,
)
    requires
        pre.wf(),
        recv_outcome(q, pre, q2, post, r),
        r == Ok::<RecvResult, E>(RecvResult::Fit) || r == Ok::<RecvResult, E>(RecvResult::Spilled),
    ensures
        q.len() > 0,
        post.filled() == q[0],
        post.fill == q[0].len(),
        post.has_msg,
        r == Ok::<RecvResult, E>(RecvResult::Spilled) <==> q[0].len() > pre.cap(),
{
}

/// Each reception takes exactly one message off the queue: two messages come out in order, each
/// once, and the third reception finds the end of the stream.
pub proof fn exactly_one_commit<E>(
    q0: Seq<Seq<u8>>,
    b0: MsgBufView,
    q1: Seq<Seq<u8>>,
    b1: MsgBufView,
    r1: Result<RecvResult, E>,
    q2: Seq<Seq<u8>>,
    b2: MsgBufView,
    r2: Result<RecvResult, E>,
    q3: Seq<Seq<u8>>,
    b3: MsgBufView,
    r3: Result<RecvResult, E>,
)
    requires
        q0.len() == 2,
        b0.wf(),
        recv_outcome(q0, b0, q1, b1, r1),
        recv_outcome(q1, b1, q2, b2, r2),
        recv_outcome(q2, b2, q3, b3, r3),
        r1 == Ok::<RecvResult, E>(RecvResult::Fit) || r1 == Ok::<RecvResult, E>(RecvResult::Spilled),
        r2 == Ok::<RecvResult, E>(RecvResult::Fit) || r2 == Ok::<RecvResult, E>(RecvResult::Spilled),
        r3 is Ok,
    ensures
        b1.filled() == q0[0],
        b2.filled() == q0[1],
        q3.len() == 0,
        r3 == Ok::<RecvResult, E>(RecvResult::EndOfStream),
{
    assert(q1 == q0.drop_first());
    assert(q2 == q1.drop_first());
    assert(q1[0] == q0[1]);
    assert(q2.len() == 0);
}

/// Peeking twice without taking the message off gives the same message, truncated alike, and
/// leaves the queue as it was.
pub proof fn peek_idempotent<E>(
    q: Seq<Seq<u8>>,
    pre: MsgBufView,
    q1: Seq<Seq<u8>>,
    mid: MsgBufView,
    r1: Result<Option<bool>, E>,
    q2: Seq<Seq<u8>>,
    post: MsgBufView,
    r2: Result<Option<bool>, E>,
)
    requires
        pre.wf(),
        recv_trunc_outcome(q, true, pre, q1, mid, r1),
        recv_trunc_outcome(q1, true, mid, q2, post, r2),
        r1 matches Ok(Some(_)),
        r2 matches Ok(Some(_)),
    ensures
        q2 == q,
        q1 == q,
        post.filled() == mid.filled(),
        post.fill == mid.fill,
        r2 == r1,
{
    lemma_stored_msg(pre, q[0]);
    lemma_stored_msg(mid, q[0]);
}

/// Any two receptions that keep [`recv_outcome`] (the peek-and-grow strategy and the
/// probe-the-size strategy both do) agree from the same queue and buffer: the same result, the
/// same message, and the same queue afterwards, up to the size named in a quota error.
pub proof fn strategies_agree<E>(
    q: Seq<Seq<u8>>,
    pre: MsgBufView,
    qa: Seq<Seq<u8>>,
    post_a: MsgBufView,
    ra: Result<RecvResult, E>,
    qb: Seq<Seq<u8>>,
    post_b: MsgBufView,
    rb: Result<RecvResult, E>,
)
    requires
        pre.wf(),
        recv_outcome(q, pre, qa, post_a, ra),
        recv_outcome(q, pre, qb, post_b, rb),
        ra is Ok,
        rb is Ok,
    ensures
        qa == qb,
        (ra matches Ok(RecvResult::QuotaExceeded(_))) <==> (rb matches Ok(
            RecvResult::QuotaExceeded(_),
        )),
        !(ra matches Ok(RecvResult::QuotaExceeded(_))) ==> ra == rb,
        (ra == Ok::<RecvResult, E>(RecvResult::Fit) || ra == Ok::<RecvResult, E>(
            RecvResult::Spilled,
        )) ==> post_a.filled() == post_b.filled(),
{
}

/// A polled reception over a ready transport completes, and then keeps every promise of the
/// blocking one; one that does not complete took nothing off the queue and kept the capacity.
pub proof fn ready_poll_completes<E>(
    ready: bool,
    q: Seq<Seq<u8>>,
    pre: MsgBufView,
    q2: Seq<Seq<u8>>,
    post: MsgBufView,
    r: Poll<Result<RecvResult, E>>,
)
    requires
        pre.wf(),
        recv_poll_outcome(ready, q, pre, q2, post, r),
    ensures
        ready ==> r is Ready,
        r matches Poll::Ready(x) ==> recv_outcome(q, pre, q2, post, x),
        r is Pending ==> q2 == q && post.cap() == pre.cap() && post.wf(),
{
}

} // verus!
