//! Non-blocking reception, driven by polling.
//!
//! A poll either completes with `Ready` or reports with `Pending` that the transport cannot go
//! on yet; the caller polls again once the context's waker fires. A transport that is ready
//! completes its next poll, and a peek that completed leaves it ready: the message it saw is
//! there to be received or taken off. So a reception over a ready transport always completes,
//! and one that does not complete has made no change but to a buffer of the same shape.
use crate::msgbuf::{lemma_stored_msg, quota_limit, MsgBuf, MsgBufView};
use crate::recv::{
    discarded, recv_full_outcome, recv_outcome, recv_trunc_outcome, same_shape,
    try_recv_outcome, RecvResult, TryRecvResult,
};
use crate::step::{
    after_commit, after_discard, after_first_try, after_peek, after_probe, after_second_try,
    PeekStep, ProbeStep, SizedStep,
};
use crate::sync::reborrow;
use vstd::prelude::*;

pub use core::task::Context;

verus! {

/// Declares `core::task::Context`, the waker context of a poll, which is only handed on to the
/// transport and never looked into.
#[verifier::external_type_specification]
#[verifier::external_body]
pub struct ExContext<'a>(core::task::Context<'a>);

/// The state of a non-blocking operation.
#[derive(Copy, Clone, Debug, PartialEq, Eq)]
pub enum Poll<T> {
    /// The operation completed with the given value.
    Ready(T),
    /// The operation cannot go on yet.
    Pending,
}

/// What a poll that did not complete leaves: the queue as it was, and a buffer of the same shape.
pub open spec fn pending_outcome(
    q: Seq<Seq<u8>>,
    pre: MsgBufView,
    q2: Seq<Seq<u8>>,
    post: MsgBufView,
) -> bool {
    q2 == q && same_shape(pre, post)
}

/// Non-blocking reception of whole messages from a transport that preserves message boundaries
/// and reports truncation.
pub trait TruncatingRecvMsg {
    /// The transport's error type.
    type Error;

    /// The buffer for the sender's address.
    type AddrBuf;

    /// The messages waiting to be received, front first. A transport that is not verified
    /// need not say.
    open spec fn queue(&self) -> Seq<Seq<u8>> {
        arbitrary()
    }

    /// Whether the transport's next poll completes. A transport that is not verified need not
    /// say.
    open spec fn ready(&self) -> bool {
        arbitrary()
    }

    /// Polls a reception of the front message into `buf`, completing as
    /// [`sync::TruncatingRecvMsg::recv_trunc`](crate::sync::TruncatingRecvMsg::recv_trunc) does.
    /// A ready transport completes; a completed peek that found a message leaves it ready.
    fn poll_recv_trunc(
        &mut self,
        cx: &mut Context<'_>,
        peek: bool,
        buf: &mut MsgBuf<'_>,
        abuf: Option<&mut Self::AddrBuf>,
    ) -> (r: Poll<Result<Option<bool>, Self::Error>>)
        requires
            old(buf)@.wf(),
        ensures
            old(self).ready() ==> r is Ready,
            match r {
                Poll::Ready(x) => {
                    &&& recv_trunc_outcome(
                        old(self).queue(),
                        peek,
                        old(buf)@,
                        (*final(self)).queue(),
                        final(buf)@,
                        x,
                    )
                    &&& (peek && x matches Ok(Some(_))) ==> (*final(self)).ready()
                },
                Poll::Pending => pending_outcome(
                    old(self).queue(),
                    old(buf)@,
                    (*final(self)).queue(),
                    final(buf)@,
                ),
            },
    ;

    /// Polls the removal of the front message from the queue; at the end of the stream, does
    /// nothing. A ready transport completes.
    fn poll_discard_msg(&mut self, cx: &mut Context<'_>) -> (r: Poll<Result<(), Self::Error>>)
        ensures
            old(self).ready() ==> r is Ready,
            match r {
                Poll::Ready(Ok(())) => (*final(self)).queue() == discarded(old(self).queue()),
                Poll::Ready(Err(_)) => true,
                Poll::Pending => (*final(self)).queue() == old(self).queue(),
            },
    ;
}

/// A [`TruncatingRecvMsg`] that also reports the true size of a message that did not fit.
pub trait TruncatingRecvMsgWithFullSize: TruncatingRecvMsg {
    /// Like [`poll_recv_trunc`](TruncatingRecvMsg::poll_recv_trunc), but reports a message that
    /// did not fit as `Spilled` with its size before truncation.
    fn poll_recv_trunc_with_full_size(
        &mut self,
        cx: &mut Context<'_>,
        peek: bool,
        buf: &mut MsgBuf<'_>,
        abuf: Option<&mut Self::AddrBuf>,
    ) -> (r: Poll<Result<TryRecvResult, Self::Error>>)
        requires
            old(buf)@.wf(),
        ensures
            old(self).ready() ==> r is Ready,
            match r {
                Poll::Ready(x) => {
                    &&& recv_full_outcome(
                        old(self).queue(),
                        peek,
                        old(buf)@,
                        (*final(self)).queue(),
                        final(buf)@,
                        x,
                    )
                    &&& (peek && (x matches Ok(TryRecvResult::Fit) || x matches Ok(
                        TryRecvResult::Spilled(_),
                    ))) ==> (*final(self)).ready()
                },
                Poll::Pending => pending_outcome(
                    old(self).queue(),
                    old(buf)@,
                    (*final(self)).queue(),
                    final(buf)@,
                ),
            },
    ;
}

/// Non-blocking reception of whole messages that never truncates.
pub trait RecvMsg {
    /// The transport's error type.
    type Error;

    /// The buffer for the sender's address.
    type AddrBuf;

    /// The messages waiting to be received, front first. A transport that is not verified
    /// need not say.
    open spec fn queue(&self) -> Seq<Seq<u8>> {
        arbitrary()
    }

    /// Whether the next poll completes. A transport that is not verified need not say.
    open spec fn ready(&self) -> bool {
        arbitrary()
    }

    /// Polls the reception of one whole message, growing the buffer as needed.
    fn poll_recv_msg(
        &mut self,
        cx: &mut Context<'_>,
        buf: &mut MsgBuf<'_>,
        abuf: Option<&mut Self::AddrBuf>,
    ) -> (r: Poll<Result<RecvResult, Self::Error>>)
        requires
            old(buf)@.wf(),
        ensures
            recv_poll_outcome(
                old(self).ready(),
                old(self).queue(),
                old(buf)@,
                (*final(self)).queue(),
                final(buf)@,
                r,
            ),
    ;
}

/// What a poll of a reception that never truncates promises: on completion, as
/// [`recv_outcome`]. It does not complete only if the transport was not ready, and then it
/// leaves the queue as it was and the buffer of the same shape.
pub open spec fn recv_poll_outcome<E>(
    ready: bool,
    q: Seq<Seq<u8>>,
    pre: MsgBufView,
    q2: Seq<Seq<u8>>,
    post: MsgBufView,
    r: Poll<Result<RecvResult, E>>,
) -> bool {
    match r {
        Poll::Ready(x) => recv_outcome(q, pre, q2, post, x),
        Poll::Pending => !ready && q2 == q && same_shape(pre, post),
    }
}

/// Implements [`TruncatingRecvMsg::poll_recv_trunc`] through
/// [`TruncatingRecvMsgWithFullSize::poll_recv_trunc_with_full_size`].
pub fn poll_recv_trunc_via_poll_recv_trunc_with_full_size<T: TruncatingRecvMsgWithFullSize>(
    slf: &mut T,
    cx: &mut Context<'_>,
    peek: bool,
    buf: &mut MsgBuf<'_>,
    abuf: Option<&mut T::AddrBuf>,
) -> (r: Poll<Result<Option<bool>, T::Error>>)
    requires
        old(buf)@.wf(),
    ensures
        old(slf).ready() ==> r is Ready,
        match r {
            Poll::Ready(x) => {
                &&& recv_trunc_outcome(
                    old(slf).queue(),
                    peek,
                    old(buf)@,
                    (*final(slf)).queue(),
                    final(buf)@,
                    x,
                )
                &&& (peek && x matches Ok(Some(_))) ==> (*final(slf)).ready()
            },
            Poll::Pending => pending_outcome(
                old(slf).queue(),
                old(buf)@,
                (*final(slf)).queue(),
                final(buf)@,
            ),
        },
{
    match slf.poll_recv_trunc_with_full_size(cx, peek, buf, abuf) {
        Poll::Pending => Poll::Pending,
        Poll::Ready(Ok(TryRecvResult::Fit)) => Poll::Ready(Ok(Some(true))),
        Poll::Ready(Ok(TryRecvResult::Spilled(_))) => Poll::Ready(Ok(Some(false))),
        Poll::Ready(Ok(TryRecvResult::EndOfStream)) => Poll::Ready(Ok(None)),
        Poll::Ready(Err(e)) => Poll::Ready(Err(e)),
    }
}

/// Implements [`RecvMsg::poll_recv_msg`] through [`TruncatingRecvMsg::poll_recv_trunc`]: peeks,
/// and while the message is truncated, clears and grows the buffer and peeks again; then takes
/// the message off the queue. Only the first peek may not complete; then nothing is taken off
/// the queue and the buffer is as it was in shape.
pub fn poll_recv_via_poll_recv_trunc<T: TruncatingRecvMsg>(
    slf: &mut T,
    cx: &mut Context<'_>,
    buf: &mut MsgBuf<'_>,
    abuf: Option<&mut T::AddrBuf>,
) -> (r: Poll<Result<RecvResult, T::Error>>)
    requires
        old(buf)@.wf(),
    ensures
        recv_poll_outcome(
            old(slf).ready(),
            old(slf).queue(),
            old(buf)@,
            (*final(slf)).queue(),
            final(buf)@,
            r,
        ),
{
    let mut abuf = abuf;
    let mut fit_first = true;
    loop
        invariant_except_break
            fit_first ==> buf@ == old(buf)@ && slf.ready() == old(slf).ready(),
            !fit_first ==> {
                &&& slf.queue().len() > 0
                &&& old(buf)@.cap() < slf.queue()[0].len()
                &&& buf@.cap() <= quota_limit(buf@.quota)
                &&& !buf@.borrowed
                &&& slf.ready()
            },
        invariant
            buf@.wf(),
            slf.queue() == old(slf).queue(),
            buf@.quota == old(buf)@.quota,
            buf@.cap() >= old(buf)@.cap(),
        ensures
            slf.queue() == old(slf).queue(),
            slf.queue().len() > 0,
            slf.ready(),
            buf@.wf(),
            buf@.quota == old(buf)@.quota,
            buf@.cap() >= old(buf)@.cap(),
            buf@.filled() == slf.queue()[0],
            buf@.has_msg,
            fit_first ==> slf.queue()[0].len() <= old(buf)@.cap(),
            !fit_first ==> {
                &&& old(buf)@.cap() < slf.queue()[0].len() <= quota_limit(buf@.quota)
                &&& !buf@.borrowed
            },
        decreases quota_limit(buf@.quota) - buf@.cap(),
    {
        let ghost pre = buf@;
        let peeked = match slf.poll_recv_trunc(cx, true, buf, reborrow(&mut abuf)) {
            Poll::Pending => return Poll::Pending,
            Poll::Ready(p) => p,
        };
        proof {
            if peeked matches Ok(Some(_)) {
                lemma_stored_msg(pre, slf.queue()[0]);
            }
        }
        match after_peek(buf, peeked) {
            PeekStep::Done(r) => return Poll::Ready(r),
            PeekStep::Commit => break,
            PeekStep::Retry => {
                fit_first = false;
            },
        }
    }
    match slf.poll_discard_msg(cx) {
        Poll::Pending => Poll::Pending,
        Poll::Ready(discarded) => Poll::Ready(after_commit(fit_first, discarded)),
    }
}

/// Where a [`TryRecv`] stands.
#[derive(Copy, Clone, Debug, PartialEq, Eq, Structural)]
pub enum TryRecvState {
    /// Peeking at the front message with its full size.
    Probing,
    /// The front message fit and is in the buffer; taking it off the queue.
    Discarding,
    /// Completed.
    Done,
}

/// A non-blocking reception that does not grow the buffer: a message that does not fit is left
/// on the queue and its size reported, and the buffer is left with nothing filled.
#[derive(Copy, Clone, Debug, PartialEq, Eq, Structural)]
pub struct TryRecv {
    state: TryRecvState,
}

impl View for TryRecv {
    type V = TryRecvState;

    closed spec fn view(&self) -> TryRecvState {
        self.state
    }
}

impl TryRecv {
    /// A reception that has not started.
    pub fn new() -> (r: Self)
        ensures
            r@ == TryRecvState::Probing,
    {
        TryRecv { state: TryRecvState::Probing }
    }

    /// Returns where the reception stands.
    pub fn state(&self) -> (r: TryRecvState)
        ensures
            r == self@,
    {
        self.state
    }

    /// Drives the reception as far as the transport lets it. A reception that completed may not
    /// be polled again. While discarding, `buf` is not touched: it already holds the message.
    pub fn poll<T: TruncatingRecvMsgWithFullSize>(
        &mut self,
        recver: &mut T,
        cx: &mut Context<'_>,
        buf: &mut MsgBuf<'_>,
        abuf: Option<&mut T::AddrBuf>,
    ) -> (r: Poll<Result<TryRecvResult, T::Error>>)
        requires
            old(self)@ != TryRecvState::Done,
            old(buf)@.wf(),
        ensures
            try_recv_step(
                old(recver).ready(),
                (*final(recver)).ready(),
                old(self)@,
                final(self)@,
                old(recver).queue(),
                old(buf)@,
                (*final(recver)).queue(),
                final(buf)@,
                r,
            ),
    {
        if self.state == TryRecvState::Probing {
            let probed = match recver.poll_recv_trunc_with_full_size(cx, true, buf, abuf) {
                Poll::Pending => return Poll::Pending,
                Poll::Ready(p) => p,
            };
            proof {
                if probed is Ok && !(probed matches Ok(TryRecvResult::EndOfStream)) {
                    lemma_stored_msg(old(buf)@, old(recver).queue()[0]);
                }
            }
            match after_probe(buf, probed) {
                ProbeStep::Done(r) => {
                    self.state = TryRecvState::Done;
                    return Poll::Ready(r);
                },
                ProbeStep::Discard => {
                    self.state = TryRecvState::Discarding;
                },
            }
        }
        match recver.poll_discard_msg(cx) {
            Poll::Pending => Poll::Pending,
            Poll::Ready(discarded) => {
                self.state = TryRecvState::Done;
                Poll::Ready(after_discard(discarded))
            },
        }
    }
}

/// What one poll of a [`TryRecv`] does, from state `s` to state `s2`, with the transport's
/// readiness going from `ready` to `ready2`, the queue from `q` to `q2` and the buffer from `pre`
/// to `post`. A poll from `Probing` that completes completes the whole reception as
/// [`try_recv_outcome`] says, and a size it reports leaves the transport ready. A poll from
/// `Discarding` leaves the buffer alone. A poll does not complete only if the transport was not
/// ready, and then it stays in its state and changes nothing but the buffer within its shape.
pub open spec fn try_recv_step<E>(
    ready: bool,
    ready2: bool,
    s: TryRecvState,
    s2: TryRecvState,
    q: Seq<Seq<u8>>,
    pre: MsgBufView,
    q2: Seq<Seq<u8>>,
    post: MsgBufView,
    r: Poll<Result<TryRecvResult, E>>,
) -> bool {
    match r {
        Poll::Ready(x) => {
            &&& s2 == TryRecvState::Done
            &&& s == TryRecvState::Probing ==> {
                &&& try_recv_outcome(q, pre, q2, post, x)
                &&& x matches Ok(TryRecvResult::Spilled(_)) ==> ready2
            }
            &&& s == TryRecvState::Discarding ==> {
                &&& post == pre
                &&& x is Ok ==> (x == Ok::<TryRecvResult, E>(TryRecvResult::Fit) && q2 == discarded(q))
            }
        },
        Poll::Pending => {
            &&& !ready
            &&& s2 == s
            &&& q2 == q
            &&& s == TryRecvState::Discarding ==> post == pre
            &&& s == TryRecvState::Probing ==> same_shape(pre, post)
        },
    }
}

/// Implements [`RecvMsg::poll_recv_msg`] through [`TryRecv`]: a message that does not fit is
/// probed for its size, the buffer cleared and grown to it once, and the message received again.
/// Each poll starts a fresh [`TryRecv`]. Only the first probe may not complete; then nothing is
/// taken off the queue and the buffer is as it was in shape.
pub fn poll_recv_via_poll_try_recv<T: TruncatingRecvMsgWithFullSize>(
    slf: &mut T,
    cx: &mut Context<'_>,
    buf: &mut MsgBuf<'_>,
    abuf: Option<&mut T::AddrBuf>,
) -> (r: Poll<Result<RecvResult, T::Error>>)
    requires
        old(buf)@.wf(),
    ensures
        recv_poll_outcome(
            old(slf).ready(),
            old(slf).queue(),
            old(buf)@,
            (*final(slf)).queue(),
            final(buf)@,
            r,
        ),
        r matches Poll::Ready(Ok(RecvResult::QuotaExceeded(e))) ==> e.attempted_alloc == old(
            slf,
        ).queue()[0].len(),
{
    let mut abuf = abuf;
    let mut first_op = TryRecv::new();
    let first = match first_op.poll(slf, cx, buf, reborrow(&mut abuf)) {
        Poll::Pending => return Poll::Pending,
        Poll::Ready(f) => f,
    };
    let ghost q = slf.queue();
    proof {
        if first matches Ok(TryRecvResult::Fit) {
            lemma_stored_msg(old(buf)@, old(slf).queue()[0]);
        }
    }
    match after_first_try(buf, first) {
        SizedStep::Done(r) => Poll::Ready(r),
        SizedStep::Retry => {
            let ghost grown = buf@;
            let mut second_op = TryRecv::new();
            match second_op.poll(slf, cx, buf, abuf) {
                Poll::Pending => Poll::Pending,
                Poll::Ready(second) => {
                    proof {
                        if second matches Ok(TryRecvResult::Fit) {
                            lemma_stored_msg(grown, q[0]);
                        }
                    }
                    Poll::Ready(after_second_try(second))
                },
            }
        },
    }
}

} // verus!
