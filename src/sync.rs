//! Blocking reception.
use crate::msgbuf::{lemma_stored_msg, quota_limit, MsgBuf, QuotaExceeded};
use crate::recv::{
    discarded, recv_full_outcome, recv_outcome, recv_trunc_outcome, try_recv_outcome, RecvResult,
    TryRecvResult,
};
use crate::step::{
    after_commit, after_discard, after_first_try, after_peek, after_probe, after_second_try,
    PeekStep, ProbeStep, SizedStep,
};
use vstd::prelude::*;

verus! {

/// Reception of whole messages from a transport that preserves message boundaries and reports
/// truncation.
pub trait TruncatingRecvMsg {
    /// The transport's error type.
    type Error;

    /// The buffer for the sender's address.
    type AddrBuf;

    /// The messages waiting to be received, front first. A transport that is not verified
    /// need not say.
    open spec fn queue(&self) -> Seq<Seq<u8>> {
        arbitrary()
    }

    /// Receives the front message into `buf`, returning `Ok(Some(true))` if it fit,
    /// `Ok(Some(false))` if it was truncated, and `Ok(None)` at the end of the stream. With
    /// `peek`, the message stays on the queue. On success `abuf`, if given, receives the
    /// sender's address.
    fn recv_trunc(
        &mut self,
        peek: bool,
        buf: &mut MsgBuf<'_>,
        abuf: Option<&mut Self::AddrBuf>,
    ) -> (r: Result<Option<bool>, Self::Error>)
        requires
            old(buf)@.wf(),
        ensures
            recv_trunc_outcome(old(self).queue(), peek, old(buf)@, (*final(self)).queue(), final(buf)@, r),
    ;

    /// Takes the front message off the queue; at the end of the stream, does nothing.
    fn discard_msg(&mut self) -> (r: Result<(), Self::Error>)
        ensures
            r is Ok ==> (*final(self)).queue() == discarded(old(self).queue()),
    {
        let mut byte: [u8; 1] = [0];
        let mut scratch = MsgBuf::from_borrowed(&mut byte);
        match self.recv_trunc(false, &mut scratch, None) {
            Ok(_) => Ok(()),
            Err(e) => Err(e),
        }
    }
}

/// A [`TruncatingRecvMsg`] that also reports the true size of a message that did not fit.
pub trait TruncatingRecvMsgWithFullSize: TruncatingRecvMsg {
    /// Like [`recv_trunc`](TruncatingRecvMsg::recv_trunc), but reports a message that did not
    /// fit as `Spilled` with its size before truncation.
    fn recv_trunc_with_full_size(
        &mut self,
        peek: bool,
        buf: &mut MsgBuf<'_>,
        abuf: Option<&mut Self::AddrBuf>,
    ) -> (r: Result<TryRecvResult, Self::Error>)
        requires
            old(buf)@.wf(),
        ensures
            recv_full_outcome(old(self).queue(), peek, old(buf)@, (*final(self)).queue(), final(buf)@, r),
    ;
}

/// Reception of whole messages that never truncates.
pub trait RecvMsg {
    /// The transport's error type.
    type Error;

    /// The buffer for the sender's address.
    type AddrBuf;

    /// The messages waiting to be received, front first. A transport that is not verified
    /// need not say.
    open spec fn queue(&self) -> Seq<Seq<u8>> {
        arbitrary()
    }

    /// Receives one message whole, growing the buffer as needed. On success `abuf`, if given,
    /// receives the sender's address.
    fn recv_msg(&mut self, buf: &mut MsgBuf<'_>, abuf: Option<&mut Self::AddrBuf>) -> (r: Result<
        RecvResult,
        Self::Error,
    >)
        requires
            old(buf)@.wf(),
        ensures
            recv_outcome(old(self).queue(), old(buf)@, (*final(self)).queue(), final(buf)@, r),
    ;
}

/// Convenience methods for [`TruncatingRecvMsgWithFullSize`].
pub trait TruncatingRecvMsgWithFullSizeExt: TruncatingRecvMsgWithFullSize + Sized {
    /// Receives one message without growing the buffer: a message that does not fit is left
    /// on the queue and its size reported, and the buffer is left with nothing filled.
    fn try_recv_msg(&mut self, buf: &mut MsgBuf<'_>, abuf: Option<&mut Self::AddrBuf>) -> (r:
        Result<TryRecvResult, Self::Error>)
        requires
            old(buf)@.wf(),
        ensures
            try_recv_outcome(old(self).queue(), old(buf)@, (*final(self)).queue(), final(buf)@, r),
    {
        try_recv_msg(self, buf, abuf)
    }
}

impl<T: TruncatingRecvMsgWithFullSize> TruncatingRecvMsgWithFullSizeExt for T {

}

/// Lends the address buffer again, for one more call.
pub(crate) fn reborrow<'b, T>(abuf: &'b mut Option<&mut T>) -> Option<&'b mut T> {
    match abuf {
        Some(a) => Some(&mut **a),
        None => None,
    }
}

/// Receives one message without growing the buffer: a message that does not fit is left on
/// the queue and its size reported, and the buffer is left with nothing filled.
pub(crate) fn try_recv_msg<T: TruncatingRecvMsgWithFullSize>(
    slf: &mut T,
    buf: &mut MsgBuf<'_>,
    abuf: Option<&mut T::AddrBuf>,
) -> (r: Result<TryRecvResult, T::Error>)
    requires
        old(buf)@.wf(),
    ensures
        try_recv_outcome(old(slf).queue(), old(buf)@, (*final(slf)).queue(), final(buf)@, r),
{
    let probed = slf.recv_trunc_with_full_size(true, buf, abuf);
    proof {
        if probed is Ok && !(probed matches Ok(TryRecvResult::EndOfStream)) {
            lemma_stored_msg(old(buf)@, old(slf).queue()[0]);
        }
    }
    match after_probe(buf, probed) {
        ProbeStep::Done(r) => r,
        ProbeStep::Discard => {
            let discarded = slf.discard_msg();
            after_discard(discarded)
        },
    }
}

/// Implements [`TruncatingRecvMsg::recv_trunc`] through
/// [`TruncatingRecvMsgWithFullSize::recv_trunc_with_full_size`].
pub fn recv_trunc_via_recv_trunc_with_full_size<T: TruncatingRecvMsgWithFullSize>(
    slf: &mut T,
    peek: bool,
    buf: &mut MsgBuf<'_>,
    abuf: Option<&mut T::AddrBuf>,
) -> (r: Result<Option<bool>, T::Error>)
    requires
        old(buf)@.wf(),
    ensures
        recv_trunc_outcome(old(slf).queue(), peek, old(buf)@, (*final(slf)).queue(), final(buf)@, r),
{
    match slf.recv_trunc_with_full_size(peek, buf, abuf) {
        Ok(TryRecvResult::Fit) => Ok(Some(true)),
        Ok(TryRecvResult::Spilled(_)) => Ok(Some(false)),
        Ok(TryRecvResult::EndOfStream) => Ok(None),
        Err(e) => Err(e),
    }
}

/// Implements [`RecvMsg::recv_msg`] through [`TruncatingRecvMsg::recv_trunc`]: peeks, and while
/// the message is truncated, clears and grows the buffer and peeks again; then takes the message
/// off the queue.
pub fn recv_via_recv_trunc<T: TruncatingRecvMsg>(
    slf: &mut T,
    buf: &mut MsgBuf<'_>,
    abuf: Option<&mut T::AddrBuf>,
) -> (r: Result<RecvResult, T::Error>)
    requires
        old(buf)@.wf(),
    ensures
        recv_outcome(old(slf).queue(), old(buf)@, (*final(slf)).queue(), final(buf)@, r),
{
    let mut abuf = abuf;
    let mut fit_first = true;
    loop
        invariant_except_break
            fit_first ==> buf@ == old(buf)@,
            !fit_first ==> {
                &&& slf.queue().len() > 0
                &&& old(buf)@.cap() < slf.queue()[0].len()
                &&& buf@.cap() <= quota_limit(buf@.quota)
                &&& !buf@.borrowed
            },
        invariant
            buf@.wf(),
            slf.queue() == old(slf).queue(),
            buf@.quota == old(buf)@.quota,
            buf@.cap() >= old(buf)@.cap(),
        ensures
            slf.queue() == old(slf).queue(),
            slf.queue().len() > 0,
            buf@.wf(),
            buf@.quota == old(buf)@.quota,
            buf@.cap() >= old(buf)@.cap(),
            buf@.filled() == slf.queue()[0],
            buf@.has_msg,
            fit_first ==> slf.queue()[0].len() <= old(buf)@.cap(),
            !fit_first ==> {
                &&& old(buf)@.cap() < slf.queue()[0].len() <= quota_limit(buf@.quota)
                &&& !buf@.borrowed
            },
        decreases quota_limit(buf@.quota) - buf@.cap(),
    {
        let ghost pre = buf@;
        let peeked = slf.recv_trunc(true, buf, reborrow(&mut abuf));
        proof {
            if peeked matches Ok(Some(_)) {
                lemma_stored_msg(pre, slf.queue()[0]);
            }
        }
        match after_peek(buf, peeked) {
            PeekStep::Done(r) => return r,
            PeekStep::Commit => break,
            PeekStep::Retry => {
                fit_first = false;
            },
        }
    }
    let discarded = slf.discard_msg();
    after_commit(fit_first, discarded)
}

/// Implements [`RecvMsg::recv_msg`] through [`TruncatingRecvMsgWithFullSizeExt::try_recv_msg`]:
/// a message that does not fit is probed for its size, the buffer cleared and grown to it once,
/// and the message received again.
pub fn recv_via_try_recv<T: TruncatingRecvMsgWithFullSize>(
    slf: &mut T,
    buf: &mut MsgBuf<'_>,
    abuf: Option<&mut T::AddrBuf>,
) -> (r: Result<RecvResult, T::Error>)
    requires
        old(buf)@.wf(),
    ensures
        recv_outcome(old(slf).queue(), old(buf)@, (*final(slf)).queue(), final(buf)@, r),
        r matches Ok(RecvResult::QuotaExceeded(e)) ==> e.attempted_alloc == old(slf).queue()[0].len(),
{
    let mut abuf = abuf;
    let first = try_recv_msg(slf, buf, reborrow(&mut abuf));
    let ghost tried = buf@;
    let ghost q = slf.queue();
    proof {
        if first matches Ok(TryRecvResult::Fit) {
            lemma_stored_msg(old(buf)@, old(slf).queue()[0]);
        }
    }
    match after_first_try(buf, first) {
        SizedStep::Done(r) => r,
        SizedStep::Retry => {
            let ghost grown = buf@;
            let second = try_recv_msg(slf, buf, abuf);
            proof {
                if second matches Ok(TryRecvResult::Fit) {
                    lemma_stored_msg(grown, q[0]);
                }
            }
            after_second_try(second)
        },
    }
}

} // verus!
