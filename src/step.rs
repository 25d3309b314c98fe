//! The decisions a reception makes after each call into the transport, as functions of the
//! call's result. The blocking and the non-blocking receptions share them.
use crate::msgbuf::{grow_outcome, MsgBuf, MsgBufView, QuotaExceeded};
use crate::recv::{RecvResult, TryRecvResult};
use vstd::prelude::*;

verus! {

/// A buffer emptied of its message.
pub open spec fn cleared(b: MsgBufView) -> MsgBufView {
    MsgBufView { fill: 0, has_msg: false, ..b }
}

/// What to do after a peek, in the peek-and-grow reception.
#[derive(Debug)]
pub enum PeekStep<E> {
    /// The reception is over, with this result.
    Done(Result<RecvResult, E>),
    /// The message fit: take it off the queue.
    Commit,
    /// The buffer was grown: peek again.
    Retry,
}

/// The growth that a step reports: failed with the quota error it returns, else successful.
pub open spec fn peek_growth<E>(s: PeekStep<E>) -> Result<(), QuotaExceeded> {
    match s {
        PeekStep::Done(Ok(RecvResult::QuotaExceeded(qe))) => Err(qe),
        _ => Ok(()),
    }
}

/// Decides after a peek. The end of the stream ends the reception; an error ends it with the
/// buffer emptied; a message that fit is to be committed; a truncated one has the buffer cleared
/// and grown by one step, after which the peek is repeated, or the reception ends with the
/// quota error.
pub fn after_peek<E>(buf: &mut MsgBuf<'_>, peeked: Result<Option<bool>, E>) -> (s: PeekStep<E>)
    requires
        old(buf)@.wf(),
        peeked matches Ok(Some(false)) ==> old(buf)@.cap() < usize::MAX,
    ensures
        final(buf)@.wf(),
        match peeked {
            Ok(None) => {
                &&& s == PeekStep::<E>::Done(Ok(RecvResult::EndOfStream))
                &&& final(buf)@ == old(buf)@
            },
            Ok(Some(true)) => s is Commit && final(buf)@ == old(buf)@,
            Ok(Some(false)) => {
                &&& grow_outcome(
                    MsgBufView { fill: 0, ..old(buf)@ },
                    old(buf)@.cap() + 1,
                    final(buf)@,
                    peek_growth(s),
                )
                &&& (s is Retry || s matches PeekStep::Done(Ok(RecvResult::QuotaExceeded(_))))
            },
            Err(e) => s == PeekStep::<E>::Done(Err(e)) && final(buf)@ == cleared(old(buf)@),
        },
{
    match peeked {
        Ok(None) => PeekStep::Done(Ok(RecvResult::EndOfStream)),
        Ok(Some(true)) => PeekStep::Commit,
        Ok(Some(false)) => match buf.clear_and_grow() {
            Ok(()) => PeekStep::Retry,
            Err(qe) => PeekStep::Done(Ok(RecvResult::QuotaExceeded(qe))),
        },
        Err(e) => {
            buf.clear_msg();
            PeekStep::Done(Err(e))
        },
    }
}

/// The result of the peek-and-grow reception once the message was taken off the queue: `Fit`
/// if the first peek fit, else `Spilled`; an error of the removal is passed on.
pub fn after_commit<E>(fit_first: bool, discarded: Result<(), E>) -> (r: Result<RecvResult, E>)
    ensures
        match discarded {
            Ok(()) => r == Ok::<RecvResult, E>(
                if fit_first {
                    RecvResult::Fit
                } else {
                    RecvResult::Spilled
                },
            ),
            Err(e) => r == Err::<RecvResult, E>(e),
        },
{
    match discarded {
        Ok(()) => if fit_first {
            Ok(RecvResult::Fit)
        } else {
            Ok(RecvResult::Spilled)
        },
        Err(e) => Err(e),
    }
}

/// What to do after a peek with the full size, in a reception that does not grow the buffer.
#[derive(Debug)]
pub enum ProbeStep<E> {
    /// The reception is over, with this result.
    Done(Result<TryRecvResult, E>),
    /// The message fit: take it off the queue.
    Discard,
}

/// Decides after a peek with the full size. A message that fit is to be taken off the queue; one
/// that did not ends the reception with its size and the buffer emptied, as does an error; the
/// end of the stream ends it with the buffer as it was.
pub fn after_probe<E>(buf: &mut MsgBuf<'_>, probed: Result<TryRecvResult, E>) -> (s: ProbeStep<E>)
    requires
        old(buf)@.wf(),
    ensures
        final(buf)@.wf(),
        match probed {
            Ok(TryRecvResult::Fit) => s is Discard && final(buf)@ == old(buf)@,
            Ok(TryRecvResult::Spilled(size)) => s == ProbeStep::<E>::Done(
                Ok(TryRecvResult::Spilled(size)),
            ) && final(buf)@ == cleared(old(buf)@),
            Ok(TryRecvResult::EndOfStream) => s == ProbeStep::<E>::Done(
                Ok(TryRecvResult::EndOfStream),
            ) && final(buf)@ == old(buf)@,
            Err(e) => s == ProbeStep::<E>::Done(Err(e)) && final(buf)@ == cleared(old(buf)@),
        },
{
    match probed {
        Ok(TryRecvResult::Fit) => ProbeStep::Discard,
        Ok(TryRecvResult::Spilled(size)) => {
            buf.clear_msg();
            ProbeStep::Done(Ok(TryRecvResult::Spilled(size)))
        },
        Ok(TryRecvResult::EndOfStream) => ProbeStep::Done(Ok(TryRecvResult::EndOfStream)),
        Err(e) => {
            buf.clear_msg();
            ProbeStep::Done(Err(e))
        },
    }
}

/// The result of a reception that does not grow the buffer once the message that fit was taken
/// off the queue; an error of the removal is passed on.
pub fn after_discard<E>(discarded: Result<(), E>) -> (r: Result<TryRecvResult, E>)
    ensures
        match discarded {
            Ok(()) => r == Ok::<TryRecvResult, E>(TryRecvResult::Fit),
            Err(e) => r == Err::<TryRecvResult, E>(e),
        },
{
    match discarded {
        Ok(()) => Ok(TryRecvResult::Fit),
        Err(e) => Err(e),
    }
}

/// What to do after the first attempt of the probe-the-size reception.
#[derive(Debug)]
pub enum SizedStep<E> {
    /// The reception is over, with this result.
    Done(Result<RecvResult, E>),
    /// The buffer was grown to the reported size: receive again.
    Retry,
}

/// The growth that a step reports: failed with the quota error it returns, else successful.
pub open spec fn sized_growth<E>(s: SizedStep<E>) -> Result<(), QuotaExceeded> {
    match s {
        SizedStep::Done(Ok(RecvResult::QuotaExceeded(qe))) => Err(qe),
        _ => Ok(()),
    }
}

/// Decides after a first attempt that does not grow the buffer. A message that did not fit has
/// the buffer cleared and grown to its size once, after which the reception is repeated, or the
/// reception ends with the quota error; any other result ends the reception as it is.
pub fn after_first_try<E>(buf: &mut MsgBuf<'_>, first: Result<TryRecvResult, E>) -> (s: SizedStep<
    E,
>)
    requires
        old(buf)@.wf(),
    ensures
        final(buf)@.wf(),
        match first {
            Ok(TryRecvResult::Spilled(size)) => {
                &&& grow_outcome(
                    MsgBufView { fill: 0, ..old(buf)@ },
                    size as nat,
                    final(buf)@,
                    sized_growth(s),
                )
                &&& (s is Retry || s matches SizedStep::Done(Ok(RecvResult::QuotaExceeded(_))))
            },
            Ok(TryRecvResult::Fit) => {
                &&& s == SizedStep::<E>::Done(Ok(RecvResult::Fit))
                &&& final(buf)@ == old(buf)@
            },
            Ok(TryRecvResult::EndOfStream) => s == SizedStep::<E>::Done(
                Ok(RecvResult::EndOfStream),
            ) && final(buf)@ == old(buf)@,
            Err(e) => s == SizedStep::<E>::Done(Err(e)) && final(buf)@ == old(buf)@,
        },
{
    match first {
        Ok(TryRecvResult::Spilled(size)) => match buf.clear_and_grow_to(size) {
            Ok(()) => SizedStep::Retry,
            Err(qe) => SizedStep::Done(Ok(RecvResult::QuotaExceeded(qe))),
        },
        Ok(TryRecvResult::Fit) => SizedStep::Done(Ok(RecvResult::Fit)),
        Ok(TryRecvResult::EndOfStream) => SizedStep::Done(Ok(RecvResult::EndOfStream)),
        Err(e) => SizedStep::Done(Err(e)),
    }
}

/// The result of the probe-the-size reception after the second attempt, into the grown buffer:
/// a message that fits now was `Spilled`. The second attempt cannot report a message that does
/// not fit, since the buffer holds the size the first one reported.
pub fn after_second_try<E>(second: Result<TryRecvResult, E>) -> (r: Result<RecvResult, E>)
    requires
        !(second matches Ok(TryRecvResult::Spilled(_))),
    ensures
        match second {
            Ok(TryRecvResult::Fit) => r == Ok::<RecvResult, E>(RecvResult::Spilled),
            Ok(TryRecvResult::EndOfStream) => r == Ok::<RecvResult, E>(RecvResult::EndOfStream),
            Ok(TryRecvResult::Spilled(_)) => false,
            Err(e) => r == Err::<RecvResult, E>(e),
        },
{
    match second {
        Ok(TryRecvResult::Spilled(_)) => Ok(RecvResult::Spilled),
        Ok(TryRecvResult::Fit) => Ok(RecvResult::Spilled),
        Ok(TryRecvResult::EndOfStream) => Ok(RecvResult::EndOfStream),
        Err(e) => Err(e),
    }
}

} // verus!
