//! A message stream that has already ended.
use crate::msgbuf::MsgBuf;
use crate::nonblocking::{self, Context, Poll};
use crate::recv::{RecvResult, TryRecvResult};
use crate::sync;
use core::marker::PhantomData;
use vstd::prelude::*;

verus! {

/// A message stream that is at its end from the outset.
#[derive(Debug, PartialEq, Eq, PartialOrd, Ord, Hash)]
pub struct Empty<AddrBuf = ()>(PhantomData<AddrBuf>);

impl<AddrBuf> Empty<AddrBuf> {
    /// Creates the stream.
    pub fn new() -> Self {
        Empty(PhantomData)
    }
}

impl<AddrBuf> Default for Empty<AddrBuf> {
    fn default() -> Self {
        Self::new()
    }
}

impl<AddrBuf> sync::TruncatingRecvMsg for Empty<AddrBuf> {
    type Error = core::convert::Infallible;

    type AddrBuf = AddrBuf;

    open spec fn queue(&self) -> Seq<Seq<u8>> {
        Seq::empty()
    }

    fn recv_trunc(
        &mut self,
        _peek: bool,
        _buf: &mut MsgBuf<'_>,
        _abuf: Option<&mut AddrBuf>,
    ) -> Result<Option<bool>, Self::Error> {
        Ok(None)
    }
}

impl<AddrBuf> sync::TruncatingRecvMsgWithFullSize for Empty<AddrBuf> {
    fn recv_trunc_with_full_size(
        &mut self,
        _peek: bool,
        _buf: &mut MsgBuf<'_>,
        _abuf: Option<&mut AddrBuf>,
    ) -> Result<TryRecvResult, Self::Error> {
        Ok(TryRecvResult::EndOfStream)
    }
}

impl<AddrBuf> sync::RecvMsg for Empty<AddrBuf> {
    type Error = core::convert::Infallible;

    type AddrBuf = AddrBuf;

    open spec fn queue(&self) -> Seq<Seq<u8>> {
        Seq::empty()
    }

    fn recv_msg(&mut self, _buf: &mut MsgBuf<'_>, _abuf: Option<&mut AddrBuf>) -> Result<
        RecvResult,
        Self::Error,
    > {
        Ok(RecvResult::EndOfStream)
    }
}

impl<AddrBuf> nonblocking::TruncatingRecvMsg for Empty<AddrBuf> {
    type Error = core::convert::Infallible;

    type AddrBuf = AddrBuf;

    open spec fn queue(&self) -> Seq<Seq<u8>> {
        Seq::empty()
    }

    open spec fn ready(&self) -> bool {
        true
    }

    fn poll_recv_trunc(
        &mut self,
        _cx: &mut Context<'_>,
        _peek: bool,
        _buf: &mut MsgBuf<'_>,
        _abuf: Option<&mut AddrBuf>,
    ) -> Poll<Result<Option<bool>, Self::Error>> {
        Poll::Ready(Ok(None))
    }

    fn poll_discard_msg(&mut self, _cx: &mut Context<'_>) -> Poll<Result<(), Self::Error>> {
        Poll::Ready(Ok(()))
    }
}

impl<AddrBuf> nonblocking::TruncatingRecvMsgWithFullSize for Empty<AddrBuf> {
    fn poll_recv_trunc_with_full_size(
        &mut self,
        _cx: &mut Context<'_>,
        _peek: bool,
        _buf: &mut MsgBuf<'_>,
        _abuf: Option<&mut AddrBuf>,
    ) -> Poll<Result<TryRecvResult, Self::Error>> {
        Poll::Ready(Ok(TryRecvResult::EndOfStream))
    }
}

impl<AddrBuf> nonblocking::RecvMsg for Empty<AddrBuf> {
    type Error = core::convert::Infallible;

    type AddrBuf = AddrBuf;

    open spec fn queue(&self) -> Seq<Seq<u8>> {
        Seq::empty()
    }

    open spec fn ready(&self) -> bool {
        true
    }

    fn poll_recv_msg(
        &mut self,
        _cx: &mut Context<'_>,
        _buf: &mut MsgBuf<'_>,
        _abuf: Option<&mut AddrBuf>,
    ) -> Poll<Result<RecvResult, Self::Error>> {
        Poll::Ready(Ok(RecvResult::EndOfStream))
    }
}

} // verus!
