//! The reception traits, passed on through exclusive references and boxes.
use crate::msgbuf::MsgBuf;
use crate::nonblocking::{self, Context, Poll};
use crate::recv::{RecvResult, TryRecvResult};
use crate::sync;
use vstd::prelude::*;

verus! {

impl<T: sync::TruncatingRecvMsg> sync::TruncatingRecvMsg for Box<T> {
    type Error = T::Error;

    type AddrBuf = T::AddrBuf;

    open spec fn queue(&self) -> Seq<Seq<u8>> {
        (**self).queue()
    }

    fn recv_trunc(
        &mut self,
        peek: bool,
        buf: &mut MsgBuf<'_>,
        abuf: Option<&mut Self::AddrBuf>,
    ) -> Result<Option<bool>, Self::Error> {
        (**self).recv_trunc(peek, buf, abuf)
    }

    fn discard_msg(&mut self) -> Result<(), Self::Error> {
        (**self).discard_msg()
    }
}

impl<T: sync::TruncatingRecvMsg> sync::TruncatingRecvMsg for &mut T {
    type Error = T::Error;

    type AddrBuf = T::AddrBuf;

    open spec fn queue(&self) -> Seq<Seq<u8>> {
        (**self).queue()
    }

    fn recv_trunc(
        &mut self,
        peek: bool,
        buf: &mut MsgBuf<'_>,
        abuf: Option<&mut Self::AddrBuf>,
    ) -> Result<Option<bool>, Self::Error> {
        (**self).recv_trunc(peek, buf, abuf)
    }

    fn discard_msg(&mut self) -> Result<(), Self::Error> {
        (**self).discard_msg()
    }
}

impl<T: sync::TruncatingRecvMsgWithFullSize> sync::TruncatingRecvMsgWithFullSize for Box<T> {
    fn recv_trunc_with_full_size(
        &mut self,
        peek: bool,
        buf: &mut MsgBuf<'_>,
        abuf: Option<&mut Self::AddrBuf>,
    ) -> Result<TryRecvResult, Self::Error> {
        (**self).recv_trunc_with_full_size(peek, buf, abuf)
    }
}

impl<T: sync::RecvMsg> sync::RecvMsg for Box<T> {
    type Error = T::Error;

    type AddrBuf = T::AddrBuf;

    open spec fn queue(&self) -> Seq<Seq<u8>> {
        (**self).queue()
    }

    fn recv_msg(&mut self, buf: &mut MsgBuf<'_>, abuf: Option<&mut Self::AddrBuf>) -> Result<
        RecvResult,
        Self::Error,
    > {
        (**self).recv_msg(buf, abuf)
    }
}

impl<T: nonblocking::TruncatingRecvMsg> nonblocking::TruncatingRecvMsg for Box<T> {
    type Error = T::Error;

    type AddrBuf = T::AddrBuf;

    open spec fn queue(&self) -> Seq<Seq<u8>> {
        (**self).queue()
    }

    open spec fn ready(&self) -> bool {
        (**self).ready()
    }

    fn poll_recv_trunc(
        &mut self,
        cx: &mut Context<'_>,
        peek: bool,
        buf: &mut MsgBuf<'_>,
        abuf: Option<&mut Self::AddrBuf>,
    ) -> Poll<Result<Option<bool>, Self::Error>> {
        (**self).poll_recv_trunc(cx, peek, buf, abuf)
    }

    fn poll_discard_msg(&mut self, cx: &mut Context<'_>) -> Poll<Result<(), Self::Error>> {
        (**self).poll_discard_msg(cx)
    }
}

impl<T: nonblocking::TruncatingRecvMsgWithFullSize> nonblocking::TruncatingRecvMsgWithFullSize for Box<T> {
    fn poll_recv_trunc_with_full_size(
        &mut self,
        cx: &mut Context<'_>,
        peek: bool,
        buf: &mut MsgBuf<'_>,
        abuf: Option<&mut Self::AddrBuf>,
    ) -> Poll<Result<TryRecvResult, Self::Error>> {
        (**self).poll_recv_trunc_with_full_size(cx, peek, buf, abuf)
    }
}

impl<T: nonblocking::RecvMsg> nonblocking::RecvMsg for Box<T> {
    type Error = T::Error;

    type AddrBuf = T::AddrBuf;

    open spec fn queue(&self) -> Seq<Seq<u8>> {
        (**self).queue()
    }

    open spec fn ready(&self) -> bool {
        (**self).ready()
    }

    fn poll_recv_msg(
        &mut self,
        cx: &mut Context<'_>,
        buf: &mut MsgBuf<'_>,
        abuf: Option<&mut Self::AddrBuf>,
    ) -> Poll<Result<RecvResult, Self::Error>> {
        (**self).poll_recv_msg(cx, buf, abuf)
    }
}

impl<T: sync::TruncatingRecvMsgWithFullSize> sync::TruncatingRecvMsgWithFullSize for &mut T {
    fn recv_trunc_with_full_size(
        &mut self,
        peek: bool,
        buf: &mut MsgBuf<'_>,
        abuf: Option<&mut Self::AddrBuf>,
    ) -> Result<TryRecvResult, Self::Error> {
        (**self).recv_trunc_with_full_size(peek, buf, abuf)
    }
}

impl<T: sync::RecvMsg> sync::RecvMsg for &mut T {
    type Error = T::Error;

    type AddrBuf = T::AddrBuf;

    open spec fn queue(&self) -> Seq<Seq<u8>> {
        (**self).queue()
    }

    fn recv_msg(&mut self, buf: &mut MsgBuf<'_>, abuf: Option<&mut Self::AddrBuf>) -> Result<
        RecvResult,
        Self::Error,
    > {
        (**self).recv_msg(buf, abuf)
    }
}

impl<T: nonblocking::TruncatingRecvMsg> nonblocking::TruncatingRecvMsg for &mut T {
    type Error = T::Error;

    type AddrBuf = T::AddrBuf;

    open spec fn queue(&self) -> Seq<Seq<u8>> {
        (**self).queue()
    }

    open spec fn ready(&self) -> bool {
        (**self).ready()
    }

    fn poll_recv_trunc(
        &mut self,
        cx: &mut Context<'_>,
        peek: bool,
        buf: &mut MsgBuf<'_>,
        abuf: Option<&mut Self::AddrBuf>,
    ) -> Poll<Result<Option<bool>, Self::Error>> {
        (**self).poll_recv_trunc(cx, peek, buf, abuf)
    }

    fn poll_discard_msg(&mut self, cx: &mut Context<'_>) -> Poll<Result<(), Self::Error>> {
        (**self).poll_discard_msg(cx)
    }
}

impl<T: nonblocking::TruncatingRecvMsgWithFullSize> nonblocking::TruncatingRecvMsgWithFullSize for &mut T {
    fn poll_recv_trunc_with_full_size(
        &mut self,
        cx: &mut Context<'_>,
        peek: bool,
        buf: &mut MsgBuf<'_>,
        abuf: Option<&mut Self::AddrBuf>,
    ) -> Poll<Result<TryRecvResult, Self::Error>> {
        (**self).poll_recv_trunc_with_full_size(cx, peek, buf, abuf)
    }
}

impl<T: nonblocking::RecvMsg> nonblocking::RecvMsg for &mut T {
    type Error = T::Error;

    type AddrBuf = T::AddrBuf;

    open spec fn queue(&self) -> Seq<Seq<u8>> {
        (**self).queue()
    }

    open spec fn ready(&self) -> bool {
        (**self).ready()
    }

    fn poll_recv_msg(
        &mut self,
        cx: &mut Context<'_>,
        buf: &mut MsgBuf<'_>,
        abuf: Option<&mut Self::AddrBuf>,
    ) -> Poll<Result<RecvResult, Self::Error>> {
        (**self).poll_recv_msg(cx, buf, abuf)
    }
}

} // verus!
