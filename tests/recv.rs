use recvmsg::nonblocking::{self, Poll, TryRecv, TryRecvState};
use recvmsg::step::{
    after_commit, after_discard, after_first_try, after_peek, after_probe, after_second_try,
    PeekStep, ProbeStep, SizedStep,
};
use recvmsg::sync::{
    self, recv_trunc_via_recv_trunc_with_full_size, recv_via_recv_trunc, recv_via_try_recv,
    TruncatingRecvMsgWithFullSizeExt,
};
use recvmsg::{Empty, MsgBuf, QuotaExceeded, RecvResult, TryRecvResult};
use std::collections::VecDeque;
use std::task::{Context, Waker};

/// An in-memory datagram queue that counts the calls made to it.
#[derive(Default)]
struct Fixture {
    queue: VecDeque<Vec<u8>>,
    peeks: usize,
    takes: usize,
    /// How many of the next polls report that they cannot go on yet.
    stalls: usize,
    /// Fail the next call with this error.
    fail: Option<&'static str>,
}

impl Fixture {
    fn with(msgs: &[&[u8]]) -> Self {
        Fixture { queue: msgs.iter().map(|m| m.to_vec()).collect(), ..Default::default() }
    }

    fn recv(
        &mut self,
        peek: bool,
        buf: &mut MsgBuf<'_>,
        abuf: Option<&mut u16>,
    ) -> Result<TryRecvResult, &'static str> {
        if let Some(e) = self.fail.take() {
            return Err(e);
        }
        if peek {
            self.peeks += 1;
        } else {
            self.takes += 1;
        }
        let Some(msg) = self.queue.front() else {
            return Ok(TryRecvResult::EndOfStream);
        };
        let size = msg.len();
        let fit = buf.put_msg(msg);
        if let Some(a) = abuf {
            *a = 4242;
        }
        if !peek {
            self.queue.pop_front();
        }
        Ok(if fit { TryRecvResult::Fit } else { TryRecvResult::Spilled(size) })
    }

    fn stall(&mut self) -> bool {
        if self.stalls > 0 {
            self.stalls -= 1;
            true
        } else {
            false
        }
    }
}

impl sync::TruncatingRecvMsg for Fixture {
    type Error = &'static str;
    type AddrBuf = u16;

    fn recv_trunc(
        &mut self,
        peek: bool,
        buf: &mut MsgBuf<'_>,
        abuf: Option<&mut u16>,
    ) -> Result<Option<bool>, Self::Error> {
        recv_trunc_via_recv_trunc_with_full_size(self, peek, buf, abuf)
    }
}

impl sync::TruncatingRecvMsgWithFullSize for Fixture {
    fn recv_trunc_with_full_size(
        &mut self,
        peek: bool,
        buf: &mut MsgBuf<'_>,
        abuf: Option<&mut u16>,
    ) -> Result<TryRecvResult, Self::Error> {
        self.recv(peek, buf, abuf)
    }
}

impl nonblocking::TruncatingRecvMsg for Fixture {
    type Error = &'static str;
    type AddrBuf = u16;

    fn poll_recv_trunc(
        &mut self,
        cx: &mut Context<'_>,
        peek: bool,
        buf: &mut MsgBuf<'_>,
        abuf: Option<&mut u16>,
    ) -> Poll<Result<Option<bool>, Self::Error>> {
        nonblocking::poll_recv_trunc_via_poll_recv_trunc_with_full_size(self, cx, peek, buf, abuf)
    }

    fn poll_discard_msg(&mut self, _cx: &mut Context<'_>) -> Poll<Result<(), Self::Error>> {
        if self.stall() {
            return Poll::Pending;
        }
        let mut byte = [0u8; 1];
        match self.recv(false, &mut MsgBuf::from(&mut byte[..]), None) {
            Ok(_) => Poll::Ready(Ok(())),
            Err(e) => Poll::Ready(Err(e)),
        }
    }
}

impl nonblocking::TruncatingRecvMsgWithFullSize for Fixture {
    fn poll_recv_trunc_with_full_size(
        &mut self,
        _cx: &mut Context<'_>,
        peek: bool,
        buf: &mut MsgBuf<'_>,
        abuf: Option<&mut u16>,
    ) -> Poll<Result<TryRecvResult, Self::Error>> {
        if self.stall() {
            return Poll::Pending;
        }
        Poll::Ready(self.recv(peek, buf, abuf))
    }
}

const LONG: &str = "\
This message is definitely too huge for bufa, and will generally require multiple resizes unless \
the memory allocator decides to be smarter than usual and give us a huge buffer on the first try";

fn noop_cx() -> Context<'static> {
    Context::from_waker(Waker::noop())
}

#[test]
fn spilled_message_recovered_by_retry() {
    let mut fx = Fixture::with(&[LONG.as_bytes()]);
    let mut bufa = [0u8; 6];
    let mut buf = MsgBuf::from(&mut bufa[..]);
    let mut addr = 0u16;
    let r = recv_via_recv_trunc(&mut fx, &mut buf, Some(&mut addr)).unwrap();
    assert_eq!(r, RecvResult::Spilled);
    assert_eq!(buf.len_filled(), LONG.len());
    assert_eq!(buf.filled_part(), LONG.as_bytes());
    assert_eq!(addr, 4242);
    assert!(buf.has_msg);
    assert!(buf.take_borrowed().is_none());
    assert_eq!(fx.takes, 1);
    assert!(fx.queue.is_empty());
}

#[test]
fn spilled_message_recovered_by_probe() {
    let mut fx = Fixture::with(&[LONG.as_bytes()]);
    let mut buf = MsgBuf::from(Vec::with_capacity(16));
    let r = recv_via_try_recv(&mut fx, &mut buf, None).unwrap();
    assert_eq!(r, RecvResult::Spilled);
    assert_eq!(buf.filled_part(), LONG.as_bytes());
    assert_eq!(fx.peeks, 2);
    assert_eq!(fx.takes, 1);
}

#[test]
fn two_messages_then_end() {
    for probe in [false, true] {
        let mut fx = Fixture::with(&[b"first", b"second message"]);
        let mut bufa = [0u8; 8];
        let mut buf = MsgBuf::from(&mut bufa[..]);
        let recv = |fx: &mut Fixture, buf: &mut MsgBuf<'_>| {
            if probe {
                recv_via_try_recv(fx, buf, None).unwrap()
            } else {
                recv_via_recv_trunc(fx, buf, None).unwrap()
            }
        };
        assert_eq!(recv(&mut fx, &mut buf), RecvResult::Fit);
        assert_eq!(buf.msg(), Some(&b"first"[..]));
        assert_eq!(recv(&mut fx, &mut buf), RecvResult::Spilled);
        assert_eq!(buf.msg(), Some(&b"second message"[..]));
        assert_eq!(recv(&mut fx, &mut buf), RecvResult::EndOfStream);
        assert_eq!(fx.takes, 2);
    }
}

#[test]
fn repeated_peek_is_stable() {
    let mut fx = Fixture::with(&[b"0123456789"]);
    let mut bufa = [0u8; 4];
    let mut buf = MsgBuf::from(&mut bufa[..]);
    let first = sync::TruncatingRecvMsg::recv_trunc(&mut fx, true, &mut buf, None).unwrap();
    let first_msg = buf.filled_part().to_vec();
    let second = sync::TruncatingRecvMsg::recv_trunc(&mut fx, true, &mut buf, None).unwrap();
    assert_eq!(first, Some(false));
    assert_eq!(first, second);
    assert_eq!(first_msg, b"0123");
    assert_eq!(buf.filled_part(), &first_msg[..]);
    assert_eq!(fx.queue.len(), 1);
}

#[test]
fn strategies_agree_on_results() {
    let msgs: [&[u8]; 4] = [b"tiny", &[9u8; 300], b"", &[1u8; 5000]];
    let mut outcomes = Vec::new();
    for probe in [false, true] {
        let mut fx = Fixture::with(&msgs);
        let mut buf = MsgBuf::with_capacity(8);
        buf.quota = Some(4096);
        let mut seen = Vec::new();
        for _ in 0..5 {
            let r = if probe {
                recv_via_try_recv(&mut fx, &mut buf, None).unwrap()
            } else {
                recv_via_recv_trunc(&mut fx, &mut buf, None).unwrap()
            };
            let kind = match r {
                RecvResult::QuotaExceeded(e) => {
                    assert_eq!(e.quota, 4096);
                    "quota"
                },
                RecvResult::Fit => "fit",
                RecvResult::Spilled => "spilled",
                RecvResult::EndOfStream => "end",
            };
            seen.push((kind, buf.len_filled()));
            if kind == "quota" {
                break;
            }
        }
        outcomes.push((seen, fx.queue.len()));
    }
    assert_eq!(outcomes[0], outcomes[1]);
    assert_eq!(
        outcomes[0].0,
        vec![("fit", 4), ("spilled", 300), ("fit", 0), ("quota", 0)]
    );
    assert_eq!(outcomes[0].1, 1);
}

#[test]
fn quota_exceeded_leaves_message_queued() {
    let mut fx = Fixture::with(&[&[3u8; 100]]);
    let mut buf = MsgBuf::with_capacity(10);
    buf.quota = Some(50);
    let r = recv_via_try_recv(&mut fx, &mut buf, None).unwrap();
    assert_eq!(r, RecvResult::QuotaExceeded(QuotaExceeded { quota: 50, attempted_alloc: 100 }));
    assert_eq!(fx.queue.len(), 1);
    assert_eq!(buf.capacity(), 10);
    let r = recv_via_recv_trunc(&mut fx, &mut buf, None).unwrap();
    assert!(matches!(r, RecvResult::QuotaExceeded(QuotaExceeded { quota: 50, .. })));
    assert_eq!(buf.capacity(), 50);
    assert_eq!(fx.takes, 0);
}

#[test]
fn transport_error_clears_buffer() {
    let mut fx = Fixture::with(&[b"abc"]);
    let mut buf = MsgBuf::from(b"old".to_vec());
    buf.set_fill(3);
    buf.has_msg = true;
    fx.fail = Some("boom");
    assert_eq!(recv_via_recv_trunc(&mut fx, &mut buf, None), Err("boom"));
    assert_eq!(buf.len_filled(), 0);
    assert!(!buf.has_msg);
    assert_eq!(fx.queue.len(), 1);
}

#[test]
fn try_recv_leaves_large_message() {
    let mut fx = Fixture::with(&[b"0123456789"]);
    let mut bufa = [0u8; 4];
    let mut buf = MsgBuf::from(&mut bufa[..]);
    assert_eq!(fx.try_recv_msg(&mut buf, None), Ok(TryRecvResult::Spilled(10)));
    assert_eq!(buf.len_filled(), 0);
    assert!(!buf.has_msg);
    assert_eq!(fx.queue.len(), 1);
    let mut big = MsgBuf::with_capacity(10);
    assert_eq!(fx.try_recv_msg(&mut big, None), Ok(TryRecvResult::Fit));
    assert_eq!(big.msg(), Some(&b"0123456789"[..]));
    assert_eq!(fx.try_recv_msg(&mut big, None), Ok(TryRecvResult::EndOfStream));
}

#[test]
fn try_recv_result_converts() {
    assert_eq!(RecvResult::from(TryRecvResult::Fit), RecvResult::Fit);
    assert_eq!(RecvResult::from(TryRecvResult::Spilled(3)), RecvResult::Spilled);
    assert_eq!(RecvResult::from(TryRecvResult::EndOfStream), RecvResult::EndOfStream);
    assert_eq!(RecvResult::default(), RecvResult::EndOfStream);
    assert_eq!(TryRecvResult::default(), TryRecvResult::EndOfStream);
}

#[test]
fn empty_stream_ends_at_once() {
    let mut e: Empty<u16> = Empty::new();
    let mut buf = MsgBuf::with_capacity(4);
    assert_eq!(sync::RecvMsg::recv_msg(&mut e, &mut buf, None), Ok(RecvResult::EndOfStream));
    assert_eq!(recv_via_recv_trunc(&mut e, &mut buf, None), Ok(RecvResult::EndOfStream));
    assert_eq!(recv_via_try_recv(&mut e, &mut buf, None), Ok(RecvResult::EndOfStream));
    let mut cx = noop_cx();
    assert_eq!(
        nonblocking::poll_recv_via_poll_recv_trunc(&mut e, &mut cx, &mut buf, None),
        Poll::Ready(Ok(RecvResult::EndOfStream))
    );
    assert_eq!(
        nonblocking::RecvMsg::poll_recv_msg(&mut e, &mut cx, &mut buf, None),
        Poll::Ready(Ok(RecvResult::EndOfStream))
    );
}

#[test]
fn polled_retry_recovers_spilled_message() {
    let mut fx = Fixture::with(&[LONG.as_bytes()]);
    let mut bufa = [0u8; 6];
    let mut buf = MsgBuf::from(&mut bufa[..]);
    let mut cx = noop_cx();
    fx.stalls = 1;
    assert_eq!(
        nonblocking::poll_recv_via_poll_recv_trunc(&mut fx, &mut cx, &mut buf, None),
        Poll::Pending
    );
    assert_eq!(fx.queue.len(), 1);
    assert_eq!(
        nonblocking::poll_recv_via_poll_recv_trunc(&mut fx, &mut cx, &mut buf, None),
        Poll::Ready(Ok(RecvResult::Spilled))
    );
    assert_eq!(buf.filled_part(), LONG.as_bytes());
    assert!(fx.queue.is_empty());
}

#[test]
fn polled_probe_recovers_spilled_message() {
    let mut fx = Fixture::with(&[LONG.as_bytes(), b"next"]);
    let mut buf = MsgBuf::with_capacity(6);
    let mut cx = noop_cx();
    assert_eq!(
        nonblocking::poll_recv_via_poll_try_recv(&mut fx, &mut cx, &mut buf, None),
        Poll::Ready(Ok(RecvResult::Spilled))
    );
    assert_eq!(buf.filled_part(), LONG.as_bytes());
    assert_eq!(
        nonblocking::poll_recv_via_poll_try_recv(&mut fx, &mut cx, &mut buf, None),
        Poll::Ready(Ok(RecvResult::Fit))
    );
    assert_eq!(buf.msg(), Some(&b"next"[..]));
    assert_eq!(fx.peeks, 3);
}

#[test]
fn try_recv_state_machine() {
    let mut fx = Fixture::with(&[b"abc"]);
    let mut buf = MsgBuf::with_capacity(8);
    let mut cx = noop_cx();
    let mut op = TryRecv::new();
    assert_eq!(op.state(), TryRecvState::Probing);
    // The probe stalls once, then the discard stalls once.
    fx.stalls = 1;
    assert_eq!(op.poll(&mut fx, &mut cx, &mut buf, None), Poll::Pending);
    assert_eq!(op.state(), TryRecvState::Probing);
    fx.stalls = 0;
    let mut fx2 = Fixture::with(&[b"abc"]);
    fx2.stalls = 0;
    // Probe succeeds; make the following discard stall.
    let r = {
        let mut stalling = StallDiscard(&mut fx2);
        op.poll(&mut stalling, &mut cx, &mut buf, None)
    };
    assert_eq!(r, Poll::Pending);
    assert_eq!(op.state(), TryRecvState::Discarding);
    assert_eq!(buf.msg(), Some(&b"abc"[..]));
    assert_eq!(fx2.queue.len(), 1);
    assert_eq!(op.poll(&mut fx2, &mut cx, &mut buf, None), Poll::Ready(Ok(TryRecvResult::Fit)));
    assert_eq!(op.state(), TryRecvState::Done);
    assert!(fx2.queue.is_empty());
}

/// Passes everything on to the fixture but reports that discarding cannot go on yet.
struct StallDiscard<'a>(&'a mut Fixture);

impl nonblocking::TruncatingRecvMsg for StallDiscard<'_> {
    type Error = &'static str;
    type AddrBuf = u16;

    fn poll_recv_trunc(
        &mut self,
        cx: &mut Context<'_>,
        peek: bool,
        buf: &mut MsgBuf<'_>,
        abuf: Option<&mut u16>,
    ) -> Poll<Result<Option<bool>, Self::Error>> {
        nonblocking::TruncatingRecvMsg::poll_recv_trunc(self.0, cx, peek, buf, abuf)
    }

    fn poll_discard_msg(&mut self, _cx: &mut Context<'_>) -> Poll<Result<(), Self::Error>> {
        Poll::Pending
    }
}

impl nonblocking::TruncatingRecvMsgWithFullSize for StallDiscard<'_> {
    fn poll_recv_trunc_with_full_size(
        &mut self,
        cx: &mut Context<'_>,
        peek: bool,
        buf: &mut MsgBuf<'_>,
        abuf: Option<&mut u16>,
    ) -> Poll<Result<TryRecvResult, Self::Error>> {
        nonblocking::TruncatingRecvMsgWithFullSize::poll_recv_trunc_with_full_size(
            self.0, cx, peek, buf, abuf,
        )
    }
}

#[test]
fn forwarding_through_box_and_reference() {
    let mut boxed: Box<Fixture> = Box::new(Fixture::with(&[b"boxed", b"by reference"]));
    let mut buf = MsgBuf::with_capacity(4);
    assert_eq!(recv_via_try_recv(&mut boxed, &mut buf, None), Ok(RecvResult::Spilled));
    assert_eq!(buf.msg(), Some(&b"boxed"[..]));
    let mut by_ref: &mut Fixture = &mut boxed;
    assert_eq!(recv_via_recv_trunc(&mut by_ref, &mut buf, None), Ok(RecvResult::Fit));
    assert_eq!(buf.msg(), Some(&b"by reference"[..]));
    assert_eq!(
        sync::TruncatingRecvMsg::recv_trunc(&mut by_ref, true, &mut buf, None),
        Ok(None)
    );
    let mut cx = noop_cx();
    assert_eq!(
        nonblocking::poll_recv_via_poll_try_recv(&mut boxed, &mut cx, &mut buf, None),
        Poll::Ready(Ok(RecvResult::EndOfStream))
    );
}

#[test]
fn peek_steps() {
    let mut buf = MsgBuf::with_capacity(4);
    buf.put_msg(b"abcdef");
    assert!(matches!(after_peek::<&str>(&mut buf, Ok(Some(true))), PeekStep::Commit));
    assert!(matches!(
        after_peek::<&str>(&mut buf, Ok(None)),
        PeekStep::Done(Ok(RecvResult::EndOfStream))
    ));
    assert!(matches!(after_peek::<&str>(&mut buf, Ok(Some(false))), PeekStep::Retry));
    assert_eq!(buf.capacity(), 128);
    assert_eq!(buf.len_filled(), 0);
    buf.put_msg(b"xyz");
    assert!(matches!(after_peek(&mut buf, Err("boom")), PeekStep::Done(Err("boom"))));
    assert_eq!(buf.len_filled(), 0);
    assert!(!buf.has_msg);
    buf.quota = Some(128);
    assert!(matches!(
        after_peek::<&str>(&mut buf, Ok(Some(false))),
        PeekStep::Done(Ok(RecvResult::QuotaExceeded(QuotaExceeded { quota: 128, attempted_alloc: 129 })))
    ));
    assert_eq!(after_commit::<&str>(true, Ok(())), Ok(RecvResult::Fit));
    assert_eq!(after_commit::<&str>(false, Ok(())), Ok(RecvResult::Spilled));
    assert_eq!(after_commit(false, Err("late")), Err("late"));
}

#[test]
fn probe_steps() {
    let mut buf = MsgBuf::with_capacity(4);
    buf.put_msg(b"abcdef");
    assert!(matches!(after_probe::<&str>(&mut buf, Ok(TryRecvResult::Fit)), ProbeStep::Discard));
    assert!(matches!(
        after_probe::<&str>(&mut buf, Ok(TryRecvResult::Spilled(6))),
        ProbeStep::Done(Ok(TryRecvResult::Spilled(6)))
    ));
    assert!(!buf.has_msg);
    assert_eq!(after_discard::<&str>(Ok(())), Ok(TryRecvResult::Fit));
    assert!(matches!(
        after_first_try::<&str>(&mut buf, Ok(TryRecvResult::Spilled(300))),
        SizedStep::Retry
    ));
    assert_eq!(buf.capacity(), 300);
    buf.quota = Some(400);
    assert!(matches!(
        after_first_try::<&str>(&mut buf, Ok(TryRecvResult::Spilled(500))),
        SizedStep::Done(Ok(RecvResult::QuotaExceeded(QuotaExceeded { quota: 400, attempted_alloc: 500 })))
    ));
    assert_eq!(buf.capacity(), 300);
    assert_eq!(after_second_try::<&str>(Ok(TryRecvResult::Fit)), Ok(RecvResult::Spilled));
    assert_eq!(after_second_try(Err("gone")), Err::<RecvResult, _>("gone"));
}

#[test]
fn try_recv_error_clears_buffer() {
    let mut fx = Fixture::with(&[b"abc"]);
    let mut buf = MsgBuf::from(b"old".to_vec());
    buf.set_fill(3);
    buf.has_msg = true;
    fx.fail = Some("boom");
    assert_eq!(recv_via_try_recv(&mut fx, &mut buf, None), Err("boom"));
    assert_eq!(buf.len_filled(), 0);
    assert!(!buf.has_msg);
    assert_eq!(fx.queue.len(), 1);
}
