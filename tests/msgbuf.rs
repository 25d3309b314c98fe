use recvmsg::{DynOwnedBuf, MsgBuf, QuotaExceeded};

#[test]
fn clear_and_grow() {
    let mut bufbak = [0; 1];
    let mut buf = MsgBuf::from(bufbak.as_mut());
    buf.clear_and_grow_to(2).unwrap();
    assert!(buf.capacity() >= 2);
    buf.clear_and_grow_to(309).unwrap();
    assert!(buf.capacity() >= 309);

    buf = MsgBuf::from(Vec::with_capacity(305));
    buf.clear_and_grow_to(512).unwrap();
    assert!(buf.capacity() >= 512);
    buf.clear_and_grow_to(1025).unwrap();
    assert!(buf.capacity() >= 1025);

    buf.quota = Some(256);
    assert!(buf.clear_and_grow_to(4096).is_err());
    assert!(buf.capacity() >= 1025);
    buf.quota = Some(4096);
    buf.clear_and_grow_to(4096).unwrap();
    assert!(buf.capacity() >= 4096);

    buf = MsgBuf::from(bufbak.as_mut());
    buf.quota = Some(0);
    assert!(buf.clear_and_grow_to(1).is_ok());
    assert!(buf.clear_and_grow_to(2).is_err());
}

const REF: &[u8] = b"This is the string which is to be retained";

fn retain_check(buf: &mut MsgBuf<'_>) {
    buf.grow_to(REF.len() * 64).unwrap();
    assert_eq!(buf.filled_part(), REF);
}

#[test]
fn grow_slice() {
    let mut bufbak = [0; REF.len()];
    bufbak[..REF.len()].copy_from_slice(REF);
    let mut buf = MsgBuf::from(&mut bufbak[..]);
    buf.set_fill(REF.len());
    retain_check(&mut buf);
}

#[test]
fn grow_vec() {
    let mut bufbak = Vec::new();
    bufbak.extend_from_slice(REF);
    let mut buf = MsgBuf::from(bufbak);
    buf.set_fill(REF.len());
    retain_check(&mut buf);
}

#[test]
fn extend() {
    let mut bufbak = [0u8; 10];
    let mut buf = MsgBuf::from(bufbak.as_mut());
    buf.extend_from_slice(&[1; 10]).unwrap();
    assert_eq!(buf.len_filled(), 10);
}

#[test]
fn drop() {
    // One tebibyte.
    for _ in 0..32768 {
        let _ = MsgBuf::with_capacity(1024 * 1024 * 32);
    }
}

#[test]
fn borrowed_region_cursors() {
    let mut arr = [0u8; 32];
    let buf = MsgBuf::from(arr.as_mut());
    assert_eq!(buf.capacity(), 32);
    assert_eq!(buf.len_init(), 32);
    assert_eq!(buf.len_filled(), 0);
    assert_eq!(buf.len_unfilled(), 32);
    assert_eq!(buf.len_uninit(), 0);
    assert_eq!(buf.len_init_but_unfilled(), 32);
    assert!(!buf.has_msg);
    assert!(buf.msg().is_none());
}

#[test]
fn vec_capacity_and_cursors() {
    let mut vec = Vec::with_capacity(32);
    vec.resize(6, 7u8);
    let buf = MsgBuf::from(vec);
    assert!(buf.capacity() >= 32);
    assert_eq!(buf.len_init(), 6);
    assert_eq!(buf.len_filled(), 0);
    assert_eq!(buf.init_part(), &[7u8; 6]);
    assert_eq!(buf.len_uninit(), buf.capacity() - 6);
}

#[test]
fn with_capacity_is_uninitialized() {
    let buf = MsgBuf::with_capacity(31);
    assert_eq!(buf.capacity(), 31);
    assert_eq!(buf.len_init(), 0);
    assert_eq!(buf.len_filled(), 0);
    assert!(!buf.has_msg);
    assert!(buf.quota.is_none());
}

#[test]
fn amortized_growth_amounts() {
    // Small buffers grow to the minimum step.
    let mut buf = MsgBuf::with_capacity(10);
    buf.grow_to(11).unwrap();
    assert_eq!(buf.capacity(), 128);
    // Growth at least doubles.
    buf.grow().unwrap();
    assert_eq!(buf.capacity(), 256);
    // A large target is taken as it is.
    buf.grow_to(1000).unwrap();
    assert_eq!(buf.capacity(), 1000);
    // The quota clamps the doubling.
    buf.quota = Some(1500);
    buf.grow_to(1001).unwrap();
    assert_eq!(buf.capacity(), 1500);
    // No growth where the capacity suffices.
    buf.grow_to(3).unwrap();
    assert_eq!(buf.capacity(), 1500);
}

#[test]
fn quota_error_leaves_buffer_alone() {
    let mut arr = *b"abcdefgh";
    let mut buf = MsgBuf::from(arr.as_mut());
    buf.set_fill(5);
    buf.quota = Some(6);
    let err = buf.grow_to(9).unwrap_err();
    assert_eq!(err, QuotaExceeded { quota: 6, attempted_alloc: 9 });
    assert_eq!(buf.capacity(), 8);
    assert_eq!(buf.filled_part(), b"abcde");
    assert!(buf.take_borrowed().is_some());
}

#[test]
fn quota_zero_forbids_growth() {
    let mut buf = MsgBuf::with_capacity(4);
    buf.quota = Some(0);
    assert!(buf.grow_to(4).is_ok());
    assert_eq!(buf.grow(), Err(QuotaExceeded { quota: 0, attempted_alloc: 5 }));
    assert_eq!(buf.capacity(), 4);
}

#[test]
fn borrowed_growth_becomes_owned() {
    let mut arr = *b"hello world";
    {
        let mut buf = MsgBuf::from(arr.as_mut());
        buf.set_fill(5);
        buf.has_msg = true;
        buf.quota = Some(1000);
        buf.grow_to(12).unwrap();
        assert_eq!(buf.capacity(), 128);
        assert_eq!(buf.filled_part(), b"hello");
        assert_eq!(buf.len_init(), 5);
        assert!(buf.has_msg);
        assert_eq!(buf.quota, Some(1000));
        // Owned now: the region is no longer lent out.
        assert!(buf.take_borrowed().is_none());
        let owned = buf.take_owned().unwrap();
        assert_eq!(owned.as_raw_parts().cap, 128);
        assert_eq!(owned.as_raw_parts().init, 5);
        assert_eq!(buf.capacity(), 0);
        assert!(!buf.has_msg);
    }
    assert_eq!(&arr, b"hello world");
}

#[test]
fn clear_and_grow_discards_filled() {
    let mut buf = MsgBuf::from(b"abc".to_vec());
    buf.set_fill(3);
    buf.clear_and_grow_to(200).unwrap();
    assert_eq!(buf.len_filled(), 0);
    assert_eq!(buf.len_init(), 0);
    assert!(buf.capacity() >= 200);
}

#[test]
fn put_msg_truncates_to_capacity() {
    let mut arr = [0u8; 4];
    let mut buf = MsgBuf::from(arr.as_mut());
    assert!(!buf.put_msg(b"abcdef"));
    assert_eq!(buf.msg(), Some(&b"abcd"[..]));
    assert!(buf.put_msg(b"xy"));
    assert_eq!(buf.msg(), Some(&b"xy"[..]));
    assert_eq!(buf.len_init(), 4);
    buf.clear_msg();
    assert_eq!(buf.msg(), None);
    assert_eq!(buf.len_filled(), 0);
}

#[test]
fn extend_grows_and_appends() {
    let mut arr = *b"ab";
    let mut buf = MsgBuf::from(arr.as_mut());
    buf.set_fill(2);
    buf.quota = Some(4);
    assert_eq!(
        buf.extend_from_slice(b"cde"),
        Err(QuotaExceeded { quota: 4, attempted_alloc: 5 })
    );
    assert_eq!(buf.filled_part(), b"ab");
    buf.quota = None;
    buf.extend_from_slice(b"cde").unwrap();
    assert_eq!(buf.filled_part(), b"abcde");
}

#[test]
fn cursor_setters() {
    let mut buf = MsgBuf::with_capacity(16);
    buf.advance_init_to(8);
    assert_eq!(buf.len_init(), 8);
    buf.advance_init_to(4);
    assert_eq!(buf.len_init(), 8);
    buf.advance_init_and_set_fill(10);
    assert_eq!((buf.len_init(), buf.len_filled()), (10, 10));
    buf.set_init(12);
    assert_eq!(buf.len_init(), 12);
    buf.fully_initialize();
    assert_eq!(buf.len_init(), 16);
    assert_eq!(buf.len_uninit(), 0);
}

#[test]
fn lifetime_extension() {
    let mut arr = [0u8; 3];
    let buf = MsgBuf::from(arr.as_mut());
    let buf = buf.try_extend_lifetime().unwrap_err();
    let owned = buf.make_owned();
    assert_eq!(owned.capacity(), 3);
    assert_eq!(owned.len_init(), 0);

    let mut empty: [u8; 0] = [];
    let buf = MsgBuf::from(&mut empty[..]);
    assert!(buf.try_extend_lifetime().is_ok());

    let mut v = MsgBuf::from(b"xyz".to_vec());
    v.set_fill(2);
    let v = v.try_extend_lifetime().unwrap();
    assert_eq!(v.filled_part(), b"xy");
}

#[test]
fn owned_buffers() {
    let mut dynbuf = DynOwnedBuf::new(b"abc".to_vec());
    assert_eq!(dynbuf.as_raw_parts().init, 3);
    dynbuf.grow(64);
    assert!(dynbuf.as_raw_parts().cap >= 64);
    let taken = dynbuf.take();
    assert_eq!(dynbuf.as_raw_parts().cap, 0);
    let buf = MsgBuf::new_owned_dyn(taken);
    assert_eq!(buf.init_part(), b"abc");
    let fresh = DynOwnedBuf::with_capacity(5);
    assert_eq!(fresh.as_raw_parts().cap, 5);
    assert_eq!(MsgBuf::default().capacity(), 0);
}

#[test]
fn mutable_parts() {
    let mut arr = *b"abcdefgh";
    let mut buf = MsgBuf::from(arr.as_mut());
    buf.set_init(6);
    buf.set_fill(2);
    buf.filled_part_mut().copy_from_slice(b"XY");
    buf.init_but_unfilled_part_mut().copy_from_slice(b"1234");
    assert_eq!(buf.init_part(), b"XY1234");
    assert_eq!(buf.uninit_part().len(), 2);
    buf.uninit_part().copy_from_slice(b"!?");
    buf.init_part_mut()[0] = b'x';
    let unfilled = buf.unfilled_part();
    assert_eq!(unfilled, b"1234!?");
    unfilled[..3].copy_from_slice(b"pqr");
    buf.advance_init_and_set_fill(5);
    assert_eq!(buf.filled_part(), b"xYpqr");
    assert_eq!(buf.len_init(), 6);
    std::mem::drop(buf);
    assert_eq!(&arr, b"xYpqr4!?");
}
