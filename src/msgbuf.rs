//! The message reception buffer: a borrowed or owned region with cursors, grown under a quota.
use crate::owned::{DynOwnedBuf, OwnedBuf};
use vstd::prelude::*;
use vstd::slice::slice_subrange;

verus! {

/// The smallest capacity that an amortized growth step allocates, so that tiny buffers are not
/// reallocated over and over.
pub const MIN_GROWN_CAP: usize = 128;

/// The largest capacity that a buffer without a quota may grow to.
pub const MAX_CAP: usize = isize::MAX as usize;

/// Error indicating that a buffer's memory quota was exceeded by a growth request.
#[derive(Copy, Clone, Debug, PartialEq, Eq)]
pub struct QuotaExceeded {
    /// The quota the buffer had at the time of the error.
    pub quota: usize,
    /// The capacity which the buffer was to attain (never zero).
    pub attempted_alloc: usize,
}

/// The memory behind a buffer: a region the caller lends, or an allocation of the buffer's own.
#[derive(Debug)]
enum Storage<'a> {
    Borrowed(&'a mut [u8]),
    Owned(Vec<u8>),
}

/// A message reception buffer that either borrows a caller's region or owns a heap allocation.
///
/// The buffer has a capacity (the length of its region) and two cursors counted from its start:
/// the initialization cursor, below which bytes are meaningful, and the fill cursor, below which
/// bytes form the current message. The fill cursor never passes the initialization cursor, which
/// never passes the capacity.
#[derive(Debug)]
pub struct MsgBuf<'a> {
    storage: Storage<'a>,
    init: usize,
    fill: usize,
    /// Whether the filled part holds a received (possibly truncated) message. Set to `false` to
    /// invalidate the stored data.
    pub has_msg: bool,
    /// Highest capacity that growth may allocate. `Some(0)` forbids allocation altogether.
    pub quota: Option<usize>,
}

/// What a [`MsgBuf`] holds, as plain values.
pub struct MsgBufView {
    /// The whole region, as long as the capacity.
    pub bytes: Seq<u8>,
    pub init: nat,
    pub fill: nat,
    /// Whether the region is lent by the caller.
    pub borrowed: bool,
    pub has_msg: bool,
    pub quota: Option<usize>,
}

impl MsgBufView {
    pub open spec fn cap(self) -> nat {
        self.bytes.len()
    }

    /// The cursor invariant.
    pub open spec fn wf(self) -> bool {
        self.fill <= self.init <= self.cap()
    }

    /// The current message content.
    pub open spec fn filled(self) -> Seq<u8> {
        self.bytes.take(self.fill as int)
    }

    /// Whether the buffer may outlive the region it was made from: it owns its memory, or it
    /// has none.
    pub open spec fn detachable(self) -> bool {
        !self.borrowed || self.cap() == 0
    }
}

/// The largest capacity that growth may reach under the given quota.
pub open spec fn quota_limit(quota: Option<usize>) -> nat {
    match quota {
        Some(q) => q as nat,
        None => MAX_CAP as nat,
    }
}

pub open spec fn max_nat(a: nat, b: nat) -> nat {
    if a >= b { a } else { b }
}

pub open spec fn min_nat(a: nat, b: nat) -> nat {
    if a <= b { a } else { b }
}

/// The capacity that amortized growth picks for a buffer of capacity `cap` that must reach
/// `target`: at least double the old capacity and at least [`MIN_GROWN_CAP`], clamped to the
/// quota.
pub open spec fn amortized_cap(cap: nat, target: nat, quota: Option<usize>) -> nat {
    min_nat(max_nat(max_nat(target, 2 * cap), MIN_GROWN_CAP as nat), quota_limit(quota))
}

impl<'a> View for MsgBuf<'a> {
    type V = MsgBufView;

    closed spec fn view(&self) -> MsgBufView {
        MsgBufView {
            bytes: match &self.storage {
                Storage::Borrowed(s) => s@,
                Storage::Owned(v) => v@,
            },
            init: self.init as nat,
            fill: self.fill as nat,
            borrowed: self.storage is Borrowed,
            has_msg: self.has_msg,
            quota: self.quota,
        }
    }
}

/// Capacity and cursors.
impl<'a> MsgBuf<'a> {
    /// Returns the buffer's total capacity, including the already filled part.
    pub fn capacity(&self) -> (r: usize)
        ensures
            r == self@.cap(),
    {
        match &self.storage {
            Storage::Borrowed(s) => s.len(),
            Storage::Owned(v) => v.len(),
        }
    }

    /// Returns the length of the filled part.
    pub fn len_filled(&self) -> (r: usize)
        ensures
            r == self@.fill,
    {
        self.fill
    }

    /// Returns the length of the initialized part.
    pub fn len_init(&self) -> (r: usize)
        ensures
            r == self@.init,
    {
        self.init
    }

    /// Returns the length of the part that is initialized but not filled.
    pub fn len_init_but_unfilled(&self) -> (r: usize)
        requires
            self@.wf(),
        ensures
            r == self@.init - self@.fill,
    {
        self.init - self.fill
    }

    /// Returns the length of the unfilled part, the uninitialized part included.
    pub fn len_unfilled(&self) -> (r: usize)
        requires
            self@.wf(),
        ensures
            r == self@.cap() - self@.fill,
    {
        self.capacity() - self.fill
    }

    /// Returns the length of the uninitialized part.
    pub fn len_uninit(&self) -> (r: usize)
        requires
            self@.wf(),
        ensures
            r == self@.cap() - self@.init,
    {
        self.capacity() - self.init
    }

    /// Sets the quota, which takes effect at the next growth.
    pub fn set_quota(&mut self, quota: Option<usize>)
        ensures
            final(self)@ == (MsgBufView { quota, ..old(self)@ }),
    {
        self.quota = quota;
    }

    /// Empties the filled part and marks the buffer as holding no message.
    pub fn clear_msg(&mut self)
        requires
            old(self)@.wf(),
        ensures
            final(self)@ == (MsgBufView { fill: 0, has_msg: false, ..old(self)@ }),
    {
        self.fill = 0;
        self.has_msg = false;
    }

    /// Sets the fill cursor. The new value may not exceed the initialization cursor.
    pub fn set_fill(&mut self, new_len: usize)
        requires
            old(self)@.wf(),
            new_len <= old(self)@.init,
        ensures
            final(self)@ == (MsgBufView { fill: new_len as nat, ..old(self)@ }),
    {
        self.fill = new_len;
    }
}

/// Construction.
impl<'a> MsgBuf<'a> {
    /// A buffer over a region lent by the caller, whose bytes all count as initialized.
    pub fn from_borrowed(region: &'a mut [u8]) -> (r: MsgBuf<'a>)
        ensures
            r@.wf(),
            r@.bytes == old(region)@,
            r@.init == r@.cap(),
            r@.fill == 0,
            r@.borrowed,
            !r@.has_msg,
            r@.quota is None,
    {
        let init = region.len();
        MsgBuf { storage: Storage::Borrowed(region), init, fill: 0, has_msg: false, quota: None }
    }

    /// A buffer that takes over an owned buffer, keeping its initialized bytes.
    pub fn new_owned<Owned: OwnedBuf>(buf: Owned) -> (r: MsgBuf<'a>)
        ensures
            r@.wf(),
            r@.bytes.take(r@.init as int) == buf.initialized(),
            r@.fill == 0,
            !r@.borrowed,
            !r@.has_msg,
            r@.quota is None,
    {
        Self::new_owned_dyn(DynOwnedBuf::new(buf))
    }

    /// A buffer that takes over an owned allocation, with the same capacity and initialization
    /// cursor, and no quota.
    pub fn new_owned_dyn(buf: DynOwnedBuf) -> (r: MsgBuf<'a>)
        ensures
            r@.wf(),
            r@.bytes == buf@.bytes,
            r@.init == buf@.init,
            r@.fill == 0,
            !r@.borrowed,
            !r@.has_msg,
            r@.quota is None,
    {
        let (bytes, init) = buf.into_parts();
        MsgBuf { storage: Storage::Owned(bytes), init, fill: 0, has_msg: false, quota: None }
    }

    /// A buffer that owns a fresh allocation of the given capacity, with nothing initialized.
    pub fn with_capacity(cap: usize) -> (r: MsgBuf<'a>)
        ensures
            r@.wf(),
            r@.cap() == cap,
            r@.init == 0,
            r@.fill == 0,
            !r@.borrowed,
            !r@.has_msg,
            r@.quota is None,
    {
        Self::new_owned_dyn(DynOwnedBuf::with_capacity(cap))
    }

    /// An empty owned buffer.
    pub fn empty() -> (r: MsgBuf<'a>)
        ensures
            r@.wf(),
            r@.cap() == 0,
            r@.init == 0,
            r@.fill == 0,
            !r@.borrowed,
            !r@.has_msg,
            r@.quota is None,
    {
        MsgBuf { storage: Storage::Owned(Vec::new()), init: 0, fill: 0, has_msg: false, quota: None }
    }
}

impl<'a> Default for MsgBuf<'a> {
    /// An empty owned buffer.
    fn default() -> (r: Self)
        ensures
            r@.wf(),
            r@.cap() == 0,
            r@.fill == 0,
            !r@.borrowed,
            !r@.has_msg,
            r@.quota is None,
    {
        Self::empty()
    }
}

/// Growth.
impl<'a> MsgBuf<'a> {
    /// The largest capacity that growth may reach: the quota, or [`MAX_CAP`] without one.
    pub(crate) fn effective_quota(&self) -> (r: usize)
        ensures
            r == quota_limit(self@.quota),
    {
        match self.quota {
            Some(q) => q,
            None => MAX_CAP,
        }
    }

    /// Picks the new capacity for growth to `target`, or fails if the quota forbids it.
    fn plan_grow_amortized(&self, target: usize) -> (r: Result<usize, QuotaExceeded>)
        requires
            self@.wf(),
        ensures
            target > quota_limit(self@.quota) ==> r == Err::<usize, QuotaExceeded>(
                QuotaExceeded {
                    quota: quota_limit(self@.quota) as usize,
                    attempted_alloc: target,
                },
            ),
            target <= quota_limit(self@.quota) ==> r == Ok::<usize, QuotaExceeded>(
                amortized_cap(self@.cap(), target as nat, self@.quota) as usize,
            ),
    {
        let quota = self.effective_quota();
        let cap = self.capacity();
        let doubled = if cap > usize::MAX / 2 {
            usize::MAX
        } else {
            cap * 2
        };
        let grown_wrt_cap = if target >= doubled {
            target
        } else {
            doubled
        };
        let grown = if grown_wrt_cap >= MIN_GROWN_CAP {
            grown_wrt_cap
        } else {
            MIN_GROWN_CAP
        };
        let new_cap = if grown <= quota {
            grown
        } else {
            quota
        };
        if new_cap < target {
            Err(QuotaExceeded { quota, attempted_alloc: target })
        } else {
            Ok(new_cap)
        }
    }

    /// Ensures that the buffer has at least the given capacity, keeping its content up to the
    /// fill cursor. Growth picks the capacity by [`amortized_cap`], moves a borrowed buffer to an
    /// allocation of its own, and fails without any change where the quota forbids it.
    pub fn grow_to(&mut self, new_cap: usize) -> (r: Result<(), QuotaExceeded>)
        requires
            old(self)@.wf(),
        ensures
            final(self)@.wf(),
            grow_outcome(old(self)@, new_cap as nat, final(self)@, r),
    {
        let old_cap = self.capacity();
        let fill = self.fill;
        if new_cap <= old_cap {
            return Ok(());
        }
        let n = match self.plan_grow_amortized(new_cap) {
            Ok(n) => n,
            Err(e) => return Err(e),
        };
        let mut st = Storage::Owned(Vec::new());
        core::mem::swap(&mut self.storage, &mut st);
        let bytes = match st {
            Storage::Borrowed(s) => {
                if fill == 0 {
                    vec![0u8; n]
                } else {
                    let mut v: Vec<u8> = Vec::new();
                    v.extend_from_slice(slice_subrange(&*s, 0, fill));
                    v.resize(n, 0);
                    v
                }
            },
            Storage::Owned(v) => {
                if v.len() == 0 {
                    vec![0u8; n]
                } else {
                    let mut v = v;
                    v.resize(n, 0);
                    v
                }
            },
        };
        self.storage = Storage::Owned(bytes);
        self.init = fill;
        proof {
            assert(self@.filled() =~= old(self)@.filled());
        }
        Ok(())
    }

    /// Discards the filled part and ensures that the buffer has at least the given capacity.
    pub fn clear_and_grow_to(&mut self, new_cap: usize) -> (r: Result<(), QuotaExceeded>)
        requires
            old(self)@.wf(),
        ensures
            final(self)@.wf(),
            grow_outcome(MsgBufView { fill: 0, ..old(self)@ }, new_cap as nat, final(self)@, r),
    {
        self.set_fill(0);
        self.grow_to(new_cap)
    }

    /// Grows the buffer by an unspecified amount, keeping its content up to the fill cursor.
    /// Fails only if the capacity already equals the quota.
    pub fn grow(&mut self) -> (r: Result<(), QuotaExceeded>)
        requires
            old(self)@.wf(),
            old(self)@.cap() < usize::MAX,
        ensures
            final(self)@.wf(),
            grow_outcome(old(self)@, old(self)@.cap() + 1, final(self)@, r),
    {
        let target = self.capacity() + 1;
        self.grow_to(target)
    }

    /// Same as [`grow`](Self::grow), but discards the filled part.
    pub fn clear_and_grow(&mut self) -> (r: Result<(), QuotaExceeded>)
        requires
            old(self)@.wf(),
            old(self)@.cap() < usize::MAX,
        ensures
            final(self)@.wf(),
            grow_outcome(
                MsgBufView { fill: 0, ..old(self)@ },
                old(self)@.cap() + 1,
                final(self)@,
                r,
            ),
    {
        let target = self.capacity() + 1;
        self.clear_and_grow_to(target)
    }
}

/// What growth of the buffer `pre` to capacity `target` leaves: nothing changes where the
/// capacity suffices; an error and nothing changed where the quota is below the target; else a
/// buffer that owns an allocation of the amortized capacity, with the same filled part, the
/// initialization cursor at the fill cursor, and the same flags.
pub open spec fn grow_outcome(
    pre: MsgBufView,
    target: nat,
    post: MsgBufView,
    r: Result<(), QuotaExceeded>,
) -> bool {
    if target <= pre.cap() {
        r is Ok && post == pre
    } else if target > quota_limit(pre.quota) {
        r == Err::<(), QuotaExceeded>(
            QuotaExceeded { quota: quota_limit(pre.quota) as usize, attempted_alloc: target as usize },
        ) && post == pre
    } else {
        &&& r is Ok
        &&& post.cap() == amortized_cap(pre.cap(), target, pre.quota)
        &&& !post.borrowed
        &&& post.fill == pre.fill
        &&& post.init == pre.fill
        &&& post.filled() == pre.filled()
        &&& post.has_msg == pre.has_msg
        &&& post.quota == pre.quota
    }
}

/// Writing and reading.
impl<'a> MsgBuf<'a> {
    /// The whole region, for writing.
    fn region_mut(&mut self) -> (r: &mut [u8])
        ensures
            r@ == old(self)@.bytes,
            final(self)@ == (MsgBufView { bytes: final(r)@, ..old(self)@ }),
    {
        match &mut self.storage {
            Storage::Borrowed(s) => &mut **s,
            Storage::Owned(v) => v.as_mut_slice(),
        }
    }

    /// The whole region, for reading.
    fn region(&self) -> (r: &[u8])
        ensures
            r@ == self@.bytes,
    {
        match &self.storage {
            Storage::Borrowed(s) => &**s,
            Storage::Owned(v) => v.as_slice(),
        }
    }

    /// Stores a received message: copies as much of `msg` as the capacity holds to the start of
    /// the buffer, sets the fill cursor to the stored length, advances the initialization cursor
    /// to it and marks the buffer as holding a message. Returns whether the whole message fit.
    pub fn put_msg(&mut self, msg: &[u8]) -> (fit: bool)
        requires
            old(self)@.wf(),
        ensures
            final(self)@.wf(),
            fit == (msg@.len() <= old(self)@.cap()),
            final(self)@ == stored_msg(old(self)@, msg@),
    {
        let cap = self.capacity();
        let n = if msg.len() <= cap {
            msg.len()
        } else {
            cap
        };
        let region = self.region_mut();
        copy_at(region, 0, msg, n);
        self.fill = n;
        if self.init < n {
            self.init = n;
        }
        self.has_msg = true;
        proof {
            assert(self@.bytes =~= stored_msg(old(self)@, msg@).bytes);
        }
        msg.len() <= cap
    }

    /// Appends `data` to the filled part, growing the buffer as [`grow_to`](Self::grow_to) does
    /// if it is too small.
    pub fn extend_from_slice(&mut self, data: &[u8]) -> (r: Result<(), QuotaExceeded>)
        requires
            old(self)@.wf(),
            old(self)@.fill + data@.len() <= usize::MAX,
        ensures
            final(self)@.wf(),
            ({
                let target = old(self)@.fill + data@.len();
                match r {
                    Ok(()) => {
                        &&& target <= old(self)@.cap() || target <= quota_limit(old(self)@.quota)
                        &&& final(self)@.filled() == old(self)@.filled() + data@
                        &&& final(self)@.has_msg == old(self)@.has_msg
                        &&& final(self)@.quota == old(self)@.quota
                        &&& final(self)@.cap() >= target
                    },
                    Err(e) => {
                        &&& target > old(self)@.cap()
                        &&& target > quota_limit(old(self)@.quota)
                        &&& e == QuotaExceeded {
                            quota: quota_limit(old(self)@.quota) as usize,
                            attempted_alloc: target as usize,
                        }
                        &&& final(self)@ == old(self)@
                    },
                }
            }),
    {
        let fill = self.fill;
        let new_len = fill + data.len();
        match self.grow_to(new_len) {
            Ok(()) => {},
            Err(e) => return Err(e),
        }
        let ghost grown = self@;
        let region = self.region_mut();
        copy_at(region, fill, data, data.len());
        if self.init < new_len {
            self.init = new_len;
        }
        self.fill = new_len;
        proof {
            assert(self@.filled() =~= old(self)@.filled() + data@) by {
                assert(grown.filled() == old(self)@.filled());
                assert(self@.bytes.take(fill as int) =~= grown.bytes.take(fill as int));
            }
        }
        Ok(())
    }

    /// Returns the most recently received message, if the buffer holds one.
    pub fn msg(&self) -> (r: Option<&[u8]>)
        requires
            self@.wf(),
        ensures
            self@.has_msg ==> (r matches Some(m) && m@ == self@.filled()),
            !self@.has_msg ==> r is None,
    {
        if self.has_msg {
            Some(self.filled_part())
        } else {
            None
        }
    }

    /// Borrows the filled part.
    pub fn filled_part(&self) -> (r: &[u8])
        requires
            self@.wf(),
        ensures
            r@ == self@.filled(),
    {
        slice_subrange(self.region(), 0, self.fill)
    }

    /// Borrows the initialized part.
    pub fn init_part(&self) -> (r: &[u8])
        requires
            self@.wf(),
        ensures
            r@ == self@.bytes.take(self@.init as int),
    {
        slice_subrange(self.region(), 0, self.init)
    }

    /// Borrows the unfilled part, for writing. Writing there moves no cursor: a writer that
    /// stores a message sets them afterwards with
    /// [`advance_init_and_set_fill`](Self::advance_init_and_set_fill).
    pub fn unfilled_part(&mut self) -> (r: &mut [u8])
        requires
            old(self)@.wf(),
        ensures
            r@ == old(self)@.bytes.skip(old(self)@.fill as int),
            final(self)@ == (MsgBufView {
                bytes: old(self)@.bytes.take(old(self)@.fill as int) + final(r)@,
                ..old(self)@
            }),
    {
        let fill = self.fill;
        let region = self.region_mut();
        let (_, rest) = region.split_at_mut(fill);
        rest
    }

    /// Borrows the filled part, for writing.
    pub fn filled_part_mut(&mut self) -> (r: &mut [u8])
        requires
            old(self)@.wf(),
        ensures
            r@ == old(self)@.filled(),
            final(self)@ == (MsgBufView {
                bytes: final(r)@ + old(self)@.bytes.skip(old(self)@.fill as int),
                ..old(self)@
            }),
    {
        let fill = self.fill;
        let region = self.region_mut();
        let (filled, _) = region.split_at_mut(fill);
        filled
    }

    /// Borrows the initialized part, for writing.
    pub fn init_part_mut(&mut self) -> (r: &mut [u8])
        requires
            old(self)@.wf(),
        ensures
            r@ == old(self)@.bytes.take(old(self)@.init as int),
            final(self)@ == (MsgBufView {
                bytes: final(r)@ + old(self)@.bytes.skip(old(self)@.init as int),
                ..old(self)@
            }),
    {
        let init = self.init;
        let region = self.region_mut();
        let (initialized, _) = region.split_at_mut(init);
        initialized
    }

    /// Borrows the part that is initialized but not filled, for writing.
    pub fn init_but_unfilled_part_mut(&mut self) -> (r: &mut [u8])
        requires
            old(self)@.wf(),
        ensures
            r@ == old(self)@.bytes.subrange(old(self)@.fill as int, old(self)@.init as int),
            final(self)@ == (MsgBufView {
                bytes: old(self)@.filled() + final(r)@ + old(self)@.bytes.skip(
                    old(self)@.init as int,
                ),
                ..old(self)@
            }),
    {
        let fill = self.fill;
        let init = self.init;
        let region = self.region_mut();
        let (initialized, _) = region.split_at_mut(init);
        proof {
            assert(initialized@.subrange(0, fill as int) =~= old(self)@.filled());
        }
        let (_, unfilled) = initialized.split_at_mut(fill);
        unfilled
    }

    /// Borrows the uninitialized part, for writing. Writing there moves no cursor.
    pub fn uninit_part(&mut self) -> (r: &mut [u8])
        requires
            old(self)@.wf(),
        ensures
            r@ == old(self)@.bytes.skip(old(self)@.init as int),
            final(self)@ == (MsgBufView {
                bytes: old(self)@.bytes.take(old(self)@.init as int) + final(r)@,
                ..old(self)@
            }),
    {
        let init = self.init;
        let region = self.region_mut();
        let (_, rest) = region.split_at_mut(init);
        rest
    }

    /// Fills the uninitialized part with zeroes and counts the whole buffer as initialized.
    pub fn fully_initialize(&mut self)
        requires
            old(self)@.wf(),
        ensures
            final(self)@.wf(),
            final(self)@.init == final(self)@.cap(),
            final(self)@.bytes.take(old(self)@.init as int) == old(self)@.bytes.take(
                old(self)@.init as int,
            ),
            forall|i: int| old(self)@.init <= i < final(self)@.cap() ==> final(self)@.bytes[i] == 0,
            final(self)@.cap() == old(self)@.cap(),
            final(self)@.fill == old(self)@.fill,
            final(self)@.borrowed == old(self)@.borrowed,
            final(self)@.has_msg == old(self)@.has_msg,
            final(self)@.quota == old(self)@.quota,
    {
        let init = self.init;
        let region = self.region_mut();
        let len = region.len();
        let mut i: usize = init;
        while i < len
            invariant
                init <= i <= len,
                len == region@.len(),
                region@.len() == old(self)@.bytes.len(),
                region@.take(init as int) == old(self)@.bytes.take(init as int),
                forall|j: int| init <= j < i ==> region@[j] == 0,
            decreases len - i,
        {
            region[i] = 0;
            i = i + 1;
        }
        self.init = len;
    }

    /// Sets the initialization cursor, which may not fall below the fill cursor nor pass the
    /// capacity.
    pub fn set_init(&mut self, new_init: usize)
        requires
            old(self)@.wf(),
            old(self)@.fill <= new_init <= old(self)@.cap(),
        ensures
            final(self)@ == (MsgBufView { init: new_init as nat, ..old(self)@ }),
    {
        self.init = new_init;
    }

    /// Advances the initialization cursor to the given value, doing nothing if it is already
    /// further.
    pub fn advance_init_to(&mut self, new_init: usize)
        requires
            old(self)@.wf(),
            new_init <= old(self)@.cap(),
        ensures
            final(self)@ == (MsgBufView {
                init: max_nat(old(self)@.init, new_init as nat),
                ..old(self)@
            }),
    {
        if self.init < new_init {
            self.init = new_init;
        }
    }

    /// Advances the initialization cursor to the given value and sets the fill cursor to it.
    pub fn advance_init_and_set_fill(&mut self, new_cur: usize)
        requires
            old(self)@.wf(),
            new_cur <= old(self)@.cap(),
        ensures
            final(self)@ == (MsgBufView {
                init: max_nat(old(self)@.init, new_cur as nat),
                fill: new_cur as nat,
                ..old(self)@
            }),
    {
        self.advance_init_to(new_cur);
        self.set_fill(new_cur);
    }
}

/// The buffer after a message is stored in it (see [`MsgBuf::put_msg`]).
pub open spec fn stored_msg(pre: MsgBufView, msg: Seq<u8>) -> MsgBufView {
    let n = min_nat(msg.len(), pre.cap());
    MsgBufView {
        bytes: msg.take(n as int) + pre.bytes.skip(n as int),
        init: max_nat(pre.init, n),
        fill: n,
        has_msg: true,
        ..pre
    }
}

/// A stored message that fit is the filled part, whole; one that did not is truncated to the
/// capacity.
pub proof fn lemma_stored_msg(pre: MsgBufView, msg: Seq<u8>)
    requires
        pre.wf(),
    ensures
        stored_msg(pre, msg).wf(),
        stored_msg(pre, msg).cap() == pre.cap(),
        msg.len() <= pre.cap() ==> stored_msg(pre, msg).filled() == msg,
        stored_msg(pre, msg).filled() == msg.take(min_nat(msg.len(), pre.cap()) as int),
{
    let n = min_nat(msg.len(), pre.cap());
    let post = stored_msg(pre, msg);
    assert(post.filled() =~= msg.take(n as int));
    if msg.len() <= pre.cap() {
        assert(msg.take(n as int) =~= msg);
    }
}

/// Copies the first `n` bytes of `src` into `dst` at offset `at`.
fn copy_at(dst: &mut [u8], at: usize, src: &[u8], n: usize)
    requires
        n <= src@.len(),
        at + n <= old(dst)@.len(),
    ensures
        final(dst)@ == old(dst)@.take(at as int) + src@.take(n as int) + old(dst)@.skip(
            (at + n) as int,
        ),
{
    let len = dst.len();
    let mut i: usize = 0;
    while i < n
        invariant
            i <= n,
            n <= src@.len(),
            at + n <= len,
            len == dst@.len(),
            len == old(dst)@.len(),
            dst@ =~= old(dst)@.take(at as int) + src@.take(i as int) + old(dst)@.skip(
                (at + i) as int,
            ),
        decreases n - i,
    {
        let ghost prev = dst@;
        dst[at + i] = src[i];
        proof {
            assert(dst@ == prev.update(at + i, src@[i as int]));
            assert(dst@ =~= old(dst)@.take(at as int) + src@.take(i + 1) + old(dst)@.skip(
                at + i + 1,
            ));
        }
        i = i + 1;
    }
}

/// Ownership and lifetime.
impl<'a> MsgBuf<'a> {
    /// Takes the owned allocation, leaving the buffer empty and owned. Returns `None`, leaving
    /// the buffer as it was, if the buffer is borrowed and not empty.
    pub fn take_owned(&mut self) -> (r: Option<DynOwnedBuf>)
        requires
            old(self)@.wf(),
        ensures
            final(self)@.wf(),
            old(self)@.detachable() ==> {
                &&& r matches Some(o) && o@.bytes == old(self)@.bytes && o@.init == old(self)@.init
                &&& final(self)@ == emptied(old(self)@)
            },
            !old(self)@.detachable() ==> r is None && final(self)@ == old(self)@,
    {
        if self.is_borrowed() && self.capacity() > 0 {
            return None;
        }
        let init = self.init;
        let mut st = Storage::Owned(Vec::new());
        core::mem::swap(&mut self.storage, &mut st);
        self.forget_in_place();
        match st {
            Storage::Borrowed(_) => Some(DynOwnedBuf::default()),
            Storage::Owned(v) => Some(DynOwnedBuf::from_parts(v, init)),
        }
    }

    /// Takes the lent region, leaving the buffer empty and owned. Returns `None`, leaving the
    /// buffer as it was, if the buffer owns its memory and is not empty.
    pub fn take_borrowed(&mut self) -> (r: Option<&'a mut [u8]>)
        requires
            old(self)@.wf(),
        ensures
            final(self)@.wf(),
            (old(self)@.borrowed || old(self)@.cap() == 0) ==> {
                &&& r matches Some(s) && s@ == old(self)@.bytes
                &&& final(self)@ == emptied(old(self)@)
            },
            !(old(self)@.borrowed || old(self)@.cap() == 0) ==> r is None && final(self)@ == old(
                self,
            )@,
    {
        if !self.is_borrowed() && self.capacity() > 0 {
            return None;
        }
        let mut st = Storage::Owned(Vec::new());
        core::mem::swap(&mut self.storage, &mut st);
        self.forget_in_place();
        match st {
            Storage::Borrowed(s) => Some(s),
            Storage::Owned(_) => Some(&mut []),
        }
    }

    fn is_borrowed(&self) -> (r: bool)
        ensures
            r == self@.borrowed,
    {
        match &self.storage {
            Storage::Borrowed(_) => true,
            Storage::Owned(_) => false,
        }
    }

    /// Clears the cursors and the message flag of a buffer left without memory.
    fn forget_in_place(&mut self)
        ensures
            final(self)@ == (MsgBufView {
                init: 0,
                fill: 0,
                has_msg: false,
                ..old(self)@
            }),
    {
        self.init = 0;
        self.fill = 0;
        self.has_msg = false;
    }

    /// Turns the buffer into one that does not depend on the region it was made from, failing
    /// and handing the buffer back if it is borrowed and not empty.
    pub fn try_extend_lifetime(self) -> (r: Result<MsgBuf<'static>, MsgBuf<'a>>)
        requires
            self@.wf(),
        ensures
            self@.detachable() ==> (r matches Ok(b) && b@ == (MsgBufView {
                borrowed: false,
                ..self@
            })),
            !self@.detachable() ==> (r matches Err(b) && b@ == self@),
    {
        if self.is_borrowed() && self.capacity() > 0 {
            return Err(self);
        }
        let MsgBuf { storage, init, fill, has_msg, quota } = self;
        let bytes = match storage {
            Storage::Borrowed(_) => Vec::new(),
            Storage::Owned(v) => v,
        };
        proof {
            assert(bytes@ =~= self@.bytes);
        }
        Ok(MsgBuf { storage: Storage::Owned(bytes), init, fill, has_msg, quota })
    }

    /// Makes sure the buffer owns its memory: a borrowed buffer is replaced by a fresh allocation
    /// of the same capacity and quota, its content discarded.
    pub fn make_owned(self) -> (r: MsgBuf<'static>)
        requires
            self@.wf(),
        ensures
            r@.wf(),
            !r@.borrowed,
            self@.detachable() ==> r@ == (MsgBufView { borrowed: false, ..self@ }),
            !self@.detachable() ==> {
                &&& r@.cap() == self@.cap()
                &&& r@.init == 0
                &&& r@.fill == 0
                &&& !r@.has_msg
                &&& r@.quota == self@.quota
            },
    {
        match self.try_extend_lifetime() {
            Ok(b) => b,
            Err(b) => {
                let mut owned = MsgBuf::with_capacity(b.capacity());
                owned.quota = b.quota;
                owned
            },
        }
    }
}

/// A buffer after its memory is taken away: empty, owned, with the same quota.
pub open spec fn emptied(pre: MsgBufView) -> MsgBufView {
    MsgBufView {
        bytes: Seq::empty(),
        init: 0,
        fill: 0,
        borrowed: false,
        has_msg: false,
        quota: pre.quota,
    }
}

impl<'a> From<&'a mut [u8]> for MsgBuf<'a> {
    /// Same as [`MsgBuf::from_borrowed`].
    fn from(region: &'a mut [u8]) -> (r: MsgBuf<'a>)
        ensures
            r@.wf(),
            r@.bytes == old(region)@,
            r@.init == r@.cap(),
            r@.fill == 0,
            r@.borrowed,
            !r@.has_msg,
            r@.quota is None,
    {
        MsgBuf::from_borrowed(region)
    }
}

impl<'a> vstd::std_specs::convert::FromSpecImpl<&'a mut [u8]> for MsgBuf<'a> {
    open spec fn obeys_from_spec() -> bool {
        false
    }

    open spec fn from_spec(v: &'a mut [u8]) -> MsgBuf<'a> {
        arbitrary()
    }
}

impl<'a> From<Vec<u8>> for MsgBuf<'a> {
    /// Same as [`MsgBuf::new_owned`]: the vector's capacity becomes the buffer's, its elements
    /// the initialized part.
    fn from(v: Vec<u8>) -> (r: MsgBuf<'a>)
        ensures
            r@.wf(),
            r@.bytes.take(r@.init as int) == v@,
            r@.fill == 0,
            !r@.borrowed,
            !r@.has_msg,
            r@.quota is None,
    {
        MsgBuf::new_owned(v)
    }
}

impl<'a> vstd::std_specs::convert::FromSpecImpl<Vec<u8>> for MsgBuf<'a> {
    open spec fn obeys_from_spec() -> bool {
        false
    }

    open spec fn from_spec(v: Vec<u8>) -> MsgBuf<'a> {
        arbitrary()
    }
}

impl<'a> From<DynOwnedBuf> for MsgBuf<'a> {
    /// Same as [`MsgBuf::new_owned_dyn`].
    fn from(buf: DynOwnedBuf) -> (r: MsgBuf<'a>)
        ensures
            r@.wf(),
            r@.bytes == buf@.bytes,
            r@.init == buf@.init,
            r@.fill == 0,
            !r@.borrowed,
            !r@.has_msg,
            r@.quota is None,
    {
        MsgBuf::new_owned_dyn(buf)
    }
}

impl<'a> vstd::std_specs::convert::FromSpecImpl<DynOwnedBuf> for MsgBuf<'a> {
    open spec fn obeys_from_spec() -> bool {
        false
    }

    open spec fn from_spec(v: DynOwnedBuf) -> MsgBuf<'a> {
        arbitrary()
    }
}

} // verus!
