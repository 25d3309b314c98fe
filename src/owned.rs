//! Owned allocations that a buffer can take over.
use crate::msgbuf::max_nat;
use vstd::prelude::*;

verus! {

/// Relies on `Vec::capacity`: a vector can always hold at least as many elements as it has.
#[verifier::external_body]
fn vec_capacity(v: &Vec<u8>) -> (r: usize)
    ensures
        r >= v@.len(),
{
    v.capacity()
}

/// An owned allocation for a [`MsgBuf`](crate::MsgBuf): a heap region and an initialization
/// cursor.
#[derive(Debug)]
pub struct DynOwnedBuf {
    bytes: Vec<u8>,
    init: usize,
}

/// What a [`DynOwnedBuf`] holds, as plain values.
pub struct OwnedView {
    /// The whole region, as long as the capacity.
    pub bytes: Seq<u8>,
    pub init: nat,
}

impl OwnedView {
    pub open spec fn wf(self) -> bool {
        self.init <= self.bytes.len()
    }

    /// The bytes below the initialization cursor.
    pub open spec fn initialized(self) -> Seq<u8> {
        self.bytes.take(self.init as int)
    }
}

impl View for DynOwnedBuf {
    type V = OwnedView;

    closed spec fn view(&self) -> OwnedView {
        OwnedView { bytes: self.bytes@, init: self.init as nat }
    }
}

/// The capacity and the initialization cursor of an owned allocation.
#[derive(Copy, Clone, Debug, PartialEq, Eq)]
pub struct OwnedBufRawParts {
    /// The length of the region.
    pub cap: usize,
    /// How many bytes from the start are initialized. Never exceeds `cap`.
    pub init: usize,
}

/// Owned buffers that a [`MsgBuf`](crate::MsgBuf) can take over.
pub trait OwnedBuf: Sized {
    /// The bytes of the buffer that are initialized, which the buffer keeps.
    spec fn initialized(&self) -> Seq<u8>;

    /// Turns the buffer into the allocation type that [`MsgBuf`](crate::MsgBuf) holds, keeping
    /// its initialized bytes.
    fn into_dyn(self) -> (r: DynOwnedBuf)
        ensures
            r@.wf(),
            r@.initialized() == self.initialized(),
    ;
}

impl OwnedBuf for Vec<u8> {
    open spec fn initialized(&self) -> Seq<u8> {
        self@
    }

    /// The whole capacity of the vector becomes the region; its elements are the initialized
    /// part.
    fn into_dyn(self) -> (r: DynOwnedBuf) {
        let mut bytes = self;
        let init = bytes.len();
        let cap = vec_capacity(&bytes);
        bytes.resize(cap, 0);
        proof {
            assert(bytes@.take(init as int) =~= self@);
        }
        DynOwnedBuf { bytes, init }
    }
}

impl OwnedBuf for DynOwnedBuf {
    closed spec fn initialized(&self) -> Seq<u8> {
        self@.initialized()
    }

    fn into_dyn(self) -> (r: DynOwnedBuf) {
        proof {
            use_type_invariant(&self);
        }
        self
    }
}

impl DynOwnedBuf {
    #[verifier::type_invariant]
    spec fn inv(&self) -> bool {
        self.init <= self.bytes@.len()
    }

    /// Takes over an owned buffer.
    pub fn new<T: OwnedBuf>(buf: T) -> (r: Self)
        ensures
            r@.wf(),
            r@.initialized() == buf.initialized(),
    {
        buf.into_dyn()
    }

    /// An allocation of the given capacity, with nothing initialized.
    pub fn with_capacity(cap: usize) -> (r: Self)
        ensures
            r@.wf(),
            r@.bytes.len() == cap,
            r@.init == 0,
    {
        DynOwnedBuf { bytes: vec![0u8; cap], init: 0 }
    }

    /// Returns the capacity and the initialization cursor.
    pub fn as_raw_parts(&self) -> (r: OwnedBufRawParts)
        ensures
            r.cap == self@.bytes.len(),
            r.init == self@.init,
    {
        OwnedBufRawParts { cap: self.bytes.len(), init: self.init }
    }

    /// Grows the region to at least the given capacity, keeping its content and cursor.
    pub fn grow(&mut self, new_cap: usize)
        ensures
            final(self)@.wf(),
            final(self)@.init == old(self)@.init,
            final(self)@.bytes.len() == max_nat(old(self)@.bytes.len(), new_cap as nat),
            final(self)@.bytes.take(old(self)@.bytes.len() as int) == old(self)@.bytes,
    {
        proof {
            use_type_invariant(&*self);
        }
        if new_cap > self.bytes.len() {
            let (mut bytes, init) = self.take().into_parts();
            if bytes.len() == 0 {
                bytes = vec![0u8; new_cap];
            } else {
                bytes.resize(new_cap, 0);
            }
            *self = DynOwnedBuf { bytes, init };
        }
        proof {
            assert(self.bytes@.take(old(self)@.bytes.len() as int) =~= old(self)@.bytes);
        }
    }

    /// Hands out the allocation, leaving an empty one in its place.
    pub fn take(&mut self) -> (r: Self)
        ensures
            r@ == old(self)@,
            final(self)@.bytes.len() == 0,
            final(self)@.init == 0,
    {
        let mut r = DynOwnedBuf { bytes: Vec::new(), init: 0 };
        core::mem::swap(self, &mut r);
        r
    }

    /// An allocation made of a region and an initialization cursor.
    pub(crate) fn from_parts(bytes: Vec<u8>, init: usize) -> (r: Self)
        requires
            init <= bytes@.len(),
        ensures
            r@.bytes == bytes@,
            r@.init == init,
    {
        DynOwnedBuf { bytes, init }
    }

    /// Gives up the allocation: its region and its initialization cursor.
    pub(crate) fn into_parts(self) -> (r: (Vec<u8>, usize))
        ensures
            r.0@ == self@.bytes,
            r.1 == self@.init,
            r.1 <= r.0@.len(),
    {
        proof {
            use_type_invariant(&self);
        }
        (self.bytes, self.init)
    }
}

impl Default for DynOwnedBuf {
    /// An empty allocation.
    fn default() -> (r: Self)
        ensures
            r@.bytes.len() == 0,
            r@.init == 0,
    {
        DynOwnedBuf { bytes: Vec::new(), init: 0 }
    }
}

} // verus!
