//! Null-bitmap storage.
//!
//! Every array representation keeps one presence bit per logical element in a
//! packed bit-vector from the `bitvec` crate. The bit-vector is opaque to the
//! verifier, so it is held in the opaque [`Bitmap`] struct; [`bit_seq`] names
//! the sequence of bits it holds, and the trusted wrappers below state how
//! each operation acts on that sequence.

use vstd::prelude::*;

verus! {

/// A packed sequence of presence bits, backed by `bitvec::vec::BitVec`.
#[verifier::external_body]
pub struct Bitmap {
    inner: bitvec::vec::BitVec,
}

/// The sequence of booleans that a bitmap holds, in index order.
pub uninterp spec fn bit_seq(bv: Bitmap) -> Seq<bool>;

impl Bitmap {
    /// Relies on bitvec's `BitVec::with_capacity`: it returns an empty
    /// bit-vector, and panics only when the requested capacity exceeds the
    /// greatest length a bit-vector can represent (at least
    /// `usize::MAX / 64`).
    #[verifier::external_body]
    pub(crate) fn with_capacity(capacity: usize) -> (r: Bitmap)
        requires
            capacity <= usize::MAX / 64,
        ensures
            bit_seq(r) == Seq::<bool>::empty(),
    {
        Bitmap { inner: bitvec::vec::BitVec::with_capacity(capacity) }
    }

    /// Relies on bitvec's `BitVec::push`: it appends one bit at the back,
    /// and panics only when the length would exceed the greatest length a
    /// bit-vector can represent (at least `usize::MAX / 64`).
    #[verifier::external_body]
    pub(crate) fn push(&mut self, bit: bool)
        requires
            bit_seq(*old(self)).len() < usize::MAX / 64,
        ensures
            bit_seq(*final(self)) == bit_seq(*old(self)).push(bit),
    {
        self.inner.push(bit)
    }

    /// Relies on bitvec's `BitVec::len`: it returns the number of bits held.
    #[verifier::external_body]
    pub(crate) fn len(&self) -> (r: usize)
        ensures
            r == bit_seq(*self).len(),
    {
        self.inner.len()
    }

    /// Relies on bitvec's `Index<usize>` on the underlying bit-slice: it
    /// returns the bit at the given in-bounds index.
    #[verifier::external_body]
    pub(crate) fn get(&self, idx: usize) -> (r: bool)
        requires
            idx < bit_seq(*self).len(),
        ensures
            r == bit_seq(*self)[idx as int],
    {
        self.inner[idx]
    }
}

} // verus!
