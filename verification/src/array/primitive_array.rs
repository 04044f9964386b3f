//! Fixed-width primitive arrays and their builders.
//!
//! A [`PrimitiveArray`] stores one value slot per logical element next to a
//! null bitmap. A null slot stores the type's default value as a placeholder
//! that is never observable through the public contract: the bitmap alone
//! decides presence. This keeps the storage value-dense and branch-friendly
//! compared with an option-per-slot layout.

use super::iterator::ArrayIterator;
use super::{Array, ArrayBuilder};
use crate::bitmap::{bit_seq, Bitmap};
use crate::scalar::{Scalar, ScalarRef};
use vstd::prelude::*;

verus! {

/// A plain fixed-width element type with a default value usable as the
/// null-slot placeholder.
pub trait PrimitiveType: Scalar + Default + Copy + for<'a> ScalarRef<
    'a,
    ScalarType = Self,
> {

}

impl PrimitiveType for i32 {

}

/// An array of 32-bit integers.
pub type I32Array = PrimitiveArray<i32>;

/// An [`Array`] of fixed-width values with a positional null bitmap.
pub struct PrimitiveArray<T: PrimitiveType> {
    data: Vec<T>,
    bitmap: Bitmap,
}

impl<T: PrimitiveType> PrimitiveArray<T> {
    #[verifier::type_invariant]
    closed spec fn wf_array(self) -> bool {
        self.data@.len() == bit_seq(self.bitmap).len()
    }
}

impl<T> Array for PrimitiveArray<T> where
    T: PrimitiveType,
    T: Scalar<ArrayType = PrimitiveArray<T>>,
 {
    type OwnedItem = T;

    /// A primitive is cheap to copy, so the borrowed item is the value
    /// itself, not a reference into the array.
    type RefItem<'a> = T;

    type Builder = PrimitiveArrayBuilder<T>;

    closed spec fn view_elems(&self) -> Seq<Option<<T as DeepView>::V>> {
        Seq::new(
            bit_seq(self.bitmap).len(),
            |i: int|
                if bit_seq(self.bitmap)[i] {
                    Some(self.data@[i].deep_view())
                } else {
                    None
                },
        )
    }

    fn get<'a>(&'a self, idx: usize) -> (r: Option<T>) {
        proof {
            use_type_invariant(self);
        }
        if self.bitmap.get(idx) {
            Some(self.data[idx])
        } else {
            None
        }
    }

    fn len(&self) -> (r: usize) {
        proof {
            use_type_invariant(self);
        }
        self.data.len()
    }

    fn is_empty(&self) -> (r: bool) {
        proof {
            use_type_invariant(self);
        }
        self.data.len() == 0
    }

    fn iter<'a>(&'a self) -> (r: ArrayIterator<'a, Self>) {
        ArrayIterator::new(self)
    }
}

/// The builder for [`PrimitiveArray`].
pub struct PrimitiveArrayBuilder<T: PrimitiveType> {
    data: Vec<T>,
    bitmap: Bitmap,
}

impl<T> ArrayBuilder for PrimitiveArrayBuilder<T> where
    T: PrimitiveType,
    T: Scalar<ArrayType = PrimitiveArray<T>>,
 {
    type Array = PrimitiveArray<T>;

    closed spec fn view_elems(&self) -> Seq<Option<<T as DeepView>::V>> {
        Seq::new(
            bit_seq(self.bitmap).len(),
            |i: int|
                if bit_seq(self.bitmap)[i] {
                    Some(self.data@[i].deep_view())
                } else {
                    None
                },
        )
    }

    closed spec fn wf(&self) -> bool {
        self.data@.len() == bit_seq(self.bitmap).len()
    }

    closed spec fn may_push(&self) -> bool {
        bit_seq(self.bitmap).len() < usize::MAX / 64
    }

    fn with_capacity(capacity: usize) -> (r: Self) {
        let hint = if capacity <= usize::MAX / 64 {
            capacity
        } else {
            usize::MAX / 64
        };
        PrimitiveArrayBuilder { data: Vec::with_capacity(capacity), bitmap: Bitmap::with_capacity(hint) }
    }

    fn push(&mut self, value: Option<T>) {
        match value {
            Some(v) => {
                self.data.push(v);
                self.bitmap.push(true);
            },
            None => {
                self.data.push(T::default());
                self.bitmap.push(false);
            },
        }
        proof {
            assert(self.view_elems() =~= old(self).view_elems().push(value.deep_view()));
        }
    }

    fn finish(self) -> (r: PrimitiveArray<T>) {
        let r = PrimitiveArray { data: self.data, bitmap: self.bitmap };
        proof {
            assert(r.view_elems() =~= self.view_elems());
        }
        r
    }
}

} // verus!
