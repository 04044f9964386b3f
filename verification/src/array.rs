//! The capability contracts every concrete array satisfies.
//!
//! An array is an immutable sequence of optional elements, abstracted by
//! [`Array::view_elems`]: a sequence of `Option` values over the owned item's
//! mathematical view. A builder receives a sequence of `push` calls and is
//! consumed by `finish` into the array holding exactly the pushed elements,
//! in push order.

pub mod iterator;
pub mod primitive_array;
pub mod string_array;

pub use iterator::ArrayIterator;
pub use primitive_array::{I32Array, PrimitiveArray, PrimitiveArrayBuilder, PrimitiveType};
pub use string_array::{StringArray, StringArrayBuilder};

use crate::scalar::{Scalar, ScalarRef};
use vstd::prelude::*;

verus! {

/// The read contract of a concrete array.
///
/// `OwnedItem` is the detached, lifetime-free value type; `RefItem<'a>` is the
/// borrowed, zero-copy type tied to a borrow of the array. Both abstract to
/// the same mathematical view, so the contracts below need not distinguish
/// them.
pub trait Array: Sized {
    /// The owned element type; its associated array type is this array.
    type OwnedItem: Scalar<ArrayType = Self>;

    /// The borrowed element type: the `ScalarRef` of `OwnedItem`,
    /// abstracting to the same view.
    type RefItem<'a>: ScalarRef<'a, ScalarType = Self::OwnedItem> + DeepView<
        V = <Self::OwnedItem as DeepView>::V,
    > + Copy where Self: 'a;

    /// The builder that produces this array. Its [`ArrayBuilder`] impl ties
    /// it back to this array type.
    type Builder;

    /// The logical contents: one `Option` per position, `None` where the
    /// null bit is unset.
    spec fn view_elems(&self) -> Seq<Option<<Self::OwnedItem as DeepView>::V>>;

    /// The element at `idx`: `None` exactly when the null bit is unset.
    /// Indexes beyond the length are contract violations and excluded.
    fn get<'a>(&'a self, idx: usize) -> (r: Option<Self::RefItem<'a>>)
        requires
            idx < self.view_elems().len(),
        ensures
            r.deep_view() == self.view_elems()[idx as int],
    ;

    /// The number of logical elements.
    fn len(&self) -> (r: usize)
        ensures
            r == self.view_elems().len(),
    ;

    /// Whether the array holds no elements; agrees with `len() == 0`.
    fn is_empty(&self) -> (r: bool)
        ensures
            r == (self.view_elems().len() == 0),
    ;

    /// A fresh single-pass iterator positioned at the first element.
    fn iter<'a>(&'a self) -> (r: ArrayIterator<'a, Self>)
        ensures
            r.spec_array() == self,
            r.spec_pos() == 0,
    ;
}

/// The build contract of a concrete array's builder.
///
/// A builder is exclusively owned while it is populated and is consumed by
/// `finish`. `wf` is the builder's internal well-formedness, established by
/// `with_capacity` and preserved by `push`; `may_push` holds while the
/// machine limits of the representation leave room for one more element.
pub trait ArrayBuilder: Sized {
    /// The array this builder produces.
    type Array: Array<Builder = Self>;

    /// The elements pushed so far, in push order.
    spec fn view_elems(&self) -> Seq<Option<<<Self::Array as Array>::OwnedItem as DeepView>::V>>;

    /// Internal well-formedness of the builder's storage.
    spec fn wf(&self) -> bool;

    /// Whether the representation still has room for one more element
    /// (a machine limit, not a logical one). It holds at least while the
    /// builder has fewer than `usize::MAX / 64` elements.
    spec fn may_push(&self) -> bool;

    /// A fresh, empty builder, sized for `capacity` elements as a
    /// performance hint.
    fn with_capacity(capacity: usize) -> (r: Self)
        ensures
            r.wf(),
            r.may_push(),
            r.view_elems() == Seq::<Option<
                <<Self::Array as Array>::OwnedItem as DeepView>::V,
            >>::empty(),
    ;

    /// Appends one logical element: the pushed value, or a null slot.
    fn push(&mut self, value: Option<<Self::Array as Array>::RefItem<'_>>)
        requires
            old(self).wf(),
            old(self).may_push(),
        ensures
            final(self).wf(),
            final(self).view_elems() == old(self).view_elems().push(value.deep_view()),
            final(self).view_elems().len() < usize::MAX / 64 ==> final(self).may_push(),
    ;

    /// Consumes the builder and produces the immutable array holding
    /// exactly the pushed elements, in push order.
    fn finish(self) -> (r: Self::Array)
        requires
            self.wf(),
        ensures
            r.view_elems() == self.view_elems(),
    ;
}

} // verus!
