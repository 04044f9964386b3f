//! A lazy, single-pass iterator over any array.
//!
//! The iterator holds a shared borrow of the array and a position counter.
//! Each step yields the element at the current position — an `Option` of the
//! borrowed item, absent where the null bit is unset — until the position
//! reaches the array's length. A fresh iterator must be created to iterate
//! again; many iterators over one array may coexist.

use super::Array;
use vstd::prelude::*;

verus! {

/// A forward-only cursor over an [`Array`].
pub struct ArrayIterator<'a, A> {
    array: &'a A,
    pos: usize,
}

impl<'a, A> ArrayIterator<'a, A> {
    /// The array being iterated.
    pub closed spec fn spec_array(&self) -> &'a A {
        self.array
    }

    /// The position of the next element to yield.
    pub closed spec fn spec_pos(&self) -> int {
        self.pos as int
    }

    /// A fresh iterator over `array`, positioned at the first element.
    pub fn new(array: &'a A) -> (r: Self)
        ensures
            r.spec_array() == array,
            r.spec_pos() == 0,
    {
        Self { array, pos: 0 }
    }
}

impl<'a, A: Array> ArrayIterator<'a, A> {
    /// Yields the element at the current position and advances, or yields
    /// nothing once every position has been visited.
    pub fn next(&mut self) -> (r: Option<Option<A::RefItem<'a>>>)
        ensures
            final(self).spec_array() == old(self).spec_array(),
            ({
                let elems = old(self).spec_array().view_elems();
                if old(self).spec_pos() < elems.len() {
                    &&& final(self).spec_pos() == old(self).spec_pos() + 1
                    &&& r matches Some(item) && item.deep_view() == elems[old(
                        self,
                    ).spec_pos()]
                } else {
                    &&& final(self).spec_pos() == old(self).spec_pos()
                    &&& r is None
                }
            }),
    {
        if self.pos < self.array.len() {
            let item = self.array.get(self.pos);
            self.pos = self.pos + 1;
            Some(item)
        } else {
            None
        }
    }
}

} // verus!
