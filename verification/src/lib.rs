//! A typed, nullable, columnar array library.
//!
//! Arrays are immutable containers of optional elements, built incrementally
//! through builders, with a shared null-bitmap convention: one presence bit
//! per logical element. Fixed-width primitives and variable-length UTF-8
//! strings each get a concrete representation, unified by the [`array::Array`]
//! and [`array::ArrayBuilder`] contracts and the scalar type family in
//! [`scalar`].

pub mod array;
pub mod bitmap;
pub mod scalar;

use vstd::prelude::*;

verus! {

/// A narrowing conversion from an erased scalar union was attempted with a
/// target type that does not match the union's active variant. Carries the
/// expected (requested) type name and the actual (active) type name.
#[derive(Clone, Copy, Debug)]
pub struct TypeMismatch(pub &'static str, pub &'static str);

impl TypeMismatch {
    /// The name of the type the caller asked for.
    pub fn expected(&self) -> (r: &'static str)
        ensures
            r == self.0,
    {
        self.0
    }

    /// The name of the variant actually held.
    pub fn actual(&self) -> (r: &'static str)
        ensures
            r == self.1,
    {
        self.1
    }
}

} // verus!
