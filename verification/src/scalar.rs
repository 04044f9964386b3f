//! Scalar values and their erased runtime representations.
//!
//! Each supported element type has an owned form (its [`Scalar`] impl) and a
//! cheap borrowed form (its [`ScalarRef`] impl). [`ScalarImpl`] and
//! [`ScalarRefImpl`] are the closed tagged unions that carry any supported
//! owned value or reference across dynamically-typed boundaries: widening
//! into the union is total (`From`), narrowing back to a concrete type is
//! fallible (`TryFrom`) and succeeds exactly when the active variant matches
//! the requested type.

use crate::array::{PrimitiveArray, StringArray};
use crate::TypeMismatch;
use vstd::prelude::*;
use vstd::std_specs::convert::{FromSpec, FromSpecImpl, TryFromSpec, TryFromSpecImpl};

verus! {

/// An owned scalar value of a concrete element type.
///
/// Each impl names its associated array type and its associated borrowed
/// reference type; the association is a bijection with [`ScalarRef`], so
/// generic code can recover either representation from the other. The
/// `DeepView` supertrait gives every scalar a mathematical view shared with
/// its reference type, so `as_scalar_ref` can promise that the view is kept.
pub trait Scalar: DeepView + Clone + Sized + Send + Sync + 'static {
    /// The array type that stores this scalar. Its [`Array`] impl ties it
    /// back to this scalar through its `OwnedItem`.
    type ArrayType;

    /// The borrowed form of this scalar, tied to a borrow of the owner.
    type RefType<'a>: ScalarRef<'a, ScalarType = Self> + DeepView<V = <Self as DeepView>::V> where
        Self: 'a;

    /// The zero-copy borrowed view of this value.
    fn as_scalar_ref<'a>(&'a self) -> (r: Self::RefType<'a>)
        ensures
            r.deep_view() == self.deep_view(),
    ;
}

/// A borrowed scalar value of a concrete element type.
///
/// The inverse of [`Scalar`]: it names the owned type it borrows from, and
/// `to_owned_scalar` detaches a fully owned copy with the same view.
pub trait ScalarRef<'a>: DeepView + Copy + Sized + Send + 'a {
    /// The array type that stores this scalar's owned form.
    type ArrayType;

    /// The owned form of this reference, abstracting to the same view. Its
    /// [`Scalar`] impl ties it back to this reference through its `RefType`.
    type ScalarType: DeepView<V = <Self as DeepView>::V>;

    /// A newly owned, detached copy of the referenced value.
    fn to_owned_scalar(&self) -> (r: Self::ScalarType)
        ensures
            r.deep_view() == self.deep_view(),
    ;
}

impl Scalar for i32 {
    type ArrayType = PrimitiveArray<i32>;

    type RefType<'a> = i32;

    fn as_scalar_ref<'a>(&'a self) -> (r: i32) {
        *self
    }
}

impl<'a> ScalarRef<'a> for i32 {
    type ArrayType = PrimitiveArray<i32>;

    type ScalarType = i32;

    fn to_owned_scalar(&self) -> (r: i32) {
        *self
    }
}

impl Scalar for String {
    type ArrayType = StringArray;

    type RefType<'a> = &'a str;

    fn as_scalar_ref<'a>(&'a self) -> (r: &'a str) {
        self.as_str()
    }
}

impl<'a> ScalarRef<'a> for &'a str {
    type ArrayType = StringArray;

    type ScalarType = String;

    fn to_owned_scalar(&self) -> (r: String) {
        (*self).to_owned()
    }
}

/// The erased union over every supported owned scalar value.
pub enum ScalarImpl {
    Int32(i32),
    String(String),
}

/// The erased union over every supported borrowed scalar value.
pub enum ScalarRefImpl<'a> {
    Int32(i32),
    String(&'a str),
}

impl From<i32> for ScalarImpl {
    fn from(v: i32) -> (r: ScalarImpl) {
        ScalarImpl::Int32(v)
    }
}

impl FromSpecImpl<i32> for ScalarImpl {
    open spec fn obeys_from_spec() -> bool {
        true
    }

    open spec fn from_spec(v: i32) -> ScalarImpl {
        ScalarImpl::Int32(v)
    }
}

impl From<String> for ScalarImpl {
    fn from(v: String) -> (r: ScalarImpl) {
        ScalarImpl::String(v)
    }
}

impl FromSpecImpl<String> for ScalarImpl {
    open spec fn obeys_from_spec() -> bool {
        true
    }

    open spec fn from_spec(v: String) -> ScalarImpl {
        ScalarImpl::String(v)
    }
}

impl<'a> From<i32> for ScalarRefImpl<'a> {
    fn from(v: i32) -> (r: ScalarRefImpl<'a>) {
        ScalarRefImpl::Int32(v)
    }
}

impl<'a> FromSpecImpl<i32> for ScalarRefImpl<'a> {
    open spec fn obeys_from_spec() -> bool {
        true
    }

    open spec fn from_spec(v: i32) -> ScalarRefImpl<'a> {
        ScalarRefImpl::Int32(v)
    }
}

impl<'a> From<&'a str> for ScalarRefImpl<'a> {
    fn from(v: &'a str) -> (r: ScalarRefImpl<'a>) {
        ScalarRefImpl::String(v)
    }
}

impl<'a> FromSpecImpl<&'a str> for ScalarRefImpl<'a> {
    open spec fn obeys_from_spec() -> bool {
        true
    }

    open spec fn from_spec(v: &'a str) -> ScalarRefImpl<'a> {
        ScalarRefImpl::String(v)
    }
}

impl TryFrom<ScalarImpl> for i32 {
    type Error = TypeMismatch;

    fn try_from(v: ScalarImpl) -> (r: Result<i32, TypeMismatch>) {
        match v {
            ScalarImpl::Int32(x) => Ok(x),
            ScalarImpl::String(_) => Err(TypeMismatch("i32", "String")),
        }
    }
}

impl TryFromSpecImpl<ScalarImpl> for i32 {
    open spec fn obeys_try_from_spec() -> bool {
        true
    }

    open spec fn try_from_spec(v: ScalarImpl) -> Result<i32, TypeMismatch> {
        match v {
            ScalarImpl::Int32(x) => Ok(x),
            ScalarImpl::String(_) => Err(TypeMismatch("i32", "String")),
        }
    }
}

impl TryFrom<ScalarImpl> for String {
    type Error = TypeMismatch;

    fn try_from(v: ScalarImpl) -> (r: Result<String, TypeMismatch>) {
        match v {
            ScalarImpl::Int32(_) => Err(TypeMismatch("String", "i32")),
            ScalarImpl::String(s) => Ok(s),
        }
    }
}

impl TryFromSpecImpl<ScalarImpl> for String {
    open spec fn obeys_try_from_spec() -> bool {
        true
    }

    open spec fn try_from_spec(v: ScalarImpl) -> Result<String, TypeMismatch> {
        match v {
            ScalarImpl::Int32(_) => Err(TypeMismatch("String", "i32")),
            ScalarImpl::String(s) => Ok(s),
        }
    }
}

impl<'a> TryFrom<ScalarRefImpl<'a>> for i32 {
    type Error = TypeMismatch;

    fn try_from(v: ScalarRefImpl<'a>) -> (r: Result<i32, TypeMismatch>) {
        match v {
            ScalarRefImpl::Int32(x) => Ok(x),
            ScalarRefImpl::String(_) => Err(TypeMismatch("i32", "&str")),
        }
    }
}

impl<'a> TryFromSpecImpl<ScalarRefImpl<'a>> for i32 {
    open spec fn obeys_try_from_spec() -> bool {
        true
    }

    open spec fn try_from_spec(v: ScalarRefImpl<'a>) -> Result<i32, TypeMismatch> {
        match v {
            ScalarRefImpl::Int32(x) => Ok(x),
            ScalarRefImpl::String(_) => Err(TypeMismatch("i32", "&str")),
        }
    }
}

impl<'a> TryFrom<ScalarRefImpl<'a>> for &'a str {
    type Error = TypeMismatch;

    fn try_from(v: ScalarRefImpl<'a>) -> (r: Result<&'a str, TypeMismatch>) {
        match v {
            ScalarRefImpl::Int32(_) => Err(TypeMismatch("&str", "i32")),
            ScalarRefImpl::String(s) => Ok(s),
        }
    }
}

impl<'a> TryFromSpecImpl<ScalarRefImpl<'a>> for &'a str {
    open spec fn obeys_try_from_spec() -> bool {
        true
    }

    open spec fn try_from_spec(v: ScalarRefImpl<'a>) -> Result<&'a str, TypeMismatch> {
        match v {
            ScalarRefImpl::Int32(_) => Err(TypeMismatch("&str", "i32")),
            ScalarRefImpl::String(s) => Ok(s),
        }
    }
}

/// Scalar bijection law: the zero-copy borrowed view of an owned scalar
/// detaches to an owned scalar with the very same mathematical view.
pub fn scalar_round_trip<T: Scalar>(v: &T) -> (r: T)
    ensures
        r.deep_view() == v.deep_view(),
{
    v.as_scalar_ref().to_owned_scalar()
}

/// Erasure round-trip law for `i32`: widening into [`ScalarImpl`] and
/// narrowing back succeeds with the same value, while narrowing the same
/// union value to the string type fails with a type mismatch.
pub proof fn lemma_erasure_round_trip_i32(v: i32)
    ensures
        <i32 as TryFromSpec<ScalarImpl>>::try_from_spec(
            <ScalarImpl as FromSpec<i32>>::from_spec(v),
        ) == Ok::<i32, TypeMismatch>(v),
        <String as TryFromSpec<ScalarImpl>>::try_from_spec(
            <ScalarImpl as FromSpec<i32>>::from_spec(v),
        ) is Err,
{
}

/// Erasure round-trip law for `String`: widening into [`ScalarImpl`] and
/// narrowing back succeeds with the same value, while narrowing the same
/// union value to `i32` fails with a type mismatch.
pub proof fn lemma_erasure_round_trip_string(v: String)
    ensures
        <String as TryFromSpec<ScalarImpl>>::try_from_spec(
            <ScalarImpl as FromSpec<String>>::from_spec(v),
        ) == Ok::<String, TypeMismatch>(v),
        <i32 as TryFromSpec<ScalarImpl>>::try_from_spec(
            <ScalarImpl as FromSpec<String>>::from_spec(v),
        ) is Err,
{
}

/// Erasure round-trip law for a borrowed `i32`: widening into
/// [`ScalarRefImpl`] and narrowing back succeeds with the same value, while
/// narrowing the same union value to the string type fails.
pub proof fn lemma_ref_erasure_round_trip_i32<'a>(v: i32)
    ensures
        <i32 as TryFromSpec<ScalarRefImpl<'a>>>::try_from_spec(
            <ScalarRefImpl<'a> as FromSpec<i32>>::from_spec(v),
        ) == Ok::<i32, TypeMismatch>(v),
        <&'a str as TryFromSpec<ScalarRefImpl<'a>>>::try_from_spec(
            <ScalarRefImpl<'a> as FromSpec<i32>>::from_spec(v),
        ) is Err,
{
}

/// Erasure round-trip law for a borrowed string: widening into
/// [`ScalarRefImpl`] and narrowing back succeeds with the same value, while
/// narrowing the same union value to `i32` fails.
pub proof fn lemma_ref_erasure_round_trip_str<'a>(v: &'a str)
    ensures
        <&'a str as TryFromSpec<ScalarRefImpl<'a>>>::try_from_spec(
            <ScalarRefImpl<'a> as FromSpec<&'a str>>::from_spec(v),
        ) == Ok::<&'a str, TypeMismatch>(v),
        <i32 as TryFromSpec<ScalarRefImpl<'a>>>::try_from_spec(
            <ScalarRefImpl<'a> as FromSpec<&'a str>>::from_spec(v),
        ) is Err,
{
}

} // verus!
