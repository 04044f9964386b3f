use columnar_array::array::{Array, ArrayBuilder, I32Array, StringArray};
use columnar_array::scalar::{scalar_round_trip, Scalar, ScalarImpl, ScalarRef, ScalarRefImpl};

/// Build an array from a vector of repeated data
fn build_array_repeated<A: Array>(item: A::RefItem<'_>, len: usize) -> A
where
    A::Builder: ArrayBuilder<Array = A>,
{
    let mut builder = A::Builder::with_capacity(len);
    for _ in 0..len {
        builder.push(Some(item));
    }
    builder.finish()
}

/// Build an array from a vector of repeated owned data
fn build_array_repeated_owned<A: Array>(item: A::OwnedItem, len: usize) -> A
where
    A::Builder: ArrayBuilder<Array = A>,
    A::OwnedItem: for<'x> Scalar<RefType<'x> = A::RefItem<'x>>,
{
    let mut builder = A::Builder::with_capacity(len);
    for _ in 0..len {
        builder.push(Some(item.as_scalar_ref()));
    }
    builder.finish()
}

/// Test if an array has the same repeating content
fn check_array_eq<'a, A: Array>(array: &'a A, item: A::RefItem<'a>)
where
    A::RefItem<'a>: PartialEq + std::fmt::Debug,
{
    let mut it = array.iter();
    while let Some(a) = it.next() {
        assert_eq!(a, Some(item));
    }
}

#[test]
fn test_build_int32_repeat_array() {
    let array = build_array_repeated::<I32Array>(1, 233);
    check_array_eq(&array, 1);
    let array = build_array_repeated_owned::<I32Array>(1, 233);
    check_array_eq(&array, 1);
}

#[test]
fn test_build_string_repeat_array() {
    let array = build_array_repeated::<StringArray>("233", 5);
    check_array_eq(&array, "233");
    let array = build_array_repeated_owned::<StringArray>("233".to_string(), 5);
    check_array_eq(&array, "233");
}

#[test]
fn test_try_from_into() {
    let i: i32 = 2333;
    let j: ScalarImpl = i.into();
    let k: ScalarRefImpl = i.into();
    let i1: i32 = j.try_into().unwrap();
    let i2: i32 = k.try_into().unwrap();
    assert_eq!(i1, i);
    assert_eq!(i2, i);
}

#[test]
fn test_narrow_i32_union_to_string_fails() {
    let j: ScalarImpl = 2333i32.into();
    let narrowed: Result<i32, _> = <i32 as TryFrom<ScalarImpl>>::try_from(j);
    assert_eq!(narrowed.unwrap(), 2333);
    let j: ScalarImpl = 2333i32.into();
    let failed: Result<String, _> = <String as TryFrom<ScalarImpl>>::try_from(j);
    let err = failed.unwrap_err();
    assert_eq!(err.expected(), "String");
    assert_eq!(err.actual(), "i32");
}

#[test]
fn test_narrow_string_union_to_i32_fails() {
    let j: ScalarImpl = "hi".to_string().into();
    let ok: Result<String, _> = <String as TryFrom<ScalarImpl>>::try_from(j);
    assert_eq!(ok.unwrap(), "hi".to_string());
    let j: ScalarImpl = "hi".to_string().into();
    let failed: Result<i32, _> = <i32 as TryFrom<ScalarImpl>>::try_from(j);
    let err = failed.unwrap_err();
    assert_eq!(err.expected(), "i32");
    assert_eq!(err.actual(), "String");
}

#[test]
fn test_narrow_ref_union_both_ways() {
    let k: ScalarRefImpl = "hey".into();
    let s: &str = k.try_into().unwrap();
    assert_eq!(s, "hey");
    let k: ScalarRefImpl = "hey".into();
    let failed: Result<i32, _> = k.try_into();
    let err = failed.unwrap_err();
    assert_eq!(err.expected(), "i32");
    assert_eq!(err.actual(), "&str");
    let k: ScalarRefImpl = 7i32.into();
    let failed: Result<&str, _> = k.try_into();
    let err = failed.unwrap_err();
    assert_eq!(err.expected(), "&str");
    assert_eq!(err.actual(), "i32");
}

#[test]
fn test_scalar_bijection() {
    let v: i32 = 42;
    assert_eq!(v.as_scalar_ref().to_owned_scalar(), 42);
    assert_eq!(scalar_round_trip(&v), 42);
    let s: String = "hello".to_string();
    assert_eq!(s.as_scalar_ref().to_owned_scalar(), "hello".to_string());
    assert_eq!(scalar_round_trip(&s), "hello".to_string());
    let empty: String = String::new();
    assert_eq!(scalar_round_trip(&empty), String::new());
}
