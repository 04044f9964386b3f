use columnar_array::array::{
    Array, ArrayBuilder, ArrayIterator, I32Array, PrimitiveArrayBuilder, StringArray,
    StringArrayBuilder,
};

fn build_i32(items: &[Option<i32>]) -> I32Array {
    let mut builder = PrimitiveArrayBuilder::<i32>::with_capacity(items.len());
    for item in items {
        builder.push(*item);
    }
    builder.finish()
}

fn build_string(items: &[Option<&str>]) -> StringArray {
    let mut builder = StringArrayBuilder::with_capacity(items.len());
    for item in items {
        builder.push(*item);
    }
    builder.finish()
}

#[test]
fn test_primitive_scenario() {
    let a = build_i32(&[Some(1), None, Some(2)]);
    assert_eq!(a.len(), 3);
    assert!(!a.is_empty());
    assert_eq!(a.get(0), Some(1));
    assert_eq!(a.get(1), None);
    assert_eq!(a.get(2), Some(2));
}

#[test]
fn test_string_scenario() {
    let a = build_string(&[Some("ab"), None, Some("")]);
    assert_eq!(a.len(), 3);
    assert_eq!(*a.offsets(), vec![0usize, 2, 2, 2]);
    assert_eq!(a.get(0), Some("ab"));
    assert_eq!(a.get(1), None);
    assert_eq!(a.get(2), Some(""));
}

#[test]
fn test_string_multibyte_payloads() {
    let a = build_string(&[Some("héllo"), Some("日本"), None, Some("x")]);
    assert_eq!(a.len(), 4);
    assert_eq!(a.get(0), Some("héllo"));
    assert_eq!(a.get(1), Some("日本"));
    assert_eq!(a.get(2), None);
    assert_eq!(a.get(3), Some("x"));
}

#[test]
fn test_length_matches_push_count() {
    let items = [Some(5), None, None, Some(-7), Some(0), None, Some(i32::MAX)];
    let a = build_i32(&items);
    assert_eq!(a.len(), items.len());
}

#[test]
fn test_empty_arrays() {
    let a = build_i32(&[]);
    assert_eq!(a.len(), 0);
    assert!(a.is_empty());
    let mut it = a.iter();
    assert_eq!(it.next(), None);

    let s = build_string(&[]);
    assert_eq!(s.len(), 0);
    assert!(s.is_empty());
    assert_eq!(*s.offsets(), vec![0usize]);
}

#[test]
fn test_null_round_trip() {
    let items = [Some(3), None, Some(0), None, None, Some(9)];
    let a = build_i32(&items);
    for (i, item) in items.iter().enumerate() {
        assert_eq!(a.get(i).is_none(), item.is_none());
    }
}

#[test]
fn test_value_round_trip() {
    let items = [Some(i32::MIN), Some(-1), None, Some(1), Some(i32::MAX)];
    let a = build_i32(&items);
    for (i, item) in items.iter().enumerate() {
        assert_eq!(a.get(i), *item);
    }
    let strs = [Some("a"), Some(""), None, Some("abc")];
    let s = build_string(&strs);
    for (i, item) in strs.iter().enumerate() {
        assert_eq!(s.get(i), *item);
    }
}

#[test]
fn test_all_null_string_offsets() {
    let s = build_string(&[None, None]);
    assert_eq!(*s.offsets(), vec![0usize, 0, 0]);
    assert_eq!(s.get(0), None);
    assert_eq!(s.get(1), None);
}

#[test]
fn test_iterator_completeness() {
    let a = build_i32(&[Some(4), None, Some(6), Some(8)]);
    let mut collected: Vec<Option<i32>> = Vec::new();
    let mut it = a.iter();
    while let Some(item) = it.next() {
        collected.push(item);
    }
    assert_eq!(collected.len(), a.len());
    for (i, item) in collected.iter().enumerate() {
        assert_eq!(*item, a.get(i));
    }
    // Exhausted iterators keep yielding nothing.
    assert_eq!(it.next(), None);
    assert_eq!(it.next(), None);
}

#[test]
fn test_fresh_iterators_agree() {
    let a = build_string(&[Some("one"), None, Some("two")]);
    let mut first: Vec<Option<String>> = Vec::new();
    let mut it = a.iter();
    while let Some(item) = it.next() {
        first.push(item.map(|s| s.to_string()));
    }
    let mut second: Vec<Option<String>> = Vec::new();
    let mut it2 = ArrayIterator::new(&a);
    while let Some(item) = it2.next() {
        second.push(item.map(|s| s.to_string()));
    }
    assert_eq!(first, second);
    assert_eq!(first.len(), 3);
}
