use std::rc::Rc;
use std::sync::Arc;

use resp_args::args::{Args, Serde};
use resp_args::serde_value::SerdeValue;
use resp_args::value::ArgValue;

fn s(x: &str) -> ArgValue {
    ArgValue::Str(x.to_string())
}

#[test]
fn byte_slice_is_one_byte_string() {
    let bytes: &[u8] = b"hello";
    assert_eq!(bytes.serialize_args(), ArgValue::Bytes(b"hello".to_vec()));
    assert_eq!(vec![1u8, 2, 3].serialize_args(), ArgValue::Bytes(vec![1, 2, 3]));
    assert_eq!([7u8, 8].serialize_args(), ArgValue::Bytes(vec![7, 8]));
    assert_eq!(Vec::<u8>::new().serialize_args(), ArgValue::Bytes(vec![]));
}

#[test]
fn serde_writes_bytes_as_numbers() {
    assert_eq!(
        vec![1u8, 2].to_serde_value(),
        ArgValue::List(vec![ArgValue::U8(1), ArgValue::U8(2)])
    );
    assert_eq!(
        [1u8, 2].to_serde_value(),
        ArgValue::Tuple(vec![ArgValue::U8(1), ArgValue::U8(2)])
    );
}

#[test]
fn single_byte_is_a_number() {
    assert_eq!(5u8.serialize_args(), ArgValue::U8(5));
}

#[test]
fn scalars_are_written_as_serde_writes_them() {
    assert_eq!(true.serialize_args(), ArgValue::Bool(true));
    assert_eq!('x'.serialize_args(), ArgValue::Char('x'));
    assert_eq!((-3i8).serialize_args(), ArgValue::I8(-3));
    assert_eq!(300i16.serialize_args(), ArgValue::I16(300));
    assert_eq!((-7i32).serialize_args(), ArgValue::I32(-7));
    assert_eq!(1i64.serialize_args(), ArgValue::I64(1));
    assert_eq!(2i128.serialize_args(), ArgValue::I128(2));
    assert_eq!((-9isize).serialize_args(), ArgValue::I64(-9));
    assert_eq!(9u16.serialize_args(), ArgValue::U16(9));
    assert_eq!(10u32.serialize_args(), ArgValue::U32(10));
    assert_eq!(11u64.serialize_args(), ArgValue::U64(11));
    assert_eq!(12u128.serialize_args(), ArgValue::U128(12));
    assert_eq!(13usize.serialize_args(), ArgValue::U64(13));
    assert_eq!("key".serialize_args(), s("key"));
    assert_eq!(String::from("value").serialize_args(), s("value"));
    assert_eq!(().serialize_args(), ArgValue::Unit);
}

#[test]
fn vector_of_strings_is_a_list() {
    let v = vec!["a".to_string(), "bc".to_string()];
    assert_eq!(v.serialize_args(), ArgValue::List(vec![s("a"), s("bc")]));
    let n = vec![1u32, 2, 3];
    assert_eq!(
        n.serialize_args(),
        ArgValue::List(vec![ArgValue::U32(1), ArgValue::U32(2), ArgValue::U32(3)])
    );
}

#[test]
fn vector_of_byte_vectors_is_a_list_of_byte_strings() {
    let v = vec![b"ab".to_vec(), b"c".to_vec()];
    assert_eq!(
        v.serialize_args(),
        ArgValue::List(vec![ArgValue::Bytes(b"ab".to_vec()), ArgValue::Bytes(b"c".to_vec())])
    );
}

#[test]
fn slices_arrays_and_vectors_agree() {
    let v = vec![true, false];
    let a = [true, false];
    let sl: &[bool] = &a;
    assert_eq!(v.serialize_args(), a.serialize_args());
    assert_eq!(sl.serialize_args(), a.serialize_args());
}

#[test]
fn options() {
    assert_eq!(
        Some(4u64).serialize_args(),
        ArgValue::Present(Box::new(ArgValue::U64(4)))
    );
    assert_eq!(Option::<u64>::None.serialize_args(), ArgValue::Absent);
    assert_eq!(
        Some(b"x".to_vec()).serialize_args(),
        ArgValue::Present(Box::new(ArgValue::Bytes(b"x".to_vec())))
    );
    assert_eq!(
        vec![Some(1u8), None].serialize_args(),
        ArgValue::List(vec![ArgValue::Present(Box::new(ArgValue::U8(1))), ArgValue::Absent])
    );
}

#[test]
fn pointers_are_transparent() {
    let v = vec![1u8, 2];
    assert_eq!((&v).serialize_args(), ArgValue::Bytes(vec![1, 2]));
    assert_eq!(Box::new(v.clone()).serialize_args(), ArgValue::Bytes(vec![1, 2]));
    assert_eq!(Rc::new(v.clone()).serialize_args(), ArgValue::Bytes(vec![1, 2]));
    assert_eq!(Arc::new(v.clone()).serialize_args(), ArgValue::Bytes(vec![1, 2]));
    let boxed: Box<str> = "k".into();
    assert_eq!(boxed.serialize_args(), s("k"));
    let mut m = 3u16;
    let r = &mut m;
    assert_eq!(r.serialize_args(), ArgValue::U16(3));
    let refs: Vec<&str> = vec!["a", "b"];
    assert_eq!(refs.serialize_args(), ArgValue::List(vec![s("a"), s("b")]));
}

#[test]
fn tuples() {
    assert_eq!(
        ("k", 1u32).serialize_args(),
        ArgValue::Tuple(vec![s("k"), ArgValue::U32(1)])
    );
    assert_eq!(
        ("k", b"v".to_vec(), true).serialize_args(),
        ArgValue::Tuple(vec![s("k"), ArgValue::Bytes(b"v".to_vec()), ArgValue::Bool(true)])
    );
    assert_eq!(
        vec![("a", 1u8)].serialize_args(),
        ArgValue::List(vec![ArgValue::Tuple(vec![s("a"), ArgValue::U8(1)])])
    );
}

#[test]
fn serde_bridges_both_ways() {
    // As arguments, a `Serde` is written the way serde writes its content.
    assert_eq!(
        Serde(vec![1u8]).serialize_args(),
        ArgValue::List(vec![ArgValue::U8(1)])
    );
    // As a serde value, it is written the way its content is written as arguments.
    assert_eq!(Serde(vec![1u8]).to_serde_value(), ArgValue::Bytes(vec![1]));
    // Wrapped twice, a value keeps its arguments.
    assert_eq!(Serde(Serde(vec![1u8])).serialize_args(), ArgValue::Bytes(vec![1]));
    assert_eq!(
        vec![Serde(1i32), Serde(2i32)].serialize_args(),
        ArgValue::List(vec![ArgValue::I32(1), ArgValue::I32(2)])
    );
}
