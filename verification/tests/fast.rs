use resp_args::fast::{FastSerialize, WithFastSerialize, WithSerialize};
use resp_args::serde_value::SerdeValue;
use resp_args::value::ArgValue;

#[test]
fn bytes_take_the_fast_path() {
    let sl: &[u8] = b"ab";
    assert_eq!(sl.serialize(), ArgValue::Bytes(b"ab".to_vec()));
    assert_eq!([1u8, 2, 3].serialize(), ArgValue::Bytes(vec![1, 2, 3]));
    assert_eq!(vec![9u8].serialize(), ArgValue::Bytes(vec![9]));
    assert_eq!(Box::new(vec![9u8]).serialize(), ArgValue::Bytes(vec![9]));
}

#[test]
fn scalars_and_strings_as_serde_writes_them() {
    assert_eq!(FastSerialize::serialize(&7u8), ArgValue::U8(7));
    assert_eq!(FastSerialize::serialize(&-1isize), ArgValue::I64(-1));
    assert_eq!(FastSerialize::serialize(&5usize), ArgValue::U64(5));
    assert_eq!(FastSerialize::serialize("k"), ArgValue::Str("k".to_string()));
    assert_eq!(FastSerialize::serialize(&'c'), ArgValue::Char('c'));
}

#[test]
fn options_take_the_fast_form_of_their_content() {
    assert_eq!(
        Some(vec![1u8]).serialize(),
        ArgValue::Present(Box::new(ArgValue::Bytes(vec![1])))
    );
    assert_eq!(Option::<Vec<u8>>::None.serialize(), ArgValue::Absent);
}

#[test]
fn wrappers() {
    // `WithSerialize` keeps serde's own form, bytes included.
    assert_eq!(
        WithSerialize(vec![1u8, 2]).serialize(),
        ArgValue::List(vec![ArgValue::U8(1), ArgValue::U8(2)])
    );
    // `WithFastSerialize` hands serde the fast form.
    assert_eq!(WithFastSerialize(vec![1u8, 2]).to_serde_value(), ArgValue::Bytes(vec![1, 2]));
    assert_eq!(
        WithSerialize(WithFastSerialize(vec![3u8])).serialize(),
        ArgValue::Bytes(vec![3])
    );
}
