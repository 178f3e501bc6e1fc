//! Serialization with a fast path for byte strings.
use std::rc::Rc;
use std::sync::Arc;

use vstd::prelude::*;

use crate::args::Args;
use crate::serde_value::SerdeValue;
use crate::value::{ArgValue, Value};

verus! {

/// A serde value that may be written in a faster form than serde's own: byte
/// slices, byte arrays and byte vectors are written as one byte string rather
/// than as a sequence of numbers.
pub trait FastSerialize: SerdeValue {
    /// The data-model value written for `self`.
    spec fn fast_value(&self) -> Value;

    /// Computes the value written for `self`.
    fn serialize(&self) -> (r: ArgValue)
        ensures
            r@ == self.fast_value(),
    ;
}

/// As a serde value, written in the fast form of the value it holds.
pub struct WithFastSerialize<T>(pub T);

/// Written in serde's own form of the value it holds, both as a serde value
/// and in the fast form.
pub struct WithSerialize<T>(pub T);

impl<T: FastSerialize> SerdeValue for WithFastSerialize<T> {
    open spec fn serde_value(&self) -> Value {
        self.0.fast_value()
    }

    fn to_serde_value(&self) -> (r: ArgValue) {
        self.0.serialize()
    }
}

impl<T: SerdeValue> SerdeValue for WithSerialize<T> {
    open spec fn serde_value(&self) -> Value {
        self.0.serde_value()
    }

    fn to_serde_value(&self) -> (r: ArgValue) {
        self.0.to_serde_value()
    }
}

impl<T: SerdeValue> FastSerialize for WithSerialize<T> {
    open spec fn fast_value(&self) -> Value {
        self.serde_value()
    }

    fn serialize(&self) -> (r: ArgValue) {
        self.to_serde_value()
    }
}

/// Written as serde writes it.
impl FastSerialize for bool {
    open spec fn fast_value(&self) -> Value {
        self.serde_value()
    }

    fn serialize(&self) -> (r: ArgValue) {
        self.to_serde_value()
    }
}

/// Written as serde writes it.
impl FastSerialize for isize {
    open spec fn fast_value(&self) -> Value {
        self.serde_value()
    }

    fn serialize(&self) -> (r: ArgValue) {
        self.to_serde_value()
    }
}

/// Written as serde writes it.
impl FastSerialize for i8 {
    open spec fn fast_value(&self) -> Value {
        self.serde_value()
    }

    fn serialize(&self) -> (r: ArgValue) {
        self.to_serde_value()
    }
}

/// Written as serde writes it.
impl FastSerialize for i16 {
    open spec fn fast_value(&self) -> Value {
        self.serde_value()
    }

    fn serialize(&self) -> (r: ArgValue) {
        self.to_serde_value()
    }
}

/// Written as serde writes it.
impl FastSerialize for i32 {
    open spec fn fast_value(&self) -> Value {
        self.serde_value()
    }

    fn serialize(&self) -> (r: ArgValue) {
        self.to_serde_value()
    }
}

/// Written as serde writes it.
impl FastSerialize for i64 {
    open spec fn fast_value(&self) -> Value {
        self.serde_value()
    }

    fn serialize(&self) -> (r: ArgValue) {
        self.to_serde_value()
    }
}

/// Written as serde writes it.
impl FastSerialize for i128 {
    open spec fn fast_value(&self) -> Value {
        self.serde_value()
    }

    fn serialize(&self) -> (r: ArgValue) {
        self.to_serde_value()
    }
}

/// Written as serde writes it.
impl FastSerialize for usize {
    open spec fn fast_value(&self) -> Value {
        self.serde_value()
    }

    fn serialize(&self) -> (r: ArgValue) {
        self.to_serde_value()
    }
}

/// Written as serde writes it.
impl FastSerialize for u8 {
    open spec fn fast_value(&self) -> Value {
        self.serde_value()
    }

    fn serialize(&self) -> (r: ArgValue) {
        self.to_serde_value()
    }
}

/// Written as serde writes it.
impl FastSerialize for u16 {
    open spec fn fast_value(&self) -> Value {
        self.serde_value()
    }

    fn serialize(&self) -> (r: ArgValue) {
        self.to_serde_value()
    }
}

/// Written as serde writes it.
impl FastSerialize for u32 {
    open spec fn fast_value(&self) -> Value {
        self.serde_value()
    }

    fn serialize(&self) -> (r: ArgValue) {
        self.to_serde_value()
    }
}

/// Written as serde writes it.
impl FastSerialize for u64 {
    open spec fn fast_value(&self) -> Value {
        self.serde_value()
    }

    fn serialize(&self) -> (r: ArgValue) {
        self.to_serde_value()
    }
}

/// Written as serde writes it.
impl FastSerialize for u128 {
    open spec fn fast_value(&self) -> Value {
        self.serde_value()
    }

    fn serialize(&self) -> (r: ArgValue) {
        self.to_serde_value()
    }
}

/// Written as serde writes it.
impl FastSerialize for char {
    open spec fn fast_value(&self) -> Value {
        self.serde_value()
    }

    fn serialize(&self) -> (r: ArgValue) {
        self.to_serde_value()
    }
}

/// Written as serde writes it.
impl FastSerialize for str {
    open spec fn fast_value(&self) -> Value {
        self.serde_value()
    }

    fn serialize(&self) -> (r: ArgValue) {
        self.to_serde_value()
    }
}

/// Written as serde writes it.
impl FastSerialize for String {
    open spec fn fast_value(&self) -> Value {
        self.serde_value()
    }

    fn serialize(&self) -> (r: ArgValue) {
        self.to_serde_value()
    }
}

/// Written as one byte string.
impl FastSerialize for [u8] {
    open spec fn fast_value(&self) -> Value {
        Value::Bytes(self@)
    }

    fn serialize(&self) -> (r: ArgValue) {
        ArgValue::Bytes(vstd::slice::slice_to_vec(self))
    }
}

/// Written as one byte string.
impl<const N: usize> FastSerialize for [u8; N] {
    open spec fn fast_value(&self) -> Value {
        Value::Bytes(self@)
    }

    fn serialize(&self) -> (r: ArgValue) {
        self.as_slice().serialize()
    }
}

/// Written as one byte string.
impl FastSerialize for Vec<u8> {
    open spec fn fast_value(&self) -> Value {
        Value::Bytes(self@)
    }

    fn serialize(&self) -> (r: ArgValue) {
        self.as_slice().serialize()
    }
}

/// A present value is written as "some" of its fast form, an absent one as "none".
impl<T: FastSerialize> FastSerialize for Option<T> {
    open spec fn fast_value(&self) -> Value {
        match self {
            Some(v) => Value::Present(Box::new(v.fast_value())),
            None => Value::Absent,
        }
    }

    fn serialize(&self) -> (r: ArgValue) {
        match self {
            Some(v) => ArgValue::Present(Box::new(v.serialize())),
            None => ArgValue::Absent,
        }
    }
}

/// Written as the value it points to.
impl<'a, T: FastSerialize + ?Sized> FastSerialize for &'a T {
    open spec fn fast_value(&self) -> Value {
        (**self).fast_value()
    }

    fn serialize(&self) -> (r: ArgValue) {
        (**self).serialize()
    }
}

/// Written as the value it points to.
impl<'a, T: FastSerialize + ?Sized> FastSerialize for &'a mut T {
    open spec fn fast_value(&self) -> Value {
        (**self).fast_value()
    }

    fn serialize(&self) -> (r: ArgValue) {
        (**self).serialize()
    }
}

/// Written as the value it points to.
impl<T: FastSerialize + ?Sized> FastSerialize for Box<T> {
    open spec fn fast_value(&self) -> Value {
        (**self).fast_value()
    }

    fn serialize(&self) -> (r: ArgValue) {
        (**self).serialize()
    }
}

/// Written as the value it points to.
impl<T: FastSerialize + ?Sized> FastSerialize for Rc<T> {
    open spec fn fast_value(&self) -> Value {
        (**self).fast_value()
    }

    fn serialize(&self) -> (r: ArgValue) {
        (**self).serialize()
    }
}

/// Written as the value it points to.
impl<T: FastSerialize + ?Sized> FastSerialize for Arc<T> {
    open spec fn fast_value(&self) -> Value {
        (**self).fast_value()
    }

    fn serialize(&self) -> (r: ArgValue) {
        (**self).serialize()
    }
}

/// A slice, an array or a vector of bytes is written as one byte string
/// holding those bytes, also behind a reference or a box.
pub proof fn law_fast_bytes<const N: usize>(s: &[u8], a: [u8; N], v: Vec<u8>)
    ensures
        s.fast_value() == Value::Bytes(s@),
        a.fast_value() == Value::Bytes(a@),
        v.fast_value() == Value::Bytes(v@),
        (&v).fast_value() == Value::Bytes(v@),
        Box::new(v).fast_value() == Value::Bytes(v@),
{
}

/// `WithFastSerialize` hands serde the fast form of its content, and
/// `WithSerialize` gives serde's own form of its content as its fast form;
/// the two undo each other.
pub proof fn law_fast_wrappers<T: FastSerialize, U: SerdeValue>(x: T, y: U)
    ensures
        WithFastSerialize(x).serde_value() == x.fast_value(),
        WithSerialize(y).fast_value() == y.serde_value(),
        WithSerialize(y).serde_value() == y.serde_value(),
        WithSerialize(WithFastSerialize(x)).fast_value() == x.fast_value(),
        WithFastSerialize(WithSerialize(y)).serde_value() == y.serde_value(),
{
}

/// A present value is written as "some" of its fast form, an absent one as "none".
pub proof fn law_fast_options<T: FastSerialize>(x: T)
    ensures
        Some(x).fast_value() == Value::Present(Box::new(x.fast_value())),
        Option::<T>::None.fast_value() == Value::Absent,
{
}

/// The scalars and strings are written as serde writes them.
pub proof fn law_fast_scalars(b: bool, c: char, i: i64, u: u64, s: String, t: &str)
    ensures
        b.fast_value() == b.serde_value(),
        c.fast_value() == c.serde_value(),
        i.fast_value() == i.serde_value(),
        u.fast_value() == u.serde_value(),
        s.fast_value() == s.serde_value(),
        t.fast_value() == t.serde_value(),
{
}

/// Byte strings, strings and scalars take the same form whether written as
/// command arguments or in the fast form.
pub proof fn law_fast_agrees_with_args<const N: usize>(s: &[u8], a: [u8; N], v: Vec<u8>, t: String, u: u64)
    ensures
        s.fast_value() == s.args_value(),
        a.fast_value() == a.args_value(),
        v.fast_value() == v.args_value(),
        t.fast_value() == t.args_value(),
        u.fast_value() == u.args_value(),
{
}

/// In the fast form, a reference, a box, an `Rc` and an `Arc` are written as
/// the value they point to; so a pointer to a byte vector is one byte string.
pub proof fn law_fast_pointers<T: FastSerialize>(x: T, v: Vec<u8>)
    ensures
        (&x).fast_value() == x.fast_value(),
        Box::new(x).fast_value() == x.fast_value(),
        Rc::new(x).fast_value() == x.fast_value(),
        Arc::new(x).fast_value() == x.fast_value(),
        Rc::new(v).fast_value() == Value::Bytes(v@),
        Arc::new(v).fast_value() == Value::Bytes(v@),
{
}

/// In the fast form, each scalar and string is written as itself.
pub proof fn law_fast_scalar_values(
    b: bool,
    c: char,
    i: (i8, i16, i32, i64, i128, isize),
    u: (u8, u16, u32, u64, u128, usize),
    s: String,
    t: &str,
)
    ensures
        b.fast_value() == Value::Bool(b),
        c.fast_value() == Value::Char(c),
        i.0.fast_value() == Value::I8(i.0),
        i.1.fast_value() == Value::I16(i.1),
        i.2.fast_value() == Value::I32(i.2),
        i.3.fast_value() == Value::I64(i.3),
        i.4.fast_value() == Value::I128(i.4),
        i.5.fast_value() matches Value::I64(x) && x as int == i.5 as int,
        u.0.fast_value() == Value::U8(u.0),
        u.1.fast_value() == Value::U16(u.1),
        u.2.fast_value() == Value::U32(u.2),
        u.3.fast_value() == Value::U64(u.3),
        u.4.fast_value() == Value::U128(u.4),
        u.5.fast_value() matches Value::U64(x) && x as int == u.5 as int,
        s.fast_value() == Value::Str(s@),
        t.fast_value() == Value::Str(t@),
{
}

} // verus!
