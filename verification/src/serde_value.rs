//! The values that serde's own `Serialize` impls hand a serializer.
use std::rc::Rc;
use std::sync::Arc;

use vstd::prelude::*;

use crate::value::{collect_by, tuple2, tuple3, ArgValue, Value};

verus! {

/// A type that serde can serialize, together with the data-model value that
/// serde's own `Serialize` impl for it hands the serializer.
pub trait SerdeValue {
    /// The data-model value of `self` under serde's own impl.
    spec fn serde_value(&self) -> Value;

    /// Computes [`SerdeValue::serde_value`].
    fn to_serde_value(&self) -> (r: ArgValue)
        ensures
            r@ == self.serde_value(),
    ;
}

impl SerdeValue for bool {
    open spec fn serde_value(&self) -> Value {
        Value::Bool(*self)
    }

    fn to_serde_value(&self) -> (r: ArgValue) {
        ArgValue::Bool(*self)
    }
}

fn char_value(c: char) -> (r: ArgValue)
    ensures
        r@ == Value::Char(c),
{
    ArgValue::Char(c)
}

impl SerdeValue for char {
    open spec fn serde_value(&self) -> Value {
        Value::Char(*self)
    }

    fn to_serde_value(&self) -> (r: ArgValue) {
        char_value(*self)
    }
}

impl SerdeValue for i8 {
    open spec fn serde_value(&self) -> Value {
        Value::I8(*self)
    }

    fn to_serde_value(&self) -> (r: ArgValue) {
        ArgValue::I8(*self)
    }
}

impl SerdeValue for i16 {
    open spec fn serde_value(&self) -> Value {
        Value::I16(*self)
    }

    fn to_serde_value(&self) -> (r: ArgValue) {
        ArgValue::I16(*self)
    }
}

impl SerdeValue for i32 {
    open spec fn serde_value(&self) -> Value {
        Value::I32(*self)
    }

    fn to_serde_value(&self) -> (r: ArgValue) {
        ArgValue::I32(*self)
    }
}

impl SerdeValue for i64 {
    open spec fn serde_value(&self) -> Value {
        Value::I64(*self)
    }

    fn to_serde_value(&self) -> (r: ArgValue) {
        ArgValue::I64(*self)
    }
}

impl SerdeValue for i128 {
    open spec fn serde_value(&self) -> Value {
        Value::I128(*self)
    }

    fn to_serde_value(&self) -> (r: ArgValue) {
        ArgValue::I128(*self)
    }
}

/// serde hands an `isize` over as an `i64`.
impl SerdeValue for isize {
    open spec fn serde_value(&self) -> Value {
        Value::I64(*self as i64)
    }

    fn to_serde_value(&self) -> (r: ArgValue) {
        ArgValue::I64(*self as i64)
    }
}

impl SerdeValue for u8 {
    open spec fn serde_value(&self) -> Value {
        Value::U8(*self)
    }

    fn to_serde_value(&self) -> (r: ArgValue) {
        ArgValue::U8(*self)
    }
}

impl SerdeValue for u16 {
    open spec fn serde_value(&self) -> Value {
        Value::U16(*self)
    }

    fn to_serde_value(&self) -> (r: ArgValue) {
        ArgValue::U16(*self)
    }
}

impl SerdeValue for u32 {
    open spec fn serde_value(&self) -> Value {
        Value::U32(*self)
    }

    fn to_serde_value(&self) -> (r: ArgValue) {
        ArgValue::U32(*self)
    }
}

impl SerdeValue for u64 {
    open spec fn serde_value(&self) -> Value {
        Value::U64(*self)
    }

    fn to_serde_value(&self) -> (r: ArgValue) {
        ArgValue::U64(*self)
    }
}

impl SerdeValue for u128 {
    open spec fn serde_value(&self) -> Value {
        Value::U128(*self)
    }

    fn to_serde_value(&self) -> (r: ArgValue) {
        ArgValue::U128(*self)
    }
}

/// serde hands a `usize` over as a `u64`.
impl SerdeValue for usize {
    open spec fn serde_value(&self) -> Value {
        Value::U64(*self as u64)
    }

    fn to_serde_value(&self) -> (r: ArgValue) {
        ArgValue::U64(*self as u64)
    }
}

impl SerdeValue for str {
    open spec fn serde_value(&self) -> Value {
        Value::Str(self@)
    }

    fn to_serde_value(&self) -> (r: ArgValue) {
        ArgValue::Str(self.to_string())
    }
}

impl SerdeValue for String {
    open spec fn serde_value(&self) -> Value {
        Value::Str(self@)
    }

    fn to_serde_value(&self) -> (r: ArgValue) {
        ArgValue::Str(self.clone())
    }
}

impl SerdeValue for () {
    open spec fn serde_value(&self) -> Value {
        Value::Unit
    }

    fn to_serde_value(&self) -> (r: ArgValue) {
        ArgValue::Unit
    }
}

impl<T: SerdeValue> SerdeValue for Option<T> {
    open spec fn serde_value(&self) -> Value {
        match self {
            Some(v) => Value::Present(Box::new(v.serde_value())),
            None => Value::Absent,
        }
    }

    fn to_serde_value(&self) -> (r: ArgValue) {
        match self {
            Some(v) => ArgValue::Present(Box::new(v.to_serde_value())),
            None => ArgValue::Absent,
        }
    }
}

impl<'a, T: SerdeValue + ?Sized> SerdeValue for &'a T {
    open spec fn serde_value(&self) -> Value {
        (**self).serde_value()
    }

    fn to_serde_value(&self) -> (r: ArgValue) {
        (**self).to_serde_value()
    }
}

impl<'a, T: SerdeValue + ?Sized> SerdeValue for &'a mut T {
    open spec fn serde_value(&self) -> Value {
        (**self).serde_value()
    }

    fn to_serde_value(&self) -> (r: ArgValue) {
        (**self).to_serde_value()
    }
}

impl<T: SerdeValue + ?Sized> SerdeValue for Box<T> {
    open spec fn serde_value(&self) -> Value {
        (**self).serde_value()
    }

    fn to_serde_value(&self) -> (r: ArgValue) {
        (**self).to_serde_value()
    }
}

/// serde's impl behind its `rc` feature: the shared value itself.
impl<T: SerdeValue + ?Sized> SerdeValue for Rc<T> {
    open spec fn serde_value(&self) -> Value {
        (**self).serde_value()
    }

    fn to_serde_value(&self) -> (r: ArgValue) {
        (**self).to_serde_value()
    }
}

/// serde's impl behind its `rc` feature: the shared value itself.
impl<T: SerdeValue + ?Sized> SerdeValue for Arc<T> {
    open spec fn serde_value(&self) -> Value {
        (**self).serde_value()
    }

    fn to_serde_value(&self) -> (r: ArgValue) {
        (**self).to_serde_value()
    }
}

/// A slice is a sequence of its items.
impl<T: SerdeValue> SerdeValue for [T] {
    open spec fn serde_value(&self) -> Value {
        Value::List(self@.map_values(|x: T| x.serde_value()))
    }

    fn to_serde_value(&self) -> (r: ArgValue) {
        let each = |x: &T| -> (v: ArgValue)
            ensures
                v@ == x.serde_value(),
            { x.to_serde_value() };
        collect_by(self, each, Ghost(|x: T| x.serde_value()))
    }
}

/// A vector is a sequence of its items.
impl<T: SerdeValue> SerdeValue for Vec<T> {
    open spec fn serde_value(&self) -> Value {
        Value::List(self@.map_values(|x: T| x.serde_value()))
    }

    fn to_serde_value(&self) -> (r: ArgValue) {
        let each = |x: &T| -> (v: ArgValue)
            ensures
                v@ == x.serde_value(),
            { x.to_serde_value() };
        collect_by(self.as_slice(), each, Ghost(|x: T| x.serde_value()))
    }
}

/// An array is a tuple of its items.
impl<T: SerdeValue, const N: usize> SerdeValue for [T; N] {
    open spec fn serde_value(&self) -> Value {
        Value::Tuple(self@.map_values(|x: T| x.serde_value()))
    }

    fn to_serde_value(&self) -> (r: ArgValue) {
        let each = |x: &T| -> (v: ArgValue)
            ensures
                v@ == x.serde_value(),
            { x.to_serde_value() };
        match collect_by(self.as_slice(), each, Ghost(|x: T| x.serde_value())) {
            ArgValue::List(items) => ArgValue::Tuple(items),
            other => other,
        }
    }
}

impl<T0: SerdeValue, T1: SerdeValue> SerdeValue for (T0, T1) {
    open spec fn serde_value(&self) -> Value {
        Value::Tuple(seq![self.0.serde_value(), self.1.serde_value()])
    }

    fn to_serde_value(&self) -> (r: ArgValue) {
        tuple2(self.0.to_serde_value(), self.1.to_serde_value())
    }
}

impl<T0: SerdeValue, T1: SerdeValue, T2: SerdeValue> SerdeValue for (T0, T1, T2) {
    open spec fn serde_value(&self) -> Value {
        Value::Tuple(seq![self.0.serde_value(), self.1.serde_value(), self.2.serde_value()])
    }

    fn to_serde_value(&self) -> (r: ArgValue) {
        tuple3(self.0.to_serde_value(), self.1.to_serde_value(), self.2.to_serde_value())
    }
}

/// serde writes each scalar, string and the unit as itself: a signed integer
/// of at most 64 bits and an `isize` as that signed value, an unsigned one and
/// a `usize` likewise, a string as its characters.
pub proof fn law_serde_scalars(
    b: bool,
    c: char,
    i: (i8, i16, i32, i64, i128, isize),
    u: (u8, u16, u32, u64, u128, usize),
    s: String,
    t: &str,
)
    ensures
        b.serde_value() == Value::Bool(b),
        c.serde_value() == Value::Char(c),
        i.0.serde_value() == Value::I8(i.0),
        i.1.serde_value() == Value::I16(i.1),
        i.2.serde_value() == Value::I32(i.2),
        i.3.serde_value() == Value::I64(i.3),
        i.4.serde_value() == Value::I128(i.4),
        i.5.serde_value() matches Value::I64(x) && x as int == i.5 as int,
        u.0.serde_value() == Value::U8(u.0),
        u.1.serde_value() == Value::U16(u.1),
        u.2.serde_value() == Value::U32(u.2),
        u.3.serde_value() == Value::U64(u.3),
        u.4.serde_value() == Value::U128(u.4),
        u.5.serde_value() matches Value::U64(x) && x as int == u.5 as int,
        s.serde_value() == Value::Str(s@),
        t.serde_value() == Value::Str(t@),
        ().serde_value() == Value::Unit,
{
}

/// serde writes a slice and a vector as the sequence of all their items, in
/// order, and an array as the tuple of all its items.
pub proof fn law_serde_sequences<T: SerdeValue, const N: usize>(s: &[T], v: Vec<T>, a: [T; N])
    ensures
        s.serde_value() matches Value::List(l) && l.len() == s@.len()
            && forall|k: int| 0 <= k < s@.len() ==> #[trigger] l[k] == s@[k].serde_value(),
        v.serde_value() matches Value::List(l) && l.len() == v@.len()
            && forall|k: int| 0 <= k < v@.len() ==> #[trigger] l[k] == v@[k].serde_value(),
        a.serde_value() matches Value::Tuple(l) && l.len() == a@.len()
            && forall|k: int| 0 <= k < a@.len() ==> #[trigger] l[k] == a@[k].serde_value(),
{
}

/// serde writes a pair or a triple as the tuple of its components, in order,
/// an option as "some" of its content or "none", and a reference, box, `Rc`
/// or `Arc` as the value it points to.
pub proof fn law_serde_composites<T0: SerdeValue, T1: SerdeValue, T2: SerdeValue>(x: T0, y: T1, z: T2)
    ensures
        (x, y).serde_value() == Value::Tuple(seq![x.serde_value(), y.serde_value()]),
        (x, y, z).serde_value() == Value::Tuple(seq![x.serde_value(), y.serde_value(), z.serde_value()]),
        Some(x).serde_value() == Value::Present(Box::new(x.serde_value())),
        Option::<T0>::None.serde_value() == Value::Absent,
        (&x).serde_value() == x.serde_value(),
        Box::new(x).serde_value() == x.serde_value(),
        Rc::new(x).serde_value() == x.serde_value(),
        Arc::new(x).serde_value() == x.serde_value(),
{
}

} // verus!
