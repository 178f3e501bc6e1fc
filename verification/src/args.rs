//! How a value is laid out as the arguments of a command.
use std::rc::Rc;
use std::sync::Arc;

use vstd::prelude::*;

use crate::serde_value::SerdeValue;
use crate::value::{collect_by, tuple2, tuple3, ArgValue, Value};

verus! {

/// A value that can be written as one or more arguments of a command.
///
/// Most values are written the way serde writes them; the differences are
/// that a slice, array or vector of bytes is written as a single byte string,
/// and that the items of containers are themselves written as arguments.
pub trait Args {
    /// The data-model value written for `self`.
    spec fn args_value(&self) -> Value;

    /// The data-model value written for a slice of such items: by default the
    /// sequence of the items' own values.
    open spec fn slice_value(items: Seq<Self>) -> Value where Self: Sized {
        Value::List(items.map_values(|x: Self| x.args_value()))
    }

    /// Computes the value written for `self`.
    fn serialize_args(&self) -> (r: ArgValue)
        ensures
            r@ == self.args_value(),
    ;

    /// Computes the value written for a slice of such items.
    fn serialize_args_slice(items: &[Self]) -> (r: ArgValue) where Self: Sized
        ensures
            r@ == Self::slice_value(items@),
    ;
}

/// A value meant to be written as a single argument of a command: the bound
/// that `#[arg]` puts in place of `Serialize` on a parameter without
/// `#[arg(many)]`.
pub trait Arg: Args {

}

/// Bridges serde and [`Args`]: as [`Args`], a `Serde` is written the way
/// serde writes the value it holds; as a serde value, it is written the way
/// [`Args`] writes the value it holds.
pub struct Serde<T>(pub T);

/// Written as serde writes it.
impl Args for bool {
    open spec fn args_value(&self) -> Value {
        self.serde_value()
    }

    fn serialize_args(&self) -> (r: ArgValue) {
        self.to_serde_value()
    }

    fn serialize_args_slice(items: &[bool]) -> (r: ArgValue) {
        let each = |x: &bool| -> (v: ArgValue)
            ensures
                v@ == x.args_value(),
            { x.serialize_args() };
        collect_by(items, each, Ghost(|x: bool| <bool as Args>::args_value(&x)))
    }
}

impl Arg for bool {

}

/// Written as serde writes it.
impl Args for char {
    open spec fn args_value(&self) -> Value {
        self.serde_value()
    }

    fn serialize_args(&self) -> (r: ArgValue) {
        self.to_serde_value()
    }

    fn serialize_args_slice(items: &[char]) -> (r: ArgValue) {
        let each = |x: &char| -> (v: ArgValue)
            ensures
                v@ == x.args_value(),
            { x.serialize_args() };
        collect_by(items, each, Ghost(|x: char| <char as Args>::args_value(&x)))
    }
}

impl Arg for char {

}

/// Written as serde writes it.
impl Args for i8 {
    open spec fn args_value(&self) -> Value {
        self.serde_value()
    }

    fn serialize_args(&self) -> (r: ArgValue) {
        self.to_serde_value()
    }

    fn serialize_args_slice(items: &[i8]) -> (r: ArgValue) {
        let each = |x: &i8| -> (v: ArgValue)
            ensures
                v@ == x.args_value(),
            { x.serialize_args() };
        collect_by(items, each, Ghost(|x: i8| <i8 as Args>::args_value(&x)))
    }
}

impl Arg for i8 {

}

/// Written as serde writes it.
impl Args for i16 {
    open spec fn args_value(&self) -> Value {
        self.serde_value()
    }

    fn serialize_args(&self) -> (r: ArgValue) {
        self.to_serde_value()
    }

    fn serialize_args_slice(items: &[i16]) -> (r: ArgValue) {
        let each = |x: &i16| -> (v: ArgValue)
            ensures
                v@ == x.args_value(),
            { x.serialize_args() };
        collect_by(items, each, Ghost(|x: i16| <i16 as Args>::args_value(&x)))
    }
}

impl Arg for i16 {

}

/// Written as serde writes it.
impl Args for i32 {
    open spec fn args_value(&self) -> Value {
        self.serde_value()
    }

    fn serialize_args(&self) -> (r: ArgValue) {
        self.to_serde_value()
    }

    fn serialize_args_slice(items: &[i32]) -> (r: ArgValue) {
        let each = |x: &i32| -> (v: ArgValue)
            ensures
                v@ == x.args_value(),
            { x.serialize_args() };
        collect_by(items, each, Ghost(|x: i32| <i32 as Args>::args_value(&x)))
    }
}

impl Arg for i32 {

}

/// Written as serde writes it.
impl Args for i64 {
    open spec fn args_value(&self) -> Value {
        self.serde_value()
    }

    fn serialize_args(&self) -> (r: ArgValue) {
        self.to_serde_value()
    }

    fn serialize_args_slice(items: &[i64]) -> (r: ArgValue) {
        let each = |x: &i64| -> (v: ArgValue)
            ensures
                v@ == x.args_value(),
            { x.serialize_args() };
        collect_by(items, each, Ghost(|x: i64| <i64 as Args>::args_value(&x)))
    }
}

impl Arg for i64 {

}

/// Written as serde writes it.
impl Args for i128 {
    open spec fn args_value(&self) -> Value {
        self.serde_value()
    }

    fn serialize_args(&self) -> (r: ArgValue) {
        self.to_serde_value()
    }

    fn serialize_args_slice(items: &[i128]) -> (r: ArgValue) {
        let each = |x: &i128| -> (v: ArgValue)
            ensures
                v@ == x.args_value(),
            { x.serialize_args() };
        collect_by(items, each, Ghost(|x: i128| <i128 as Args>::args_value(&x)))
    }
}

impl Arg for i128 {

}

/// Written as serde writes it.
impl Args for isize {
    open spec fn args_value(&self) -> Value {
        self.serde_value()
    }

    fn serialize_args(&self) -> (r: ArgValue) {
        self.to_serde_value()
    }

    fn serialize_args_slice(items: &[isize]) -> (r: ArgValue) {
        let each = |x: &isize| -> (v: ArgValue)
            ensures
                v@ == x.args_value(),
            { x.serialize_args() };
        collect_by(items, each, Ghost(|x: isize| <isize as Args>::args_value(&x)))
    }
}

impl Arg for isize {

}

/// Written as serde writes it.
impl Args for u16 {
    open spec fn args_value(&self) -> Value {
        self.serde_value()
    }

    fn serialize_args(&self) -> (r: ArgValue) {
        self.to_serde_value()
    }

    fn serialize_args_slice(items: &[u16]) -> (r: ArgValue) {
        let each = |x: &u16| -> (v: ArgValue)
            ensures
                v@ == x.args_value(),
            { x.serialize_args() };
        collect_by(items, each, Ghost(|x: u16| <u16 as Args>::args_value(&x)))
    }
}

impl Arg for u16 {

}

/// Written as serde writes it.
impl Args for u32 {
    open spec fn args_value(&self) -> Value {
        self.serde_value()
    }

    fn serialize_args(&self) -> (r: ArgValue) {
        self.to_serde_value()
    }

    fn serialize_args_slice(items: &[u32]) -> (r: ArgValue) {
        let each = |x: &u32| -> (v: ArgValue)
            ensures
                v@ == x.args_value(),
            { x.serialize_args() };
        collect_by(items, each, Ghost(|x: u32| <u32 as Args>::args_value(&x)))
    }
}

impl Arg for u32 {

}

/// Written as serde writes it.
impl Args for u64 {
    open spec fn args_value(&self) -> Value {
        self.serde_value()
    }

    fn serialize_args(&self) -> (r: ArgValue) {
        self.to_serde_value()
    }

    fn serialize_args_slice(items: &[u64]) -> (r: ArgValue) {
        let each = |x: &u64| -> (v: ArgValue)
            ensures
                v@ == x.args_value(),
            { x.serialize_args() };
        collect_by(items, each, Ghost(|x: u64| <u64 as Args>::args_value(&x)))
    }
}

impl Arg for u64 {

}

/// Written as serde writes it.
impl Args for u128 {
    open spec fn args_value(&self) -> Value {
        self.serde_value()
    }

    fn serialize_args(&self) -> (r: ArgValue) {
        self.to_serde_value()
    }

    fn serialize_args_slice(items: &[u128]) -> (r: ArgValue) {
        let each = |x: &u128| -> (v: ArgValue)
            ensures
                v@ == x.args_value(),
            { x.serialize_args() };
        collect_by(items, each, Ghost(|x: u128| <u128 as Args>::args_value(&x)))
    }
}

impl Arg for u128 {

}

/// Written as serde writes it.
impl Args for usize {
    open spec fn args_value(&self) -> Value {
        self.serde_value()
    }

    fn serialize_args(&self) -> (r: ArgValue) {
        self.to_serde_value()
    }

    fn serialize_args_slice(items: &[usize]) -> (r: ArgValue) {
        let each = |x: &usize| -> (v: ArgValue)
            ensures
                v@ == x.args_value(),
            { x.serialize_args() };
        collect_by(items, each, Ghost(|x: usize| <usize as Args>::args_value(&x)))
    }
}

impl Arg for usize {

}

/// Written as serde writes it.
impl Args for String {
    open spec fn args_value(&self) -> Value {
        self.serde_value()
    }

    fn serialize_args(&self) -> (r: ArgValue) {
        self.to_serde_value()
    }

    fn serialize_args_slice(items: &[String]) -> (r: ArgValue) {
        let each = |x: &String| -> (v: ArgValue)
            ensures
                v@ == x.args_value(),
            { x.serialize_args() };
        collect_by(items, each, Ghost(|x: String| <String as Args>::args_value(&x)))
    }
}

impl Arg for String {

}

/// Written as serde writes it.
impl Args for () {
    open spec fn args_value(&self) -> Value {
        self.serde_value()
    }

    fn serialize_args(&self) -> (r: ArgValue) {
        self.to_serde_value()
    }

    fn serialize_args_slice(items: &[()]) -> (r: ArgValue) {
        let each = |x: &()| -> (v: ArgValue)
            ensures
                v@ == x.args_value(),
            { x.serialize_args() };
        collect_by(items, each, Ghost(|x: ()| <() as Args>::args_value(&x)))
    }
}

impl Arg for () {

}

/// Written as serde writes it.
impl Args for str {
    open spec fn args_value(&self) -> Value {
        self.serde_value()
    }

    fn serialize_args(&self) -> (r: ArgValue) {
        self.to_serde_value()
    }
}

impl Arg for str {

}

/// A single byte is written as a number; a slice of bytes as one byte string.
impl Args for u8 {
    open spec fn args_value(&self) -> Value {
        Value::U8(*self)
    }

    open spec fn slice_value(items: Seq<u8>) -> Value {
        Value::Bytes(items)
    }

    fn serialize_args(&self) -> (r: ArgValue) {
        ArgValue::U8(*self)
    }

    fn serialize_args_slice(items: &[u8]) -> (r: ArgValue) {
        ArgValue::Bytes(vstd::slice::slice_to_vec(items))
    }
}

impl Arg for u8 {

}

impl Arg for [u8] {

}

impl<const N: usize> Arg for [u8; N] {

}

impl Arg for Vec<u8> {

}

/// As [`Args`], written as serde writes the value held.
impl<T: SerdeValue> Args for Serde<T> {
    open spec fn args_value(&self) -> Value {
        self.0.serde_value()
    }

    fn serialize_args(&self) -> (r: ArgValue) {
        self.0.to_serde_value()
    }

    fn serialize_args_slice(items: &[Serde<T>]) -> (r: ArgValue) {
        let each = |x: &Serde<T>| -> (v: ArgValue)
            ensures
                v@ == x.args_value(),
            { x.serialize_args() };
        collect_by(items, each, Ghost(|x: Serde<T>| <Serde<T> as Args>::args_value(&x)))
    }
}

impl<T: SerdeValue> Arg for Serde<T> {

}

/// As a serde value, written as [`Args`] writes the value held.
impl<T: Args> SerdeValue for Serde<T> {
    open spec fn serde_value(&self) -> Value {
        self.0.args_value()
    }

    fn to_serde_value(&self) -> (r: ArgValue) {
        self.0.serialize_args()
    }
}

/// A present value is written as "some" of its arguments, an absent one as "none".
impl<T: Args> Args for Option<T> {
    open spec fn args_value(&self) -> Value {
        match self {
            Some(v) => Value::Present(Box::new(v.args_value())),
            None => Value::Absent,
        }
    }

    fn serialize_args(&self) -> (r: ArgValue) {
        match self {
            Some(v) => ArgValue::Present(Box::new(v.serialize_args())),
            None => ArgValue::Absent,
        }
    }

    fn serialize_args_slice(items: &[Option<T>]) -> (r: ArgValue) {
        let each = |x: &Option<T>| -> (v: ArgValue)
            ensures
                v@ == x.args_value(),
            { x.serialize_args() };
        collect_by(items, each, Ghost(|x: Option<T>| <Option<T> as Args>::args_value(&x)))
    }
}

impl<T: Arg> Arg for Option<T> {

}

/// Written as the value it points to.
impl<'a, T: Args + ?Sized> Args for &'a T {
    open spec fn args_value(&self) -> Value {
        (**self).args_value()
    }

    fn serialize_args(&self) -> (r: ArgValue) {
        (**self).serialize_args()
    }

    fn serialize_args_slice(items: &[&'a T]) -> (r: ArgValue) {
        let each = |x: &&'a T| -> (v: ArgValue)
            ensures
                v@ == x.args_value(),
            { x.serialize_args() };
        collect_by(items, each, Ghost(|x: &'a T| <&'a T as Args>::args_value(&x)))
    }
}

impl<'a, T: Arg + ?Sized> Arg for &'a T {

}

/// Written as the value it points to.
impl<'a, T: Args + ?Sized> Args for &'a mut T {
    open spec fn args_value(&self) -> Value {
        (**self).args_value()
    }

    fn serialize_args(&self) -> (r: ArgValue) {
        (**self).serialize_args()
    }

    fn serialize_args_slice(items: &[&'a mut T]) -> (r: ArgValue) {
        let each = |x: &&'a mut T| -> (v: ArgValue)
            ensures
                v@ == x.args_value(),
            { x.serialize_args() };
        collect_by(items, each, Ghost(|x: &'a mut T| <&'a mut T as Args>::args_value(&x)))
    }
}

impl<'a, T: Arg + ?Sized> Arg for &'a mut T {

}

/// Written as the value it points to.
impl<T: Args + ?Sized> Args for Box<T> {
    open spec fn args_value(&self) -> Value {
        (**self).args_value()
    }

    fn serialize_args(&self) -> (r: ArgValue) {
        (**self).serialize_args()
    }

    fn serialize_args_slice(items: &[Box<T>]) -> (r: ArgValue) {
        let each = |x: &Box<T>| -> (v: ArgValue)
            ensures
                v@ == x.args_value(),
            { x.serialize_args() };
        collect_by(items, each, Ghost(|x: Box<T>| <Box<T> as Args>::args_value(&x)))
    }
}

impl<T: Arg + ?Sized> Arg for Box<T> {

}

/// Written as the value it points to.
impl<T: Args + ?Sized> Args for Rc<T> {
    open spec fn args_value(&self) -> Value {
        (**self).args_value()
    }

    fn serialize_args(&self) -> (r: ArgValue) {
        (**self).serialize_args()
    }

    fn serialize_args_slice(items: &[Rc<T>]) -> (r: ArgValue) {
        let each = |x: &Rc<T>| -> (v: ArgValue)
            ensures
                v@ == x.args_value(),
            { x.serialize_args() };
        collect_by(items, each, Ghost(|x: Rc<T>| <Rc<T> as Args>::args_value(&x)))
    }
}

impl<T: Arg + ?Sized> Arg for Rc<T> {

}

/// Written as the value it points to.
impl<T: Args + ?Sized> Args for Arc<T> {
    open spec fn args_value(&self) -> Value {
        (**self).args_value()
    }

    fn serialize_args(&self) -> (r: ArgValue) {
        (**self).serialize_args()
    }

    fn serialize_args_slice(items: &[Arc<T>]) -> (r: ArgValue) {
        let each = |x: &Arc<T>| -> (v: ArgValue)
            ensures
                v@ == x.args_value(),
            { x.serialize_args() };
        collect_by(items, each, Ghost(|x: Arc<T>| <Arc<T> as Args>::args_value(&x)))
    }
}

impl<T: Arg + ?Sized> Arg for Arc<T> {

}

/// Written as its items are written as a slice.
impl<T: Args> Args for [T] {
    open spec fn args_value(&self) -> Value {
        T::slice_value(self@)
    }

    fn serialize_args(&self) -> (r: ArgValue) {
        T::serialize_args_slice(self)
    }
}

/// Written as its items are written as a slice.
impl<T: Args, const N: usize> Args for [T; N] {
    open spec fn args_value(&self) -> Value {
        T::slice_value(self@)
    }

    fn serialize_args(&self) -> (r: ArgValue) {
        T::serialize_args_slice(self.as_slice())
    }

    fn serialize_args_slice(items: &[[T; N]]) -> (r: ArgValue) {
        let each = |x: &[T; N]| -> (v: ArgValue)
            ensures
                v@ == x.args_value(),
            { x.serialize_args() };
        collect_by(items, each, Ghost(|x: [T; N]| <[T; N] as Args>::args_value(&x)))
    }
}

/// Written as its items are written as a slice.
impl<T: Args> Args for Vec<T> {
    open spec fn args_value(&self) -> Value {
        T::slice_value(self@)
    }

    fn serialize_args(&self) -> (r: ArgValue) {
        T::serialize_args_slice(self.as_slice())
    }

    fn serialize_args_slice(items: &[Vec<T>]) -> (r: ArgValue) {
        let each = |x: &Vec<T>| -> (v: ArgValue)
            ensures
                v@ == x.args_value(),
            { x.serialize_args() };
        collect_by(items, each, Ghost(|x: Vec<T>| <Vec<T> as Args>::args_value(&x)))
    }
}

/// Written as the tuple of its components' arguments.
impl<T0: Args, T1: Args> Args for (T0, T1) {
    open spec fn args_value(&self) -> Value {
        Value::Tuple(seq![self.0.args_value(), self.1.args_value()])
    }

    fn serialize_args(&self) -> (r: ArgValue) {
        tuple2(self.0.serialize_args(), self.1.serialize_args())
    }

    fn serialize_args_slice(items: &[(T0, T1)]) -> (r: ArgValue) {
        let each = |x: &(T0, T1)| -> (v: ArgValue)
            ensures
                v@ == x.args_value(),
            { x.serialize_args() };
        collect_by(items, each, Ghost(|x: (T0, T1)| <(T0, T1) as Args>::args_value(&x)))
    }
}

/// Written as the tuple of its components' arguments.
impl<T0: Args, T1: Args, T2: Args> Args for (T0, T1, T2) {
    open spec fn args_value(&self) -> Value {
        Value::Tuple(seq![self.0.args_value(), self.1.args_value(), self.2.args_value()])
    }

    fn serialize_args(&self) -> (r: ArgValue) {
        tuple3(self.0.serialize_args(), self.1.serialize_args(), self.2.serialize_args())
    }

    fn serialize_args_slice(items: &[(T0, T1, T2)]) -> (r: ArgValue) {
        let each = |x: &(T0, T1, T2)| -> (v: ArgValue)
            ensures
                v@ == x.args_value(),
            { x.serialize_args() };
        collect_by(items, each, Ghost(|x: (T0, T1, T2)| <(T0, T1, T2) as Args>::args_value(&x)))
    }
}

/// A slice, an array or a vector of bytes is written as one byte string
/// holding those bytes, where serde itself writes a sequence of numbers.
pub proof fn law_bytes_are_one_argument<const N: usize>(s: &[u8], a: [u8; N], v: Vec<u8>)
    ensures
        s.args_value() == Value::Bytes(s@),
        a.args_value() == Value::Bytes(a@),
        v.args_value() == Value::Bytes(v@),
        v.serde_value() == Value::List(v@.map_values(|b: u8| Value::U8(b))),
{
    assert(v@.map_values(|b: u8| b.serde_value()) == v@.map_values(|b: u8| Value::U8(b)));
}

/// A vector of byte vectors is written as a list of byte strings, one for
/// each element, and a vector of strings as a list of strings.
pub proof fn law_vectors_of_arguments(bs: Vec<Vec<u8>>, ss: Vec<String>)
    ensures
        bs.args_value() == Value::List(bs@.map_values(|b: Vec<u8>| Value::Bytes(b@))),
        ss.args_value() == Value::List(ss@.map_values(|s: String| Value::Str(s@))),
{
    assert(bs@.map_values(|b: Vec<u8>| b.args_value()) == bs@.map_values(|b: Vec<u8>| Value::Bytes(b@)));
    assert(ss@.map_values(|s: String| s.args_value()) == ss@.map_values(|s: String| Value::Str(s@)));
}

/// A slice, an array and a vector with the same items are written alike.
pub proof fn law_sequences_agree<T: Args, const N: usize>(s: &[T], a: [T; N], v: Vec<T>)
    requires
        s@ == a@,
        a@ == v@,
    ensures
        s.args_value() == a.args_value(),
        a.args_value() == v.args_value(),
{
}

/// A reference, a box, an `Rc` and an `Arc` are written as the value they
/// point to.
pub proof fn law_pointers_are_transparent<T: Args>(x: T)
    ensures
        (&x).args_value() == x.args_value(),
        Box::new(x).args_value() == x.args_value(),
        Rc::new(x).args_value() == x.args_value(),
        Arc::new(x).args_value() == x.args_value(),
{
}

/// A present value is written as "some" of its arguments, an absent one as "none".
pub proof fn law_options<T: Args>(x: T)
    ensures
        Some(x).args_value() == Value::Present(Box::new(x.args_value())),
        Option::<T>::None.args_value() == Value::Absent,
{
}

/// `Serde` bridges the two ways of writing a value: as arguments, a `Serde`
/// is written as serde writes its content, and as a serde value it is written
/// as the arguments of its content; so the arguments of a value survive being
/// wrapped twice.
pub proof fn law_serde_bridges<T: Args, U: SerdeValue>(x: T, y: U)
    ensures
        Serde(y).args_value() == y.serde_value(),
        Serde(x).serde_value() == x.args_value(),
        Serde(Serde(x)).args_value() == x.args_value(),
{
}

/// The scalars, strings and the unit are written as serde writes them.
pub proof fn law_scalars_as_serde(
    b: bool,
    c: char,
    i: (i8, i16, i32, i64, i128, isize),
    u: (u8, u16, u32, u64, u128, usize),
    s: String,
    t: &str,
)
    ensures
        b.args_value() == b.serde_value(),
        c.args_value() == c.serde_value(),
        i.0.args_value() == i.0.serde_value(),
        i.1.args_value() == i.1.serde_value(),
        i.2.args_value() == i.2.serde_value(),
        i.3.args_value() == i.3.serde_value(),
        i.4.args_value() == i.4.serde_value(),
        i.5.args_value() == i.5.serde_value(),
        u.0.args_value() == u.0.serde_value(),
        u.1.args_value() == u.1.serde_value(),
        u.2.args_value() == u.2.serde_value(),
        u.3.args_value() == u.3.serde_value(),
        u.4.args_value() == u.4.serde_value(),
        u.5.args_value() == u.5.serde_value(),
        s.args_value() == s.serde_value(),
        t.args_value() == t.serde_value(),
        ().args_value() == ().serde_value(),
{
}

/// Each scalar, string and the unit is written as one argument holding
/// itself: a signed integer of at most 64 bits and an `isize` as that signed
/// value, an unsigned one and a `usize` likewise, a string as its characters.
pub proof fn law_scalar_arguments(
    b: bool,
    c: char,
    i: (i8, i16, i32, i64, i128, isize),
    u: (u8, u16, u32, u64, u128, usize),
    s: String,
    t: &str,
)
    ensures
        b.args_value() == Value::Bool(b),
        c.args_value() == Value::Char(c),
        i.0.args_value() == Value::I8(i.0),
        i.1.args_value() == Value::I16(i.1),
        i.2.args_value() == Value::I32(i.2),
        i.3.args_value() == Value::I64(i.3),
        i.4.args_value() == Value::I128(i.4),
        i.5.args_value() matches Value::I64(x) && x as int == i.5 as int,
        u.0.args_value() == Value::U8(u.0),
        u.1.args_value() == Value::U16(u.1),
        u.2.args_value() == Value::U32(u.2),
        u.3.args_value() == Value::U64(u.3),
        u.4.args_value() == Value::U128(u.4),
        u.5.args_value() matches Value::U64(x) && x as int == u.5 as int,
        s.args_value() == Value::Str(s@),
        t.args_value() == Value::Str(t@),
        ().args_value() == Value::Unit,
{
}

/// A pair or a triple is written as the tuple of its components' arguments,
/// first component first.
pub proof fn law_tuples_in_order<T0: Args, T1: Args, T2: Args>(x: T0, y: T1, z: T2)
    ensures
        (x, y).args_value() matches Value::Tuple(l) && l.len() == 2 && l[0] == x.args_value()
            && l[1] == y.args_value(),
        (x, y, z).args_value() matches Value::Tuple(l) && l.len() == 3 && l[0] == x.args_value()
            && l[1] == y.args_value() && l[2] == z.args_value(),
{
}

/// Through `Serde`, a slice, a vector or an array of serde values is written
/// as serde writes it: every item, in order.
pub proof fn law_serde_of_sequences<T: SerdeValue, const N: usize>(s: &[T], v: Vec<T>, a: [T; N])
    ensures
        Serde(s).args_value() matches Value::List(l) && l.len() == s@.len()
            && forall|k: int| 0 <= k < s@.len() ==> #[trigger] l[k] == s@[k].serde_value(),
        Serde(v).args_value() matches Value::List(l) && l.len() == v@.len()
            && forall|k: int| 0 <= k < v@.len() ==> #[trigger] l[k] == v@[k].serde_value(),
        Serde(a).args_value() matches Value::Tuple(l) && l.len() == a@.len()
            && forall|k: int| 0 <= k < a@.len() ==> #[trigger] l[k] == a@[k].serde_value(),
{
}

/// A vector, an array or a slice of items other than bytes, such as strings,
/// numbers or byte vectors, is written as the list of each item's arguments,
/// every item in order.
pub proof fn law_lists_of_items<const N: usize>(ss: Vec<String>, ns: [u32; N], bs: &[Vec<u8>], os: Vec<Option<u64>>)
    ensures
        ss.args_value() matches Value::List(l) && l.len() == ss@.len()
            && forall|k: int| 0 <= k < ss@.len() ==> #[trigger] l[k] == Value::Str(ss@[k]@),
        ns.args_value() matches Value::List(l) && l.len() == ns@.len()
            && forall|k: int| 0 <= k < ns@.len() ==> #[trigger] l[k] == Value::U32(ns@[k]),
        bs.args_value() matches Value::List(l) && l.len() == bs@.len()
            && forall|k: int| 0 <= k < bs@.len() ==> #[trigger] l[k] == Value::Bytes(bs@[k]@),
        os.args_value() matches Value::List(l) && l.len() == os@.len()
            && forall|k: int| 0 <= k < os@.len() ==> #[trigger] l[k] == match os@[k] {
                Some(x) => Value::Present(Box::new(Value::U64(x))),
                None => Value::Absent,
            },
{
}

} // verus!
