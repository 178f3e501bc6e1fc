//! The serde data model: the values the library hands a serializer.
use vstd::prelude::*;

verus! {

/// A value of the serde data model, as the library hands it to a serializer.
#[derive(Debug, PartialEq, Eq)]
pub enum ArgValue {
    Bool(bool),
    Char(char),
    I8(i8),
    I16(i16),
    I32(i32),
    I64(i64),
    I128(i128),
    U8(u8),
    U16(u16),
    U32(u32),
    U64(u64),
    U128(u128),
    Str(String),
    Bytes(Vec<u8>),
    Unit,
    Absent,
    Present(Box<ArgValue>),
    List(Vec<ArgValue>),
    Tuple(Vec<ArgValue>),
    Dict(Vec<(ArgValue, ArgValue)>),
}

/// The mathematical counterpart of [`ArgValue`].
pub enum Value {
    Bool(bool),
    Char(char),
    I8(i8),
    I16(i16),
    I32(i32),
    I64(i64),
    I128(i128),
    U8(u8),
    U16(u16),
    U32(u32),
    U64(u64),
    U128(u128),
    Str(Seq<char>),
    Bytes(Seq<u8>),
    Unit,
    Absent,
    Present(Box<Value>),
    List(Seq<Value>),
    Tuple(Seq<Value>),
    Dict(Seq<(Value, Value)>),
}

impl View for ArgValue {
    type V = Value;

    open spec fn view(&self) -> Value
        decreases self,
    {
        match self {
            ArgValue::Bool(b) => Value::Bool(*b),
            ArgValue::Char(c) => Value::Char(*c),
            ArgValue::I8(x) => Value::I8(*x),
            ArgValue::I16(x) => Value::I16(*x),
            ArgValue::I32(x) => Value::I32(*x),
            ArgValue::I64(x) => Value::I64(*x),
            ArgValue::I128(x) => Value::I128(*x),
            ArgValue::U8(x) => Value::U8(*x),
            ArgValue::U16(x) => Value::U16(*x),
            ArgValue::U32(x) => Value::U32(*x),
            ArgValue::U64(x) => Value::U64(*x),
            ArgValue::U128(x) => Value::U128(*x),
            ArgValue::Str(s) => Value::Str(s@),
            ArgValue::Bytes(b) => Value::Bytes(b@),
            ArgValue::Unit => Value::Unit,
            ArgValue::Absent => Value::Absent,
            ArgValue::Present(v) => Value::Present(Box::new((**v).view())),
            ArgValue::List(vs) => Value::List(views_of(vs@)),
            ArgValue::Tuple(vs) => Value::Tuple(views_of(vs@)),
            ArgValue::Dict(es) => Value::Dict(entry_views_of(es@)),
        }
    }
}

/// The views of a sequence of values, in order.
pub open spec fn views_of(vs: Seq<ArgValue>) -> Seq<Value>
    decreases vs,
{
    if vs.len() == 0 {
        Seq::empty()
    } else {
        views_of(vs.drop_last()).push(vs.last().view())
    }
}

/// The views of a sequence of key-value pairs, in order.
pub open spec fn entry_views_of(es: Seq<(ArgValue, ArgValue)>) -> Seq<(Value, Value)>
    decreases es,
{
    if es.len() == 0 {
        Seq::empty()
    } else {
        entry_views_of(es.drop_last()).push((es.last().0.view(), es.last().1.view()))
    }
}

/// Appending a value appends its view.
pub proof fn lemma_views_of_push(vs: Seq<ArgValue>, v: ArgValue)
    ensures
        views_of(vs.push(v)) == views_of(vs).push(v@),
{
    assert(vs.push(v).drop_last() == vs);
}

/// Builds the list of values that `f` gives for each item, in order;
/// `spec_f` states what `f` gives.
pub(crate) fn collect_by<E, F: Fn(&E) -> ArgValue>(
    items: &[E],
    f: F,
    Ghost(spec_f): Ghost<spec_fn(E) -> Value>,
) -> (r: ArgValue)
    requires
        forall|x: &E| #[trigger] f.requires((x,)),
        forall|x: &E, v: ArgValue| f.ensures((x,), v) ==> v@ == spec_f(*x),
    ensures
        r@ == Value::List(items@.map_values(spec_f)),
{
    let ghost want = items@.map_values(spec_f);
    let mut out: Vec<ArgValue> = Vec::new();
    let mut i: usize = 0;
    while i < items.len()
        invariant
            i <= items@.len(),
            forall|x: &E| #[trigger] f.requires((x,)),
            forall|x: &E, v: ArgValue| f.ensures((x,), v) ==> v@ == spec_f(*x),
            want == items@.map_values(spec_f),
            views_of(out@) == want.take(i as int),
        decreases items@.len() - i,
    {
        let v = f(&items[i]);
        proof {
            lemma_views_of_push(out@, v);
        }
        out.push(v);
        i = i + 1;
        assert(want.take(i as int) == want.take(i - 1).push(v@));
    }
    assert(want.take(i as int) == want);
    ArgValue::List(out)
}

/// The tuple of two values.
pub(crate) fn tuple2(a: ArgValue, b: ArgValue) -> (r: ArgValue)
    ensures
        r@ == Value::Tuple(seq![a@, b@]),
{
    let ghost (va, vb) = (a@, b@);
    let mut items: Vec<ArgValue> = Vec::new();
    proof {
        lemma_views_of_push(items@, a);
    }
    items.push(a);
    proof {
        lemma_views_of_push(items@, b);
    }
    items.push(b);
    assert(views_of(items@) == seq![va, vb]);
    ArgValue::Tuple(items)
}

/// The tuple of three values.
pub(crate) fn tuple3(a: ArgValue, b: ArgValue, c: ArgValue) -> (r: ArgValue)
    ensures
        r@ == Value::Tuple(seq![a@, b@, c@]),
{
    let ghost (va, vb, vc) = (a@, b@, c@);
    let mut items: Vec<ArgValue> = Vec::new();
    proof {
        lemma_views_of_push(items@, a);
    }
    items.push(a);
    proof {
        lemma_views_of_push(items@, b);
    }
    items.push(b);
    proof {
        lemma_views_of_push(items@, c);
    }
    items.push(c);
    assert(views_of(items@) == seq![va, vb, vc]);
    ArgValue::Tuple(items)
}

/// Each value keeps its contents under the view: a scalar, a string or a byte
/// string views as the same scalar, characters or bytes, and a list, tuple,
/// dictionary or "some" views as the views of its parts, in order.
pub proof fn law_view_keeps_contents(
    b: bool,
    c: char,
    i: (i8, i16, i32, i64, i128),
    u: (u8, u16, u32, u64, u128),
    s: String,
    bytes: Vec<u8>,
    inner: Box<ArgValue>,
    vs: Vec<ArgValue>,
)
    ensures
        ArgValue::Bool(b)@ == Value::Bool(b),
        ArgValue::Char(c)@ == Value::Char(c),
        ArgValue::I8(i.0)@ == Value::I8(i.0),
        ArgValue::I16(i.1)@ == Value::I16(i.1),
        ArgValue::I32(i.2)@ == Value::I32(i.2),
        ArgValue::I64(i.3)@ == Value::I64(i.3),
        ArgValue::I128(i.4)@ == Value::I128(i.4),
        ArgValue::U8(u.0)@ == Value::U8(u.0),
        ArgValue::U16(u.1)@ == Value::U16(u.1),
        ArgValue::U32(u.2)@ == Value::U32(u.2),
        ArgValue::U64(u.3)@ == Value::U64(u.3),
        ArgValue::U128(u.4)@ == Value::U128(u.4),
        ArgValue::Str(s)@ == Value::Str(s@),
        ArgValue::Bytes(bytes)@ == Value::Bytes(bytes@),
        ArgValue::Unit@ == Value::Unit,
        ArgValue::Absent@ == Value::Absent,
        ArgValue::Present(inner)@ == Value::Present(Box::new((*inner)@)),
        ArgValue::List(vs)@ matches Value::List(l) && l.len() == vs@.len()
            && forall|k: int| 0 <= k < vs@.len() ==> #[trigger] l[k] == vs@[k]@,
        ArgValue::Tuple(vs)@ matches Value::Tuple(l) && l.len() == vs@.len()
            && forall|k: int| 0 <= k < vs@.len() ==> #[trigger] l[k] == vs@[k]@,
{
    lemma_views_of_index(vs@);
}

/// The views of a sequence of values are, index by index, the values' views.
pub proof fn lemma_views_of_index(vs: Seq<ArgValue>)
    ensures
        views_of(vs).len() == vs.len(),
        forall|k: int| 0 <= k < vs.len() ==> #[trigger] views_of(vs)[k] == vs[k]@,
    decreases vs.len(),
{
    if vs.len() > 0 {
        lemma_views_of_index(vs.drop_last());
        assert(views_of(vs) == views_of(vs.drop_last()).push(vs.last().view()));
        assert forall|k: int| 0 <= k < vs.len() implies #[trigger] views_of(vs)[k] == vs[k]@ by {
            if k < vs.len() - 1 {
                assert(vs.drop_last()[k] == vs[k]);
            }
        }
    }
}

} // verus!
