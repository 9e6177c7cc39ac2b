//! The baseline layout: an ordinary enum, whose size and field placement the
//! compiler chooses.

use crate::domain::{
    all_combine_to, are_operands, can_combine, can_combine_all, can_make_operand,
    can_make_operands, combines_to, is_operand, Datum,
};
use crate::make_vec;
use vstd::prelude::*;

verus! {

/// A value as a discriminated union.
#[derive(Clone, Copy, Debug, PartialEq, Eq)]
pub enum Value {
    Nil,
    Number(u64),
    External(u64),
}

impl View for Value {
    type V = Datum;

    open spec fn view(&self) -> Datum {
        match *self {
            Value::Nil => Datum::Nil,
            Value::Number(bits) => Datum::Number(bits),
            Value::External(handle) => Datum::External(handle),
        }
    }
}

/// The meanings of a sequence of values.
pub open spec fn views(s: Seq<Value>) -> Seq<Datum> {
    Seq::new(s.len(), |i: int| s[i]@)
}

impl Value {
    pub fn from_nil() -> (r: Self)
        ensures
            r == Value::Nil,
    {
        Value::Nil
    }

    pub fn from_number(bits: u64) -> (r: Self)
        ensures
            r == Value::Number(bits),
    {
        Value::Number(bits)
    }

    pub fn from_external(handle: u64) -> (r: Self)
        ensures
            r == Value::External(handle),
    {
        Value::External(handle)
    }

    pub fn is_nil(&self) -> (r: bool)
        ensures
            r == (self@ is Nil),
    {
        match self {
            Value::Nil => true,
            _ => false,
        }
    }

    pub fn is_number(&self) -> (r: bool)
        ensures
            r == (self@ is Number),
    {
        match self {
            Value::Number(_) => true,
            _ => false,
        }
    }

    pub fn is_external(&self) -> (r: bool)
        ensures
            r == (self@ is External),
    {
        match self {
            Value::External(_) => true,
            _ => false,
        }
    }

    /// The bit pattern of the number held, or `None` for nil and for an
    /// external reference.
    pub fn as_number(&self) -> (r: Option<u64>)
        ensures
            r == self@.number(),
    {
        match self {
            Value::Number(bits) => Some(*bits),
            _ => None,
        }
    }

    /// The handle held, or `None` for nil and for a number.
    pub fn as_external(&self) -> (r: Option<u64>)
        ensures
            r == self@.external(),
    {
        match self {
            Value::External(handle) => Some(*handle),
            _ => None,
        }
    }
}

/// The sum of two numbers under `plus`; nil unless both operands are numbers.
pub fn combine<F: Fn(u64, u64) -> u64>(a: &Value, b: &Value, plus: &F) -> (r: Value)
    requires
        can_combine(a@, b@, plus),
    ensures
        combines_to(a@, b@, plus, r@),
{
    match (a, b) {
        (Value::Number(x), Value::Number(y)) => Value::Number(plus(*x, *y)),
        _ => Value::Nil,
    }
}

/// The element at position `i` of an input array: nil at every multiple of
/// `nil_rate`, the number `number_at(i)` elsewhere.
pub fn operand<G: Fn(usize) -> u64>(i: usize, nil_rate: usize, number_at: &G) -> (v: Value)
    requires
        can_make_operand(i, nil_rate, number_at),
    ensures
        is_operand(i, nil_rate, number_at, v@),
{
    if i % nil_rate == 0 {
        Value::from_nil()
    } else {
        Value::from_number(number_at(i))
    }
}

/// An input array of length `n`.
pub fn inputs<G: Fn(usize) -> u64>(n: usize, nil_rate: usize, number_at: &G) -> (v: Vec<Value>)
    requires
        can_make_operands(n, nil_rate, number_at),
    ensures
        are_operands(n, nil_rate, number_at, views(v@)),
{
    let element = |i: usize| -> (e: Value)
        requires
            can_make_operand(i, nil_rate, number_at),
        ensures
            is_operand(i, nil_rate, number_at, e@),
        {
            operand(i, nil_rate, number_at)
        };
    let v = make_vec(n, element);
    assert forall|i: int| 0 <= i < n implies is_operand(
        i as usize,
        nil_rate,
        number_at,
        #[trigger] views(v@)[i],
    ) by {
        assert(v[i as usize as int] == v[i]);
    }
    v
}

/// A result array of length `n`, nil throughout.
pub fn nils(n: usize) -> (v: Vec<Value>)
    ensures
        v.len() == n,
        forall|i: int| 0 <= i < n ==> #[trigger] v[i] == Value::Nil,
{
    let element = |i: usize| -> (e: Value)
        ensures
            e == Value::Nil,
        {
            Value::from_nil()
        };
    let v = make_vec(n, element);
    assert forall|i: int| 0 <= i < n implies #[trigger] v[i] == Value::Nil by {
        assert(v[i as usize as int] == v[i]);
    }
    v
}

/// One pass of the workload: every element of `results` becomes the
/// combination of the elements of `x` and `y` at its index.
pub fn kernel<F: Fn(u64, u64) -> u64>(x: &Vec<Value>, y: &Vec<Value>, results: &mut Vec<Value>, plus: &F)
    requires
        x.len() == y.len(),
        old(results).len() == x.len(),
        can_combine_all(views(x@), views(y@), plus),
    ensures
        all_combine_to(views(x@), views(y@), plus, views(final(results)@)),
{
    let n = x.len();
    for i in 0..n
        invariant
            n == x.len(),
            n == y.len(),
            n == results.len(),
            can_combine_all(views(x@), views(y@), plus),
            forall|j: int| 0 <= j < i ==> combines_to(x[j]@, y[j]@, plus, #[trigger] results[j]@),
    {
        assert(can_combine(views(x@)[i as int], views(y@)[i as int], plus));
        let r = combine(&x[i], &y[i], plus);
        results[i] = r;
    }
    assert forall|j: int| 0 <= j < n implies combines_to(
        views(x@)[j],
        views(y@)[j],
        plus,
        #[trigger] views(results@)[j],
    ) by {
        assert(combines_to(x[j]@, y[j]@, plus, results[j]@));
    }
}

} // verus!
