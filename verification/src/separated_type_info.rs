//! The struct-of-arrays layout: the payloads of all values in one array, their
//! type tags in another, element `i` of the one described by element `i` of
//! the other.
//!
//! A payload slot is eight untagged bytes and means nothing without its tag.
//! [`Values`] owns both arrays and offers no way to touch one without the
//! other, so the two cannot drift apart.

use crate::domain::{
    all_combine_to, are_operands, can_combine, can_combine_all, can_make_operand,
    can_make_operands, combines_to, is_nil_position, is_operand, Datum,
};
use crate::make_vec;
use vstd::prelude::*;

verus! {

/// A type tag.
#[derive(Clone, Copy, Debug, PartialEq, Eq)]
pub enum ValueKind {
    Nil,
    Number,
    External,
}

impl ValueKind {
    pub fn is_nil(&self) -> (r: bool)
        ensures
            r == (*self == ValueKind::Nil),
    {
        match self {
            ValueKind::Nil => true,
            _ => false,
        }
    }

    pub fn is_number(&self) -> (r: bool)
        ensures
            r == (*self == ValueKind::Number),
    {
        match self {
            ValueKind::Number => true,
            _ => false,
        }
    }

    pub fn is_external(&self) -> (r: bool)
        ensures
            r == (*self == ValueKind::External),
    {
        match self {
            ValueKind::External => true,
            _ => false,
        }
    }
}

/// A payload slot: the bit pattern of a number, a handle, or nothing, with no
/// record of which.
#[derive(Clone, Copy, Debug, PartialEq, Eq)]
pub struct ValueData {
    raw: u64,
}

impl ValueData {
    /// The eight bytes of the slot as one word.
    pub closed spec fn raw(&self) -> u64 {
        self.raw
    }

    /// The slot of a nil value, which is zero.
    pub fn nil() -> (r: Self)
        ensures
            r.raw() == 0,
    {
        ValueData { raw: 0 }
    }

    /// The slot of the number with bit pattern `bits`.
    pub fn number(bits: u64) -> (r: Self)
        ensures
            r.raw() == bits,
    {
        ValueData { raw: bits }
    }

    /// The slot of the external reference `handle`.
    pub fn external(handle: u64) -> (r: Self)
        ensures
            r.raw() == handle,
    {
        ValueData { raw: handle }
    }

    /// The slot read as the bit pattern of a number. The slot cannot tell
    /// whether it holds one: the caller has confirmed `is_number` on the tag
    /// that describes it.
    pub fn as_number_unchecked(&self) -> (r: u64)
        ensures
            r == self.raw(),
    {
        self.raw
    }

    /// The slot read as a handle. The caller has confirmed `is_external` on
    /// the tag that describes it.
    pub fn as_external_unchecked(&self) -> (r: u64)
        ensures
            r == self.raw(),
    {
        self.raw
    }
}

/// What a payload slot means under the tag `kind`.
pub open spec fn slot_datum(kind: ValueKind, data: ValueData) -> Datum {
    match kind {
        ValueKind::Nil => Datum::Nil,
        ValueKind::Number => Datum::Number(data.raw()),
        ValueKind::External => Datum::External(data.raw()),
    }
}

/// The bit pattern of the number in `data`, or `None` where `kind` says that
/// the slot holds none. The tag is consulted first.
pub fn as_number(kind: &ValueKind, data: &ValueData) -> (r: Option<u64>)
    ensures
        r == slot_datum(*kind, *data).number(),
{
    if kind.is_number() {
        Some(data.as_number_unchecked())
    } else {
        None
    }
}

/// The handle in `data`, or `None` where `kind` says that the slot holds
/// none.
pub fn as_external(kind: &ValueKind, data: &ValueData) -> (r: Option<u64>)
    ensures
        r == slot_datum(*kind, *data).external(),
{
    if kind.is_external() {
        Some(data.as_external_unchecked())
    } else {
        None
    }
}

/// An array of values, stored as an array of payloads and an array of tags.
pub struct Values {
    payload: Vec<ValueData>,
    tag: Vec<ValueKind>,
}

impl View for Values {
    type V = Seq<Datum>;

    closed spec fn view(&self) -> Seq<Datum> {
        Seq::new(self.tag.len() as nat, |i: int| slot_datum(self.tag[i], self.payload[i]))
    }
}

impl Values {
    /// Every payload has its tag.
    pub closed spec fn wf(&self) -> bool {
        self.payload.len() == self.tag.len()
    }

    /// The tag at index `i`.
    pub closed spec fn tag_at(&self, i: int) -> ValueKind {
        self.tag[i]
    }

    /// The payload slot at index `i`.
    pub closed spec fn payload_at(&self, i: int) -> ValueData {
        self.payload[i]
    }

    /// The empty array.
    pub fn new() -> (r: Self)
        ensures
            r.wf(),
            r@ == Seq::<Datum>::empty(),
    {
        let r = Values { payload: Vec::new(), tag: Vec::new() };
        assert(r@ =~= Seq::<Datum>::empty());
        r
    }

    pub fn len(&self) -> (r: usize)
        requires
            self.wf(),
        ensures
            r == self@.len(),
    {
        self.tag.len()
    }

    /// Appends nil: a zero payload and its tag, together.
    pub fn push_nil(&mut self)
        requires
            old(self).wf(),
        ensures
            final(self).wf(),
            final(self)@ == old(self)@.push(Datum::Nil),
    {
        self.payload.push(ValueData::nil());
        self.tag.push(ValueKind::Nil);
        assert(self@ =~= old(self)@.push(Datum::Nil));
    }

    /// Appends the number with bit pattern `bits`.
    pub fn push_number(&mut self, bits: u64)
        requires
            old(self).wf(),
        ensures
            final(self).wf(),
            final(self)@ == old(self)@.push(Datum::Number(bits)),
    {
        self.payload.push(ValueData::number(bits));
        self.tag.push(ValueKind::Number);
        assert(self@ =~= old(self)@.push(Datum::Number(bits)));
    }

    /// Appends the external reference `handle`.
    pub fn push_external(&mut self, handle: u64)
        requires
            old(self).wf(),
        ensures
            final(self).wf(),
            final(self)@ == old(self)@.push(Datum::External(handle)),
    {
        self.payload.push(ValueData::external(handle));
        self.tag.push(ValueKind::External);
        assert(self@ =~= old(self)@.push(Datum::External(handle)));
    }

    /// Makes element `i` nil: payload and tag are written together.
    pub fn set_nil(&mut self, i: usize)
        requires
            old(self).wf(),
            i < old(self)@.len(),
        ensures
            final(self).wf(),
            final(self)@ == old(self)@.update(i as int, Datum::Nil),
    {
        self.payload[i] = ValueData::nil();
        self.tag[i] = ValueKind::Nil;
        assert(self@ =~= old(self)@.update(i as int, Datum::Nil));
    }

    /// Makes element `i` the number with bit pattern `bits`.
    pub fn set_number(&mut self, i: usize, bits: u64)
        requires
            old(self).wf(),
            i < old(self)@.len(),
        ensures
            final(self).wf(),
            final(self)@ == old(self)@.update(i as int, Datum::Number(bits)),
    {
        self.payload[i] = ValueData::number(bits);
        self.tag[i] = ValueKind::Number;
        assert(self@ =~= old(self)@.update(i as int, Datum::Number(bits)));
    }

    /// Makes element `i` the external reference `handle`.
    pub fn set_external(&mut self, i: usize, handle: u64)
        requires
            old(self).wf(),
            i < old(self)@.len(),
        ensures
            final(self).wf(),
            final(self)@ == old(self)@.update(i as int, Datum::External(handle)),
    {
        self.payload[i] = ValueData::external(handle);
        self.tag[i] = ValueKind::External;
        assert(self@ =~= old(self)@.update(i as int, Datum::External(handle)));
    }

    /// The tag of element `i`. It is read without a look at the payloads.
    pub fn kind(&self, i: usize) -> (r: ValueKind)
        requires
            self.wf(),
            i < self@.len(),
        ensures
            r == self.tag_at(i as int),
            r == ValueKind::Nil <==> self@[i as int] is Nil,
            r == ValueKind::Number <==> self@[i as int] is Number,
            r == ValueKind::External <==> self@[i as int] is External,
    {
        self.tag[i]
    }

    /// The payload slot of element `i`.
    pub fn data(&self, i: usize) -> (r: ValueData)
        requires
            self.wf(),
            i < self@.len(),
        ensures
            r == self.payload_at(i as int),
            self@[i as int] == slot_datum(self.tag_at(i as int), r),
    {
        self.payload[i]
    }

    pub fn is_nil(&self, i: usize) -> (r: bool)
        requires
            self.wf(),
            i < self@.len(),
        ensures
            r == (self@[i as int] is Nil),
    {
        self.tag[i].is_nil()
    }

    pub fn is_number(&self, i: usize) -> (r: bool)
        requires
            self.wf(),
            i < self@.len(),
        ensures
            r == (self@[i as int] is Number),
    {
        self.tag[i].is_number()
    }

    pub fn is_external(&self, i: usize) -> (r: bool)
        requires
            self.wf(),
            i < self@.len(),
        ensures
            r == (self@[i as int] is External),
    {
        self.tag[i].is_external()
    }

    /// The payload of element `i` read as the bit pattern of a number,
    /// without a look at its tag. The caller has confirmed `is_number(i)`.
    pub fn as_number_unchecked(&self, i: usize) -> (r: u64)
        requires
            self.wf(),
            i < self@.len(),
            self@[i as int] is Number,
        ensures
            self@[i as int] == Datum::Number(r),
    {
        self.payload[i].as_number_unchecked()
    }

    /// The bit pattern of the number at index `i`, or `None` where the
    /// element is nil or an external reference.
    pub fn as_number(&self, i: usize) -> (r: Option<u64>)
        requires
            self.wf(),
            i < self@.len(),
        ensures
            r == self@[i as int].number(),
    {
        as_number(&self.tag[i], &self.payload[i])
    }

    /// The payload of element `i` read as a handle, without a look at its
    /// tag. The caller has confirmed `is_external(i)`.
    pub fn as_external_unchecked(&self, i: usize) -> (r: u64)
        requires
            self.wf(),
            i < self@.len(),
            self@[i as int] is External,
        ensures
            self@[i as int] == Datum::External(r),
    {
        self.payload[i].as_external_unchecked()
    }

    /// The handle at index `i`, or `None` where the element is nil or a
    /// number.
    pub fn as_external(&self, i: usize) -> (r: Option<u64>)
        requires
            self.wf(),
            i < self@.len(),
        ensures
            r == self@[i as int].external(),
    {
        as_external(&self.tag[i], &self.payload[i])
    }
}

/// The payload slot at position `i` of an input array: zero at every multiple
/// of `nil_rate`, the number `number_at(i)` elsewhere.
pub fn operand_data<G: Fn(usize) -> u64>(i: usize, nil_rate: usize, number_at: &G) -> (d: ValueData)
    requires
        can_make_operand(i, nil_rate, number_at),
    ensures
        is_operand(i, nil_rate, number_at, slot_datum(operand_kind_of(i, nil_rate), d)),
{
    if i % nil_rate == 0 {
        ValueData::nil()
    } else {
        ValueData::number(number_at(i))
    }
}

/// The tag at position `i` of an input array.
pub open spec fn operand_kind_of(i: usize, nil_rate: usize) -> ValueKind {
    if is_nil_position(i as int, nil_rate as int) {
        ValueKind::Nil
    } else {
        ValueKind::Number
    }
}

/// The tag at position `i` of an input array: nil at every multiple of
/// `nil_rate`, number elsewhere.
pub fn operand_kind(i: usize, nil_rate: usize) -> (k: ValueKind)
    requires
        nil_rate > 0,
    ensures
        k == operand_kind_of(i, nil_rate),
{
    if i % nil_rate == 0 {
        ValueKind::Nil
    } else {
        ValueKind::Number
    }
}

/// An input array of length `n`: its payloads are built first, then its
/// tags, by the same rule.
pub fn inputs<G: Fn(usize) -> u64>(n: usize, nil_rate: usize, number_at: &G) -> (v: Values)
    requires
        can_make_operands(n, nil_rate, number_at),
    ensures
        v.wf(),
        are_operands(n, nil_rate, number_at, v@),
{
    let slot = |i: usize| -> (d: ValueData)
        requires
            can_make_operand(i, nil_rate, number_at),
        ensures
            is_operand(i, nil_rate, number_at, slot_datum(operand_kind_of(i, nil_rate), d)),
        {
            operand_data(i, nil_rate, number_at)
        };
    let payload = make_vec(n, slot);
    let kind = |i: usize| -> (k: ValueKind)
        requires
            nil_rate > 0,
        ensures
            k == operand_kind_of(i, nil_rate),
        {
            operand_kind(i, nil_rate)
        };
    let tag = make_vec(n, kind);
    let v = Values { payload, tag };
    assert forall|i: int| 0 <= i < n implies is_operand(i as usize, nil_rate, number_at, #[trigger] v@[i]) by {
        assert(payload[i as usize as int] == payload[i]);
        assert(tag[i as usize as int] == tag[i]);
    }
    v
}

/// A result array of length `n`, nil throughout.
pub fn nils(n: usize) -> (v: Values)
    ensures
        v.wf(),
        v@ == Seq::new(n as nat, |i: int| Datum::Nil),
{
    let slot = |i: usize| -> (d: ValueData)
        ensures
            d.raw() == 0,
        {
            ValueData::nil()
        };
    let payload = make_vec(n, slot);
    let kind = |i: usize| -> (k: ValueKind)
        ensures
            k == ValueKind::Nil,
        {
            ValueKind::Nil
        };
    let tag = make_vec(n, kind);
    let v = Values { payload, tag };
    assert forall|i: int| 0 <= i < n implies #[trigger] v@[i] == Datum::Nil by {
        assert(tag[i as usize as int] == tag[i]);
    }
    assert(v@ =~= Seq::new(n as nat, |i: int| Datum::Nil));
    v
}

/// Writes to element `i` of `results` the combination of the elements of `x`
/// and `y` at that index: both tags are tested, and only where both say
/// number are the payloads read.
pub fn combine<F: Fn(u64, u64) -> u64>(x: &Values, y: &Values, i: usize, results: &mut Values, plus: &F)
    requires
        x.wf(),
        y.wf(),
        old(results).wf(),
        i < x@.len(),
        i < y@.len(),
        i < old(results)@.len(),
        can_combine(x@[i as int], y@[i as int], plus),
    ensures
        final(results).wf(),
        final(results)@.len() == old(results)@.len(),
        forall|j: int| 0 <= j < old(results)@.len() && j != i ==> final(results)@[j] == old(results)@[j],
        combines_to(x@[i as int], y@[i as int], plus, final(results)@[i as int]),
{
    if x.is_number(i) && y.is_number(i) {
        let sum = plus(x.as_number_unchecked(i), y.as_number_unchecked(i));
        results.set_number(i, sum);
    } else {
        results.set_nil(i);
    }
}

/// One pass of the workload: every element of `results` becomes the
/// combination of the elements of `x` and `y` at its index.
pub fn kernel<F: Fn(u64, u64) -> u64>(x: &Values, y: &Values, results: &mut Values, plus: &F)
    requires
        x.wf(),
        y.wf(),
        old(results).wf(),
        x@.len() == y@.len(),
        old(results)@.len() == x@.len(),
        can_combine_all(x@, y@, plus),
    ensures
        final(results).wf(),
        all_combine_to(x@, y@, plus, final(results)@),
{
    let n = x.len();
    for i in 0..n
        invariant
            x.wf(),
            y.wf(),
            results.wf(),
            n == x@.len(),
            n == y@.len(),
            n == results@.len(),
            can_combine_all(x@, y@, plus),
            forall|j: int| 0 <= j < i ==> combines_to(x@[j], y@[j], plus, #[trigger] results@[j]),
    {
        assert(can_combine(x@[i as int], y@[i as int], plus));
        combine(x, y, i, results, plus);
    }
}

} // verus!
