//! The packed layout: one discriminant byte followed by eight payload bytes,
//! nine bytes in all with no padding.
//!
//! The payload holds a 64-bit word in the byte order of the host, so the
//! bytes of a record mean the same word only on hosts of one byte order. Only
//! this module reads or writes the bytes; everything else goes through the
//! constructors and accessors of [`Value`].

use crate::domain::{
    all_combine_to, are_operands, can_combine, can_combine_all, can_make_operand,
    can_make_operands, combines_to, is_operand, Datum,
};
use crate::make_vec;
use vstd::endian::{endianness, Endian};
use vstd::prelude::*;

verus! {

/// The discriminant byte.
#[derive(Clone, Copy, Debug, PartialEq, Eq)]
pub enum ValueKind {
    Nil,
    Number,
    External,
}

/// The eight bytes of the word `x`, least significant first.
pub open spec fn little_endian_bytes(x: u64) -> Seq<u8> {
    seq![
        (x & 0xff) as u8,
        ((x >> 8) & 0xff) as u8,
        ((x >> 16) & 0xff) as u8,
        ((x >> 24) & 0xff) as u8,
        ((x >> 32) & 0xff) as u8,
        ((x >> 40) & 0xff) as u8,
        ((x >> 48) & 0xff) as u8,
        ((x >> 56) & 0xff) as u8,
    ]
}

/// The eight bytes of the word `x`, most significant first.
pub open spec fn big_endian_bytes(x: u64) -> Seq<u8> {
    seq![
        ((x >> 56) & 0xff) as u8,
        ((x >> 48) & 0xff) as u8,
        ((x >> 40) & 0xff) as u8,
        ((x >> 32) & 0xff) as u8,
        ((x >> 24) & 0xff) as u8,
        ((x >> 16) & 0xff) as u8,
        ((x >> 8) & 0xff) as u8,
        (x & 0xff) as u8,
    ]
}

/// The word whose bytes, least significant first, are `p`.
pub open spec fn little_endian_word(p: Seq<u8>) -> u64 {
    (p[0] as u64) | ((p[1] as u64) << 8) | ((p[2] as u64) << 16) | ((p[3] as u64) << 24) | ((p[4] as u64)
        << 32) | ((p[5] as u64) << 40) | ((p[6] as u64) << 48) | ((p[7] as u64) << 56)
}

/// The word whose bytes, most significant first, are `p`.
pub open spec fn big_endian_word(p: Seq<u8>) -> u64 {
    (p[7] as u64) | ((p[6] as u64) << 8) | ((p[5] as u64) << 16) | ((p[4] as u64) << 24) | ((p[3] as u64)
        << 32) | ((p[2] as u64) << 40) | ((p[1] as u64) << 48) | ((p[0] as u64) << 56)
}

/// The eight payload bytes that hold the word `x`: its bytes in the order of
/// the host.
pub open spec fn payload_of(x: u64) -> Seq<u8> {
    match endianness() {
        Endian::Little => little_endian_bytes(x),
        Endian::Big => big_endian_bytes(x),
    }
}

/// The word that eight payload bytes hold.
pub open spec fn word_of(p: Seq<u8>) -> u64 {
    match endianness() {
        Endian::Little => little_endian_word(p),
        Endian::Big => big_endian_word(p),
    }
}

/// The payload of nil: eight zero bytes.
pub open spec fn zero_payload() -> Seq<u8> {
    Seq::new(8, |i: int| 0u8)
}

/// Every word occupies eight bytes, and reading them back gives the word
/// again, bit for bit, whatever the byte order of the host.
pub proof fn lemma_payload_round_trip(x: u64)
    ensures
        payload_of(x).len() == 8,
        word_of(payload_of(x)) == x,
{
    assert(((x & 0xff) as u8 as u64) | ((((x >> 8) & 0xff) as u8 as u64) << 8) | ((((x >> 16) & 0xff) as u8 as u64)
        << 16) | ((((x >> 24) & 0xff) as u8 as u64) << 24) | ((((x >> 32) & 0xff) as u8 as u64) << 32) | ((((x
        >> 40) & 0xff) as u8 as u64) << 40) | ((((x >> 48) & 0xff) as u8 as u64) << 48) | ((((x >> 56)
        & 0xff) as u8 as u64) << 56) == x) by (bit_vector);
    assert(little_endian_word(little_endian_bytes(x)) == x);
    assert(big_endian_word(big_endian_bytes(x)) == x);
}

/// `u64::to_ne_bytes` of std. Believed of it, as std documents: the result is
/// the memory representation of `x` in the byte order of the host, which is
/// its eight bytes least significant first on a little-endian host and most
/// significant first on a big-endian one.
#[verifier::external_body]
fn to_ne_bytes(x: u64) -> (p: [u8; 8])
    ensures
        p@ == payload_of(x),
{
    x.to_ne_bytes()
}

/// `u64::from_ne_bytes` of std. Believed of it, as std documents: the result
/// is the word whose memory representation in the byte order of the host is
/// `p`.
#[verifier::external_body]
fn from_ne_bytes(p: [u8; 8]) -> (x: u64)
    ensures
        x == word_of(p@),
{
    u64::from_ne_bytes(p)
}

/// A value as a packed record.
#[derive(Clone, Copy, Debug, PartialEq, Eq)]
pub struct Value {
    discriminant: ValueKind,
    data: [u8; 8],
}

impl View for Value {
    type V = Datum;

    open spec fn view(&self) -> Datum {
        match self.kind() {
            ValueKind::Nil => Datum::Nil,
            ValueKind::Number => Datum::Number(self.word()),
            ValueKind::External => Datum::External(self.word()),
        }
    }
}

/// The meanings of a sequence of values.
pub open spec fn views(s: Seq<Value>) -> Seq<Datum> {
    Seq::new(s.len(), |i: int| s[i]@)
}

/// Every nil record of the sequence has a payload of zeros.
pub open spec fn all_zero_filled(s: Seq<Value>) -> bool {
    forall|i: int| 0 <= i < s.len() ==> (#[trigger] s[i]).zero_filled()
}

impl Value {
    /// The discriminant.
    pub closed spec fn kind(&self) -> ValueKind {
        self.discriminant
    }

    /// The payload bytes, in the order in which the record stores them.
    pub closed spec fn payload(&self) -> Seq<u8> {
        self.data@
    }

    /// The word that the payload holds.
    pub open spec fn word(&self) -> u64 {
        word_of(self.payload())
    }

    /// The record is one that the constructors make: where it is nil, its
    /// payload is filled with zeros.
    pub open spec fn zero_filled(&self) -> bool {
        self.kind() == ValueKind::Nil ==> self.payload() == zero_payload()
    }

    /// Nil, with the payload filled with zeros.
    pub fn from_nil() -> (r: Self)
        ensures
            r.kind() == ValueKind::Nil,
            r.payload() == zero_payload(),
            r@ == Datum::Nil,
    {
        let r = Value { discriminant: ValueKind::Nil, data: [0, 0, 0, 0, 0, 0, 0, 0] };
        assert(r.payload() =~= zero_payload());
        r
    }

    /// The number with bit pattern `bits`, stored as it is.
    pub fn from_number(bits: u64) -> (r: Self)
        ensures
            r.kind() == ValueKind::Number,
            r.payload() == payload_of(bits),
            r@ == Datum::Number(bits),
    {
        proof {
            lemma_payload_round_trip(bits);
        }
        Value { discriminant: ValueKind::Number, data: to_ne_bytes(bits) }
    }

    /// The external reference `handle`.
    pub fn from_external(handle: u64) -> (r: Self)
        ensures
            r.kind() == ValueKind::External,
            r.payload() == payload_of(handle),
            r@ == Datum::External(handle),
    {
        proof {
            lemma_payload_round_trip(handle);
        }
        Value { discriminant: ValueKind::External, data: to_ne_bytes(handle) }
    }

    pub fn is_nil(&self) -> (r: bool)
        ensures
            r == (self@ is Nil),
    {
        match self.discriminant {
            ValueKind::Nil => true,
            _ => false,
        }
    }

    pub fn is_number(&self) -> (r: bool)
        ensures
            r == (self@ is Number),
    {
        match self.discriminant {
            ValueKind::Number => true,
            _ => false,
        }
    }

    pub fn is_external(&self) -> (r: bool)
        ensures
            r == (self@ is External),
    {
        match self.discriminant {
            ValueKind::External => true,
            _ => false,
        }
    }

    /// The payload read as the bit pattern of a number, without a look at the
    /// discriminant. The caller has confirmed `is_number` on this value.
    pub fn as_number_unchecked(&self) -> (r: u64)
        requires
            self@ is Number,
        ensures
            self@ == Datum::Number(r),
    {
        from_ne_bytes(self.data)
    }

    /// The bit pattern of the number held, or `None` for nil and for an
    /// external reference.
    pub fn as_number(&self) -> (r: Option<u64>)
        ensures
            r == self@.number(),
    {
        if self.is_number() {
            Some(self.as_number_unchecked())
        } else {
            None
        }
    }

    /// The payload read as a handle, without a look at the discriminant. The
    /// caller has confirmed `is_external` on this value.
    pub fn as_external_unchecked(&self) -> (r: u64)
        requires
            self@ is External,
        ensures
            self@ == Datum::External(r),
    {
        from_ne_bytes(self.data)
    }

    /// The handle held, or `None` for nil and for a number.
    pub fn as_external(&self) -> (r: Option<u64>)
        ensures
            r == self@.external(),
    {
        if self.is_external() {
            Some(self.as_external_unchecked())
        } else {
            None
        }
    }
}

/// A record with the discriminant of a number and the payload of `bits` is
/// read back as `bits`, bit for bit.
pub proof fn lemma_number_round_trip(v: Value, bits: u64)
    requires
        v.kind() == ValueKind::Number,
        v.payload() == payload_of(bits),
    ensures
        v@ == Datum::Number(bits),
        v@.number() == Some(bits),
{
    lemma_payload_round_trip(bits);
}

/// The sum of two numbers under `plus`; nil unless both operands are numbers.
pub fn combine<F: Fn(u64, u64) -> u64>(a: &Value, b: &Value, plus: &F) -> (r: Value)
    requires
        can_combine(a@, b@, plus),
    ensures
        combines_to(a@, b@, plus, r@),
        r.zero_filled(),
{
    if a.is_number() && b.is_number() {
        Value::from_number(plus(a.as_number_unchecked(), b.as_number_unchecked()))
    } else {
        Value::from_nil()
    }
}

/// The element at position `i` of an input array: nil at every multiple of
/// `nil_rate`, the number `number_at(i)` elsewhere.
pub fn operand<G: Fn(usize) -> u64>(i: usize, nil_rate: usize, number_at: &G) -> (v: Value)
    requires
        can_make_operand(i, nil_rate, number_at),
    ensures
        is_operand(i, nil_rate, number_at, v@),
        v.zero_filled(),
{
    if i % nil_rate == 0 {
        Value::from_nil()
    } else {
        Value::from_number(number_at(i))
    }
}

/// An input array of length `n`.
pub fn inputs<G: Fn(usize) -> u64>(n: usize, nil_rate: usize, number_at: &G) -> (v: Vec<Value>)
    requires
        can_make_operands(n, nil_rate, number_at),
    ensures
        are_operands(n, nil_rate, number_at, views(v@)),
        all_zero_filled(v@),
{
    let element = |i: usize| -> (e: Value)
        requires
            can_make_operand(i, nil_rate, number_at),
        ensures
            is_operand(i, nil_rate, number_at, e@),
            e.zero_filled(),
        {
            operand(i, nil_rate, number_at)
        };
    let v = make_vec(n, element);
    assert forall|i: int| 0 <= i < n implies is_operand(
        i as usize,
        nil_rate,
        number_at,
        #[trigger] views(v@)[i],
    ) by {
        assert(v[i as usize as int] == v[i]);
    }
    assert forall|i: int| 0 <= i < n implies (#[trigger] v[i]).zero_filled() by {
        assert(v[i as usize as int] == v[i]);
    }
    v
}

/// A result array of length `n`, nil throughout.
pub fn nils(n: usize) -> (v: Vec<Value>)
    ensures
        v.len() == n,
        forall|i: int| 0 <= i < n ==> (#[trigger] v[i])@ == Datum::Nil,
        all_zero_filled(v@),
{
    let element = |i: usize| -> (e: Value)
        ensures
            e@ == Datum::Nil,
            e.zero_filled(),
        {
            Value::from_nil()
        };
    let v = make_vec(n, element);
    assert forall|i: int| 0 <= i < n implies (#[trigger] v[i])@ == Datum::Nil by {
        assert(v[i as usize as int] == v[i]);
    }
    assert forall|i: int| 0 <= i < n implies (#[trigger] v[i]).zero_filled() by {
        assert(v[i as usize as int] == v[i]);
    }
    v
}

/// One pass of the workload: every element of `results` becomes the
/// combination of the elements of `x` and `y` at its index.
pub fn kernel<F: Fn(u64, u64) -> u64>(x: &Vec<Value>, y: &Vec<Value>, results: &mut Vec<Value>, plus: &F)
    requires
        x.len() == y.len(),
        old(results).len() == x.len(),
        can_combine_all(views(x@), views(y@), plus),
    ensures
        all_combine_to(views(x@), views(y@), plus, views(final(results)@)),
        all_zero_filled(final(results)@),
{
    let n = x.len();
    for i in 0..n
        invariant
            n == x.len(),
            n == y.len(),
            n == results.len(),
            can_combine_all(views(x@), views(y@), plus),
            forall|j: int| 0 <= j < i ==> combines_to(x[j]@, y[j]@, plus, #[trigger] results[j]@),
            forall|j: int| 0 <= j < i ==> (#[trigger] results[j]).zero_filled(),
    {
        assert(can_combine(views(x@)[i as int], views(y@)[i as int], plus));
        let r = combine(&x[i], &y[i], plus);
        results[i] = r;
    }
    assert forall|j: int| 0 <= j < n implies combines_to(
        views(x@)[j],
        views(y@)[j],
        plus,
        #[trigger] views(results@)[j],
    ) by {
        assert(combines_to(x[j]@, y[j]@, plus, results[j]@));
    }
}

} // verus!
