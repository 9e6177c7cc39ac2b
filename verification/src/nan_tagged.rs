//! The boxed layout: one 64-bit word that is either the bit pattern of a
//! double or a quiet NaN whose payload carries a type and a datum.
//!
//! Bit 63 is the sign, bits 62 to 52 the exponent, bit 51 the quiet bit, bits
//! 50 to 48 the type segment and bits 47 to 0 the data segment. A word whose
//! exponent bits and quiet bit are all set bears the NaN signature. With the
//! signature, one type segment marks nil and one an external reference, whose
//! handle is the data segment. Every other word is a number: a word without
//! the signature, and a word with the signature and any of the six other
//! type segments, among them zero, which is what the default NaN of the host
//! looks like.
//!
//! The two marked patterns are reserved. A double whose bit pattern is
//! reserved is taken for nil or for an external reference, not for a number:
//! the layout cannot hold it.

use crate::domain::{
    all_combine_to, are_operands, combines_to, is_nil_position, is_operand, Datum,
};
use crate::make_vec;
use vstd::prelude::*;

verus! {

/// The exponent bits and the quiet bit.
pub const NAN_MASK: u64 = 0x7FF8_0000_0000_0000;

/// The three bits below the quiet bit.
pub const TYPE_MASK: u64 = 0x0007_0000_0000_0000;

/// The low 48 bits.
pub const DATA_MASK: u64 = 0x0000_FFFF_FFFF_FFFF;

/// The type segment of the default NaN, which is a number.
pub const NUMBER_TYPE: u64 = 0x0000_0000_0000_0000;

/// The type segment of nil.
pub const NIL_TYPE: u64 = 0x0001_0000_0000_0000;

/// The type segment of an external reference.
pub const EXTERNAL_TYPE: u64 = 0x0002_0000_0000_0000;

/// The kinds to which a type segment is assigned.
#[derive(Clone, Copy, Debug, PartialEq, Eq)]
pub enum ValueKind {
    Number,
    Nil,
    External,
}

impl ValueKind {
    /// The type segment that stands for this kind.
    pub open spec fn segment(self) -> u64 {
        match self {
            ValueKind::Number => NUMBER_TYPE,
            ValueKind::Nil => NIL_TYPE,
            ValueKind::External => EXTERNAL_TYPE,
        }
    }

    /// The type segment that stands for this kind.
    #[verifier::when_used_as_spec(segment)]
    pub fn type_segment(self) -> (r: u64)
        ensures
            r == self.segment(),
    {
        match self {
            ValueKind::Number => NUMBER_TYPE,
            ValueKind::Nil => NIL_TYPE,
            ValueKind::External => EXTERNAL_TYPE,
        }
    }
}

/// Why a value could not be constructed.
#[derive(Clone, Copy, Debug, PartialEq, Eq)]
pub enum DomainViolation {
    /// The handle has a bit set above the data segment.
    HandleTooWide,
}

/// The word bears the NaN signature.
pub open spec fn has_nan_signature(w: u64) -> bool {
    w & NAN_MASK == NAN_MASK
}

/// The word is a number: it is neither nil nor an external reference.
pub open spec fn word_is_number(w: u64) -> bool {
    !has_nan_signature(w) || (w & TYPE_MASK != NIL_TYPE && w & TYPE_MASK != EXTERNAL_TYPE)
}

/// The word is nil.
pub open spec fn word_is_nil(w: u64) -> bool {
    has_nan_signature(w) && w & TYPE_MASK == NIL_TYPE
}

/// The word is an external reference.
pub open spec fn word_is_external(w: u64) -> bool {
    has_nan_signature(w) && w & TYPE_MASK == EXTERNAL_TYPE
}

/// The word, read as the bit pattern of a double, is one that the layout
/// takes for nil or for an external reference.
pub open spec fn is_reserved(w: u64) -> bool {
    word_is_nil(w) || word_is_external(w)
}

/// What a word means.
pub open spec fn decode(w: u64) -> Datum {
    if word_is_nil(w) {
        Datum::Nil
    } else if word_is_external(w) {
        Datum::External(w & DATA_MASK)
    } else {
        Datum::Number(w)
    }
}

/// The word that `from_nil` makes.
pub open spec fn nil_word() -> u64 {
    NAN_MASK | NIL_TYPE
}

/// The word that `from_external` makes of a handle that fits.
pub open spec fn external_word(handle: u64) -> u64 {
    handle | NAN_MASK | EXTERNAL_TYPE
}

/// Every word is of exactly one kind, the kind of what it means.
pub proof fn lemma_classification(w: u64)
    ensures
        word_is_nil(w) || word_is_number(w) || word_is_external(w),
        !(word_is_nil(w) && word_is_number(w)),
        !(word_is_nil(w) && word_is_external(w)),
        !(word_is_number(w) && word_is_external(w)),
        decode(w) is Nil <==> word_is_nil(w),
        decode(w) is Number <==> word_is_number(w),
        decode(w) is External <==> word_is_external(w),
{
}

/// The word made of the bit pattern of a double is that pattern, and it is
/// read back as a number exactly when the pattern is not reserved.
pub proof fn lemma_number_round_trip(bits: u64)
    ensures
        word_is_number(bits) <==> !is_reserved(bits),
        !is_reserved(bits) ==> decode(bits) == Datum::Number(bits),
        is_reserved(bits) ==> decode(bits) != Datum::Number(bits),
{
}

/// A bit pattern that is not reserved is a number, and neither nil nor an
/// external reference.
pub proof fn lemma_sentinel_non_collision(bits: u64)
    requires
        !is_reserved(bits),
    ensures
        word_is_number(bits),
        !word_is_nil(bits),
        !word_is_external(bits),
{
}

/// The bit patterns that arithmetic on doubles yields from operands that are
/// not NaN are not reserved: the finite doubles, the two infinities and the
/// default NaN of either sign. Nor is a signaling NaN.
pub proof fn lemma_ordinary_doubles_are_not_reserved(bits: u64)
    requires
        ({
            ||| bits & 0x7FF0_0000_0000_0000 != 0x7FF0_0000_0000_0000
            ||| bits & 0x7FFF_FFFF_FFFF_FFFF == 0x7FF0_0000_0000_0000
            ||| bits & 0x7FFF_FFFF_FFFF_FFFF == 0x7FF8_0000_0000_0000
            ||| bits & 0x0008_0000_0000_0000 == 0
        }),
    ensures
        !is_reserved(bits),
{
    assert(bits & 0x7FF0_0000_0000_0000 != 0x7FF0_0000_0000_0000 ==> bits & 0x7FF8_0000_0000_0000
        != 0x7FF8_0000_0000_0000) by (bit_vector);
    assert(bits & 0x7FFF_FFFF_FFFF_FFFF == 0x7FF0_0000_0000_0000 ==> bits & 0x7FF8_0000_0000_0000
        != 0x7FF8_0000_0000_0000) by (bit_vector);
    assert(bits & 0x7FFF_FFFF_FFFF_FFFF == 0x7FF8_0000_0000_0000 ==> bits & 0x0007_0000_0000_0000
        == 0) by (bit_vector);
    assert(bits & 0x0008_0000_0000_0000 == 0 ==> bits & 0x7FF8_0000_0000_0000
        != 0x7FF8_0000_0000_0000) by (bit_vector);
}

/// The nil word is nil, with an empty data segment.
pub proof fn lemma_nil_word()
    ensures
        nil_word() == 0x7FF9_0000_0000_0000,
        decode(nil_word()) == Datum::Nil,
        nil_word() & DATA_MASK == 0,
{
    assert(0x7FF8_0000_0000_0000u64 | 0x0001_0000_0000_0000u64 == 0x7FF9_0000_0000_0000u64)
        by (bit_vector);
    assert(0x7FF9_0000_0000_0000u64 & 0x7FF8_0000_0000_0000u64 == 0x7FF8_0000_0000_0000u64)
        by (bit_vector);
    assert(0x7FF9_0000_0000_0000u64 & 0x0007_0000_0000_0000u64 == 0x0001_0000_0000_0000u64)
        by (bit_vector);
    assert(0x7FF9_0000_0000_0000u64 & 0x0000_FFFF_FFFF_FFFFu64 == 0) by (bit_vector);
}

/// A handle that fits the data segment is found again in the word made of it,
/// and the word is an external reference.
pub proof fn lemma_external_word(handle: u64)
    requires
        handle <= DATA_MASK,
    ensures
        decode(external_word(handle)) == Datum::External(handle),
{
    let w = external_word(handle);
    assert(w & 0x7FF8_0000_0000_0000 == 0x7FF8_0000_0000_0000) by (bit_vector)
        requires
            w == handle | 0x7FF8_0000_0000_0000 | 0x0002_0000_0000_0000,
    ;
    assert(w & 0x0007_0000_0000_0000 == 0x0002_0000_0000_0000) by (bit_vector)
        requires
            w == handle | 0x7FF8_0000_0000_0000 | 0x0002_0000_0000_0000,
            handle <= 0x0000_FFFF_FFFF_FFFF,
    ;
    assert(w & 0x0000_FFFF_FFFF_FFFF == handle) by (bit_vector)
        requires
            w == handle | 0x7FF8_0000_0000_0000 | 0x0002_0000_0000_0000,
            handle <= 0x0000_FFFF_FFFF_FFFF,
    ;
}

/// A value as one boxed word.
#[derive(Clone, Copy, Debug, PartialEq, Eq)]
pub struct Value(u64);

impl View for Value {
    type V = Datum;

    open spec fn view(&self) -> Datum {
        decode(self.word())
    }
}

impl Value {
    /// The word.
    pub closed spec fn word(&self) -> u64 {
        self.0
    }

    pub fn get_nan_segment(&self) -> (r: u64)
        ensures
            r == self.word() & NAN_MASK,
    {
        self.0 & NAN_MASK
    }

    pub fn get_type_segment(&self) -> (r: u64)
        ensures
            r == self.word() & TYPE_MASK,
    {
        self.0 & TYPE_MASK
    }

    pub fn get_data_segment(&self) -> (r: u64)
        ensures
            r == self.word() & DATA_MASK,
    {
        self.0 & DATA_MASK
    }

    /// Whether the word bears the NaN signature.
    pub fn is_nan(&self) -> (r: bool)
        ensures
            r == has_nan_signature(self.word()),
    {
        self.get_nan_segment() == NAN_MASK
    }

    /// Whether the type segment is that of `discriminator`.
    pub fn compare_type_segment(&self, discriminator: ValueKind) -> (r: bool)
        ensures
            r == (self.word() & TYPE_MASK == discriminator.segment()),
    {
        self.get_type_segment() == discriminator.type_segment()
    }

    pub fn is_number(&self) -> (r: bool)
        ensures
            r == word_is_number(self.word()),
            r == (self@ is Number),
    {
        !self.is_nan() || !(self.compare_type_segment(ValueKind::Nil) || self.compare_type_segment(
            ValueKind::External,
        ))
    }

    pub fn is_nil(&self) -> (r: bool)
        ensures
            r == word_is_nil(self.word()),
            r == (self@ is Nil),
    {
        self.is_nan() && self.compare_type_segment(ValueKind::Nil)
    }

    pub fn is_external(&self) -> (r: bool)
        ensures
            r == word_is_external(self.word()),
            r == (self@ is External),
    {
        self.is_nan() && self.compare_type_segment(ValueKind::External)
    }

    /// The word read as the bit pattern of a number, without a look at its
    /// kind. The caller has confirmed `is_number` on this value.
    pub fn as_number_unchecked(&self) -> (r: u64)
        requires
            word_is_number(self.word()),
        ensures
            r == self.word(),
            self@ == Datum::Number(r),
    {
        self.0
    }

    /// The bit pattern of the number held, or `None` where the word is no
    /// number.
    pub fn as_number(&self) -> (r: Option<u64>)
        ensures
            r == if word_is_number(self.word()) {
                Some(self.word())
            } else {
                None
            },
            r == self@.number(),
    {
        if self.is_number() {
            Some(self.as_number_unchecked())
        } else {
            None
        }
    }

    /// The data segment read as a handle, without a look at the kind. The
    /// caller has confirmed `is_external` on this value.
    pub fn as_external_unchecked(&self) -> (r: u64)
        requires
            word_is_external(self.word()),
        ensures
            r == self.word() & DATA_MASK,
            self@ == Datum::External(r),
    {
        self.get_data_segment()
    }

    /// The handle held, or `None` where the word is no external reference.
    pub fn as_external(&self) -> (r: Option<u64>)
        ensures
            r == if word_is_external(self.word()) {
                Some(self.word() & DATA_MASK)
            } else {
                None
            },
            r == self@.external(),
    {
        if self.is_external() {
            Some(self.as_external_unchecked())
        } else {
            None
        }
    }

    /// The word `bits`, stored as it is. It is a number unless `bits` is
    /// reserved.
    pub fn from_number(bits: u64) -> (r: Self)
        ensures
            r.word() == bits,
            !is_reserved(bits) ==> r@ == Datum::Number(bits),
    {
        Value(bits)
    }

    /// Nil: the NaN signature with the type segment of nil and an empty data
    /// segment.
    pub fn from_nil() -> (r: Self)
        ensures
            r.word() == nil_word(),
            r@ == Datum::Nil,
    {
        proof {
            lemma_nil_word();
        }
        Value(NAN_MASK | NIL_TYPE)
    }

    /// The external reference `handle`, which has to fit the data segment: a
    /// wider one is refused, since its high bits would spill into the type
    /// segment and the signature.
    pub fn from_external(handle: u64) -> (r: Result<Self, DomainViolation>)
        ensures
            handle <= DATA_MASK ==> r is Ok && r->Ok_0.word() == external_word(handle) && r->Ok_0@
                == Datum::External(handle),
            handle > DATA_MASK ==> r == Err::<Self, DomainViolation>(DomainViolation::HandleTooWide),
    {
        if handle > DATA_MASK {
            Err(DomainViolation::HandleTooWide)
        } else {
            proof {
                lemma_external_word(handle);
            }
            Ok(Value(handle | NAN_MASK | EXTERNAL_TYPE))
        }
    }
}

/// The meanings of a sequence of values.
pub open spec fn views(s: Seq<Value>) -> Seq<Datum> {
    Seq::new(s.len(), |i: int| s[i]@)
}

/// `plus` may be asked for the sum that combining the words `a` and `b`
/// needs.
pub open spec fn can_combine_words<F: Fn(u64, u64) -> u64>(a: u64, b: u64, plus: &F) -> bool {
    word_is_number(a) && word_is_number(b) ==> plus.requires((a, b))
}

/// `r` is a result of combining the words `a` and `b`: a word that `plus`
/// returns for the two where both are numbers, the nil word in every other
/// case.
pub open spec fn words_combine_to<F: Fn(u64, u64) -> u64>(a: u64, b: u64, plus: &F, r: u64) -> bool {
    if word_is_number(a) && word_is_number(b) {
        plus.ensures((a, b), r)
    } else {
        r == nil_word()
    }
}

/// Where the sum is not reserved, combining words is combining what they
/// mean.
pub proof fn lemma_combine_meaning<F: Fn(u64, u64) -> u64>(a: u64, b: u64, plus: &F, r: u64)
    requires
        words_combine_to(a, b, plus, r),
        word_is_number(a) && word_is_number(b) ==> !is_reserved(r),
    ensures
        combines_to(decode(a), decode(b), plus, decode(r)),
{
    lemma_nil_word();
}

/// The sum of two numbers under `plus`, stored as it is; nil unless both
/// operands are numbers.
pub fn combine<F: Fn(u64, u64) -> u64>(a: &Value, b: &Value, plus: &F) -> (r: Value)
    requires
        can_combine_words(a.word(), b.word(), plus),
    ensures
        words_combine_to(a.word(), b.word(), plus, r.word()),
        (word_is_number(a.word()) && word_is_number(b.word()) ==> !is_reserved(r.word())) ==> combines_to(
            a@,
            b@,
            plus,
            r@,
        ),
{
    proof {
        lemma_nil_word();
    }
    if a.is_number() && b.is_number() {
        Value::from_number(plus(a.as_number_unchecked(), b.as_number_unchecked()))
    } else {
        Value::from_nil()
    }
}

/// `number_at` may be asked for the number at position `i`, where one is
/// needed.
pub open spec fn can_make_word<G: Fn(usize) -> u64>(i: usize, nil_rate: usize, number_at: &G) -> bool {
    &&& nil_rate > 0
    &&& !is_nil_position(i as int, nil_rate as int) ==> number_at.requires((i,))
}

/// `w` belongs at position `i` of an input array: the nil word at every
/// multiple of `nil_rate`, elsewhere a word that `number_at` returns for `i`.
pub open spec fn is_operand_word<G: Fn(usize) -> u64>(i: usize, nil_rate: usize, number_at: &G, w: u64) -> bool {
    if is_nil_position(i as int, nil_rate as int) {
        w == nil_word()
    } else {
        number_at.ensures((i,), w)
    }
}

/// The element at position `i` of an input array: nil at every multiple of
/// `nil_rate`, the number `number_at(i)` elsewhere.
pub fn operand<G: Fn(usize) -> u64>(i: usize, nil_rate: usize, number_at: &G) -> (v: Value)
    requires
        can_make_word(i, nil_rate, number_at),
    ensures
        is_operand_word(i, nil_rate, number_at, v.word()),
{
    if i % nil_rate == 0 {
        Value::from_nil()
    } else {
        Value::from_number(number_at(i))
    }
}

/// An input array of length `n`.
pub fn inputs<G: Fn(usize) -> u64>(n: usize, nil_rate: usize, number_at: &G) -> (v: Vec<Value>)
    requires
        nil_rate > 0,
        forall|i: usize| i < n ==> can_make_word(i, nil_rate, number_at),
    ensures
        v.len() == n,
        forall|i: int| 0 <= i < n ==> is_operand_word(i as usize, nil_rate, number_at, (#[trigger] v[i]).word()),
        (forall|i: usize, bits: u64| number_at.ensures((i,), bits) ==> !is_reserved(bits)) ==> are_operands(
            n,
            nil_rate,
            number_at,
            views(v@),
        ),
{
    let element = |i: usize| -> (e: Value)
        requires
            can_make_word(i, nil_rate, number_at),
        ensures
            is_operand_word(i, nil_rate, number_at, e.word()),
        {
            operand(i, nil_rate, number_at)
        };
    let v = make_vec(n, element);
    assert forall|i: int| 0 <= i < n implies is_operand_word(
        i as usize,
        nil_rate,
        number_at,
        (#[trigger] v[i]).word(),
    ) by {
        assert(v[i as usize as int] == v[i]);
    }
    proof {
        if forall|i: usize, bits: u64| number_at.ensures((i,), bits) ==> !is_reserved(bits) {
            lemma_inputs_meaning(n, nil_rate, number_at, v@);
        }
    }
    v
}

/// Where `number_at` returns no reserved bit pattern, an input array means
/// what an input array of any other layout means.
pub proof fn lemma_inputs_meaning<G: Fn(usize) -> u64>(n: usize, nil_rate: usize, number_at: &G, v: Seq<Value>)
    requires
        nil_rate > 0,
        v.len() == n,
        forall|i: int| 0 <= i < n ==> is_operand_word(i as usize, nil_rate, number_at, (#[trigger] v[i]).word()),
        forall|i: usize, bits: u64| number_at.ensures((i,), bits) ==> !is_reserved(bits),
    ensures
        are_operands(n, nil_rate, number_at, views(v)),
{
    lemma_nil_word();
    assert forall|i: int| 0 <= i < n implies is_operand(
        i as usize,
        nil_rate,
        number_at,
        #[trigger] views(v)[i],
    ) by {
        assert(is_operand_word(i as usize, nil_rate, number_at, v[i].word()));
    }
}

/// A result array of length `n`, nil throughout.
pub fn nils(n: usize) -> (v: Vec<Value>)
    ensures
        v.len() == n,
        forall|i: int| 0 <= i < n ==> (#[trigger] v[i]).word() == nil_word(),
{
    let element = |i: usize| -> (e: Value)
        ensures
            e.word() == nil_word(),
        {
            Value::from_nil()
        };
    let v = make_vec(n, element);
    assert forall|i: int| 0 <= i < n implies (#[trigger] v[i]).word() == nil_word() by {
        assert(v[i as usize as int] == v[i]);
    }
    v
}

/// `plus` may be asked for every sum that combining `x` and `y` elementwise
/// needs.
pub open spec fn can_combine_all_words<F: Fn(u64, u64) -> u64>(x: Seq<Value>, y: Seq<Value>, plus: &F) -> bool {
    forall|i: int|
        0 <= i < x.len() && i < y.len() ==> can_combine_words((#[trigger] x[i]).word(), y[i].word(), plus)
}

/// `r` is a result of combining `x` and `y` elementwise.
pub open spec fn all_words_combine_to<F: Fn(u64, u64) -> u64>(
    x: Seq<Value>,
    y: Seq<Value>,
    plus: &F,
    r: Seq<Value>,
) -> bool {
    &&& r.len() == x.len()
    &&& r.len() == y.len()
    &&& forall|i: int|
        0 <= i < r.len() ==> words_combine_to(x[i].word(), y[i].word(), plus, (#[trigger] r[i]).word())
}

/// One pass of the workload: every element of `results` becomes the
/// combination of the elements of `x` and `y` at its index.
pub fn kernel<F: Fn(u64, u64) -> u64>(x: &Vec<Value>, y: &Vec<Value>, results: &mut Vec<Value>, plus: &F)
    requires
        x.len() == y.len(),
        old(results).len() == x.len(),
        can_combine_all_words(x@, y@, plus),
    ensures
        all_words_combine_to(x@, y@, plus, final(results)@),
        (forall|a: u64, b: u64, s: u64| plus.ensures((a, b), s) ==> !is_reserved(s)) ==> all_combine_to(
            views(x@),
            views(y@),
            plus,
            views(final(results)@),
        ),
{
    let n = x.len();
    for i in 0..n
        invariant
            n == x.len(),
            n == y.len(),
            n == results.len(),
            can_combine_all_words(x@, y@, plus),
            forall|j: int|
                0 <= j < i ==> words_combine_to(x[j].word(), y[j].word(), plus, (#[trigger] results[j]).word()),
    {
        assert(can_combine_words(x@[i as int].word(), y@[i as int].word(), plus));
        let r = combine(&x[i], &y[i], plus);
        results[i] = r;
    }
    proof {
        if forall|a: u64, b: u64, s: u64| plus.ensures((a, b), s) ==> !is_reserved(s) {
            lemma_kernel_meaning(x@, y@, plus, results@);
        }
    }
}

/// Where `plus` returns no reserved bit pattern, a pass computes on the
/// meanings what a pass of any other layout computes.
pub proof fn lemma_kernel_meaning<F: Fn(u64, u64) -> u64>(x: Seq<Value>, y: Seq<Value>, plus: &F, r: Seq<Value>)
    requires
        all_words_combine_to(x, y, plus, r),
        forall|a: u64, b: u64, s: u64| plus.ensures((a, b), s) ==> !is_reserved(s),
    ensures
        all_combine_to(views(x), views(y), plus, views(r)),
{
    assert forall|i: int| 0 <= i < r.len() implies combines_to(
        views(x)[i],
        views(y)[i],
        plus,
        #[trigger] views(r)[i],
    ) by {
        lemma_combine_meaning(x[i].word(), y[i].word(), plus, r[i].word());
    }
}

} // verus!
