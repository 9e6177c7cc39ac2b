//! The values that every layout encodes, and what the workload computes on
//! them, independent of any encoding.

use vstd::prelude::*;

verus! {

/// The meaning of an encoded value.
///
/// `Number` holds the bit pattern of a double, `External` an opaque handle
/// that the library stores and returns but never follows.
pub enum Datum {
    Nil,
    Number(u64),
    External(u64),
}

impl Datum {
    /// The bit pattern held, if this is a number.
    pub open spec fn number(self) -> Option<u64> {
        match self {
            Datum::Number(bits) => Some(bits),
            _ => None,
        }
    }

    /// The handle held, if this is an external reference.
    pub open spec fn external(self) -> Option<u64> {
        match self {
            Datum::External(handle) => Some(handle),
            _ => None,
        }
    }
}

/// A value is of exactly one kind.
pub proof fn lemma_one_kind(d: Datum)
    ensures
        d is Nil || d is Number || d is External,
        !(d is Nil && d is Number),
        !(d is Nil && d is External),
        !(d is Number && d is External),
{
}

/// A value that means the number `bits` is read back as that number, bit for
/// bit, and as no handle.
pub proof fn lemma_number_round_trip(d: Datum, bits: u64)
    requires
        d == Datum::Number(bits),
    ensures
        d.number() == Some(bits),
        d.external() is None,
{
}

/// A value that means the external reference `handle` is read back as that
/// handle, and as no number.
pub proof fn lemma_external_round_trip(d: Datum, handle: u64)
    requires
        d == Datum::External(handle),
    ensures
        d.external() == Some(handle),
        d.number() is None,
{
}

/// `plus` may be asked for the sum that combining `a` and `b` needs.
pub open spec fn can_combine<F: Fn(u64, u64) -> u64>(a: Datum, b: Datum, plus: &F) -> bool {
    a is Number && b is Number ==> plus.requires((a->Number_0, b->Number_0))
}

/// `r` is a result of combining `a` and `b` under the addition `plus`: a
/// number that `plus` returns for the two operands where both are numbers,
/// nil in every other case.
pub open spec fn combines_to<F: Fn(u64, u64) -> u64>(a: Datum, b: Datum, plus: &F, r: Datum) -> bool {
    if a is Number && b is Number {
        r is Number && plus.ensures((a->Number_0, b->Number_0), r->Number_0)
    } else {
        r == Datum::Nil
    }
}

/// `plus` may be asked for every sum that combining `xs` and `ys` elementwise
/// needs.
pub open spec fn can_combine_all<F: Fn(u64, u64) -> u64>(
    xs: Seq<Datum>,
    ys: Seq<Datum>,
    plus: &F,
) -> bool {
    forall|i: int| 0 <= i < xs.len() && i < ys.len() ==> can_combine(#[trigger] xs[i], ys[i], plus)
}

/// `rs` is a result of combining `xs` and `ys` elementwise.
pub open spec fn all_combine_to<F: Fn(u64, u64) -> u64>(
    xs: Seq<Datum>,
    ys: Seq<Datum>,
    plus: &F,
    rs: Seq<Datum>,
) -> bool {
    &&& rs.len() == xs.len()
    &&& rs.len() == ys.len()
    &&& forall|i: int| 0 <= i < rs.len() ==> combines_to(xs[i], ys[i], plus, #[trigger] rs[i])
}

/// Position `i` of an input array with nil spacing `nil_rate` holds nil.
pub open spec fn is_nil_position(i: int, nil_rate: int) -> bool {
    i % nil_rate == 0
}

/// `number_at` may be asked for the number at position `i`, where one is
/// needed.
pub open spec fn can_make_operand<G: Fn(usize) -> u64>(i: usize, nil_rate: usize, number_at: &G) -> bool {
    &&& nil_rate > 0
    &&& !is_nil_position(i as int, nil_rate as int) ==> number_at.requires((i,))
}

/// `d` belongs at position `i` of an input array: nil at every multiple of
/// `nil_rate`, elsewhere a number that `number_at` returns for `i`.
pub open spec fn is_operand<G: Fn(usize) -> u64>(i: usize, nil_rate: usize, number_at: &G, d: Datum) -> bool {
    if is_nil_position(i as int, nil_rate as int) {
        d == Datum::Nil
    } else {
        d is Number && number_at.ensures((i,), d->Number_0)
    }
}

/// `number_at` may be asked for every number of an input array of length `n`.
pub open spec fn can_make_operands<G: Fn(usize) -> u64>(n: usize, nil_rate: usize, number_at: &G) -> bool {
    &&& nil_rate > 0
    &&& forall|i: usize| i < n ==> can_make_operand(i, nil_rate, number_at)
}

/// `ds` is an input array of length `n`.
pub open spec fn are_operands<G: Fn(usize) -> u64>(
    n: usize,
    nil_rate: usize,
    number_at: &G,
    ds: Seq<Datum>,
) -> bool {
    &&& ds.len() == n
    &&& forall|i: int| 0 <= i < n ==> is_operand(i as usize, nil_rate, number_at, #[trigger] ds[i])
}

/// Combining yields a number exactly when both operands are numbers, and
/// never an external reference.
pub proof fn lemma_combination_kind<F: Fn(u64, u64) -> u64>(a: Datum, b: Datum, plus: &F, r: Datum)
    requires
        combines_to(a, b, plus, r),
    ensures
        r is Number <==> a is Number && b is Number,
        r is Nil <==> !(a is Number && b is Number),
        !(r is External),
{
}

/// Where the addition returns one sum for each pair of numbers, combining has
/// one result: whatever layout computed `r1` and `r2` from encodings of `a`
/// and `b`, the two mean the same.
pub proof fn lemma_combination_agrees<F: Fn(u64, u64) -> u64>(
    a: Datum,
    b: Datum,
    plus: &F,
    r1: Datum,
    r2: Datum,
)
    requires
        combines_to(a, b, plus, r1),
        combines_to(a, b, plus, r2),
        forall|x: u64, y: u64, s1: u64, s2: u64|
            plus.ensures((x, y), s1) && plus.ensures((x, y), s2) ==> s1 == s2,
    ensures
        r1 == r2,
{
}

/// The same for whole arrays.
pub proof fn lemma_combinations_agree<F: Fn(u64, u64) -> u64>(
    xs: Seq<Datum>,
    ys: Seq<Datum>,
    plus: &F,
    rs1: Seq<Datum>,
    rs2: Seq<Datum>,
)
    requires
        all_combine_to(xs, ys, plus, rs1),
        all_combine_to(xs, ys, plus, rs2),
        forall|x: u64, y: u64, s1: u64, s2: u64|
            plus.ensures((x, y), s1) && plus.ensures((x, y), s2) ==> s1 == s2,
    ensures
        rs1 == rs2,
{
    assert forall|i: int| 0 <= i < rs1.len() implies rs1[i] == rs2[i] by {
        lemma_combination_agrees(xs[i], ys[i], plus, rs1[i], rs2[i]);
    }
    assert(rs1 =~= rs2);
}

/// Combining two input arrays leaves nil exactly at the positions that are a
/// multiple of either nil spacing, so the nil elements of the result are as
/// many as those positions.
pub proof fn lemma_result_nil_positions<GX: Fn(usize) -> u64, GY: Fn(usize) -> u64, F: Fn(u64, u64) -> u64>(
    n: usize,
    x_nil_rate: usize,
    y_nil_rate: usize,
    x_number_at: &GX,
    y_number_at: &GY,
    plus: &F,
    xs: Seq<Datum>,
    ys: Seq<Datum>,
    rs: Seq<Datum>,
)
    requires
        x_nil_rate > 0,
        y_nil_rate > 0,
        are_operands(n, x_nil_rate, x_number_at, xs),
        are_operands(n, y_nil_rate, y_number_at, ys),
        all_combine_to(xs, ys, plus, rs),
    ensures
        forall|i: int|
            0 <= i < n ==> (#[trigger] rs[i] is Nil <==> is_nil_position(i, x_nil_rate as int)
                || is_nil_position(i, y_nil_rate as int)),
        Set::new(|i: int| 0 <= i < n && rs[i] is Nil) == Set::new(
            |i: int|
                0 <= i < n && (is_nil_position(i, x_nil_rate as int) || is_nil_position(
                    i,
                    y_nil_rate as int,
                )),
        ),
{
    assert forall|i: int| 0 <= i < n implies (#[trigger] rs[i] is Nil <==> is_nil_position(
        i,
        x_nil_rate as int,
    ) || is_nil_position(i, y_nil_rate as int)) by {
        assert(is_operand(i as usize, x_nil_rate, x_number_at, xs[i]));
        assert(is_operand(i as usize, y_nil_rate, y_number_at, ys[i]));
        assert(combines_to(xs[i], ys[i], plus, rs[i]));
    }
    assert(Set::new(|i: int| 0 <= i < n && rs[i] is Nil) =~= Set::new(
        |i: int|
            0 <= i < n && (is_nil_position(i, x_nil_rate as int) || is_nil_position(
                i,
                y_nil_rate as int,
            )),
    ));
}

} // verus!
