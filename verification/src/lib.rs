//! Four interchangeable binary layouts for a dynamically typed scalar that is
//! either nil, a double-precision number or an opaque external reference,
//! together with the workload that exercises them: two input arrays are read
//! elementwise and a third receives the sum where both operands are numbers
//! and nil everywhere else.
//!
//! A number is carried as the 64-bit pattern of its IEEE-754 double. The
//! library never interprets that pattern arithmetically: the caller supplies
//! the addition as a function on bit patterns, and every contract is stated
//! relative to it.

use vstd::prelude::*;

pub mod aligned_tagged;
pub mod domain;
pub mod nan_tagged;
pub mod separated_type_info;
pub mod unaligned_tagged;

verus! {

/// Default length of the arrays of the workload.
pub const N: usize = 1_000_000;

/// Default spacing of the nil elements in the first input array.
pub const X_NIL_RATE: usize = 13;

/// Default spacing of the nil elements in the second input array.
pub const Y_NIL_RATE: usize = 33;

/// Builds the vector of length `n` whose element at index `i` is `f(i)`.
pub fn make_vec<T, F: Fn(usize) -> T>(n: usize, f: F) -> (out: Vec<T>)
    requires
        forall|i: usize| i < n ==> f.requires((i,)),
    ensures
        out.len() == n,
        forall|i: usize| i < n ==> f.ensures((i,), #[trigger] out[i as int]),
{
    let mut out = Vec::with_capacity(n);
    for i in 0..n
        invariant
            out.len() == i,
            forall|j: usize| j < n ==> f.requires((j,)),
            forall|j: usize| j < i ==> f.ensures((j,), #[trigger] out[j as int]),
    {
        out.push(f(i));
    }
    out
}

} // verus!
