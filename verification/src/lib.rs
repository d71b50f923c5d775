//! Concatenation of fixed-length sequences under an arithmetic length
//! constraint: the output length must equal the sum of the input lengths.
//! The constraint is stated once as a spec-level predicate, checked at run
//! time by [`is_sum_of`], and enforced either statically (the result of
//! [`safe_concatenate`] always has the sum as its length) or dynamically
//! ([`concatenate`] rejects a mismatched requested length with
//! [`LengthMismatch`]).

use vstd::prelude::*;

verus! {

/// The single failure mode: a requested output length that is not the sum
/// of the two input lengths.
#[derive(Debug, Clone, Copy, PartialEq, Eq, Structural)]
pub struct LengthMismatch;

/// Holds exactly when `sum` is the mathematical sum of `first` and `second`.
pub open spec fn sum_constraint(sum: int, first: int, second: int) -> bool {
    sum == first + second
}

/// Decides at run time whether `sum == first + second`, exact even where
/// the mathematical sum would not fit in `usize`.
pub fn is_sum_of(sum: usize, first: usize, second: usize) -> (r: bool)
    ensures
        r == sum_constraint(sum as int, first as int, second as int),
{
    first <= sum && sum - first == second
}

/// Concatenation whose output length is the sum of the input lengths by
/// construction: all of `first` in order, then all of `second` in order.
pub fn safe_concatenate<T: Copy>(first: &Vec<T>, second: &Vec<T>) -> (result: Vec<T>)
    ensures
        result@ == first@ + second@,
        result@.len() == first@.len() + second@.len(),
        forall|i: int| 0 <= i < first@.len() ==> result@[i] == first@[i],
        forall|j: int| 0 <= j < second@.len() ==> result@[first@.len() + j] == second@[j],
{
    let mut result: Vec<T> = Vec::new();
    let mut i: usize = 0;
    while i < first.len()
        invariant
            i <= first@.len(),
            result@ == first@.subrange(0, i as int),
        decreases first@.len() - i,
    {
        result.push(first[i]);
        i = i + 1;
    }
    let mut j: usize = 0;
    while j < second.len()
        invariant
            j <= second@.len(),
            result@ == first@ + second@.subrange(0, j as int),
        decreases second@.len() - j,
    {
        result.push(second[j]);
        j = j + 1;
    }
    result
}

/// Concatenation against a caller-chosen output length: the request is
/// honoured exactly when it equals the sum of the input lengths, and fails
/// closed with [`LengthMismatch`] otherwise, never producing a shorter or
/// longer result than requested.
pub fn concatenate<T: Copy>(first: &Vec<T>, second: &Vec<T>, requested_len: usize) -> (result:
    Result<Vec<T>, LengthMismatch>)
    ensures
        result is Ok <==> requested_len == first@.len() + second@.len(),
        result is Ok ==> result->Ok_0@ == first@ + second@,
{
    if is_sum_of(requested_len, first.len(), second.len()) {
        Ok(safe_concatenate(first, second))
    } else {
        Err(LengthMismatch)
    }
}

/// Concatenating the empty sequence on either side leaves a sequence
/// unchanged.
pub proof fn lemma_concat_empty<T>(s: Seq<T>)
    ensures
        s + Seq::<T>::empty() == s,
        Seq::<T>::empty() + s == s,
{
    assert(s + Seq::<T>::empty() =~= s);
    assert(Seq::<T>::empty() + s =~= s);
}

/// Concatenation is associative.
pub proof fn lemma_concat_associative<T>(a: Seq<T>, b: Seq<T>, c: Seq<T>)
    ensures
        (a + b) + c == a + (b + c),
{
    assert((a + b) + c =~= a + (b + c));
}

/// Accepts only a value in the interval `[3, 10)`, the bound being a
/// precondition on every caller rather than a run-time abort.
pub fn only_3_to_10(x: usize)
    requires
        3 <= x < 10,
{
    assert(x >= 3);
    assert(x < 10);
}

/// The same interval bound placed on a compile-time constant: a caller
/// instantiates `X` and discharges the bound at that call site.
pub fn only_3_to_10_alt<const X: usize>()
    requires
        3 <= X < 10,
{
    only_3_to_10(X);
}

} // verus!
