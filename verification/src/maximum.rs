//! Maximum element of a non-empty slice.
//!
//! A single left-to-right scan: the running maximum starts at the first
//! element and is replaced whenever a strictly greater element appears,
//! so among several equal maxima the earliest one is kept. An empty
//! slice is reported as an error rather than a panic.

use core::cmp::Ordering;
use vstd::prelude::*;
use vstd::slice::slice_index_get;
use vstd::std_specs::cmp::PartialOrdSpec;

verus! {

/// Error reported when the maximum of an empty slice is requested.
#[derive(Clone, Copy, Debug, PartialEq, Eq, Structural)]
pub struct EmptyInputError;

/// The element a left-to-right scan keeps: the first element to start,
/// replaced whenever a strictly greater element appears. Among equal
/// maxima the earliest one is kept.
pub open spec fn seq_max<T: PartialOrd>(s: Seq<T>) -> T
    recommends
        s.len() > 0,
    decreases s.len(),
{
    if s.len() <= 1 {
        s[0]
    } else {
        let prior = seq_max(s.drop_last());
        if s.last().partial_cmp_spec(&prior) == Some(Ordering::Greater) {
            s.last()
        } else {
            prior
        }
    }
}

/// The maximum of a non-empty slice of `i32`, or `EmptyInputError` on an
/// empty slice. The result is exactly what the left-to-right scan keeps.
pub fn largest_i32(list: &[i32]) -> (r: Result<i32, EmptyInputError>)
    ensures
        r is Ok <==> list@.len() > 0,
        r is Ok ==> r->Ok_0 == seq_max(list@),
        r is Ok ==> list@.contains(r->Ok_0),
        r is Ok ==> forall|i: int| 0 <= i < list@.len() ==> list@[i] <= r->Ok_0,
{
    if list.len() == 0 {
        return Err(EmptyInputError);
    }
    proof {
        lemma_seq_max_is_member(list@);
        lemma_seq_max_i32_dominates(list@);
    }
    let mut largest: i32 = *slice_index_get(list, 0);
    let mut i: usize = 1;
    while i < list.len()
        invariant
            1 <= i <= list@.len(),
            largest == seq_max(list@.take(i as int)),
        decreases list@.len() - i,
    {
        let x = *slice_index_get(list, i);
        if x > largest {
            largest = x;
        }
        proof {
            assert(list@.take(i as int + 1).drop_last() =~= list@.take(i as int));
            assert(list@.take(i as int + 1).last() == list@[i as int]);
        }
        i = i + 1;
    }
    proof {
        assert(list@.take(list@.len() as int) =~= list@);
    }
    Ok(largest)
}

/// The element a left-to-right scan over characters keeps, under the
/// standard ordering of characters by code point.
pub open spec fn seq_max_char(s: Seq<char>) -> char
    recommends
        s.len() > 0,
    decreases s.len(),
{
    if s.len() <= 1 {
        s[0]
    } else {
        let prior = seq_max_char(s.drop_last());
        if s.last() > prior {
            s.last()
        } else {
            prior
        }
    }
}

/// The maximum of a non-empty slice of characters under the standard
/// code-point ordering, or `EmptyInputError` on an empty slice.
pub fn largest_char(list: &[char]) -> (r: Result<char, EmptyInputError>)
    ensures
        r is Ok <==> list@.len() > 0,
        r is Ok ==> r->Ok_0 == seq_max_char(list@),
        r is Ok ==> list@.contains(r->Ok_0),
        r is Ok ==> forall|i: int| 0 <= i < list@.len() ==> list@[i] <= r->Ok_0,
{
    if list.len() == 0 {
        return Err(EmptyInputError);
    }
    proof {
        lemma_seq_max_char_is_member(list@);
        lemma_seq_max_char_dominates(list@);
    }
    let mut largest: char = *slice_index_get(list, 0);
    let mut i: usize = 1;
    while i < list.len()
        invariant
            1 <= i <= list@.len(),
            largest == seq_max_char(list@.take(i as int)),
        decreases list@.len() - i,
    {
        let x = *slice_index_get(list, i);
        if x > largest {
            largest = x;
        }
        proof {
            assert(list@.take(i as int + 1).drop_last() =~= list@.take(i as int));
            assert(list@.take(i as int + 1).last() == list@[i as int]);
        }
        i = i + 1;
    }
    proof {
        assert(list@.take(list@.len() as int) =~= list@);
    }
    Ok(largest)
}

/// The maximum of a non-empty slice of elements of any type whose
/// comparison obeys its specification, or `EmptyInputError` on an empty
/// slice. The result is exactly what the left-to-right scan keeps.
pub fn largest<T: PartialOrd + Copy>(list: &[T]) -> (r: Result<T, EmptyInputError>)
    requires
        T::obeys_partial_cmp_spec(),
    ensures
        r is Ok <==> list@.len() > 0,
        r is Ok ==> r->Ok_0 == seq_max(list@),
        r is Ok ==> list@.contains(r->Ok_0),
        r is Ok && vstd::laws_cmp::obeys_partial_cmp_spec_properties::<T>() ==> forall|i: int|
            0 <= i < list@.len() ==> (#[trigger] list@[i].partial_cmp_spec(&r->Ok_0)) != Some(
                Ordering::Greater,
            ),
{
    if list.len() == 0 {
        return Err(EmptyInputError);
    }
    proof {
        lemma_seq_max_is_member(list@);
        if vstd::laws_cmp::obeys_partial_cmp_spec_properties::<T>() {
            lemma_seq_max_dominates(list@);
        }
    }
    let mut largest: T = *slice_index_get(list, 0);
    let mut i: usize = 1;
    while i < list.len()
        invariant
            T::obeys_partial_cmp_spec(),
            1 <= i <= list@.len(),
            largest == seq_max(list@.take(i as int)),
        decreases list@.len() - i,
    {
        let x = *slice_index_get(list, i);
        if x.gt(&largest) {
            largest = x;
        }
        proof {
            assert(list@.take(i as int + 1).drop_last() =~= list@.take(i as int));
            assert(list@.take(i as int + 1).last() == list@[i as int]);
        }
        i = i + 1;
    }
    proof {
        assert(list@.take(list@.len() as int) =~= list@);
    }
    Ok(largest)
}

/// The maximum element of a slice is never fabricated: for every
/// non-empty sequence, the value the scan keeps is one of its elements.
pub proof fn lemma_seq_max_is_member<T: PartialOrd>(s: Seq<T>)
    requires
        s.len() > 0,
    ensures
        s.contains(seq_max(s)),
    decreases s.len(),
{
    if s.len() <= 1 {
        assert(s.contains(s[0]));
    } else {
        lemma_seq_max_is_member(s.drop_last());
        if seq_max(s) == s.last() {
            assert(s.contains(s.last()));
        } else {
            let i = choose|i: int|
                0 <= i < s.drop_last().len() && s.drop_last()[i] == seq_max(s.drop_last());
            assert(s[i] == seq_max(s));
            assert(s.contains(seq_max(s)));
        }
    }
}

/// On a one-element sequence the scan keeps that element.
pub proof fn lemma_seq_max_singleton<T: PartialOrd>(x: T)
    ensures
        seq_max(seq![x]) == x,
{
    assert(seq![x][0] == x);
}

/// The maximum character of a slice is never fabricated: for every
/// non-empty sequence of characters, the value the scan keeps is one of
/// its elements.
pub proof fn lemma_seq_max_char_is_member(s: Seq<char>)
    requires
        s.len() > 0,
    ensures
        s.contains(seq_max_char(s)),
    decreases s.len(),
{
    if s.len() <= 1 {
        assert(s.contains(s[0]));
    } else {
        lemma_seq_max_char_is_member(s.drop_last());
        if seq_max_char(s) == s.last() {
            assert(s.contains(s.last()));
        } else {
            let i = choose|i: int|
                0 <= i < s.drop_last().len() && s.drop_last()[i] == seq_max_char(s.drop_last());
            assert(s[i] == seq_max_char(s));
            assert(s.contains(seq_max_char(s)));
        }
    }
}

/// On a one-element sequence of characters the scan keeps that element.
pub proof fn lemma_seq_max_char_singleton(x: char)
    ensures
        seq_max_char(seq![x]) == x,
{
    assert(seq![x][0] == x);
}

/// What the scan keeps is the greatest element: no element of an `i32`
/// sequence exceeds it.
pub proof fn lemma_seq_max_i32_dominates(s: Seq<i32>)
    requires
        s.len() > 0,
    ensures
        forall|i: int| 0 <= i < s.len() ==> s[i] <= seq_max(s),
    decreases s.len(),
{
    if s.len() > 1 {
        lemma_seq_max_i32_dominates(s.drop_last());
        assert(forall|i: int| 0 <= i < s.len() - 1 ==> s[i] == s.drop_last()[i]);
    }
}

/// What the scan keeps is the greatest character: no element of a
/// character sequence exceeds it under the code-point ordering.
pub proof fn lemma_seq_max_char_dominates(s: Seq<char>)
    requires
        s.len() > 0,
    ensures
        forall|i: int| 0 <= i < s.len() ==> s[i] <= seq_max_char(s),
    decreases s.len(),
{
    if s.len() > 1 {
        lemma_seq_max_char_dominates(s.drop_last());
        assert(forall|i: int| 0 <= i < s.len() - 1 ==> s[i] == s.drop_last()[i]);
    }
}

/// What the scan keeps is the greatest element of any sequence whose
/// element type compares consistently (equality agrees with the
/// comparison, flipping the operands flips the verdict, and the strict
/// verdicts are transitive): no element compares greater than it.
pub proof fn lemma_seq_max_dominates<T: PartialOrd>(s: Seq<T>)
    requires
        vstd::laws_cmp::obeys_partial_cmp_spec_properties::<T>(),
        s.len() > 0,
    ensures
        forall|i: int|
            0 <= i < s.len() ==> (#[trigger] s[i].partial_cmp_spec(&seq_max(s))) != Some(
                Ordering::Greater,
            ),
    decreases s.len(),
{
    reveal(vstd::laws_cmp::obeys_partial_cmp_spec_properties);
    if s.len() <= 1 {
        assert(s[0].partial_cmp_spec(&seq_max(s)) != Some(Ordering::Greater));
    } else {
        lemma_seq_max_dominates(s.drop_last());
        assert(forall|i: int| 0 <= i < s.len() - 1 ==> s[i] == s.drop_last()[i]);
        let prior = seq_max(s.drop_last());
        let last = s.last();
        if last.partial_cmp_spec(&prior) == Some(Ordering::Greater) {
            assert forall|i: int| 0 <= i < s.len() implies (#[trigger] s[i].partial_cmp_spec(
                &seq_max(s),
            )) != Some(Ordering::Greater) by {
                if i < s.len() - 1 && s[i].partial_cmp_spec(&last) == Some(Ordering::Greater) {
                    assert(s[i].partial_cmp_spec(&prior) == Some(Ordering::Greater));
                }
            }
        }
    }
}

} // verus!
