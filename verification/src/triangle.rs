//! Classification of a triangle by the pairwise equality of its three
//! side lengths: equilateral, scalene, or isoceles by equality count.

use vstd::prelude::*;
use vstd::std_specs::cmp::PartialEqSpec;

verus! {

/// All three sides are equal: the first equals the second and the second
/// equals the third, by the type's own equality.
pub open spec fn spec_is_equilateral<T: PartialEq>(s1: T, s2: T, s3: T) -> bool {
    s1.eq_spec(&s2) && s2.eq_spec(&s3)
}

/// Whether the three sides are all pairwise equal.
pub fn is_equilateral<T: PartialEq + Copy>(s1: T, s2: T, s3: T) -> (r: bool)
    ensures
        T::obeys_eq_spec() ==> r == spec_is_equilateral(s1, s2, s3),
{
    let l2 = s2;
    s1 == l2 && l2 == s3
}

/// How many of the three pairwise equality tests among the sides hold:
/// first against second, second against third, third against first.
pub open spec fn eq_pair_count<T: PartialEq>(s1: T, s2: T, s3: T) -> int {
    (if s1.eq_spec(&s2) {
        1int
    } else {
        0int
    }) + (if s2.eq_spec(&s3) {
        1int
    } else {
        0int
    }) + (if s3.eq_spec(&s1) {
        1int
    } else {
        0int
    })
}

/// No two sides are equal: none of the three pairwise equality tests holds.
pub open spec fn spec_is_scalene<T: PartialEq>(s1: T, s2: T, s3: T) -> bool {
    !(s1.eq_spec(&s2) || s2.eq_spec(&s3) || s3.eq_spec(&s1))
}

/// At least two of the three pairwise equality tests among the sides hold.
pub open spec fn spec_is_isoceles<T: PartialEq>(s1: T, s2: T, s3: T) -> bool {
    eq_pair_count(s1, s2, s3) >= 2
}

/// Whether no two of the three sides are equal.
pub fn is_scalene<T: PartialEq + Copy>(s1: T, s2: T, s3: T) -> (r: bool)
    ensures
        T::obeys_eq_spec() ==> r == spec_is_scalene(s1, s2, s3),
{
    let l2 = s2;
    let l1 = s1;
    let l3 = s3;
    !(l1 == l2 || l2 == l3 || l3 == l1)
}

/// Whether at least two of the three pairwise equality tests among the
/// sides hold. An equilateral triangle passes this test as well: the
/// isoceles predicate deliberately contains the equilateral one.
pub fn is_isoceles<T: PartialEq + Copy>(s1: T, s2: T, s3: T) -> (r: bool)
    ensures
        T::obeys_eq_spec() ==> r == spec_is_isoceles(s1, s2, s3),
{
    let l2 = s2;
    let l1 = s1;
    let l3 = s3;

    let mut count: u32 = 0;
    if l1 == l2 {
        count = count + 1;
    }
    if l2 == l3 {
        count = count + 1;
    }
    if l3 == l1 {
        count = count + 1;
    }

    if count >= 2 {
        true
    } else {
        false
    }
}

/// An equilateral triangle counts as isoceles: the equality tests that make
/// the sides all equal already make two of the three pairwise tests hold.
pub proof fn lemma_equilateral_is_isoceles<T: PartialEq>(s1: T, s2: T, s3: T)
    requires
        spec_is_equilateral(s1, s2, s3),
    ensures
        spec_is_isoceles(s1, s2, s3),
{
}

/// A scalene triangle is exactly one where no pairwise equality test
/// holds; it is therefore neither isoceles nor equilateral.
pub proof fn lemma_scalene_excludes_others<T: PartialEq>(s1: T, s2: T, s3: T)
    ensures
        spec_is_scalene(s1, s2, s3) <==> eq_pair_count(s1, s2, s3) == 0,
        spec_is_scalene(s1, s2, s3) ==> !spec_is_isoceles(s1, s2, s3),
        spec_is_scalene(s1, s2, s3) ==> !spec_is_equilateral(s1, s2, s3),
{
}

} // verus!
