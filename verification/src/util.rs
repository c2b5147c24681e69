//! Three-way ordering utility: the least, middle and greatest of three
//! values under the type's own comparison.
//!
//! The functions are generic over `PartialOrd`. Their contracts pin the
//! result exactly, branch by branch, for any type whose executable
//! comparison agrees with its specification (`obeys_partial_cmp_spec`);
//! ties resolve to the first qualifying operand in a fixed branch order.
//! When the comparison is a total order on the three arguments, the lemmas
//! below show that the three selectors really return the least, middle and
//! greatest value, and together a rearrangement of the three arguments.

use vstd::prelude::*;
use vstd::std_specs::cmp::PartialOrdIs;
use vstd::std_specs::cmp::PartialOrdSpec;

verus! {

/// The value `min_of_three` returns: `a` when `a` compares `<=` to both
/// others, else `b` when `b` compares `<=` to both others, else `c`.
pub open spec fn spec_min_of_three<T: PartialOrd>(a: T, b: T, c: T) -> T {
    if a.is_le(&b) && a.is_le(&c) {
        a
    } else if b.is_le(&a) && b.is_le(&c) {
        b
    } else {
        c
    }
}

/// The least of three values, with ties resolved in favour of `a`, then `b`.
pub fn min_of_three<T: PartialOrd + Copy>(a: T, b: T, c: T) -> (r: T)
    ensures
        r == a || r == b || r == c,
        T::obeys_partial_cmp_spec() ==> r == spec_min_of_three(a, b, c),
{
    if a <= b && a <= c {
        a
    } else if b <= a && b <= c {
        b
    } else {
        c
    }
}

/// The value `mid_of_three` returns, by the same branch order the
/// executable code takes: compare `a` with `b`, then place `c`.
pub open spec fn spec_mid_of_three<T: PartialOrd>(a: T, b: T, c: T) -> T {
    if a.is_gt(&b) {
        if b.is_gt(&c) {
            b
        } else if a.is_gt(&c) {
            c
        } else {
            a
        }
    } else {
        if a.is_gt(&c) {
            a
        } else if b.is_gt(&c) {
            c
        } else {
            b
        }
    }
}

/// The middle of three values: neither the least nor the greatest, with
/// ties resolved in a fixed branch order.
pub fn mid_of_three<T: PartialOrd + Copy>(a: T, b: T, c: T) -> (r: T)
    ensures
        r == a || r == b || r == c,
        T::obeys_partial_cmp_spec() ==> r == spec_mid_of_three(a, b, c),
{
    if a > b {
        if b > c {
            b
        } else if a > c {
            c
        } else {
            a
        }
    } else {
        if a > c {
            a
        } else if b > c {
            c
        } else {
            b
        }
    }
}

/// The value `max_of_three` returns: `a` when `a` compares `>=` to `b` and
/// to `c`, else whichever of `b` and `c` compares greater.
pub open spec fn spec_max_of_three<T: PartialOrd>(a: T, b: T, c: T) -> T {
    if a.is_ge(&b) {
        if a.is_ge(&c) {
            a
        } else {
            c
        }
    } else {
        if b.is_ge(&c) {
            b
        } else {
            c
        }
    }
}

/// The greatest of three values, with ties resolved in favour of `a`, then `b`.
pub fn max_of_three<T: PartialOrd + Copy>(a: T, b: T, c: T) -> (r: T)
    ensures
        r == a || r == b || r == c,
        T::obeys_partial_cmp_spec() ==> r == spec_max_of_three(a, b, c),
{
    if a >= b {
        if a >= c {
            a
        } else {
            c
        }
    } else {
        if b >= c {
            b
        } else {
            c
        }
    }
}

/// The comparison decides the pair `x`, `y` both ways, the four comparison
/// operators agree with one another across the two directions, and values
/// that compare equal are equal.
pub open spec fn ordered_pair<T: PartialOrd>(x: T, y: T) -> bool {
    &&& x.is_le(&y) || x.is_ge(&y)
    &&& y.is_le(&x) || y.is_ge(&x)
    &&& x.is_le(&y) <==> y.is_ge(&x)
    &&& y.is_le(&x) <==> x.is_ge(&y)
    &&& x.is_lt(&y) <==> y.is_gt(&x)
    &&& y.is_lt(&x) <==> x.is_gt(&y)
    &&& x.is_le(&y) && y.is_le(&x) ==> x == y
}

/// `x <= y` and `y <= z` compose to `x <= z`.
pub open spec fn le_through<T: PartialOrd>(x: T, y: T, z: T) -> bool {
    x.is_le(&y) && y.is_le(&z) ==> x.is_le(&z)
}

/// The comparison behaves as a total order on the three values `a`, `b`,
/// `c`: every pair among them (each value paired with itself included) is
/// an `ordered_pair`, and `<=` is transitive through them in every
/// arrangement. Integer comparisons satisfy all of this.
pub open spec fn totally_ordered_triple<T: PartialOrd>(a: T, b: T, c: T) -> bool {
    &&& ordered_pair(a, a) && ordered_pair(b, b) && ordered_pair(c, c)
    &&& ordered_pair(a, b) && ordered_pair(a, c) && ordered_pair(b, c)
    &&& le_through(a, b, c) && le_through(a, c, b)
    &&& le_through(b, a, c) && le_through(b, c, a)
    &&& le_through(c, a, b) && le_through(c, b, a)
}

/// On a totally ordered triple, `min_of_three` picks one of the three
/// values, and one that compares `<=` to all three.
pub proof fn lemma_min_of_three_is_least<T: PartialOrd>(a: T, b: T, c: T)
    requires
        totally_ordered_triple(a, b, c),
    ensures
        ({
            let r = spec_min_of_three(a, b, c);
            &&& r == a || r == b || r == c
            &&& r.is_le(&a) && r.is_le(&b) && r.is_le(&c)
        }),
{
}

/// On a totally ordered triple, `max_of_three` picks one of the three
/// values, and one that all three compare `<=` to.
pub proof fn lemma_max_of_three_is_greatest<T: PartialOrd>(a: T, b: T, c: T)
    requires
        totally_ordered_triple(a, b, c),
    ensures
        ({
            let r = spec_max_of_three(a, b, c);
            &&& r == a || r == b || r == c
            &&& a.is_le(&r) && b.is_le(&r) && c.is_le(&r)
        }),
{
}

/// On a totally ordered triple, `mid_of_three` picks one of the three
/// values, and one that sits between the least and the greatest.
pub proof fn lemma_mid_of_three_is_middle<T: PartialOrd>(a: T, b: T, c: T)
    requires
        totally_ordered_triple(a, b, c),
    ensures
        ({
            let r = spec_mid_of_three(a, b, c);
            &&& r == a || r == b || r == c
            &&& spec_min_of_three(a, b, c).is_le(&r)
            &&& r.is_le(&spec_max_of_three(a, b, c))
        }),
{
}

/// For fully-equal inputs, all three selectors return the common value;
/// the comparison only has to decide a value against itself consistently.
pub proof fn lemma_ordering_of_equal_inputs<T: PartialOrd>(a: T, b: T, c: T)
    requires
        a == b && b == c,
        ordered_pair(a, a),
    ensures
        spec_min_of_three(a, b, c) == a,
        spec_mid_of_three(a, b, c) == a,
        spec_max_of_three(a, b, c) == a,
{
}

/// On a totally ordered triple, the least, middle and greatest value
/// together are a rearrangement of the three arguments.
pub proof fn lemma_min_mid_max_rearrange<T: PartialOrd>(a: T, b: T, c: T)
    requires
        totally_ordered_triple(a, b, c),
    ensures
        ({
            let lo = spec_min_of_three(a, b, c);
            let md = spec_mid_of_three(a, b, c);
            let hi = spec_max_of_three(a, b, c);
            ||| lo == a && md == b && hi == c
            ||| lo == a && md == c && hi == b
            ||| lo == b && md == a && hi == c
            ||| lo == b && md == c && hi == a
            ||| lo == c && md == a && hi == b
            ||| lo == c && md == b && hi == a
        }),
{
}

} // verus!
