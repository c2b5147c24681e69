//! Cyclic vertex indexing for the polygon engine: vertex `n - 1` is
//! adjacent to vertex `0`.

use vstd::prelude::*;

verus! {

/// The index of the vertex that follows vertex `i` in cyclic order:
/// `(i + 1) % length`, so the last vertex wraps around to vertex `0`.
pub fn wrap_index(i: usize, length: usize) -> (r: usize)
    requires
        i < length,
    ensures
        r == (i + 1) % (length as int),
        r < length,
{
    proof {
        if i + 1 == length {
            vstd::arithmetic::div_mod::lemma_mod_self_0(length as int);
        } else {
            vstd::arithmetic::div_mod::lemma_small_mod((i + 1) as nat, length as nat);
        }
    }
    if i + 1 == length {
        0
    } else {
        i + 1
    }
}

} // verus!
