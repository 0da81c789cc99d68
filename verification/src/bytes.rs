use vstd::prelude::*;

verus! {

/// The array of `N` copies of `t`.
pub open spec fn filled<T: Copy, const N: usize>(t: T) -> [T; N] {
    vstd::array::spec_array_fill_for_copy_type::<T, N>(t)
}

/// The array of `N` zero bytes.
pub open spec fn zeros<const N: usize>() -> [u8; N] {
    filled::<u8, N>(0u8)
}

/// The array `a` with `v` stored at index `i`.
pub open spec fn stored<T, const N: usize>(a: [T; N], i: int, v: T) -> [T; N] {
    vstd::array::spec_array_update(a, i, v)
}

/// Every element of `filled` is the one it was filled with, and `stored`
/// changes the one element it names.
pub proof fn lemma_array_contents<T: Copy, const N: usize>(a: [T; N], t: T, i: int, v: T, j: int)
    requires
        0 <= i < N,
        0 <= j < N,
    ensures
        filled::<T, N>(t)[j] == t,
        stored(a, i, v)[j] == (if j == i {
            v
        } else {
            a[j]
        }),
{
    broadcast use vstd::array::group_array_axioms;

    assert(stored(a, i, v)@ == a@.update(i, v));
}

} // verus!
