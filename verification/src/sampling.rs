//! Nearest-neighbour sampling: which source position each output cell shows.

use vstd::arithmetic::div_mod::{lemma_div_pos_is_pos, lemma_fundamental_div_mod, lemma_mod_bound};
use vstd::prelude::*;

verus! {

/// Which of `len` source positions the `i`-th of `n` output cells shows: the
/// one nearest to the centre of the cell. The cells are spread evenly over
/// the source, so in source coordinates the centre of cell `i` lies at
/// `(2 * i + 1) * len / (2 * n)`, and source position `k` covers the stretch
/// from `k` to `k + 1`. A centre that falls exactly on the border between two
/// source positions shows the lower one.
pub open spec fn source_index(i: int, n: int, len: int) -> int
    recommends
        0 <= i < n,
        0 < len,
{
    ((2 * i + 1) * len - 1) / (2 * n)
}

/// Distance between the centre of source position `k` and the centre of
/// output cell `i`, in units of `1 / (2 * n)` of a source position.
pub open spec fn centre_distance(i: int, n: int, len: int, k: int) -> int {
    let offset = n * (2 * k + 1) - (2 * i + 1) * len;
    if offset < 0 {
        -offset
    } else {
        offset
    }
}

/// Computes `source_index`.
pub(crate) fn sample_position(i: u64, n: u64, len: u32) -> (pos: u32)
    requires
        i < n,
        len > 0,
    ensures
        pos == source_index(i as int, n as int, len as int),
        pos < len,
{
    proof {
        lemma_source_index_is_nearest(i as int, n as int, len as int);
        assert(1 <= (2 * i + 1) * len <= (2 * u64::MAX + 1) * u32::MAX) by (nonlinear_arith)
            requires
                0 <= i <= u64::MAX,
                1 <= len <= u32::MAX,
        ;
    }
    let centre: u128 = (2 * (i as u128) + 1) * (len as u128);
    ((centre - 1) / (2 * (n as u128))) as u32
}

/// Sampling is nearest-neighbour: the source position that a cell shows lies
/// inside the source, the centre of the cell lies on it or on its far border,
/// and no other source position has its centre nearer to the centre of the
/// cell; one before it is strictly farther away.
pub proof fn lemma_source_index_is_nearest(i: int, n: int, len: int)
    requires
        0 <= i < n,
        0 < len,
    ensures
        0 <= source_index(i, n, len) < len,
        2 * n * source_index(i, n, len) < (2 * i + 1) * len <= 2 * n * (source_index(i, n, len) + 1),
        forall|j: int|
            centre_distance(i, n, len, source_index(i, n, len)) <= #[trigger] centre_distance(
                i,
                n,
                len,
                j,
            ),
        forall|j: int|
            j < source_index(i, n, len) ==> centre_distance(i, n, len, source_index(i, n, len))
                < #[trigger] centre_distance(i, n, len, j),
{
    let k = source_index(i, n, len);
    let centre = (2 * i + 1) * len;
    assert(1 <= centre < 2 * n * len) by (nonlinear_arith)
        requires
            centre == (2 * i + 1) * len,
            0 <= i < n,
            0 < len,
    ;
    lemma_fundamental_div_mod(centre - 1, 2 * n);
    lemma_mod_bound(centre - 1, 2 * n);
    lemma_div_pos_is_pos(centre - 1, 2 * n);
    assert(2 * n * k < centre <= 2 * n * (k + 1)) by (nonlinear_arith)
        requires
            centre - 1 == (2 * n) * k + (centre - 1) % (2 * n),
            0 <= (centre - 1) % (2 * n) < 2 * n,
    ;
    assert(k < len) by (nonlinear_arith)
        requires
            2 * n * k < centre,
            centre < 2 * n * len,
            0 < n,
    ;
    assert(centre_distance(i, n, len, k) <= n) by (nonlinear_arith)
        requires
            2 * n * k < centre <= 2 * n * (k + 1),
            centre == (2 * i + 1) * len,
            centre_distance(i, n, len, k) == if n * (2 * k + 1) - centre < 0 {
                centre - n * (2 * k + 1)
            } else {
                n * (2 * k + 1) - centre
            },
    ;
    assert forall|j: int| k < j implies n <= #[trigger] centre_distance(i, n, len, j) by {
        assert(n * (2 * j + 1) - centre >= n) by (nonlinear_arith)
            requires
                k + 1 <= j,
                centre <= 2 * n * (k + 1),
                0 < n,
        ;
    }
    assert forall|j: int| j < k implies n < #[trigger] centre_distance(i, n, len, j) by {
        assert(n * (2 * j + 1) - centre < -n) by (nonlinear_arith)
            requires
                j + 1 <= k,
                2 * n * k < centre,
                0 < n,
        ;
    }
}

/// A source with as many positions as there are cells is shown as it is.
pub proof fn lemma_same_size_is_identity(i: int, n: int)
    requires
        0 <= i < n,
    ensures
        source_index(i, n, n) == i,
{
    lemma_source_index_is_nearest(i, n, n);
    let k = source_index(i, n, n);
    assert(k == i) by (nonlinear_arith)
        requires
            2 * n * k < (2 * i + 1) * n <= 2 * n * (k + 1),
            0 < n,
    ;
}

} // verus!
