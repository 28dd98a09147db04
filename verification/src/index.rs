use vstd::prelude::*;

verus! {

// The pixel-index convention.
//
// A raster of `width` columns and `height` rows is traversed by one
// linear index `i` in `0 .. width * height`. The index is column-major:
// it names column `i / height` and row `i % height`. This is the
// convention the whole pipeline shares, and it must be kept exactly for
// the output to be reproducible.

/// The column a linear pixel index names.
pub open spec fn spec_col(i: int, height: int) -> int {
    i / height
}

/// The row a linear pixel index names.
pub open spec fn spec_row(i: int, height: int) -> int {
    i % height
}

/// Splits a linear pixel index into its (column, row) pair.
pub fn split_index(i: i32, height: i32) -> (r: (i32, i32))
    requires
        0 <= i,
        0 < height,
    ensures
        r.0 == spec_col(i as int, height as int),
        r.1 == spec_row(i as int, height as int),
        0 <= r.0,
        0 <= r.1 < height,
{
    proof {
        vstd::arithmetic::div_mod::lemma_div_is_ordered(0, i as int, height as int);
        vstd::arithmetic::div_mod::lemma_mod_bound(i as int, height as int);
    }
    (i / height, i % height)
}

/// Recomposes a (column, row) pair into its linear pixel index.
pub fn compose_index(col: i32, row: i32, height: i32) -> (i: i32)
    requires
        0 < height,
        0 <= col,
        0 <= row < height,
        col * height + row <= i32::MAX,
    ensures
        i == col * height + row,
        spec_col(i as int, height as int) == col,
        spec_row(i as int, height as int) == row,
{
    proof {
        lemma_index_of_pair(col as int, row as int, height as int);
    }
    col * height + row
}

/// Splitting a linear index and recomposing the pair gives the index
/// back: `col * height + row == i`.
pub proof fn lemma_index_roundtrip(i: int, height: int)
    requires
        0 <= i,
        0 < height,
    ensures
        spec_col(i, height) * height + spec_row(i, height) == i,
{
    vstd::arithmetic::div_mod::lemma_fundamental_div_mod(i, height);
    vstd::arithmetic::mul::lemma_mul_is_commutative(height, spec_col(i, height));
}

/// A (column, row) pair with the row in range comes from exactly the
/// index `col * height + row`.
pub proof fn lemma_index_of_pair(col: int, row: int, height: int)
    requires
        0 < height,
        0 <= col,
        0 <= row < height,
    ensures
        spec_col(col * height + row, height) == col,
        spec_row(col * height + row, height) == row,
{
    vstd::arithmetic::div_mod::lemma_fundamental_div_mod_converse(
        col * height + row,
        height,
        col,
        row,
    );
}

/// Distinct linear indices name distinct (column, row) pairs.
pub proof fn lemma_index_injective(i: int, j: int, height: int)
    requires
        0 <= i,
        0 <= j,
        0 < height,
        spec_col(i, height) == spec_col(j, height),
        spec_row(i, height) == spec_row(j, height),
    ensures
        i == j,
{
    lemma_index_roundtrip(i, height);
    lemma_index_roundtrip(j, height);
}

/// Every index below `width * height` names a column below `width` (its
/// row is below `height` by the definition of the remainder).
pub proof fn lemma_index_in_range(i: int, width: int, height: int)
    requires
        0 <= i < width * height,
        0 < width,
        0 < height,
    ensures
        0 <= spec_col(i, height) < width,
        0 <= spec_row(i, height) < height,
{
    vstd::arithmetic::div_mod::lemma_div_is_ordered(0, i, height);
    vstd::arithmetic::div_mod::lemma_mod_bound(i, height);
    assert(spec_col(i, height) < width) by {
        vstd::arithmetic::div_mod::lemma_fundamental_div_mod(i, height);
        if spec_col(i, height) >= width {
            vstd::arithmetic::mul::lemma_mul_inequality(width, spec_col(i, height), height);
            assert(width * height <= spec_col(i, height) * height) by {
                vstd::arithmetic::mul::lemma_mul_is_commutative(width, height);
                vstd::arithmetic::mul::lemma_mul_is_commutative(spec_col(i, height), height);
            }
        }
    }
}

} // verus!
