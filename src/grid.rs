//! The tiling of a grid primitive. A grid is drawn around a snapped origin as
//! `2 * steps` lines parallel to each axis; line `k` of either family is
//! offset from the origin by `k - steps` grid steps.

use vstd::prelude::*;

verus! {

/// The offset, in grid steps, of line `k` of a grid of `steps` steps.
pub open spec fn line_offset(steps: nat, k: int) -> int {
    k - steps
}

/// `offsets` are the offsets, in grid steps, of the `2 * steps` lines of one
/// family of a grid that reaches `steps` steps out from its origin:
/// `-steps, ..., steps - 1`.
pub open spec fn is_line_offsets(steps: nat, offsets: Seq<i64>) -> bool {
    &&& offsets.len() == 2 * steps
    &&& forall|k: int| 0 <= k < offsets.len() ==> #[trigger] offsets[k] == line_offset(steps, k)
}

/// The offsets, in grid steps, of the lines of one family of a grid that
/// reaches `steps` steps out from its origin.
pub fn grid_line_offsets(steps: u32) -> (offsets: Vec<i64>)
    ensures
        is_line_offsets(steps as nat, offsets@),
        offsets@.len() == 2 * steps,
{
    let mut offsets: Vec<i64> = Vec::new();
    let lowest: i64 = -(steps as i64);
    let count: u64 = 2 * (steps as u64);
    let mut k: u64 = 0;
    while k < count
        invariant
            count == 2 * steps,
            lowest == -(steps as int),
            k <= count,
            offsets@.len() == k,
            forall|j: int| 0 <= j < k ==> #[trigger] offsets@[j] == line_offset(steps as nat, j),
        decreases count - k,
    {
        offsets.push(lowest + k as i64);
        k += 1;
    }
    offsets
}

/// The lines of a grid depend on its step count alone: the same count gives
/// the same lines, `2 * steps` of them per family.
pub proof fn lemma_line_offsets_determined(steps: nat, a: Seq<i64>, b: Seq<i64>)
    requires
        is_line_offsets(steps, a),
        is_line_offsets(steps, b),
    ensures
        a == b,
        a.len() == 2 * steps,
{
    assert(a =~= b);
}

} // verus!
