use vstd::prelude::*;

verus! {

/// The four children of node `node` of a quadtree stored as an array,
/// root first, the children of node `n` at `4n + 1` to `4n + 4`.
pub fn children(node: usize) -> (r: [usize; 4])
    requires
        4 * node + 4 <= usize::MAX,
    ensures
        r@ == seq![4 * node + 1, 4 * node + 2, 4 * node + 3, 4 * node + 4].map_values(
            |i: int| i as usize,
        ),
{
    let base = node * 4;
    let r = [base + 1, base + 2, base + 3, base + 4];
    assert(r@ =~= seq![4 * node + 1, 4 * node + 2, 4 * node + 3, 4 * node + 4].map_values(
        |i: int| i as usize,
    ));
    r
}

} // verus!
