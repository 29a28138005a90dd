//! Integer facts that the overflow proofs share.

use vstd::prelude::*;

verus! {

/// The product of two bounded integers is bounded by the product of the
/// bounds.
pub proof fn lemma_product_bounded(a: int, b: int, la: int, lb: int)
    requires
        -la <= a <= la,
        -lb <= b <= lb,
    ensures
        -(la * lb) <= a * b <= la * lb,
{
    assert(-(la * lb) <= a * b <= la * lb) by (nonlinear_arith)
        requires
            -la <= a <= la,
            -lb <= b <= lb,
    ;
}

} // verus!
