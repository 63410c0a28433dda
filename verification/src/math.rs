//! Alignment arithmetic.
use vstd::prelude::*;

verus! {

/// `value` rounded up to a multiple of `alignment`.
pub open spec fn spec_align_up(value: int, alignment: int) -> int {
    ((value + alignment - 1) / alignment) * alignment
}

/// The rounded value is the least multiple of the alignment that is at least the value.
pub proof fn lemma_align_up(value: int, alignment: int)
    requires
        value >= 0,
        alignment > 0,
    ensures
        spec_align_up(value, alignment) >= value,
        spec_align_up(value, alignment) < value + alignment,
        spec_align_up(value, alignment) % alignment == 0,
        spec_align_up(value, alignment) <= value + alignment - 1,
        value % alignment == 0 ==> spec_align_up(value, alignment) == value,
{
    let x = value + alignment - 1;
    let q = x / alignment;
    let r = x % alignment;
    assert(x == q * alignment + r && 0 <= r < alignment) by (nonlinear_arith)
        requires
            x >= 0,
            alignment > 0,
            q == x / alignment,
            r == x % alignment,
    ;
    assert((q * alignment) % alignment == 0) by (nonlinear_arith)
        requires
            alignment > 0,
    ;
    if value % alignment == 0 {
        let k = value / alignment;
        assert(value == k * alignment) by (nonlinear_arith)
            requires
                alignment > 0,
                value % alignment == 0,
                k == value / alignment,
        ;
        assert(q == k) by (nonlinear_arith)
            requires
                x == k * alignment + alignment - 1,
                alignment > 0,
                q == x / alignment,
        ;
    }
}

/// `value` rounded up to a multiple of `alignment`.
pub fn min_value_align_to(value: usize, alignment: usize) -> (aligned: usize)
    requires
        alignment > 0,
        value + alignment - 1 <= usize::MAX,
    ensures
        aligned == spec_align_up(value as int, alignment as int),
{
    proof {
        lemma_align_up(value as int, alignment as int);
    }
    let x = value + (alignment - 1);
    (x / alignment) * alignment
}

} // verus!
