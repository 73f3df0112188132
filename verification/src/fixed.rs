//! Signed fixed-point scalars: an `i64` carries a real number scaled by
//! `FX_ONE` (16 fractional bits). The product of two such scalars is the
//! sign-and-magnitude truncated product `fxs`, which every matrix entry in
//! this crate is specified against.

use vstd::arithmetic::div_mod::lemma_div_by_multiple;
use vstd::arithmetic::div_mod::lemma_div_is_ordered;
use vstd::arithmetic::div_mod::lemma_div_pos_is_pos;
use vstd::arithmetic::mul::lemma_mul_is_commutative;
use vstd::arithmetic::mul::lemma_mul_upper_bound;
use vstd::prelude::*;

verus! {

/// The fixed-point representation of 1.0.
pub const FX_ONE: i64 = 65536;

/// Largest magnitude accepted as an operand of `fx_mul`; products of two
/// operands this size still fit comfortably in the unsigned 128-bit
/// intermediate and the truncated result fits in `i64`.
pub const FX_OPERAND_BOUND: i64 = 0x40_0000_0000;

/// Magnitude bound on the result of `fx_mul` for operands within
/// `FX_OPERAND_BOUND`: (2^38 * 2^38) / 2^16 == 2^60.
pub const FX_RESULT_BOUND: i64 = 0x1000_0000_0000_0000;

/// Magnitude of a mathematical integer.
pub open spec fn fx_abs(x: int) -> int {
    if x < 0 {
        -x
    } else {
        x
    }
}

/// The fixed-point product: magnitudes are multiplied, scaled back down by
/// `FX_ONE` with truncation, and the sign of the result is negative exactly
/// when the operands' signs differ (truncation toward zero).
pub open spec fn fxs(a: int, b: int) -> int {
    let q = (fx_abs(a) * fx_abs(b)) / (FX_ONE as int);
    if (a < 0) == (b < 0) {
        q
    } else {
        -q
    }
}

/// Multiplying by the fixed-point unit, or by zero, is exact.
pub proof fn lemma_fxs_units()
    ensures
        forall|x: int| #[trigger] fxs(x, FX_ONE as int) == x,
        forall|x: int| #[trigger] fxs(FX_ONE as int, x) == x,
        forall|x: int| #[trigger] fxs(x, 0) == 0,
        forall|x: int| #[trigger] fxs(0, x) == 0,
{
    assert forall|x: int| #[trigger] fxs(x, FX_ONE as int) == x by {
        lemma_div_by_multiple(fx_abs(x), FX_ONE as int);
    }
    assert forall|x: int| #[trigger] fxs(FX_ONE as int, x) == x by {
        lemma_div_by_multiple(fx_abs(x), FX_ONE as int);
        lemma_mul_is_commutative(fx_abs(FX_ONE as int), fx_abs(x));
    }
    assert forall|x: int| #[trigger] fxs(x, 0) == 0 by {
        assert(fx_abs(x) * 0 == 0);
    }
    assert forall|x: int| #[trigger] fxs(0, x) == 0 by {
        assert(0 * fx_abs(x) == 0);
    }
}

/// The magnitude of a fixed-point product is bounded by the scaled product
/// of any magnitude bounds on its operands.
pub proof fn lemma_fxs_bound(a: int, b: int, ba: int, bb: int)
    requires
        fx_abs(a) <= ba,
        fx_abs(b) <= bb,
    ensures
        fx_abs(fxs(a, b)) <= (ba * bb) / (FX_ONE as int),
        -((ba * bb) / (FX_ONE as int)) <= fxs(a, b) <= (ba * bb) / (FX_ONE as int),
{
    let p = fx_abs(a) * fx_abs(b);
    lemma_mul_upper_bound(fx_abs(a), ba, fx_abs(b), bb);
    lemma_div_is_ordered(p, ba * bb, FX_ONE as int);
    lemma_div_pos_is_pos(p, FX_ONE as int);
}

/// Fixed-point multiplication: truncating, sign-and-magnitude. The result is
/// exactly `fxs` of the operands.
pub fn fx_mul(a: i64, b: i64) -> (r: i64)
    requires
        -FX_OPERAND_BOUND <= a <= FX_OPERAND_BOUND,
        -FX_OPERAND_BOUND <= b <= FX_OPERAND_BOUND,
    ensures
        r == fxs(a as int, b as int),
        -FX_RESULT_BOUND <= r <= FX_RESULT_BOUND,
{
    let neg: bool = (a < 0) != (b < 0);
    let ma: u64 = if a < 0 {
        (-a) as u64
    } else {
        a as u64
    };
    let mb: u64 = if b < 0 {
        (-b) as u64
    } else {
        b as u64
    };
    proof {
        assert(ma == fx_abs(a as int));
        assert(mb == fx_abs(b as int));
        lemma_mul_upper_bound(
            ma as int,
            FX_OPERAND_BOUND as int,
            mb as int,
            FX_OPERAND_BOUND as int,
        );
    }
    let p: u128 = (ma as u128) * (mb as u128);
    let q: u128 = p / (FX_ONE as u128);
    proof {
        lemma_fxs_bound(a as int, b as int, FX_OPERAND_BOUND as int, FX_OPERAND_BOUND as int);
        lemma_div_is_ordered(
            p as int,
            (FX_OPERAND_BOUND as int) * (FX_OPERAND_BOUND as int),
            FX_ONE as int,
        );
        lemma_div_pos_is_pos(p as int, FX_ONE as int);
    }
    let qi: i64 = q as i64;
    if neg {
        -qi
    } else {
        qi
    }
}

} // verus!
