//! Quantization of samples to 24-bit signed PCM.
use vstd::prelude::*;

verus! {

/// The code of full scale: `2^23 - 1`, so that `-1.0` maps to `-(2^23 - 1)`.
pub const FULL_SCALE: i32 = 8_388_607;

/// `a / b` rounded to the nearest integer, halves away from zero.
pub open spec fn round_div(a: int, b: int) -> int {
    if a >= 0 {
        (2 * a + b) / (2 * b)
    } else {
        -((-2 * a + b) / (2 * b))
    }
}

pub open spec fn clamp(x: int, lo: int, hi: int) -> int {
    if x < lo {
        lo
    } else if x > hi {
        hi
    } else {
        x
    }
}

/// The PCM code of the amplitude `level / cycle`: clipped to full scale and
/// scaled by `2^23 - 1`, rounded to nearest.
pub open spec fn pcm_code(level: int, cycle: int) -> int {
    round_div(clamp(level, -cycle, cycle) * FULL_SCALE, cycle)
}

/// Quantizes the amplitude `level / cycle` to a 24-bit PCM code.
pub fn quantize(level: i128, cycle: i128) -> (r: i32)
    requires
        0 < cycle <= 0x1_0000_0000_0000_0000_0000,
    ensures
        r == pcm_code(level as int, cycle as int),
        -FULL_SCALE <= r <= FULL_SCALE,
{
    let x: i128 = if level < -cycle {
        -cycle
    } else if level > cycle {
        cycle
    } else {
        level
    };
    assert(-cycle * FULL_SCALE <= x * FULL_SCALE <= cycle * FULL_SCALE) by (nonlinear_arith)
        requires
            -cycle <= x <= cycle;
    assert(cycle * FULL_SCALE <= 0x1_0000_0000_0000_0000_0000 * FULL_SCALE) by (nonlinear_arith)
        requires
            0 < cycle <= 0x1_0000_0000_0000_0000_0000;
    let scaled: i128 = x * FULL_SCALE as i128;
    assert(-0x1_0000_0000_0000_0000_0000 * 8388607 <= scaled <= 0x1_0000_0000_0000_0000_0000 * 8388607);
    let q: i128 = if scaled >= 0 {
        (2 * scaled + cycle) / (2 * cycle)
    } else {
        -((cycle - 2 * scaled) / (2 * cycle))
    };
    proof {
        let a = scaled as int;
        let b = cycle as int;
        if a >= 0 {
            assert((2 * a + b) / (2 * b) <= FULL_SCALE) by {
                vstd::arithmetic::div_mod::lemma_div_is_ordered(
                    2 * a + b,
                    2 * b * FULL_SCALE + b,
                    2 * b,
                );
                vstd::arithmetic::div_mod::lemma_fundamental_div_mod_converse(
                    2 * b * FULL_SCALE + b,
                    2 * b,
                    FULL_SCALE as int,
                    b,
                );
            }
        } else {
            assert((-2 * a + b) / (2 * b) <= FULL_SCALE) by {
                vstd::arithmetic::div_mod::lemma_div_is_ordered(
                    -2 * a + b,
                    2 * b * FULL_SCALE + b,
                    2 * b,
                );
                vstd::arithmetic::div_mod::lemma_fundamental_div_mod_converse(
                    2 * b * FULL_SCALE + b,
                    2 * b,
                    FULL_SCALE as int,
                    b,
                );
            }
        }
    }
    q as i32
}

} // verus!
