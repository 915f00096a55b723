//! Fixed-point intensities and step quantization.
//!
//! A command target is a normalized intensity in `[0, 1]`, carried as an
//! integer numerator over [`TARGET_SCALE`]. Each device feature advertises a
//! step resolution; a target is mapped onto it by round-half-up
//! quantization. Decimal rendering of step values, needed by text-based wire
//! protocols, lives here as well.

use vstd::prelude::*;

verus! {

/// Denominator of the fixed-point intensity representation: a target `t`
/// stands for the real intensity `t / TARGET_SCALE`, and only values in
/// `0 ..= TARGET_SCALE` are in range.
pub const TARGET_SCALE: u32 = 10000;

/// Round-half-up quantization of `target / TARGET_SCALE` onto a feature with
/// `steps` steps: the nearest integer in `[0, steps]`, halves rounding up.
pub open spec fn quantize_spec(target: int, steps: int) -> int {
    (2 * target * steps + TARGET_SCALE as int) / (2 * TARGET_SCALE as int)
}

pub proof fn lemma_quantize_bounds(target: int, steps: int)
    requires
        0 <= target <= TARGET_SCALE as int,
        1 <= steps,
    ensures
        0 <= quantize_spec(target, steps) <= steps,
{
    let s = TARGET_SCALE as int;
    assert(0 <= 2 * target * steps) by (nonlinear_arith)
        requires 0 <= target && 0 <= steps;
    assert(2 * target * steps + s < 2 * s * (steps + 1)) by (nonlinear_arith)
        requires target <= s && 1 <= steps && s == TARGET_SCALE as int;
    assert((2 * target * steps + s) / (2 * s) < steps + 1) by (nonlinear_arith)
        requires
            0 <= 2 * target * steps + s,
            2 * target * steps + s < 2 * s * (steps + 1),
            s == TARGET_SCALE as int;
}

/// A zero target always quantizes to step zero, on any resolution.
pub proof fn lemma_quantize_zero(steps: int)
    requires
        1 <= steps,
    ensures
        quantize_spec(0, steps) == 0,
{
    assert(2 * 0 * steps == 0) by (nonlinear_arith);
    vstd::arithmetic::div_mod::lemma_basic_div(TARGET_SCALE as int, 2 * TARGET_SCALE as int);
}

/// Quantize a fixed-point target onto a feature with `steps` steps,
/// rounding half up.
pub fn quantize(target: u32, steps: u32) -> (r: u32)
    requires
        target <= TARGET_SCALE,
        1 <= steps,
    ensures
        r as int == quantize_spec(target as int, steps as int),
        r <= steps,
{
    proof {
        lemma_quantize_bounds(target as int, steps as int);
        assert(2 * (target as int) * (steps as int) <= 2 * (TARGET_SCALE as int) * (u32::MAX as int))
            by (nonlinear_arith)
            requires 0 <= target <= TARGET_SCALE && 0 <= steps <= u32::MAX;
    }
    let wide: u64 = 2 * (target as u64) * (steps as u64) + (TARGET_SCALE as u64);
    (wide / (2 * TARGET_SCALE as u64)) as u32
}

/// The decimal digits of `n` in ASCII, most significant first.
pub open spec fn dec_digits(n: int) -> Seq<u8>
    decreases n,
{
    if n < 10 {
        seq![(48 + if n >= 0 { n } else { 0 }) as u8]
    } else {
        dec_digits(n / 10).push((48 + n % 10) as u8)
    }
}

/// Append the decimal rendering of `n` to `out`.
pub fn push_decimal(out: &mut Vec<u8>, n: u32)
    ensures
        final(out)@ == old(out)@ + dec_digits(n as int),
    decreases n,
{
    if n >= 10 {
        push_decimal(out, n / 10);
    }
    out.push(48 + (n % 10) as u8);
    proof {
        assert(out@ =~= old(out)@ + dec_digits(n as int));
    }
}

} // verus!
