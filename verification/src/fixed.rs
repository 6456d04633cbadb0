//! Signed 32.32 fixed-point arithmetic helpers shared by the audio engine.
//!
//! An amplitude of 1.0 or a phase of one full cycle is `FRAC_ONE`. All
//! executable division is done on unsigned machine words so that the result
//! is exactly the truncated quotient stated in the specifications.
use vstd::prelude::*;

verus! {

/// One unit (an amplitude of 1.0, or one full oscillator cycle) in 32.32
/// fixed point.
pub const FRAC_ONE: i64 = 0x1_0000_0000;

/// Largest magnitude an amplitude-like quantity (a volume, a sweep delta, a
/// wavetable entry) may take: 256 units.
pub const AMP_LIMIT: i64 = 0x100_0000_0000;

/// Largest phase increment per sample: 256 cycles.
pub const PITCH_LIMIT: i64 = 0x100_0000_0000;

/// Division rounding toward zero (the rounding of hardware division), for a
/// positive divisor.
pub open spec fn div_trunc(a: int, b: int) -> int {
    if a >= 0 {
        a / b
    } else {
        -((-a) / b)
    }
}

/// `v` forced into `[lo, hi]`.
pub open spec fn spec_clamp(v: int, lo: int, hi: int) -> int {
    if v < lo {
        lo
    } else if v > hi {
        hi
    } else {
        v
    }
}

/// An amplitude-like value forced into the representable range.
pub open spec fn clamp_amp(v: int) -> int {
    spec_clamp(v, -AMP_LIMIT as int, AMP_LIMIT as int)
}

/// A phase increment forced into the representable range; never negative.
pub open spec fn clamp_pitch(v: int) -> int {
    spec_clamp(v, 0, PITCH_LIMIT as int)
}

pub fn clamp_i64(v: i64, lo: i64, hi: i64) -> (r: i64)
    requires
        lo <= hi,
    ensures
        r == spec_clamp(v as int, lo as int, hi as int),
{
    if v < lo {
        lo
    } else if v > hi {
        hi
    } else {
        v
    }
}

/// A wide intermediate value forced into the amplitude range.
pub fn clamp_wide_to_amp(v: i128) -> (r: i64)
    ensures
        r == clamp_amp(v as int),
{
    if v < -(AMP_LIMIT as i128) {
        -AMP_LIMIT
    } else if v > AMP_LIMIT as i128 {
        AMP_LIMIT
    } else {
        v as i64
    }
}

/// Truncating division of a signed value by a positive divisor.
pub fn div_trunc_i128(a: i128, b: i128) -> (r: i128)
    requires
        b > 0,
        a > i128::MIN,
    ensures
        r == div_trunc(a as int, b as int),
{
    if a >= 0 {
        ((a as u128) / (b as u128)) as i128
    } else {
        let m: u128 = (-a) as u128;
        -((m / (b as u128)) as i128)
    }
}

/// The remainder of a nonnegative phase value modulo one cycle.
pub fn mod_frac(v: i64) -> (r: i64)
    requires
        v >= 0,
    ensures
        r == (v as int) % (FRAC_ONE as int),
        0 <= r < FRAC_ONE,
{
    ((v as u64) % (FRAC_ONE as u64)) as i64
}

/// Truncated division is exact on exact multiples.
pub proof fn lemma_div_trunc_exact(a: int, b: int)
    requires
        b > 0,
    ensures
        div_trunc(a * b, b) == a,
{
    if a >= 0 {
        assert((a * b) / b == a) by (nonlinear_arith)
            requires
                b > 0,
                a >= 0,
        ;
    } else {
        assert(-(a * b) == (-a) * b) by (nonlinear_arith);
        assert(((-a) * b) / b == -a) by (nonlinear_arith)
            requires
                b > 0,
                a < 0,
        ;
    }
}

/// A dividend within `m * b` has its truncated quotient within `m`.
pub proof fn lemma_div_trunc_quotient_bound(a: int, b: int, m: int)
    requires
        b > 0,
        0 <= m,
        -(m * b) <= a <= m * b,
    ensures
        -m <= div_trunc(a, b) <= m,
{
    if a >= 0 {
        assert(a / b <= m) by (nonlinear_arith)
            requires
                b > 0,
                0 <= a <= m * b,
        ;
        assert(a / b >= 0) by (nonlinear_arith)
            requires
                b > 0,
                a >= 0,
        ;
    } else {
        assert((-a) / b <= m) by (nonlinear_arith)
            requires
                b > 0,
                0 <= -a <= m * b,
        ;
        assert((-a) / b >= 0) by (nonlinear_arith)
            requires
                b > 0,
                a < 0,
        ;
    }
}

/// Truncated division shrinks magnitude: the quotient lies within the bound
/// of the dividend.
pub proof fn lemma_div_trunc_bound(a: int, b: int, m: int)
    requires
        b > 0,
        -m <= a <= m,
        0 <= m,
    ensures
        -m <= div_trunc(a, b) <= m,
{
    if a >= 0 {
        assert(a / b <= a) by (nonlinear_arith)
            requires
                b > 0,
                a >= 0,
        ;
        assert(a / b >= 0) by (nonlinear_arith)
            requires
                b > 0,
                a >= 0,
        ;
    } else {
        assert((-a) / b <= -a) by (nonlinear_arith)
            requires
                b > 0,
                a < 0,
        ;
        assert((-a) / b >= 0) by (nonlinear_arith)
            requires
                b > 0,
                a < 0,
        ;
    }
}

} // verus!
