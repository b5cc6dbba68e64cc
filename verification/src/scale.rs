//! Exact arithmetic for quantities scaled by a monitor's DPI factor.
//!
//! A scale factor is held as an exact ratio, so `round(v * scale)` is computed
//! on integers, with halves rounded away from zero as `f64::round` does.
use vstd::prelude::*;

verus! {

/// A monitor scale factor `numerator / denominator` (1.5 is `3 / 2`). Every
/// finite `f64` scale is such a ratio with a power-of-two denominator.
#[derive(Clone, Copy, Debug, PartialEq, Eq)]
pub struct ScaleFactor {
    pub numerator: u64,
    pub denominator: u64,
}

impl ScaleFactor {
    /// A scale factor is well formed when its denominator is positive.
    pub open spec fn wf(self) -> bool {
        self.denominator > 0
    }

    /// Makes the scale factor `numerator / denominator`.
    pub fn new(numerator: u64, denominator: u64) -> (r: Self)
        requires
            denominator > 0,
        ensures
            r.numerator == numerator,
            r.denominator == denominator,
            r.wf(),
    {
        ScaleFactor { numerator, denominator }
    }
}

/// `p / q` rounded to the nearest integer, halves away from zero (`q > 0`).
pub open spec fn round_ratio(p: int, q: int) -> int {
    if p >= 0 {
        (2 * p + q) / (2 * q)
    } else {
        -((-2 * p + q) / (2 * q))
    }
}

/// The value of `v as i32` when `v` is a float: out-of-range values saturate.
pub open spec fn saturate_i32(v: int) -> int {
    if v < i32::MIN {
        i32::MIN as int
    } else if v > i32::MAX {
        i32::MAX as int
    } else {
        v
    }
}

pub open spec fn fits_i32(v: int) -> bool {
    i32::MIN <= v <= i32::MAX
}

/// `round(logical * scale)`.
pub open spec fn scaled_round(logical: int, scale: ScaleFactor) -> int {
    round_ratio(logical * scale.numerator, scale.denominator as int)
}

/// `round(logical * scale) as i32`: a scaled gap or margin in pixels.
pub open spec fn scaled_offset(logical: int, scale: ScaleFactor) -> int {
    saturate_i32(scaled_round(logical, scale))
}

/// `round(logical * scale).max(1) as i32`: a scaled extent, at least one pixel.
pub open spec fn scaled_extent(logical: int, scale: ScaleFactor) -> int {
    let v = scaled_round(logical, scale);
    saturate_i32(if v < 1 { 1 } else { v })
}

pub open spec fn abs(v: int) -> int {
    if v < 0 { -v } else { v }
}

/// Rounds `p / q` to the nearest integer, halves away from zero.
pub fn div_round(p: i128, q: i128) -> (r: i128)
    requires
        0 < q <= u64::MAX,
        abs(p as int) <= 0x100_0000_0000_0000_0000_0000_0000_0000,
    ensures
        r == round_ratio(p as int, q as int),
        abs(r as int) <= abs(p as int) + 1,
{
    let two_q: i128 = 2 * q;
    if p >= 0 {
        let n: i128 = 2 * p + q;
        let r: i128 = n / two_q;
        assert(r <= p + 1) by (nonlinear_arith)
            requires
                r == n / two_q,
                n == 2 * p + q,
                two_q == 2 * q,
                q > 0,
                p >= 0,
        ;
        assert(r >= 0) by (nonlinear_arith)
            requires
                r == n / two_q,
                n >= 0,
                two_q > 0,
        ;
        r
    } else {
        let n: i128 = 2 * (0 - p) + q;
        let m: i128 = n / two_q;
        assert(m <= -p + 1) by (nonlinear_arith)
            requires
                m == n / two_q,
                n == 2 * (-p) + q,
                two_q == 2 * q,
                q > 0,
                p < 0,
        ;
        assert(m >= 0) by (nonlinear_arith)
            requires
                m == n / two_q,
                n >= 0,
                two_q > 0,
        ;
        0 - m
    }
}

/// Converts to `i32` the way a float-to-integer `as` cast does: saturating.
pub fn saturate_to_i32(v: i128) -> (r: i32)
    ensures
        r == saturate_i32(v as int),
{
    if v < i32::MIN as i128 {
        i32::MIN
    } else if v > i32::MAX as i128 {
        i32::MAX
    } else {
        v as i32
    }
}

/// `round(logical * scale)` as an exact integer.
fn scaled_round_exec(logical: u32, scale: ScaleFactor) -> (r: i128)
    requires
        scale.wf(),
    ensures
        r == scaled_round(logical as int, scale),
        0 <= r <= 0xffff_ffff * 0xffff_ffff_ffff_ffff + 1,
{
    assert(0 <= (logical as int) * (scale.numerator as int) <= 0xffff_ffff * 0xffff_ffff_ffff_ffff)
        by (nonlinear_arith)
        requires
            0 <= logical <= 0xffff_ffff,
            0 <= scale.numerator <= 0xffff_ffff_ffff_ffff,
    ;
    let p: i128 = (logical as i128) * (scale.numerator as i128);
    div_round(p, scale.denominator as i128)
}

/// A scaled gap or margin: `round(logical * scale) as i32`.
pub fn scaled_offset_exec(logical: u32, scale: ScaleFactor) -> (r: i32)
    requires
        scale.wf(),
    ensures
        r == scaled_offset(logical as int, scale),
        r >= 0,
{
    saturate_to_i32(scaled_round_exec(logical, scale))
}

/// A scaled extent: `round(logical * scale).max(1) as i32`.
pub fn scaled_extent_exec(logical: u32, scale: ScaleFactor) -> (r: i32)
    requires
        scale.wf(),
    ensures
        r == scaled_extent(logical as int, scale),
        r >= 1,
{
    let v = scaled_round_exec(logical, scale);
    saturate_to_i32(if v < 1 { 1 } else { v })
}

} // verus!
