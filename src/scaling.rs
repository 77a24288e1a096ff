//! Linear fixed-point conversion between a bounded physical quantity and an
//! unsigned 16-bit wire value.
use vstd::arithmetic::div_mod::{
    lemma_div_is_ordered, lemma_div_pos_is_pos, lemma_fundamental_div_mod,
};
use vstd::prelude::*;

verus! {

/// Largest wire value.
pub const WIRE_MAX: u16 = 0xFFFF;

/// `x` clamped to `[lo, hi]`.
pub open spec fn clamp_spec(x: int, lo: int, hi: int) -> int {
    if x < lo {
        lo
    } else if x > hi {
        hi
    } else {
        x
    }
}

/// `(x - lo) / (hi - lo) * 65536` rounded to the nearest integer (halves up),
/// for `x` already clamped; may reach 65536.
pub open spec fn scaled_unclamped(x: int, lo: int, hi: int) -> int {
    ((x - lo) * 131072 + (hi - lo)) / (2 * (hi - lo))
}

/// The wire value of `x` on the range `[lo, hi]`: clamp, scale to 65536 steps,
/// round, cap at 65535.
pub open spec fn scale_to_u16_spec(x: int, lo: int, hi: int) -> int {
    let q = scaled_unclamped(clamp_spec(x, lo, hi), lo, hi);
    if q > 65535 {
        65535
    } else {
        q
    }
}

/// The physical value of wire value `raw` on `[lo, hi]`:
/// `lo + raw / 65535 * (hi - lo)`, rounded to the nearest integer (halves up).
pub open spec fn scale_from_u16_spec(raw: int, lo: int, hi: int) -> int {
    lo + (2 * raw * (hi - lo) + 65535) / 131070
}

/// Maps `x` linearly from `[lo, hi]` onto `[0, 65535]`; values outside the
/// range saturate at the nearer end.
pub fn scale_to_u16(x: i64, lo: i64, hi: i64) -> (r: u16)
    requires
        lo < hi,
    ensures
        r == scale_to_u16_spec(x as int, lo as int, hi as int),
{
    let c: i64 = if x < lo {
        lo
    } else if x > hi {
        hi
    } else {
        x
    };
    let span: i128 = hi as i128 - lo as i128;
    let off: i128 = c as i128 - lo as i128;
    proof {
        assert(0 <= off <= span);
        assert(off * 131072 <= span * 131072) by (nonlinear_arith)
            requires
                off <= span,
        ;
        assert(span < 0x1_0000_0000_0000_0000);
        lemma_div_pos_is_pos(off * 131072 + span, 2 * span);
    }
    let q: i128 = (off * 131072 + span) / (2 * span);
    if q > 65535 {
        WIRE_MAX
    } else {
        q as u16
    }
}

/// Maps wire value `raw` linearly from `[0, 65535]` back onto `[lo, hi]`.
pub fn scale_from_u16(raw: u16, lo: i64, hi: i64) -> (r: i64)
    requires
        lo < hi,
    ensures
        r == scale_from_u16_spec(raw as int, lo as int, hi as int),
        lo <= r <= hi,
{
    let span: i128 = hi as i128 - lo as i128;
    let raw_w: i128 = raw as i128;
    proof {
        assert(0 <= 2 * raw_w * span <= 131070 * span) by (nonlinear_arith)
            requires
                0 <= raw_w <= 65535,
                0 < span,
        ;
        lemma_div_pos_is_pos(2 * raw_w * span + 65535, 131070);
        lemma_div_is_ordered(2 * raw_w * span + 65535, 131070 * span + 65535, 131070);
        assert((131070 * span + 65535) / 131070 == span) by {
            lemma_fundamental_div_mod(131070 * span + 65535, 131070);
        }
    }
    let step: i128 = (2 * raw_w * span + 65535) / 131070;
    (lo as i128 + step) as i64
}

/// `x` lies in `[lo, hi]` and rounding `(x - lo) * 65536 / (hi - lo)` to the
/// nearest integer, without reaching the cap, moved it up by more than the
/// headroom `(hi - x) / (hi - lo)`: the inputs on which a round trip through
/// the wire misses `x` by more than one step.
pub open spec fn rounded_past_one_step(x: int, lo: int, hi: int) -> bool {
    let q = scaled_unclamped(x, lo, hi);
    q <= 65535 && q * (hi - lo) - (x - lo) * 65536 > hi - x
}

/// The wire value never decreases as the physical value grows.
pub proof fn lemma_scale_to_u16_monotonic(x1: int, x2: int, lo: int, hi: int)
    requires
        lo < hi,
        x1 <= x2,
    ensures
        scale_to_u16_spec(x1, lo, hi) <= scale_to_u16_spec(x2, lo, hi),
{
    let c1 = clamp_spec(x1, lo, hi);
    let c2 = clamp_spec(x2, lo, hi);
    assert(c1 <= c2);
    assert((c1 - lo) * 131072 <= (c2 - lo) * 131072) by (nonlinear_arith)
        requires
            c1 <= c2,
    ;
    lemma_div_is_ordered((c1 - lo) * 131072 + (hi - lo), (c2 - lo) * 131072 + (hi - lo), 2 * (hi - lo));
}

/// Physical values at or below `lo` go to 0 and values at or above `hi` go
/// to 65535.
pub proof fn lemma_scale_to_u16_saturates(x: int, lo: int, hi: int)
    requires
        lo < hi,
    ensures
        x <= lo ==> scale_to_u16_spec(x, lo, hi) == 0,
        x >= hi ==> scale_to_u16_spec(x, lo, hi) == 65535,
{
    let d = hi - lo;
    assert(d / (2 * d) == 0) by {
        vstd::arithmetic::div_mod::lemma_basic_div(d, 2 * d);
    }
    assert((d * 131072 + d) / (2 * d) >= 65536) by {
        lemma_fundamental_div_mod(d * 131072 + d, 2 * d);
        vstd::arithmetic::div_mod::lemma_mod_pos_bound(d * 131072 + d, 2 * d);
        let q = (d * 131072 + d) / (2 * d);
        let m = (d * 131072 + d) % (2 * d);
        assert(q >= 65536) by (nonlinear_arith)
            requires
                d * 131072 + d == 2 * d * q + m,
                0 <= m < 2 * d,
                d > 0,
        ;
    }
}

/// For `x` in `[lo, hi]`, outside the inputs of `rounded_past_one_step`, the
/// value that the wire value of `x` stands for, `lo + r / 65535 * (hi - lo)`,
/// lies within one step `(hi - lo) / 65535` of `x`; after rounding that value
/// to an integer, within one step and a half unit.
pub proof fn lemma_scale_round_trip(x: int, lo: int, hi: int)
    requires
        lo < hi,
        lo <= x <= hi,
        !rounded_past_one_step(x, lo, hi),
    ensures
        ({
            let r = scale_to_u16_spec(x, lo, hi);
            -(hi - lo) <= r * (hi - lo) - 65535 * (x - lo) <= hi - lo
        }),
        ({
            let e = scale_from_u16_spec(scale_to_u16_spec(x, lo, hi), lo, hi) - x;
            -(2 * (hi - lo) + 65535) <= 131070 * e <= 2 * (hi - lo) + 65535
        }),
{
    let d = hi - lo;
    let off = x - lo;
    let num = off * 131072 + d;
    let q = num / (2 * d);
    let m = num % (2 * d);
    lemma_fundamental_div_mod(num, 2 * d);
    vstd::arithmetic::div_mod::lemma_mod_pos_bound(num, 2 * d);
    assert(2 * (q * d - off * 65536) <= d && 2 * (q * d - off * 65536) > -d) by (nonlinear_arith)
        requires
            num == 2 * d * q + m,
            num == off * 131072 + d,
            0 <= m < 2 * d,
    ;
    let r = scale_to_u16_spec(x, lo, hi);
    if q <= 65535 {
        assert(r == q);
        assert(r * d - 65535 * off == q * d - off * 65536 + off) by (nonlinear_arith)
            requires
                r == q,
        ;
    } else {
        assert(r == 65535);
        assert(131072 * (d - off) <= d) by (nonlinear_arith)
            requires
                q >= 65536,
                num == 2 * d * q + m,
                num == off * 131072 + d,
                0 <= m,
                d > 0,
        ;
        assert(0 <= r * d - 65535 * off <= d) by (nonlinear_arith)
            requires
                r == 65535,
                131072 * (d - off) <= d,
                off <= d,
        ;
    }
    let big = 2 * r * d + 65535;
    assert(0 <= r) by {
        lemma_div_pos_is_pos(num, 2 * d);
    }
    assert(r * d >= 0) by (nonlinear_arith)
        requires
            r >= 0,
            d > 0,
    ;
    lemma_fundamental_div_mod(big, 131070);
    vstd::arithmetic::div_mod::lemma_mod_pos_bound(big, 131070);
    let t = big / 131070;
    assert(scale_from_u16_spec(r, lo, hi) == lo + t);
    let rd = r * d;
    assert(2 * r * d == 2 * rd) by (nonlinear_arith)
        requires
            rd == r * d,
    ;
    assert(-(2 * d + 65535) <= 131070 * (t - off) <= 2 * d + 65535) by (nonlinear_arith)
        requires
            big == 2 * rd + 65535,
            big == 131070 * t + big % 131070,
            0 <= big % 131070 < 131070,
            -d <= rd - 65535 * off <= d,
    ;
}

} // verus!
