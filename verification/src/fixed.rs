//! Fixed-point arithmetic for the sample and gain domains.
//!
//! Audio samples travel through the mixing stages as `i64` values scaled by
//! `SAMPLE_ONE` (2^16): the embedding program converts each external unit's
//! output into this scale before handing it to the core, and converts the
//! core's results back. Gain ratios are `u64` values scaled by `GAIN_ONE`
//! (2^32).
//!
//! The master gain is configured in thousandths of a decibel and stored as a
//! linear ratio, converted once when the gain message is applied, never per
//! sample. The conversion renders the decibel law `ratio = 10^(db / 10)` in
//! fixed point: one multiplication by a constant per thousandth of a decibel,
//! saturating at `GAIN_MAX`. The exponent is clamped to ±96 dB; beyond that
//! the ratio has saturated (upward) or vanished (downward) anyway.

use vstd::prelude::*;

verus! {

/// One full-scale unit of the sample domain (2^16).
pub const SAMPLE_ONE: i64 = 65536;

/// Largest sample magnitude the mixing stages accept (2^46). Keeps every
/// intermediate product inside `i64`/`u128` range.
pub const SAMPLE_LIMIT: i64 = 70368744177664;

/// A gain ratio of exactly 1 (2^32).
pub const GAIN_ONE: u64 = 4294967296;

/// Largest representable gain ratio (2^48, a ratio of 65536).
pub const GAIN_MAX: u64 = 281474976710656;

/// Largest voice-pool size the mixer accepts.
pub const MAX_VOICES: usize = 4096;

/// Ratio of one thousandth of a decibel above 1: `10^(1/10000)` scaled by 2^32.
pub const GAIN_STEP_UP: u64 = 4295956363;

/// Ratio of one thousandth of a decibel below 1: `10^(-1/10000)` scaled by 2^32.
pub const GAIN_STEP_DOWN: u64 = 4293978457;

/// Largest decibel magnitude the gain law distinguishes, in thousandths.
pub const GAIN_CLAMP_MDB: i32 = 96000;

/// Integer division truncating toward zero, the rounding that every mixing
/// stage uses.
pub open spec fn spec_div_tz(x: int, d: int) -> int
    recommends
        d >= 1,
{
    if x >= 0 {
        x / d
    } else {
        -((-x) / d)
    }
}

/// Product of two gain ratios, saturating at `GAIN_MAX`.
pub open spec fn spec_mul_q32_sat(a: u64, b: u64) -> u64 {
    let p = (a * b) / (GAIN_ONE as int);
    if p > GAIN_MAX {
        GAIN_MAX
    } else {
        p as u64
    }
}

/// `step` raised to the `e`-th power by iterated saturating multiplication,
/// starting from a ratio of 1.
pub open spec fn spec_gain_pow(step: u64, e: nat) -> u64
    decreases e,
{
    if e == 0 {
        GAIN_ONE
    } else {
        spec_mul_q32_sat(spec_gain_pow(step, (e - 1) as nat), step)
    }
}

/// The gain law: the linear ratio for `mdb` thousandths of a decibel,
/// `10^(mdb/10000)` rendered in fixed point, clamped to ±96 dB.
pub open spec fn spec_gain_ratio(mdb: i32) -> u64 {
    if mdb >= 0 {
        let e = if mdb > GAIN_CLAMP_MDB {
            GAIN_CLAMP_MDB as nat
        } else {
            mdb as nat
        };
        spec_gain_pow(GAIN_STEP_UP, e)
    } else {
        let e = if mdb < -GAIN_CLAMP_MDB {
            GAIN_CLAMP_MDB as nat
        } else {
            (-mdb) as nat
        };
        spec_gain_pow(GAIN_STEP_DOWN, e)
    }
}

/// A sample scaled by a gain ratio, rounded toward zero.
pub open spec fn spec_scale(g: u64, x: i64) -> int {
    if x >= 0 {
        (x * g) / (GAIN_ONE as int)
    } else {
        -(((-x) * g) / (GAIN_ONE as int))
    }
}

/// Sum of a sequence of samples.
pub open spec fn spec_sum(s: Seq<i64>) -> int
    decreases s.len(),
{
    if s.len() == 0 {
        0
    } else {
        spec_sum(s.drop_last()) + s.last()
    }
}

/// Every saturating power of a step is at most `GAIN_MAX`.
pub proof fn lemma_gain_pow_le_max(step: u64, e: nat)
    ensures
        spec_gain_pow(step, e) <= GAIN_MAX,
    decreases e,
{
    if e > 0 {
        lemma_gain_pow_le_max(step, (e - 1) as nat);
    }
}

/// Every gain ratio the law produces is at most `GAIN_MAX`.
pub proof fn lemma_gain_ratio_le_max(mdb: i32)
    ensures
        spec_gain_ratio(mdb) <= GAIN_MAX,
{
    if mdb >= 0 {
        let e: nat = if mdb > GAIN_CLAMP_MDB {
            GAIN_CLAMP_MDB as nat
        } else {
            mdb as nat
        };
        lemma_gain_pow_le_max(GAIN_STEP_UP, e);
    } else {
        let e: nat = if mdb < -GAIN_CLAMP_MDB {
            GAIN_CLAMP_MDB as nat
        } else {
            (-mdb) as nat
        };
        lemma_gain_pow_le_max(GAIN_STEP_DOWN, e);
    }
}

/// Division truncating toward zero.
pub(crate) fn div_tz(x: i64, d: u64) -> (r: i64)
    requires
        1 <= d,
        -0x4000_0000_0000_0000 <= x <= 0x4000_0000_0000_0000,
    ensures
        r == spec_div_tz(x as int, d as int),
        0 <= r <= x || x <= r <= 0,
{
    if x >= 0 {
        ((x as u64) / d) as i64
    } else {
        let q = ((-x) as u64) / d;
        -(q as i64)
    }
}

/// Product of two gain ratios, saturating at `GAIN_MAX`.
fn mul_q32_sat(a: u64, b: u64) -> (r: u64)
    requires
        a <= GAIN_MAX,
        b <= GAIN_MAX,
    ensures
        r == spec_mul_q32_sat(a, b),
        r <= GAIN_MAX,
{
    proof {
        vstd::arithmetic::mul::lemma_mul_upper_bound(
            a as int,
            GAIN_MAX as int,
            b as int,
            GAIN_MAX as int,
        );
    }
    let prod: u128 = (a as u128) * (b as u128);
    let p: u128 = prod / (GAIN_ONE as u128);
    if p > GAIN_MAX as u128 {
        GAIN_MAX
    } else {
        p as u64
    }
}

/// The linear ratio for a gain of `mdb` thousandths of a decibel.
///
/// Converted once when a gain message is applied; the per-sample path only
/// multiplies by the stored ratio.
pub fn gain_ratio_q32(mdb: i32) -> (r: u64)
    ensures
        r == spec_gain_ratio(mdb),
        r <= GAIN_MAX,
{
    let up = mdb >= 0;
    let mag: u32 = if mdb >= 0 {
        if mdb > GAIN_CLAMP_MDB {
            GAIN_CLAMP_MDB as u32
        } else {
            mdb as u32
        }
    } else {
        if mdb < -GAIN_CLAMP_MDB {
            GAIN_CLAMP_MDB as u32
        } else {
            (-mdb) as u32
        }
    };
    let step: u64 = if up {
        GAIN_STEP_UP
    } else {
        GAIN_STEP_DOWN
    };
    let mut r: u64 = GAIN_ONE;
    let mut i: u32 = 0;
    while i < mag
        invariant
            i <= mag,
            step == if up {
                GAIN_STEP_UP
            } else {
                GAIN_STEP_DOWN
            },
            r == spec_gain_pow(step, i as nat),
            r <= GAIN_MAX,
        decreases mag - i,
    {
        r = mul_q32_sat(r, step);
        i = i + 1;
    }
    r
}

/// Scales a sample by a gain ratio, rounding toward zero.
///
/// Silence scales to silence: a zero input yields a zero output whatever the
/// gain is.
pub fn scale_q32(g: u64, x: i64) -> (r: i64)
    requires
        g <= GAIN_MAX,
        -SAMPLE_LIMIT <= x <= SAMPLE_LIMIT,
    ensures
        r == spec_scale(g, x),
        x == 0 ==> r == 0,
{
    if x >= 0 {
        proof {
            vstd::arithmetic::mul::lemma_mul_upper_bound(
                x as int,
                SAMPLE_LIMIT as int,
                g as int,
                GAIN_MAX as int,
            );
        }
        let prod: u128 = (x as u128) * (g as u128);
        let p: u128 = prod / (GAIN_ONE as u128);
        proof {
            vstd::arithmetic::div_mod::lemma_div_is_ordered(
                prod as int,
                (SAMPLE_LIMIT as int) * (GAIN_MAX as int),
                GAIN_ONE as int,
            );
            if x == 0 {
                assert(prod == 0) by {
                    vstd::arithmetic::mul::lemma_mul_by_zero_is_zero(g as int);
                };
                vstd::arithmetic::div_mod::lemma_div_basics(GAIN_ONE as int);
            }
        }
        p as i64
    } else {
        let m: i64 = -x;
        proof {
            vstd::arithmetic::mul::lemma_mul_upper_bound(
                m as int,
                SAMPLE_LIMIT as int,
                g as int,
                GAIN_MAX as int,
            );
        }
        let prod: u128 = (m as u128) * (g as u128);
        let p: u128 = prod / (GAIN_ONE as u128);
        proof {
            vstd::arithmetic::div_mod::lemma_div_is_ordered(
                prod as int,
                (SAMPLE_LIMIT as int) * (GAIN_MAX as int),
                GAIN_ONE as int,
            );
        }
        -(p as i64)
    }
}

/// Combines the two oscillator outputs of one voice: their average, rounded
/// toward zero. Averaging rather than summing keeps a two-oscillator voice at
/// the loudness of a one-oscillator voice.
pub fn mix_oscillators(a: i64, b: i64) -> (r: i64)
    requires
        -SAMPLE_LIMIT <= a <= SAMPLE_LIMIT,
        -SAMPLE_LIMIT <= b <= SAMPLE_LIMIT,
    ensures
        r == spec_div_tz(a + b, 2),
{
    div_tz(a + b, 2)
}

} // verus!
