//! Fixed-point samples and the bit-depth normalization rule.
//!
//! A normalized sample is an integer count of 1/65536 units: `SAMPLE_ONE`
//! stands for full scale, so every normalized sample lies in [-1, 1). The
//! sixteen-bit level of a source sample occupies the upper bits and the lowest
//! bit is free for the mean of two levels, which is therefore exact.

use vstd::prelude::*;
use vstd::arithmetic::power2::{pow2, lemma_pow2_unfold, lemma_pow2_strictly_increases, lemma2_to64};

verus! {

/// One full-scale unit of a normalized sample.
pub const SAMPLE_ONE: i32 = 65536;

/// The sixteen-bit level that a raw sample of the given bit depth stands for:
/// every bit of depth short of sixteen doubles the value, every bit beyond
/// sixteen halves it, rounding toward negative infinity so the sign is kept.
pub open spec fn level_of(raw: int, bits: int) -> int
    decreases (if bits >= 16 { bits - 16 } else { 16 - bits }),
{
    if bits > 16 {
        level_of(raw / 2, bits - 1)
    } else if bits < 16 {
        level_of(raw * 2, bits + 1)
    } else {
        raw
    }
}

/// Whether `raw` is a two's complement value of `bits` bits, for a depth that
/// a 32-bit sample can carry.
pub open spec fn fits_depth(raw: int, bits: int) -> bool {
    &&& 1 <= bits <= 32
    &&& -(pow2((bits - 1) as nat) as int) <= raw < pow2((bits - 1) as nat)
}

/// A sixteen-bit level as a normalized sample.
pub open spec fn sample_of_level(level: int) -> int {
    2 * level
}

/// The normalized sample of a raw sample, where the raw sample fits its depth.
pub open spec fn normalized(raw: i32, bits: u32) -> Option<i32> {
    if fits_depth(raw as int, bits as int) {
        Some(sample_of_level(level_of(raw as int, bits as int)) as i32)
    } else {
        None
    }
}

/// A sample that fits its depth has a level that fits sixteen bits.
pub proof fn lemma_level_range(raw: int, bits: int)
    requires
        fits_depth(raw, bits),
    ensures
        -32768 <= level_of(raw, bits) <= 32767,
    decreases (if bits >= 16 { bits - 16 } else { 16 - bits }),
{
    lemma2_to64();
    if bits > 16 {
        lemma_pow2_unfold((bits - 1) as nat);
        lemma_level_range(raw / 2, bits - 1);
    } else if bits < 16 {
        lemma_pow2_unfold(bits as nat);
        lemma_level_range(raw * 2, bits + 1);
    }
}

/// Widening a sample by one low zero bit leaves its level unchanged.
pub proof fn lemma_level_widen(raw: int, bits: int)
    ensures
        level_of(raw * 2, bits + 1) == level_of(raw, bits),
{
    if bits >= 16 {
        assert((raw * 2) / 2 == raw);
    }
}

/// The scaling law: the same amplitude written at a greater bit depth, that is
/// with `extra` more low zero bits, has the same level, hence the same
/// normalized sample.
pub proof fn lemma_depth_invariance(raw: int, bits: int, extra: nat)
    ensures
        level_of(raw * pow2(extra), bits + extra) == level_of(raw, bits),
    decreases extra,
{
    lemma2_to64();
    if extra > 0 {
        let rest = (extra - 1) as nat;
        lemma_pow2_unfold(extra);
        assert(raw * pow2(extra) == (raw * pow2(rest)) * 2) by (nonlinear_arith)
            requires
                pow2(extra) == 2 * pow2(rest),
        ;
        lemma_level_widen(raw * pow2(rest), bits + rest);
        lemma_depth_invariance(raw, bits, rest);
    } else {
        assert(raw * 1 == raw);
    }
}

/// A sample that fits its depth still fits when it is written with `extra`
/// more low zero bits at a depth greater by as much.
pub proof fn lemma_widened_sample_fits(raw: int, bits: int, extra: nat)
    requires
        fits_depth(raw, bits),
        bits + extra <= 32,
    ensures
        fits_depth(raw * pow2(extra), bits + extra),
    decreases extra,
{
    lemma2_to64();
    if extra > 0 {
        let rest = (extra - 1) as nat;
        lemma_widened_sample_fits(raw, bits, rest);
        lemma_pow2_unfold(extra);
        lemma_pow2_unfold((bits + extra - 1) as nat);
        assert(raw * pow2(extra) == (raw * pow2(rest)) * 2) by (nonlinear_arith)
            requires
                pow2(extra) == 2 * pow2(rest),
        ;
    } else {
        assert(raw * 1 == raw);
    }
}

/// The scaling law on normalized samples: a sample and the same amplitude at
/// a greater depth normalize to the same value. With depths 8, 16 and 24 this
/// says that a constant input is the same sample whatever the depth.
pub proof fn lemma_same_sample_at_greater_depth(raw: i32, bits: u32, extra: u32, wide: i32)
    requires
        fits_depth(raw as int, bits as int),
        bits + extra <= 32,
        wide == raw * pow2(extra as nat),
    ensures
        normalized(raw, bits).is_some(),
        normalized(wide, (bits + extra) as u32) == normalized(raw, bits),
{
    lemma_widened_sample_fits(raw as int, bits as int, extra as nat);
    lemma_depth_invariance(raw as int, bits as int, extra as nat);
}

/// Two to the power `e`, for an exponent below 32.
fn power_of_two(e: u32) -> (p: i64)
    requires
        e < 32,
    ensures
        p == pow2(e as nat),
        1 <= p <= 0x8000_0000,
{
    let mut p: i64 = 1;
    let mut i: u32 = 0;
    proof {
        lemma2_to64();
    }
    while i < e
        invariant
            i <= e < 32,
            p == pow2(i as nat),
        decreases e - i,
    {
        proof {
            lemma2_to64();
            lemma_pow2_unfold((i + 1) as nat);
            if i < 30 {
                lemma_pow2_strictly_increases(i as nat, 30);
            }
        }
        p = p * 2;
        i = i + 1;
    }
    proof {
        lemma2_to64();
        if e < 31 {
            lemma_pow2_strictly_increases(e as nat, 31);
        }
    }
    p
}

/// Normalizes one raw sample of the given bit depth. Returns `None` where the
/// depth is not between 1 and 32 or the sample does not fit it.
pub fn normalize(raw: i32, bits: u32) -> (out: Option<i32>)
    ensures
        out == normalized(raw, bits),
        out matches Some(s) ==> -SAMPLE_ONE <= s < SAMPLE_ONE,
{
    if bits == 0 || bits > 32 {
        return None;
    }
    let half: i64 = power_of_two(bits - 1);
    let wide: i64 = raw as i64;
    if wide < -half || wide >= half {
        return None;
    }
    let mut level: i64 = wide;
    let mut depth: u32 = bits;
    while depth != 16
        invariant
            1 <= depth <= 32,
            fits_depth(level as int, depth as int),
            level_of(level as int, depth as int) == level_of(raw as int, bits as int),
            -0x8000_0000 <= level < 0x8000_0000,
        decreases (if depth >= 16 { depth - 16 } else { 16 - depth }),
    {
        proof {
            lemma2_to64();
        }
        if depth > 16 {
            proof {
                lemma_pow2_unfold((depth - 1) as nat);
            }
            level = if level >= 0 {
                level / 2
            } else {
                -((-level - 1) / 2) - 1
            };
            depth = depth - 1;
        } else {
            proof {
                lemma_pow2_unfold(depth as nat);
                lemma_pow2_strictly_increases(depth as nat, 16);
            }
            level = level * 2;
            depth = depth + 1;
        }
    }
    proof {
        lemma2_to64();
        lemma_level_range(raw as int, bits as int);
    }
    let doubled: i64 = level * 2;
    Some(doubled as i32)
}

} // verus!
