//! Fixed-point screen-space scalars.
//!
//! Shaping engines hand out fractional pixel coordinates; this renderer
//! models them as signed counts of 1/256th of a pixel, so every coordinate
//! computation (rounding to whole pixels, ceiling to pixel extents,
//! sub-pixel binning) is exact integer arithmetic.

use vstd::prelude::*;
use vstd::arithmetic::div_mod::{
    lemma_fundamental_div_mod, lemma_fundamental_div_mod_converse, lemma_mod_multiples_basic,
};

verus! {

/// Number of fixed-point sub-units in one whole pixel.
pub const FX_ONE: i64 = 256;

/// Largest coordinate magnitude the renderer works with, in sub-units.
pub const FX_MAX_ABS: i64 = 0x4000_0000_0000;

/// A screen-space scalar: `raw` counts 1/256ths of a pixel.
#[derive(Clone, Copy, PartialEq, Eq, Structural, Hash, Debug)]
pub struct Fx {
    pub raw: i64,
}

/// Magnitude bound under which all fixed-point operations are overflow-free.
pub open spec fn fx_in_range(raw: int) -> bool {
    -FX_MAX_ABS <= raw <= FX_MAX_ABS
}

/// The whole-pixel part of a coordinate, rounded toward negative infinity.
pub open spec fn fx_floor_px(raw: int) -> int {
    raw / 256
}

/// The sub-pixel remainder of a coordinate, always in `[0, 256)`.
pub open spec fn fx_frac(raw: int) -> int {
    raw % 256
}

/// A non-negative extent rounded up to the next whole pixel.
pub open spec fn fx_ceil_px(raw: int) -> int {
    (raw + 255) / 256
}

/// A coordinate snapped to the nearest whole pixel, ties away from zero.
pub open spec fn fx_round_raw(raw: int) -> int {
    if raw >= 0 {
        256 * ((raw + 128) / 256)
    } else {
        -(256 * ((-raw + 128) / 256))
    }
}

/// Euclidean division of a negated dividend by 256, stated so that both the
/// floor and the rounding operations can run on unsigned magnitudes.
proof fn lemma_neg_div_256(a: int)
    requires
        0 < a,
    ensures
        (-a) / 256 == -((a + 255) / 256),
{
    let q = (a + 255) / 256;
    let r = (a + 255) % 256;
    lemma_fundamental_div_mod(a + 255, 256);
    assert(a + 255 == 256 * q + r);
    assert(-a == (-q) * 256 + (255 - r)) by {
        assert(a == 256 * q + r - 255);
    }
    lemma_fundamental_div_mod_converse(-a, 256, -q, 255 - r);
}

impl Fx {
    /// The whole-pixel part, rounded toward negative infinity.
    pub fn floor_px(self) -> (r: i64)
        requires
            fx_in_range(self.raw as int),
        ensures
            r as int == fx_floor_px(self.raw as int),
    {
        if self.raw >= 0 {
            let q: u64 = (self.raw as u64) / 256;
            q as i64
        } else {
            let a: u64 = ((-self.raw) as i64) as u64;
            let q: u64 = (a + 255) / 256;
            proof {
                lemma_neg_div_256(-(self.raw as int));
            }
            -(q as i64)
        }
    }

    /// The sub-pixel remainder, in `[0, 256)` sub-units.
    pub fn frac(self) -> (r: u64)
        requires
            fx_in_range(self.raw as int),
        ensures
            r as int == fx_frac(self.raw as int),
            r < 256,
    {
        let f: i64 = self.floor_px();
        proof {
            lemma_fundamental_div_mod(self.raw as int, 256);
        }
        (self.raw - f * 256) as u64
    }

    /// A non-negative extent rounded up to the next whole pixel.
    pub fn ceil_px(self) -> (r: i64)
        requires
            0 <= self.raw,
            fx_in_range(self.raw as int),
        ensures
            r as int == fx_ceil_px(self.raw as int),
            0 <= r,
    {
        let q: u64 = (self.raw as u64 + 255) / 256;
        q as i64
    }

    /// The coordinate snapped to the nearest whole pixel, ties away from
    /// zero; used by the quantized rendering mode.
    pub fn round_px(self) -> (r: Fx)
        requires
            fx_in_range(self.raw as int),
        ensures
            r.raw as int == fx_round_raw(self.raw as int),
            fx_in_range(r.raw as int),
            fx_frac(r.raw as int) == 0,
    {
        if self.raw >= 0 {
            let q: u64 = (self.raw as u64 + 128) / 256;
            proof {
                lemma_fundamental_div_mod(self.raw as int + 128, 256);
                lemma_mod_multiples_basic(q as int, 256);
            }
            Fx { raw: (q as i64) * 256 }
        } else {
            let a: u64 = ((-self.raw) as i64) as u64;
            let q: u64 = (a + 128) / 256;
            proof {
                lemma_fundamental_div_mod(a as int + 128, 256);
                lemma_mod_multiples_basic(q as int, 256);
                if q > 0 {
                    lemma_neg_mul_mod(q as int);
                }
            }
            Fx { raw: -((q as i64) * 256) }
        }
    }
}

/// A negated multiple of 256 still has a zero sub-pixel remainder.
proof fn lemma_neg_mul_mod(q: int)
    requires
        0 <= q,
    ensures
        (-(q * 256)) % 256 == 0,
{
    lemma_fundamental_div_mod_converse(-(q * 256), 256, -q, 0);
}

/// Rounding to whole pixels is idempotent: snapping an already snapped
/// coordinate changes nothing.
pub proof fn lemma_round_idempotent(raw: int)
    requires
        fx_in_range(raw),
    ensures
        fx_round_raw(fx_round_raw(raw)) == fx_round_raw(raw),
{
    if raw >= 0 {
        let q = (raw + 128) / 256;
        lemma_fundamental_div_mod(raw + 128, 256);
        assert(0 <= q);
        lemma_fundamental_div_mod_converse(256 * q + 128, 256, q, 128);
        assert(fx_round_raw(256 * q) == 256 * ((256 * q + 128) / 256));
    } else {
        let q = (-raw + 128) / 256;
        lemma_fundamental_div_mod(-raw + 128, 256);
        assert(0 <= q);
        lemma_fundamental_div_mod_converse(256 * q + 128, 256, q, 128);
        if q == 0 {
            assert(fx_round_raw(0) == 256 * (128int / 256));
            lemma_fundamental_div_mod_converse(128, 256, 0, 128);
        } else {
            assert(fx_round_raw(-(256 * q)) == -(256 * ((256 * q + 128) / 256)));
        }
    }
}

} // verus!
