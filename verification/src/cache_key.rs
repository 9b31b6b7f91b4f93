//! Cache-key codec.
//!
//! Encodes a glyph placement (font identity, glyph id, size, fractional
//! offset, flags) into a single comparable, hashable key, and returns the
//! whole-pixel residual offset that atlas-slot placement must apply. The
//! fractional offset is quantized onto a quarter-pixel grid: placements
//! that differ only below that granularity collapse to the same key, which
//! is what lets an external atlas reuse rendered bitmaps.

use vstd::prelude::*;
use vstd::arithmetic::div_mod::{lemma_fundamental_div_mod, lemma_mod_bound};
use crate::fixed::{Fx, fx_in_range, fx_floor_px, fx_frac};

verus! {

/// Quarter-pixel bucket of a fractional offset.
#[derive(Clone, Copy, PartialEq, Eq, Structural, Hash, Debug)]
pub enum SubpixelBin {
    Zero,
    Quarter,
    Half,
    ThreeQuarters,
}

/// Key under which a rendered glyph bitmap is stored in an external atlas.
///
/// Every field takes part in equality, the flags included, so that bits
/// reserved for future render modes can never collide across modes.
#[derive(Clone, Copy, PartialEq, Eq, Structural, Hash, Debug)]
pub struct CacheKey {
    /// Identity of the font the glyph was shaped with.
    pub font_id: u32,
    /// Glyph index within the font.
    pub glyph_id: u16,
    /// Font size in fixed-point sub-units (exact, so equal sizes always
    /// produce equal keys).
    pub font_size_raw: i64,
    /// Quarter-pixel bucket of the fractional x offset.
    pub x_bin: SubpixelBin,
    /// Quarter-pixel bucket of the fractional y offset.
    pub y_bin: SubpixelBin,
    /// Open extensible render-mode bit set.
    pub flags: u32,
}

/// The sub-pixel offset a bucket stands for, in sub-units: the offset the
/// rasterizer applies within the atlas slot for keys carrying this bucket.
pub open spec fn spec_bin_offset(b: SubpixelBin) -> int {
    match b {
        SubpixelBin::Zero => 0,
        SubpixelBin::Quarter => 64,
        SubpixelBin::Half => 128,
        SubpixelBin::ThreeQuarters => 192,
    }
}

impl SubpixelBin {
    /// The bucket's sub-pixel offset in sub-units.
    pub fn offset_subunits(self) -> (r: i64)
        ensures
            r as int == spec_bin_offset(self),
    {
        match self {
            SubpixelBin::Zero => 0,
            SubpixelBin::Quarter => 64,
            SubpixelBin::Half => 128,
            SubpixelBin::ThreeQuarters => 192,
        }
    }
}

/// Nearest quarter-pixel of a sub-pixel remainder, as a count of quarters
/// in `0 ..= 4` (4 meaning the fraction rounded up to the next whole pixel).
pub open spec fn fx_quarters(raw: int) -> int {
    (fx_frac(raw) + 32) / 64
}

/// Which quarter-pixel bucket a coordinate's fraction falls in.
pub open spec fn spec_bin_index(raw: int) -> int {
    if fx_quarters(raw) == 4 {
        0
    } else {
        fx_quarters(raw)
    }
}

/// The whole-pixel residual left over once the fraction is binned: the
/// floor of the coordinate, plus one when the fraction rounded up.
pub open spec fn spec_bin_residual(raw: int) -> int {
    if fx_quarters(raw) == 4 {
        fx_floor_px(raw) + 1
    } else {
        fx_floor_px(raw)
    }
}

/// The bucket named by a quarter count in `0 ..= 3`.
pub open spec fn spec_bin_of(q: int) -> SubpixelBin {
    if q == 1 {
        SubpixelBin::Quarter
    } else if q == 2 {
        SubpixelBin::Half
    } else if q == 3 {
        SubpixelBin::ThreeQuarters
    } else {
        SubpixelBin::Zero
    }
}

/// The key and residuals that [`make_cache_key`] returns; a pure function
/// of its inputs, so keys are stable across frames and placements.
pub open spec fn spec_cache_key(
    font_id: u32,
    glyph_id: u16,
    font_size: Fx,
    x_raw: int,
    y_raw: int,
    flags: u32,
) -> CacheKey {
    CacheKey {
        font_id,
        glyph_id,
        font_size_raw: font_size.raw,
        x_bin: spec_bin_of(spec_bin_index(x_raw)),
        y_bin: spec_bin_of(spec_bin_index(y_raw)),
        flags,
    }
}

/// Splits one coordinate into its whole-pixel residual and the quarter-pixel
/// bucket of its fraction.
pub fn split_subpixel(x: Fx) -> (r: (i64, SubpixelBin))
    requires
        fx_in_range(x.raw as int),
    ensures
        r.0 as int == spec_bin_residual(x.raw as int),
        r.1 == spec_bin_of(spec_bin_index(x.raw as int)),
{
    let f: i64 = x.floor_px();
    let frac: u64 = x.frac();
    let q: u64 = (frac + 32) / 64;
    if q == 4 {
        (f + 1, SubpixelBin::Zero)
    } else if q == 1 {
        (f, SubpixelBin::Quarter)
    } else if q == 2 {
        (f, SubpixelBin::Half)
    } else if q == 3 {
        (f, SubpixelBin::ThreeQuarters)
    } else {
        (f, SubpixelBin::Zero)
    }
}

/// Encodes a glyph placement into its atlas cache key and the whole-pixel
/// residual offset the rasterizer must apply. Pure: equal inputs always
/// yield equal keys and equal residuals.
pub fn make_cache_key(
    font_id: u32,
    glyph_id: u16,
    font_size: Fx,
    x: Fx,
    y: Fx,
    flags: u32,
) -> (r: (CacheKey, i64, i64))
    requires
        fx_in_range(x.raw as int),
        fx_in_range(y.raw as int),
    ensures
        r.0 == spec_cache_key(font_id, glyph_id, font_size, x.raw as int, y.raw as int, flags),
        r.1 as int == spec_bin_residual(x.raw as int),
        r.2 as int == spec_bin_residual(y.raw as int),
{
    let (rx, xb) = split_subpixel(x);
    let (ry, yb) = split_subpixel(y);
    (
        CacheKey { font_id, glyph_id, font_size_raw: font_size.raw, x_bin: xb, y_bin: yb, flags },
        rx,
        ry,
    )
}

/// Cache-key determinism: two placements with identical font, glyph id,
/// size, offset and flags always yield equal keys and equal residuals.
pub proof fn lemma_cache_key_deterministic(
    font_id: u32,
    glyph_id: u16,
    font_size: Fx,
    x1: Fx,
    y1: Fx,
    x2: Fx,
    y2: Fx,
    flags: u32,
)
    requires
        x1 == x2,
        y1 == y2,
    ensures
        spec_cache_key(font_id, glyph_id, font_size, x1.raw as int, y1.raw as int, flags)
            == spec_cache_key(font_id, glyph_id, font_size, x2.raw as int, y2.raw as int, flags),
        spec_bin_residual(x1.raw as int) == spec_bin_residual(x2.raw as int),
        spec_bin_residual(y1.raw as int) == spec_bin_residual(y2.raw as int),
{
}

/// Binning loses at most an eighth of a pixel: reconstructing a coordinate
/// from its whole-pixel residual and its bucket's offset lands within 32
/// sub-units of the original coordinate.
pub proof fn lemma_bin_reconstruction(raw: int)
    requires
        fx_in_range(raw),
    ensures
        -32 < 256 * spec_bin_residual(raw) + spec_bin_offset(spec_bin_of(spec_bin_index(raw)))
            - raw <= 32,
{
    lemma_fundamental_div_mod(raw, 256);
    lemma_mod_bound(raw, 256);
    let frac = fx_frac(raw);
    lemma_fundamental_div_mod(frac + 32, 64);
    lemma_mod_bound(frac + 32, 64);
}

/// Placements that differ only below the quarter-pixel granularity collapse
/// to the same bucket: coordinates with equal floor and equal quarter count
/// are indistinguishable in the key.
pub proof fn lemma_subpixel_collapse(a: int, b: int)
    requires
        fx_in_range(a),
        fx_in_range(b),
        fx_floor_px(a) == fx_floor_px(b),
        fx_quarters(a) == fx_quarters(b),
    ensures
        spec_bin_index(a) == spec_bin_index(b),
        spec_bin_residual(a) == spec_bin_residual(b),
{
}

} // verus!
