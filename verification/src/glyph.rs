//! Glyph positioner.
//!
//! Maps one shaped glyph placement to a screen-space position, a hitbox
//! width and an atlas cache key. A process-wide rendering-quality setting,
//! passed in as [`PositionMode`], selects between full sub-pixel placement
//! and rounding both axes to the nearest whole pixel; the hitbox width is
//! always the raw advance, so layout geometry never depends on the mode.

use vstd::prelude::*;
use crate::fixed::{Fx, fx_in_range, fx_round_raw, lemma_round_idempotent};
use crate::cache_key::{CacheKey, spec_cache_key, spec_bin_residual, make_cache_key};

verus! {

/// Process-wide rendering-quality policy applied to glyph positions.
#[derive(Clone, Copy, PartialEq, Eq, Structural, Debug)]
pub enum PositionMode {
    /// Keep the fractional position the shaping engine produced.
    Subpixel,
    /// Round both axes to the nearest whole pixel before keying.
    Quantized,
}

/// One glyph placement as the shaping engine hands it out, with coordinates
/// in fixed-point sub-units.
#[derive(Clone, Copy, PartialEq, Eq, Structural, Debug)]
pub struct ShapedGlyph {
    /// Identity of the font the glyph was shaped with.
    pub font_id: u32,
    /// Glyph index within the font.
    pub glyph_id: u16,
    /// Font size the glyph was shaped at.
    pub font_size: Fx,
    /// Advance x position within the line.
    pub x: Fx,
    /// Advance y position within the line.
    pub y: Fx,
    /// Advance width of the glyph.
    pub w: Fx,
    /// Opaque metadata tag; the run grouper reads it as a palette index.
    pub metadata: u32,
    /// Render-mode bits carried into the cache key.
    pub flags: u32,
}

/// A render-ready glyph: its atlas key, its whole-pixel screen position,
/// and its hitbox width in sub-units.
#[derive(Clone, Copy, PartialEq, Eq, Structural, Debug)]
pub struct PositionedGlyph {
    /// Key under which the glyph's bitmap lives in the external atlas.
    pub key: CacheKey,
    /// Whole-pixel x position the atlas slot is placed at.
    pub x: i64,
    /// Whole-pixel y position the atlas slot is placed at.
    pub y: i64,
    /// Hitbox width: always the raw advance width, whatever the mode.
    pub w: Fx,
}

/// Whether a glyph's coordinates are small enough for exact positioning.
pub open spec fn glyph_in_range(g: ShapedGlyph) -> bool {
    &&& fx_in_range(g.x.raw as int)
    &&& fx_in_range(g.y.raw as int)
}

/// The x coordinate the cache key is derived from under `mode`.
pub open spec fn spec_mode_x(g: ShapedGlyph, mode: PositionMode) -> int {
    match mode {
        PositionMode::Subpixel => g.x.raw as int,
        PositionMode::Quantized => fx_round_raw(g.x.raw as int),
    }
}

/// The y coordinate the cache key is derived from under `mode`.
pub open spec fn spec_mode_y(g: ShapedGlyph, mode: PositionMode) -> int {
    match mode {
        PositionMode::Subpixel => g.y.raw as int,
        PositionMode::Quantized => fx_round_raw(g.y.raw as int),
    }
}

/// The glyph [`position`] produces: key from the mode-adjusted coordinates,
/// position the whole-pixel residual of those coordinates, hitbox width the
/// raw advance.
pub open spec fn spec_position(g: ShapedGlyph, mode: PositionMode) -> PositionedGlyph {
    PositionedGlyph {
        key: spec_cache_key(
            g.font_id,
            g.glyph_id,
            g.font_size,
            spec_mode_x(g, mode),
            spec_mode_y(g, mode),
            g.flags,
        ),
        x: spec_bin_residual(spec_mode_x(g, mode)) as i64,
        y: spec_bin_residual(spec_mode_y(g, mode)) as i64,
        w: g.w,
    }
}

/// Positions one glyph placement under the given rendering-quality mode.
/// Total: every in-range placement is positionable, with no failure path.
pub fn position(g: &ShapedGlyph, mode: PositionMode) -> (r: PositionedGlyph)
    requires
        glyph_in_range(*g),
    ensures
        r == spec_position(*g, mode),
        r.w == g.w,
{
    let (px, py) = match mode {
        PositionMode::Subpixel => (g.x, g.y),
        PositionMode::Quantized => (g.x.round_px(), g.y.round_px()),
    };
    let (key, rx, ry) = make_cache_key(g.font_id, g.glyph_id, g.font_size, px, py, g.flags);
    PositionedGlyph { key, x: rx, y: ry, w: g.w }
}

/// Hitbox invariance: the hitbox width of a positioned glyph is the same in
/// sub-pixel mode and in quantized mode.
pub proof fn lemma_hitbox_invariant(g: ShapedGlyph)
    ensures
        spec_position(g, PositionMode::Subpixel).w == spec_position(g, PositionMode::Quantized).w,
{
}

/// Positioning determinism: two identical placements positioned under the
/// same mode yield the same key, position and hitbox.
pub proof fn lemma_position_deterministic(g1: ShapedGlyph, g2: ShapedGlyph, mode: PositionMode)
    requires
        g1 == g2,
    ensures
        spec_position(g1, mode) == spec_position(g2, mode),
{
}

/// Under quantized mode, placements that are visually identical at the
/// rendering resolution — they agree on font, glyph, size and flags, and
/// their coordinates round to the same whole pixels — produce equal cache
/// keys and equal screen positions, so an external atlas can reuse one
/// bitmap for both.
pub proof fn lemma_quantized_collapse(g1: ShapedGlyph, g2: ShapedGlyph)
    requires
        g1.font_id == g2.font_id,
        g1.glyph_id == g2.glyph_id,
        g1.font_size == g2.font_size,
        g1.flags == g2.flags,
        fx_round_raw(g1.x.raw as int) == fx_round_raw(g2.x.raw as int),
        fx_round_raw(g1.y.raw as int) == fx_round_raw(g2.y.raw as int),
    ensures
        spec_position(g1, PositionMode::Quantized).key == spec_position(
            g2,
            PositionMode::Quantized,
        ).key,
        spec_position(g1, PositionMode::Quantized).x == spec_position(
            g2,
            PositionMode::Quantized,
        ).x,
        spec_position(g1, PositionMode::Quantized).y == spec_position(
            g2,
            PositionMode::Quantized,
        ).y,
{
}

/// Quantization idempotence: a placement whose coordinates are already
/// snapped to whole pixels positions, under quantized mode, exactly as the
/// original placement does — re-quantizing moves nothing.
pub proof fn lemma_quantize_idempotent(g: ShapedGlyph)
    requires
        glyph_in_range(g),
    ensures
        spec_position(
            ShapedGlyph {
                x: Fx { raw: fx_round_raw(g.x.raw as int) as i64 },
                y: Fx { raw: fx_round_raw(g.y.raw as int) as i64 },
                ..g
            },
            PositionMode::Quantized,
        ) == spec_position(g, PositionMode::Quantized),
{
    lemma_round_idempotent(g.x.raw as int);
    lemma_round_idempotent(g.y.raw as int);
}

} // verus!
