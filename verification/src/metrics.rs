//! Run metrics calculator.
//!
//! Derives per-line vertical metrics from the shaping engine's line
//! metadata and a caller-supplied line height: the ascent is the distance
//! from the line's top edge to its baseline rounded up to whole pixels, the
//! descent is what remains of the line height under that ascent (derived
//! residually, not measured), and the width is the line width rounded up.
//! A line height smaller than the computed ascent is a configuration error
//! and is reported, never clamped.

use vstd::prelude::*;
use vstd::arithmetic::div_mod::{
    lemma_div_is_ordered, lemma_div_pos_is_pos, lemma_fundamental_div_mod_converse,
};
use crate::fixed::{Fx, fx_ceil_px, FX_MAX_ABS};

verus! {

/// Largest line dimension the metrics calculator accepts, in sub-units:
/// the largest extent whose pixel ceiling still fits the metrics fields.
pub const FX_MAX_DIM: i64 = 0xFF_FFFF_FF00;

/// Per-line vertical metrics, all in whole pixels, derived once per line.
#[derive(Clone, Copy, PartialEq, Eq, Structural, Debug)]
pub struct GlyphRunMetrics {
    /// Distance from the line's top edge to its baseline, rounded up.
    pub max_ascent: u32,
    /// Remainder of the line height under the ascent, rounded up.
    pub max_descent: u32,
    /// Total line width, rounded up.
    pub width: u32,
}

/// Why a line's metrics could not be computed.
#[derive(Clone, Copy, PartialEq, Eq, Structural, Debug)]
pub enum MetricsError {
    /// The caller-supplied line height is smaller than the computed ascent,
    /// so the residual descent would be negative.
    NegativeDescent,
}

/// The ascent in whole pixels: top-to-baseline distance, rounded up.
pub open spec fn spec_ascent(line_top: Fx, line_y: Fx) -> int {
    fx_ceil_px(line_y.raw - line_top.raw)
}

/// Whether the caller-supplied line height leaves a non-negative descent.
pub open spec fn spec_descent_ok(line_top: Fx, line_y: Fx, line_height: Fx) -> bool {
    line_height.raw >= 256 * spec_ascent(line_top, line_y)
}

/// The residual descent in whole pixels: line height minus the ascent,
/// rounded up.
pub open spec fn spec_descent(line_top: Fx, line_y: Fx, line_height: Fx) -> int {
    fx_ceil_px(line_height.raw - 256 * spec_ascent(line_top, line_y))
}

/// The line width in whole pixels, rounded up.
pub open spec fn spec_width(line_w: Fx) -> int {
    fx_ceil_px(line_w.raw as int)
}

/// The metrics [`metrics`] returns on success.
pub open spec fn spec_metrics(line_top: Fx, line_y: Fx, line_w: Fx, line_height: Fx)
    -> GlyphRunMetrics {
    GlyphRunMetrics {
        max_ascent: spec_ascent(line_top, line_y) as u32,
        max_descent: spec_descent(line_top, line_y, line_height) as u32,
        width: spec_width(line_w) as u32,
    }
}

/// The pixel ceiling of an extent within [`FX_MAX_DIM`] fits in 32 bits.
proof fn lemma_ceil_px_bound(d: int)
    requires
        0 <= d <= FX_MAX_DIM,
    ensures
        0 <= fx_ceil_px(d) <= 0xFFFF_FFFF,
{
    lemma_div_pos_is_pos(d + 255, 256);
    lemma_div_is_ordered(d + 255, 0xFF_FFFF_FFFF, 256);
    lemma_fundamental_div_mod_converse(0xFF_FFFF_FFFF, 256, 0xFFFF_FFFF, 255);
}

/// Computes a line's vertical metrics from its top offset, baseline offset
/// and width, and the caller-supplied line height. Succeeds exactly when
/// the line height is at least the computed ascent; a smaller line height
/// is reported as [`MetricsError::NegativeDescent`].
pub fn metrics(line_top: Fx, line_y: Fx, line_w: Fx, line_height: Fx)
    -> (r: Result<GlyphRunMetrics, MetricsError>)
    requires
        line_top.raw <= line_y.raw,
        line_y.raw - line_top.raw <= FX_MAX_DIM,
        0 <= line_w.raw <= FX_MAX_DIM,
        0 <= line_height.raw <= FX_MAX_DIM,
    ensures
        r == (if spec_descent_ok(line_top, line_y, line_height) {
            Result::<GlyphRunMetrics, MetricsError>::Ok(
                spec_metrics(line_top, line_y, line_w, line_height),
            )
        } else {
            Result::<GlyphRunMetrics, MetricsError>::Err(MetricsError::NegativeDescent)
        }),
{
    proof {
        lemma_ceil_px_bound(line_y.raw - line_top.raw);
        lemma_ceil_px_bound(line_w.raw as int);
    }
    let ascent: i64 = Fx { raw: line_y.raw - line_top.raw }.ceil_px();
    let ascent_raw: i64 = ascent * 256;
    if line_height.raw < ascent_raw {
        return Err(MetricsError::NegativeDescent);
    }
    proof {
        lemma_ceil_px_bound(line_height.raw - ascent_raw);
    }
    let descent: i64 = Fx { raw: line_height.raw - ascent_raw }.ceil_px();
    let width: i64 = line_w.ceil_px();
    Ok(GlyphRunMetrics {
        max_ascent: ascent as u32,
        max_descent: descent as u32,
        width: width as u32,
    })
}

} // verus!
