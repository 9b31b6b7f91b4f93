use renderer::cache_key::{make_cache_key, SubpixelBin};
use renderer::fixed::Fx;
use renderer::glyph::{position, PositionMode, ShapedGlyph};
use renderer::metrics::{metrics, MetricsError};
use renderer::runs::{to_colored_runs, to_single_run, Color, RunError, ShapedLine, DEFAULT_GLYPH_COLOR};

fn fx(raw: i64) -> Fx {
    Fx { raw }
}

/// A glyph placement at `x` sub-units with the given tag; one pixel = 256.
fn glyph(x: i64, tag: u32) -> ShapedGlyph {
    ShapedGlyph {
        font_id: 7,
        glyph_id: 42,
        font_size: fx(14 * 256),
        x: fx(x),
        y: fx(2 * 256),
        w: fx(300),
        metadata: tag,
        flags: 0,
    }
}

fn line_of(tags: &[u32]) -> ShapedLine {
    let glyphs = tags
        .iter()
        .enumerate()
        .map(|(i, &t)| glyph(i as i64 * 300, t))
        .collect();
    ShapedLine {
        glyphs,
        line_top: fx(2 * 256),
        line_y: fx(14 * 256),
        line_w: fx(31590),
    }
}

#[test]
fn metrics_example() {
    // top 2.0, baseline 14.0, width 123.4, line height 20.0
    let m = metrics(fx(512), fx(3584), fx(31590), fx(5120)).unwrap();
    assert_eq!(m.max_ascent, 12);
    assert_eq!(m.max_descent, 8);
    assert_eq!(m.width, 124);
}

#[test]
fn metrics_exact_fit_has_zero_descent() {
    // line height 12.0 exactly covers the ascent
    let m = metrics(fx(512), fx(3584), fx(256), fx(12 * 256)).unwrap();
    assert_eq!(m.max_ascent, 12);
    assert_eq!(m.max_descent, 0);
    assert_eq!(m.width, 1);
}

#[test]
fn negative_descent_is_reported() {
    // line height 10.0 is smaller than the 12 px ascent
    let r = metrics(fx(512), fx(3584), fx(31590), fx(10 * 256));
    assert_eq!(r, Err(MetricsError::NegativeDescent));
}

#[test]
fn color_split_example() {
    let line = line_of(&[0, 0, 1, 1, 1]);
    let red = Color(0xFF00_00FF);
    let blue = Color(0x0000_FFFF);
    let palette = vec![red, blue];
    let runs = to_colored_runs(&line, fx(20 * 256), &palette, PositionMode::Subpixel).unwrap();
    assert_eq!(runs.len(), 2);
    assert_eq!(runs[0].glyphs.len(), 2);
    assert_eq!(runs[0].color, red);
    assert_eq!(runs[1].glyphs.len(), 3);
    assert_eq!(runs[1].color, blue);
    assert_eq!(runs[0].metrics, runs[1].metrics);
    assert_eq!(runs[0].metrics.max_ascent, 12);
    assert_eq!(runs[0].metrics.max_descent, 8);
    assert_eq!(runs[0].metrics.width, 124);
}

#[test]
fn palette_error_example() {
    let line = line_of(&[0, 2, 1]);
    let palette = vec![Color(1), Color(2)];
    let r = to_colored_runs(&line, fx(20 * 256), &palette, PositionMode::Subpixel);
    assert_eq!(r.unwrap_err(), RunError::MissingPaletteEntry { tag: 2 });
}

#[test]
fn negative_descent_takes_precedence_over_palette() {
    // line height 1 px is under the ascent, and tag 9 has no entry either:
    // the metrics are computed once for the whole line, first
    let line = line_of(&[9]);
    let palette = vec![Color(1)];
    let r = to_colored_runs(&line, fx(256), &palette, PositionMode::Subpixel);
    assert_eq!(r.unwrap_err(), RunError::NegativeDescent);
}

#[test]
fn order_is_preserved_across_runs() {
    let line = line_of(&[0, 1, 1, 0, 2]);
    let palette = vec![Color(10), Color(20), Color(30)];
    let runs = to_colored_runs(&line, fx(20 * 256), &palette, PositionMode::Subpixel).unwrap();
    let flattened: Vec<_> = runs.iter().flat_map(|r| r.glyphs.iter().copied()).collect();
    let expected: Vec<_> = line
        .glyphs
        .iter()
        .map(|g| position(g, PositionMode::Subpixel))
        .collect();
    assert_eq!(flattened, expected);
}

#[test]
fn runs_are_maximal() {
    let line = line_of(&[0, 1, 1, 0]);
    let palette = vec![Color(10), Color(20)];
    let runs = to_colored_runs(&line, fx(20 * 256), &palette, PositionMode::Subpixel).unwrap();
    let lens: Vec<usize> = runs.iter().map(|r| r.glyphs.len()).collect();
    assert_eq!(lens, vec![1, 2, 1]);
    for pair in runs.windows(2) {
        assert_ne!(pair[0].color, pair[1].color);
    }
}

#[test]
fn empty_line_yields_no_runs() {
    let line = line_of(&[]);
    let palette = vec![Color(10)];
    let runs = to_colored_runs(&line, fx(20 * 256), &palette, PositionMode::Subpixel).unwrap();
    assert!(runs.is_empty());
}

#[test]
fn single_run_uses_default_color_and_keeps_order() {
    let line = line_of(&[5, 9, 5]);
    let run = to_single_run(&line, fx(20 * 256), PositionMode::Subpixel).unwrap();
    assert_eq!(run.color, Color(DEFAULT_GLYPH_COLOR));
    assert_eq!(run.glyphs.len(), 3);
    let expected: Vec<_> = line
        .glyphs
        .iter()
        .map(|g| position(g, PositionMode::Subpixel))
        .collect();
    assert_eq!(run.glyphs, expected);
    assert_eq!(run.metrics.max_ascent, 12);
}

#[test]
fn single_run_reports_negative_descent() {
    let line = line_of(&[0]);
    let r = to_single_run(&line, fx(256), PositionMode::Subpixel);
    assert_eq!(r.unwrap_err(), RunError::NegativeDescent);
}

#[test]
fn cache_key_determinism() {
    let g = glyph(300, 0);
    let a = position(&g, PositionMode::Subpixel);
    let b = position(&g, PositionMode::Subpixel);
    assert_eq!(a.key, b.key);
    assert_eq!((a.x, a.y), (b.x, b.y));
    let (k1, x1, y1) = make_cache_key(7, 42, fx(3584), fx(300), fx(100), 0);
    let (k2, x2, y2) = make_cache_key(7, 42, fx(3584), fx(300), fx(100), 0);
    assert_eq!(k1, k2);
    assert_eq!((x1, y1), (x2, y2));
}

#[test]
fn quantization_idempotence() {
    // 1.172 px rounds to 1.0 px; re-positioning the rounded placement
    // moves nothing.
    let g = glyph(300, 0);
    let rounded = ShapedGlyph {
        x: g.x.round_px(),
        y: g.y.round_px(),
        ..g
    };
    let once = position(&g, PositionMode::Quantized);
    let twice = position(&rounded, PositionMode::Quantized);
    assert_eq!(once, twice);
    assert_eq!(fx(300).round_px(), fx(256));
    assert_eq!(fx(256).round_px(), fx(256));
    assert_eq!(fx(128).round_px(), fx(256));
    assert_eq!(fx(-128).round_px(), fx(-256));
    assert_eq!(fx(-300).round_px(), fx(-256));
}

#[test]
fn hitbox_invariance() {
    let g = glyph(300, 0);
    let sub = position(&g, PositionMode::Subpixel);
    let quant = position(&g, PositionMode::Quantized);
    assert_eq!(sub.w, quant.w);
    assert_eq!(sub.w, fx(300));
}

#[test]
fn subpixel_offsets_collapse_to_quarter_buckets() {
    // 0.375 px and 0.5 px both bin to the half-pixel bucket of pixel 0
    let (k1, x1, _) = make_cache_key(7, 42, fx(3584), fx(96), fx(0), 0);
    let (k2, x2, _) = make_cache_key(7, 42, fx(3584), fx(128), fx(0), 0);
    assert_eq!(k1, k2);
    assert_eq!(k1.x_bin, SubpixelBin::Half);
    assert_eq!((x1, x2), (0, 0));
    // 0.875 px rounds up to the zero bucket of the next pixel
    let (k3, x3, _) = make_cache_key(7, 42, fx(3584), fx(224), fx(0), 0);
    let (k4, x4, _) = make_cache_key(7, 42, fx(3584), fx(256), fx(0), 0);
    assert_eq!(k3, k4);
    assert_eq!(k3.x_bin, SubpixelBin::Zero);
    assert_eq!((x3, x4), (1, 1));
}

#[test]
fn bucket_offsets_decode() {
    assert_eq!(SubpixelBin::Zero.offset_subunits(), 0);
    assert_eq!(SubpixelBin::Quarter.offset_subunits(), 64);
    assert_eq!(SubpixelBin::Half.offset_subunits(), 128);
    assert_eq!(SubpixelBin::ThreeQuarters.offset_subunits(), 192);
    // reconstructing 300 from its residual pixel and bucket lands at 320,
    // within an eighth of a pixel of the original
    let (k, x, _) = make_cache_key(7, 42, fx(3584), fx(300), fx(0), 0);
    assert_eq!(x * 256 + k.x_bin.offset_subunits(), 320);
}

#[test]
fn quantized_mode_collapses_nearby_placements() {
    // 1.172 px and 1.445 px both round to pixel 1: same key, same position
    let a = position(&glyph(300, 0), PositionMode::Quantized);
    let b = position(&glyph(370, 0), PositionMode::Quantized);
    assert_eq!(a.key, b.key);
    assert_eq!((a.x, a.y), (b.x, b.y));
    // in sub-pixel mode they fall in different quarter-pixel buckets
    let c = position(&glyph(300, 0), PositionMode::Subpixel);
    let d = position(&glyph(370, 0), PositionMode::Subpixel);
    assert_ne!(c.key, d.key);
}

#[test]
fn flags_take_part_in_key_equality() {
    let (k1, _, _) = make_cache_key(7, 42, fx(3584), fx(0), fx(0), 0);
    let (k2, _, _) = make_cache_key(7, 42, fx(3584), fx(0), fx(0), 1);
    assert_ne!(k1, k2);
}

#[test]
fn negative_coordinates_bin_and_floor() {
    // -1.172 px: floor -2, fraction 0.828 -> three-quarters bucket
    let (k, x, _) = make_cache_key(7, 42, fx(3584), fx(-300), fx(0), 0);
    assert_eq!(x, -2);
    assert_eq!(k.x_bin, SubpixelBin::ThreeQuarters);
    let g = glyph(-300, 0);
    let p = position(&g, PositionMode::Subpixel);
    assert_eq!(p.x, -2);
    assert_eq!(p.w, fx(300));
}

#[test]
fn fixed_point_floor_and_ceil() {
    assert_eq!(fx(300).floor_px(), 1);
    assert_eq!(fx(-300).floor_px(), -2);
    assert_eq!(fx(-256).floor_px(), -1);
    assert_eq!(fx(0).floor_px(), 0);
    assert_eq!(fx(300).ceil_px(), 2);
    assert_eq!(fx(256).ceil_px(), 1);
    assert_eq!(fx(0).ceil_px(), 0);
}
