//! Glyph run grouper.
//!
//! Splits a shaped line's glyphs into maximal contiguous runs of equal
//! metadata tag, preserving the original glyph order, positions every
//! glyph, and resolves each tag to a concrete color through a palette.
//! A tag with no palette entry signals an upstream layout/palette
//! desynchronization and is reported, never defaulted.

use vstd::prelude::*;
use crate::fixed::Fx;
use crate::glyph::{
    glyph_in_range, position, spec_position, PositionMode, PositionedGlyph, ShapedGlyph,
};
use crate::metrics::{
    metrics, spec_descent_ok, spec_metrics, GlyphRunMetrics, FX_MAX_DIM,
};

verus! {

/// A packed color, as the palette and the runs carry it.
#[derive(Clone, Copy, PartialEq, Eq, Structural, Hash, Debug)]
pub struct Color(pub u32);

/// Color assigned by [`to_single_run`], where no per-glyph variation exists.
pub const DEFAULT_GLYPH_COLOR: u32 = 0xFFFF_FFFF;

/// One shaped line as the shaping engine hands it out.
#[derive(Clone, Debug)]
pub struct ShapedLine {
    /// The line's glyphs, in shaping order.
    pub glyphs: Vec<ShapedGlyph>,
    /// Offset of the line's top edge.
    pub line_top: Fx,
    /// Offset of the line's baseline.
    pub line_y: Fx,
    /// Total width of the line.
    pub line_w: Fx,
}

/// A contiguous, same-color batch of positioned glyphs from one line.
#[derive(Clone, Debug)]
pub struct GlyphRun {
    /// The line's vertical metrics, shared by every run of the line.
    pub metrics: GlyphRunMetrics,
    /// The one color the whole run is drawn in.
    pub color: Color,
    /// The run's glyphs, contiguous and in original shaping order.
    pub glyphs: Vec<PositionedGlyph>,
}

/// Why a line could not be turned into runs.
#[derive(Clone, Copy, PartialEq, Eq, Structural, Debug)]
pub enum RunError {
    /// The caller-supplied line height is smaller than the computed ascent.
    NegativeDescent,
    /// A glyph's metadata tag has no palette entry: the layout and the
    /// palette are out of sync upstream.
    MissingPaletteEntry { tag: u32 },
}

/// Whether every glyph of the line is in coordinate range and the line's
/// own metrics inputs are well formed.
pub open spec fn line_in_range(line: ShapedLine) -> bool {
    &&& forall|i: int|
        0 <= i < line.glyphs@.len() ==> glyph_in_range(#[trigger] line.glyphs@[i])
    &&& line.line_top.raw <= line.line_y.raw
    &&& line.line_y.raw - line.line_top.raw <= FX_MAX_DIM
    &&& 0 <= line.line_w.raw <= FX_MAX_DIM
}

/// Every glyph of the sequence, positioned in order under `mode`.
pub open spec fn spec_positioned(s: Seq<ShapedGlyph>, mode: PositionMode) -> Seq<PositionedGlyph> {
    s.map(|i: int, g: ShapedGlyph| spec_position(g, mode))
}

/// The glyphs one emitted run holds for the group `grp`.
pub open spec fn spec_run_glyphs(grp: Seq<ShapedGlyph>, mode: PositionMode)
    -> Seq<PositionedGlyph> {
    grp.map(|i: int, g: ShapedGlyph| spec_position(g, mode))
}

/// The partition of a glyph sequence into maximal contiguous groups of
/// equal metadata tag: a forward scan that starts a new group exactly where
/// the tag changes.
pub open spec fn grouped(s: Seq<ShapedGlyph>) -> Seq<Seq<ShapedGlyph>>
    decreases s.len(),
{
    if s.len() == 0 {
        Seq::empty()
    } else if s.len() == 1 {
        Seq::empty().push(seq![s[0]])
    } else {
        let g = grouped(s.drop_last());
        let x = s.last();
        if s[s.len() - 2].metadata == x.metadata {
            g.update(g.len() - 1, g.last().push(x))
        } else {
            g.push(seq![x])
        }
    }
}

/// Whether some glyph's tag has no entry in a palette of length `plen`.
pub open spec fn has_missing(s: Seq<ShapedGlyph>, plen: nat) -> bool {
    exists|i: int| 0 <= i < s.len() && (#[trigger] s[i]).metadata >= plen
}

/// Every glyph of the group carries the tag `tag`.
pub open spec fn all_same_tag(grp: Seq<ShapedGlyph>, tag: u32) -> bool {
    forall|k: int| 0 <= k < grp.len() ==> (#[trigger] grp[k]).metadata == tag
}

/// The grouping is a well-formed maximal partition: groups are non-empty,
/// each is tag-constant, and adjacent groups differ in tag.
pub open spec fn groups_wf(s: Seq<ShapedGlyph>) -> bool {
    let g = grouped(s);
    &&& forall|j: int| 0 <= j < g.len() ==> (#[trigger] g[j]).len() > 0
    &&& forall|j: int| 0 <= j < g.len() ==> all_same_tag(#[trigger] g[j], g[j][0].metadata)
    &&& forall|j: int|
        0 <= j < g.len() - 1 ==> (#[trigger] g[j])[0].metadata != g[j + 1][0].metadata
}

/// How the grouping grows under one appended glyph: it joins the last group
/// when the tag matches the previous glyph's, else it opens a new group.
proof fn lemma_grouped_push(t: Seq<ShapedGlyph>, x: ShapedGlyph)
    ensures
        grouped(t.push(x)) == (if t.len() > 0 && t.last().metadata == x.metadata {
            grouped(t).update(grouped(t).len() - 1, grouped(t).last().push(x))
        } else {
            grouped(t).push(seq![x])
        }),
{
    let s = t.push(x);
    if t.len() == 0 {
        assert(s.len() == 1);
        assert(grouped(s) == Seq::<Seq<ShapedGlyph>>::empty().push(seq![s[0]]));
        assert(s[0] == x);
        assert(grouped(t) == Seq::<Seq<ShapedGlyph>>::empty());
    } else {
        assert(s.len() >= 2);
        assert(s.drop_last() =~= t);
        assert(s.last() == x);
        assert(s[s.len() - 2] == t.last());
    }
}

/// Maximal-run property, and the facts the builder needs of the partition:
/// every group is non-empty and tag-constant, adjacent groups differ in
/// tag, and the partition is empty exactly for the empty line, its last
/// group ending in the line's last glyph.
pub proof fn lemma_grouped_wf(s: Seq<ShapedGlyph>)
    ensures
        groups_wf(s),
        s.len() == 0 <==> grouped(s).len() == 0,
        s.len() > 0 ==> grouped(s).last().last() == s.last(),
    decreases s.len(),
{
    if s.len() == 0 {
    } else {
        let t = s.drop_last();
        let x = s.last();
        lemma_grouped_wf(t);
        lemma_grouped_push(t, x);
        assert(t.push(x) =~= s);
        let g = grouped(t);
        let gs = grouped(s);
        if t.len() > 0 && t.last().metadata == x.metadata {
            let n = g.len() - 1;
            assert(g[n].last() == t.last());
            assert(g[n].last().metadata == g[n][0].metadata);
            assert(gs == g.update(n, g.last().push(x)));
            assert(gs.len() == g.len());
            assert(forall|j: int| 0 <= j < g.len() && j != n ==> gs[j] == g[j]);
            assert(gs[n] == g[n].push(x));
            assert(gs[n][0] == g[n][0]);
            assert(all_same_tag(gs[n], gs[n][0].metadata));
            assert(gs.last().last() == x);
        } else {
            assert(gs == g.push(seq![x]));
            assert(gs.last() == seq![x]);
            assert(gs.last().last() == x);
            assert(all_same_tag(gs[gs.len() - 1], x.metadata));
            if t.len() > 0 {
                assert(g.len() > 0);
                assert(g.last().last() == t.last());
                assert(g.last()[0].metadata == t.last().metadata);
                assert(gs[gs.len() - 2][0].metadata != gs[gs.len() - 1][0].metadata);
            }
        }
    }
}

/// Order preservation at the partition level: concatenating the groups in
/// emission order reproduces the original glyph sequence exactly.
pub proof fn lemma_grouped_flatten(s: Seq<ShapedGlyph>)
    ensures
        grouped(s).flatten() == s,
    decreases s.len(),
{
    if s.len() == 0 {
        assert(grouped(s).flatten() =~= s);
    } else {
        let t = s.drop_last();
        let x = s.last();
        lemma_grouped_flatten(t);
        lemma_grouped_push(t, x);
        assert(t.push(x) =~= s);
        let g = grouped(t);
        let gs = grouped(s);
        if t.len() > 0 && t.last().metadata == x.metadata {
            lemma_grouped_wf(t);
            let n = g.len() - 1;
            assert(gs =~= g.drop_last().push(g.last().push(x)));
            g.drop_last().lemma_flatten_push(g.last().push(x));
            g.drop_last().lemma_flatten_push(g.last());
            assert(g.drop_last().push(g.last()) =~= g);
            assert(gs.flatten() =~= g.flatten().push(x));
            assert(g.flatten().push(x) =~= s);
        } else {
            g.lemma_flatten_push(seq![x]);
            assert(gs.flatten() =~= g.flatten() + seq![x]);
            assert(g.flatten() + seq![x] =~= s);
        }
        assert(gs.flatten() =~= s);
    }
}

/// Order preservation at the output level: concatenating the positioned
/// glyphs of all groups, in emission order, is exactly the positioned
/// original glyph sequence.
pub proof fn lemma_order_preserved(s: Seq<ShapedGlyph>, mode: PositionMode)
    ensures
        grouped(s).map(|j: int, grp: Seq<ShapedGlyph>| spec_run_glyphs(grp, mode)).flatten()
            == spec_positioned(s, mode),
    decreases s.len(),
{
    let f = |j: int, grp: Seq<ShapedGlyph>| spec_run_glyphs(grp, mode);
    if s.len() == 0 {
        assert(grouped(s).map(f).flatten() =~= spec_positioned(s, mode));
    } else {
        let t = s.drop_last();
        let x = s.last();
        lemma_order_preserved(t, mode);
        lemma_grouped_push(t, x);
        assert(t.push(x) =~= s);
        let g = grouped(t);
        let gs = grouped(s);
        assert(spec_positioned(s, mode) =~= spec_positioned(t, mode).push(
            spec_position(x, mode),
        ));
        if t.len() > 0 && t.last().metadata == x.metadata {
            lemma_grouped_wf(t);
            let n = g.len() - 1;
            assert(gs =~= g.drop_last().push(g.last().push(x)));
            assert(gs.map(f) =~= g.drop_last().map(f).push(spec_run_glyphs(
                g.last().push(x),
                mode,
            )));
            assert(spec_run_glyphs(g.last().push(x), mode) =~= spec_run_glyphs(g.last(), mode)
                .push(spec_position(x, mode)));
            g.drop_last().map(f).lemma_flatten_push(
                spec_run_glyphs(g.last(), mode).push(spec_position(x, mode)),
            );
            g.drop_last().map(f).lemma_flatten_push(spec_run_glyphs(g.last(), mode));
            assert(g.drop_last().map(f).push(spec_run_glyphs(g.last(), mode)) =~= g.map(f));
            assert(gs.map(f).flatten() =~= g.map(f).flatten().push(spec_position(x, mode)));
        } else {
            assert(gs.map(f) =~= g.map(f).push(spec_run_glyphs(seq![x], mode)));
            g.map(f).lemma_flatten_push(spec_run_glyphs(seq![x], mode));
            assert(spec_run_glyphs(seq![x], mode) =~= seq![spec_position(x, mode)]);
            assert(gs.map(f).flatten() =~= g.map(f).flatten() + seq![spec_position(x, mode)]);
            assert(g.map(f).flatten() + seq![spec_position(x, mode)] =~= spec_positioned(
                t,
                mode,
            ).push(spec_position(x, mode)));
        }
        assert(gs.map(f).flatten() =~= spec_positioned(s, mode));
    }
}

/// Positions every glyph of the line in order, wraps them with the line's
/// metrics and the fixed default color, as one single run. Succeeds exactly
/// when the caller-supplied line height leaves a non-negative descent.
#[verifier::loop_isolation(false)]
pub fn to_single_run(line: &ShapedLine, line_height: Fx, mode: PositionMode)
    -> (r: Result<GlyphRun, RunError>)
    requires
        line_in_range(*line),
        0 <= line_height.raw <= FX_MAX_DIM,
    ensures
        r is Ok <==> spec_descent_ok(line.line_top, line.line_y, line_height),
        r matches Ok(run) ==> {
            &&& run.glyphs@ == spec_positioned(line.glyphs@, mode)
            &&& run.color == (Color(DEFAULT_GLYPH_COLOR))
            &&& run.metrics == spec_metrics(line.line_top, line.line_y, line.line_w, line_height)
        },
        r is Err ==> r == Result::<GlyphRun, RunError>::Err(RunError::NegativeDescent),
{
    let m = match metrics(line.line_top, line.line_y, line.line_w, line_height) {
        Ok(m) => m,
        Err(_) => {
            return Err(RunError::NegativeDescent);
        },
    };
    let n: usize = line.glyphs.len();
    let mut out: Vec<PositionedGlyph> = Vec::new();
    let mut i: usize = 0;
    while i < n
        invariant
            i <= n,
            out@ == spec_positioned(line.glyphs@.take(i as int), mode),
        decreases n - i,
    {
        let g = line.glyphs[i];
        out.push(position(&g, mode));
        proof {
            assert(line.glyphs@.take(i + 1) =~= line.glyphs@.take(i as int).push(
                line.glyphs@[i as int],
            ));
            assert(out@ =~= spec_positioned(line.glyphs@.take(i + 1), mode));
        }
        i += 1;
    }
    proof {
        assert(line.glyphs@.take(n as int) =~= line.glyphs@);
    }
    Ok(GlyphRun { metrics: m, color: Color(DEFAULT_GLYPH_COLOR), glyphs: out })
}

/// Partitions the line's glyphs into maximal contiguous runs of equal
/// metadata tag, preserving order, positions each glyph, resolves each
/// tag through the palette, and shares one set of metrics across all runs.
///
/// Succeeds exactly when the line height leaves a non-negative descent and
/// every tag has a palette entry; a missing entry reports the tag of the
/// first glyph whose tag is out of range, and produces no runs at all.
#[verifier::loop_isolation(false)]
pub fn to_colored_runs(
    line: &ShapedLine,
    line_height: Fx,
    palette: &Vec<Color>,
    mode: PositionMode,
) -> (r: Result<Vec<GlyphRun>, RunError>)
    requires
        line_in_range(*line),
        0 <= line_height.raw <= FX_MAX_DIM,
    ensures
        r is Ok <==> (spec_descent_ok(line.line_top, line.line_y, line_height) && !has_missing(
            line.glyphs@,
            palette@.len(),
        )),
        !spec_descent_ok(line.line_top, line.line_y, line_height) ==> r == Result::<
            Vec<GlyphRun>,
            RunError,
        >::Err(RunError::NegativeDescent),
        r matches Err(e) ==> (e matches RunError::MissingPaletteEntry { tag } ==> exists|i: int|
            {
                &&& 0 <= i < line.glyphs@.len()
                &&& (#[trigger] line.glyphs@[i]).metadata == tag
                &&& tag >= palette@.len()
                &&& forall|k: int| 0 <= k < i ==> (#[trigger] line.glyphs@[k]).metadata < palette@.len()
            }),
        r matches Ok(runs) ==> {
            &&& runs@.len() == grouped(line.glyphs@).len()
            &&& forall|j: int|
                0 <= j < runs@.len() ==> (#[trigger] runs@[j]).glyphs@ == spec_run_glyphs(
                    grouped(line.glyphs@)[j],
                    mode,
                )
            &&& forall|j: int|
                0 <= j < runs@.len() ==> (#[trigger] runs@[j]).color == palette@[grouped(
                    line.glyphs@,
                )[j][0].metadata as int]
            &&& forall|j: int|
                0 <= j < runs@.len() ==> (#[trigger] runs@[j]).metrics == spec_metrics(
                    line.line_top,
                    line.line_y,
                    line.line_w,
                    line_height,
                )
            &&& runs@.map(|j: int, run: GlyphRun| run.glyphs@).flatten() == spec_positioned(
                line.glyphs@,
                mode,
            )
        },
{
    let ghost s = line.glyphs@;
    let m = match metrics(line.line_top, line.line_y, line.line_w, line_height) {
        Ok(m) => m,
        Err(_) => {
            return Err(RunError::NegativeDescent);
        },
    };
    let n: usize = line.glyphs.len();
    let mut runs: Vec<GlyphRun> = Vec::new();
    let mut cur: Vec<PositionedGlyph> = Vec::new();
    let mut cur_color: Color = Color(0);
    let mut i: usize = 0;
    while i < n
        invariant
            i <= n,
            i == 0 ==> runs@.len() == 0 && cur@.len() == 0,
            i > 0 ==> {
                &&& grouped(s.take(i as int)).len() == runs@.len() + 1
                &&& cur@ == spec_run_glyphs(grouped(s.take(i as int)).last(), mode)
                &&& cur@.len() > 0
                &&& grouped(s.take(i as int)).last()[0].metadata < palette@.len()
                &&& cur_color == palette@[grouped(s.take(i as int)).last()[0].metadata as int]
            },
            forall|j: int|
                0 <= j < runs@.len() ==> (#[trigger] runs@[j]).glyphs@ == spec_run_glyphs(
                    grouped(s.take(i as int))[j],
                    mode,
                ),
            forall|j: int|
                0 <= j < runs@.len() ==> (#[trigger] runs@[j]).color == palette@[grouped(
                    s.take(i as int),
                )[j][0].metadata as int],
            forall|j: int| 0 <= j < runs@.len() ==> (#[trigger] runs@[j]).metrics == m,
            forall|k: int| 0 <= k < i ==> (#[trigger] s[k]).metadata < palette@.len(),
        decreases n - i,
    {
        let ghost t = s.take(i as int);
        proof {
            lemma_grouped_wf(t);
            lemma_grouped_push(t, s[i as int]);
            assert(t.push(s[i as int]) =~= s.take(i + 1));
        }
        let g = line.glyphs[i];
        let is_start: bool = i == 0 || g.metadata != line.glyphs[i - 1].metadata;
        proof {
            if i > 0 {
                assert(t.last() == s[i as int - 1]);
            }
        }
        if is_start {
            if i > 0 {
                runs.push(GlyphRun { metrics: m, color: cur_color, glyphs: cur });
                cur = Vec::new();
            }
            let tag: u32 = g.metadata;
            if tag as usize >= palette.len() {
                return Err(RunError::MissingPaletteEntry { tag });
            }
            cur_color = palette[tag as usize];
        }
        cur.push(position(&g, mode));
        proof {
            let u = s.take(i + 1);
            let gu = grouped(u);
            let gt = grouped(t);
            if i > 0 && !is_start {
                assert(gu == gt.update(gt.len() - 1, gt.last().push(s[i as int])));
                assert(gu.last() == gt.last().push(s[i as int]));
                assert(cur@ =~= spec_run_glyphs(gu.last(), mode));
                assert(gu.last()[0] == gt.last()[0]);
                assert(forall|j: int| 0 <= j < runs@.len() ==> gu[j] == gt[j]);
            } else if i > 0 {
                assert(gu == gt.push(seq![s[i as int]]));
                assert(gu.last() == seq![s[i as int]]);
                assert(cur@ =~= spec_run_glyphs(seq![s[i as int]], mode));
                assert(forall|j: int| 0 <= j < runs@.len() ==> gu[j] == gt[j]);
            } else {
                assert(gu == grouped(s.take(1)));
                assert(s.take(1).len() == 1);
                assert(gu.last() == seq![s[0]]);
                assert(cur@ =~= spec_run_glyphs(seq![s[0]], mode));
            }
        }
        i += 1;
    }
    if n > 0 {
        runs.push(GlyphRun { metrics: m, color: cur_color, glyphs: cur });
    }
    proof {
        assert(s.take(n as int) =~= s);
        lemma_grouped_wf(s);
        lemma_order_preserved(s, mode);
        assert(runs@.map(|j: int, run: GlyphRun| run.glyphs@) =~= grouped(s).map(
            |j: int, grp: Seq<ShapedGlyph>| spec_run_glyphs(grp, mode),
        ));
    }
    Ok(runs)
}

} // verus!
