//! Pipeline registry.
//!
//! Builds the fixed table binding each renderable primitive kind to a
//! compiled draw pipeline. Two shader programs are shared across three
//! pipeline variants by varying only the fragment entry point: one glyph
//! program serves the planar and the signed-distance-field glyph modes,
//! and one shape program serves both circle and rounded-rect rendering.
//! All five pipelines share one fixed rasterization state. The table is
//! built once at startup and rebuilt in full when the output color-target
//! formats change.

use vstd::prelude::*;
use crate::gpu;

verus! {

/// Which compiled pipeline renders a given draw batch.
#[derive(Clone, Copy, PartialEq, Eq, Structural, Hash, Debug)]
pub enum PrimitiveKind {
    /// Plain alpha-textured glyphs.
    PlanarGlyph,
    /// Signed-distance-field glyphs.
    SdfGlyph,
    /// Glyphs of a text layer, with per-vertex color.
    TextLayerGlyph,
    /// Signed-distance-field circles.
    Circle,
    /// Signed-distance-field rounded rectangles.
    RoundedRect,
}

/// Which of the three compiled shader programs a pipeline draws with.
#[derive(Clone, Copy, PartialEq, Eq, Structural, Debug)]
pub enum ShaderKind {
    /// The glyph program, shared by the planar and SDF glyph pipelines.
    Glyph,
    /// The text-layer program.
    TextLayer,
    /// The shape program, shared by the circle and rounded-rect pipelines.
    Shape,
}

/// Which fragment entry point a pipeline enters its shader program at.
#[derive(Clone, Copy, PartialEq, Eq, Structural, Debug)]
pub enum FragmentEntry {
    Planar,
    SdfGlyph,
    SdfCircle,
    SdfRoundedRect,
}

/// Which vertex buffer layout a pipeline consumes.
#[derive(Clone, Copy, PartialEq, Eq, Structural, Debug)]
pub enum VertexLayoutKind {
    /// Position and texture coordinates.
    Texture,
    /// Position, texture coordinates and color.
    TextureColor,
}

/// Which resource-binding layout a pipeline is wired to; every one of them
/// starts with the shared view-projection group.
#[derive(Clone, Copy, PartialEq, Eq, Structural, Debug)]
pub enum BindLayoutKind {
    /// View projection plus the glyph texture group.
    Glyph,
    /// View projection plus the text-layer group.
    TextLayer,
    /// View projection plus the per-shape uniform group.
    Shape,
}

/// The shader/entry/layout combination one pipeline is built from.
#[derive(Clone, Copy, PartialEq, Eq, Structural, Debug)]
pub struct PipelinePlan {
    pub shader: ShaderKind,
    pub fragment_entry: FragmentEntry,
    pub vertex_layout: VertexLayoutKind,
    pub bind_layout: BindLayoutKind,
}

/// Primitive topology of a draw pipeline.
#[derive(Clone, Copy, PartialEq, Eq, Structural, Debug)]
pub enum Topology {
    PointList,
    LineList,
    LineStrip,
    TriangleList,
    TriangleStrip,
}

/// Winding order that counts as front-facing.
#[derive(Clone, Copy, PartialEq, Eq, Structural, Debug)]
pub enum FrontFaceOrder {
    Ccw,
    Cw,
}

/// Which faces are culled.
#[derive(Clone, Copy, PartialEq, Eq, Structural, Debug)]
pub enum CullSetting {
    NoCulling,
    Front,
    Back,
}

/// How polygons are rasterized.
#[derive(Clone, Copy, PartialEq, Eq, Structural, Debug)]
pub enum PolygonFill {
    Fill,
    Line,
    Point,
}

/// The rasterization and multisampling state a pipeline is built with.
#[derive(Clone, Copy, PartialEq, Eq, Structural, Debug)]
pub struct RasterConfig {
    pub topology: Topology,
    pub front_face: FrontFaceOrder,
    pub cull: CullSetting,
    pub fill: PolygonFill,
    pub unclipped_depth: bool,
    pub conservative: bool,
    pub sample_count: u32,
    pub sample_mask: u64,
    pub alpha_to_coverage: bool,
}

/// The one rasterization state every pipeline of this renderer shares:
/// triangle-list topology, counter-clockwise front faces, back-face
/// culling, fill mode, single-sample multisampling with a full mask.
pub open spec fn spec_fixed_raster() -> RasterConfig {
    RasterConfig {
        topology: Topology::TriangleList,
        front_face: FrontFaceOrder::Ccw,
        cull: CullSetting::Back,
        fill: PolygonFill::Fill,
        unclipped_depth: false,
        conservative: false,
        sample_count: 1,
        sample_mask: 0xFFFF_FFFF_FFFF_FFFF,
        alpha_to_coverage: false,
    }
}

/// Builds the fixed rasterization state shared by all pipelines.
pub fn fixed_raster() -> (r: RasterConfig)
    ensures
        r == spec_fixed_raster(),
{
    RasterConfig {
        topology: Topology::TriangleList,
        front_face: FrontFaceOrder::Ccw,
        cull: CullSetting::Back,
        fill: PolygonFill::Fill,
        unclipped_depth: false,
        conservative: false,
        sample_count: 1,
        sample_mask: 0xFFFF_FFFF_FFFF_FFFF,
        alpha_to_coverage: false,
    }
}

/// The registry's emission order: every primitive kind exactly once.
pub open spec fn spec_all_kinds() -> Seq<PrimitiveKind> {
    seq![
        PrimitiveKind::PlanarGlyph,
        PrimitiveKind::SdfGlyph,
        PrimitiveKind::TextLayerGlyph,
        PrimitiveKind::Circle,
        PrimitiveKind::RoundedRect,
    ]
}

/// The shader/entry/layout combination that renders each primitive kind.
pub open spec fn spec_plan(kind: PrimitiveKind) -> PipelinePlan {
    match kind {
        PrimitiveKind::PlanarGlyph => PipelinePlan {
            shader: ShaderKind::Glyph,
            fragment_entry: FragmentEntry::Planar,
            vertex_layout: VertexLayoutKind::Texture,
            bind_layout: BindLayoutKind::Glyph,
        },
        PrimitiveKind::SdfGlyph => PipelinePlan {
            shader: ShaderKind::Glyph,
            fragment_entry: FragmentEntry::SdfGlyph,
            vertex_layout: VertexLayoutKind::Texture,
            bind_layout: BindLayoutKind::Glyph,
        },
        PrimitiveKind::TextLayerGlyph => PipelinePlan {
            shader: ShaderKind::TextLayer,
            fragment_entry: FragmentEntry::SdfGlyph,
            vertex_layout: VertexLayoutKind::TextureColor,
            bind_layout: BindLayoutKind::TextLayer,
        },
        PrimitiveKind::Circle => PipelinePlan {
            shader: ShaderKind::Shape,
            fragment_entry: FragmentEntry::SdfCircle,
            vertex_layout: VertexLayoutKind::Texture,
            bind_layout: BindLayoutKind::Shape,
        },
        PrimitiveKind::RoundedRect => PipelinePlan {
            shader: ShaderKind::Shape,
            fragment_entry: FragmentEntry::SdfRoundedRect,
            vertex_layout: VertexLayoutKind::Texture,
            bind_layout: BindLayoutKind::Shape,
        },
    }
}

/// Selects the shader, fragment entry point, vertex layout and bind-group
/// layout that render the given primitive kind.
pub fn pipeline_plan(kind: PrimitiveKind) -> (p: PipelinePlan)
    ensures
        p == spec_plan(kind),
{
    match kind {
        PrimitiveKind::PlanarGlyph => PipelinePlan {
            shader: ShaderKind::Glyph,
            fragment_entry: FragmentEntry::Planar,
            vertex_layout: VertexLayoutKind::Texture,
            bind_layout: BindLayoutKind::Glyph,
        },
        PrimitiveKind::SdfGlyph => PipelinePlan {
            shader: ShaderKind::Glyph,
            fragment_entry: FragmentEntry::SdfGlyph,
            vertex_layout: VertexLayoutKind::Texture,
            bind_layout: BindLayoutKind::Glyph,
        },
        PrimitiveKind::TextLayerGlyph => PipelinePlan {
            shader: ShaderKind::TextLayer,
            fragment_entry: FragmentEntry::SdfGlyph,
            vertex_layout: VertexLayoutKind::TextureColor,
            bind_layout: BindLayoutKind::TextLayer,
        },
        PrimitiveKind::Circle => PipelinePlan {
            shader: ShaderKind::Shape,
            fragment_entry: FragmentEntry::SdfCircle,
            vertex_layout: VertexLayoutKind::Texture,
            bind_layout: BindLayoutKind::Shape,
        },
        PrimitiveKind::RoundedRect => PipelinePlan {
            shader: ShaderKind::Shape,
            fragment_entry: FragmentEntry::SdfRoundedRect,
            vertex_layout: VertexLayoutKind::Texture,
            bind_layout: BindLayoutKind::Shape,
        },
    }
}

/// The one vertex entry point every pipeline enters its shader at.
pub open spec fn spec_vertex_entry_name() -> Seq<char> {
    "vs_main"@
}

/// The fragment entry point name for each entry selector.
pub open spec fn spec_fragment_entry_name(e: FragmentEntry) -> Seq<char> {
    match e {
        FragmentEntry::Planar => "fs_planar"@,
        FragmentEntry::SdfGlyph => "fs_sdf_glyph"@,
        FragmentEntry::SdfCircle => "fs_sdf_circle"@,
        FragmentEntry::SdfRoundedRect => "fs_sdf_rounded_rect"@,
    }
}

/// The label each pipeline is created under.
pub open spec fn spec_pipeline_label(kind: PrimitiveKind) -> Seq<char> {
    match kind {
        PrimitiveKind::PlanarGlyph => "Planar Glyph Pipeline"@,
        PrimitiveKind::SdfGlyph => "SDF Glyph Pipeline"@,
        PrimitiveKind::TextLayerGlyph => "Text Layer Pipeline"@,
        PrimitiveKind::Circle => "Circle Pipeline"@,
        PrimitiveKind::RoundedRect => "Rounded Rect Pipeline"@,
    }
}

/// The vertex entry point name.
pub fn vertex_entry_name() -> (r: &'static str)
    ensures
        r@ == spec_vertex_entry_name(),
{
    "vs_main"
}

/// The fragment entry point name for the given selector.
pub fn fragment_entry_name(e: FragmentEntry) -> (r: &'static str)
    ensures
        r@ == spec_fragment_entry_name(e),
{
    match e {
        FragmentEntry::Planar => "fs_planar",
        FragmentEntry::SdfGlyph => "fs_sdf_glyph",
        FragmentEntry::SdfCircle => "fs_sdf_circle",
        FragmentEntry::SdfRoundedRect => "fs_sdf_rounded_rect",
    }
}

/// The label the given kind's pipeline is created under.
pub fn pipeline_label(kind: PrimitiveKind) -> (r: &'static str)
    ensures
        r@ == spec_pipeline_label(kind),
{
    match kind {
        PrimitiveKind::PlanarGlyph => "Planar Glyph Pipeline",
        PrimitiveKind::SdfGlyph => "SDF Glyph Pipeline",
        PrimitiveKind::TextLayerGlyph => "Text Layer Pipeline",
        PrimitiveKind::Circle => "Circle Pipeline",
        PrimitiveKind::RoundedRect => "Rounded Rect Pipeline",
    }
}

/// The registry's emission order, as a vector.
pub fn all_kinds() -> (v: Vec<PrimitiveKind>)
    ensures
        v@ == spec_all_kinds(),
{
    let mut v: Vec<PrimitiveKind> = Vec::new();
    v.push(PrimitiveKind::PlanarGlyph);
    v.push(PrimitiveKind::SdfGlyph);
    v.push(PrimitiveKind::TextLayerGlyph);
    v.push(PrimitiveKind::Circle);
    v.push(PrimitiveKind::RoundedRect);
    proof {
        assert(v@ =~= spec_all_kinds());
    }
    v
}

/// Registry completeness: the emission order names every declared
/// primitive kind exactly once — no duplicates and no omissions — so a
/// table built in that order holds exactly one pipeline per kind.
pub proof fn lemma_registry_complete()
    ensures
        spec_all_kinds().len() == 5,
        forall|k: PrimitiveKind| spec_all_kinds().contains(k),
        forall|i: int, j: int|
            0 <= i < j < spec_all_kinds().len() ==> spec_all_kinds()[i] != spec_all_kinds()[j],
{
    assert forall|k: PrimitiveKind| spec_all_kinds().contains(k) by {
        match k {
            PrimitiveKind::PlanarGlyph => assert(spec_all_kinds()[0] == k),
            PrimitiveKind::SdfGlyph => assert(spec_all_kinds()[1] == k),
            PrimitiveKind::TextLayerGlyph => assert(spec_all_kinds()[2] == k),
            PrimitiveKind::Circle => assert(spec_all_kinds()[3] == k),
            PrimitiveKind::RoundedRect => assert(spec_all_kinds()[4] == k),
        }
    }
}

/// Builds one pipeline: the given shader and fragment entry, the shared
/// vertex entry, the given vertex buffers, layout and color targets, under
/// the fixed rasterization state.
fn create_pipeline<'a>(
    label: &str,
    device: &wgpu::Device,
    shader: &wgpu::ShaderModule,
    fragment_shader_entry: &str,
    vert_layout: &[wgpu::VertexBufferLayout<'a>],
    render_pipeline_layout: &wgpu::PipelineLayout,
    targets: &[Option<wgpu::ColorTargetState>],
) -> wgpu::RenderPipeline {
    let rc = fixed_raster();
    let topology = gpu::to_wgpu_topology(rc.topology);
    let front_face = gpu::to_wgpu_front_face(rc.front_face);
    let cull_mode = gpu::to_wgpu_cull(rc.cull);
    let polygon_mode = gpu::to_wgpu_polygon_mode(rc.fill);
    let primitive = gpu::to_primitive_state(
        topology,
        front_face,
        cull_mode,
        polygon_mode,
        rc.unclipped_depth,
        rc.conservative,
    );
    let multisample = gpu::to_multisample_state(
        rc.sample_count,
        rc.sample_mask,
        rc.alpha_to_coverage,
    );
    let vertex_entry = vertex_entry_name();
    gpu::create_render_pipeline(
        device,
        label,
        shader,
        vertex_entry,
        fragment_shader_entry,
        vert_layout,
        render_pipeline_layout,
        targets,
        primitive,
        multisample,
    )
}

/// Builds the full pipeline table: one compiled pipeline per primitive
/// kind, in the registry's emission order, each wired to the shader,
/// fragment entry point, vertex layout and bind-group layouts that
/// [`spec_plan`] assigns it. Must be rebuilt in full when the color-target
/// format set changes.
#[verifier::loop_isolation(false)]
pub fn create<'a>(
    device: &wgpu::Device,
    view_projection_bind_group_layout: &wgpu::BindGroupLayout,
    texture_bind_group_layout: &wgpu::BindGroupLayout,
    text_layer_bind_group_layout: &wgpu::BindGroupLayout,
    shape_bind_group_layout: &wgpu::BindGroupLayout,
    targets: &[Option<wgpu::ColorTargetState>],
    glyph_shader_wgsl: &str,
    text_layer_shader_wgsl: &str,
    shape_shader_wgsl: &str,
    texture_vertex_layout: &[wgpu::VertexBufferLayout<'a>],
    text_layer_vertex_layout: &[wgpu::VertexBufferLayout<'a>],
) -> (r: Vec<(PrimitiveKind, wgpu::RenderPipeline)>)
    ensures
        r@.len() == spec_all_kinds().len(),
        forall|i: int| 0 <= i < r@.len() ==> (#[trigger] r@[i]).0 == spec_all_kinds()[i],
{
    let glyph_shader = gpu::create_shader_module(device, "Glyph Shader", glyph_shader_wgsl);
    let text_layer_shader = gpu::create_shader_module(
        device,
        "Text Layer Shader",
        text_layer_shader_wgsl,
    );
    let shape_shader = gpu::create_shader_module(device, "Shape Shader", shape_shader_wgsl);

    let glyph_pipeline_layout = gpu::create_pipeline_layout2(
        device,
        "Glyph Pipeline Layout",
        view_projection_bind_group_layout,
        texture_bind_group_layout,
    );
    let text_layer_pipeline_layout = gpu::create_pipeline_layout2(
        device,
        "Text Layer Pipeline Layout",
        view_projection_bind_group_layout,
        text_layer_bind_group_layout,
    );
    let shape_pipeline_layout = gpu::create_pipeline_layout2(
        device,
        "Shape Pipeline Layout",
        view_projection_bind_group_layout,
        shape_bind_group_layout,
    );

    let kinds = all_kinds();
    let mut out: Vec<(PrimitiveKind, wgpu::RenderPipeline)> = Vec::new();
    let mut idx: usize = 0;
    while idx < kinds.len()
        invariant
            idx <= kinds@.len(),
            out@.len() == idx,
            forall|i: int| 0 <= i < out@.len() ==> (#[trigger] out@[i]).0 == spec_all_kinds()[i],
        decreases kinds@.len() - idx,
    {
        let kind = kinds[idx];
        let plan = pipeline_plan(kind);
        let shader: &wgpu::ShaderModule = match plan.shader {
            ShaderKind::Glyph => &glyph_shader,
            ShaderKind::TextLayer => &text_layer_shader,
            ShaderKind::Shape => &shape_shader,
        };
        let layout: &wgpu::PipelineLayout = match plan.bind_layout {
            BindLayoutKind::Glyph => &glyph_pipeline_layout,
            BindLayoutKind::TextLayer => &text_layer_pipeline_layout,
            BindLayoutKind::Shape => &shape_pipeline_layout,
        };
        let vert_layout: &[wgpu::VertexBufferLayout<'a>] = match plan.vertex_layout {
            VertexLayoutKind::Texture => texture_vertex_layout,
            VertexLayoutKind::TextureColor => text_layer_vertex_layout,
        };
        let entry = fragment_entry_name(plan.fragment_entry);
        let label = pipeline_label(kind);
        let pipeline = create_pipeline(label, device, shader, entry, vert_layout, layout, targets);
        out.push((kind, pipeline));
        idx += 1;
    }
    out
}

/// Builds the shared camera/view-projection bind-group layout and its
/// bound instance over the given uniform buffer: a single shared resource,
/// used by every pipeline of the registry, not duplicated per pipeline.
pub fn create_view_projection_bind_group(
    device: &wgpu::Device,
    view_projection_buffer: &wgpu::Buffer,
) -> (wgpu::BindGroupLayout, wgpu::BindGroup) {
    let layout = gpu::create_vertex_uniform_bind_group_layout(
        device,
        "Camera Bind Group Layout",
        0,
    );
    let bind_group = gpu::create_buffer_bind_group(
        device,
        "Camera Bind Group",
        &layout,
        0,
        view_projection_buffer,
    );
    (layout, bind_group)
}

} // verus!
