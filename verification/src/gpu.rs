//! Trusted boundary to the wgpu rendering backend.
//!
//! The registry's decisions — which shader, entry point, vertex layout and
//! bind-group layout serve each primitive kind, and the fixed rasterization
//! state — are verified in [`crate::registry`]; the declarations and
//! wrappers here only carry those decisions into wgpu's resource-creation
//! calls, whose results are opaque handles.

use vstd::prelude::*;
use crate::registry::{CullSetting, FrontFaceOrder, PolygonFill, Topology};

verus! {

#[verifier::external_type_specification]
#[verifier::external_body]
pub struct ExDevice(wgpu::Device);

#[verifier::external_type_specification]
#[verifier::external_body]
pub struct ExShaderModule(wgpu::ShaderModule);

#[verifier::external_type_specification]
#[verifier::external_body]
pub struct ExPipelineLayout(wgpu::PipelineLayout);

#[verifier::external_type_specification]
#[verifier::external_body]
pub struct ExRenderPipeline(wgpu::RenderPipeline);

#[verifier::external_type_specification]
#[verifier::external_body]
pub struct ExBindGroupLayout(wgpu::BindGroupLayout);

#[verifier::external_type_specification]
#[verifier::external_body]
pub struct ExBindGroup(wgpu::BindGroup);

#[verifier::external_type_specification]
#[verifier::external_body]
pub struct ExBuffer(wgpu::Buffer);

#[verifier::external_type_specification]
#[verifier::external_body]
pub struct ExColorTargetState(wgpu::ColorTargetState);

#[verifier::external_type_specification]
#[verifier::external_body]
pub struct ExVertexBufferLayout<'a>(wgpu::VertexBufferLayout<'a>);

#[verifier::external_type_specification]
#[verifier::external_body]
pub struct ExPrimitiveState(wgpu::PrimitiveState);

#[verifier::external_type_specification]
#[verifier::external_body]
pub struct ExMultisampleState(wgpu::MultisampleState);

#[verifier::external_type_specification]
#[verifier::external_body]
pub struct ExPrimitiveTopology(wgpu::PrimitiveTopology);

#[verifier::external_type_specification]
#[verifier::external_body]
pub struct ExFrontFace(wgpu::FrontFace);

#[verifier::external_type_specification]
#[verifier::external_body]
pub struct ExFace(wgpu::Face);

#[verifier::external_type_specification]
#[verifier::external_body]
pub struct ExPolygonMode(wgpu::PolygonMode);

/// Relies on wgpu::Device::create_shader_module with a WGSL source: it
/// compiles the source into a shader module on the device. An invalid
/// source is fatal at startup, which is what the registry design asks for.
#[verifier::external_body]
pub(crate) fn create_shader_module(
    device: &wgpu::Device,
    label: &str,
    wgsl: &str,
) -> wgpu::ShaderModule {
    device.create_shader_module(wgpu::ShaderModuleDescriptor {
        label: Some(label),
        source: wgpu::ShaderSource::Wgsl(std::borrow::Cow::Borrowed(wgsl)),
    })
}

/// Relies on wgpu::Device::create_pipeline_layout: a pipeline layout over
/// the two given bind-group layouts, in order, with no push constants.
#[verifier::external_body]
pub(crate) fn create_pipeline_layout2(
    device: &wgpu::Device,
    label: &str,
    group0: &wgpu::BindGroupLayout,
    group1: &wgpu::BindGroupLayout,
) -> wgpu::PipelineLayout {
    device.create_pipeline_layout(&wgpu::PipelineLayoutDescriptor {
        label: Some(label),
        bind_group_layouts: &[group0, group1],
        push_constant_ranges: &[],
    })
}

/// Converts the renderer's topology setting to wgpu's, variant for variant.
#[verifier::external_body]
pub(crate) fn to_wgpu_topology(t: Topology) -> wgpu::PrimitiveTopology {
    match t {
        Topology::PointList => wgpu::PrimitiveTopology::PointList,
        Topology::LineList => wgpu::PrimitiveTopology::LineList,
        Topology::LineStrip => wgpu::PrimitiveTopology::LineStrip,
        Topology::TriangleList => wgpu::PrimitiveTopology::TriangleList,
        Topology::TriangleStrip => wgpu::PrimitiveTopology::TriangleStrip,
    }
}

/// Converts the renderer's front-face setting to wgpu's, variant for variant.
#[verifier::external_body]
pub(crate) fn to_wgpu_front_face(f: FrontFaceOrder) -> wgpu::FrontFace {
    match f {
        FrontFaceOrder::Ccw => wgpu::FrontFace::Ccw,
        FrontFaceOrder::Cw => wgpu::FrontFace::Cw,
    }
}

/// Converts the renderer's culling setting to wgpu's, variant for variant.
#[verifier::external_body]
pub(crate) fn to_wgpu_cull(c: CullSetting) -> Option<wgpu::Face> {
    match c {
        CullSetting::NoCulling => None,
        CullSetting::Front => Some(wgpu::Face::Front),
        CullSetting::Back => Some(wgpu::Face::Back),
    }
}

/// Converts the renderer's fill setting to wgpu's, variant for variant.
#[verifier::external_body]
pub(crate) fn to_wgpu_polygon_mode(p: PolygonFill) -> wgpu::PolygonMode {
    match p {
        PolygonFill::Fill => wgpu::PolygonMode::Fill,
        PolygonFill::Line => wgpu::PolygonMode::Line,
        PolygonFill::Point => wgpu::PolygonMode::Point,
    }
}

/// Assembles wgpu's primitive state from the given settings, with no strip
/// index format, field for field.
#[verifier::external_body]
pub(crate) fn to_primitive_state(
    topology: wgpu::PrimitiveTopology,
    front_face: wgpu::FrontFace,
    cull_mode: Option<wgpu::Face>,
    polygon_mode: wgpu::PolygonMode,
    unclipped_depth: bool,
    conservative: bool,
) -> wgpu::PrimitiveState {
    wgpu::PrimitiveState {
        topology,
        strip_index_format: None,
        front_face,
        cull_mode,
        polygon_mode,
        unclipped_depth,
        conservative,
    }
}

/// Assembles wgpu's multisample state from the given settings, field for
/// field.
#[verifier::external_body]
pub(crate) fn to_multisample_state(
    count: u32,
    mask: u64,
    alpha_to_coverage_enabled: bool,
) -> wgpu::MultisampleState {
    wgpu::MultisampleState { count, mask, alpha_to_coverage_enabled }
}

/// Relies on wgpu::Device::create_render_pipeline: one compiled pipeline
/// from the given shader entry points, vertex buffers, layout, color
/// targets and rasterization state, with no depth/stencil test and no
/// multiview, as every pipeline of this renderer is configured.
#[verifier::external_body]
pub(crate) fn create_render_pipeline(
    device: &wgpu::Device,
    label: &str,
    shader: &wgpu::ShaderModule,
    vertex_entry: &str,
    fragment_entry: &str,
    buffers: &[wgpu::VertexBufferLayout],
    layout: &wgpu::PipelineLayout,
    targets: &[Option<wgpu::ColorTargetState>],
    primitive: wgpu::PrimitiveState,
    multisample: wgpu::MultisampleState,
) -> wgpu::RenderPipeline {
    device.create_render_pipeline(&wgpu::RenderPipelineDescriptor {
        label: Some(label),
        layout: Some(layout),
        vertex: wgpu::VertexState { module: shader, entry_point: vertex_entry, buffers },
        fragment: Some(wgpu::FragmentState { module: shader, entry_point: fragment_entry, targets }),
        primitive,
        depth_stencil: None,
        multisample,
        multiview: None,
    })
}

/// Relies on wgpu::Device::create_bind_group_layout: a layout with one
/// uniform-buffer binding at the given slot, visible to the vertex stage.
#[verifier::external_body]
pub(crate) fn create_vertex_uniform_bind_group_layout(
    device: &wgpu::Device,
    label: &str,
    binding: u32,
) -> wgpu::BindGroupLayout {
    device.create_bind_group_layout(&wgpu::BindGroupLayoutDescriptor {
        label: Some(label),
        entries: &[wgpu::BindGroupLayoutEntry {
            binding,
            visibility: wgpu::ShaderStages::VERTEX,
            ty: wgpu::BindingType::Buffer {
                ty: wgpu::BufferBindingType::Uniform,
                has_dynamic_offset: false,
                min_binding_size: None,
            },
            count: None,
        }],
    })
}

/// Relies on wgpu::Device::create_bind_group: binds the whole given buffer
/// at the given slot of the given layout.
#[verifier::external_body]
pub(crate) fn create_buffer_bind_group(
    device: &wgpu::Device,
    label: &str,
    layout: &wgpu::BindGroupLayout,
    binding: u32,
    buffer: &wgpu::Buffer,
) -> wgpu::BindGroup {
    device.create_bind_group(&wgpu::BindGroupDescriptor {
        layout,
        entries: &[wgpu::BindGroupEntry { binding, resource: buffer.as_entire_binding() }],
        label: Some(label),
    })
}

} // verus!
