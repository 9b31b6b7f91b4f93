use renderer::registry::{
    all_kinds, fixed_raster, fragment_entry_name, pipeline_label, pipeline_plan,
    vertex_entry_name, BindLayoutKind, CullSetting, FrontFaceOrder, PolygonFill, PrimitiveKind,
    ShaderKind, Topology, VertexLayoutKind,
};

#[test]
fn registry_names_every_kind_once() {
    let kinds = all_kinds();
    assert_eq!(kinds.len(), 5);
    for (i, a) in kinds.iter().enumerate() {
        for b in kinds.iter().skip(i + 1) {
            assert_ne!(a, b);
        }
    }
    assert!(kinds.contains(&PrimitiveKind::PlanarGlyph));
    assert!(kinds.contains(&PrimitiveKind::SdfGlyph));
    assert!(kinds.contains(&PrimitiveKind::TextLayerGlyph));
    assert!(kinds.contains(&PrimitiveKind::Circle));
    assert!(kinds.contains(&PrimitiveKind::RoundedRect));
}

#[test]
fn glyph_shader_is_shared_with_divergent_entries() {
    let planar = pipeline_plan(PrimitiveKind::PlanarGlyph);
    let sdf = pipeline_plan(PrimitiveKind::SdfGlyph);
    assert_eq!(planar.shader, ShaderKind::Glyph);
    assert_eq!(sdf.shader, ShaderKind::Glyph);
    assert_ne!(planar.fragment_entry, sdf.fragment_entry);
    assert_eq!(fragment_entry_name(planar.fragment_entry), "fs_planar");
    assert_eq!(fragment_entry_name(sdf.fragment_entry), "fs_sdf_glyph");
    assert_eq!(planar.bind_layout, BindLayoutKind::Glyph);
    assert_eq!(sdf.bind_layout, BindLayoutKind::Glyph);
}

#[test]
fn shape_shader_is_shared_with_divergent_entries() {
    let circle = pipeline_plan(PrimitiveKind::Circle);
    let rect = pipeline_plan(PrimitiveKind::RoundedRect);
    assert_eq!(circle.shader, ShaderKind::Shape);
    assert_eq!(rect.shader, ShaderKind::Shape);
    assert_eq!(fragment_entry_name(circle.fragment_entry), "fs_sdf_circle");
    assert_eq!(fragment_entry_name(rect.fragment_entry), "fs_sdf_rounded_rect");
    assert_eq!(circle.bind_layout, BindLayoutKind::Shape);
    assert_eq!(rect.bind_layout, BindLayoutKind::Shape);
}

#[test]
fn text_layer_uses_colored_vertices() {
    let plan = pipeline_plan(PrimitiveKind::TextLayerGlyph);
    assert_eq!(plan.shader, ShaderKind::TextLayer);
    assert_eq!(plan.vertex_layout, VertexLayoutKind::TextureColor);
    assert_eq!(plan.bind_layout, BindLayoutKind::TextLayer);
    assert_eq!(fragment_entry_name(plan.fragment_entry), "fs_sdf_glyph");
    let planar = pipeline_plan(PrimitiveKind::PlanarGlyph);
    assert_eq!(planar.vertex_layout, VertexLayoutKind::Texture);
}

#[test]
fn every_pipeline_shares_one_vertex_entry() {
    assert_eq!(vertex_entry_name(), "vs_main");
}

#[test]
fn pipeline_labels_are_distinct() {
    let kinds = all_kinds();
    let labels: Vec<&str> = kinds.iter().map(|k| pipeline_label(*k)).collect();
    for (i, a) in labels.iter().enumerate() {
        for b in labels.iter().skip(i + 1) {
            assert_ne!(a, b);
        }
    }
    assert_eq!(pipeline_label(PrimitiveKind::PlanarGlyph), "Planar Glyph Pipeline");
}

#[test]
fn fixed_rasterization_state() {
    let rc = fixed_raster();
    assert_eq!(rc.topology, Topology::TriangleList);
    assert_eq!(rc.front_face, FrontFaceOrder::Ccw);
    assert_eq!(rc.cull, CullSetting::Back);
    assert_eq!(rc.fill, PolygonFill::Fill);
    assert!(!rc.unclipped_depth);
    assert!(!rc.conservative);
    assert_eq!(rc.sample_count, 1);
    assert_eq!(rc.sample_mask, u64::MAX);
    assert!(!rc.alpha_to_coverage);
}
