use bevy_smud::asset::{AssetKey, ShaderPair};
use bevy_smud::components::BlendMode;
use bevy_smud::pipeline_key::{
    shape_key, view_key, DebandDither, PipelineKey, PrimitiveTopology, Tonemapping,
    BLEND_ADDITIVE, DEBAND_DITHER, HDR, TONEMAP_IN_SHADER,
};
use bevy_smud::shader_table::SmudPipeline;
use bevy_smud::pipeline_spec::{
    blend_state, pack_vertex_fields, shader_defs, shape_vertex_layout, specialize, specialize_ui,
    ui_vertex_layout, BlendComponent, BlendFactor, BlendOperation, BlendState, Face, ShaderDef,
    SmudPipelineKey, TargetFormat, UiShapePipelineKey, VertexFormat,
};

#[test]
fn msaa_samples_are_packed_in_the_top_bits() {
    assert_eq!(PipelineKey::from_msaa_samples(1).bits, 0);
    assert_eq!(PipelineKey::from_msaa_samples(4).bits, 2 << 29);
    assert_eq!(PipelineKey::from_msaa_samples(8).bits, 3 << 29);
    for k in 0..8u32 {
        let samples = 1u32 << k;
        assert_eq!(PipelineKey::from_msaa_samples(samples).msaa_samples(), samples);
    }
}

#[test]
fn msaa_keeps_only_three_bits_of_trailing_zeros() {
    // 256 has eight trailing zeros; only the low three bits (0) are kept.
    assert_eq!(PipelineKey::from_msaa_samples(256).msaa_samples(), 1);
    // 0 has 32 trailing zeros, 32 & 7 == 0.
    assert_eq!(PipelineKey::from_msaa_samples(0).msaa_samples(), 1);
    // 12 has two trailing zeros.
    assert_eq!(PipelineKey::from_msaa_samples(12).msaa_samples(), 4);
}

#[test]
fn topology_round_trips() {
    for t in [
        PrimitiveTopology::PointList,
        PrimitiveTopology::LineList,
        PrimitiveTopology::LineStrip,
        PrimitiveTopology::TriangleList,
        PrimitiveTopology::TriangleStrip,
    ] {
        let key = PipelineKey::from_primitive_topology(t)
            .union(PipelineKey::from_msaa_samples(4))
            .union(PipelineKey::from_bits_retain(HDR));
        assert_eq!(key.primitive_topology(), t);
    }
    assert_eq!(PipelineKey::from_primitive_topology(PrimitiveTopology::TriangleStrip).bits, 4 << 26);
}

#[test]
fn unknown_topology_code_gives_the_default() {
    assert_eq!(
        PipelineKey::from_bits_retain(6 << 26).primitive_topology(),
        PrimitiveTopology::TriangleList
    );
    assert_eq!(PrimitiveTopology::default(), PrimitiveTopology::TriangleList);
}

#[test]
fn tonemapping_round_trips() {
    let all = [
        Tonemapping::Bypass,
        Tonemapping::Reinhard,
        Tonemapping::ReinhardLuminance,
        Tonemapping::AcesFitted,
        Tonemapping::AgX,
        Tonemapping::SomewhatBoringDisplayTransform,
        Tonemapping::TonyMcMapface,
        Tonemapping::BlenderFilmic,
    ];
    for (code, t) in all.iter().enumerate() {
        let key = PipelineKey::from_tonemapping(*t);
        assert_eq!(key.bits, (code as u32) << 23);
        assert_eq!(key.union(PipelineKey::from_bits_retain(0xFF)).tonemap_method(), *t);
    }
}

#[test]
fn flags_and_set_operations() {
    let key = PipelineKey::from_bits_retain(HDR | BLEND_ADDITIVE);
    assert!(key.contains(PipelineKey::from_bits_retain(HDR)));
    assert!(!key.contains(PipelineKey::from_bits_retain(HDR | DEBAND_DITHER)));
    assert_eq!(key.intersection(PipelineKey::from_bits_retain(BLEND_ADDITIVE | DEBAND_DITHER)).bits(), BLEND_ADDITIVE);
    assert_eq!(PipelineKey::from_hdr(true).bits, HDR);
    assert_eq!(PipelineKey::from_hdr(false).bits, 0);
    assert_eq!(PipelineKey::from_blend_mode(BlendMode::Additive).bits, BLEND_ADDITIVE);
    assert_eq!(PipelineKey::from_blend_mode(BlendMode::Alpha).bits, 0);
    assert_eq!(BlendMode::default(), BlendMode::Alpha);
}

#[test]
fn sdr_view_key_with_tonemapping_and_dither() {
    let key = view_key(4, false, Some(Tonemapping::TonyMcMapface), Some(DebandDither::Enabled));
    let expected = (2u32 << 29) | (4 << 26) | TONEMAP_IN_SHADER | (6 << 23) | DEBAND_DITHER;
    assert_eq!(key.bits, expected);
}

#[test]
fn hdr_view_key_ignores_tonemapping_and_dither() {
    let key = view_key(1, true, Some(Tonemapping::AgX), Some(DebandDither::Enabled));
    assert_eq!(key.bits, HDR | (4 << 26));
    let shape = shape_key(key, BlendMode::Additive);
    assert_eq!(shape.bits, HDR | (4 << 26) | BLEND_ADDITIVE);
}

#[test]
fn dither_without_tonemapping_sets_the_flag_only() {
    let key = view_key(1, false, None, Some(DebandDither::Enabled));
    assert_eq!(key.bits, (4 << 26) | DEBAND_DITHER);
    assert!(shader_defs(key).is_empty());
}

fn names(defs: &[ShaderDef]) -> Vec<String> {
    defs.iter().map(|d| d.name()).collect()
}

#[test]
fn shader_defs_follow_the_view() {
    let key = view_key(4, false, Some(Tonemapping::AcesFitted), Some(DebandDither::Enabled));
    let defs = shader_defs(key);
    assert_eq!(
        names(&defs),
        vec![
            "TONEMAP_IN_SHADER",
            "TONEMAPPING_LUT_TEXTURE_BINDING_INDEX",
            "TONEMAPPING_LUT_SAMPLER_BINDING_INDEX",
            "TONEMAP_METHOD_ACES_FITTED",
            "DEBAND_DITHER",
        ]
    );
    assert_eq!(defs[1].value(), Some(2));
    assert_eq!(defs[2].value(), Some(3));
    assert_eq!(defs[0].value(), None);

    let no_dither = shader_defs(view_key(4, false, Some(Tonemapping::Bypass), None));
    assert_eq!(names(&no_dither).last().unwrap(), "TONEMAP_METHOD_NONE");
    assert_eq!(no_dither.len(), 4);
}

#[test]
fn every_tonemap_method_has_its_definition() {
    let expected = [
        (Tonemapping::Bypass, "TONEMAP_METHOD_NONE"),
        (Tonemapping::Reinhard, "TONEMAP_METHOD_REINHARD"),
        (Tonemapping::ReinhardLuminance, "TONEMAP_METHOD_REINHARD_LUMINANCE"),
        (Tonemapping::AcesFitted, "TONEMAP_METHOD_ACES_FITTED"),
        (Tonemapping::AgX, "TONEMAP_METHOD_AGX"),
        (Tonemapping::SomewhatBoringDisplayTransform, "TONEMAP_METHOD_SOMEWHAT_BORING_DISPLAY_TRANSFORM"),
        (Tonemapping::TonyMcMapface, "TONEMAP_METHOD_TONY_MC_MAPFACE"),
        (Tonemapping::BlenderFilmic, "TONEMAP_METHOD_BLENDER_FILMIC"),
    ];
    for (t, name) in expected {
        let defs = shader_defs(view_key(1, false, Some(t), None));
        assert_eq!(defs[3], ShaderDef::TonemapMethod(t));
        assert_eq!(defs[3].name(), name);
    }
}

#[test]
fn vertex_layout_matches_the_shape_vertex() {
    let layout = shape_vertex_layout();
    assert_eq!(layout.array_stride, 64);
    let offsets: Vec<u64> = layout.attributes.iter().map(|a| a.offset).collect();
    assert_eq!(offsets, vec![0, 16, 24, 40, 52, 60]);
    let locations: Vec<u32> = layout.attributes.iter().map(|a| a.shader_location).collect();
    assert_eq!(locations, vec![1, 5, 2, 0, 3, 4]);
    assert_eq!(layout.attributes[3].format, VertexFormat::Float32x3);
    assert_eq!(layout.attributes[5].format, VertexFormat::Float32);
}

#[test]
fn specialize_reads_the_key() {
    let shader = ShaderPair { sdf: AssetKey::Index(1), fill: AssetKey::Index(2) };
    let view = view_key(8, false, Some(Tonemapping::Reinhard), None);
    let key = SmudPipelineKey { mesh: shape_key(view, BlendMode::Additive), shader, hdr: false };
    let spec = specialize(key);
    assert_eq!(spec.msaa_samples, 8);
    assert_eq!(spec.topology, PrimitiveTopology::TriangleStrip);
    assert_eq!(spec.blend, BlendMode::Additive);
    assert_eq!(spec.blend_state, blend_state(BlendMode::Additive));
    assert_eq!(spec.target_format, TargetFormat::Default);
    assert_eq!(spec.cull_mode, Some(Face::Back));
    assert!(spec.depth_test);
    assert_eq!(spec.shader_defs.len(), 4);
    assert_eq!(spec.vertex_layout.array_stride, 64);

    let hdr = specialize(SmudPipelineKey {
        mesh: shape_key(view_key(1, true, None, None), BlendMode::Alpha),
        shader,
        hdr: true,
    });
    assert_eq!(hdr.target_format, TargetFormat::Hdr);
    assert_eq!(hdr.blend, BlendMode::Alpha);
    assert!(hdr.shader_defs.is_empty());
    assert_eq!(hdr.msaa_samples, 1);
}

#[test]
fn ui_vertex_layout_matches_the_ui_vertex() {
    let layout = ui_vertex_layout();
    assert_eq!(layout.array_stride, 72);
    let offsets: Vec<u64> = layout.attributes.iter().map(|a| a.offset).collect();
    assert_eq!(offsets, vec![0, 12, 28, 44, 52, 56]);
    let locations: Vec<u32> = layout.attributes.iter().map(|a| a.shader_location).collect();
    assert_eq!(locations, vec![0, 1, 2, 3, 4, 5]);
}

#[test]
fn ui_pipeline_follows_its_key() {
    let spec = specialize_ui(UiShapePipelineKey { shader: AssetKey::Index(9), blend_mode: BlendMode::Additive });
    assert_eq!(spec.fragment_shader, AssetKey::Index(9));
    assert_eq!(
        spec.blend_state,
        BlendState {
            color: BlendComponent {
                src_factor: BlendFactor::SrcAlpha,
                dst_factor: BlendFactor::One,
                operation: BlendOperation::Add,
            },
            alpha: BlendComponent {
                src_factor: BlendFactor::One,
                dst_factor: BlendFactor::One,
                operation: BlendOperation::Add,
            },
        }
    );
    assert_eq!(spec.cull_mode, None);
    assert!(!spec.depth_test);
    assert_eq!(spec.target_format, TargetFormat::Rgba8UnormSrgb);
    let alpha = specialize_ui(UiShapePipelineKey { shader: "s", blend_mode: BlendMode::Alpha });
    assert_eq!(alpha.fragment_shader, "s");
    assert_eq!(
        alpha.blend_state,
        BlendState {
            color: BlendComponent {
                src_factor: BlendFactor::SrcAlpha,
                dst_factor: BlendFactor::OneMinusSrcAlpha,
                operation: BlendOperation::Add,
            },
            alpha: BlendComponent {
                src_factor: BlendFactor::One,
                dst_factor: BlendFactor::OneMinusSrcAlpha,
                operation: BlendOperation::Add,
            },
        }
    );
    assert_eq!(spec.msaa_samples, 1);
    assert_eq!(spec.topology, PrimitiveTopology::TriangleStrip);
    assert_eq!(spec.vertex_shader_defs, vec![ShaderDef::YDown]);
    assert_eq!(spec.vertex_shader_defs[0].name(), "Y_DOWN");
    assert_eq!(spec.vertex_layout.array_stride, 72);
}

#[test]
fn packing_an_empty_layout() {
    let layout = pack_vertex_fields(&vec![]);
    assert_eq!(layout.array_stride, 0);
    assert!(layout.attributes.is_empty());
    let one = pack_vertex_fields(&vec![(VertexFormat::Float32x2, 7)]);
    assert_eq!(one.array_stride, 8);
    assert_eq!(one.attributes[0].shader_location, 7);
    assert_eq!(VertexFormat::Float32x3.size(), 12);
}

#[test]
fn shape_pipeline_draws_with_the_generated_shader() {
    let first = ShaderPair { sdf: AssetKey::Index(1), fill: AssetKey::Index(2) };
    let second = ShaderPair { sdf: AssetKey::Index(2), fill: AssetKey::Index(1) };
    let mut pipeline: SmudPipeline<String> = SmudPipeline::new();
    pipeline.shaders.insert(first, "generated::first".to_string());
    pipeline.shaders.insert(second, "generated::second".to_string());

    let key = SmudPipelineKey {
        mesh: shape_key(view_key(4, false, None, None), BlendMode::Alpha),
        shader: second,
        hdr: false,
    };
    let (spec, shader) = pipeline.specialize(key);
    assert_eq!(shader, "generated::second");
    assert_eq!(spec.msaa_samples, 4);
    assert_eq!(spec.blend, BlendMode::Alpha);
    assert_eq!(spec.target_format, TargetFormat::Default);

    let (_, shader) = pipeline.specialize(SmudPipelineKey { shader: first, ..key });
    assert_eq!(shader, "generated::first");
}
