use femtovg::blend::{
    blend_factor, blend_state, replace_blend_state, BlendFactor, BlendOperation,
    CompositeOperationState, GpuBlendFactor,
};
use femtovg::params::ShaderType;
use femtovg::pipeline::{
    entry_point_name, ignore_stencil, CompareFunction, Face, FrontFace, PipelineState, PrimitiveTopology,
    StencilOperation, StencilTest, TextureFormat, VertexFormat,
};
use femtovg::stencil::{
    concave_fill_stencil, cover_stencil, fill_rule_mask, fringe_stencil, stroke_aa_stencil,
    stroke_base_stencil, stroke_clear_stencil, FillRule,
};

const ALL_FACTORS: [BlendFactor; 11] = [
    BlendFactor::Zero,
    BlendFactor::One,
    BlendFactor::SrcColor,
    BlendFactor::OneMinusSrcColor,
    BlendFactor::DstColor,
    BlendFactor::OneMinusDstColor,
    BlendFactor::SrcAlpha,
    BlendFactor::OneMinusSrcAlpha,
    BlendFactor::DstAlpha,
    BlendFactor::OneMinusDstAlpha,
    BlendFactor::SrcAlphaSaturate,
];

#[test]
fn blend_factor_translates_each_factor() {
    let expected = [
        GpuBlendFactor::Zero,
        GpuBlendFactor::One,
        GpuBlendFactor::Src,
        GpuBlendFactor::OneMinusSrc,
        GpuBlendFactor::Dst,
        GpuBlendFactor::OneMinusDst,
        GpuBlendFactor::SrcAlpha,
        GpuBlendFactor::OneMinusSrcAlpha,
        GpuBlendFactor::DstAlpha,
        GpuBlendFactor::OneMinusDstAlpha,
        GpuBlendFactor::SrcAlphaSaturated,
    ];
    for (f, e) in ALL_FACTORS.iter().zip(expected.iter()) {
        assert_eq!(blend_factor(*f), *e);
    }
}

#[test]
fn blend_factor_is_injective() {
    for a in ALL_FACTORS.iter() {
        for b in ALL_FACTORS.iter() {
            assert_eq!(blend_factor(*a) == blend_factor(*b), a == b);
        }
    }
}

#[test]
fn source_over_blend_state() {
    let op = CompositeOperationState {
        src_rgb: BlendFactor::One,
        src_alpha: BlendFactor::One,
        dst_rgb: BlendFactor::OneMinusSrcAlpha,
        dst_alpha: BlendFactor::OneMinusSrcAlpha,
    };
    let s = blend_state(op);
    assert_eq!(s.color.src_factor, GpuBlendFactor::One);
    assert_eq!(s.color.dst_factor, GpuBlendFactor::OneMinusSrcAlpha);
    assert_eq!(s.alpha.src_factor, GpuBlendFactor::One);
    assert_eq!(s.alpha.dst_factor, GpuBlendFactor::OneMinusSrcAlpha);
    assert_eq!(s.color.operation, BlendOperation::Add);
    assert_eq!(s.alpha.operation, BlendOperation::Add);
}

#[test]
fn rgb_and_alpha_factors_go_to_their_components() {
    let op = CompositeOperationState {
        src_rgb: BlendFactor::DstColor,
        src_alpha: BlendFactor::Zero,
        dst_rgb: BlendFactor::SrcAlphaSaturate,
        dst_alpha: BlendFactor::OneMinusDstAlpha,
    };
    let s = blend_state(op);
    assert_eq!(s.color.src_factor, GpuBlendFactor::Dst);
    assert_eq!(s.color.dst_factor, GpuBlendFactor::SrcAlphaSaturated);
    assert_eq!(s.alpha.src_factor, GpuBlendFactor::Zero);
    assert_eq!(s.alpha.dst_factor, GpuBlendFactor::OneMinusDstAlpha);
}

#[test]
fn replace_blend_overwrites() {
    let s = replace_blend_state();
    assert_eq!(s.color.src_factor, GpuBlendFactor::One);
    assert_eq!(s.color.dst_factor, GpuBlendFactor::Zero);
    assert_eq!(s.alpha.src_factor, GpuBlendFactor::One);
    assert_eq!(s.alpha.dst_factor, GpuBlendFactor::Zero);
}

#[test]
fn pipeline_state_without_stencil_test_writes_all_channels() {
    let blend = Some(replace_blend_state());
    let s = PipelineState::new(
        blend,
        StencilTest::Disabled,
        TextureFormat::Other(7),
        ShaderType::FillColor,
        true,
        false,
        PrimitiveTopology::TriangleList,
        Some(Face::Back),
        true,
    );
    assert_eq!(s.color_target_state.write_mask.bits, 0xf);
    assert_eq!(s.color_target_state.format, TextureFormat::Other(7));
    assert_eq!(s.color_target_state.blend, blend);
    assert_eq!(s.stencil_state, Some(ignore_stencil()));
    assert_eq!(s.shader_type, ShaderType::FillColor);
    assert!(s.enable_glyph_texture);
    assert!(!s.render_to_texture);
    assert_eq!(s.primitive_topology, PrimitiveTopology::TriangleList);
    assert_eq!(s.cull_mode, Some(Face::Back));
}

#[test]
fn pipeline_state_without_stencil_buffer_has_no_stencil_state() {
    let s = PipelineState::new(
        None,
        StencilTest::Enabled { stencil_state: concave_fill_stencil(), stencil_reference: 0 },
        TextureFormat::Rgba8Unorm,
        ShaderType::Stencil,
        false,
        true,
        PrimitiveTopology::TriangleList,
        None,
        false,
    );
    assert_eq!(s.stencil_state, None);
    // Stencil-only pass: nothing is written to the colour target.
    assert_eq!(s.color_target_state.write_mask.bits, 0);
}

#[test]
fn pipeline_state_with_stencil_test_and_blending_writes_colour() {
    let s = PipelineState::new(
        Some(replace_blend_state()),
        StencilTest::Enabled { stencil_state: fringe_stencil(FillRule::EvenOdd), stencil_reference: 3 },
        TextureFormat::Rgba8Unorm,
        ShaderType::FillGradient,
        false,
        false,
        PrimitiveTopology::TriangleStrip,
        Some(Face::Back),
        true,
    );
    assert_eq!(s.color_target_state.write_mask.bits, 0xf);
    assert_eq!(s.stencil_state, Some(fringe_stencil(FillRule::EvenOdd)));
}

#[test]
fn materialize_describes_the_pipeline() {
    let s = PipelineState::new(
        None,
        StencilTest::Disabled,
        TextureFormat::Rgba8Unorm,
        ShaderType::FillColorUnclipped,
        true,
        true,
        PrimitiveTopology::TriangleStrip,
        Some(Face::Back),
        true,
    );
    let d = s.materialize();
    assert_eq!(d.constants.shader_type, 7);
    assert_eq!(d.constants.enable_glyph_texture, 1);
    assert_eq!(d.constants.render_to_texture, 1);
    assert_eq!(d.front_face, FrontFace::Cw);
    assert_eq!(d.topology, PrimitiveTopology::TriangleStrip);
    let ds = d.depth_stencil.unwrap();
    assert_eq!(ds.format, TextureFormat::Stencil8);
    assert!(!ds.depth_write_enabled);
    assert_eq!(ds.depth_compare, CompareFunction::Always);
    assert_eq!(ds.stencil, ignore_stencil());
    assert_eq!(entry_point_name(d.vertex_entry_point), "vs_main");
    assert_eq!(entry_point_name(d.fragment_entry_point), "fs_main");
    assert_eq!(d.vertex_buffer.array_stride, 16);
    assert_eq!((d.vertex_buffer.position.location, d.vertex_buffer.position.offset), (0, 0));
    assert_eq!((d.vertex_buffer.tex_coord.location, d.vertex_buffer.tex_coord.offset), (1, 8));
    assert_eq!(d.vertex_buffer.tex_coord.format, VertexFormat::Float32x2);

    let on_screen = PipelineState::new(
        None,
        StencilTest::Disabled,
        TextureFormat::Rgba8Unorm,
        ShaderType::FillGradient,
        false,
        false,
        PrimitiveTopology::TriangleList,
        None,
        false,
    )
    .materialize();
    assert_eq!(on_screen.front_face, FrontFace::Ccw);
    assert_eq!(on_screen.constants.shader_type, 0);
    assert_eq!(on_screen.constants.enable_glyph_texture, 0);
    assert_eq!(on_screen.constants.render_to_texture, 0);
    assert!(on_screen.depth_stencil.is_none());
}

#[test]
fn shader_type_numbers() {
    let all = [
        ShaderType::FillGradient,
        ShaderType::FillImage,
        ShaderType::Stencil,
        ShaderType::FillImageGradient,
        ShaderType::FilterImage,
        ShaderType::FillColor,
        ShaderType::TextureCopyUnclipped,
        ShaderType::FillColorUnclipped,
    ];
    for (i, t) in all.iter().enumerate() {
        assert_eq!(t.to_u8() as usize, i);
    }
}

#[test]
fn ignore_stencil_passes_everything() {
    let s = ignore_stencil();
    assert_eq!(s.front.compare, CompareFunction::Always);
    assert_eq!(s.front.pass_op, StencilOperation::Keep);
    assert_eq!(s.back.fail_op, StencilOperation::Keep);
    assert_eq!(s.read_mask, 0xffff_ffff);
    assert_eq!(s.write_mask, 0xffff_ffff);
}

#[test]
fn fill_rule_masks() {
    assert_eq!(fill_rule_mask(FillRule::NonZero), 0xff);
    assert_eq!(fill_rule_mask(FillRule::EvenOdd), 0x1);
    assert_eq!(fringe_stencil(FillRule::EvenOdd).read_mask, 0x1);
    assert_eq!(cover_stencil(FillRule::NonZero).write_mask, 0xff);
}

#[test]
fn stencil_states_of_multi_pass_draws() {
    let count = concave_fill_stencil();
    assert_eq!(count.front.pass_op, StencilOperation::IncrementWrap);
    assert_eq!(count.back.pass_op, StencilOperation::DecrementWrap);
    assert_eq!(count.front.compare, CompareFunction::Always);

    let cover = cover_stencil(FillRule::EvenOdd);
    assert_eq!(cover.front.compare, CompareFunction::NotEqual);
    assert_eq!(cover.front.fail_op, StencilOperation::Zero);
    assert_eq!(cover.back.depth_fail_op, StencilOperation::Zero);
    assert_eq!(cover.back.pass_op, StencilOperation::Zero);

    let fringe = fringe_stencil(FillRule::NonZero);
    assert_eq!(fringe.front.compare, CompareFunction::Equal);
    assert_eq!(fringe.front.pass_op, StencilOperation::Keep);

    assert_eq!(stroke_base_stencil().front.pass_op, StencilOperation::IncrementClamp);
    assert_eq!(stroke_base_stencil().front.compare, CompareFunction::Equal);
    assert_eq!(stroke_aa_stencil().back.pass_op, StencilOperation::Keep);
    assert_eq!(stroke_aa_stencil().back.compare, CompareFunction::Equal);
    assert_eq!(stroke_clear_stencil().front.compare, CompareFunction::Always);
    assert_eq!(stroke_clear_stencil().front.pass_op, StencilOperation::Zero);
}
