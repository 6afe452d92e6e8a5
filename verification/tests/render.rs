use femtovg::bind_group::{BoundTexture, ImageOrTexture};
use femtovg::blend::{BlendFactor, CompositeOperationState};
use femtovg::commands::{Command, CommandType, Drawable, RenderTarget, Step};
use femtovg::frame::{
    viewport_eq, viewport_uniform, ColorAttachment, LoadOp, RenderError, RenderOp, StencilAttachment, Viewport,
};
use femtovg::images::{
    ErrorKind, Image, ImageFlags, ImageInfo, ImageStore, PixelFormat, TextureInfo,
};
use femtovg::params::{GlyphTexture, ImageId, Params, ShaderType};
use femtovg::pipeline::{PrimitiveTopology, StencilTest, TextureFormat};
use femtovg::renderer::{SurfaceInfo, WGPURenderer};
use femtovg::stencil::{concave_fill_stencil, cover_stencil, fringe_stencil, FillRule};

fn params(shader_type: ShaderType) -> Params {
    Params {
        scissor_mat: [0; 12],
        paint_mat: [0; 12],
        inner_col: [0; 4],
        outer_col: [0; 4],
        scissor_ext: [0; 2],
        scissor_scale: [0; 2],
        extent: [0; 2],
        radius: 0,
        feather: 0,
        stroke_mult: 0,
        stroke_thr: 0,
        tex_type: 0,
        shader_type,
        glyph_texture_type: 0,
        image_blur_filter_direction: [0; 2],
        image_blur_filter_sigma: 0,
        image_blur_filter_coeff: [0; 3],
    }
}

fn source_over() -> CompositeOperationState {
    CompositeOperationState {
        src_rgb: BlendFactor::One,
        src_alpha: BlendFactor::One,
        dst_rgb: BlendFactor::OneMinusSrcAlpha,
        dst_alpha: BlendFactor::OneMinusSrcAlpha,
    }
}

fn command(cmd_type: CommandType) -> Command {
    Command {
        cmd_type,
        drawables: Vec::new(),
        triangles_verts: None,
        image: None,
        glyph_texture: GlyphTexture::NoGlyphs,
        fill_rule: FillRule::NonZero,
        composite_operation: source_over(),
    }
}

fn surface(width: u32, height: u32) -> SurfaceInfo {
    SurfaceInfo { width, height, depth_or_array_layers: 1, format: TextureFormat::Other(1) }
}

fn store_with(id: u64, tex: u64, w: u32, h: u32) -> ImageStore {
    let mut store = ImageStore::new();
    store.insert(
        ImageId { id },
        Image::from_texture(
            TextureInfo { id: tex, width: w, height: h, format: TextureFormat::Rgba8Unorm },
            ImageInfo { flags: ImageFlags { bits: 0 }, width: w as usize, height: h as usize, format: PixelFormat::Rgba8 },
        ),
    );
    store
}

fn kinds(ops: &[RenderOp]) -> Vec<&'static str> {
    ops.iter()
        .map(|op| match op {
            RenderOp::CreateScreenStencilBuffer { .. } => "screen-stencil",
            RenderOp::CreateViewportBindGroup { .. } => "viewport",
            RenderOp::CreateStencilBuffer { .. } => "image-stencil",
            RenderOp::CreateIntermediateTexture { .. } => "texture",
            RenderOp::BeginRenderPass { .. } => "pass",
            RenderOp::SetStencilReference { .. } => "ref",
            RenderOp::CreateBindGroup { .. } => "bind-group",
            RenderOp::SetBindGroup => "set-bind-group",
            RenderOp::CreatePipeline { .. } => "pipeline",
            RenderOp::SetPipeline { .. } => "set-pipeline",
            RenderOp::Draw { .. } => "draw",
        })
        .collect()
}

#[test]
fn empty_frame_makes_stencil_buffer_and_viewport() {
    let mut r = WGPURenderer::new();
    let ops = r.render(surface(800, 600), &ImageStore::new(), &Vec::new()).unwrap();
    assert_eq!(kinds(&ops), vec!["screen-stencil", "viewport"]);
    match ops[0] {
        RenderOp::CreateScreenStencilBuffer { descriptor } => {
            assert_eq!((descriptor.width, descriptor.height), (800, 600));
            assert_eq!(descriptor.format, TextureFormat::Stencil8);
        },
        _ => unreachable!(),
    }
    match ops[1] {
        RenderOp::CreateViewportBindGroup { viewport } => assert_eq!(viewport, Viewport { width: 800, height: 600 }),
        _ => unreachable!(),
    }
    assert_eq!(r.screen_view, Viewport { width: 800, height: 600 });
    assert_eq!(r.stencil_buffer, Some((800, 600, 1)));
}

#[test]
fn stencil_buffer_is_reused_while_the_size_holds() {
    let mut r = WGPURenderer::new();
    r.render(surface(100, 50), &ImageStore::new(), &Vec::new()).unwrap();
    let again = r.render(surface(100, 50), &ImageStore::new(), &Vec::new()).unwrap();
    assert_eq!(kinds(&again), vec!["viewport"]);
    let resized = r.render(surface(101, 50), &ImageStore::new(), &Vec::new()).unwrap();
    assert_eq!(kinds(&resized), vec!["screen-stencil", "viewport"]);
}

#[test]
fn layered_surface_gets_a_new_stencil_buffer_each_frame() {
    let mut r = WGPURenderer::new();
    let s = SurfaceInfo { width: 4, height: 4, depth_or_array_layers: 2, format: TextureFormat::Other(0) };
    r.render(s, &ImageStore::new(), &Vec::new()).unwrap();
    let again = r.render(s, &ImageStore::new(), &Vec::new()).unwrap();
    assert_eq!(kinds(&again), vec!["screen-stencil", "viewport"]);
}

#[test]
fn drawing_before_a_target_is_refused() {
    let mut r = WGPURenderer::new();
    let mut c = command(CommandType::Triangles { params: params(ShaderType::FillColor) });
    c.triangles_verts = Some((0, 3));
    assert_eq!(r.render(surface(10, 10), &ImageStore::new(), &vec![c]).unwrap_err(), RenderError::NoRenderPass);
}

#[test]
fn convex_fill_on_screen() {
    let mut r = WGPURenderer::new();
    let mut fill = command(CommandType::ConvexFill { params: params(ShaderType::FillColor) });
    fill.drawables = vec![Drawable { fill_verts: Some((0, 6)), stroke_verts: Some((6, 4)) }];
    let cmds = vec![command(CommandType::SetRenderTarget(RenderTarget::Screen)), fill];
    let ops = r.render(surface(10, 10), &ImageStore::new(), &cmds).unwrap();
    assert_eq!(
        kinds(&ops),
        vec![
            "screen-stencil", "viewport", "pass",
            // fill
            "ref", "bind-group", "set-bind-group", "pipeline", "set-pipeline", "draw",
            // fringe: same bind group, new pipeline (strip)
            "ref", "set-bind-group", "pipeline", "set-pipeline", "draw",
        ]
    );
    match ops[2] {
        RenderOp::BeginRenderPass { color, stencil, load, viewport } => {
            assert_eq!(color, ColorAttachment::Surface);
            assert_eq!(stencil, Some(StencilAttachment::Screen));
            assert_eq!(load, LoadOp::Load);
            assert_eq!(viewport, Viewport { width: 10, height: 10 });
        },
        _ => unreachable!(),
    }
    match ops[6] {
        RenderOp::CreatePipeline { index, descriptor } => {
            assert_eq!(index, 0);
            assert_eq!(descriptor.topology, PrimitiveTopology::TriangleList);
            assert_eq!(descriptor.constants.shader_type, 5);
        },
        _ => unreachable!(),
    }
    match (ops[8], ops[13]) {
        (RenderOp::Draw { first: 0, end: 6 }, RenderOp::Draw { first: 6, end: 10 }) => {},
        _ => panic!("unexpected draws"),
    }
    match ops[11] {
        RenderOp::CreatePipeline { index, descriptor } => {
            assert_eq!(index, 1);
            assert_eq!(descriptor.topology, PrimitiveTopology::TriangleStrip);
        },
        _ => unreachable!(),
    }
}

#[test]
fn repeated_draws_create_nothing_new() {
    let mut r = WGPURenderer::new();
    let mut tri = command(CommandType::Triangles { params: params(ShaderType::FillColor) });
    tri.triangles_verts = Some((0, 3));
    let mut tri2 = command(CommandType::Triangles { params: params(ShaderType::FillColor) });
    tri2.triangles_verts = Some((3, 3));
    let cmds = vec![command(CommandType::SetRenderTarget(RenderTarget::Screen)), tri, tri2];
    let ops = r.render(surface(10, 10), &ImageStore::new(), &cmds).unwrap();
    assert_eq!(
        kinds(&ops)[3..].to_vec(),
        vec!["ref", "bind-group", "set-bind-group", "pipeline", "set-pipeline", "draw", "ref", "set-bind-group", "draw"]
    );
}

#[test]
fn nan_uniforms_make_a_new_bind_group_every_draw() {
    let mut r = WGPURenderer::new();
    let mut p = params(ShaderType::FillColor);
    p.radius = f32::NAN.to_bits();
    let mut tri = command(CommandType::Triangles { params: p });
    tri.triangles_verts = Some((0, 3));
    let mut tri2 = command(CommandType::Triangles { params: p });
    tri2.triangles_verts = Some((0, 3));
    let cmds = vec![command(CommandType::SetRenderTarget(RenderTarget::Screen)), tri, tri2];
    let ops = r.render(surface(10, 10), &ImageStore::new(), &cmds).unwrap();
    assert_eq!(kinds(&ops).iter().filter(|k| **k == "bind-group").count(), 2);
    assert_eq!(kinds(&ops).iter().filter(|k| **k == "pipeline").count(), 1);
}

#[test]
fn pipelines_are_created_once_per_state() {
    let mut r = WGPURenderer::new();
    let mut a = command(CommandType::Triangles { params: params(ShaderType::FillColor) });
    a.triangles_verts = Some((0, 3));
    let mut b = command(CommandType::Triangles { params: params(ShaderType::FillImage) });
    b.triangles_verts = Some((0, 3));
    let mut c = command(CommandType::Triangles { params: params(ShaderType::FillColor) });
    c.triangles_verts = Some((0, 3));
    let cmds = vec![command(CommandType::SetRenderTarget(RenderTarget::Screen)), a, b, c];
    let ops = r.render(surface(10, 10), &ImageStore::new(), &cmds).unwrap();
    let created: Vec<usize> = ops
        .iter()
        .filter_map(|op| match op {
            RenderOp::CreatePipeline { index, .. } => Some(*index),
            _ => None,
        })
        .collect();
    let used: Vec<usize> = ops
        .iter()
        .filter_map(|op| match op {
            RenderOp::SetPipeline { index } => Some(*index),
            _ => None,
        })
        .collect();
    assert_eq!(created, vec![0, 1]);
    assert_eq!(used, vec![0, 1, 0]);
}

#[test]
fn image_target_gets_one_stencil_buffer() {
    let mut r = WGPURenderer::new();
    let images = store_with(7, 70, 32, 16);
    let to_image = || command(CommandType::SetRenderTarget(RenderTarget::Image(ImageId { id: 7 })));
    let cmds = vec![to_image(), command(CommandType::SetRenderTarget(RenderTarget::Screen)), to_image()];
    let ops = r.render(surface(10, 10), &images, &cmds).unwrap();
    assert_eq!(
        kinds(&ops),
        vec![
            "screen-stencil", "viewport",
            "image-stencil", "viewport", "pass",
            "viewport", "pass",
            "viewport", "pass",
        ]
    );
    match ops[4] {
        RenderOp::BeginRenderPass { color, stencil, load, viewport } => {
            assert_eq!(color, ColorAttachment::Stored(70));
            assert_eq!(stencil, Some(StencilAttachment::ForTexture(70)));
            assert_eq!(load, LoadOp::Load);
            assert_eq!(viewport, Viewport { width: 32, height: 16 });
        },
        _ => unreachable!(),
    }
    // The next frame still knows the image's stencil buffer.
    let next = r.render(surface(10, 10), &images, &vec![to_image()]).unwrap();
    assert_eq!(kinds(&next), vec!["viewport", "viewport", "pass"]);
    // Deleting the image forgets it.
    let img = images.get(ImageId { id: 7 }).unwrap();
    r.delete_image(img, ImageId { id: 7 });
    let after = r.render(surface(10, 10), &images, &vec![to_image()]).unwrap();
    assert_eq!(kinds(&after), vec!["viewport", "image-stencil", "viewport", "pass"]);
}

#[test]
fn missing_image_target_is_refused() {
    let mut r = WGPURenderer::new();
    let cmds = vec![command(CommandType::SetRenderTarget(RenderTarget::Image(ImageId { id: 3 })))];
    assert_eq!(
        r.render(surface(10, 10), &ImageStore::new(), &cmds).unwrap_err(),
        RenderError::MissingImage(ImageId { id: 3 })
    );
}

#[test]
fn vertex_range_overflow_is_refused() {
    let mut r = WGPURenderer::new();
    let mut tri = command(CommandType::Triangles { params: params(ShaderType::FillColor) });
    tri.triangles_verts = Some((usize::MAX, 1));
    let cmds = vec![command(CommandType::SetRenderTarget(RenderTarget::Screen)), tri];
    assert_eq!(r.render(surface(10, 10), &ImageStore::new(), &cmds).unwrap_err(), RenderError::VertexRangeOverflow);
}

#[test]
fn filter_without_source_is_refused() {
    let mut r = WGPURenderer::new();
    let c = command(CommandType::RenderFilteredImage {
        target_image: ImageId { id: 1 },
        blur_params: params(ShaderType::FillImage),
    });
    let cmds = vec![command(CommandType::SetRenderTarget(RenderTarget::Screen)), c];
    assert_eq!(r.render(surface(10, 10), &ImageStore::new(), &cmds).unwrap_err(), RenderError::NoFilterSource);
}

#[test]
fn gaussian_blur_renders_through_an_intermediate_texture() {
    let mut r = WGPURenderer::new();
    let mut images = store_with(1, 10, 8, 4);
    images.insert(
        ImageId { id: 2 },
        Image::from_texture(
            TextureInfo { id: 20, width: 8, height: 4, format: TextureFormat::Rgba8Unorm },
            ImageInfo { flags: ImageFlags { bits: 0 }, width: 8, height: 4, format: PixelFormat::Rgba8 },
        ),
    );
    let mut blur = command(CommandType::RenderFilteredImage {
        target_image: ImageId { id: 2 },
        blur_params: params(ShaderType::FillImage),
    });
    blur.image = Some(ImageId { id: 1 });
    blur.triangles_verts = Some((0, 6));
    let cmds = vec![command(CommandType::SetRenderTarget(RenderTarget::Screen)), blur];
    let ops = r.render(surface(10, 10), &images, &cmds).unwrap();
    assert_eq!(
        kinds(&ops),
        vec![
            "screen-stencil", "viewport", "pass",
            "texture", "viewport", "pass",
            "ref", "bind-group", "set-bind-group", "pipeline", "set-pipeline", "draw",
            "image-stencil", "pass",
            "ref", "bind-group", "set-bind-group", "pipeline", "set-pipeline", "draw",
            "viewport", "pass",
        ]
    );
    match ops[3] {
        RenderOp::CreateIntermediateTexture { number, descriptor } => {
            assert_eq!(number, 0);
            assert_eq!((descriptor.width, descriptor.height), (8, 4));
        },
        _ => unreachable!(),
    }
    match ops[5] {
        RenderOp::BeginRenderPass { color, stencil, load, .. } => {
            assert_eq!(color, ColorAttachment::Intermediate(0));
            assert_eq!(stencil, None);
            assert_eq!(load, LoadOp::Clear);
        },
        _ => unreachable!(),
    }
    match ops[7] {
        RenderOp::CreateBindGroup { descriptor } => {
            assert_eq!(descriptor.main.texture, BoundTexture::Stored(10));
            assert_eq!(descriptor.uniforms.image_blur_filter_direction, [1.0f32.to_bits(), 0]);
            assert_eq!(descriptor.uniforms.unused_shader_type, 4.0f32.to_bits());
        },
        _ => unreachable!(),
    }
    match ops[15] {
        RenderOp::CreateBindGroup { descriptor } => {
            assert_eq!(descriptor.main.texture, BoundTexture::Intermediate(0));
            assert_eq!(descriptor.uniforms.image_blur_filter_direction, [0, 1.0f32.to_bits()]);
        },
        _ => unreachable!(),
    }
    match ops[13] {
        RenderOp::BeginRenderPass { color, load, .. } => {
            assert_eq!(color, ColorAttachment::Stored(20));
            assert_eq!(load, LoadOp::Clear);
        },
        _ => unreachable!(),
    }
    match ops[21] {
        RenderOp::BeginRenderPass { color, load, .. } => {
            assert_eq!(color, ColorAttachment::Surface);
            assert_eq!(load, LoadOp::Load);
        },
        _ => unreachable!(),
    }
}

#[test]
fn concave_fill_plan() {
    let mut c = command(CommandType::ConcaveFill {
        stencil_params: params(ShaderType::Stencil),
        fill_params: params(ShaderType::FillColor),
    });
    c.fill_rule = FillRule::EvenOdd;
    c.drawables = vec![
        Drawable { fill_verts: Some((0, 5)), stroke_verts: None },
        Drawable { fill_verts: Some((5, 5)), stroke_verts: Some((10, 4)) },
    ];
    c.triangles_verts = Some((14, 4));
    let steps = c.plan(RenderTarget::Screen, 0);
    let shape: Vec<String> = steps
        .iter()
        .map(|s| match s {
            Step::Update { stencil_test: StencilTest::Enabled { stencil_state, .. }, color_blend, .. } => {
                if *stencil_state == concave_fill_stencil() {
                    assert!(color_blend.is_none());
                    "count".to_string()
                } else if *stencil_state == fringe_stencil(FillRule::EvenOdd) {
                    "fringe".to_string()
                } else if *stencil_state == cover_stencil(FillRule::EvenOdd) {
                    "cover".to_string()
                } else {
                    "other".to_string()
                }
            },
            Step::Draw { start, count } => format!("draw {}+{}", start, count),
            _ => "other".to_string(),
        })
        .collect();
    assert_eq!(
        shape,
        vec!["count", "draw 0+5", "draw 5+5", "fringe", "fringe", "draw 10+4", "cover", "draw 14+4"]
    );
}

#[test]
fn stencil_stroke_plan_draws_strokes_three_times() {
    let mut c = command(CommandType::StencilStroke {
        params1: params(ShaderType::FillColor),
        params2: params(ShaderType::FillGradient),
    });
    c.drawables = vec![
        Drawable { fill_verts: None, stroke_verts: Some((0, 4)) },
        Drawable { fill_verts: Some((9, 9)), stroke_verts: None },
    ];
    let steps = c.plan(RenderTarget::Screen, 0);
    let draws = steps.iter().filter(|s| matches!(s, Step::Draw { start: 0, count: 4 })).count();
    let updates = steps.iter().filter(|s| matches!(s, Step::Update { .. })).count();
    assert_eq!((steps.len(), draws, updates), (6, 3, 3));
    match (&steps[0], &steps[4]) {
        (Step::Update { params, .. }, Step::Update { params: p3, color_blend, .. }) => {
            assert_eq!(params.shader_type, ShaderType::FillGradient);
            assert_eq!(p3.shader_type, ShaderType::FillColor);
            assert!(color_blend.is_none());
        },
        _ => panic!("unexpected steps"),
    }
    c.drawables = vec![Drawable { fill_verts: Some((1, 1)), stroke_verts: None }];
    assert!(c.plan(RenderTarget::Screen, 0).is_empty());
}

#[test]
fn clear_rect_overwrites_with_the_colour_shader() {
    let mut c = command(CommandType::ClearRect { params: params(ShaderType::FillGradient) });
    c.triangles_verts = Some((2, 6));
    c.image = Some(ImageId { id: 4 });
    let steps = c.plan(RenderTarget::Screen, 0);
    assert_eq!(steps.len(), 2);
    match steps[0] {
        Step::Update { params, cull_mode, image, glyph_texture, stencil_test, .. } => {
            assert_eq!(params.shader_type, ShaderType::FillColorUnclipped);
            assert_eq!(cull_mode, None);
            assert_eq!(image, None);
            assert_eq!(glyph_texture, GlyphTexture::NoGlyphs);
            assert_eq!(stencil_test, StencilTest::Disabled);
        },
        _ => panic!("expected an update"),
    }
    assert!(matches!(steps[1], Step::Draw { start: 2, count: 6 }));
}

#[test]
fn filter_plan_returns_to_the_previous_target() {
    let mut c = command(CommandType::RenderFilteredImage {
        target_image: ImageId { id: 2 },
        blur_params: params(ShaderType::FillImage),
    });
    c.image = Some(ImageId { id: 1 });
    let steps = c.plan(RenderTarget::Image(ImageId { id: 9 }), 5);
    assert_eq!(steps.len(), 3);
    assert!(matches!(steps[0], Step::TargetBlur { source: Some(ImageId { id: 1 }), number: 5 }));
    assert!(matches!(steps[1], Step::TargetImage { id: ImageId { id: 2 }, load: LoadOp::Clear }));
    assert!(matches!(steps[2], Step::TargetImage { id: ImageId { id: 9 }, load: LoadOp::Load }));
    match c.plan(RenderTarget::Screen, 0).last() {
        Some(Step::TargetScreen) => {},
        _ => panic!("expected a return to the screen"),
    }
}

#[test]
fn stroke_uses_image_and_glyphs_of_the_command() {
    let mut c = command(CommandType::Stroke { params: params(ShaderType::FillImage) });
    c.image = Some(ImageId { id: 3 });
    c.glyph_texture = GlyphTexture::ColorTexture(ImageId { id: 4 });
    c.drawables = vec![Drawable { fill_verts: Some((0, 3)), stroke_verts: Some((3, 3)) }];
    let steps = c.plan(RenderTarget::Screen, 0);
    assert_eq!(steps.len(), 2);
    match steps[0] {
        Step::Update { image, glyph_texture, primitive_topology, .. } => {
            assert_eq!(image, Some(ImageOrTexture::Image(ImageId { id: 3 })));
            assert_eq!(glyph_texture, GlyphTexture::ColorTexture(ImageId { id: 4 }));
            assert_eq!(primitive_topology, PrimitiveTopology::TriangleStrip);
        },
        _ => panic!("expected an update"),
    }
}

#[test]
fn screenshots_are_unsupported() {
    let mut r = WGPURenderer::new();
    assert!(matches!(r.screenshot(), Err(ErrorKind::UnsupportedOperation)));
}

#[test]
fn image_allocation_and_native_textures() {
    let r = WGPURenderer::new();
    let info = ImageInfo { flags: ImageFlags { bits: 0 }, width: 3, height: 2, format: PixelFormat::Gray8 };
    let d = r.alloc_image(info).unwrap();
    assert_eq!((d.width, d.height), (3, 2));
    assert_eq!(d.format, TextureFormat::R8Unorm);
    let tex = TextureInfo { id: 5, width: 3, height: 2, format: TextureFormat::Other(9) };
    let img = r.create_image_from_native_texture(tex, info).unwrap();
    assert_eq!(img.texture, tex);
    assert_eq!(img.info, info);
}

#[test]
fn same_target_twice_begins_a_pass_without_a_new_viewport() {
    let mut r = WGPURenderer::new();
    let screen = || command(CommandType::SetRenderTarget(RenderTarget::Screen));
    let ops = r.render(surface(10, 10), &ImageStore::new(), &vec![screen(), screen()]).unwrap();
    assert_eq!(kinds(&ops), vec!["screen-stencil", "viewport", "pass", "pass"]);
}

#[test]
fn pipeline_and_bind_group_choices_survive_a_new_pass() {
    let mut r = WGPURenderer::new();
    let screen = || command(CommandType::SetRenderTarget(RenderTarget::Screen));
    let tri = || {
        let mut c = command(CommandType::Triangles { params: params(ShaderType::FillColor) });
        c.triangles_verts = Some((0, 3));
        c
    };
    let ops = r.render(surface(10, 10), &ImageStore::new(), &vec![screen(), tri(), screen(), tri()]).unwrap();
    assert_eq!(
        kinds(&ops)[2..].to_vec(),
        vec![
            "pass", "ref", "bind-group", "set-bind-group", "pipeline", "set-pipeline", "draw",
            // The new pass gets the bind group again, but the unchanged
            // pipeline is not set on it again.
            "pass", "ref", "set-bind-group", "draw",
        ]
    );
}

#[test]
fn viewports_compare_as_floats() {
    let a = Viewport { width: 16_777_217, height: 4 };
    let b = Viewport { width: 16_777_216, height: 4 };
    let c = Viewport { width: 16_777_218, height: 4 };
    assert!(viewport_eq(a, b));
    assert!(!viewport_eq(b, c));
    assert!(!viewport_eq(Viewport { width: 4, height: 5 }, Viewport { width: 4, height: 6 }));
    assert!(viewport_eq(Viewport { width: 7, height: 9 }, Viewport { width: 7, height: 9 }));
}

/// The colour attachment of the pass in force at each draw of `ops`.
fn draw_targets(ops: &[RenderOp]) -> Vec<ColorAttachment> {
    let mut current = None;
    let mut out = Vec::new();
    for op in ops {
        match op {
            RenderOp::BeginRenderPass { color, .. } => current = Some(*color),
            RenderOp::Draw { .. } => out.push(current.expect("a draw outside a pass")),
            _ => {},
        }
    }
    out
}

#[test]
fn draws_go_to_the_target_in_force() {
    let mut r = WGPURenderer::new();
    let mut images = store_with(1, 10, 8, 4);
    images.insert(
        ImageId { id: 2 },
        Image::from_texture(
            TextureInfo { id: 20, width: 8, height: 4, format: TextureFormat::Rgba8Unorm },
            ImageInfo { flags: ImageFlags { bits: 0 }, width: 8, height: 4, format: PixelFormat::Rgba8 },
        ),
    );
    let mut tri = command(CommandType::Triangles { params: params(ShaderType::FillColor) });
    tri.triangles_verts = Some((0, 3));
    let mut tri2 = command(CommandType::Triangles { params: params(ShaderType::FillColor) });
    tri2.triangles_verts = Some((3, 3));
    let mut tri3 = command(CommandType::Triangles { params: params(ShaderType::FillColor) });
    tri3.triangles_verts = Some((6, 3));
    let mut blur = command(CommandType::RenderFilteredImage {
        target_image: ImageId { id: 2 },
        blur_params: params(ShaderType::FillImage),
    });
    blur.image = Some(ImageId { id: 1 });
    blur.triangles_verts = Some((0, 6));
    let cmds = vec![
        command(CommandType::SetRenderTarget(RenderTarget::Screen)),
        tri,
        command(CommandType::SetRenderTarget(RenderTarget::Image(ImageId { id: 1 }))),
        tri2,
        blur,
        tri3,
    ];
    let ops = r.render(surface(10, 10), &images, &cmds).unwrap();
    assert_eq!(
        draw_targets(&ops),
        vec![
            ColorAttachment::Surface,
            ColorAttachment::Stored(10),
            ColorAttachment::Intermediate(0),
            ColorAttachment::Stored(20),
            ColorAttachment::Stored(10),
        ]
    );
    // The filter returns to image 1 by reopening its pass, keeping its content.
    let last_pass = ops.iter().rev().find_map(|op| match op {
        RenderOp::BeginRenderPass { color, load, .. } => Some((*color, *load)),
        _ => None,
    });
    assert_eq!(last_pass, Some((ColorAttachment::Stored(10), LoadOp::Load)));
}

#[test]
fn a_frame_creates_each_pipeline_once() {
    let mut r = WGPURenderer::new();
    let images = store_with(1, 10, 8, 4);
    let mut cmds = Vec::new();
    for k in 0..3usize {
        let mut a = command(CommandType::Triangles { params: params(ShaderType::FillColor) });
        a.triangles_verts = Some((k, 3));
        let mut b = command(CommandType::Stroke { params: params(ShaderType::FillGradient) });
        b.drawables = vec![Drawable { fill_verts: None, stroke_verts: Some((k, 4)) }];
        cmds.push(command(CommandType::SetRenderTarget(RenderTarget::Screen)));
        cmds.push(a);
        cmds.push(command(CommandType::SetRenderTarget(RenderTarget::Image(ImageId { id: 1 }))));
        cmds.push(b);
    }
    let ops = r.render(surface(10, 10), &images, &cmds).unwrap();
    let created: Vec<_> = ops
        .iter()
        .filter_map(|op| match op {
            RenderOp::CreatePipeline { descriptor, .. } => Some(*descriptor),
            _ => None,
        })
        .collect();
    assert!(created.len() >= 2);
    for i in 0..created.len() {
        for j in 0..created.len() {
            if i != j {
                assert_ne!(created[i], created[j]);
            }
        }
    }
}

#[test]
fn viewport_uniform_holds_the_size_as_floats() {
    let v = Viewport { width: 800, height: 16_777_217 };
    assert_eq!(viewport_uniform(v), [800.0f32.to_bits(), (16_777_217u32 as f32).to_bits()]);
}
