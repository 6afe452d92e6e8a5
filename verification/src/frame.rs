//! Encoding a frame: the render-pass builder, which tracks the current
//! render target, viewport and stencil attachment, and the mapper from draw
//! calls to bind groups and pipelines, which creates each only when it
//! changes. Both describe their GPU work as a stream of `RenderOp`s.

use vstd::prelude::*;

use crate::bind_group::{
    BindGroupDescriptor, BindGroupState, ImageOrTexture, spec_bind_group_state_eq,
    spec_materialize_bind_group,
};
use crate::blend::BlendState;
use crate::floats::{spec_f32_round, spec_whole_f32_bits, u32_as_f32_value, u32_to_f32_bits};
use crate::images::{ImageStore, TextureDescriptor, spec_stencil_descriptor, stencil_descriptor};
use crate::params::{GlyphTexture, ImageId, Params};
use crate::pipeline::{
    Face, PipelineState, PrimitiveTopology, RenderPipelineDescriptor, StencilTest, TextureFormat,
    spec_materialize, spec_pipeline_state,
};
use crate::uniforms::{spec_uniform_params_of, spec_uniforms_eq};

verus! {

/// The size of the area drawn to, in pixels.
#[derive(Clone, Copy, Debug, PartialEq, Eq, Hash, Structural)]
pub struct Viewport {
    pub width: u32,
    pub height: u32,
}

/// The texture a render pass draws colour into.
#[derive(Clone, Copy, Debug, PartialEq, Eq, Hash, Structural)]
pub enum ColorAttachment {
    /// The surface being presented.
    Surface,
    /// The texture of an image, by its identity.
    Stored(u64),
    /// An intermediate texture of this frame, by its number.
    Intermediate(usize),
}

/// The stencil buffer a render pass uses.
#[derive(Clone, Copy, Debug, PartialEq, Eq, Hash, Structural)]
pub enum StencilAttachment {
    /// The stencil buffer of the surface.
    Screen,
    /// The stencil buffer made for the texture with this identity.
    ForTexture(u64),
}

/// What a render pass does with the colour target's old content.
#[derive(Clone, Copy, Debug, PartialEq, Eq, Hash, Structural)]
pub enum LoadOp {
    /// Keep it.
    Load,
    /// Clear it to transparent black.
    Clear,
}

/// One unit of GPU work, in the order the frame's encoder issues them.
#[derive(Clone, Copy, Debug)]
#[allow(inconsistent_fields)]
pub enum RenderOp {
    /// (Re)create the surface's stencil buffer.
    CreateScreenStencilBuffer { descriptor: TextureDescriptor },
    /// Create the bind group holding the viewport size; later passes use it.
    CreateViewportBindGroup { viewport: Viewport },
    /// Create the stencil buffer that goes with an image's texture.
    CreateStencilBuffer { texture: u64, descriptor: TextureDescriptor },
    /// Create an intermediate texture of this frame.
    CreateIntermediateTexture { number: usize, descriptor: TextureDescriptor },
    /// End the current render pass, if any, and begin a new one; bind the
    /// vertex buffer and the latest viewport bind group, set the viewport.
    BeginRenderPass {
        color: ColorAttachment,
        stencil: Option<StencilAttachment>,
        load: LoadOp,
        viewport: Viewport,
    },
    /// Set the stencil reference value.
    SetStencilReference { reference: u32 },
    /// Create a bind group; it becomes the current one.
    CreateBindGroup { descriptor: BindGroupDescriptor },
    /// Bind the current bind group at slot 1.
    SetBindGroup,
    /// Create the pipeline with this cache index.
    CreatePipeline { index: usize, descriptor: RenderPipelineDescriptor },
    /// Use the pipeline with this cache index.
    SetPipeline { index: usize },
    /// Draw vertices `first .. end` of the frame's vertex buffer.
    Draw { first: u32, end: u32 },
}

/// Why a frame cannot be encoded (the inputs on which rendering aborts).
#[derive(Clone, Copy, Debug, PartialEq, Eq, Structural)]
pub enum RenderError {
    /// A draw came before any render target was set.
    NoRenderPass,
    /// A render target or blur source names an image that is not stored.
    MissingImage(ImageId),
    /// An image filter command names no source image.
    NoFilterSource,
    /// A vertex range ends beyond the largest index.
    VertexRangeOverflow,
    /// A frame asks for more intermediate textures than can be numbered.
    TextureCountOverflow,
}

/// The render-pass builder as the contracts see it.
pub struct PassView {
    pub surface_format: TextureFormat,
    pub color: ColorAttachment,
    pub stencil: Option<StencilAttachment>,
    pub viewport: Viewport,
    pub rendering_to_texture: bool,
    pub has_pass: bool,
    pub screen_view: Viewport,
    pub screen_surface_format: TextureFormat,
    /// Identities of the image textures that have a stencil buffer.
    pub stencil_buffers: Set<u64>,
}

/// Tracks the current render target of a frame.
pub struct RenderPassBuilder {
    pub surface_format: TextureFormat,
    pub color: ColorAttachment,
    pub stencil: Option<StencilAttachment>,
    pub viewport: Viewport,
    pub rendering_to_texture: bool,
    pub has_pass: bool,
    pub screen_view: Viewport,
    pub screen_surface_format: TextureFormat,
    pub stencil_buffers: Vec<u64>,
}

impl View for RenderPassBuilder {
    type V = PassView;

    open spec fn view(&self) -> PassView {
        PassView {
            surface_format: self.surface_format,
            color: self.color,
            stencil: self.stencil,
            viewport: self.viewport,
            rendering_to_texture: self.rendering_to_texture,
            has_pass: self.has_pass,
            screen_view: self.screen_view,
            screen_surface_format: self.screen_surface_format,
            stencil_buffers: self.stencil_buffers@.to_set(),
        }
    }
}

/// The builder of a new frame: drawing to the surface with its stencil
/// buffer, no pass begun, and the viewport bind group of the surface made.
pub open spec fn spec_pass_new(
    screen_surface_format: TextureFormat,
    screen_view: Viewport,
    stencil_buffers: Set<u64>,
) -> (PassView, Seq<RenderOp>) {
    (
        PassView {
            surface_format: screen_surface_format,
            color: ColorAttachment::Surface,
            stencil: Some(StencilAttachment::Screen),
            viewport: screen_view,
            rendering_to_texture: false,
            has_pass: false,
            screen_view,
            screen_surface_format,
            stencil_buffers,
        },
        seq![RenderOp::CreateViewportBindGroup { viewport: screen_view }],
    )
}

/// Two viewports are the same size when their widths and heights are equal
/// as the floats the GPU is given: sizes from `2^24` on are rounded there, so
/// two different sizes can be one float.
pub open spec fn spec_viewport_eq(a: Viewport, b: Viewport) -> bool {
    &&& spec_f32_round(a.width as nat) == spec_f32_round(b.width as nat)
    &&& spec_f32_round(a.height as nat) == spec_f32_round(b.height as nat)
}

/// Whether two viewports have the same size as floats.
pub fn viewport_eq(a: Viewport, b: Viewport) -> (r: bool)
    ensures
        r == spec_viewport_eq(a, b),
{
    u32_as_f32_value(a.width) == u32_as_f32_value(b.width)
        && u32_as_f32_value(a.height) == u32_as_f32_value(b.height)
}

/// The contents of the viewport bind group's uniform buffer: the width and
/// the height as floats, in that order (as bit patterns).
pub open spec fn spec_viewport_uniform(v: Viewport) -> Seq<u32> {
    seq![
        spec_whole_f32_bits(spec_f32_round(v.width as nat)) as u32,
        spec_whole_f32_bits(spec_f32_round(v.height as nat)) as u32,
    ]
}

/// The contents of the viewport bind group's uniform buffer.
pub fn viewport_uniform(v: Viewport) -> (r: [u32; 2])
    ensures
        r@ == spec_viewport_uniform(v),
{
    let r = [u32_to_f32_bits(v.width), u32_to_f32_bits(v.height)];
    assert(r@ =~= spec_viewport_uniform(v));
    r
}

/// Changing the viewport makes a new viewport bind group; keeping it (as
/// floats) does nothing.
pub open spec fn spec_set_viewport(p: PassView, v: Viewport) -> (PassView, Seq<RenderOp>) {
    if spec_viewport_eq(p.viewport, v) {
        (p, seq![])
    } else {
        (PassView { viewport: v, ..p }, seq![RenderOp::CreateViewportBindGroup { viewport: v }])
    }
}

/// Begins a new render pass on the current target.
pub open spec fn spec_recreate_render_pass(p: PassView, load: LoadOp) -> (PassView, Seq<RenderOp>) {
    (
        PassView { has_pass: true, ..p },
        seq![
            RenderOp::BeginRenderPass {
                color: p.color,
                stencil: p.stencil,
                load,
                viewport: p.viewport,
            },
        ],
    )
}

/// Switches to drawing into a texture of the given size and format, with
/// the given stencil buffer.
pub open spec fn spec_set_render_target_texture(
    p: PassView,
    color: ColorAttachment,
    width: u32,
    height: u32,
    format: TextureFormat,
    stencil: Option<StencilAttachment>,
    load: LoadOp,
) -> (PassView, Seq<RenderOp>) {
    let p1 = PassView { color, ..p };
    let (p2, o2) = spec_set_viewport(p1, Viewport { width, height });
    let p3 = PassView { stencil, surface_format: format, rendering_to_texture: true, ..p2 };
    let (p4, o4) = spec_recreate_render_pass(p3, load);
    (p4, o2 + o4)
}

/// Switches to drawing into a stored image, making the stencil buffer of its
/// texture the first time; fails when the image is not stored.
pub open spec fn spec_set_render_target_image(
    p: PassView,
    images: ImageStore,
    id: ImageId,
    load: LoadOp,
) -> (PassView, Seq<RenderOp>, Option<RenderError>) {
    match images.spec_get(id) {
        None => (p, seq![], Some(RenderError::MissingImage(id))),
        Some(img) => {
            let t = img.texture;
            let (p1, o1) = if p.stencil_buffers.contains(t.id) {
                (p, Seq::<RenderOp>::empty())
            } else {
                (
                    PassView { stencil_buffers: p.stencil_buffers.insert(t.id), ..p },
                    seq![
                        RenderOp::CreateStencilBuffer {
                            texture: t.id,
                            descriptor: spec_stencil_descriptor(t.width, t.height),
                        },
                    ],
                )
            };
            let (p2, o2) = spec_set_render_target_texture(
                p1,
                ColorAttachment::Stored(t.id),
                t.width,
                t.height,
                t.format,
                Some(StencilAttachment::ForTexture(t.id)),
                load,
            );
            (p2, o1 + o2, None)
        },
    }
}

/// Switches back to drawing into the surface, keeping its content.
pub open spec fn spec_set_render_target_screen(p: PassView) -> (PassView, Seq<RenderOp>) {
    let p1 = PassView { color: ColorAttachment::Surface, stencil: Some(StencilAttachment::Screen), ..p };
    let (p2, o2) = spec_set_viewport(p1, p.screen_view);
    let p3 = PassView {
        surface_format: p.screen_surface_format,
        rendering_to_texture: false,
        ..p2
    };
    let (p4, o4) = spec_recreate_render_pass(p3, LoadOp::Load);
    (p4, o2 + o4)
}

proof fn lemma_push_to_set(s: Seq<u64>, v: u64)
    ensures
        s.push(v).to_set() == s.to_set().insert(v),
{
    assert forall|x: u64| #[trigger] s.push(v).to_set().contains(x) == s.to_set().insert(v).contains(x) by {
        if s.contains(x) {
            let j = choose|j: int| 0 <= j < s.len() && s[j] == x;
            assert(s.push(v)[j] == x);
        }
        if x == v {
            assert(s.push(v)[s.len() as int] == v);
        }
        if s.push(v).contains(x) && x != v {
            let j = choose|j: int| 0 <= j < s.len() + 1 && s.push(v)[j] == x;
            assert(j < s.len());
            assert(s[j] == x);
        }
    }
    assert(s.push(v).to_set() =~= s.to_set().insert(v));
}

impl RenderPassBuilder {
    /// The builder of a new frame on a surface of the given format and size.
    pub fn new(
        screen_surface_format: TextureFormat,
        screen_view: Viewport,
        stencil_buffers: Vec<u64>,
        ops: &mut Vec<RenderOp>,
    ) -> (r: Self)
        ensures
            r@ == spec_pass_new(screen_surface_format, screen_view, stencil_buffers@.to_set()).0,
            final(ops)@ == old(ops)@ + spec_pass_new(
                screen_surface_format,
                screen_view,
                stencil_buffers@.to_set(),
            ).1,
    {
        ops.push(RenderOp::CreateViewportBindGroup { viewport: screen_view });
        RenderPassBuilder {
            surface_format: screen_surface_format,
            color: ColorAttachment::Surface,
            stencil: Some(StencilAttachment::Screen),
            viewport: screen_view,
            rendering_to_texture: false,
            has_pass: false,
            screen_view,
            screen_surface_format,
            stencil_buffers,
        }
    }

    /// Uses a new viewport size, making its bind group if the size changed.
    pub fn set_viewport(&mut self, viewport: Viewport, ops: &mut Vec<RenderOp>)
        ensures
            final(self)@ == spec_set_viewport(old(self)@, viewport).0,
            final(ops)@ == old(ops)@ + spec_set_viewport(old(self)@, viewport).1,
    {
        if viewport_eq(self.viewport, viewport) {
            assert(ops@ =~= old(ops)@ + Seq::<RenderOp>::empty());
            return ;
        }
        self.viewport = viewport;
        ops.push(RenderOp::CreateViewportBindGroup { viewport });
    }

    /// Begins a new render pass on the current target.
    pub fn recreate_render_pass(&mut self, load: LoadOp, ops: &mut Vec<RenderOp>)
        ensures
            final(self)@ == spec_recreate_render_pass(old(self)@, load).0,
            final(ops)@ == old(ops)@ + spec_recreate_render_pass(old(self)@, load).1,
    {
        ops.push(
            RenderOp::BeginRenderPass {
                color: self.color,
                stencil: self.stencil,
                load,
                viewport: self.viewport,
            },
        );
        self.has_pass = true;
    }

    /// Switches to drawing into a texture of the given size and format.
    pub fn set_render_target_texture(
        &mut self,
        color: ColorAttachment,
        width: u32,
        height: u32,
        format: TextureFormat,
        stencil: Option<StencilAttachment>,
        load: LoadOp,
        ops: &mut Vec<RenderOp>,
    )
        ensures
            final(self)@ == spec_set_render_target_texture(
                old(self)@,
                color,
                width,
                height,
                format,
                stencil,
                load,
            ).0,
            final(ops)@ == old(ops)@ + spec_set_render_target_texture(
                old(self)@,
                color,
                width,
                height,
                format,
                stencil,
                load,
            ).1,
    {
        self.color = color;
        let ghost mid = ops@;
        self.set_viewport(Viewport { width, height }, ops);
        self.stencil = stencil;
        self.surface_format = format;
        self.rendering_to_texture = true;
        let ghost mid2 = ops@;
        self.recreate_render_pass(load, ops);
        assert(ops@ =~= old(ops)@ + (mid2.subrange(old(ops)@.len() as int, mid2.len() as int) + ops@.subrange(mid2.len() as int, ops@.len() as int)));
    }

    /// Switches to drawing into a stored image.
    pub fn set_render_target_image(
        &mut self,
        images: &ImageStore,
        id: ImageId,
        load: LoadOp,
        ops: &mut Vec<RenderOp>,
    ) -> (r: Result<(), RenderError>)
        requires
            images.wf(),
        ensures
            final(self)@ == spec_set_render_target_image(old(self)@, *images, id, load).0,
            final(ops)@ == old(ops)@ + spec_set_render_target_image(old(self)@, *images, id, load).1,
            r == match spec_set_render_target_image(old(self)@, *images, id, load).2 {
                Some(e) => Err(e),
                None => Ok(()),
            },
    {
        let image = match images.get(id) {
            Some(image) => image,
            None => {
                assert(ops@ =~= old(ops)@ + Seq::<RenderOp>::empty());
                return Err(RenderError::MissingImage(id));
            },
        };
        let t = image.texture;
        let mut known = false;
        let mut i: usize = 0;
        while i < self.stencil_buffers.len()
            invariant
                0 <= i <= self.stencil_buffers@.len(),
                known == exists|j: int| 0 <= j < i && self.stencil_buffers@[j] == t.id,
            decreases self.stencil_buffers@.len() - i,
        {
            if self.stencil_buffers[i] == t.id {
                known = true;
            }
            i = i + 1;
        }
        proof {
            if known {
                let j = choose|j: int| 0 <= j < i && self.stencil_buffers@[j] == t.id;
                assert(self.stencil_buffers@.to_set().contains(t.id));
            } else {
                assert(!self.stencil_buffers@.contains(t.id));
            }
        }
        let ghost before = ops@;
        if !known {
            ops.push(
                RenderOp::CreateStencilBuffer {
                    texture: t.id,
                    descriptor: stencil_descriptor(t.width, t.height),
                },
            );
            self.stencil_buffers.push(t.id);
            proof { lemma_push_to_set(old(self).stencil_buffers@, t.id); }
        }
        let ghost mid = ops@;
        self.set_render_target_texture(
            ColorAttachment::Stored(t.id),
            t.width,
            t.height,
            t.format,
            Some(StencilAttachment::ForTexture(t.id)),
            load,
            ops,
        );
        assert(ops@ =~= old(ops)@ + (mid.subrange(old(ops)@.len() as int, mid.len() as int) + ops@.subrange(mid.len() as int, ops@.len() as int)));
        Ok(())
    }

    /// Switches back to drawing into the surface.
    pub fn set_render_target_screen(&mut self, ops: &mut Vec<RenderOp>)
        ensures
            final(self)@ == spec_set_render_target_screen(old(self)@).0,
            final(ops)@ == old(ops)@ + spec_set_render_target_screen(old(self)@).1,
    {
        self.color = ColorAttachment::Surface;
        self.stencil = Some(StencilAttachment::Screen);
        let screen_view = self.screen_view;
        self.set_viewport(screen_view, ops);
        self.surface_format = self.screen_surface_format;
        self.rendering_to_texture = false;
        let ghost mid = ops@;
        self.recreate_render_pass(LoadOp::Load, ops);
        assert(ops@ =~= old(ops)@ + (mid.subrange(old(ops)@.len() as int, mid.len() as int) + ops@.subrange(mid.len() as int, ops@.len() as int)));
    }

    /// Draws a range of vertices in the current pass.
    pub fn draw(&self, first: u32, end: u32, ops: &mut Vec<RenderOp>)
        requires
            self.has_pass,
        ensures
            final(ops)@ == old(ops)@.push(RenderOp::Draw { first, end }),
    {
        ops.push(RenderOp::Draw { first, end });
    }
}

/// The mapper as the contracts see it.
pub struct MapperView {
    pub current_bind_group_state: Option<BindGroupState>,
    pub current_pipeline_state: Option<PipelineState>,
    pub pipeline_cache: Seq<PipelineState>,
}

/// Chooses, for each draw call, the bind group and pipeline to use, creating
/// a bind group only when what is bound changes and a pipeline only the
/// first time its state is seen in the frame.
pub struct CommandToPipelineAndBindGroupMapper {
    pub current_bind_group_state: Option<BindGroupState>,
    pub current_pipeline_state: Option<PipelineState>,
    /// Pipeline states by cache index.
    pub pipeline_cache: Vec<PipelineState>,
}

impl View for CommandToPipelineAndBindGroupMapper {
    type V = MapperView;

    open spec fn view(&self) -> MapperView {
        MapperView {
            current_bind_group_state: self.current_bind_group_state,
            current_pipeline_state: self.current_pipeline_state,
            pipeline_cache: self.pipeline_cache@,
        }
    }
}

/// The mapper of a new frame: nothing bound, no pipeline made.
pub open spec fn spec_mapper_new() -> MapperView {
    MapperView {
        current_bind_group_state: None,
        current_pipeline_state: None,
        pipeline_cache: Seq::empty(),
    }
}

/// Whether a pipeline state is in the cache.
pub open spec fn spec_cache_has(cache: Seq<PipelineState>, ps: PipelineState) -> bool {
    exists|i: int| 0 <= i < cache.len() && cache[i] == ps
}

/// Whether `i` is the first cache index holding `ps`.
pub open spec fn spec_is_first_index(cache: Seq<PipelineState>, ps: PipelineState, i: int) -> bool {
    0 <= i < cache.len() && cache[i] == ps && forall|j: int| 0 <= j < i ==> cache[j] != ps
}

/// The first cache index holding a pipeline state.
pub open spec fn spec_cache_index(cache: Seq<PipelineState>, ps: PipelineState) -> int {
    choose|i: int| spec_is_first_index(cache, ps, i)
}

/// The stencil reference of a draw: the test's reference when the stencil
/// test is enabled, else zero.
pub open spec fn spec_stencil_reference(t: StencilTest) -> u32 {
    match t {
        StencilTest::Enabled { stencil_reference, .. } => stencil_reference,
        StencilTest::Disabled => 0,
    }
}

/// The bind-group state of a draw.
pub open spec fn spec_bind_group_state(
    params: Params,
    image: Option<ImageOrTexture>,
    glyph_texture: GlyphTexture,
) -> BindGroupState {
    BindGroupState { image, glyph_texture, uniforms: spec_uniform_params_of(params) }
}

/// The pipeline state of a draw in the current render target.
pub open spec fn spec_draw_pipeline_state(
    p: PassView,
    params: Params,
    color_blend: Option<BlendState>,
    primitive_topology: PrimitiveTopology,
    stencil_test: StencilTest,
    cull_mode: Option<Face>,
) -> PipelineState {
    spec_pipeline_state(
        color_blend,
        stencil_test,
        p.surface_format,
        params.shader_type,
        params.glyph_texture_type != 0,
        p.rendering_to_texture,
        primitive_topology,
        cull_mode,
        p.stencil is Some,
    )
}

/// Prepares the current render pass for a draw: sets the stencil
/// reference; binds the draw's bind group, creating it unless the current
/// one binds the same things; and, when the pipeline state changes, uses
/// its pipeline, creating it the first time the state is seen. Fails when
/// no render pass has begun.
pub open spec fn spec_update_renderpass(
    m: MapperView,
    p: PassView,
    images: ImageStore,
    color_blend: Option<BlendState>,
    primitive_topology: PrimitiveTopology,
    stencil_test: StencilTest,
    cull_mode: Option<Face>,
    params: Params,
    image: Option<ImageOrTexture>,
    glyph_texture: GlyphTexture,
) -> (MapperView, Seq<RenderOp>, Option<RenderError>) {
    if !p.has_pass {
        (m, seq![], Some(RenderError::NoRenderPass))
    } else {
        let o1 = seq![RenderOp::SetStencilReference { reference: spec_stencil_reference(stencil_test) }];
        let bgs = spec_bind_group_state(params, image, glyph_texture);
        let (m1, o2) = match m.current_bind_group_state {
            Some(c) => if spec_bind_group_state_eq(c, bgs) {
                (m, Seq::<RenderOp>::empty())
            } else {
                (
                    MapperView { current_bind_group_state: Some(bgs), ..m },
                    seq![RenderOp::CreateBindGroup { descriptor: spec_materialize_bind_group(bgs, images) }],
                )
            },
            None => (
                MapperView { current_bind_group_state: Some(bgs), ..m },
                seq![RenderOp::CreateBindGroup { descriptor: spec_materialize_bind_group(bgs, images) }],
            ),
        };
        let o3 = seq![RenderOp::SetBindGroup];
        let ps = spec_draw_pipeline_state(p, params, color_blend, primitive_topology, stencil_test, cull_mode);
        let (m2, o4) = if m1.current_pipeline_state == Some(ps) {
            (m1, Seq::<RenderOp>::empty())
        } else if spec_cache_has(m1.pipeline_cache, ps) {
            (
                MapperView { current_pipeline_state: Some(ps), ..m1 },
                seq![RenderOp::SetPipeline { index: spec_cache_index(m1.pipeline_cache, ps) as usize }],
            )
        } else {
            let index = m1.pipeline_cache.len() as usize;
            (
                MapperView {
                    current_pipeline_state: Some(ps),
                    pipeline_cache: m1.pipeline_cache.push(ps),
                    ..m1
                },
                seq![
                    RenderOp::CreatePipeline { index, descriptor: spec_materialize(ps) },
                    RenderOp::SetPipeline { index },
                ],
            )
        };
        (m2, o1 + o2 + o3 + o4, None)
    }
}

proof fn lemma_first_index_unique(cache: Seq<PipelineState>, ps: PipelineState, i: int)
    requires
        spec_is_first_index(cache, ps, i),
    ensures
        spec_cache_index(cache, ps) == i,
{
    let k = spec_cache_index(cache, ps);
    assert(spec_is_first_index(cache, ps, k));
    if k < i {
        assert(cache[k] != ps);
    }
    if i < k {
        assert(cache[i] != ps);
    }
}

impl CommandToPipelineAndBindGroupMapper {
    /// The mapper of a new frame.
    pub fn new() -> (r: Self)
        ensures
            r@ == spec_mapper_new(),
    {
        let r = CommandToPipelineAndBindGroupMapper {
            current_bind_group_state: None,
            current_pipeline_state: None,
            pipeline_cache: Vec::new(),
        };
        assert(r@.pipeline_cache =~= Seq::<PipelineState>::empty());
        r
    }

    fn find_pipeline(&self, ps: &PipelineState) -> (r: Option<usize>)
        ensures
            r is None ==> !spec_cache_has(self.pipeline_cache@, *ps),
            r matches Some(i) ==> spec_is_first_index(self.pipeline_cache@, *ps, i as int),
    {
        let mut i: usize = 0;
        while i < self.pipeline_cache.len()
            invariant
                0 <= i <= self.pipeline_cache@.len(),
                forall|j: int| 0 <= j < i ==> self.pipeline_cache@[j] != *ps,
            decreases self.pipeline_cache@.len() - i,
        {
            if self.pipeline_cache[i] == *ps {
                return Some(i);
            }
            i = i + 1;
        }
        None
    }

    /// Prepares the current render pass for a draw (see
    /// `spec_update_renderpass`).
    #[verifier::spinoff_prover]
    #[verifier::rlimit(60)]
    pub fn update_renderpass(
        &mut self,
        pass: &RenderPassBuilder,
        images: &ImageStore,
        color_blend: Option<BlendState>,
        primitive_topology: PrimitiveTopology,
        stencil_test: StencilTest,
        cull_mode: Option<Face>,
        params: &Params,
        image: Option<ImageOrTexture>,
        glyph_texture: GlyphTexture,
        ops: &mut Vec<RenderOp>,
    ) -> (r: Result<(), RenderError>)
        requires
            images.wf(),
        ensures
            ({
                let (m, o, e) = spec_update_renderpass(
                    old(self)@,
                    pass@,
                    *images,
                    color_blend,
                    primitive_topology,
                    stencil_test,
                    cull_mode,
                    *params,
                    image,
                    glyph_texture,
                );
                &&& final(self)@ == m
                &&& final(ops)@ == old(ops)@ + o
                &&& r == match e {
                    Some(e) => Err(e),
                    None => Ok(()),
                }
            }),
    {
        if !pass.has_pass {
            assert(ops@ =~= old(ops)@ + Seq::<RenderOp>::empty());
            return Err(RenderError::NoRenderPass);
        }
        let reference = match stencil_test {
            StencilTest::Enabled { stencil_reference, .. } => stencil_reference,
            StencilTest::Disabled => 0,
        };
        ops.push(RenderOp::SetStencilReference { reference });
        let ghost o1_end = ops@.len();
        let bind_group_state = BindGroupState {
            image,
            glyph_texture,
            uniforms: crate::uniforms::UniformParams::from_params(params),
        };
        let same = match &self.current_bind_group_state {
            Some(current) => current.same_as(&bind_group_state),
            None => false,
        };
        if !same {
            ops.push(RenderOp::CreateBindGroup { descriptor: bind_group_state.materialize(images) });
            self.current_bind_group_state = Some(bind_group_state);
        }
        let ghost o2_end = ops@.len();
        ops.push(RenderOp::SetBindGroup);
        let ghost o3_end = ops@.len();
        let pipeline_state = PipelineState::new(
            color_blend,
            stencil_test,
            pass.surface_format,
            params.shader_type,
            params.uses_glyph_texture(),
            pass.rendering_to_texture,
            primitive_topology,
            cull_mode,
            pass.stencil.is_some(),
        );
        let unchanged = match &self.current_pipeline_state {
            Some(current) => *current == pipeline_state,
            None => false,
        };
        if !unchanged {
            self.current_pipeline_state = Some(pipeline_state);
            match self.find_pipeline(&pipeline_state) {
                Some(index) => {
                    proof { lemma_first_index_unique(self.pipeline_cache@, pipeline_state, index as int); }
                    ops.push(RenderOp::SetPipeline { index });
                },
                None => {
                    let index = self.pipeline_cache.len();
                    ops.push(RenderOp::CreatePipeline { index, descriptor: pipeline_state.materialize() });
                    self.pipeline_cache.push(pipeline_state);
                    ops.push(RenderOp::SetPipeline { index });
                },
            }
        }
        proof {
            let (m, o, e) = spec_update_renderpass(
                old(self)@,
                pass@,
                *images,
                color_blend,
                primitive_topology,
                stencil_test,
                cull_mode,
                *params,
                image,
                glyph_texture,
            );
            assert(ops@ =~= old(ops)@ + o);
            assert(self@.pipeline_cache =~= m.pipeline_cache);
        }
        Ok(())
    }
}

/// Asking twice for the same viewport makes its bind group at most once.
pub proof fn lemma_set_viewport_idempotent(p: PassView, v: Viewport)
    ensures
        spec_set_viewport(spec_set_viewport(p, v).0, v) == (spec_set_viewport(p, v).0, Seq::<RenderOp>::empty()),
{
}

/// Switching to a stored image again makes no second stencil buffer and no
/// second viewport bind group: it only begins a new pass on the image's
/// texture with the image's stencil buffer, at a viewport of the image's
/// size.
pub proof fn lemma_image_target_made_once(
    p: PassView,
    images: ImageStore,
    id: ImageId,
    load1: LoadOp,
    load2: LoadOp,
)
    requires
        spec_set_render_target_image(p, images, id, load1).2 is None,
    ensures
        ({
            let p1 = spec_set_render_target_image(p, images, id, load1).0;
            let (p2, o2, e2) = spec_set_render_target_image(p1, images, id, load2);
            let t = images.spec_get(id)->0.texture;
            &&& e2 is None
            &&& p2 == p1
            &&& p1.stencil_buffers.contains(t.id)
            &&& spec_viewport_eq(p1.viewport, Viewport { width: t.width, height: t.height })
            &&& o2 == seq![
                RenderOp::BeginRenderPass {
                    color: ColorAttachment::Stored(t.id),
                    stencil: Some(StencilAttachment::ForTexture(t.id)),
                    load: load2,
                    viewport: p1.viewport,
                },
            ]
        }),
{
    let t = images.spec_get(id)->0.texture;
    let p1 = spec_set_render_target_image(p, images, id, load1).0;
    assert(p1.stencil_buffers.contains(t.id));
    let (p2, o2, e2) = spec_set_render_target_image(p1, images, id, load2);
    assert(o2 =~= seq![
        RenderOp::BeginRenderPass {
            color: ColorAttachment::Stored(t.id),
            stencil: Some(StencilAttachment::ForTexture(t.id)),
            load: load2,
            viewport: p1.viewport,
        },
    ]);
}

/// After a switch back to the surface a render pass is open on the surface,
/// with the surface's stencil buffer, size and format, and the switch ends by
/// beginning that pass.
pub proof fn lemma_screen_target_restores_surface(p: PassView)
    ensures
        ({
            let (p1, o1) = spec_set_render_target_screen(p);
            &&& p1.has_pass
            &&& p1.color == ColorAttachment::Surface
            &&& p1.stencil == Some(StencilAttachment::Screen)
            &&& spec_viewport_eq(p1.viewport, p.screen_view)
            &&& p1.surface_format == p.screen_surface_format
            &&& !p1.rendering_to_texture
            &&& o1.len() >= 1
            &&& o1.last() == (RenderOp::BeginRenderPass {
                color: ColorAttachment::Surface,
                stencil: Some(StencilAttachment::Screen),
                load: LoadOp::Load,
                viewport: p1.viewport,
            })
        }),
{
}

/// No pipeline state is held twice in the cache.
pub open spec fn spec_cache_distinct(cache: Seq<PipelineState>) -> bool {
    forall|i: int, j: int| 0 <= i < j < cache.len() ==> cache[i] != cache[j]
}

/// A draw never creates a pipeline whose state is already cached, so each
/// pipeline state is created at most once per frame; after a successful
/// update the draw's pipeline state is the current one and is cached, and
/// any pipeline it selects holds that state.
pub proof fn lemma_update_creates_pipeline_once(
    m: MapperView,
    p: PassView,
    images: ImageStore,
    color_blend: Option<BlendState>,
    primitive_topology: PrimitiveTopology,
    stencil_test: StencilTest,
    cull_mode: Option<Face>,
    params: Params,
    image: Option<ImageOrTexture>,
    glyph_texture: GlyphTexture,
)
    requires
        m.pipeline_cache.len() < usize::MAX,
        spec_cache_distinct(m.pipeline_cache),
        m.current_pipeline_state matches Some(c) ==> spec_cache_has(m.pipeline_cache, c),
    ensures
        ({
            let (m1, o, e) = spec_update_renderpass(
                m,
                p,
                images,
                color_blend,
                primitive_topology,
                stencil_test,
                cull_mode,
                params,
                image,
                glyph_texture,
            );
            let ps = spec_draw_pipeline_state(p, params, color_blend, primitive_topology, stencil_test, cull_mode);
            &&& spec_cache_distinct(m1.pipeline_cache)
            &&& m1.current_pipeline_state matches Some(c) ==> spec_cache_has(m1.pipeline_cache, c)
            &&& e is None ==> m1.current_pipeline_state == Some(ps)
            &&& forall|k: int| 0 <= k < o.len() ==> (#[trigger] o[k] matches RenderOp::SetPipeline { index }
                ==> 0 <= index < m1.pipeline_cache.len() && m1.pipeline_cache[index as int] == ps)
        }),
{
    let (m1, o, e) = spec_update_renderpass(
        m,
        p,
        images,
        color_blend,
        primitive_topology,
        stencil_test,
        cull_mode,
        params,
        image,
        glyph_texture,
    );
    let ps = spec_draw_pipeline_state(p, params, color_blend, primitive_topology, stencil_test, cull_mode);
    if p.has_pass {
        let o1 = seq![RenderOp::SetStencilReference { reference: spec_stencil_reference(stencil_test) }];
        let bgs = spec_bind_group_state(params, image, glyph_texture);
        let o2 = if m.current_bind_group_state matches Some(c) && spec_bind_group_state_eq(c, bgs) {
            Seq::<RenderOp>::empty()
        } else {
            seq![RenderOp::CreateBindGroup { descriptor: spec_materialize_bind_group(bgs, images) }]
        };
        let o3 = seq![RenderOp::SetBindGroup];
        assert(m1.pipeline_cache == m.pipeline_cache || m1.pipeline_cache == m.pipeline_cache.push(ps));
        if m.current_pipeline_state == Some(ps) {
            assert(o =~= o1 + o2 + o3);
            assert(spec_cache_has(m1.pipeline_cache, ps));
        } else if spec_cache_has(m.pipeline_cache, ps) {
            let i = choose|i: int| 0 <= i < m.pipeline_cache.len() && m.pipeline_cache[i] == ps;
            assert forall|j: int| 0 <= j < i implies m.pipeline_cache[j] != ps by {}
            assert(spec_is_first_index(m.pipeline_cache, ps, i));
            lemma_first_index_unique(m.pipeline_cache, ps, i);
            let o4 = seq![RenderOp::SetPipeline { index: i as usize }];
            assert(o =~= o1 + o2 + o3 + o4);
            assert forall|k: int| 0 <= k < o.len() implies (#[trigger] o[k] matches RenderOp::SetPipeline { index }
                ==> 0 <= index < m1.pipeline_cache.len() && m1.pipeline_cache[index as int] == ps) by {
                if k < o.len() - 1 {
                    assert(!(o[k] is SetPipeline));
                }
            }
        } else {
            let n = m.pipeline_cache.len();
            let o4 = seq![
                RenderOp::CreatePipeline { index: n as usize, descriptor: spec_materialize(ps) },
                RenderOp::SetPipeline { index: n as usize },
            ];
            assert(o =~= o1 + o2 + o3 + o4);
            assert(m1.pipeline_cache[n as int] == ps);
            assert(spec_cache_has(m1.pipeline_cache, ps));
            assert forall|k: int| 0 <= k < o.len() implies (#[trigger] o[k] matches RenderOp::SetPipeline { index }
                ==> 0 <= index < m1.pipeline_cache.len() && m1.pipeline_cache[index as int] == ps) by {
                if k < o.len() - 1 {
                    assert(!(o[k] is SetPipeline));
                }
            }
            assert forall|a: int, b: int| 0 <= a < b < m1.pipeline_cache.len() implies m1.pipeline_cache[a]
                != m1.pipeline_cache[b] by {
                if b == n {
                    assert(m.pipeline_cache[a] != ps);
                }
            }
        }
        if m.current_pipeline_state != Some(ps) {
            if let Some(c) = m.current_pipeline_state {
                let j = choose|j: int| 0 <= j < m.pipeline_cache.len() && m.pipeline_cache[j] == c;
                assert(m1.pipeline_cache[j] == c);
            }
        }
    } else {
        assert(o.len() == 0);
    }
}

/// Repeating a draw's update right after it, with uniforms that equal
/// themselves (no NaN), creates nothing: it only sets the stencil reference
/// and rebinds the bind group.
pub proof fn lemma_repeated_update_creates_nothing(
    m: MapperView,
    p: PassView,
    images: ImageStore,
    color_blend: Option<BlendState>,
    primitive_topology: PrimitiveTopology,
    stencil_test: StencilTest,
    cull_mode: Option<Face>,
    params: Params,
    image: Option<ImageOrTexture>,
    glyph_texture: GlyphTexture,
)
    requires
        spec_update_renderpass(
            m,
            p,
            images,
            color_blend,
            primitive_topology,
            stencil_test,
            cull_mode,
            params,
            image,
            glyph_texture,
        ).2 is None,
        crate::uniforms::spec_uniforms_eq(spec_uniform_params_of(params), spec_uniform_params_of(params)),
    ensures
        ({
            let m1 = spec_update_renderpass(
                m,
                p,
                images,
                color_blend,
                primitive_topology,
                stencil_test,
                cull_mode,
                params,
                image,
                glyph_texture,
            ).0;
            spec_update_renderpass(
                m1,
                p,
                images,
                color_blend,
                primitive_topology,
                stencil_test,
                cull_mode,
                params,
                image,
                glyph_texture,
            ) == (
                m1,
                seq![
                    RenderOp::SetStencilReference { reference: spec_stencil_reference(stencil_test) },
                    RenderOp::SetBindGroup,
                ],
                None::<RenderError>,
            )
        }),
{
    let m1 = spec_update_renderpass(
        m,
        p,
        images,
        color_blend,
        primitive_topology,
        stencil_test,
        cull_mode,
        params,
        image,
        glyph_texture,
    ).0;
    let bgs = spec_bind_group_state(params, image, glyph_texture);
    assert(m1.current_bind_group_state matches Some(c) && spec_bind_group_state_eq(c, bgs));
    let (m2, o2, e2) = spec_update_renderpass(
        m1,
        p,
        images,
        color_blend,
        primitive_topology,
        stencil_test,
        cull_mode,
        params,
        image,
        glyph_texture,
    );
    assert(o2 =~= seq![
        RenderOp::SetStencilReference { reference: spec_stencil_reference(stencil_test) },
        RenderOp::SetBindGroup,
    ]);
}

/// The pipeline descriptions that `ops` create, in order.
pub open spec fn spec_created_pipelines(ops: Seq<RenderOp>) -> Seq<RenderPipelineDescriptor>
    decreases ops.len(),
{
    if ops.len() == 0 {
        seq![]
    } else {
        spec_created_pipelines(ops.drop_last()) + match ops.last() {
            RenderOp::CreatePipeline { descriptor, .. } => seq![descriptor],
            _ => Seq::<RenderPipelineDescriptor>::empty(),
        }
    }
}

/// Whether no op of `ops` creates a pipeline.
pub open spec fn spec_creates_no_pipeline(ops: Seq<RenderOp>) -> bool {
    forall|k: int| 0 <= k < ops.len() ==> !(#[trigger] ops[k] is CreatePipeline)
}

/// The descriptions of the pipelines of a cache, in cache order.
pub open spec fn spec_cache_descriptions(cache: Seq<PipelineState>) -> Seq<RenderPipelineDescriptor> {
    cache.map_values(|ps: PipelineState| spec_materialize(ps))
}

/// The pipelines created by two op streams one after the other are those of
/// the first, then those of the second.
pub proof fn lemma_created_pipelines_add(a: Seq<RenderOp>, b: Seq<RenderOp>)
    ensures
        spec_created_pipelines(a + b) == spec_created_pipelines(a) + spec_created_pipelines(b),
    decreases b.len(),
{
    if b.len() == 0 {
        assert(a + b =~= a);
        assert(spec_created_pipelines(a) + spec_created_pipelines(b) =~= spec_created_pipelines(a));
    } else {
        lemma_created_pipelines_add(a, b.drop_last());
        assert((a + b).drop_last() =~= a + b.drop_last());
        assert((a + b).last() == b.last());
        let x = match b.last() {
            RenderOp::CreatePipeline { descriptor, .. } => seq![descriptor],
            _ => Seq::<RenderPipelineDescriptor>::empty(),
        };
        assert(spec_created_pipelines(a) + spec_created_pipelines(b.drop_last()) + x
            =~= spec_created_pipelines(a) + (spec_created_pipelines(b.drop_last()) + x));
    }
}

/// Ops none of which creates a pipeline create no pipeline.
pub proof fn lemma_creates_no_pipeline(ops: Seq<RenderOp>)
    requires
        spec_creates_no_pipeline(ops),
    ensures
        spec_created_pipelines(ops) == Seq::<RenderPipelineDescriptor>::empty(),
    decreases ops.len(),
{
    if ops.len() > 0 {
        assert(spec_creates_no_pipeline(ops.drop_last()));
        lemma_creates_no_pipeline(ops.drop_last());
        assert(!(ops[ops.len() - 1] is CreatePipeline));
        assert(spec_created_pipelines(ops) =~= Seq::<RenderPipelineDescriptor>::empty());
    }
}

/// An update creates at most the pipeline of a state that is not yet
/// cached, and caches that state: with no state cached twice before, none
/// is cached twice after, and what the update creates is what it adds to
/// the cache.
pub proof fn lemma_update_pipelines(
    m: MapperView,
    p: PassView,
    images: ImageStore,
    color_blend: Option<BlendState>,
    primitive_topology: PrimitiveTopology,
    stencil_test: StencilTest,
    cull_mode: Option<Face>,
    params: Params,
    image: Option<ImageOrTexture>,
    glyph_texture: GlyphTexture,
)
    requires
        spec_cache_distinct(m.pipeline_cache),
    ensures
        ({
            let (m1, o, e) = spec_update_renderpass(
                m,
                p,
                images,
                color_blend,
                primitive_topology,
                stencil_test,
                cull_mode,
                params,
                image,
                glyph_texture,
            );
            &&& spec_cache_distinct(m1.pipeline_cache)
            &&& spec_cache_descriptions(m.pipeline_cache) + spec_created_pipelines(o)
                == spec_cache_descriptions(m1.pipeline_cache)
        }),
{
    let (m1, o, e) = spec_update_renderpass(
        m,
        p,
        images,
        color_blend,
        primitive_topology,
        stencil_test,
        cull_mode,
        params,
        image,
        glyph_texture,
    );
    let ps = spec_draw_pipeline_state(p, params, color_blend, primitive_topology, stencil_test, cull_mode);
    let d = spec_cache_descriptions(m.pipeline_cache);
    if p.has_pass {
        let o1 = seq![RenderOp::SetStencilReference { reference: spec_stencil_reference(stencil_test) }];
        let bgs = spec_bind_group_state(params, image, glyph_texture);
        let o2 = if m.current_bind_group_state matches Some(c) && spec_bind_group_state_eq(c, bgs) {
            Seq::<RenderOp>::empty()
        } else {
            seq![RenderOp::CreateBindGroup { descriptor: spec_materialize_bind_group(bgs, images) }]
        };
        let o3 = seq![RenderOp::SetBindGroup];
        let front = o1 + o2 + o3;
        assert(spec_creates_no_pipeline(front));
        lemma_creates_no_pipeline(front);
        if m.current_pipeline_state == Some(ps) {
            assert(o =~= front);
            assert(d + Seq::<RenderPipelineDescriptor>::empty() =~= d);
        } else if spec_cache_has(m.pipeline_cache, ps) {
            let o4 = seq![RenderOp::SetPipeline { index: spec_cache_index(m.pipeline_cache, ps) as usize }];
            assert(o =~= front + o4);
            assert(spec_creates_no_pipeline(o4));
            lemma_creates_no_pipeline(o4);
            lemma_created_pipelines_add(front, o4);
            assert(d + Seq::<RenderPipelineDescriptor>::empty() =~= d);
        } else {
            let n = m.pipeline_cache.len();
            let o4 = seq![
                RenderOp::CreatePipeline { index: n as usize, descriptor: spec_materialize(ps) },
                RenderOp::SetPipeline { index: n as usize },
            ];
            assert(o =~= front + o4);
            lemma_created_pipelines_add(front, o4);
            let c1 = seq![RenderOp::CreatePipeline { index: n as usize, descriptor: spec_materialize(ps) }];
            assert(c1.drop_last() =~= Seq::<RenderOp>::empty());
            assert(spec_created_pipelines(Seq::<RenderOp>::empty()) == Seq::<RenderPipelineDescriptor>::empty());
            assert(spec_created_pipelines(c1) =~= seq![spec_materialize(ps)]);
            assert(o4.drop_last() =~= c1);
            assert(spec_created_pipelines(o4) =~= seq![spec_materialize(ps)]);
            assert(m1.pipeline_cache == m.pipeline_cache.push(ps));
            assert(spec_cache_descriptions(m1.pipeline_cache) =~= d + seq![spec_materialize(ps)]);
            assert forall|a: int, b: int| 0 <= a < b < m1.pipeline_cache.len() implies m1.pipeline_cache[a]
                != m1.pipeline_cache[b] by {
                if b == n {
                    assert(m.pipeline_cache[a] != ps);
                }
            }
        }
    } else {
        assert(o =~= Seq::<RenderOp>::empty());
        assert(d + spec_created_pipelines(o) =~= d);
    }
}

/// A successful update leaves the render pass set up for this draw: the
/// bound bind group binds the draw's image and glyph texture with the draw's
/// uniforms (as floats), and any bind group it creates is that one; the
/// current pipeline is for the draw's shader variant, glyph flag,
/// topology, culling and blending, renders to a texture exactly when the
/// render pass does, targets the pass's format and has a stencil stage
/// exactly when the pass has a stencil buffer; any pipeline it creates is
/// that one's description. An update without a render pass fails and
/// changes nothing.
pub proof fn lemma_update_prepares_the_draw(
    m: MapperView,
    p: PassView,
    images: ImageStore,
    color_blend: Option<BlendState>,
    primitive_topology: PrimitiveTopology,
    stencil_test: StencilTest,
    cull_mode: Option<Face>,
    params: Params,
    image: Option<ImageOrTexture>,
    glyph_texture: GlyphTexture,
)
    ensures
        ({
            let (m1, o, e) = spec_update_renderpass(
                m,
                p,
                images,
                color_blend,
                primitive_topology,
                stencil_test,
                cull_mode,
                params,
                image,
                glyph_texture,
            );
            &&& (e is None <==> p.has_pass)
            &&& (e is Some ==> m1 == m && o.len() == 0)
            &&& (e is None ==> o.len() >= 2 && o[0] == RenderOp::SetStencilReference {
                reference: match stencil_test {
                    StencilTest::Enabled { stencil_reference, .. } => stencil_reference,
                    StencilTest::Disabled => 0,
                },
            })
            &&& (e is None ==> (m1.current_bind_group_state matches Some(c) && {
                &&& c.image == image
                &&& c.glyph_texture == glyph_texture
                &&& (c.uniforms == spec_uniform_params_of(params) || spec_uniforms_eq(
                    c.uniforms,
                    spec_uniform_params_of(params),
                ))
                &&& forall|k: int| 0 <= k < o.len() ==> (#[trigger] o[k] matches RenderOp::CreateBindGroup {
                    descriptor,
                } ==> descriptor == spec_materialize_bind_group(c, images))
            }))
            &&& (e is None ==> (m1.current_pipeline_state matches Some(ps) && {
                &&& ps.render_to_texture == p.rendering_to_texture
                &&& ps.shader_type == params.shader_type
                &&& ps.enable_glyph_texture == (params.glyph_texture_type != 0)
                &&& ps.primitive_topology == primitive_topology
                &&& ps.cull_mode == cull_mode
                &&& ps.color_target_state.blend == color_blend
                &&& ps.color_target_state.format == p.surface_format
                &&& (ps.stencil_state is Some <==> p.stencil is Some)
                &&& forall|k: int| 0 <= k < o.len() ==> (#[trigger] o[k] matches RenderOp::CreatePipeline {
                    descriptor,
                    ..
                } ==> descriptor == spec_materialize(ps))
            }))
        }),
{
    let (m1, o, e) = spec_update_renderpass(
        m,
        p,
        images,
        color_blend,
        primitive_topology,
        stencil_test,
        cull_mode,
        params,
        image,
        glyph_texture,
    );
    let ps = spec_draw_pipeline_state(p, params, color_blend, primitive_topology, stencil_test, cull_mode);
    let bgs = spec_bind_group_state(params, image, glyph_texture);
    if p.has_pass {
        let o1 = seq![RenderOp::SetStencilReference { reference: spec_stencil_reference(stencil_test) }];
        let reuse = m.current_bind_group_state matches Some(c) && spec_bind_group_state_eq(c, bgs);
        let o2 = if reuse {
            Seq::<RenderOp>::empty()
        } else {
            seq![RenderOp::CreateBindGroup { descriptor: spec_materialize_bind_group(bgs, images) }]
        };
        let o3 = seq![RenderOp::SetBindGroup];
        let o4 = if m.current_pipeline_state == Some(ps) {
            Seq::<RenderOp>::empty()
        } else if spec_cache_has(m.pipeline_cache, ps) {
            seq![RenderOp::SetPipeline { index: spec_cache_index(m.pipeline_cache, ps) as usize }]
        } else {
            let n = m.pipeline_cache.len();
            seq![
                RenderOp::CreatePipeline { index: n as usize, descriptor: spec_materialize(ps) },
                RenderOp::SetPipeline { index: n as usize },
            ]
        };
        assert(o =~= o1 + o2 + o3 + o4);
        let c = m1.current_bind_group_state->0;
        if reuse {
            let c0 = m.current_bind_group_state->0;
            assert(spec_bind_group_state_eq(c0, bgs));
            assert(c == c0);
            assert forall|k: int| 0 <= k < o.len() implies !(#[trigger] o[k] is CreateBindGroup) by {
                if k < 2 {
                } else {
                    assert(o[k] == o4[k - 2]);
                }
            }
        } else {
            assert(c == bgs);
            assert forall|k: int| 0 <= k < o.len() implies (#[trigger] o[k] matches RenderOp::CreateBindGroup {
                descriptor,
            } ==> descriptor == spec_materialize_bind_group(c, images)) by {
                if k >= 3 {
                    assert(o[k] == o4[k - 3]);
                }
            }
        }
        assert(m1.current_pipeline_state == Some(ps));
        assert forall|k: int| 0 <= k < o.len() implies (#[trigger] o[k] matches RenderOp::CreatePipeline {
            descriptor,
            ..
        } ==> descriptor == spec_materialize(ps)) by {
            let n = (o1 + o2 + o3).len();
            if k >= n {
                assert(o[k] == o4[k - n]);
            } else {
                assert(o[k] == (o1 + o2 + o3)[k]);
            }
        }
    }
}

} // verus!
