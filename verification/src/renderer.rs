//! The renderer: what it keeps between frames, how a frame's commands are
//! carried out step by step, and the image operations it offers.

use vstd::prelude::*;

use crate::commands::{
    Command, CommandType, RenderTarget, Step, lemma_filter_restores_target, lemma_plan_keeps_target,
    spec_makes_texture, spec_next_target, spec_only_updates_and_draws, spec_plan_command,
    spec_target_step,
};
use crate::frame::{
    ColorAttachment, CommandToPipelineAndBindGroupMapper, LoadOp, MapperView, PassView,
    RenderError, RenderOp, RenderPassBuilder, StencilAttachment, Viewport, spec_mapper_new,
    spec_pass_new, spec_viewport_eq, spec_cache_distinct, spec_cache_descriptions,
    spec_created_pipelines, spec_creates_no_pipeline, lemma_created_pipelines_add,
    lemma_creates_no_pipeline, lemma_update_pipelines,
    spec_set_render_target_image, spec_set_render_target_screen, spec_set_render_target_texture,
    spec_update_renderpass,
};
use crate::images::{
    ErrorKind, Image, ImageInfo, ImageSource, ImageStore, PixelBuffer, TextureDescriptor,
    TextureInfo, UploadData, UploadPlan, blur_descriptor, image_texture_descriptor,
    spec_blur_descriptor, spec_image_texture_descriptor, spec_rgba_rows, spec_source_buffer,
    spec_source_holds, spec_stencil_descriptor, spec_upload_bytes_per_pixel, stencil_descriptor,
    upload_plan,
};
use crate::params::ImageId;
use crate::pipeline::{PipelineState, RenderPipelineDescriptor, TextureFormat, lemma_materialize_injective};
use crate::setup::{DeviceSetup, device_setup, spec_is_device_setup};

verus! {

/// The state of a frame being encoded.
pub struct Frame {
    pub pass: RenderPassBuilder,
    pub mapper: CommandToPipelineAndBindGroupMapper,
    /// The number the next intermediate texture gets.
    pub next_texture: usize,
}

/// A frame being encoded, as the contracts see it.
pub struct FrameView {
    pub pass: PassView,
    pub mapper: MapperView,
    pub next_texture: usize,
}

impl View for Frame {
    type V = FrameView;

    open spec fn view(&self) -> FrameView {
        FrameView { pass: self.pass@, mapper: self.mapper@, next_texture: self.next_texture }
    }
}

/// Carries out one step of a command.
pub open spec fn spec_step(f: FrameView, step: Step, images: ImageStore) -> (
    FrameView,
    Seq<RenderOp>,
    Option<RenderError>,
) {
    match step {
        Step::TargetScreen => {
            let (p, o) = spec_set_render_target_screen(f.pass);
            (FrameView { pass: p, ..f }, o, None)
        },
        Step::TargetImage { id, load } => {
            let (p, o, e) = spec_set_render_target_image(f.pass, images, id, load);
            (FrameView { pass: p, ..f }, o, e)
        },
        Step::TargetBlur { source, number } => match source {
            None => (f, seq![], Some(RenderError::NoFilterSource)),
            Some(id) => match images.spec_get(id) {
                None => (f, seq![], Some(RenderError::MissingImage(id))),
                Some(img) => {
                    let t = img.texture;
                    let o1 = seq![
                        RenderOp::CreateIntermediateTexture {
                            number,
                            descriptor: spec_blur_descriptor(t),
                        },
                    ];
                    let (p, o2) = spec_set_render_target_texture(
                        f.pass,
                        ColorAttachment::Intermediate(number),
                        t.width,
                        t.height,
                        t.format,
                        None,
                        LoadOp::Clear,
                    );
                    (FrameView { pass: p, ..f }, o1 + o2, None)
                },
            },
        },
        Step::Update {
            color_blend,
            primitive_topology,
            stencil_test,
            cull_mode,
            params,
            image,
            glyph_texture,
        } => {
            let (m, o, e) = spec_update_renderpass(
                f.mapper,
                f.pass,
                images,
                color_blend,
                primitive_topology,
                stencil_test,
                cull_mode,
                params,
                image,
                glyph_texture,
            );
            (FrameView { mapper: m, ..f }, o, e)
        },
        Step::Draw { start, count } => if start + count > usize::MAX {
            (f, seq![], Some(RenderError::VertexRangeOverflow))
        } else if !f.pass.has_pass {
            (f, seq![], Some(RenderError::NoRenderPass))
        } else {
            (f, seq![RenderOp::Draw { first: start as u32, end: (start + count) as u32 }], None)
        },
    }
}

/// Carries out steps in order, stopping at the first that fails.
pub open spec fn spec_run_steps(f: FrameView, steps: Seq<Step>, images: ImageStore) -> (
    FrameView,
    Seq<RenderOp>,
    Option<RenderError>,
)
    decreases steps.len(),
{
    if steps.len() == 0 {
        (f, seq![], None)
    } else {
        let (f1, o1, e1) = spec_run_steps(f, steps.drop_last(), images);
        if e1 is Some {
            (f1, o1, e1)
        } else {
            let (f2, o2, e2) = spec_step(f1, steps.last(), images);
            (f2, o1 + o2, e2)
        }
    }
}

proof fn lemma_run_steps_error_sticks(f: FrameView, steps: Seq<Step>, images: ImageStore, k: int, j: int)
    requires
        0 <= k <= j <= steps.len(),
        spec_run_steps(f, steps.take(k), images).2 is Some,
    ensures
        spec_run_steps(f, steps.take(j), images) == spec_run_steps(f, steps.take(k), images),
    decreases j - k,
{
    if j > k {
        lemma_run_steps_error_sticks(f, steps, images, k, j - 1);
        assert(steps.take(j).drop_last() =~= steps.take(j - 1));
    }
}

impl Frame {
    /// Carries out one step of a command.
    #[verifier::rlimit(30)]
    pub fn step(&mut self, step: &Step, images: &ImageStore, ops: &mut Vec<RenderOp>) -> (r: Result<
        (),
        RenderError,
    >)
        requires
            images.wf(),
        ensures
            ({
                let (f, o, e) = spec_step(old(self)@, *step, *images);
                &&& final(self)@ == f
                &&& final(ops)@ == old(ops)@ + o
                &&& r == match e {
                    Some(e) => Err(e),
                    None => Ok(()),
                }
            }),
    {
        match step {
            Step::TargetScreen => {
                self.pass.set_render_target_screen(ops);
                Ok(())
            },
            Step::TargetImage { id, load } => self.pass.set_render_target_image(images, *id, *load, ops),
            Step::TargetBlur { source, number } => {
                let id = match source {
                    Some(id) => *id,
                    None => {
                        assert(ops@ =~= old(ops)@ + Seq::<RenderOp>::empty());
                        return Err(RenderError::NoFilterSource);
                    },
                };
                let img = match images.get(id) {
                    Some(img) => img,
                    None => {
                        assert(ops@ =~= old(ops)@ + Seq::<RenderOp>::empty());
                        return Err(RenderError::MissingImage(id));
                    },
                };
                let t = img.texture;
                ops.push(
                    RenderOp::CreateIntermediateTexture { number: *number, descriptor: blur_descriptor(&t) },
                );
                let ghost mid = ops@;
                self.pass.set_render_target_texture(
                    ColorAttachment::Intermediate(*number),
                    t.width,
                    t.height,
                    t.format,
                    None,
                    LoadOp::Clear,
                    ops,
                );
                assert(ops@ =~= old(ops)@ + (mid.subrange(old(ops)@.len() as int, mid.len() as int)
                    + ops@.subrange(mid.len() as int, ops@.len() as int)));
                Ok(())
            },
            Step::Update {
                color_blend,
                primitive_topology,
                stencil_test,
                cull_mode,
                params,
                image,
                glyph_texture,
            } => self.mapper.update_renderpass(
                &self.pass,
                images,
                *color_blend,
                *primitive_topology,
                *stencil_test,
                *cull_mode,
                params,
                *image,
                *glyph_texture,
                ops,
            ),
            Step::Draw { start, count } => {
                if *start > usize::MAX - *count {
                    assert(ops@ =~= old(ops)@ + Seq::<RenderOp>::empty());
                    return Err(RenderError::VertexRangeOverflow);
                }
                if !self.pass.has_pass {
                    assert(ops@ =~= old(ops)@ + Seq::<RenderOp>::empty());
                    return Err(RenderError::NoRenderPass);
                }
                let end = *start + *count;
                self.pass.draw(*start as u32, end as u32, ops);
                assert(ops@ =~= old(ops)@ + seq![RenderOp::Draw { first: *start as u32, end: end as u32 }]);
                Ok(())
            },
        }
    }

    /// Carries out steps in order, stopping at the first that fails.
    pub fn run_steps(&mut self, steps: &Vec<Step>, images: &ImageStore, ops: &mut Vec<RenderOp>) -> (r:
        Result<(), RenderError>)
        requires
            images.wf(),
        ensures
            ({
                let (f, o, e) = spec_run_steps(old(self)@, steps@, *images);
                &&& final(self)@ == f
                &&& final(ops)@ == old(ops)@ + o
                &&& r == match e {
                    Some(e) => Err(e),
                    None => Ok(()),
                }
            }),
    {
        let ghost f0 = self@;
        let mut i: usize = 0;
        while i < steps.len()
            invariant
                images.wf(),
                0 <= i <= steps@.len(),
                f0 == old(self)@,
                ({
                    let (f, o, e) = spec_run_steps(f0, steps@.take(i as int), *images);
                    &&& self@ == f
                    &&& ops@ == old(ops)@ + o
                    &&& e is None
                }),
            decreases steps@.len() - i,
        {
            let ghost before = ops@;
            let res = self.step(&steps[i], images, ops);
            proof {
                assert(steps@.take(i + 1).drop_last() =~= steps@.take(i as int));
                let (f1, o1, e1) = spec_run_steps(f0, steps@.take(i as int), *images);
                let (f2, o2, e2) = spec_step(f1, steps@[i as int], *images);
                assert(ops@ =~= old(ops)@ + (o1 + o2));
            }
            match res {
                Err(e) => {
                    proof {
                        lemma_run_steps_error_sticks(f0, steps@, *images, i + 1, steps@.len() as int);
                        assert(steps@.take(steps@.len() as int) =~= steps@);
                    }
                    return Err(e);
                },
                Ok(()) => {},
            }
            i = i + 1;
        }
        assert(steps@.take(steps@.len() as int) =~= steps@);
        Ok(())
    }
}

/// Carries out commands in order, each from the render target the commands
/// before it left in force and numbering intermediate textures in order,
/// stopping at the first step that fails. Gives the frame, the render target
/// in force, the work done and the failure, if any.
pub open spec fn spec_encode_commands(
    f: FrameView,
    target: RenderTarget,
    cmds: Seq<Command>,
    images: ImageStore,
) -> (FrameView, RenderTarget, Seq<RenderOp>, Option<RenderError>)
    decreases cmds.len(),
{
    if cmds.len() == 0 {
        (f, target, seq![], None)
    } else {
        let (f1, t1, o1, e1) = spec_encode_commands(f, target, cmds.drop_last(), images);
        if e1 is Some {
            (f1, t1, o1, e1)
        } else {
            let c = cmds.last();
            let steps = spec_plan_command(
                c.cmd_type,
                c.drawables@,
                c.triangles_verts,
                c.image,
                c.glyph_texture,
                c.fill_rule,
                c.composite_operation,
                t1,
                f1.next_texture,
            );
            let (f2, o2, e2) = spec_run_steps(f1, steps, images);
            if e2 is Some {
                (f2, t1, o1 + o2, e2)
            } else if spec_makes_texture(c.cmd_type) && f2.next_texture == usize::MAX {
                (f2, t1, o1 + o2, Some(RenderError::TextureCountOverflow))
            } else {
                let f3 = if spec_makes_texture(c.cmd_type) {
                    FrameView { next_texture: (f2.next_texture + 1) as usize, ..f2 }
                } else {
                    f2
                };
                (f3, spec_next_target(c.cmd_type, t1), o1 + o2, e2)
            }
        }
    }
}

proof fn lemma_encode_error_sticks(
    f: FrameView,
    target: RenderTarget,
    cmds: Seq<Command>,
    images: ImageStore,
    k: int,
    j: int,
)
    requires
        0 <= k <= j <= cmds.len(),
        spec_encode_commands(f, target, cmds.take(k), images).3 is Some,
    ensures
        spec_encode_commands(f, target, cmds.take(j), images) == spec_encode_commands(
            f,
            target,
            cmds.take(k),
            images,
        ),
    decreases j - k,
{
    if j > k {
        lemma_encode_error_sticks(f, target, cmds, images, k, j - 1);
        assert(cmds.take(j).drop_last() =~= cmds.take(j - 1));
    }
}

proof fn lemma_run_steps_keeps_count(f: FrameView, steps: Seq<Step>, images: ImageStore)
    ensures
        spec_run_steps(f, steps, images).0.next_texture == f.next_texture,
    decreases steps.len(),
{
    if steps.len() > 0 {
        lemma_run_steps_keeps_count(f, steps.drop_last(), images);
    }
}

impl Frame {
    /// Carries out commands in order (see `spec_encode_commands`).
    pub fn encode_commands(
        &mut self,
        target: RenderTarget,
        cmds: &Vec<Command>,
        images: &ImageStore,
        ops: &mut Vec<RenderOp>,
    ) -> (r: Result<RenderTarget, RenderError>)
        requires
            images.wf(),
        ensures
            ({
                let (f, t, o, e) = spec_encode_commands(old(self)@, target, cmds@, *images);
                &&& final(self)@ == f
                &&& final(ops)@ == old(ops)@ + o
                &&& r == match e {
                    Some(e) => Err(e),
                    None => Ok(t),
                }
            }),
    {
        let ghost f0 = self@;
        let mut current = target;
        let mut i: usize = 0;
        while i < cmds.len()
            invariant
                images.wf(),
                0 <= i <= cmds@.len(),
                f0 == old(self)@,
                ({
                    let (f, t, o, e) = spec_encode_commands(f0, target, cmds@.take(i as int), *images);
                    &&& self@ == f
                    &&& current == t
                    &&& ops@ == old(ops)@ + o
                    &&& e is None
                }),
            decreases cmds@.len() - i,
        {
            let cmd = &cmds[i];
            let steps = cmd.plan(current, self.next_texture);
            let res = self.run_steps(&steps, images, ops);
            proof {
                assert(cmds@.take(i + 1).drop_last() =~= cmds@.take(i as int));
                let (f1, t1, o1, e1) = spec_encode_commands(f0, target, cmds@.take(i as int), *images);
                let (f2, o2, e2) = spec_run_steps(f1, steps@, *images);
                lemma_run_steps_keeps_count(f1, steps@, *images);
                assert(ops@ =~= old(ops)@ + (o1 + o2));
            }
            match res {
                Err(e) => {
                    proof {
                        lemma_encode_error_sticks(f0, target, cmds@, *images, i + 1, cmds@.len() as int);
                        assert(cmds@.take(cmds@.len() as int) =~= cmds@);
                    }
                    return Err(e);
                },
                Ok(()) => {},
            }
            if let CommandType::RenderFilteredImage { .. } = cmd.cmd_type {
                if self.next_texture == usize::MAX {
                    proof {
                        lemma_encode_error_sticks(f0, target, cmds@, *images, i + 1, cmds@.len() as int);
                        assert(cmds@.take(cmds@.len() as int) =~= cmds@);
                    }
                    return Err(RenderError::TextureCountOverflow);
                }
                self.next_texture = self.next_texture + 1;
            }
            if let CommandType::SetRenderTarget(t) = cmd.cmd_type {
                current = t;
            }
            i = i + 1;
        }
        assert(cmds@.take(cmds@.len() as int) =~= cmds@);
        Ok(current)
    }
}

/// The size and format of the surface a frame is drawn on.
#[derive(Clone, Copy, Debug, PartialEq, Eq, Hash, Structural)]
pub struct SurfaceInfo {
    pub width: u32,
    pub height: u32,
    pub depth_or_array_layers: u32,
    pub format: TextureFormat,
}

/// The renderer's state between frames, as the contracts see it.
pub struct RendererView {
    pub setup: DeviceSetup,
    pub screen_view: Viewport,
    pub stencil_buffer: Option<(u32, u32, u32)>,
    pub stencil_buffer_for_textures: Set<u64>,
}

/// What a GPU renderer keeps between frames: what it set up on its device,
/// the surface size, the size of the surface's stencil buffer (if made), and
/// which image textures have a stencil buffer.
pub struct WGPURenderer {
    pub setup: DeviceSetup,
    pub screen_view: Viewport,
    pub stencil_buffer: Option<(u32, u32, u32)>,
    pub stencil_buffer_for_textures: Vec<u64>,
}

impl View for WGPURenderer {
    type V = RendererView;

    open spec fn view(&self) -> RendererView {
        RendererView {
            setup: self.setup,
            screen_view: self.screen_view,
            stencil_buffer: self.stencil_buffer,
            stencil_buffer_for_textures: self.stencil_buffer_for_textures@.to_set(),
        }
    }
}

/// The frame a render starts from: a new render-pass builder on the
/// surface, a new mapper, and no intermediate texture made.
pub open spec fn spec_frame_start(r: RendererView, surface: SurfaceInfo) -> FrameView {
    let screen_view = Viewport { width: surface.width, height: surface.height };
    FrameView {
        pass: spec_pass_new(surface.format, screen_view, r.stencil_buffer_for_textures).0,
        mapper: spec_mapper_new(),
        next_texture: 0,
    }
}

/// Renders a frame: the surface's size becomes the screen size; the
/// surface's stencil buffer is kept if its size matches the surface's and
/// (re)made otherwise; then the commands are carried out from the surface as
/// render target. Gives the renderer afterwards, the work done, and the
/// failure, if any.
pub open spec fn spec_render(
    r: RendererView,
    surface: SurfaceInfo,
    images: ImageStore,
    cmds: Seq<Command>,
) -> (RendererView, Seq<RenderOp>, Option<RenderError>) {
    let screen_view = Viewport { width: surface.width, height: surface.height };
    let size = (surface.width, surface.height, surface.depth_or_array_layers);
    let keep = r.stencil_buffer == Some(size);
    let o1 = if keep {
        Seq::<RenderOp>::empty()
    } else {
        seq![
            RenderOp::CreateScreenStencilBuffer {
                descriptor: spec_stencil_descriptor(surface.width, surface.height),
            },
        ]
    };
    let stencil_buffer = if keep {
        r.stencil_buffer
    } else {
        Some((surface.width, surface.height, 1u32))
    };
    let o2 = spec_pass_new(surface.format, screen_view, r.stencil_buffer_for_textures).1;
    let f = spec_frame_start(r, surface);
    let (f3, t3, o3, e3) = spec_encode_commands(f, RenderTarget::Screen, cmds, images);
    (
        RendererView {
            setup: r.setup,
            screen_view,
            stencil_buffer,
            stencil_buffer_for_textures: f3.pass.stencil_buffers,
        },
        o1 + o2 + o3,
        e3,
    )
}

impl WGPURenderer {
    /// A renderer that has drawn nothing yet, with its device setup: the
    /// layouts of its bind groups and the placeholder texture (an opaque red
    /// pixel, written from offset 0 with four-byte rows).
    pub fn new() -> (r: Self)
        ensures
            spec_is_device_setup(r@.setup),
            r@.screen_view == (Viewport { width: 0, height: 0 }),
            r@.stencil_buffer is None,
            r@.stencil_buffer_for_textures == Set::<u64>::empty(),
    {
        let r = WGPURenderer {
            setup: device_setup(),
            screen_view: Viewport { width: 0, height: 0 },
            stencil_buffer: None,
            stencil_buffer_for_textures: Vec::new(),
        };
        assert(r@.stencil_buffer_for_textures =~= Set::<u64>::empty());
        r
    }

    /// Describes the texture of a newly allocated image.
    pub fn alloc_image(&self, info: ImageInfo) -> (r: Result<TextureDescriptor, ErrorKind>)
        ensures
            r == Ok::<TextureDescriptor, ErrorKind>(spec_image_texture_descriptor(info)),
    {
        Ok(image_texture_descriptor(&info))
    }

    /// The image backed by a texture made elsewhere.
    pub fn create_image_from_native_texture(&self, native_texture: TextureInfo, info: ImageInfo) -> (r:
        Result<Image, ErrorKind>)
        ensures
            r == Ok::<Image, ErrorKind>(Image { texture: native_texture, info }),
    {
        Ok(Image::from_texture(native_texture, info))
    }

    /// Plans the upload of new pixels into an image at (`x`, `y`) (see
    /// `upload_plan`).
    pub fn update_image(&self, image: &Image, data: &ImageSource, x: usize, y: usize) -> (r: Result<
        UploadPlan,
        ErrorKind,
    >)
        requires
            spec_source_holds(*data),
            spec_upload_bytes_per_pixel(*data) * image.texture.width <= u32::MAX,
        ensures
            r matches Ok(plan) && {
                &&& plan.origin_x == x as u32
                &&& plan.origin_y == y as u32
                &&& plan.bytes_per_row == spec_upload_bytes_per_pixel(*data) * image.texture.width
                &&& plan.width == spec_source_buffer(*data).width as u32
                &&& plan.height == spec_source_buffer(*data).height as u32
                &&& match *data {
                    ImageSource::Rgb(b) => plan.data matches UploadData::Converted(bytes) && bytes@
                        == spec_rgba_rows(b.buf@, b.width as int, b.stride as int, b.height as nat),
                    _ => plan.data is FromSource,
                }
            },
    {
        Ok(upload_plan(image, data, x, y))
    }

    /// Forgets the stencil buffer made for a deleted image's texture.
    pub fn delete_image(&mut self, image: Image, _image_id: ImageId)
        ensures
            final(self)@.setup == old(self)@.setup,
            final(self)@.screen_view == old(self)@.screen_view,
            final(self)@.stencil_buffer == old(self)@.stencil_buffer,
            final(self)@.stencil_buffer_for_textures == old(self)@.stencil_buffer_for_textures.remove(
                image.texture.id,
            ),
    {
        let id = image.texture.id;
        let mut kept: Vec<u64> = Vec::new();
        let mut i: usize = 0;
        while i < self.stencil_buffer_for_textures.len()
            invariant
                0 <= i <= self.stencil_buffer_for_textures@.len(),
                self.stencil_buffer_for_textures@ == old(self).stencil_buffer_for_textures@,
                forall|x: u64| #[trigger] kept@.contains(x) <==> (x != id && exists|j: int|
                    0 <= j < i && self.stencil_buffer_for_textures@[j] == x),
            decreases self.stencil_buffer_for_textures@.len() - i,
        {
            let t = self.stencil_buffer_for_textures[i];
            if t != id {
                let ghost before = kept@;
                kept.push(t);
                assert forall|x: u64| #[trigger] kept@.contains(x) <==> (x != id && exists|j: int|
                    0 <= j < i + 1 && self.stencil_buffer_for_textures@[j] == x) by {
                    if kept@.contains(x) && x != t {
                        let k = choose|k: int| 0 <= k < kept@.len() && kept@[k] == x;
                        assert(before[k] == x);
                        assert(before.contains(x));
                    }
                    if x == t {
                        assert(kept@[kept@.len() - 1] == t);
                    }
                    if x != id && x != t && exists|j: int|
                        0 <= j < i + 1 && self.stencil_buffer_for_textures@[j] == x {
                        let j = choose|j: int|
                            0 <= j < i + 1 && self.stencil_buffer_for_textures@[j] == x;
                        assert(j < i);
                        assert(before.contains(x));
                        let k = choose|k: int| 0 <= k < before.len() && before[k] == x;
                        assert(kept@[k] == x);
                    }
                }
            } else {
                assert forall|x: u64| #[trigger] kept@.contains(x) <==> (x != id && exists|j: int|
                    0 <= j < i + 1 && self.stencil_buffer_for_textures@[j] == x) by {
                    if x != id && exists|j: int|
                        0 <= j < i + 1 && self.stencil_buffer_for_textures@[j] == x {
                        let j = choose|j: int|
                            0 <= j < i + 1 && self.stencil_buffer_for_textures@[j] == x;
                        assert(j < i);
                    }
                }
            }
            i = i + 1;
        }
        self.stencil_buffer_for_textures = kept;
        assert forall|x: u64| #[trigger] self@.stencil_buffer_for_textures.contains(x)
            == old(self)@.stencil_buffer_for_textures.remove(id).contains(x) by {
            if old(self).stencil_buffer_for_textures@.contains(x) && x != id {
                let j = choose|j: int|
                    0 <= j < old(self).stencil_buffer_for_textures@.len()
                        && old(self).stencil_buffer_for_textures@[j] == x;
                assert(kept@.contains(x));
            }
        }
        assert(self@.stencil_buffer_for_textures =~= old(self)@.stencil_buffer_for_textures.remove(id));
    }

    /// Reading back the surface is not offered.
    pub fn screenshot(&mut self) -> (r: Result<PixelBuffer, ErrorKind>)
        ensures
            r matches Err(e) && e == ErrorKind::UnsupportedOperation,
            final(self)@ == old(self)@,
    {
        Err(ErrorKind::UnsupportedOperation)
    }

    /// Renders a frame (see `spec_render`); on success gives the GPU work
    /// to do, in order.
    pub fn render(&mut self, surface: SurfaceInfo, images: &ImageStore, commands: &Vec<Command>) -> (r:
        Result<Vec<RenderOp>, RenderError>)
        requires
            images.wf(),
        ensures
            ({
                let (after, o, e) = spec_render(old(self)@, surface, *images, commands@);
                &&& final(self)@ == after
                &&& match r {
                    Ok(ops) => e is None && ops@ == o,
                    Err(err) => e == Some(err),
                }
            }),
    {
        self.screen_view = Viewport { width: surface.width, height: surface.height };
        let size = (surface.width, surface.height, surface.depth_or_array_layers);
        let keep = match self.stencil_buffer {
            Some(s) => s.0 == size.0 && s.1 == size.1 && s.2 == size.2,
            None => false,
        };
        let mut ops: Vec<RenderOp> = Vec::new();
        if !keep {
            ops.push(
                RenderOp::CreateScreenStencilBuffer {
                    descriptor: stencil_descriptor(surface.width, surface.height),
                },
            );
            self.stencil_buffer = Some((surface.width, surface.height, 1));
        }
        let ghost o1 = ops@;
        let mut keys: Vec<u64> = Vec::new();
        std::mem::swap(&mut keys, &mut self.stencil_buffer_for_textures);
        let pass = RenderPassBuilder::new(surface.format, self.screen_view, keys, &mut ops);
        let ghost o12 = ops@;
        let mut frame = Frame {
            pass,
            mapper: CommandToPipelineAndBindGroupMapper::new(),
            next_texture: 0,
        };
        let res = frame.encode_commands(RenderTarget::Screen, commands, images, &mut ops);
        self.stencil_buffer_for_textures = frame.pass.stencil_buffers;
        proof {
            let (after, o, e) = spec_render(old(self)@, surface, *images, commands@);
            assert(o1 =~= if old(self)@.stencil_buffer == Some(size) {
                Seq::<RenderOp>::empty()
            } else {
                seq![
                    RenderOp::CreateScreenStencilBuffer {
                        descriptor: spec_stencil_descriptor(surface.width, surface.height),
                    },
                ]
            });
            assert(ops@ =~= o);
        }
        match res {
            Ok(_) => Ok(ops),
            Err(e) => Err(e),
        }
    }
}

/// Rendering to a surface whose stencil buffer was made for the same size
/// reuses it: the next frame's first work is the viewport bind group, not a
/// new stencil buffer. (A surface with more than one layer gets a new
/// stencil buffer every frame, since the buffer is made with one layer.)
pub proof fn lemma_screen_stencil_reused(
    r: RendererView,
    surface: SurfaceInfo,
    images1: ImageStore,
    cmds1: Seq<Command>,
    images2: ImageStore,
    cmds2: Seq<Command>,
)
    requires
        surface.depth_or_array_layers == 1,
    ensures
        ({
            let r1 = spec_render(r, surface, images1, cmds1).0;
            let o2 = spec_render(r1, surface, images2, cmds2).1;
            &&& r1.stencil_buffer == Some((surface.width, surface.height, 1u32))
            &&& r1.screen_view == (Viewport { width: surface.width, height: surface.height })
            &&& o2.len() >= 1
            &&& o2[0] == (RenderOp::CreateViewportBindGroup {
                viewport: Viewport { width: surface.width, height: surface.height },
            })
        }),
{
    let r1 = spec_render(r, surface, images1, cmds1).0;
    let screen_view = Viewport { width: surface.width, height: surface.height };
    let (p, o2) = spec_pass_new(surface.format, screen_view, r1.stencil_buffer_for_textures);
    let f = FrameView { pass: p, mapper: spec_mapper_new(), next_texture: 0 };
    let (f3, t3, o3, e3) = spec_encode_commands(f, RenderTarget::Screen, cmds2, images2);
    assert(spec_render(r1, surface, images2, cmds2).1 =~= Seq::<RenderOp>::empty() + o2 + o3);
}

/// Whether a frame's render pass draws into render target `t`: the surface
/// with its stencil buffer, at the screen's size and format, not as a
/// texture; or the texture of image `id` with that texture's stencil buffer,
/// at the texture's size and format, as a texture.
pub open spec fn spec_pass_on_target(p: PassView, t: RenderTarget, images: ImageStore) -> bool {
    match t {
        RenderTarget::Screen => {
            &&& p.color == ColorAttachment::Surface
            &&& p.stencil == Some(StencilAttachment::Screen)
            &&& spec_viewport_eq(p.viewport, p.screen_view)
            &&& p.surface_format == p.screen_surface_format
            &&& !p.rendering_to_texture
        },
        RenderTarget::Image(id) => match images.spec_get(id) {
            Some(img) => {
                &&& p.color == ColorAttachment::Stored(img.texture.id)
                &&& p.stencil == Some(StencilAttachment::ForTexture(img.texture.id))
                &&& spec_viewport_eq(
                    p.viewport,
                    Viewport { width: img.texture.width, height: img.texture.height },
                )
                &&& p.surface_format == img.texture.format
                &&& p.rendering_to_texture
            },
            None => false,
        },
    }
}

/// Whether every draw among `steps`, carried out in order from `f`, is made
/// while the render pass draws into `t`.
pub open spec fn spec_steps_draw_on(f: FrameView, steps: Seq<Step>, images: ImageStore, t: RenderTarget) -> bool
    decreases steps.len(),
{
    if steps.len() == 0 {
        true
    } else {
        let (f1, o1, e1) = spec_run_steps(f, steps.drop_last(), images);
        &&& spec_steps_draw_on(f, steps.drop_last(), images, t)
        &&& (e1 is None && steps.last() is Draw ==> spec_pass_on_target(f1.pass, t, images))
    }
}

/// Whether, carrying out `cmds` in order from `f` with `target` in force,
/// every draw of a command other than an image filter is made while the
/// render pass draws into the target in force before that command, and
/// every image filter that succeeds leaves the render pass drawing into that
/// target again.
pub open spec fn spec_commands_draw_on_target(
    f: FrameView,
    target: RenderTarget,
    cmds: Seq<Command>,
    images: ImageStore,
) -> bool
    decreases cmds.len(),
{
    if cmds.len() == 0 {
        true
    } else {
        let (f1, t1, o1, e1) = spec_encode_commands(f, target, cmds.drop_last(), images);
        let c = cmds.last();
        let steps = spec_plan_command(
            c.cmd_type,
            c.drawables@,
            c.triangles_verts,
            c.image,
            c.glyph_texture,
            c.fill_rule,
            c.composite_operation,
            t1,
            f1.next_texture,
        );
        let (f2, t2, o2, e2) = spec_encode_commands(f, target, cmds, images);
        &&& spec_commands_draw_on_target(f, target, cmds.drop_last(), images)
        &&& (e1 is None && !(c.cmd_type is RenderFilteredImage) ==> spec_steps_draw_on(f1, steps, images, t1))
        &&& (e1 is None && c.cmd_type is RenderFilteredImage && e2 is None ==> t2 == t1
            && spec_pass_on_target(f2.pass, t1, images))
    }
}

proof fn lemma_run_updates_and_draws(f: FrameView, steps: Seq<Step>, images: ImageStore, t: RenderTarget)
    requires
        spec_only_updates_and_draws(steps),
        spec_pass_on_target(f.pass, t, images),
    ensures
        spec_steps_draw_on(f, steps, images, t),
        spec_run_steps(f, steps, images).0.pass == f.pass,
    decreases steps.len(),
{
    if steps.len() > 0 {
        let init = steps.drop_last();
        assert forall|i: int| 0 <= i < init.len() implies #[trigger] init[i] is Update || init[i] is Draw by {
            assert(init[i] == steps[i]);
        }
        lemma_run_updates_and_draws(f, init, images, t);
        assert(steps.last() == steps[steps.len() - 1]);
    }
}

proof fn lemma_target_step_on_target(f: FrameView, t: RenderTarget, images: ImageStore)
    ensures
        spec_step(f, spec_target_step(t), images).2 is None ==> spec_pass_on_target(
            spec_step(f, spec_target_step(t), images).0.pass,
            t,
            images,
        ),
{
}

proof fn lemma_run_single(f: FrameView, s: Step, images: ImageStore)
    ensures
        spec_run_steps(f, seq![s], images) == spec_step(f, s, images),
{
    let e = Seq::<Step>::empty();
    assert(seq![s].drop_last() =~= e);
    assert(spec_run_steps(f, e, images) == (f, Seq::<RenderOp>::empty(), None::<RenderError>));
    let (f2, o2, e2) = spec_step(f, s, images);
    assert(Seq::<RenderOp>::empty() + o2 =~= o2);
}

/// The steps of one command, carried out from a frame whose render pass
/// draws into the target in force: its draws (unless it is an image filter)
/// are made on that target, and when none fails the render pass afterwards
/// draws into the target in force after the command.
proof fn lemma_command_on_target(f1: FrameView, t1: RenderTarget, c: Command, images: ImageStore)
    requires
        spec_pass_on_target(f1.pass, t1, images),
    ensures
        ({
            let steps = spec_plan_command(
                c.cmd_type,
                c.drawables@,
                c.triangles_verts,
                c.image,
                c.glyph_texture,
                c.fill_rule,
                c.composite_operation,
                t1,
                f1.next_texture,
            );
            let (f2, o2, e2) = spec_run_steps(f1, steps, images);
            &&& !(c.cmd_type is RenderFilteredImage) ==> spec_steps_draw_on(f1, steps, images, t1)
            &&& e2 is None ==> spec_pass_on_target(f2.pass, spec_next_target(c.cmd_type, t1), images)
        }),
{
    let steps = spec_plan_command(
        c.cmd_type,
        c.drawables@,
        c.triangles_verts,
        c.image,
        c.glyph_texture,
        c.fill_rule,
        c.composite_operation,
        t1,
        f1.next_texture,
    );
    match c.cmd_type {
        CommandType::SetRenderTarget(t) => {
            assert(steps == seq![spec_target_step(t)]);
            lemma_run_single(f1, spec_target_step(t), images);
            lemma_target_step_on_target(f1, t, images);
            assert(steps.drop_last() =~= Seq::<Step>::empty());
            assert(spec_run_steps(f1, steps, images) == spec_step(f1, spec_target_step(t), images));
            assert(spec_next_target(c.cmd_type, t1) == t);
            assert(!(steps.last() is Draw));
            assert(spec_steps_draw_on(f1, Seq::<Step>::empty(), images, t1));
            assert(spec_steps_draw_on(f1, steps, images, t1));
        },
        CommandType::RenderFilteredImage { target_image, blur_params } => {
            lemma_filter_restores_target(
                target_image,
                blur_params,
                c.drawables@,
                c.triangles_verts,
                c.image,
                c.glyph_texture,
                c.fill_rule,
                c.composite_operation,
                t1,
                f1.next_texture,
            );
            let (f0, o0, e0) = spec_run_steps(f1, steps.drop_last(), images);
            lemma_target_step_on_target(f0, t1, images);
        },
        _ => {
            lemma_plan_keeps_target(
                c.cmd_type,
                c.drawables@,
                c.triangles_verts,
                c.image,
                c.glyph_texture,
                c.fill_rule,
                c.composite_operation,
                t1,
                f1.next_texture,
            );
            lemma_run_updates_and_draws(f1, steps, images, t1);
        },
    }
}

/// Carrying out commands from a frame whose render pass draws into the
/// target in force, every draw of a command other than an image filter is
/// made on the target in force before that command, every image filter
/// returns to that target, and after the commands (when none failed) the
/// render pass draws into the target then in force.
pub proof fn lemma_commands_draw_on_target(
    f: FrameView,
    target: RenderTarget,
    cmds: Seq<Command>,
    images: ImageStore,
)
    requires
        spec_pass_on_target(f.pass, target, images),
    ensures
        spec_commands_draw_on_target(f, target, cmds, images),
        ({
            let (f2, t2, o2, e2) = spec_encode_commands(f, target, cmds, images);
            e2 is None ==> spec_pass_on_target(f2.pass, t2, images)
        }),
    decreases cmds.len(),
{
    if cmds.len() > 0 {
        lemma_commands_draw_on_target(f, target, cmds.drop_last(), images);
        let (f1, t1, o1, e1) = spec_encode_commands(f, target, cmds.drop_last(), images);
        if e1 is None {
            lemma_command_on_target(f1, t1, cmds.last(), images);
        }
    }
}

/// Every draw of a rendered frame goes to the render target in force: a
/// frame starts drawing into the surface, and from there each command's
/// draws (other than an image filter's) are made on the target in force
/// before it, while each image filter returns to that target.
pub proof fn lemma_render_draws_on_target(
    r: RendererView,
    surface: SurfaceInfo,
    images: ImageStore,
    cmds: Seq<Command>,
)
    ensures
        spec_pass_on_target(spec_frame_start(r, surface).pass, RenderTarget::Screen, images),
        spec_commands_draw_on_target(spec_frame_start(r, surface), RenderTarget::Screen, cmds, images),
{
    lemma_commands_draw_on_target(spec_frame_start(r, surface), RenderTarget::Screen, cmds, images);
}

proof fn lemma_step_pipelines(f: FrameView, step: Step, images: ImageStore)
    requires
        spec_cache_distinct(f.mapper.pipeline_cache),
    ensures
        ({
            let (f2, o, e) = spec_step(f, step, images);
            &&& spec_cache_distinct(f2.mapper.pipeline_cache)
            &&& spec_cache_descriptions(f.mapper.pipeline_cache) + spec_created_pipelines(o)
                == spec_cache_descriptions(f2.mapper.pipeline_cache)
        }),
{
    let (f2, o, e) = spec_step(f, step, images);
    let d = spec_cache_descriptions(f.mapper.pipeline_cache);
    match step {
        Step::Update {
            color_blend,
            primitive_topology,
            stencil_test,
            cull_mode,
            params,
            image,
            glyph_texture,
        } => {
            lemma_update_pipelines(
                f.mapper,
                f.pass,
                images,
                color_blend,
                primitive_topology,
                stencil_test,
                cull_mode,
                params,
                image,
                glyph_texture,
            );
        },
        _ => {
            assert(f2.mapper == f.mapper);
            assert(spec_creates_no_pipeline(o));
            lemma_creates_no_pipeline(o);
            assert(d + Seq::<RenderPipelineDescriptor>::empty() =~= d);
        },
    }
}

proof fn lemma_run_pipelines(f: FrameView, steps: Seq<Step>, images: ImageStore)
    requires
        spec_cache_distinct(f.mapper.pipeline_cache),
    ensures
        ({
            let (f2, o, e) = spec_run_steps(f, steps, images);
            &&& spec_cache_distinct(f2.mapper.pipeline_cache)
            &&& spec_cache_descriptions(f.mapper.pipeline_cache) + spec_created_pipelines(o)
                == spec_cache_descriptions(f2.mapper.pipeline_cache)
        }),
    decreases steps.len(),
{
    let d = spec_cache_descriptions(f.mapper.pipeline_cache);
    if steps.len() == 0 {
        assert(spec_created_pipelines(Seq::<RenderOp>::empty()) == Seq::<RenderPipelineDescriptor>::empty());
        assert(d + Seq::<RenderPipelineDescriptor>::empty() =~= d);
    } else {
        lemma_run_pipelines(f, steps.drop_last(), images);
        let (f1, o1, e1) = spec_run_steps(f, steps.drop_last(), images);
        if e1 is None {
            lemma_step_pipelines(f1, steps.last(), images);
            let (f2, o2, e2) = spec_step(f1, steps.last(), images);
            lemma_created_pipelines_add(o1, o2);
            assert(d + (spec_created_pipelines(o1) + spec_created_pipelines(o2))
                =~= d + spec_created_pipelines(o1) + spec_created_pipelines(o2));
        }
    }
}

proof fn lemma_encode_pipelines(f: FrameView, target: RenderTarget, cmds: Seq<Command>, images: ImageStore)
    requires
        spec_cache_distinct(f.mapper.pipeline_cache),
    ensures
        ({
            let (f2, t2, o, e) = spec_encode_commands(f, target, cmds, images);
            &&& spec_cache_distinct(f2.mapper.pipeline_cache)
            &&& spec_cache_descriptions(f.mapper.pipeline_cache) + spec_created_pipelines(o)
                == spec_cache_descriptions(f2.mapper.pipeline_cache)
        }),
    decreases cmds.len(),
{
    let d = spec_cache_descriptions(f.mapper.pipeline_cache);
    if cmds.len() == 0 {
        assert(spec_created_pipelines(Seq::<RenderOp>::empty()) == Seq::<RenderPipelineDescriptor>::empty());
        assert(d + Seq::<RenderPipelineDescriptor>::empty() =~= d);
    } else {
        lemma_encode_pipelines(f, target, cmds.drop_last(), images);
        let (f1, t1, o1, e1) = spec_encode_commands(f, target, cmds.drop_last(), images);
        if e1 is None {
            let c = cmds.last();
            let steps = spec_plan_command(
                c.cmd_type,
                c.drawables@,
                c.triangles_verts,
                c.image,
                c.glyph_texture,
                c.fill_rule,
                c.composite_operation,
                t1,
                f1.next_texture,
            );
            lemma_run_pipelines(f1, steps, images);
            let (f2, o2, e2) = spec_run_steps(f1, steps, images);
            lemma_created_pipelines_add(o1, o2);
            assert(d + (spec_created_pipelines(o1) + spec_created_pipelines(o2))
                =~= d + spec_created_pipelines(o1) + spec_created_pipelines(o2));
        }
    }
}

/// Each pipeline is created at most once per frame: the pipeline
/// descriptions that a rendered frame creates are pairwise distinct.
pub proof fn lemma_render_creates_each_pipeline_once(
    r: RendererView,
    surface: SurfaceInfo,
    images: ImageStore,
    cmds: Seq<Command>,
)
    ensures
        spec_created_pipelines(spec_render(r, surface, images, cmds).1).no_duplicates(),
{
    let f = spec_frame_start(r, surface);
    let screen_view = Viewport { width: surface.width, height: surface.height };
    let size = (surface.width, surface.height, surface.depth_or_array_layers);
    let o1 = if r.stencil_buffer == Some(size) {
        Seq::<RenderOp>::empty()
    } else {
        seq![
            RenderOp::CreateScreenStencilBuffer {
                descriptor: spec_stencil_descriptor(surface.width, surface.height),
            },
        ]
    };
    let o2 = spec_pass_new(surface.format, screen_view, r.stencil_buffer_for_textures).1;
    assert(spec_creates_no_pipeline(o1 + o2));
    lemma_creates_no_pipeline(o1 + o2);
    assert(f.mapper.pipeline_cache =~= Seq::<PipelineState>::empty());
    assert(spec_cache_distinct(f.mapper.pipeline_cache));
    lemma_encode_pipelines(f, RenderTarget::Screen, cmds, images);
    let (f3, t3, o3, e3) = spec_encode_commands(f, RenderTarget::Screen, cmds, images);
    lemma_created_pipelines_add(o1 + o2, o3);
    assert(spec_cache_descriptions(f.mapper.pipeline_cache) =~= Seq::<RenderPipelineDescriptor>::empty());
    let cache = f3.mapper.pipeline_cache;
    let created = spec_created_pipelines(spec_render(r, surface, images, cmds).1);
    assert(created =~= spec_cache_descriptions(cache));
    assert forall|i: int, j: int| 0 <= i < created.len() && 0 <= j < created.len() && i != j implies created[i]
        != created[j] by {
        lemma_materialize_injective(cache[i], cache[j]);
    }
}

} // verus!
