//! Draw commands and how each is carried out: the sequence of target
//! switches, render-pass updates and draws that a command asks for.

use vstd::prelude::*;

use crate::bind_group::ImageOrTexture;
use crate::blend::{BlendOperation, BlendState, CompositeOperationState, GpuBlendFactor, blend_state, replace_blend_state, spec_blend_state, spec_replace_blend_state};
use crate::frame::LoadOp;
use crate::params::{GlyphTexture, ImageId, Params, ShaderType};
use crate::pipeline::{Face, PrimitiveTopology, StencilTest};
use crate::stencil::{
    FillRule, concave_fill_stencil, cover_stencil, fringe_stencil, spec_concave_fill_stencil,
    spec_cover_stencil, spec_fringe_stencil, spec_stroke_aa_stencil, spec_stroke_base_stencil,
    spec_stroke_clear_stencil, stroke_aa_stencil, stroke_base_stencil, stroke_clear_stencil,
};

verus! {

/// Where drawing goes.
#[derive(Clone, Copy, Debug, PartialEq, Eq, Hash, Structural)]
pub enum RenderTarget {
    Screen,
    Image(ImageId),
}

/// The vertex ranges of one path: its fill and its stroke (or fringe), each
/// as a first vertex and a vertex count.
#[derive(Clone, Copy, Debug)]
pub struct Drawable {
    pub fill_verts: Option<(usize, usize)>,
    pub stroke_verts: Option<(usize, usize)>,
}

/// What a command draws, with the parameters of each of its passes.
#[derive(Clone, Copy, Debug)]
pub enum CommandType {
    /// Draw into the surface or an image from now on.
    SetRenderTarget(RenderTarget),
    /// Overwrite a rectangle with a colour; `params` are the parameters of
    /// a plain colour paint of that colour.
    ClearRect { params: Params },
    /// Fill convex paths (and their fringes) in one pass.
    ConvexFill { params: Params },
    /// Fill arbitrary paths with the stencil buffer: count windings with
    /// `stencil_params`, then draw fringes and cover with `fill_params`.
    ConcaveFill { stencil_params: Params, fill_params: Params },
    /// Stroke paths in one pass.
    Stroke { params: Params },
    /// Stroke paths without overlapping themselves: `params2` for the base,
    /// `params1` for the anti-aliased edge and the clean-up.
    StencilStroke { params1: Params, params2: Params },
    /// Draw a triangle list.
    Triangles { params: Params },
    /// Blur the command's image into `target_image` in two passes;
    /// `blur_params` are the parameters of an image paint of the source with
    /// the blur's coefficients and sigma set (shader type and direction are
    /// set per pass).
    RenderFilteredImage { target_image: ImageId, blur_params: Params },
}

/// A draw command.
pub struct Command {
    pub cmd_type: CommandType,
    pub drawables: Vec<Drawable>,
    pub triangles_verts: Option<(usize, usize)>,
    pub image: Option<ImageId>,
    pub glyph_texture: GlyphTexture,
    pub fill_rule: FillRule,
    pub composite_operation: CompositeOperationState,
}

/// One thing a command asks of the frame.
#[derive(Clone, Copy, Debug)]
pub enum Step {
    /// Draw into the surface from now on.
    TargetScreen,
    /// Draw into a stored image from now on.
    TargetImage { id: ImageId, load: LoadOp },
    /// Make intermediate texture `number`, shaped like the source image's
    /// texture, and draw into it (cleared, no stencil buffer) from now on.
    TargetBlur { source: Option<ImageId>, number: usize },
    /// Prepare the render pass for a draw.
    Update {
        color_blend: Option<BlendState>,
        primitive_topology: PrimitiveTopology,
        stencil_test: StencilTest,
        cull_mode: Option<Face>,
        params: Params,
        image: Option<ImageOrTexture>,
        glyph_texture: GlyphTexture,
    },
    /// Draw `count` vertices from `start`.
    Draw { start: usize, count: usize },
}

/// An update step.
pub open spec fn spec_update(
    color_blend: Option<BlendState>,
    primitive_topology: PrimitiveTopology,
    stencil_test: StencilTest,
    cull_mode: Option<Face>,
    params: Params,
    image: Option<ImageOrTexture>,
    glyph_texture: GlyphTexture,
) -> Step {
    Step::Update {
        color_blend,
        primitive_topology,
        stencil_test,
        cull_mode,
        params,
        image,
        glyph_texture,
    }
}

/// An update then a draw of `verts`, if there are such vertices.
pub open spec fn spec_draw_if(verts: Option<(usize, usize)>, update: Step) -> Seq<Step> {
    match verts {
        Some((start, count)) => seq![update, Step::Draw { start, count }],
        None => seq![],
    }
}

/// A draw of `verts`, if there are such vertices.
pub open spec fn spec_draw_only(verts: Option<(usize, usize)>) -> Seq<Step> {
    match verts {
        Some((start, count)) => seq![Step::Draw { start, count }],
        None => seq![],
    }
}

/// The steps of each drawable, one after the other.
pub open spec fn spec_flat(ds: Seq<Drawable>, f: spec_fn(Drawable) -> Seq<Step>) -> Seq<Step>
    decreases ds.len(),
{
    if ds.len() == 0 {
        seq![]
    } else {
        spec_flat(ds.drop_last(), f) + f(ds.last())
    }
}

/// Per drawable: its fill, then its stroke, each drawn after its update.
pub open spec fn spec_fill_and_stroke_each(fill_update: Step, stroke_update: Step) -> spec_fn(
    Drawable,
) -> Seq<Step> {
    |d: Drawable| spec_draw_if(d.fill_verts, fill_update) + spec_draw_if(d.stroke_verts, stroke_update)
}

/// Per drawable: its stroke, drawn after the update.
pub open spec fn spec_stroke_each(update: Step) -> spec_fn(Drawable) -> Seq<Step> {
    |d: Drawable| spec_draw_if(d.stroke_verts, update)
}

/// Per drawable: the update, then its stroke if it has one.
pub open spec fn spec_fringe_each(update: Step) -> spec_fn(Drawable) -> Seq<Step> {
    |d: Drawable| seq![update] + spec_draw_only(d.stroke_verts)
}

/// Per drawable: a draw of its fill.
pub open spec fn spec_fill_draws() -> spec_fn(Drawable) -> Seq<Step> {
    |d: Drawable| spec_draw_only(d.fill_verts)
}

/// Per drawable: a draw of its stroke.
pub open spec fn spec_stroke_draws() -> spec_fn(Drawable) -> Seq<Step> {
    |d: Drawable| spec_draw_only(d.stroke_verts)
}

/// Whether some drawable has fill vertices.
pub open spec fn spec_any_fill(ds: Seq<Drawable>) -> bool {
    exists|i: int| 0 <= i < ds.len() && (#[trigger] ds[i]).fill_verts is Some
}

/// Whether some drawable has stroke vertices.
pub open spec fn spec_any_stroke(ds: Seq<Drawable>) -> bool {
    exists|i: int| 0 <= i < ds.len() && (#[trigger] ds[i]).stroke_verts is Some
}

/// The command's image, as something to sample.
pub open spec fn spec_command_image(image: Option<ImageId>) -> Option<ImageOrTexture> {
    match image {
        Some(id) => Some(ImageOrTexture::Image(id)),
        None => None,
    }
}

/// The float 1.0, as a bit pattern.
pub open spec fn spec_one_bits() -> u32 {
    0x3f80_0000
}

/// The parameters of the horizontal pass of a blur.
pub open spec fn spec_blur_horizontal(p: Params) -> Params {
    Params {
        shader_type: ShaderType::FilterImage,
        image_blur_filter_direction: [spec_one_bits(), 0],
        ..p
    }
}

/// The parameters of the vertical pass of a blur.
pub open spec fn spec_blur_vertical(p: Params) -> Params {
    Params {
        shader_type: ShaderType::FilterImage,
        image_blur_filter_direction: [0, spec_one_bits()],
        ..p
    }
}

/// The step that switches (back) to a render target, keeping its content.
pub open spec fn spec_target_step(t: RenderTarget) -> Step {
    match t {
        RenderTarget::Screen => Step::TargetScreen,
        RenderTarget::Image(id) => Step::TargetImage { id, load: LoadOp::Load },
    }
}

/// The steps of a command, given the render target in force before it and
/// the number its first intermediate texture gets:
///
/// * a target change switches target;
/// * a clear overwrites (no blending, no culling) its triangles with the
///   colour shader;
/// * a convex fill draws, per path, its fill as a triangle list and its
///   fringe as a strip, with the command's blending and back-face culling;
/// * a stroke draws each path's strip the same way;
/// * a concave fill counts windings of all fills into the stencil buffer
///   (colour writes off, no culling), then — if some path has a fringe —
///   draws every path's fringe where the count is zero, then draws the
///   covering triangles where it is not, zeroing it;
/// * a stencil stroke, if some path has a stroke, draws all strokes three
///   times: base (marking drawn pixels), anti-aliased edge (unmarked pixels
///   only), clean-up (clearing the marks, colour writes off);
/// * a triangle list is drawn once;
/// * an image filter draws the source horizontally blurred into a new
///   intermediate texture, then that texture vertically blurred into the
///   target image (both cleared first), then switches back to the target in
///   force before.
pub open spec fn spec_plan_command(
    cmd_type: CommandType,
    drawables: Seq<Drawable>,
    triangles_verts: Option<(usize, usize)>,
    image: Option<ImageId>,
    glyph_texture: GlyphTexture,
    fill_rule: FillRule,
    composite_operation: CompositeOperationState,
    target: RenderTarget,
    number: usize,
) -> Seq<Step> {
    let blend = Some(spec_blend_state(composite_operation));
    let img = spec_command_image(image);
    let back = Some(Face::Back);
    let list = PrimitiveTopology::TriangleList;
    let strip = PrimitiveTopology::TriangleStrip;
    match cmd_type {
        CommandType::SetRenderTarget(t) => seq![spec_target_step(t)],
        CommandType::ClearRect { params } => spec_draw_if(
            triangles_verts,
            spec_update(
                Some(spec_replace_blend_state()),
                list,
                StencilTest::Disabled,
                None,
                Params { shader_type: ShaderType::FillColorUnclipped, ..params },
                None,
                GlyphTexture::NoGlyphs,
            ),
        ),
        CommandType::ConvexFill { params } => spec_flat(
            drawables,
            spec_fill_and_stroke_each(
                spec_update(blend, list, StencilTest::Disabled, back, params, img, glyph_texture),
                spec_update(blend, strip, StencilTest::Disabled, back, params, img, glyph_texture),
            ),
        ),
        CommandType::ConcaveFill { stencil_params, fill_params } => {
            let count = if spec_any_fill(drawables) {
                seq![
                    spec_update(
                        None,
                        list,
                        StencilTest::Enabled {
                            stencil_state: spec_concave_fill_stencil(),
                            stencil_reference: 0,
                        },
                        None,
                        stencil_params,
                        None,
                        GlyphTexture::NoGlyphs,
                    ),
                ] + spec_flat(drawables, spec_fill_draws())
            } else {
                seq![]
            };
            let fringe_update = spec_update(
                blend,
                strip,
                StencilTest::Enabled { stencil_state: spec_fringe_stencil(fill_rule), stencil_reference: 0 },
                back,
                fill_params,
                img,
                glyph_texture,
            );
            let fringes = if spec_any_stroke(drawables) {
                spec_flat(drawables, spec_fringe_each(fringe_update))
            } else {
                seq![]
            };
            let cover = spec_draw_if(
                triangles_verts,
                spec_update(
                    blend,
                    strip,
                    StencilTest::Enabled { stencil_state: spec_cover_stencil(fill_rule), stencil_reference: 0 },
                    back,
                    fill_params,
                    img,
                    glyph_texture,
                ),
            );
            count + fringes + cover
        },
        CommandType::Stroke { params } => spec_flat(
            drawables,
            spec_stroke_each(
                spec_update(blend, strip, StencilTest::Disabled, back, params, img, glyph_texture),
            ),
        ),
        CommandType::StencilStroke { params1, params2 } => if spec_any_stroke(drawables) {
            let strokes = spec_flat(drawables, spec_stroke_draws());
            seq![
                spec_update(
                    blend,
                    strip,
                    StencilTest::Enabled { stencil_state: spec_stroke_base_stencil(), stencil_reference: 0 },
                    back,
                    params2,
                    img,
                    glyph_texture,
                ),
            ] + strokes + seq![
                spec_update(
                    blend,
                    strip,
                    StencilTest::Enabled { stencil_state: spec_stroke_aa_stencil(), stencil_reference: 0 },
                    back,
                    params1,
                    img,
                    glyph_texture,
                ),
            ] + strokes + seq![
                spec_update(
                    None,
                    strip,
                    StencilTest::Enabled { stencil_state: spec_stroke_clear_stencil(), stencil_reference: 0 },
                    back,
                    params1,
                    img,
                    glyph_texture,
                ),
            ] + strokes
        } else {
            seq![]
        },
        CommandType::Triangles { params } => spec_draw_if(
            triangles_verts,
            spec_update(blend, list, StencilTest::Disabled, back, params, img, glyph_texture),
        ),
        CommandType::RenderFilteredImage { target_image, blur_params } => seq![
            Step::TargetBlur { source: image, number },
        ] + spec_draw_if(
            triangles_verts,
            spec_update(
                blend,
                list,
                StencilTest::Disabled,
                back,
                spec_blur_horizontal(blur_params),
                img,
                glyph_texture,
            ),
        ) + seq![Step::TargetImage { id: target_image, load: LoadOp::Clear }] + spec_draw_if(
            triangles_verts,
            spec_update(
                blend,
                list,
                StencilTest::Disabled,
                back,
                spec_blur_vertical(blur_params),
                Some(ImageOrTexture::Texture(number)),
                glyph_texture,
            ),
        ) + seq![spec_target_step(target)],
    }
}

/// The render target in force after a command.
pub open spec fn spec_next_target(cmd_type: CommandType, target: RenderTarget) -> RenderTarget {
    match cmd_type {
        CommandType::SetRenderTarget(t) => t,
        _ => target,
    }
}

/// Whether a command makes an intermediate texture.
pub open spec fn spec_makes_texture(cmd_type: CommandType) -> bool {
    cmd_type is RenderFilteredImage
}

proof fn lemma_flat_take(ds: Seq<Drawable>, f: spec_fn(Drawable) -> Seq<Step>, i: int)
    requires
        0 <= i < ds.len(),
    ensures
        spec_flat(ds.take(i + 1), f) == spec_flat(ds.take(i), f) + f(ds[i]),
{
    assert(ds.take(i + 1).drop_last() =~= ds.take(i));
}

proof fn lemma_flat_all(ds: Seq<Drawable>, f: spec_fn(Drawable) -> Seq<Step>)
    ensures
        spec_flat(ds.take(ds.len() as int), f) == spec_flat(ds, f),
{
    assert(ds.take(ds.len() as int) =~= ds);
}

fn push_draw_if(steps: &mut Vec<Step>, verts: Option<(usize, usize)>, update: Step)
    ensures
        final(steps)@ == old(steps)@ + spec_draw_if(verts, update),
{
    match verts {
        Some((start, count)) => {
            steps.push(update);
            steps.push(Step::Draw { start, count });
            assert(steps@ =~= old(steps)@ + spec_draw_if(verts, update));
        },
        None => {
            assert(steps@ =~= old(steps)@ + spec_draw_if(verts, update));
        },
    }
}

fn push_draw_only(steps: &mut Vec<Step>, verts: Option<(usize, usize)>)
    ensures
        final(steps)@ == old(steps)@ + spec_draw_only(verts),
{
    match verts {
        Some((start, count)) => {
            steps.push(Step::Draw { start, count });
            assert(steps@ =~= old(steps)@ + spec_draw_only(verts));
        },
        None => {
            assert(steps@ =~= old(steps)@ + spec_draw_only(verts));
        },
    }
}

fn push_fill_and_stroke_each(
    steps: &mut Vec<Step>,
    ds: &Vec<Drawable>,
    fill_update: Step,
    stroke_update: Step,
)
    ensures
        final(steps)@ == old(steps)@ + spec_flat(ds@, spec_fill_and_stroke_each(fill_update, stroke_update)),
{
    let ghost f = spec_fill_and_stroke_each(fill_update, stroke_update);
    let mut i: usize = 0;
    while i < ds.len()
        invariant
            0 <= i <= ds@.len(),
            f == spec_fill_and_stroke_each(fill_update, stroke_update),
            steps@ == old(steps)@ + spec_flat(ds@.take(i as int), f),
        decreases ds@.len() - i,
    {
        let d = ds[i];
        let ghost before = steps@;
        push_draw_if(steps, d.fill_verts, fill_update);
        push_draw_if(steps, d.stroke_verts, stroke_update);
        proof {
            lemma_flat_take(ds@, f, i as int);
            assert(steps@ =~= old(steps)@ + spec_flat(ds@.take(i + 1), f));
        }
        i = i + 1;
    }
    proof { lemma_flat_all(ds@, f); }
}

fn push_stroke_each(steps: &mut Vec<Step>, ds: &Vec<Drawable>, update: Step)
    ensures
        final(steps)@ == old(steps)@ + spec_flat(ds@, spec_stroke_each(update)),
{
    let ghost f = spec_stroke_each(update);
    let mut i: usize = 0;
    while i < ds.len()
        invariant
            0 <= i <= ds@.len(),
            f == spec_stroke_each(update),
            steps@ == old(steps)@ + spec_flat(ds@.take(i as int), f),
        decreases ds@.len() - i,
    {
        let d = ds[i];
        push_draw_if(steps, d.stroke_verts, update);
        proof {
            lemma_flat_take(ds@, f, i as int);
            assert(steps@ =~= old(steps)@ + spec_flat(ds@.take(i + 1), f));
        }
        i = i + 1;
    }
    proof { lemma_flat_all(ds@, f); }
}

fn push_fringe_each(steps: &mut Vec<Step>, ds: &Vec<Drawable>, update: Step)
    ensures
        final(steps)@ == old(steps)@ + spec_flat(ds@, spec_fringe_each(update)),
{
    let ghost f = spec_fringe_each(update);
    let mut i: usize = 0;
    while i < ds.len()
        invariant
            0 <= i <= ds@.len(),
            f == spec_fringe_each(update),
            steps@ == old(steps)@ + spec_flat(ds@.take(i as int), f),
        decreases ds@.len() - i,
    {
        let d = ds[i];
        steps.push(update);
        push_draw_only(steps, d.stroke_verts);
        proof {
            lemma_flat_take(ds@, f, i as int);
            assert(steps@ =~= old(steps)@ + spec_flat(ds@.take(i + 1), f));
        }
        i = i + 1;
    }
    proof { lemma_flat_all(ds@, f); }
}

fn push_fill_draws(steps: &mut Vec<Step>, ds: &Vec<Drawable>)
    ensures
        final(steps)@ == old(steps)@ + spec_flat(ds@, spec_fill_draws()),
{
    let ghost f = spec_fill_draws();
    let mut i: usize = 0;
    while i < ds.len()
        invariant
            0 <= i <= ds@.len(),
            f == spec_fill_draws(),
            steps@ == old(steps)@ + spec_flat(ds@.take(i as int), f),
        decreases ds@.len() - i,
    {
        let d = ds[i];
        push_draw_only(steps, d.fill_verts);
        proof {
            lemma_flat_take(ds@, f, i as int);
            assert(steps@ =~= old(steps)@ + spec_flat(ds@.take(i + 1), f));
        }
        i = i + 1;
    }
    proof { lemma_flat_all(ds@, f); }
}

fn push_stroke_draws(steps: &mut Vec<Step>, ds: &Vec<Drawable>)
    ensures
        final(steps)@ == old(steps)@ + spec_flat(ds@, spec_stroke_draws()),
{
    let ghost f = spec_stroke_draws();
    let mut i: usize = 0;
    while i < ds.len()
        invariant
            0 <= i <= ds@.len(),
            f == spec_stroke_draws(),
            steps@ == old(steps)@ + spec_flat(ds@.take(i as int), f),
        decreases ds@.len() - i,
    {
        let d = ds[i];
        push_draw_only(steps, d.stroke_verts);
        proof {
            lemma_flat_take(ds@, f, i as int);
            assert(steps@ =~= old(steps)@ + spec_flat(ds@.take(i + 1), f));
        }
        i = i + 1;
    }
    proof { lemma_flat_all(ds@, f); }
}

fn any_fill(ds: &Vec<Drawable>) -> (r: bool)
    ensures
        r == spec_any_fill(ds@),
{
    let mut i: usize = 0;
    while i < ds.len()
        invariant
            0 <= i <= ds@.len(),
            forall|j: int| 0 <= j < i ==> (#[trigger] ds@[j]).fill_verts is None,
        decreases ds@.len() - i,
    {
        if ds[i].fill_verts.is_some() {
            assert((ds@[i as int]).fill_verts is Some);
            return true;
        }
        i = i + 1;
    }
    false
}

fn any_stroke(ds: &Vec<Drawable>) -> (r: bool)
    ensures
        r == spec_any_stroke(ds@),
{
    let mut i: usize = 0;
    while i < ds.len()
        invariant
            0 <= i <= ds@.len(),
            forall|j: int| 0 <= j < i ==> (#[trigger] ds@[j]).stroke_verts is None,
        decreases ds@.len() - i,
    {
        if ds[i].stroke_verts.is_some() {
            assert((ds@[i as int]).stroke_verts is Some);
            return true;
        }
        i = i + 1;
    }
    false
}

fn target_step(t: RenderTarget) -> (r: Step)
    ensures
        r == spec_target_step(t),
{
    match t {
        RenderTarget::Screen => Step::TargetScreen,
        RenderTarget::Image(id) => Step::TargetImage { id, load: LoadOp::Load },
    }
}

fn update(
    color_blend: Option<BlendState>,
    primitive_topology: PrimitiveTopology,
    stencil_test: StencilTest,
    cull_mode: Option<Face>,
    params: Params,
    image: Option<ImageOrTexture>,
    glyph_texture: GlyphTexture,
) -> (r: Step)
    ensures
        r == spec_update(color_blend, primitive_topology, stencil_test, cull_mode, params, image, glyph_texture),
{
    Step::Update { color_blend, primitive_topology, stencil_test, cull_mode, params, image, glyph_texture }
}

impl Command {
    /// The steps of this command (see `spec_plan_command`), given the render
    /// target in force before it and the number its intermediate texture gets.
    pub fn plan(&self, target: RenderTarget, number: usize) -> (r: Vec<Step>)
        ensures
            r@ == spec_plan_command(
                self.cmd_type,
                self.drawables@,
                self.triangles_verts,
                self.image,
                self.glyph_texture,
                self.fill_rule,
                self.composite_operation,
                target,
                number,
            ),
    {
        let blend = Some(blend_state(self.composite_operation));
        let img = match self.image {
            Some(id) => Some(ImageOrTexture::Image(id)),
            None => None,
        };
        let back = Some(Face::Back);
        let list = PrimitiveTopology::TriangleList;
        let strip = PrimitiveTopology::TriangleStrip;
        let glyph = self.glyph_texture;
        let mut steps: Vec<Step> = Vec::new();
        match self.cmd_type {
            CommandType::SetRenderTarget(t) => {
                steps.push(target_step(t));
            },
            CommandType::ClearRect { params } => {
                let mut clear_params = params;
                clear_params.shader_type = ShaderType::FillColorUnclipped;
                let u = update(
                    Some(replace_blend_state()),
                    list,
                    StencilTest::Disabled,
                    None,
                    clear_params,
                    None,
                    GlyphTexture::NoGlyphs,
                );
                push_draw_if(&mut steps, self.triangles_verts, u);
            },
            CommandType::ConvexFill { params } => {
                let fu = update(blend, list, StencilTest::Disabled, back, params, img, glyph);
                let su = update(blend, strip, StencilTest::Disabled, back, params, img, glyph);
                push_fill_and_stroke_each(&mut steps, &self.drawables, fu, su);
            },
            CommandType::ConcaveFill { stencil_params, fill_params } => {
                if any_fill(&self.drawables) {
                    steps.push(
                        update(
                            None,
                            list,
                            StencilTest::Enabled {
                                stencil_state: concave_fill_stencil(),
                                stencil_reference: 0,
                            },
                            None,
                            stencil_params,
                            None,
                            GlyphTexture::NoGlyphs,
                        ),
                    );
                    push_fill_draws(&mut steps, &self.drawables);
                }
                let ghost after_count = steps@;
                if any_stroke(&self.drawables) {
                    let fu = update(
                        blend,
                        strip,
                        StencilTest::Enabled {
                            stencil_state: fringe_stencil(self.fill_rule),
                            stencil_reference: 0,
                        },
                        back,
                        fill_params,
                        img,
                        glyph,
                    );
                    push_fringe_each(&mut steps, &self.drawables, fu);
                }
                let ghost after_fringes = steps@;
                let cu = update(
                    blend,
                    strip,
                    StencilTest::Enabled { stencil_state: cover_stencil(self.fill_rule), stencil_reference: 0 },
                    back,
                    fill_params,
                    img,
                    glyph,
                );
                push_draw_if(&mut steps, self.triangles_verts, cu);
                proof {
                    let spec = spec_plan_command(
                        self.cmd_type,
                        self.drawables@,
                        self.triangles_verts,
                        self.image,
                        self.glyph_texture,
                        self.fill_rule,
                        self.composite_operation,
                        target,
                        number,
                    );
                    assert(steps@ =~= spec);
                }
            },
            CommandType::Stroke { params } => {
                let u = update(blend, strip, StencilTest::Disabled, back, params, img, glyph);
                push_stroke_each(&mut steps, &self.drawables, u);
            },
            CommandType::StencilStroke { params1, params2 } => {
                if any_stroke(&self.drawables) {
                    steps.push(
                        update(
                            blend,
                            strip,
                            StencilTest::Enabled { stencil_state: stroke_base_stencil(), stencil_reference: 0 },
                            back,
                            params2,
                            img,
                            glyph,
                        ),
                    );
                    push_stroke_draws(&mut steps, &self.drawables);
                    steps.push(
                        update(
                            blend,
                            strip,
                            StencilTest::Enabled { stencil_state: stroke_aa_stencil(), stencil_reference: 0 },
                            back,
                            params1,
                            img,
                            glyph,
                        ),
                    );
                    push_stroke_draws(&mut steps, &self.drawables);
                    steps.push(
                        update(
                            None,
                            strip,
                            StencilTest::Enabled { stencil_state: stroke_clear_stencil(), stencil_reference: 0 },
                            back,
                            params1,
                            img,
                            glyph,
                        ),
                    );
                    push_stroke_draws(&mut steps, &self.drawables);
                    proof {
                        let spec = spec_plan_command(
                            self.cmd_type,
                            self.drawables@,
                            self.triangles_verts,
                            self.image,
                            self.glyph_texture,
                            self.fill_rule,
                            self.composite_operation,
                            target,
                            number,
                        );
                        assert(steps@ =~= spec);
                    }
                }
            },
            CommandType::Triangles { params } => {
                let u = update(blend, list, StencilTest::Disabled, back, params, img, glyph);
                push_draw_if(&mut steps, self.triangles_verts, u);
            },
            CommandType::RenderFilteredImage { target_image, blur_params } => {
                steps.push(Step::TargetBlur { source: self.image, number });
                let mut horizontal = blur_params;
                horizontal.shader_type = ShaderType::FilterImage;
                horizontal.image_blur_filter_direction = [0x3f80_0000, 0];
                let hu = update(blend, list, StencilTest::Disabled, back, horizontal, img, glyph);
                push_draw_if(&mut steps, self.triangles_verts, hu);
                steps.push(Step::TargetImage { id: target_image, load: LoadOp::Clear });
                let mut vertical = blur_params;
                vertical.shader_type = ShaderType::FilterImage;
                vertical.image_blur_filter_direction = [0, 0x3f80_0000];
                let vu = update(
                    blend,
                    list,
                    StencilTest::Disabled,
                    back,
                    vertical,
                    Some(ImageOrTexture::Texture(number)),
                    glyph,
                );
                push_draw_if(&mut steps, self.triangles_verts, vu);
                steps.push(target_step(target));
                proof {
                    let spec = spec_plan_command(
                        self.cmd_type,
                        self.drawables@,
                        self.triangles_verts,
                        self.image,
                        self.glyph_texture,
                        self.fill_rule,
                        self.composite_operation,
                        target,
                        number,
                    );
                    assert(horizontal == spec_blur_horizontal(blur_params));
                    assert(vertical == spec_blur_vertical(blur_params));
                    assert(steps@ =~= spec);
                }
            },
        }
        assert(steps@ =~= spec_plan_command(
            self.cmd_type,
            self.drawables@,
            self.triangles_verts,
            self.image,
            self.glyph_texture,
            self.fill_rule,
            self.composite_operation,
            target,
            number,
        ));
        steps
    }
}

/// Every draw in `steps` comes after some update in `steps`.
pub open spec fn spec_draws_prepared(steps: Seq<Step>) -> bool {
    forall|i: int|
        0 <= i < steps.len() && (#[trigger] steps[i]) is Draw ==> exists|j: int|
            0 <= j < i && (#[trigger] steps[j]) is Update
}

proof fn lemma_prepared_concat(a: Seq<Step>, b: Seq<Step>)
    requires
        spec_draws_prepared(a),
        spec_draws_prepared(b),
    ensures
        spec_draws_prepared(a + b),
{
    let c = a + b;
    assert forall|i: int| 0 <= i < c.len() && (#[trigger] c[i]) is Draw implies exists|j: int|
        0 <= j < i && (#[trigger] c[j]) is Update by {
        if i < a.len() {
            assert(a[i] is Draw);
            let j = choose|j: int| 0 <= j < i && (#[trigger] a[j]) is Update;
            assert(c[j] is Update);
        } else {
            assert(b[i - a.len()] is Draw);
            let j = choose|j: int| 0 <= j < i - a.len() && (#[trigger] b[j]) is Update;
            assert(c[j + a.len()] is Update);
        }
    }
}

proof fn lemma_prepared_after_update(u: Step, b: Seq<Step>)
    requires
        u is Update,
    ensures
        spec_draws_prepared(seq![u] + b),
{
    let c = seq![u] + b;
    assert forall|i: int| 0 <= i < c.len() && (#[trigger] c[i]) is Draw implies exists|j: int|
        0 <= j < i && (#[trigger] c[j]) is Update by {
        assert(c[0] is Update);
    }
}

proof fn lemma_prepared_draw_if(verts: Option<(usize, usize)>, u: Step)
    requires
        u is Update,
    ensures
        spec_draws_prepared(spec_draw_if(verts, u)),
{
    match verts {
        Some((start, count)) => {
            assert(spec_draw_if(verts, u) =~= seq![u] + seq![Step::Draw { start, count }]);
            lemma_prepared_after_update(u, seq![Step::Draw { start, count }]);
        },
        None => {},
    }
}

proof fn lemma_prepared_flat(ds: Seq<Drawable>, f: spec_fn(Drawable) -> Seq<Step>)
    requires
        forall|d: Drawable| #[trigger] spec_draws_prepared(f(d)),
    ensures
        spec_draws_prepared(spec_flat(ds, f)),
    decreases ds.len(),
{
    if ds.len() > 0 {
        lemma_prepared_flat(ds.drop_last(), f);
        assert(spec_draws_prepared(f(ds.last())));
        lemma_prepared_concat(spec_flat(ds.drop_last(), f), f(ds.last()));
    }
}

/// Every draw a command asks for comes after an update that prepares the
/// render pass for it, within the same command.
pub proof fn lemma_plan_draws_prepared(
    cmd_type: CommandType,
    drawables: Seq<Drawable>,
    triangles_verts: Option<(usize, usize)>,
    image: Option<ImageId>,
    glyph_texture: GlyphTexture,
    fill_rule: FillRule,
    composite_operation: CompositeOperationState,
    target: RenderTarget,
    number: usize,
)
    ensures
        spec_draws_prepared(
            spec_plan_command(
                cmd_type,
                drawables,
                triangles_verts,
                image,
                glyph_texture,
                fill_rule,
                composite_operation,
                target,
                number,
            ),
        ),
{
    let blend = Some(spec_blend_state(composite_operation));
    let img = spec_command_image(image);
    let back = Some(Face::Back);
    let list = PrimitiveTopology::TriangleList;
    let strip = PrimitiveTopology::TriangleStrip;
    let steps = spec_plan_command(
        cmd_type,
        drawables,
        triangles_verts,
        image,
        glyph_texture,
        fill_rule,
        composite_operation,
        target,
        number,
    );
    match cmd_type {
        CommandType::SetRenderTarget(t) => {},
        CommandType::ClearRect { params } => {
            lemma_prepared_draw_if(
                triangles_verts,
                spec_update(
                    Some(spec_replace_blend_state()),
                    list,
                    StencilTest::Disabled,
                    None,
                    Params { shader_type: ShaderType::FillColorUnclipped, ..params },
                    None,
                    GlyphTexture::NoGlyphs,
                ),
            );
        },
        CommandType::ConvexFill { params } => {
            let fu = spec_update(blend, list, StencilTest::Disabled, back, params, img, glyph_texture);
            let su = spec_update(blend, strip, StencilTest::Disabled, back, params, img, glyph_texture);
            let f = spec_fill_and_stroke_each(fu, su);
            assert forall|d: Drawable| #[trigger] spec_draws_prepared(f(d)) by {
                lemma_prepared_draw_if(d.fill_verts, fu);
                lemma_prepared_draw_if(d.stroke_verts, su);
                lemma_prepared_concat(spec_draw_if(d.fill_verts, fu), spec_draw_if(d.stroke_verts, su));
            }
            lemma_prepared_flat(drawables, f);
        },
        CommandType::ConcaveFill { stencil_params, fill_params } => {
            let cu = spec_update(
                None,
                list,
                StencilTest::Enabled { stencil_state: spec_concave_fill_stencil(), stencil_reference: 0 },
                None,
                stencil_params,
                None,
                GlyphTexture::NoGlyphs,
            );
            let count = if spec_any_fill(drawables) {
                seq![cu] + spec_flat(drawables, spec_fill_draws())
            } else {
                seq![]
            };
            if spec_any_fill(drawables) {
                lemma_prepared_after_update(cu, spec_flat(drawables, spec_fill_draws()));
            }
            let fringe_update = spec_update(
                blend,
                strip,
                StencilTest::Enabled { stencil_state: spec_fringe_stencil(fill_rule), stencil_reference: 0 },
                back,
                fill_params,
                img,
                glyph_texture,
            );
            let fe = spec_fringe_each(fringe_update);
            assert forall|d: Drawable| #[trigger] spec_draws_prepared(fe(d)) by {
                lemma_prepared_after_update(fringe_update, spec_draw_only(d.stroke_verts));
            }
            lemma_prepared_flat(drawables, fe);
            let fringes = if spec_any_stroke(drawables) {
                spec_flat(drawables, fe)
            } else {
                seq![]
            };
            let cover_update = spec_update(
                blend,
                strip,
                StencilTest::Enabled { stencil_state: spec_cover_stencil(fill_rule), stencil_reference: 0 },
                back,
                fill_params,
                img,
                glyph_texture,
            );
            lemma_prepared_draw_if(triangles_verts, cover_update);
            lemma_prepared_concat(count, fringes);
            lemma_prepared_concat(count + fringes, spec_draw_if(triangles_verts, cover_update));
        },
        CommandType::Stroke { params } => {
            let su = spec_update(blend, strip, StencilTest::Disabled, back, params, img, glyph_texture);
            let f = spec_stroke_each(su);
            assert forall|d: Drawable| #[trigger] spec_draws_prepared(f(d)) by {
                lemma_prepared_draw_if(d.stroke_verts, su);
            }
            lemma_prepared_flat(drawables, f);
        },
        CommandType::StencilStroke { params1, params2 } => {
            if spec_any_stroke(drawables) {
                let strokes = spec_flat(drawables, spec_stroke_draws());
                let u1 = spec_update(
                    blend,
                    strip,
                    StencilTest::Enabled { stencil_state: spec_stroke_base_stencil(), stencil_reference: 0 },
                    back,
                    params2,
                    img,
                    glyph_texture,
                );
                let u2 = spec_update(
                    blend,
                    strip,
                    StencilTest::Enabled { stencil_state: spec_stroke_aa_stencil(), stencil_reference: 0 },
                    back,
                    params1,
                    img,
                    glyph_texture,
                );
                let u3 = spec_update(
                    None,
                    strip,
                    StencilTest::Enabled { stencil_state: spec_stroke_clear_stencil(), stencil_reference: 0 },
                    back,
                    params1,
                    img,
                    glyph_texture,
                );
                let rest = strokes + seq![u2] + strokes + seq![u3] + strokes;
                lemma_prepared_after_update(u1, rest);
                assert(steps =~= seq![u1] + rest);
            }
        },
        CommandType::Triangles { params } => {
            lemma_prepared_draw_if(
                triangles_verts,
                spec_update(blend, list, StencilTest::Disabled, back, params, img, glyph_texture),
            );
        },
        CommandType::RenderFilteredImage { target_image, blur_params } => {
            let hu = spec_update(
                blend,
                list,
                StencilTest::Disabled,
                back,
                spec_blur_horizontal(blur_params),
                img,
                glyph_texture,
            );
            let vu = spec_update(
                blend,
                list,
                StencilTest::Disabled,
                back,
                spec_blur_vertical(blur_params),
                Some(ImageOrTexture::Texture(number)),
                glyph_texture,
            );
            let a = seq![Step::TargetBlur { source: image, number }];
            let b = spec_draw_if(triangles_verts, hu);
            let c = seq![Step::TargetImage { id: target_image, load: LoadOp::Clear }];
            let d = spec_draw_if(triangles_verts, vu);
            let e = seq![spec_target_step(target)];
            lemma_prepared_draw_if(triangles_verts, hu);
            lemma_prepared_draw_if(triangles_verts, vu);
            lemma_prepared_concat(a, b);
            lemma_prepared_concat(a + b, c);
            lemma_prepared_concat(a + b + c, d);
            lemma_prepared_concat(a + b + c + d, e);
        },
    }
}

/// An image filter leaves the target that was in force before it in force
/// after it, and its last step switches back to that target.
pub proof fn lemma_filter_restores_target(
    target_image: ImageId,
    blur_params: Params,
    drawables: Seq<Drawable>,
    triangles_verts: Option<(usize, usize)>,
    image: Option<ImageId>,
    glyph_texture: GlyphTexture,
    fill_rule: FillRule,
    composite_operation: CompositeOperationState,
    target: RenderTarget,
    number: usize,
)
    ensures
        ({
            let c = CommandType::RenderFilteredImage { target_image, blur_params };
            let steps = spec_plan_command(
                c,
                drawables,
                triangles_verts,
                image,
                glyph_texture,
                fill_rule,
                composite_operation,
                target,
                number,
            );
            &&& spec_next_target(c, target) == target
            &&& steps.len() >= 1
            &&& steps.last() == spec_target_step(target)
        }),
{
}

/// Whether every step in `steps` is an update or a draw, so that carrying
/// them out never switches the render target.
pub open spec fn spec_only_updates_and_draws(steps: Seq<Step>) -> bool {
    forall|i: int| 0 <= i < steps.len() ==> #[trigger] steps[i] is Update || steps[i] is Draw
}

proof fn lemma_only_concat(a: Seq<Step>, b: Seq<Step>)
    requires
        spec_only_updates_and_draws(a),
        spec_only_updates_and_draws(b),
    ensures
        spec_only_updates_and_draws(a + b),
{
    let c = a + b;
    assert forall|i: int| 0 <= i < c.len() implies #[trigger] c[i] is Update || c[i] is Draw by {
        if i < a.len() {
            assert(c[i] == a[i]);
        } else {
            assert(c[i] == b[i - a.len()]);
        }
    }
}

proof fn lemma_only_draw_if(verts: Option<(usize, usize)>, u: Step)
    requires
        u is Update,
    ensures
        spec_only_updates_and_draws(spec_draw_if(verts, u)),
        spec_only_updates_and_draws(spec_draw_only(verts)),
        spec_only_updates_and_draws(seq![u]),
{
}

proof fn lemma_only_flat(ds: Seq<Drawable>, f: spec_fn(Drawable) -> Seq<Step>)
    requires
        forall|d: Drawable| #[trigger] spec_only_updates_and_draws(f(d)),
    ensures
        spec_only_updates_and_draws(spec_flat(ds, f)),
    decreases ds.len(),
{
    if ds.len() > 0 {
        lemma_only_flat(ds.drop_last(), f);
        assert(spec_only_updates_and_draws(f(ds.last())));
        lemma_only_concat(spec_flat(ds.drop_last(), f), f(ds.last()));
    }
}

/// A command that neither sets the render target nor filters an image asks
/// only for updates and draws: it draws into the render target in force.
pub proof fn lemma_plan_keeps_target(
    cmd_type: CommandType,
    drawables: Seq<Drawable>,
    triangles_verts: Option<(usize, usize)>,
    image: Option<ImageId>,
    glyph_texture: GlyphTexture,
    fill_rule: FillRule,
    composite_operation: CompositeOperationState,
    target: RenderTarget,
    number: usize,
)
    requires
        !(cmd_type is SetRenderTarget),
        !(cmd_type is RenderFilteredImage),
    ensures
        spec_only_updates_and_draws(
            spec_plan_command(
                cmd_type,
                drawables,
                triangles_verts,
                image,
                glyph_texture,
                fill_rule,
                composite_operation,
                target,
                number,
            ),
        ),
{
    let blend = Some(spec_blend_state(composite_operation));
    let img = spec_command_image(image);
    let back = Some(Face::Back);
    let list = PrimitiveTopology::TriangleList;
    let strip = PrimitiveTopology::TriangleStrip;
    let steps = spec_plan_command(
        cmd_type,
        drawables,
        triangles_verts,
        image,
        glyph_texture,
        fill_rule,
        composite_operation,
        target,
        number,
    );
    match cmd_type {
        CommandType::ClearRect { params } => {
            lemma_only_draw_if(
                triangles_verts,
                spec_update(
                    Some(spec_replace_blend_state()),
                    list,
                    StencilTest::Disabled,
                    None,
                    Params { shader_type: ShaderType::FillColorUnclipped, ..params },
                    None,
                    GlyphTexture::NoGlyphs,
                ),
            );
        },
        CommandType::ConvexFill { params } => {
            let fu = spec_update(blend, list, StencilTest::Disabled, back, params, img, glyph_texture);
            let su = spec_update(blend, strip, StencilTest::Disabled, back, params, img, glyph_texture);
            let f = spec_fill_and_stroke_each(fu, su);
            assert forall|d: Drawable| #[trigger] spec_only_updates_and_draws(f(d)) by {
                lemma_only_draw_if(d.fill_verts, fu);
                lemma_only_draw_if(d.stroke_verts, su);
                lemma_only_concat(spec_draw_if(d.fill_verts, fu), spec_draw_if(d.stroke_verts, su));
            }
            lemma_only_flat(drawables, f);
        },
        CommandType::ConcaveFill { stencil_params, fill_params } => {
            let cu = spec_update(
                None,
                list,
                StencilTest::Enabled { stencil_state: spec_concave_fill_stencil(), stencil_reference: 0 },
                None,
                stencil_params,
                None,
                GlyphTexture::NoGlyphs,
            );
            let fd = spec_fill_draws();
            assert forall|d: Drawable| #[trigger] spec_only_updates_and_draws(fd(d)) by {
                lemma_only_draw_if(d.fill_verts, cu);
            }
            lemma_only_flat(drawables, fd);
            lemma_only_draw_if(None, cu);
            lemma_only_concat(seq![cu], spec_flat(drawables, fd));
            let count = if spec_any_fill(drawables) {
                seq![cu] + spec_flat(drawables, fd)
            } else {
                seq![]
            };
            let fringe_update = spec_update(
                blend,
                strip,
                StencilTest::Enabled { stencil_state: spec_fringe_stencil(fill_rule), stencil_reference: 0 },
                back,
                fill_params,
                img,
                glyph_texture,
            );
            let fe = spec_fringe_each(fringe_update);
            assert forall|d: Drawable| #[trigger] spec_only_updates_and_draws(fe(d)) by {
                lemma_only_draw_if(d.stroke_verts, fringe_update);
                lemma_only_concat(seq![fringe_update], spec_draw_only(d.stroke_verts));
            }
            lemma_only_flat(drawables, fe);
            let fringes = if spec_any_stroke(drawables) {
                spec_flat(drawables, fe)
            } else {
                seq![]
            };
            let cover_update = spec_update(
                blend,
                strip,
                StencilTest::Enabled { stencil_state: spec_cover_stencil(fill_rule), stencil_reference: 0 },
                back,
                fill_params,
                img,
                glyph_texture,
            );
            lemma_only_draw_if(triangles_verts, cover_update);
            lemma_only_concat(count, fringes);
            lemma_only_concat(count + fringes, spec_draw_if(triangles_verts, cover_update));
        },
        CommandType::Stroke { params } => {
            let su = spec_update(blend, strip, StencilTest::Disabled, back, params, img, glyph_texture);
            let f = spec_stroke_each(su);
            assert forall|d: Drawable| #[trigger] spec_only_updates_and_draws(f(d)) by {
                lemma_only_draw_if(d.stroke_verts, su);
            }
            lemma_only_flat(drawables, f);
        },
        CommandType::StencilStroke { params1, params2 } => {
            if spec_any_stroke(drawables) {
                let sd = spec_stroke_draws();
                let u1 = spec_update(
                    blend,
                    strip,
                    StencilTest::Enabled { stencil_state: spec_stroke_base_stencil(), stencil_reference: 0 },
                    back,
                    params2,
                    img,
                    glyph_texture,
                );
                let u2 = spec_update(
                    blend,
                    strip,
                    StencilTest::Enabled { stencil_state: spec_stroke_aa_stencil(), stencil_reference: 0 },
                    back,
                    params1,
                    img,
                    glyph_texture,
                );
                let u3 = spec_update(
                    None,
                    strip,
                    StencilTest::Enabled { stencil_state: spec_stroke_clear_stencil(), stencil_reference: 0 },
                    back,
                    params1,
                    img,
                    glyph_texture,
                );
                assert forall|d: Drawable| #[trigger] spec_only_updates_and_draws(sd(d)) by {
                    lemma_only_draw_if(d.stroke_verts, u1);
                }
                lemma_only_flat(drawables, sd);
                let strokes = spec_flat(drawables, sd);
                lemma_only_draw_if(None, u1);
                lemma_only_draw_if(None, u2);
                lemma_only_draw_if(None, u3);
                lemma_only_concat(seq![u1], strokes);
                lemma_only_concat(seq![u1] + strokes, seq![u2]);
                lemma_only_concat(seq![u1] + strokes + seq![u2], strokes);
                lemma_only_concat(seq![u1] + strokes + seq![u2] + strokes, seq![u3]);
                lemma_only_concat(seq![u1] + strokes + seq![u2] + strokes + seq![u3], strokes);
            }
        },
        CommandType::Triangles { params } => {
            lemma_only_draw_if(
                triangles_verts,
                spec_update(blend, list, StencilTest::Disabled, back, params, img, glyph_texture),
            );
        },
        _ => {},
    }
}

/// Whether every update among `steps` meets `ok`.
pub open spec fn spec_updates_meet(steps: Seq<Step>, ok: spec_fn(Step) -> bool) -> bool {
    forall|i: int| 0 <= i < steps.len() && (#[trigger] steps[i]) is Update ==> ok(steps[i])
}

proof fn lemma_updates_meet_concat(a: Seq<Step>, b: Seq<Step>, ok: spec_fn(Step) -> bool)
    requires
        spec_updates_meet(a, ok),
        spec_updates_meet(b, ok),
    ensures
        spec_updates_meet(a + b, ok),
{
    let c = a + b;
    assert forall|i: int| 0 <= i < c.len() && (#[trigger] c[i]) is Update implies ok(c[i]) by {
        if i < a.len() {
            assert(c[i] == a[i]);
        } else {
            assert(c[i] == b[i - a.len()]);
        }
    }
}

proof fn lemma_updates_meet_flat(ds: Seq<Drawable>, f: spec_fn(Drawable) -> Seq<Step>, ok: spec_fn(Step) -> bool)
    requires
        forall|d: Drawable| #[trigger] spec_updates_meet(f(d), ok),
    ensures
        spec_updates_meet(spec_flat(ds, f), ok),
    decreases ds.len(),
{
    if ds.len() > 0 {
        lemma_updates_meet_flat(ds.drop_last(), f, ok);
        assert(spec_updates_meet(f(ds.last()), ok));
        lemma_updates_meet_concat(spec_flat(ds.drop_last(), f), f(ds.last()), ok);
    }
}

proof fn lemma_updates_meet_small(verts: Option<(usize, usize)>, u: Step, ok: spec_fn(Step) -> bool)
    requires
        ok(u),
    ensures
        spec_updates_meet(spec_draw_if(verts, u), ok),
        spec_updates_meet(spec_draw_only(verts), ok),
        spec_updates_meet(seq![u], ok),
        spec_updates_meet(Seq::<Step>::empty(), ok),
{
    assert(seq![u][0] == u);
    if let Some((start, count)) = verts {
        assert(spec_draw_if(verts, u)[0] == u);
    }
}

/// A concave fill paints with its fill parameters: every update of its
/// plan that blends (the fringes and the cover, which draw colour) carries
/// the fill parameters, the command's blending, image and glyph texture;
/// every update that does not blend (the winding count, which writes no
/// colour) carries the stencil parameters and samples nothing.
pub proof fn lemma_concave_fill_paints_with_fill_params(
    stencil_params: Params,
    fill_params: Params,
    drawables: Seq<Drawable>,
    triangles_verts: Option<(usize, usize)>,
    image: Option<ImageId>,
    glyph_texture: GlyphTexture,
    fill_rule: FillRule,
    composite_operation: CompositeOperationState,
    target: RenderTarget,
    number: usize,
)
    ensures
        ({
            let steps = spec_plan_command(
                CommandType::ConcaveFill { stencil_params, fill_params },
                drawables,
                triangles_verts,
                image,
                glyph_texture,
                fill_rule,
                composite_operation,
                target,
                number,
            );
            forall|i: int|
                0 <= i < steps.len() ==> (#[trigger] steps[i] matches Step::Update {
                    color_blend,
                    params,
                    image: sampled,
                    glyph_texture: glyphs,
                    ..
                } ==> {
                    &&& color_blend is Some ==> {
                        &&& params == fill_params
                        &&& color_blend == Some(spec_blend_state(composite_operation))
                        &&& sampled == spec_command_image(image)
                        &&& glyphs == glyph_texture
                    }
                    &&& color_blend is None ==> {
                        &&& params == stencil_params
                        &&& sampled is None
                        &&& glyphs == GlyphTexture::NoGlyphs
                    }
                })
        }),
{
    let blend = Some(spec_blend_state(composite_operation));
    let img = spec_command_image(image);
    let back = Some(Face::Back);
    let list = PrimitiveTopology::TriangleList;
    let strip = PrimitiveTopology::TriangleStrip;
    let ok = |u: Step|
        match u {
            Step::Update { color_blend, params, image: sampled, glyph_texture: glyphs, .. } => {
                &&& color_blend is Some ==> {
                    &&& params == fill_params
                    &&& color_blend == blend
                    &&& sampled == img
                    &&& glyphs == glyph_texture
                }
                &&& color_blend is None ==> {
                    &&& params == stencil_params
                    &&& sampled is None
                    &&& glyphs == GlyphTexture::NoGlyphs
                }
            },
            _ => true,
        };
    let cu = spec_update(
        None,
        list,
        StencilTest::Enabled { stencil_state: spec_concave_fill_stencil(), stencil_reference: 0 },
        None,
        stencil_params,
        None,
        GlyphTexture::NoGlyphs,
    );
    let fd = spec_fill_draws();
    assert forall|d: Drawable| #[trigger] spec_updates_meet(fd(d), ok) by {
        lemma_updates_meet_small(d.fill_verts, cu, ok);
    }
    lemma_updates_meet_flat(drawables, fd, ok);
    lemma_updates_meet_small(None, cu, ok);
    lemma_updates_meet_concat(seq![cu], spec_flat(drawables, fd), ok);
    let count = if spec_any_fill(drawables) {
        seq![cu] + spec_flat(drawables, fd)
    } else {
        seq![]
    };
    let fringe_update = spec_update(
        blend,
        strip,
        StencilTest::Enabled { stencil_state: spec_fringe_stencil(fill_rule), stencil_reference: 0 },
        back,
        fill_params,
        img,
        glyph_texture,
    );
    let fe = spec_fringe_each(fringe_update);
    assert forall|d: Drawable| #[trigger] spec_updates_meet(fe(d), ok) by {
        lemma_updates_meet_small(d.stroke_verts, fringe_update, ok);
        lemma_updates_meet_concat(seq![fringe_update], spec_draw_only(d.stroke_verts), ok);
    }
    lemma_updates_meet_flat(drawables, fe, ok);
    let fringes = if spec_any_stroke(drawables) {
        spec_flat(drawables, fe)
    } else {
        seq![]
    };
    let cover_update = spec_update(
        blend,
        strip,
        StencilTest::Enabled { stencil_state: spec_cover_stencil(fill_rule), stencil_reference: 0 },
        back,
        fill_params,
        img,
        glyph_texture,
    );
    lemma_updates_meet_small(triangles_verts, cover_update, ok);
    lemma_updates_meet_concat(count, fringes, ok);
    lemma_updates_meet_concat(count + fringes, spec_draw_if(triangles_verts, cover_update), ok);
    let steps = spec_plan_command(
        CommandType::ConcaveFill { stencil_params, fill_params },
        drawables,
        triangles_verts,
        image,
        glyph_texture,
        fill_rule,
        composite_operation,
        target,
        number,
    );
    assert(steps == count + fringes + spec_draw_if(triangles_verts, cover_update));
    assert forall|i: int| 0 <= i < steps.len() implies (#[trigger] steps[i] matches Step::Update {
        color_blend,
        params,
        image: sampled,
        glyph_texture: glyphs,
        ..
    } ==> {
        &&& color_blend is Some ==> {
            &&& params == fill_params
            &&& color_blend == Some(spec_blend_state(composite_operation))
            &&& sampled == spec_command_image(image)
            &&& glyphs == glyph_texture
        }
        &&& color_blend is None ==> {
            &&& params == stencil_params
            &&& sampled is None
            &&& glyphs == GlyphTexture::NoGlyphs
        }
    }) by {
        if steps[i] is Update {
            assert(ok(steps[i]));
        }
    }
}

proof fn lemma_updates_meet_one(x: Step, ok: spec_fn(Step) -> bool)
    requires
        x is Update ==> ok(x),
    ensures
        spec_updates_meet(seq![x], ok),
{
    assert(seq![x][0] == x);
}

/// An update that paints one pass of a command: with the given parameters,
/// the command's blending, no stencil test, back faces culled, and the
/// command's image and glyph texture.
pub open spec fn spec_paints_with(
    u: Step,
    params: Params,
    composite_operation: CompositeOperationState,
    image: Option<ImageId>,
    glyph_texture: GlyphTexture,
) -> bool {
    u matches Step::Update {
        color_blend: b,
        stencil_test: t,
        cull_mode: c,
        params: q,
        image: sampled,
        glyph_texture: g,
        ..
    } && b == Some(spec_blend_state(composite_operation)) && t is Disabled && c == Some(Face::Back)
        && q == params && sampled == spec_command_image(image) && g == glyph_texture
}

/// Convex fills, strokes and triangle lists paint every pass with the
/// command's parameters, blending, image and glyph texture, without a
/// stencil test and culling back faces: fills as triangle lists, strokes and
/// fringes as strips, triangle lists as lists.
pub proof fn lemma_single_pass_commands_paint_with_their_params(
    cmd_type: CommandType,
    drawables: Seq<Drawable>,
    triangles_verts: Option<(usize, usize)>,
    image: Option<ImageId>,
    glyph_texture: GlyphTexture,
    fill_rule: FillRule,
    composite_operation: CompositeOperationState,
    target: RenderTarget,
    number: usize,
)
    ensures
        ({
            let steps = spec_plan_command(
                cmd_type,
                drawables,
                triangles_verts,
                image,
                glyph_texture,
                fill_rule,
                composite_operation,
                target,
                number,
            );
            &&& (cmd_type matches CommandType::ConvexFill { params } ==> forall|i: int|
                0 <= i < steps.len() && (#[trigger] steps[i]) is Update ==> spec_paints_with(
                    steps[i],
                    params,
                    composite_operation,
                    image,
                    glyph_texture,
                ) && (steps[i]->primitive_topology == PrimitiveTopology::TriangleList
                    || steps[i]->primitive_topology == PrimitiveTopology::TriangleStrip))
            &&& (cmd_type matches CommandType::Stroke { params } ==> forall|i: int|
                0 <= i < steps.len() && (#[trigger] steps[i]) is Update ==> spec_paints_with(
                    steps[i],
                    params,
                    composite_operation,
                    image,
                    glyph_texture,
                ) && steps[i]->primitive_topology == PrimitiveTopology::TriangleStrip)
            &&& (cmd_type matches CommandType::Triangles { params } ==> forall|i: int|
                0 <= i < steps.len() && (#[trigger] steps[i]) is Update ==> spec_paints_with(
                    steps[i],
                    params,
                    composite_operation,
                    image,
                    glyph_texture,
                ) && steps[i]->primitive_topology == PrimitiveTopology::TriangleList)
        }),
{
    let blend = Some(spec_blend_state(composite_operation));
    let img = spec_command_image(image);
    let back = Some(Face::Back);
    let list = PrimitiveTopology::TriangleList;
    let strip = PrimitiveTopology::TriangleStrip;
    let steps = spec_plan_command(
        cmd_type,
        drawables,
        triangles_verts,
        image,
        glyph_texture,
        fill_rule,
        composite_operation,
        target,
        number,
    );
    match cmd_type {
        CommandType::ConvexFill { params } => {
            let ok = |u: Step|
                spec_paints_with(u, params, composite_operation, image, glyph_texture) && (u->primitive_topology
                    == PrimitiveTopology::TriangleList || u->primitive_topology == PrimitiveTopology::TriangleStrip);
            let fu = spec_update(blend, list, StencilTest::Disabled, back, params, img, glyph_texture);
            let su = spec_update(blend, strip, StencilTest::Disabled, back, params, img, glyph_texture);
            let f = spec_fill_and_stroke_each(fu, su);
            assert forall|d: Drawable| #[trigger] spec_updates_meet(f(d), ok) by {
                lemma_updates_meet_small(d.fill_verts, fu, ok);
                lemma_updates_meet_small(d.stroke_verts, su, ok);
                lemma_updates_meet_concat(spec_draw_if(d.fill_verts, fu), spec_draw_if(d.stroke_verts, su), ok);
            }
            lemma_updates_meet_flat(drawables, f, ok);
            assert forall|i: int| 0 <= i < steps.len() && (#[trigger] steps[i]) is Update implies ok(steps[i]) by {}
        },
        CommandType::Stroke { params } => {
            let ok = |u: Step|
                spec_paints_with(u, params, composite_operation, image, glyph_texture) && u->primitive_topology
                    == PrimitiveTopology::TriangleStrip;
            let su = spec_update(blend, strip, StencilTest::Disabled, back, params, img, glyph_texture);
            let f = spec_stroke_each(su);
            assert forall|d: Drawable| #[trigger] spec_updates_meet(f(d), ok) by {
                lemma_updates_meet_small(d.stroke_verts, su, ok);
            }
            lemma_updates_meet_flat(drawables, f, ok);
            assert forall|i: int| 0 <= i < steps.len() && (#[trigger] steps[i]) is Update implies ok(steps[i]) by {}
        },
        CommandType::Triangles { params } => {
            let ok = |u: Step|
                spec_paints_with(u, params, composite_operation, image, glyph_texture) && u->primitive_topology
                    == PrimitiveTopology::TriangleList;
            let tu = spec_update(blend, list, StencilTest::Disabled, back, params, img, glyph_texture);
            lemma_updates_meet_small(triangles_verts, tu, ok);
            assert forall|i: int| 0 <= i < steps.len() && (#[trigger] steps[i]) is Update implies ok(steps[i]) by {}
        },
        _ => {},
    }
}

/// A clear overwrites: its pass runs the unclipped colour shader with the
/// command's parameters otherwise unchanged, replaces the destination (one
/// times the source plus zero times the destination, colour and alpha),
/// tests no stencil, culls nothing, samples no image and no glyphs, and
/// draws a triangle list.
pub proof fn lemma_clear_rect_overwrites(
    params: Params,
    drawables: Seq<Drawable>,
    triangles_verts: Option<(usize, usize)>,
    image: Option<ImageId>,
    glyph_texture: GlyphTexture,
    fill_rule: FillRule,
    composite_operation: CompositeOperationState,
    target: RenderTarget,
    number: usize,
)
    ensures
        ({
            let steps = spec_plan_command(
                CommandType::ClearRect { params },
                drawables,
                triangles_verts,
                image,
                glyph_texture,
                fill_rule,
                composite_operation,
                target,
                number,
            );
            forall|i: int|
                0 <= i < steps.len() ==> (#[trigger] steps[i] matches Step::Update {
                    color_blend: Some(b),
                    primitive_topology,
                    stencil_test,
                    cull_mode,
                    params: q,
                    image: sampled,
                    glyph_texture: g,
                } ==> {
                    &&& q.shader_type == ShaderType::FillColorUnclipped
                    &&& q == Params { shader_type: q.shader_type, ..params }
                    &&& b.color.src_factor == GpuBlendFactor::One
                    &&& b.color.dst_factor == GpuBlendFactor::Zero
                    &&& b.color.operation == BlendOperation::Add
                    &&& b.alpha == b.color
                    &&& primitive_topology == PrimitiveTopology::TriangleList
                    &&& stencil_test is Disabled
                    &&& cull_mode is None
                    &&& sampled is None
                    &&& g == GlyphTexture::NoGlyphs
                }) && (steps[i] is Update ==> steps[i]->color_blend is Some)
        }),
{
}

/// A stencil stroke's passes all test the stencil against zero, cull back
/// faces, draw strips and sample the command's image and glyphs: the
/// marking base pass paints with the second parameters, the anti-aliased
/// pass with the first, and the clean-up pass, which paints nothing, with
/// the first.
pub proof fn lemma_stencil_stroke_passes(
    params1: Params,
    params2: Params,
    drawables: Seq<Drawable>,
    triangles_verts: Option<(usize, usize)>,
    image: Option<ImageId>,
    glyph_texture: GlyphTexture,
    fill_rule: FillRule,
    composite_operation: CompositeOperationState,
    target: RenderTarget,
    number: usize,
)
    ensures
        ({
            let steps = spec_plan_command(
                CommandType::StencilStroke { params1, params2 },
                drawables,
                triangles_verts,
                image,
                glyph_texture,
                fill_rule,
                composite_operation,
                target,
                number,
            );
            forall|i: int|
                0 <= i < steps.len() ==> (#[trigger] steps[i] matches Step::Update {
                    color_blend,
                    primitive_topology,
                    stencil_test: StencilTest::Enabled { stencil_state, stencil_reference },
                    cull_mode,
                    params,
                    image: sampled,
                    glyph_texture: g,
                } ==> {
                    &&& stencil_reference == 0
                    &&& primitive_topology == PrimitiveTopology::TriangleStrip
                    &&& cull_mode == Some(Face::Back)
                    &&& sampled == spec_command_image(image)
                    &&& g == glyph_texture
                    &&& {
                        ||| stencil_state == spec_stroke_base_stencil() && params == params2 && color_blend
                            == Some(spec_blend_state(composite_operation))
                        ||| stencil_state == spec_stroke_aa_stencil() && params == params1 && color_blend
                            == Some(spec_blend_state(composite_operation))
                        ||| stencil_state == spec_stroke_clear_stencil() && params == params1 && color_blend
                            is None
                    }
                }) && (steps[i] is Update ==> steps[i]->stencil_test is Enabled)
        }),
{
    let blend = Some(spec_blend_state(composite_operation));
    let img = spec_command_image(image);
    let back = Some(Face::Back);
    let strip = PrimitiveTopology::TriangleStrip;
    let steps = spec_plan_command(
        CommandType::StencilStroke { params1, params2 },
        drawables,
        triangles_verts,
        image,
        glyph_texture,
        fill_rule,
        composite_operation,
        target,
        number,
    );
    let ok = |u: Step|
        u matches Step::Update {
            color_blend,
            primitive_topology,
            stencil_test: StencilTest::Enabled { stencil_state, stencil_reference },
            cull_mode,
            params,
            image: sampled,
            glyph_texture: g,
        } && stencil_reference == 0 && primitive_topology == strip && cull_mode == back && sampled == img
            && g == glyph_texture && {
            ||| stencil_state == spec_stroke_base_stencil() && params == params2 && color_blend == blend
            ||| stencil_state == spec_stroke_aa_stencil() && params == params1 && color_blend == blend
            ||| stencil_state == spec_stroke_clear_stencil() && params == params1 && color_blend is None
        };
    if spec_any_stroke(drawables) {
        let sd = spec_stroke_draws();
        let u1 = spec_update(
            blend,
            strip,
            StencilTest::Enabled { stencil_state: spec_stroke_base_stencil(), stencil_reference: 0 },
            back,
            params2,
            img,
            glyph_texture,
        );
        let u2 = spec_update(
            blend,
            strip,
            StencilTest::Enabled { stencil_state: spec_stroke_aa_stencil(), stencil_reference: 0 },
            back,
            params1,
            img,
            glyph_texture,
        );
        let u3 = spec_update(
            None,
            strip,
            StencilTest::Enabled { stencil_state: spec_stroke_clear_stencil(), stencil_reference: 0 },
            back,
            params1,
            img,
            glyph_texture,
        );
        assert forall|d: Drawable| #[trigger] spec_updates_meet(sd(d), ok) by {
            lemma_updates_meet_small(d.stroke_verts, u1, ok);
        }
        lemma_updates_meet_flat(drawables, sd, ok);
        let strokes = spec_flat(drawables, sd);
        lemma_updates_meet_one(u1, ok);
        lemma_updates_meet_one(u2, ok);
        lemma_updates_meet_one(u3, ok);
        lemma_updates_meet_concat(seq![u1], strokes, ok);
        lemma_updates_meet_concat(seq![u1] + strokes, seq![u2], ok);
        lemma_updates_meet_concat(seq![u1] + strokes + seq![u2], strokes, ok);
        lemma_updates_meet_concat(seq![u1] + strokes + seq![u2] + strokes, seq![u3], ok);
        lemma_updates_meet_concat(seq![u1] + strokes + seq![u2] + strokes + seq![u3], strokes, ok);
        assert(steps =~= seq![u1] + strokes + seq![u2] + strokes + seq![u3] + strokes);
    }
    assert forall|i: int| 0 <= i < steps.len() && (#[trigger] steps[i]) is Update implies ok(steps[i]) by {}
}

/// An image filter blurs in two passes with the filter shader and the
/// command's blur parameters: horizontally while sampling the command's
/// image, then vertically while sampling the intermediate texture the first
/// pass drew into; both blend as the command asks, test no stencil, cull
/// back faces and draw triangle lists.
pub proof fn lemma_filter_blurs_in_two_directions(
    target_image: ImageId,
    blur_params: Params,
    drawables: Seq<Drawable>,
    triangles_verts: Option<(usize, usize)>,
    image: Option<ImageId>,
    glyph_texture: GlyphTexture,
    fill_rule: FillRule,
    composite_operation: CompositeOperationState,
    target: RenderTarget,
    number: usize,
)
    ensures
        ({
            let steps = spec_plan_command(
                CommandType::RenderFilteredImage { target_image, blur_params },
                drawables,
                triangles_verts,
                image,
                glyph_texture,
                fill_rule,
                composite_operation,
                target,
                number,
            );
            &&& steps[0] == (Step::TargetBlur { source: image, number })
            &&& forall|i: int|
                0 <= i < steps.len() ==> (#[trigger] steps[i] matches Step::Update {
                    color_blend,
                    primitive_topology,
                    stencil_test,
                    cull_mode,
                    params,
                    image: sampled,
                    glyph_texture: g,
                } ==> {
                    &&& params.shader_type == ShaderType::FilterImage
                    &&& params == Params {
                        shader_type: params.shader_type,
                        image_blur_filter_direction: params.image_blur_filter_direction,
                        ..blur_params
                    }
                    &&& (sampled == spec_command_image(image) && params.image_blur_filter_direction
                        == [0x3f80_0000u32, 0] || sampled == Some(ImageOrTexture::Texture(number))
                        && params.image_blur_filter_direction == [0u32, 0x3f80_0000])
                    &&& color_blend == Some(spec_blend_state(composite_operation))
                    &&& primitive_topology == PrimitiveTopology::TriangleList
                    &&& stencil_test is Disabled
                    &&& cull_mode == Some(Face::Back)
                    &&& g == glyph_texture
                })
        }),
{
    let blend = Some(spec_blend_state(composite_operation));
    let img = spec_command_image(image);
    let back = Some(Face::Back);
    let list = PrimitiveTopology::TriangleList;
    let steps = spec_plan_command(
        CommandType::RenderFilteredImage { target_image, blur_params },
        drawables,
        triangles_verts,
        image,
        glyph_texture,
        fill_rule,
        composite_operation,
        target,
        number,
    );
    let ok = |u: Step|
        u matches Step::Update {
            color_blend,
            primitive_topology,
            stencil_test,
            cull_mode,
            params,
            image: sampled,
            glyph_texture: g,
        } && params.shader_type == ShaderType::FilterImage && params == Params {
            shader_type: params.shader_type,
            image_blur_filter_direction: params.image_blur_filter_direction,
            ..blur_params
        } && (sampled == img && params.image_blur_filter_direction == [0x3f80_0000u32, 0] || sampled
            == Some(ImageOrTexture::Texture(number)) && params.image_blur_filter_direction == [
            0u32,
            0x3f80_0000,
        ]) && color_blend == blend && primitive_topology == list && stencil_test is Disabled && cull_mode
            == back && g == glyph_texture;
    let hu = spec_update(
        blend,
        list,
        StencilTest::Disabled,
        back,
        spec_blur_horizontal(blur_params),
        img,
        glyph_texture,
    );
    let vu = spec_update(
        blend,
        list,
        StencilTest::Disabled,
        back,
        spec_blur_vertical(blur_params),
        Some(ImageOrTexture::Texture(number)),
        glyph_texture,
    );
    let a = seq![Step::TargetBlur { source: image, number }];
    let b = spec_draw_if(triangles_verts, hu);
    let c = seq![Step::TargetImage { id: target_image, load: LoadOp::Clear }];
    let d = spec_draw_if(triangles_verts, vu);
    let e = seq![spec_target_step(target)];
    assert(ok(hu));
    assert(ok(vu));
    lemma_updates_meet_one(a[0], ok);
    lemma_updates_meet_small(triangles_verts, hu, ok);
    lemma_updates_meet_one(c[0], ok);
    lemma_updates_meet_small(triangles_verts, vu, ok);
    lemma_updates_meet_one(e[0], ok);
    assert(a =~= seq![a[0]]);
    assert(c =~= seq![c[0]]);
    assert(e =~= seq![e[0]]);
    lemma_updates_meet_concat(a, b, ok);
    lemma_updates_meet_concat(a + b, c, ok);
    lemma_updates_meet_concat(a + b + c, d, ok);
    lemma_updates_meet_concat(a + b + c + d, e, ok);
    assert(steps =~= a + b + c + d + e);
    assert forall|i: int| 0 <= i < steps.len() && (#[trigger] steps[i]) is Update implies ok(steps[i]) by {}
}

} // verus!
