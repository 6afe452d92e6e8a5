//! Render pipeline states: what a draw call needs from the fixed-function
//! stages (blending, stencil test, culling, topology) and which shader
//! variant it runs, and the pipeline description built from it.

use vstd::prelude::*;

use crate::blend::BlendState;
use crate::params::{ShaderType, spec_shader_type_number};

verus! {

/// Comparison used by the stencil test.
#[derive(Clone, Copy, Debug, PartialEq, Eq, Hash, Structural)]
pub enum CompareFunction {
    Never,
    Less,
    Equal,
    LessEqual,
    Greater,
    NotEqual,
    GreaterEqual,
    Always,
}

/// What the stencil test does to a stencil value.
#[derive(Clone, Copy, Debug, PartialEq, Eq, Hash, Structural)]
pub enum StencilOperation {
    Keep,
    Zero,
    Replace,
    Invert,
    IncrementClamp,
    DecrementClamp,
    IncrementWrap,
    DecrementWrap,
}

/// Stencil test of one face orientation.
#[derive(Clone, Copy, Debug, PartialEq, Eq, Hash, Structural)]
pub struct StencilFaceState {
    pub compare: CompareFunction,
    pub fail_op: StencilOperation,
    pub depth_fail_op: StencilOperation,
    pub pass_op: StencilOperation,
}

/// Stencil test of both face orientations, with its masks.
#[derive(Clone, Copy, Debug, PartialEq, Eq, Hash, Structural)]
pub struct StencilState {
    pub front: StencilFaceState,
    pub back: StencilFaceState,
    pub read_mask: u32,
    pub write_mask: u32,
}

/// A face test that always passes and leaves the stencil value alone.
pub open spec fn spec_ignore_face() -> StencilFaceState {
    StencilFaceState {
        compare: CompareFunction::Always,
        fail_op: StencilOperation::Keep,
        depth_fail_op: StencilOperation::Keep,
        pass_op: StencilOperation::Keep,
    }
}

/// The stencil state of a draw that does not use the stencil buffer.
pub open spec fn spec_ignore_stencil() -> StencilState {
    StencilState {
        front: spec_ignore_face(),
        back: spec_ignore_face(),
        read_mask: 0xffff_ffff,
        write_mask: 0xffff_ffff,
    }
}

/// Builds the stencil state of a draw that does not use the stencil buffer.
pub fn ignore_stencil() -> (r: StencilState)
    ensures
        r == spec_ignore_stencil(),
{
    let face = StencilFaceState {
        compare: CompareFunction::Always,
        fail_op: StencilOperation::Keep,
        depth_fail_op: StencilOperation::Keep,
        pass_op: StencilOperation::Keep,
    };
    StencilState { front: face, back: face, read_mask: 0xffff_ffff, write_mask: 0xffff_ffff }
}

/// Whether a draw tests the stencil buffer, and how.
#[derive(Clone, Copy, Debug, PartialEq, Eq, Structural)]
pub enum StencilTest {
    Disabled,
    Enabled { stencil_state: StencilState, stencil_reference: u32 },
}

/// The pixel format of a texture or render target.
///
/// The formats this crate chooses itself are named; any other format (a
/// surface's, say) is carried as an opaque number that the caller assigns.
#[derive(Clone, Copy, Debug, PartialEq, Eq, Hash, Structural)]
pub enum TextureFormat {
    R8Unorm,
    Rgba8Unorm,
    Stencil8,
    Other(u32),
}

/// Which colour channels a draw writes, as a bit set (red 1, green 2,
/// blue 4, alpha 8).
#[derive(Clone, Copy, Debug, PartialEq, Eq, Hash, Structural)]
pub struct ColorWrites {
    pub bits: u32,
}

/// All four channels.
pub open spec fn spec_color_writes_all() -> ColorWrites {
    ColorWrites { bits: 0xf }
}

/// No channel.
pub open spec fn spec_color_writes_none() -> ColorWrites {
    ColorWrites { bits: 0 }
}

/// The colour target of a pipeline.
#[derive(Clone, Copy, Debug, PartialEq, Eq, Hash, Structural)]
pub struct ColorTargetState {
    pub format: TextureFormat,
    pub blend: Option<BlendState>,
    pub write_mask: ColorWrites,
}

/// How vertices are assembled into primitives.
#[derive(Clone, Copy, Debug, PartialEq, Eq, Hash, Structural)]
pub enum PrimitiveTopology {
    PointList,
    LineList,
    LineStrip,
    TriangleList,
    TriangleStrip,
}

/// A face orientation, for culling.
#[derive(Clone, Copy, Debug, PartialEq, Eq, Hash, Structural)]
pub enum Face {
    Front,
    Back,
}

/// The winding that counts as front-facing.
#[derive(Clone, Copy, Debug, PartialEq, Eq, Hash, Structural)]
pub enum FrontFace {
    Ccw,
    Cw,
}

/// Everything that tells one render pipeline from another.
#[derive(Clone, Copy, Debug, PartialEq, Eq, Hash, Structural)]
pub struct PipelineState {
    pub shader_type: ShaderType,
    pub enable_glyph_texture: bool,
    pub render_to_texture: bool,
    pub color_target_state: ColorTargetState,
    pub primitive_topology: PrimitiveTopology,
    pub cull_mode: Option<Face>,
    pub stencil_state: Option<StencilState>,
}

/// The colour target a draw uses: with the stencil test enabled and no
/// blending the draw only touches the stencil buffer, so no channel is
/// written; otherwise all channels are.
pub open spec fn spec_color_target(
    color_blend: Option<BlendState>,
    stencil_test: StencilTest,
    format: TextureFormat,
) -> ColorTargetState {
    ColorTargetState {
        format,
        blend: color_blend,
        write_mask: match stencil_test {
            StencilTest::Enabled { .. } => if color_blend is Some {
                spec_color_writes_all()
            } else {
                spec_color_writes_none()
            },
            StencilTest::Disabled => spec_color_writes_all(),
        },
    }
}

/// The stencil state a pipeline gets when a stencil buffer is attached.
pub open spec fn spec_stencil_of_test(stencil_test: StencilTest) -> StencilState {
    match stencil_test {
        StencilTest::Enabled { stencil_state, .. } => stencil_state,
        StencilTest::Disabled => spec_ignore_stencil(),
    }
}

/// Values handed to the shader program as pipeline-overridable constants.
#[derive(Clone, Copy, Debug, PartialEq, Eq, Hash, Structural)]
pub struct PipelineConstants {
    /// The shader type's number.
    pub shader_type: u8,
    /// 1 when a glyph texture is sampled, else 0.
    pub enable_glyph_texture: u8,
    /// 1 when rendering into a texture, else 0.
    pub render_to_texture: u8,
}

/// The depth/stencil stage of a pipeline.
#[derive(Clone, Copy, Debug, PartialEq, Eq, Hash, Structural)]
pub struct DepthStencilState {
    pub format: TextureFormat,
    pub depth_write_enabled: bool,
    pub depth_compare: CompareFunction,
    pub stencil: StencilState,
}

/// An entry point of the renderer's shader module.
#[derive(Clone, Copy, Debug, PartialEq, Eq, Hash, Structural)]
pub enum EntryPoint {
    /// The vertex program.
    VertexMain,
    /// The fragment program.
    FragmentMain,
}

/// The name of an entry point in the shader source.
pub open spec fn spec_entry_point_name(e: EntryPoint) -> Seq<char> {
    match e {
        EntryPoint::VertexMain => "vs_main"@,
        EntryPoint::FragmentMain => "fs_main"@,
    }
}

/// The name of an entry point in the shader source.
pub fn entry_point_name(e: EntryPoint) -> (r: &'static str)
    ensures
        r@ == spec_entry_point_name(e),
{
    match e {
        EntryPoint::VertexMain => "vs_main",
        EntryPoint::FragmentMain => "fs_main",
    }
}

/// The type of a vertex attribute.
#[derive(Clone, Copy, Debug, PartialEq, Eq, Hash, Structural)]
pub enum VertexFormat {
    /// Two 32-bit floats.
    Float32x2,
}

/// One attribute of a vertex, at a shader location.
#[derive(Clone, Copy, Debug, PartialEq, Eq, Hash, Structural)]
pub struct VertexAttribute {
    pub location: u32,
    /// Bytes from the start of the vertex.
    pub offset: u64,
    pub format: VertexFormat,
}

/// The layout of the vertex buffer, read once per vertex.
#[derive(Clone, Copy, Debug, PartialEq, Eq, Hash, Structural)]
pub struct VertexBufferLayout {
    /// Bytes from one vertex to the next.
    pub array_stride: u64,
    pub position: VertexAttribute,
    pub tex_coord: VertexAttribute,
}

/// The vertex buffer layout of every pipeline: vertices of four floats,
/// the position (two floats) at location 0 and the texture coordinate (two
/// floats) at location 1, packed.
pub open spec fn spec_vertex_buffer_layout() -> VertexBufferLayout {
    VertexBufferLayout {
        array_stride: 16,
        position: VertexAttribute { location: 0, offset: 0, format: VertexFormat::Float32x2 },
        tex_coord: VertexAttribute { location: 1, offset: 8, format: VertexFormat::Float32x2 },
    }
}

/// The description from which the GPU device creates a render pipeline with
/// the renderer's shader module and pipeline layout.
#[derive(Clone, Copy, Debug, PartialEq, Eq, Hash, Structural)]
pub struct RenderPipelineDescriptor {
    pub vertex_entry_point: EntryPoint,
    pub fragment_entry_point: EntryPoint,
    pub vertex_buffer: VertexBufferLayout,
    pub constants: PipelineConstants,
    pub color_target: ColorTargetState,
    pub topology: PrimitiveTopology,
    pub front_face: FrontFace,
    pub cull_mode: Option<Face>,
    pub depth_stencil: Option<DepthStencilState>,
}

/// The pipeline description of a pipeline state.
pub open spec fn spec_materialize(s: PipelineState) -> RenderPipelineDescriptor {
    RenderPipelineDescriptor {
        vertex_entry_point: EntryPoint::VertexMain,
        fragment_entry_point: EntryPoint::FragmentMain,
        vertex_buffer: spec_vertex_buffer_layout(),
        constants: PipelineConstants {
            shader_type: spec_shader_type_number(s.shader_type),
            enable_glyph_texture: if s.enable_glyph_texture { 1 } else { 0 },
            render_to_texture: if s.render_to_texture { 1 } else { 0 },
        },
        color_target: s.color_target_state,
        topology: s.primitive_topology,
        // Rendering into a texture flips the vertical axis, and with it the winding.
        front_face: if s.render_to_texture { FrontFace::Cw } else { FrontFace::Ccw },
        cull_mode: s.cull_mode,
        depth_stencil: match s.stencil_state {
            Some(stencil) => Some(DepthStencilState {
                format: TextureFormat::Stencil8,
                depth_write_enabled: false,
                depth_compare: CompareFunction::Always,
                stencil,
            }),
            None => None,
        },
    }
}

/// The pipeline state of a draw call.
pub open spec fn spec_pipeline_state(
    color_blend: Option<BlendState>,
    stencil_test: StencilTest,
    format: TextureFormat,
    shader_type: ShaderType,
    enable_glyph_texture: bool,
    render_to_texture: bool,
    primitive_topology: PrimitiveTopology,
    cull_mode: Option<Face>,
    has_stencil_buffer: bool,
) -> PipelineState {
    PipelineState {
        shader_type,
        enable_glyph_texture,
        render_to_texture,
        color_target_state: spec_color_target(color_blend, stencil_test, format),
        primitive_topology,
        cull_mode,
        stencil_state: if has_stencil_buffer {
            Some(spec_stencil_of_test(stencil_test))
        } else {
            None
        },
    }
}

impl PipelineState {
    /// The pipeline state of a draw call.
    pub fn new(
        color_blend: Option<BlendState>,
        stencil_test: StencilTest,
        format: TextureFormat,
        shader_type: ShaderType,
        enable_glyph_texture: bool,
        render_to_texture: bool,
        primitive_topology: PrimitiveTopology,
        cull_mode: Option<Face>,
        has_stencil_buffer: bool,
    ) -> (r: Self)
        ensures
            r == spec_pipeline_state(
                color_blend,
                stencil_test,
                format,
                shader_type,
                enable_glyph_texture,
                render_to_texture,
                primitive_topology,
                cull_mode,
                has_stencil_buffer,
            ),
            r.shader_type == shader_type,
            r.enable_glyph_texture == enable_glyph_texture,
            r.render_to_texture == render_to_texture,
            r.color_target_state == spec_color_target(color_blend, stencil_test, format),
            r.primitive_topology == primitive_topology,
            r.cull_mode == cull_mode,
            r.stencil_state == (if has_stencil_buffer {
                Some(spec_stencil_of_test(stencil_test))
            } else {
                None
            }),
    {
        let all = ColorWrites { bits: 0xf };
        let (stencil_state, color_target_state) = match stencil_test {
            StencilTest::Enabled { stencil_state, .. } => (
                stencil_state,
                ColorTargetState {
                    format,
                    blend: color_blend,
                    write_mask: if color_blend.is_some() {
                        all
                    } else {
                        ColorWrites { bits: 0 }
                    },
                },
            ),
            StencilTest::Disabled => (
                ignore_stencil(),
                ColorTargetState { format, blend: color_blend, write_mask: all },
            ),
        };
        PipelineState {
            shader_type,
            enable_glyph_texture,
            render_to_texture,
            color_target_state,
            primitive_topology,
            cull_mode,
            stencil_state: if has_stencil_buffer {
                Some(stencil_state)
            } else {
                None
            },
        }
    }

    /// The description from which the GPU device creates this pipeline.
    pub fn materialize(&self) -> (r: RenderPipelineDescriptor)
        ensures
            r == spec_materialize(*self),
    {
        RenderPipelineDescriptor {
            vertex_entry_point: EntryPoint::VertexMain,
            fragment_entry_point: EntryPoint::FragmentMain,
            vertex_buffer: VertexBufferLayout {
                array_stride: 16,
                position: VertexAttribute { location: 0, offset: 0, format: VertexFormat::Float32x2 },
                tex_coord: VertexAttribute { location: 1, offset: 8, format: VertexFormat::Float32x2 },
            },
            constants: PipelineConstants {
                shader_type: self.shader_type.to_u8(),
                enable_glyph_texture: if self.enable_glyph_texture { 1 } else { 0 },
                render_to_texture: if self.render_to_texture { 1 } else { 0 },
            },
            color_target: self.color_target_state,
            topology: self.primitive_topology,
            front_face: if self.render_to_texture { FrontFace::Cw } else { FrontFace::Ccw },
            cull_mode: self.cull_mode,
            depth_stencil: match self.stencil_state {
                Some(stencil) => Some(DepthStencilState {
                    format: TextureFormat::Stencil8,
                    depth_write_enabled: false,
                    depth_compare: CompareFunction::Always,
                    stencil,
                }),
                None => None,
            },
        }
    }
}

/// Distinct pipeline states get distinct pipeline descriptions: the
/// description loses nothing that tells two pipelines apart.
pub proof fn lemma_materialize_injective(a: PipelineState, b: PipelineState)
    ensures
        spec_materialize(a) == spec_materialize(b) ==> a == b,
{
    if spec_materialize(a) == spec_materialize(b) {
        assert(spec_shader_type_number(a.shader_type) == spec_shader_type_number(b.shader_type));
        assert(a.shader_type == b.shader_type);
        assert(a.stencil_state == b.stencil_state);
    }
}

/// A draw without a stencil test writes every colour channel, and when a
/// stencil buffer is attached its stencil stage passes everything and changes
/// nothing.
pub proof fn lemma_disabled_stencil_is_transparent(
    color_blend: Option<BlendState>,
    format: TextureFormat,
)
    ensures
        spec_color_target(color_blend, StencilTest::Disabled, format).write_mask
            == spec_color_writes_all(),
        spec_stencil_of_test(StencilTest::Disabled).front.compare == CompareFunction::Always,
        spec_stencil_of_test(StencilTest::Disabled).front.pass_op == StencilOperation::Keep,
        spec_stencil_of_test(StencilTest::Disabled).back.pass_op == StencilOperation::Keep,
{
}

/// A draw's pipeline state holds what the draw asked for: its shader
/// variant, glyph sampling, render-to-texture flag, topology, culling and
/// blending, a colour target of the given format that writes every channel
/// unless the draw only marks the stencil (stencil test on, no blending), and
/// a stencil state exactly when a stencil buffer is attached: the test's own
/// state, or one that passes every fragment and changes nothing.
pub proof fn lemma_pipeline_state_holds_the_draw(
    color_blend: Option<BlendState>,
    stencil_test: StencilTest,
    format: TextureFormat,
    shader_type: ShaderType,
    enable_glyph_texture: bool,
    render_to_texture: bool,
    primitive_topology: PrimitiveTopology,
    cull_mode: Option<Face>,
    has_stencil_buffer: bool,
)
    ensures
        ({
            let s = spec_pipeline_state(
                color_blend,
                stencil_test,
                format,
                shader_type,
                enable_glyph_texture,
                render_to_texture,
                primitive_topology,
                cull_mode,
                has_stencil_buffer,
            );
            &&& s.shader_type == shader_type
            &&& s.enable_glyph_texture == enable_glyph_texture
            &&& s.render_to_texture == render_to_texture
            &&& s.primitive_topology == primitive_topology
            &&& s.cull_mode == cull_mode
            &&& s.color_target_state.format == format
            &&& s.color_target_state.blend == color_blend
            &&& s.color_target_state.write_mask.bits == if stencil_test is Enabled && color_blend is None {
                0u32
            } else {
                0xfu32
            }
            &&& (s.stencil_state is Some <==> has_stencil_buffer)
            &&& (has_stencil_buffer ==> (stencil_test matches StencilTest::Enabled { stencil_state, .. }
                ==> s.stencil_state == Some(stencil_state)))
            &&& (has_stencil_buffer && stencil_test is Disabled ==> (s.stencil_state matches Some(st) && {
                &&& st.front.compare == CompareFunction::Always
                &&& st.back.compare == CompareFunction::Always
                &&& st.front.pass_op == StencilOperation::Keep
                &&& st.back.pass_op == StencilOperation::Keep
                &&& st.front.fail_op == StencilOperation::Keep
                &&& st.back.fail_op == StencilOperation::Keep
                &&& st.front.depth_fail_op == StencilOperation::Keep
                &&& st.back.depth_fail_op == StencilOperation::Keep
            }))
        }),
{
}

/// A pipeline description builds exactly the pipeline its state asks for:
/// the state's colour target, topology and culling; the shader variant,
/// glyph flag and render-to-texture flag as shader constants (1 for true);
/// clockwise front faces when rendering into a texture (its vertical axis is
/// flipped) and counter-clockwise ones otherwise; a stencil-only depth
/// stage, never writing or testing depth, exactly when the state has a
/// stencil state; and the fixed entry points and vertex layout.
pub proof fn lemma_materialize_builds_the_state(s: PipelineState)
    ensures
        ({
            let d = spec_materialize(s);
            &&& d.color_target == s.color_target_state
            &&& d.topology == s.primitive_topology
            &&& d.cull_mode == s.cull_mode
            &&& d.constants.shader_type == spec_shader_type_number(s.shader_type)
            &&& d.constants.enable_glyph_texture == if s.enable_glyph_texture { 1u8 } else { 0u8 }
            &&& d.constants.render_to_texture == if s.render_to_texture { 1u8 } else { 0u8 }
            &&& d.front_face == if s.render_to_texture { FrontFace::Cw } else { FrontFace::Ccw }
            &&& (d.depth_stencil is Some <==> s.stencil_state is Some)
            &&& (s.stencil_state matches Some(st) ==> (d.depth_stencil matches Some(ds) && {
                &&& ds.stencil == st
                &&& ds.format == TextureFormat::Stencil8
                &&& !ds.depth_write_enabled
                &&& ds.depth_compare == CompareFunction::Always
            }))
            &&& d.vertex_entry_point == EntryPoint::VertexMain
            &&& d.fragment_entry_point == EntryPoint::FragmentMain
            &&& d.vertex_buffer.array_stride == 16
            &&& d.vertex_buffer.position == VertexAttribute {
                location: 0,
                offset: 0,
                format: VertexFormat::Float32x2,
            }
            &&& d.vertex_buffer.tex_coord == VertexAttribute {
                location: 1,
                offset: 8,
                format: VertexFormat::Float32x2,
            }
        }),
{
}

} // verus!
