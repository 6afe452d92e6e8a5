//! The fragment uniforms of a draw call, in two layouts: a structured block
//! (`UniformParams`, laid out by the shader-side block declaration) and a
//! flat array of 56 floats (`UniformArray`, 14 four-float rows). Floats are
//! held as bit patterns.

use vstd::prelude::*;

use crate::floats::{spec_f32_eq, spec_f32_seq_eq, f32_eq, f32_slice_eq, spec_small_int_f32_bits, u8_to_f32_bits};
use crate::params::{Params, spec_shader_type_number};

verus! {

/// A 3-column, 4-row matrix stored column by column.
#[derive(Clone, Copy, Debug)]
pub struct Mat3x4 {
    pub cols: [[u32; 4]; 3],
}

/// The matrix whose columns are the rows of the 4-row, 3-column matrix
/// `m` given row by row: column `c`, row `r` holds `m[3 * r + c]`.
pub open spec fn spec_mat3x4_from(m: [u32; 12]) -> Mat3x4 {
    Mat3x4 {
        cols: [
            [m[0], m[3], m[6], m[9]],
            [m[1], m[4], m[7], m[10]],
            [m[2], m[5], m[8], m[11]],
        ],
    }
}

impl Mat3x4 {
    /// Builds the matrix from twelve floats given row by row in groups of three.
    pub fn from_array(m: [u32; 12]) -> (r: Self)
        ensures
            r == spec_mat3x4_from(m),
    {
        Mat3x4 {
            cols: [
                [m[0], m[3], m[6], m[9]],
                [m[1], m[4], m[7], m[10]],
                [m[2], m[5], m[8], m[11]],
            ],
        }
    }
}

/// Column `c`, row `r` of `spec_mat3x4_from(m)` is element `3 * r + c` of `m`.
pub proof fn lemma_mat3x4_element(m: [u32; 12], c: int, r: int)
    requires
        0 <= c < 3,
        0 <= r < 4,
    ensures
        spec_mat3x4_from(m).cols@[c]@[r] == m@[3 * r + c],
{
    let mm = spec_mat3x4_from(m);
    assert(mm.cols@[0]@ =~= seq![m@[0], m@[3], m@[6], m@[9]]);
    assert(mm.cols@[1]@ =~= seq![m@[1], m@[4], m@[7], m@[10]]);
    assert(mm.cols@[2]@ =~= seq![m@[2], m@[5], m@[8], m@[11]]);
}

/// The uniform block of a draw call.
#[derive(Clone, Copy, Debug)]
pub struct UniformParams {
    pub scissor_mat: Mat3x4,
    pub paint_mat: Mat3x4,
    pub inner_col: [u32; 4],
    pub outer_col: [u32; 4],
    pub scissor_ext: [u32; 2],
    pub scissor_scale: [u32; 2],
    pub extent: [u32; 2],
    pub radius: u32,
    pub feather: u32,
    pub stroke_mult: u32,
    pub stroke_thr: u32,
    pub tex_type: u32,
    pub unused_shader_type: u32,
    /// 0: no glyph rendering, 1: alpha mask, 2: colour texture.
    pub glyph_texture_type: u32,
    pub image_blur_filter_sigma: u32,
    pub image_blur_filter_direction: [u32; 2],
    pub image_blur_filter_coeff: [u32; 3],
}

/// The all-zero uniform block.
pub open spec fn spec_zero_uniform_params() -> UniformParams {
    UniformParams {
        scissor_mat: Mat3x4 { cols: [[0, 0, 0, 0], [0, 0, 0, 0], [0, 0, 0, 0]] },
        paint_mat: Mat3x4 { cols: [[0, 0, 0, 0], [0, 0, 0, 0], [0, 0, 0, 0]] },
        inner_col: [0, 0, 0, 0],
        outer_col: [0, 0, 0, 0],
        scissor_ext: [0, 0],
        scissor_scale: [0, 0],
        extent: [0, 0],
        radius: 0,
        feather: 0,
        stroke_mult: 0,
        stroke_thr: 0,
        tex_type: 0,
        unused_shader_type: 0,
        glyph_texture_type: 0,
        image_blur_filter_sigma: 0,
        image_blur_filter_direction: [0, 0],
        image_blur_filter_coeff: [0, 0, 0],
    }
}

/// The uniform block of a draw with parameters `p`.
pub open spec fn spec_uniform_params_of(p: Params) -> UniformParams {
    UniformParams {
        scissor_mat: spec_mat3x4_from(p.scissor_mat),
        paint_mat: spec_mat3x4_from(p.paint_mat),
        inner_col: p.inner_col,
        outer_col: p.outer_col,
        scissor_ext: p.scissor_ext,
        scissor_scale: p.scissor_scale,
        extent: p.extent,
        radius: p.radius,
        feather: p.feather,
        stroke_mult: p.stroke_mult,
        stroke_thr: p.stroke_thr,
        tex_type: p.tex_type,
        unused_shader_type: spec_small_int_f32_bits(
            spec_shader_type_number(p.shader_type) as nat,
        ) as u32,
        glyph_texture_type: spec_small_int_f32_bits(p.glyph_texture_type as nat) as u32,
        image_blur_filter_sigma: p.image_blur_filter_sigma,
        image_blur_filter_direction: p.image_blur_filter_direction,
        image_blur_filter_coeff: p.image_blur_filter_coeff,
    }
}

/// Float equality of two matrices, element by element.
pub open spec fn spec_mat_eq(a: Mat3x4, b: Mat3x4) -> bool {
    &&& spec_f32_seq_eq(a.cols@[0]@, b.cols@[0]@)
    &&& spec_f32_seq_eq(a.cols@[1]@, b.cols@[1]@)
    &&& spec_f32_seq_eq(a.cols@[2]@, b.cols@[2]@)
}

/// Float equality of two uniform blocks, field by field and element by
/// element (so a block holding a NaN equals no block).
pub open spec fn spec_uniforms_eq(a: UniformParams, b: UniformParams) -> bool {
    &&& spec_mat_eq(a.scissor_mat, b.scissor_mat)
    &&& spec_mat_eq(a.paint_mat, b.paint_mat)
    &&& spec_f32_seq_eq(a.inner_col@, b.inner_col@)
    &&& spec_f32_seq_eq(a.outer_col@, b.outer_col@)
    &&& spec_f32_seq_eq(a.scissor_ext@, b.scissor_ext@)
    &&& spec_f32_seq_eq(a.scissor_scale@, b.scissor_scale@)
    &&& spec_f32_seq_eq(a.extent@, b.extent@)
    &&& spec_f32_eq(a.radius, b.radius)
    &&& spec_f32_eq(a.feather, b.feather)
    &&& spec_f32_eq(a.stroke_mult, b.stroke_mult)
    &&& spec_f32_eq(a.stroke_thr, b.stroke_thr)
    &&& spec_f32_eq(a.tex_type, b.tex_type)
    &&& spec_f32_eq(a.unused_shader_type, b.unused_shader_type)
    &&& spec_f32_eq(a.glyph_texture_type, b.glyph_texture_type)
    &&& spec_f32_eq(a.image_blur_filter_sigma, b.image_blur_filter_sigma)
    &&& spec_f32_seq_eq(a.image_blur_filter_direction@, b.image_blur_filter_direction@)
    &&& spec_f32_seq_eq(a.image_blur_filter_coeff@, b.image_blur_filter_coeff@)
}

fn mat_eq(a: &Mat3x4, b: &Mat3x4) -> (r: bool)
    ensures
        r == spec_mat_eq(*a, *b),
{
    f32_slice_eq(&a.cols[0], &b.cols[0]) && f32_slice_eq(&a.cols[1], &b.cols[1])
        && f32_slice_eq(&a.cols[2], &b.cols[2])
}

impl UniformParams {
    /// The all-zero uniform block.
    pub fn zeroed() -> (r: Self)
        ensures
            r == spec_zero_uniform_params(),
    {
        UniformParams {
            scissor_mat: Mat3x4 { cols: [[0, 0, 0, 0], [0, 0, 0, 0], [0, 0, 0, 0]] },
            paint_mat: Mat3x4 { cols: [[0, 0, 0, 0], [0, 0, 0, 0], [0, 0, 0, 0]] },
            inner_col: [0, 0, 0, 0],
            outer_col: [0, 0, 0, 0],
            scissor_ext: [0, 0],
            scissor_scale: [0, 0],
            extent: [0, 0],
            radius: 0,
            feather: 0,
            stroke_mult: 0,
            stroke_thr: 0,
            tex_type: 0,
            unused_shader_type: 0,
            glyph_texture_type: 0,
            image_blur_filter_sigma: 0,
            image_blur_filter_direction: [0, 0],
            image_blur_filter_coeff: [0, 0, 0],
        }
    }

    /// Compares two uniform blocks as the float-valued blocks they stand for.
    pub fn same_as(&self, other: &Self) -> (r: bool)
        ensures
            r == spec_uniforms_eq(*self, *other),
    {
        mat_eq(&self.scissor_mat, &other.scissor_mat) && mat_eq(&self.paint_mat, &other.paint_mat)
            && f32_slice_eq(&self.inner_col, &other.inner_col)
            && f32_slice_eq(&self.outer_col, &other.outer_col)
            && f32_slice_eq(&self.scissor_ext, &other.scissor_ext)
            && f32_slice_eq(&self.scissor_scale, &other.scissor_scale)
            && f32_slice_eq(&self.extent, &other.extent)
            && f32_eq(self.radius, other.radius)
            && f32_eq(self.feather, other.feather)
            && f32_eq(self.stroke_mult, other.stroke_mult)
            && f32_eq(self.stroke_thr, other.stroke_thr)
            && f32_eq(self.tex_type, other.tex_type)
            && f32_eq(self.unused_shader_type, other.unused_shader_type)
            && f32_eq(self.glyph_texture_type, other.glyph_texture_type)
            && f32_eq(self.image_blur_filter_sigma, other.image_blur_filter_sigma)
            && f32_slice_eq(&self.image_blur_filter_direction, &other.image_blur_filter_direction)
            && f32_slice_eq(&self.image_blur_filter_coeff, &other.image_blur_filter_coeff)
    }

    /// Sets the scissor matrix.
    pub fn set_scissor_mat(&mut self, mat: [u32; 12])
        ensures
            *final(self) == (UniformParams { scissor_mat: spec_mat3x4_from(mat), ..*old(self) }),
    {
        self.scissor_mat = Mat3x4::from_array(mat);
    }

    /// Sets the paint matrix.
    pub fn set_paint_mat(&mut self, mat: [u32; 12])
        ensures
            *final(self) == (UniformParams { paint_mat: spec_mat3x4_from(mat), ..*old(self) }),
    {
        self.paint_mat = Mat3x4::from_array(mat);
    }

    /// Sets the inner colour.
    pub fn set_inner_col(&mut self, col: [u32; 4])
        ensures
            *final(self) == (UniformParams { inner_col: col, ..*old(self) }),
    {
        self.inner_col = col;
    }

    /// Sets the outer colour.
    pub fn set_outer_col(&mut self, col: [u32; 4])
        ensures
            *final(self) == (UniformParams { outer_col: col, ..*old(self) }),
    {
        self.outer_col = col;
    }

    /// Sets the scissor extent.
    pub fn set_scissor_ext(&mut self, ext: [u32; 2])
        ensures
            *final(self) == (UniformParams { scissor_ext: ext, ..*old(self) }),
    {
        self.scissor_ext = ext;
    }

    /// Sets the scissor scale.
    pub fn set_scissor_scale(&mut self, scale: [u32; 2])
        ensures
            *final(self) == (UniformParams { scissor_scale: scale, ..*old(self) }),
    {
        self.scissor_scale = scale;
    }

    /// Sets the paint extent.
    pub fn set_extent(&mut self, ext: [u32; 2])
        ensures
            *final(self) == (UniformParams { extent: ext, ..*old(self) }),
    {
        self.extent = ext;
    }

    /// Sets the corner radius.
    pub fn set_radius(&mut self, radius: u32)
        ensures
            *final(self) == (UniformParams { radius, ..*old(self) }),
    {
        self.radius = radius;
    }

    /// Sets the feather width.
    pub fn set_feather(&mut self, feather: u32)
        ensures
            *final(self) == (UniformParams { feather, ..*old(self) }),
    {
        self.feather = feather;
    }

    /// Sets the stroke width multiplier.
    pub fn set_stroke_mult(&mut self, stroke_mult: u32)
        ensures
            *final(self) == (UniformParams { stroke_mult, ..*old(self) }),
    {
        self.stroke_mult = stroke_mult;
    }

    /// Sets the stroke alpha threshold.
    pub fn set_stroke_thr(&mut self, stroke_thr: u32)
        ensures
            *final(self) == (UniformParams { stroke_thr, ..*old(self) }),
    {
        self.stroke_thr = stroke_thr;
    }

    /// Sets the texture type.
    pub fn set_tex_type(&mut self, tex_type: u32)
        ensures
            *final(self) == (UniformParams { tex_type, ..*old(self) }),
    {
        self.tex_type = tex_type;
    }

    /// Sets the shader type.
    pub fn set_shader_type(&mut self, shader_type: u32)
        ensures
            *final(self) == (UniformParams { unused_shader_type: shader_type, ..*old(self) }),
    {
        self.unused_shader_type = shader_type;
    }

    /// Sets the glyph texture type.
    pub fn set_glyph_texture_type(&mut self, glyph_texture_type: u32)
        ensures
            *final(self) == (UniformParams { glyph_texture_type, ..*old(self) }),
    {
        self.glyph_texture_type = glyph_texture_type;
    }

    /// Sets the blur direction.
    pub fn set_image_blur_filter_direction(&mut self, direction: [u32; 2])
        ensures
            *final(self) == (UniformParams { image_blur_filter_direction: direction, ..*old(self) }),
    {
        self.image_blur_filter_direction = direction;
    }

    /// Sets the blur sigma.
    pub fn set_image_blur_filter_sigma(&mut self, sigma: u32)
        ensures
            *final(self) == (UniformParams { image_blur_filter_sigma: sigma, ..*old(self) }),
    {
        self.image_blur_filter_sigma = sigma;
    }

    /// Sets the blur coefficients.
    pub fn set_image_blur_filter_coeff(&mut self, coeff: [u32; 3])
        ensures
            *final(self) == (UniformParams { image_blur_filter_coeff: coeff, ..*old(self) }),
    {
        self.image_blur_filter_coeff = coeff;
    }

    /// The uniform block of a draw with parameters `params`: every field
    /// copied, the matrices rearranged column by column, and the shader type
    /// and glyph texture type written as the floats of their numbers.
    pub fn from_params(params: &Params) -> (r: Self)
        ensures
            r == spec_uniform_params_of(*params),
    {
        let mut arr = Self::zeroed();
        arr.set_scissor_mat(params.scissor_mat);
        arr.set_paint_mat(params.paint_mat);
        arr.set_inner_col(params.inner_col);
        arr.set_outer_col(params.outer_col);
        arr.set_scissor_ext(params.scissor_ext);
        arr.set_scissor_scale(params.scissor_scale);
        arr.set_extent(params.extent);
        arr.set_radius(params.radius);
        arr.set_feather(params.feather);
        arr.set_stroke_mult(params.stroke_mult);
        arr.set_stroke_thr(params.stroke_thr);
        arr.set_shader_type(u8_to_f32_bits(params.shader_type.to_u8()));
        arr.set_tex_type(params.tex_type);
        arr.set_glyph_texture_type(u8_to_f32_bits(params.glyph_texture_type));
        arr.set_image_blur_filter_direction(params.image_blur_filter_direction);
        arr.set_image_blur_filter_sigma(params.image_blur_filter_sigma);
        arr.set_image_blur_filter_coeff(params.image_blur_filter_coeff);
        arr
    }
}

/// The fields of the flat uniform array, each a run of consecutive slots.
#[derive(Clone, Copy, Debug, PartialEq, Eq, Structural)]
pub enum UniformSlot {
    ScissorMat,
    PaintMat,
    InnerCol,
    OuterCol,
    ScissorExt,
    ScissorScale,
    Extent,
    Radius,
    Feather,
    StrokeMult,
    StrokeThr,
    TexType,
    ShaderType,
    GlyphTextureType,
    BlurSigma,
    BlurDirection,
    BlurCoeff,
}

/// The first slot of a field.
pub open spec fn spec_slot_start(s: UniformSlot) -> int {
    match s {
        UniformSlot::ScissorMat => 0,
        UniformSlot::PaintMat => 12,
        UniformSlot::InnerCol => 24,
        UniformSlot::OuterCol => 28,
        UniformSlot::ScissorExt => 32,
        UniformSlot::ScissorScale => 34,
        UniformSlot::Extent => 36,
        UniformSlot::Radius => 38,
        UniformSlot::Feather => 39,
        UniformSlot::StrokeMult => 40,
        UniformSlot::StrokeThr => 41,
        UniformSlot::TexType => 42,
        UniformSlot::ShaderType => 43,
        UniformSlot::GlyphTextureType => 44,
        UniformSlot::BlurSigma => 45,
        UniformSlot::BlurDirection => 46,
        UniformSlot::BlurCoeff => 48,
    }
}

/// The number of slots of a field.
pub open spec fn spec_slot_len(s: UniformSlot) -> int {
    match s {
        UniformSlot::ScissorMat => 12,
        UniformSlot::PaintMat => 12,
        UniformSlot::InnerCol => 4,
        UniformSlot::OuterCol => 4,
        UniformSlot::ScissorExt => 2,
        UniformSlot::ScissorScale => 2,
        UniformSlot::Extent => 2,
        UniformSlot::BlurDirection => 2,
        UniformSlot::BlurCoeff => 3,
        _ => 1,
    }
}

/// `a` with the slots of field `s` replaced by `v`.
pub open spec fn spec_write_slot(a: Seq<u32>, s: UniformSlot, v: Seq<u32>) -> Seq<u32> {
    a.subrange(0, spec_slot_start(s)) + v + a.subrange(
        spec_slot_start(s) + spec_slot_len(s),
        a.len() as int,
    )
}

/// The 56 floats of the flat uniform array.
#[derive(Clone, Copy, Debug)]
pub struct UniformArray {
    data: [u32; 56],
}

impl View for UniformArray {
    type V = Seq<u32>;

    closed spec fn view(&self) -> Seq<u32> {
        self.data@
    }
}

impl Default for UniformArray {
    /// The array of 56 zeros.
    fn default() -> (r: Self)
        ensures
            r@ == Seq::new(56, |i: int| 0u32),
    {
        let r = UniformArray { data: [0u32; 56] };
        assert(r@ =~= Seq::new(56, |i: int| 0u32));
        r
    }
}

/// The flat uniform array of a draw with parameters `p`: fields in slot
/// order, the shader type and glyph texture type as the floats of their
/// numbers, and zeros in the five slots after the last field.
pub open spec fn spec_uniform_array_of(p: Params) -> Seq<u32> {
    p.scissor_mat@ + p.paint_mat@ + p.inner_col@ + p.outer_col@ + p.scissor_ext@
        + p.scissor_scale@ + p.extent@ + seq![
        p.radius,
        p.feather,
        p.stroke_mult,
        p.stroke_thr,
        p.tex_type,
        spec_small_int_f32_bits(spec_shader_type_number(p.shader_type) as nat) as u32,
        spec_small_int_f32_bits(p.glyph_texture_type as nat) as u32,
        p.image_blur_filter_sigma,
    ] + p.image_blur_filter_direction@ + p.image_blur_filter_coeff@ + seq![0u32, 0, 0, 0, 0]
}

impl UniformArray {
    /// The 56 floats, in slot order.
    pub fn as_slice(&self) -> (r: &[u32])
        ensures
            r@ == self@,
    {
        self.data.as_slice()
    }

    fn write_slots(&mut self, start: usize, src: &[u32])
        requires
            start + src@.len() <= 56,
        ensures
            final(self)@ == old(self)@.subrange(0, start as int) + src@ + old(self)@.subrange(
                start + src@.len(),
                56,
            ),
    {
        let mut i: usize = 0;
        while i < src.len()
            invariant
                start + src@.len() <= 56,
                0 <= i <= src@.len(),
                self@.len() == 56,
                forall|j: int| 0 <= j < start ==> #[trigger] self@[j] == old(self)@[j],
                forall|j: int| start <= j < start + i ==> #[trigger] self@[j] == src@[j - start],
                forall|j: int| start + i <= j < 56 ==> #[trigger] self@[j] == old(self)@[j],
            decreases src@.len() - i,
        {
            self.data[start + i] = src[i];
            i = i + 1;
        }
        assert(self@ =~= old(self)@.subrange(0, start as int) + src@ + old(self)@.subrange(
            start + src@.len(),
            56,
        ));
    }

    /// Sets the scissor matrix.
    pub fn set_scissor_mat(&mut self, mat: [u32; 12])
        ensures
            final(self)@ == spec_write_slot(old(self)@, UniformSlot::ScissorMat, mat@),
    {
        self.write_slots(0, mat.as_slice());
    }

    /// Sets the paint matrix.
    pub fn set_paint_mat(&mut self, mat: [u32; 12])
        ensures
            final(self)@ == spec_write_slot(old(self)@, UniformSlot::PaintMat, mat@),
    {
        self.write_slots(12, mat.as_slice());
    }

    /// Sets the inner colour.
    pub fn set_inner_col(&mut self, col: [u32; 4])
        ensures
            final(self)@ == spec_write_slot(old(self)@, UniformSlot::InnerCol, col@),
    {
        self.write_slots(24, col.as_slice());
    }

    /// Sets the outer colour.
    pub fn set_outer_col(&mut self, col: [u32; 4])
        ensures
            final(self)@ == spec_write_slot(old(self)@, UniformSlot::OuterCol, col@),
    {
        self.write_slots(28, col.as_slice());
    }

    /// Sets the scissor extent.
    pub fn set_scissor_ext(&mut self, ext: [u32; 2])
        ensures
            final(self)@ == spec_write_slot(old(self)@, UniformSlot::ScissorExt, ext@),
    {
        self.write_slots(32, ext.as_slice());
    }

    /// Sets the scissor scale.
    pub fn set_scissor_scale(&mut self, scale: [u32; 2])
        ensures
            final(self)@ == spec_write_slot(old(self)@, UniformSlot::ScissorScale, scale@),
    {
        self.write_slots(34, scale.as_slice());
    }

    /// Sets the paint extent.
    pub fn set_extent(&mut self, ext: [u32; 2])
        ensures
            final(self)@ == spec_write_slot(old(self)@, UniformSlot::Extent, ext@),
    {
        self.write_slots(36, ext.as_slice());
    }

    fn write_one(&mut self, index: usize, value: u32)
        requires
            index < 56,
        ensures
            final(self)@ == old(self)@.update(index as int, value),
    {
        self.data[index] = value;
    }

    /// Sets the corner radius.
    pub fn set_radius(&mut self, radius: u32)
        ensures
            final(self)@ == spec_write_slot(old(self)@, UniformSlot::Radius, seq![radius]),
    {
        self.write_one(38, radius);
        assert(self@ =~= spec_write_slot(old(self)@, UniformSlot::Radius, seq![radius]));
    }

    /// Sets the feather width.
    pub fn set_feather(&mut self, feather: u32)
        ensures
            final(self)@ == spec_write_slot(old(self)@, UniformSlot::Feather, seq![feather]),
    {
        self.write_one(39, feather);
        assert(self@ =~= spec_write_slot(old(self)@, UniformSlot::Feather, seq![feather]));
    }

    /// Sets the stroke width multiplier.
    pub fn set_stroke_mult(&mut self, stroke_mult: u32)
        ensures
            final(self)@ == spec_write_slot(old(self)@, UniformSlot::StrokeMult, seq![stroke_mult]),
    {
        self.write_one(40, stroke_mult);
        assert(self@ =~= spec_write_slot(old(self)@, UniformSlot::StrokeMult, seq![stroke_mult]));
    }

    /// Sets the stroke alpha threshold.
    pub fn set_stroke_thr(&mut self, stroke_thr: u32)
        ensures
            final(self)@ == spec_write_slot(old(self)@, UniformSlot::StrokeThr, seq![stroke_thr]),
    {
        self.write_one(41, stroke_thr);
        assert(self@ =~= spec_write_slot(old(self)@, UniformSlot::StrokeThr, seq![stroke_thr]));
    }

    /// Sets the texture type.
    pub fn set_tex_type(&mut self, tex_type: u32)
        ensures
            final(self)@ == spec_write_slot(old(self)@, UniformSlot::TexType, seq![tex_type]),
    {
        self.write_one(42, tex_type);
        assert(self@ =~= spec_write_slot(old(self)@, UniformSlot::TexType, seq![tex_type]));
    }

    /// Sets the shader type.
    pub fn set_shader_type(&mut self, shader_type: u32)
        ensures
            final(self)@ == spec_write_slot(old(self)@, UniformSlot::ShaderType, seq![shader_type]),
    {
        self.write_one(43, shader_type);
        assert(self@ =~= spec_write_slot(old(self)@, UniformSlot::ShaderType, seq![shader_type]));
    }

    /// Sets the glyph texture type.
    pub fn set_glyph_texture_type(&mut self, glyph_texture_type: u32)
        ensures
            final(self)@ == spec_write_slot(
                old(self)@,
                UniformSlot::GlyphTextureType,
                seq![glyph_texture_type],
            ),
    {
        self.write_one(44, glyph_texture_type);
        assert(self@ =~= spec_write_slot(
            old(self)@,
            UniformSlot::GlyphTextureType,
            seq![glyph_texture_type],
        ));
    }

    /// Sets the blur direction.
    pub fn set_image_blur_filter_direction(&mut self, direction: [u32; 2])
        ensures
            final(self)@ == spec_write_slot(old(self)@, UniformSlot::BlurDirection, direction@),
    {
        self.write_slots(46, direction.as_slice());
    }

    /// Sets the blur sigma.
    pub fn set_image_blur_filter_sigma(&mut self, sigma: u32)
        ensures
            final(self)@ == spec_write_slot(old(self)@, UniformSlot::BlurSigma, seq![sigma]),
    {
        self.write_one(45, sigma);
        assert(self@ =~= spec_write_slot(old(self)@, UniformSlot::BlurSigma, seq![sigma]));
    }

    /// Sets the blur coefficients.
    pub fn set_image_blur_filter_coeff(&mut self, coeff: [u32; 3])
        ensures
            final(self)@ == spec_write_slot(old(self)@, UniformSlot::BlurCoeff, coeff@),
    {
        self.write_slots(48, coeff.as_slice());
    }

    /// The flat uniform array of a draw with parameters `params`.
    #[verifier::rlimit(40)]
    pub fn from_params(params: &Params) -> (r: Self)
        ensures
            r@ == spec_uniform_array_of(*params),
    {
        let mut arr = Self::default();
        arr.set_scissor_mat(params.scissor_mat);
        arr.set_paint_mat(params.paint_mat);
        arr.set_inner_col(params.inner_col);
        arr.set_outer_col(params.outer_col);
        arr.set_scissor_ext(params.scissor_ext);
        arr.set_scissor_scale(params.scissor_scale);
        arr.set_extent(params.extent);
        arr.set_radius(params.radius);
        arr.set_feather(params.feather);
        arr.set_stroke_mult(params.stroke_mult);
        arr.set_stroke_thr(params.stroke_thr);
        arr.set_shader_type(u8_to_f32_bits(params.shader_type.to_u8()));
        arr.set_tex_type(params.tex_type);
        arr.set_glyph_texture_type(u8_to_f32_bits(params.glyph_texture_type));
        arr.set_image_blur_filter_direction(params.image_blur_filter_direction);
        arr.set_image_blur_filter_sigma(params.image_blur_filter_sigma);
        arr.set_image_blur_filter_coeff(params.image_blur_filter_coeff);
        assert(arr@ =~= spec_uniform_array_of(*params));
        arr
    }
}

/// The floats that a draw with parameters `p` puts in field `s`.
pub open spec fn spec_param_slot_value(p: Params, s: UniformSlot) -> Seq<u32> {
    match s {
        UniformSlot::ScissorMat => p.scissor_mat@,
        UniformSlot::PaintMat => p.paint_mat@,
        UniformSlot::InnerCol => p.inner_col@,
        UniformSlot::OuterCol => p.outer_col@,
        UniformSlot::ScissorExt => p.scissor_ext@,
        UniformSlot::ScissorScale => p.scissor_scale@,
        UniformSlot::Extent => p.extent@,
        UniformSlot::Radius => seq![p.radius],
        UniformSlot::Feather => seq![p.feather],
        UniformSlot::StrokeMult => seq![p.stroke_mult],
        UniformSlot::StrokeThr => seq![p.stroke_thr],
        UniformSlot::TexType => seq![p.tex_type],
        UniformSlot::ShaderType => seq![
            spec_small_int_f32_bits(spec_shader_type_number(p.shader_type) as nat) as u32,
        ],
        UniformSlot::GlyphTextureType => seq![
            spec_small_int_f32_bits(p.glyph_texture_type as nat) as u32,
        ],
        UniformSlot::BlurSigma => seq![p.image_blur_filter_sigma],
        UniformSlot::BlurDirection => p.image_blur_filter_direction@,
        UniformSlot::BlurCoeff => p.image_blur_filter_coeff@,
    }
}

/// Every field of the flat uniform array lies within its first 51 slots,
/// and no two fields share a slot.
pub proof fn lemma_slot_layout(s: UniformSlot, t: UniformSlot)
    ensures
        0 <= spec_slot_start(s),
        1 <= spec_slot_len(s),
        spec_slot_start(s) + spec_slot_len(s) <= 51,
        s != t ==> spec_slot_start(s) + spec_slot_len(s) <= spec_slot_start(t)
            || spec_slot_start(t) + spec_slot_len(t) <= spec_slot_start(s),
{
}

/// Writing a field changes exactly that field's slots, to the values written.
pub proof fn lemma_write_slot_reads_back(a: Seq<u32>, s: UniformSlot, v: Seq<u32>)
    requires
        a.len() == 56,
        v.len() == spec_slot_len(s),
    ensures
        spec_write_slot(a, s, v).len() == 56,
        spec_write_slot(a, s, v).subrange(spec_slot_start(s), spec_slot_start(s) + spec_slot_len(s))
            == v,
        forall|j: int|
            0 <= j < 56 && !(spec_slot_start(s) <= j < spec_slot_start(s) + spec_slot_len(s))
                ==> #[trigger] spec_write_slot(a, s, v)[j] == a[j],
{
    lemma_slot_layout(s, s);
    let w = spec_write_slot(a, s, v);
    assert(w.subrange(spec_slot_start(s), spec_slot_start(s) + spec_slot_len(s)) =~= v);
}

proof fn lemma_write_slot_index(a: Seq<u32>, s: UniformSlot, v: Seq<u32>, j: int)
    requires
        a.len() == 56,
        v.len() == spec_slot_len(s),
        0 <= j < 56,
    ensures
        spec_write_slot(a, s, v).len() == 56,
        spec_write_slot(a, s, v)[j] == if spec_slot_start(s) <= j < spec_slot_start(s)
            + spec_slot_len(s) {
            v[j - spec_slot_start(s)]
        } else {
            a[j]
        },
{
    lemma_slot_layout(s, s);
}

/// Setting two different fields gives the same array in either order.
pub proof fn lemma_write_slots_commute(
    a: Seq<u32>,
    s: UniformSlot,
    v: Seq<u32>,
    t: UniformSlot,
    w: Seq<u32>,
)
    requires
        a.len() == 56,
        v.len() == spec_slot_len(s),
        w.len() == spec_slot_len(t),
        s != t,
    ensures
        spec_write_slot(spec_write_slot(a, s, v), t, w) == spec_write_slot(
            spec_write_slot(a, t, w),
            s,
            v,
        ),
{
    lemma_slot_layout(s, t);
    let x = spec_write_slot(spec_write_slot(a, s, v), t, w);
    let y = spec_write_slot(spec_write_slot(a, t, w), s, v);
    assert forall|j: int| 0 <= j < 56 implies x[j] == y[j] by {
        lemma_write_slot_index(a, s, v, j);
        lemma_write_slot_index(spec_write_slot(a, s, v), t, w, j);
        lemma_write_slot_index(a, t, w, j);
        lemma_write_slot_index(spec_write_slot(a, t, w), s, v, j);
    }
    lemma_write_slot_index(a, s, v, 0);
    lemma_write_slot_index(spec_write_slot(a, s, v), t, w, 0);
    lemma_write_slot_index(a, t, w, 0);
    lemma_write_slot_index(spec_write_slot(a, t, w), s, v, 0);
    assert(x =~= y);
}

/// The flat uniform array of a draw holds each of the draw's parameters in
/// that parameter's field, and zeros after the last field.
pub proof fn lemma_uniform_array_fields(p: Params, s: UniformSlot)
    ensures
        spec_uniform_array_of(p).len() == 56,
        spec_uniform_array_of(p).subrange(spec_slot_start(s), spec_slot_start(s) + spec_slot_len(s))
            == spec_param_slot_value(p, s),
        spec_uniform_array_of(p).subrange(51, 56) == seq![0u32, 0, 0, 0, 0],
{
    let a = spec_uniform_array_of(p);
    assert(a.subrange(spec_slot_start(s), spec_slot_start(s) + spec_slot_len(s))
        =~= spec_param_slot_value(p, s));
    assert(a.subrange(51, 56) =~= seq![0u32, 0, 0, 0, 0]);
}

/// The flat array has 56 slots.
pub proof fn lemma_uniform_array_len(a: UniformArray)
    ensures
        a@.len() == 56,
{
}

/// The twelve floats of a matrix read row by row: element `k` is column
/// `k % 3`, row `k / 3`.
pub open spec fn spec_mat_rows(m: Mat3x4) -> Seq<u32> {
    Seq::new(12, |k: int| m.cols@[k % 3]@[k / 3])
}

/// The floats that the uniform block `u` holds in field `s`, its matrices
/// read row by row.
pub open spec fn spec_block_slot_value(u: UniformParams, s: UniformSlot) -> Seq<u32> {
    match s {
        UniformSlot::ScissorMat => spec_mat_rows(u.scissor_mat),
        UniformSlot::PaintMat => spec_mat_rows(u.paint_mat),
        UniformSlot::InnerCol => u.inner_col@,
        UniformSlot::OuterCol => u.outer_col@,
        UniformSlot::ScissorExt => u.scissor_ext@,
        UniformSlot::ScissorScale => u.scissor_scale@,
        UniformSlot::Extent => u.extent@,
        UniformSlot::Radius => seq![u.radius],
        UniformSlot::Feather => seq![u.feather],
        UniformSlot::StrokeMult => seq![u.stroke_mult],
        UniformSlot::StrokeThr => seq![u.stroke_thr],
        UniformSlot::TexType => seq![u.tex_type],
        UniformSlot::ShaderType => seq![u.unused_shader_type],
        UniformSlot::GlyphTextureType => seq![u.glyph_texture_type],
        UniformSlot::BlurSigma => seq![u.image_blur_filter_sigma],
        UniformSlot::BlurDirection => u.image_blur_filter_direction@,
        UniformSlot::BlurCoeff => u.image_blur_filter_coeff@,
    }
}

proof fn lemma_mat_rows_from(m: [u32; 12])
    ensures
        spec_mat_rows(spec_mat3x4_from(m)) == m@,
{
    assert forall|k: int| 0 <= k < 12 implies spec_mat_rows(spec_mat3x4_from(m))[k] == m@[k] by {
        lemma_mat3x4_element(m, k % 3, k / 3);
        assert(3 * (k / 3) + k % 3 == k);
    }
    assert(spec_mat_rows(spec_mat3x4_from(m)) =~= m@);
}

/// The two layouts of one draw's uniforms agree: every field of the
/// structured block holds the same floats as the same field of the flat
/// array, the block's matrices read row by row.
pub proof fn lemma_uniform_layouts_agree(p: Params, s: UniformSlot)
    ensures
        spec_block_slot_value(spec_uniform_params_of(p), s) == spec_uniform_array_of(p).subrange(
            spec_slot_start(s),
            spec_slot_start(s) + spec_slot_len(s),
        ),
{
    lemma_uniform_array_fields(p, s);
    lemma_mat_rows_from(p.scissor_mat);
    lemma_mat_rows_from(p.paint_mat);
}

} // verus!
