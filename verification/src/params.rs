//! Canvas-side drawing parameters: which shader program runs, which glyph
//! texture is sampled, and the numeric parameters of a fill or stroke.
//!
//! Numeric parameters are single-precision floats on the canvas side; here
//! each one is held as its IEEE-754 bit pattern (`u32`), which is all that the
//! logic of this crate reads or moves.

use vstd::prelude::*;

verus! {

/// Identifies an image in the canvas's image store.
#[derive(Clone, Copy, Debug, PartialEq, Eq, Hash, Structural)]
pub struct ImageId {
    pub id: u64,
}

/// The fragment program variant a draw call selects.
#[derive(Clone, Copy, Debug, PartialEq, Eq, Hash, Structural)]
pub enum ShaderType {
    FillGradient,
    FillImage,
    Stencil,
    FillImageGradient,
    FilterImage,
    FillColor,
    TextureCopyUnclipped,
    FillColorUnclipped,
}

/// The number by which the shader program knows a shader type.
pub open spec fn spec_shader_type_number(t: ShaderType) -> u8 {
    match t {
        ShaderType::FillGradient => 0,
        ShaderType::FillImage => 1,
        ShaderType::Stencil => 2,
        ShaderType::FillImageGradient => 3,
        ShaderType::FilterImage => 4,
        ShaderType::FillColor => 5,
        ShaderType::TextureCopyUnclipped => 6,
        ShaderType::FillColorUnclipped => 7,
    }
}

impl ShaderType {
    /// The number by which the shader program knows this shader type.
    pub fn to_u8(self) -> (r: u8)
        ensures
            r == spec_shader_type_number(self),
    {
        match self {
            ShaderType::FillGradient => 0,
            ShaderType::FillImage => 1,
            ShaderType::Stencil => 2,
            ShaderType::FillImageGradient => 3,
            ShaderType::FilterImage => 4,
            ShaderType::FillColor => 5,
            ShaderType::TextureCopyUnclipped => 6,
            ShaderType::FillColorUnclipped => 7,
        }
    }
}

/// The glyph atlas a text draw samples, if any.
#[derive(Clone, Copy, Debug, PartialEq, Eq, Hash, Structural)]
pub enum GlyphTexture {
    NoGlyphs,
    AlphaMask(ImageId),
    ColorTexture(ImageId),
}

/// The image behind a glyph texture.
pub open spec fn spec_glyph_image_id(g: GlyphTexture) -> Option<ImageId> {
    match g {
        GlyphTexture::NoGlyphs => None,
        GlyphTexture::AlphaMask(id) => Some(id),
        GlyphTexture::ColorTexture(id) => Some(id),
    }
}

impl GlyphTexture {
    /// The image behind this glyph texture, if any.
    pub fn image_id(&self) -> (r: Option<ImageId>)
        ensures
            r == spec_glyph_image_id(*self),
    {
        match self {
            GlyphTexture::NoGlyphs => None,
            GlyphTexture::AlphaMask(id) => Some(*id),
            GlyphTexture::ColorTexture(id) => Some(*id),
        }
    }
}

/// The parameters of one fill, stroke or image draw, as the canvas computes
/// them. Every float is held as its bit pattern.
#[derive(Clone, Copy, Debug)]
pub struct Params {
    pub scissor_mat: [u32; 12],
    pub paint_mat: [u32; 12],
    pub inner_col: [u32; 4],
    pub outer_col: [u32; 4],
    pub scissor_ext: [u32; 2],
    pub scissor_scale: [u32; 2],
    pub extent: [u32; 2],
    pub radius: u32,
    pub feather: u32,
    pub stroke_mult: u32,
    pub stroke_thr: u32,
    pub tex_type: u32,
    pub shader_type: ShaderType,
    /// 0: no glyph texture, 1: alpha mask, 2: colour texture.
    pub glyph_texture_type: u8,
    pub image_blur_filter_direction: [u32; 2],
    pub image_blur_filter_sigma: u32,
    pub image_blur_filter_coeff: [u32; 3],
}

impl Params {
    /// Whether the draw samples a glyph texture.
    pub fn uses_glyph_texture(&self) -> (r: bool)
        ensures
            r == (self.glyph_texture_type != 0),
    {
        self.glyph_texture_type != 0
    }
}

} // verus!
