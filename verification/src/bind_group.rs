//! Bind groups: the uniforms, image and glyph texture a draw samples, and
//! the samplers chosen from the image flags.

use vstd::prelude::*;

use crate::images::{ImageFlags, ImageStore, IMAGE_FLAG_NEAREST, IMAGE_FLAG_REPEAT_X, IMAGE_FLAG_REPEAT_Y};
use crate::params::{GlyphTexture, ImageId, spec_glyph_image_id};
use crate::uniforms::{UniformParams, spec_uniforms_eq};

verus! {

/// An image of the canvas, or an intermediate texture made while encoding a
/// frame (numbered in the order of making).
#[derive(Clone, Copy, Debug, PartialEq, Eq, Hash, Structural)]
pub enum ImageOrTexture {
    Image(ImageId),
    Texture(usize),
}

/// How texture coordinates outside the unit square are handled.
#[derive(Clone, Copy, Debug, PartialEq, Eq, Hash, Structural)]
pub enum AddressMode {
    ClampToEdge,
    Repeat,
    MirrorRepeat,
    ClampToBorder,
}

/// How texels are filtered.
#[derive(Clone, Copy, Debug, PartialEq, Eq, Hash, Structural)]
pub enum FilterMode {
    Nearest,
    Linear,
}

/// A sampler; settings not named here keep their defaults.
#[derive(Clone, Copy, Debug, PartialEq, Eq, Hash, Structural)]
pub struct SamplerDescriptor {
    pub address_mode_u: AddressMode,
    pub address_mode_v: AddressMode,
    pub address_mode_w: AddressMode,
    pub mag_filter: FilterMode,
    pub min_filter: FilterMode,
}

/// The texture a binding samples.
#[derive(Clone, Copy, Debug, PartialEq, Eq, Hash, Structural)]
pub enum BoundTexture {
    /// The one-pixel placeholder texture.
    Empty,
    /// A texture backing an image, by its identity.
    Stored(u64),
    /// An intermediate texture of the current frame, by its number.
    Intermediate(usize),
}

/// A texture view and the sampler it is read with.
#[derive(Clone, Copy, Debug, PartialEq, Eq, Hash, Structural)]
pub struct TextureBinding {
    pub texture: BoundTexture,
    pub sampler: SamplerDescriptor,
}

/// The sampler for an image with the given flags: repeat along an axis when
/// the image repeats along it, else clamp; nearest filtering when asked for,
/// else linear.
pub open spec fn spec_sampler_for(flags: ImageFlags) -> SamplerDescriptor {
    let filter = if flags.bits & IMAGE_FLAG_NEAREST == IMAGE_FLAG_NEAREST {
        FilterMode::Nearest
    } else {
        FilterMode::Linear
    };
    SamplerDescriptor {
        address_mode_u: if flags.bits & IMAGE_FLAG_REPEAT_X == IMAGE_FLAG_REPEAT_X {
            AddressMode::Repeat
        } else {
            AddressMode::ClampToEdge
        },
        address_mode_v: if flags.bits & IMAGE_FLAG_REPEAT_Y == IMAGE_FLAG_REPEAT_Y {
            AddressMode::Repeat
        } else {
            AddressMode::ClampToEdge
        },
        address_mode_w: AddressMode::ClampToEdge,
        mag_filter: filter,
        min_filter: filter,
    }
}

/// What a draw samples for an optional image: a stored image's texture with
/// the image's flags, an intermediate texture with no flags, and the
/// placeholder texture with no flags when there is no image or the image is
/// not in the store.
pub open spec fn spec_texture_binding(images: ImageStore, image: Option<ImageOrTexture>) -> TextureBinding {
    let empty = ImageFlags { bits: 0 };
    match image {
        Some(ImageOrTexture::Image(id)) => match images.spec_get(id) {
            Some(img) => TextureBinding {
                texture: BoundTexture::Stored(img.texture.id),
                sampler: spec_sampler_for(img.info.flags),
            },
            None => TextureBinding {
                texture: BoundTexture::Empty,
                sampler: spec_sampler_for(empty),
            },
        },
        Some(ImageOrTexture::Texture(n)) => TextureBinding {
            texture: BoundTexture::Intermediate(n),
            sampler: spec_sampler_for(empty),
        },
        None => TextureBinding { texture: BoundTexture::Empty, sampler: spec_sampler_for(empty) },
    }
}

/// Chooses the sampler for an image with the given flags.
pub fn sampler_for(flags: ImageFlags) -> (r: SamplerDescriptor)
    ensures
        r == spec_sampler_for(flags),
{
    let filter = if flags.contains(IMAGE_FLAG_NEAREST) {
        FilterMode::Nearest
    } else {
        FilterMode::Linear
    };
    SamplerDescriptor {
        address_mode_u: if flags.contains(IMAGE_FLAG_REPEAT_X) {
            AddressMode::Repeat
        } else {
            AddressMode::ClampToEdge
        },
        address_mode_v: if flags.contains(IMAGE_FLAG_REPEAT_Y) {
            AddressMode::Repeat
        } else {
            AddressMode::ClampToEdge
        },
        address_mode_w: AddressMode::ClampToEdge,
        mag_filter: filter,
        min_filter: filter,
    }
}

/// Chooses the texture view and sampler a draw samples for an optional image.
pub fn create_texture_view_and_sampler(images: &ImageStore, image: Option<ImageOrTexture>) -> (r:
    TextureBinding)
    requires
        images.wf(),
    ensures
        r == spec_texture_binding(*images, image),
{
    let texture_and_flags: Option<(BoundTexture, ImageFlags)> = match image {
        Some(ImageOrTexture::Image(id)) => match images.get(id) {
            Some(img) => Some((BoundTexture::Stored(img.texture.id), img.info.flags)),
            None => None,
        },
        Some(ImageOrTexture::Texture(n)) => Some((BoundTexture::Intermediate(n), ImageFlags::empty())),
        None => None,
    };
    match texture_and_flags {
        Some((texture, flags)) => TextureBinding { texture, sampler: sampler_for(flags) },
        None => TextureBinding { texture: BoundTexture::Empty, sampler: sampler_for(ImageFlags::empty()) },
    }
}

/// What a draw binds besides the viewport: its image, its glyph texture and
/// its uniforms.
#[derive(Clone, Copy, Debug)]
pub struct BindGroupState {
    pub image: Option<ImageOrTexture>,
    pub glyph_texture: GlyphTexture,
    pub uniforms: UniformParams,
}

/// Two bind-group states bind the same things: the same image, the same
/// glyph texture and uniforms that compare equal as floats.
pub open spec fn spec_bind_group_state_eq(a: BindGroupState, b: BindGroupState) -> bool {
    a.image == b.image && a.glyph_texture == b.glyph_texture && spec_uniforms_eq(a.uniforms, b.uniforms)
}

impl BindGroupState {
    /// Whether two bind-group states bind the same things.
    pub fn same_as(&self, other: &Self) -> (r: bool)
        ensures
            r == spec_bind_group_state_eq(*self, *other),
    {
        self.image == other.image && self.glyph_texture == other.glyph_texture
            && self.uniforms.same_as(&other.uniforms)
    }

    /// The bind group to create for this state.
    pub fn materialize(&self, images: &ImageStore) -> (r: BindGroupDescriptor)
        requires
            images.wf(),
        ensures
            r == spec_materialize_bind_group(*self, *images),
    {
        let glyph_image = match self.glyph_texture.image_id() {
            Some(id) => Some(ImageOrTexture::Image(id)),
            None => None,
        };
        BindGroupDescriptor {
            uniforms: self.uniforms,
            main: create_texture_view_and_sampler(images, self.image),
            glyph: create_texture_view_and_sampler(images, glyph_image),
        }
    }
}

/// The description from which the GPU device creates a draw's bind group:
/// a uniform buffer holding the uniforms, then the image and the glyph
/// texture, each with its sampler.
#[derive(Clone, Copy, Debug)]
pub struct BindGroupDescriptor {
    pub uniforms: UniformParams,
    pub main: TextureBinding,
    pub glyph: TextureBinding,
}

/// The bind group to create for a bind-group state.
pub open spec fn spec_materialize_bind_group(s: BindGroupState, images: ImageStore) -> BindGroupDescriptor {
    BindGroupDescriptor {
        uniforms: s.uniforms,
        main: spec_texture_binding(images, s.image),
        glyph: spec_texture_binding(
            images,
            match spec_glyph_image_id(s.glyph_texture) {
                Some(id) => Some(ImageOrTexture::Image(id)),
                None => None,
            },
        ),
    }
}

/// Bind-group states taken for the same bind the same image and the same
/// glyph texture, with uniforms that compare equal as floats; and states
/// that bind the same image and glyph texture with such uniforms are taken
/// for the same. So a bind group is never reused for a draw that samples
/// another image or another glyph texture.
pub proof fn lemma_same_bind_group_binds_same_images(a: BindGroupState, b: BindGroupState)
    ensures
        spec_bind_group_state_eq(a, b) ==> a.image == b.image && a.glyph_texture == b.glyph_texture,
        spec_bind_group_state_eq(a, b) ==> spec_uniforms_eq(a.uniforms, b.uniforms),
        a.image == b.image && a.glyph_texture == b.glyph_texture && spec_uniforms_eq(a.uniforms, b.uniforms)
            ==> spec_bind_group_state_eq(a, b),
{
}

/// A bind group samples what its state binds: the stored image's texture
/// with a sampler for the image's flags, an intermediate texture, or the
/// placeholder; and the glyph atlas's image the same way; and it holds the
/// state's uniforms.
pub proof fn lemma_bind_group_samples_its_images(s: BindGroupState, images: ImageStore)
    ensures
        ({
            let d = spec_materialize_bind_group(s, images);
            &&& d.uniforms == s.uniforms
            &&& (s.image matches Some(ImageOrTexture::Image(id)) ==> (images.spec_get(id) matches Some(img)
                ==> d.main.texture == BoundTexture::Stored(img.texture.id) && d.main.sampler
                == spec_sampler_for(img.info.flags)))
            &&& (s.image matches Some(ImageOrTexture::Texture(n)) ==> d.main.texture == BoundTexture::Intermediate(n))
            &&& (s.image is None ==> d.main.texture == BoundTexture::Empty)
            &&& (spec_glyph_image_id(s.glyph_texture) matches Some(id) ==> (images.spec_get(id) matches Some(img)
                ==> d.glyph.texture == BoundTexture::Stored(img.texture.id)))
            &&& (s.glyph_texture is NoGlyphs ==> d.glyph.texture == BoundTexture::Empty)
        }),
{
}

/// An image is sampled as its flags ask: repeating along an axis exactly
/// when it repeats along it (else clamped to the edge, and always clamped
/// along the third axis), and with nearest filtering, both up and down,
/// exactly when it asks for it (else linear).
pub proof fn lemma_sampler_follows_flags(flags: ImageFlags)
    ensures
        ({
            let d = spec_sampler_for(flags);
            &&& (d.address_mode_u == AddressMode::Repeat) == (flags.bits & 2 != 0)
            &&& (d.address_mode_u is Repeat || d.address_mode_u is ClampToEdge)
            &&& (d.address_mode_v == AddressMode::Repeat) == (flags.bits & 4 != 0)
            &&& (d.address_mode_v is Repeat || d.address_mode_v is ClampToEdge)
            &&& d.address_mode_w == AddressMode::ClampToEdge
            &&& d.mag_filter == d.min_filter
            &&& (d.mag_filter == FilterMode::Nearest) == (flags.bits & 32 != 0)
            &&& (d.mag_filter is Nearest || d.mag_filter is Linear)
        }),
{
    let b = flags.bits;
    assert((b & 2 == 2) == (b & 2 != 0)) by (bit_vector);
    assert((b & 4 == 4) == (b & 4 != 0)) by (bit_vector);
    assert((b & 32 == 32) == (b & 32 != 0)) by (bit_vector);
}

} // verus!
