//! Images and the textures behind them: texture descriptions, per-image
//! sampling, the image store, and the bytes uploaded when an image changes.

use vstd::prelude::*;

use crate::params::ImageId;
use crate::pipeline::TextureFormat;

verus! {

/// The pixel layout of an image as the canvas stores it.
#[derive(Clone, Copy, Debug, PartialEq, Eq, Hash, Structural)]
pub enum PixelFormat {
    Rgb8,
    Rgba8,
    Gray8,
}

/// Image flags, as a bit set.
#[derive(Clone, Copy, Debug, PartialEq, Eq, Hash, Structural)]
pub struct ImageFlags {
    pub bits: u32,
}

pub const IMAGE_FLAG_GENERATE_MIPMAPS: u32 = 1;
pub const IMAGE_FLAG_REPEAT_X: u32 = 2;
pub const IMAGE_FLAG_REPEAT_Y: u32 = 4;
pub const IMAGE_FLAG_FLIP_Y: u32 = 8;
pub const IMAGE_FLAG_PREMULTIPLIED: u32 = 16;
pub const IMAGE_FLAG_NEAREST: u32 = 32;

impl ImageFlags {
    /// The empty flag set.
    pub fn empty() -> (r: Self)
        ensures
            r.bits == 0,
    {
        ImageFlags { bits: 0 }
    }

    /// Whether every flag of `flag` is set.
    pub fn contains(&self, flag: u32) -> (r: bool)
        ensures
            r == (self.bits & flag == flag),
    {
        self.bits & flag == flag
    }
}

/// What the canvas knows of an image: its flags, size and pixel format.
#[derive(Clone, Copy, Debug, PartialEq, Eq, Hash, Structural)]
pub struct ImageInfo {
    pub flags: ImageFlags,
    pub width: usize,
    pub height: usize,
    pub format: PixelFormat,
}

/// A GPU texture as the logic sees it: an identity that the caller assigns
/// when it creates the texture, and the texture's size and format.
#[derive(Clone, Copy, Debug, PartialEq, Eq, Hash, Structural)]
pub struct TextureInfo {
    pub id: u64,
    pub width: u32,
    pub height: u32,
    pub format: TextureFormat,
}

/// An image of the canvas: the texture that holds its pixels and its info.
#[derive(Clone, Copy, Debug, PartialEq, Eq, Structural)]
pub struct Image {
    pub texture: TextureInfo,
    pub info: ImageInfo,
}

impl Image {
    /// The image backed by an existing texture.
    pub fn from_texture(texture: TextureInfo, info: ImageInfo) -> (r: Self)
        ensures
            r.texture == texture,
            r.info == info,
    {
        Image { texture, info }
    }
}

/// How a texture may be used, as a bit set.
#[derive(Clone, Copy, Debug, PartialEq, Eq, Hash, Structural)]
pub struct TextureUsages {
    pub bits: u32,
}

pub const TEXTURE_USAGE_COPY_SRC: u32 = 1;
pub const TEXTURE_USAGE_COPY_DST: u32 = 2;
pub const TEXTURE_USAGE_TEXTURE_BINDING: u32 = 4;
pub const TEXTURE_USAGE_STORAGE_BINDING: u32 = 8;
pub const TEXTURE_USAGE_RENDER_ATTACHMENT: u32 = 16;

/// The description from which the GPU device creates a two-dimensional
/// texture with one mip level and one sample per pixel.
#[derive(Clone, Copy, Debug, PartialEq, Eq, Hash, Structural)]
pub struct TextureDescriptor {
    pub width: u32,
    pub height: u32,
    pub depth_or_array_layers: u32,
    pub format: TextureFormat,
    pub usage: TextureUsages,
}

/// The texture format that holds an image of a pixel format: colour images
/// become four-channel textures, grey images one-channel textures.
pub open spec fn spec_texture_format_of(f: PixelFormat) -> TextureFormat {
    match f {
        PixelFormat::Rgb8 => TextureFormat::Rgba8Unorm,
        PixelFormat::Rgba8 => TextureFormat::Rgba8Unorm,
        PixelFormat::Gray8 => TextureFormat::R8Unorm,
    }
}

/// The texture that holds a newly allocated image: the image's size (as
/// 32-bit numbers), its texture format, sampled, copied into and rendered to.
pub open spec fn spec_image_texture_descriptor(info: ImageInfo) -> TextureDescriptor {
    TextureDescriptor {
        width: info.width as u32,
        height: info.height as u32,
        depth_or_array_layers: 1,
        format: spec_texture_format_of(info.format),
        usage: TextureUsages {
            bits: TEXTURE_USAGE_TEXTURE_BINDING | TEXTURE_USAGE_COPY_DST
                | TEXTURE_USAGE_RENDER_ATTACHMENT,
        },
    }
}

/// Describes the texture that holds a newly allocated image.
pub fn image_texture_descriptor(info: &ImageInfo) -> (r: TextureDescriptor)
    ensures
        r == spec_image_texture_descriptor(*info),
{
    TextureDescriptor {
        width: info.width as u32,
        height: info.height as u32,
        depth_or_array_layers: 1,
        format: match info.format {
            PixelFormat::Rgb8 => TextureFormat::Rgba8Unorm,
            PixelFormat::Rgba8 => TextureFormat::Rgba8Unorm,
            PixelFormat::Gray8 => TextureFormat::R8Unorm,
        },
        usage: TextureUsages {
            bits: TEXTURE_USAGE_TEXTURE_BINDING | TEXTURE_USAGE_COPY_DST
                | TEXTURE_USAGE_RENDER_ATTACHMENT,
        },
    }
}

/// The stencil buffer that goes with a render target of the given size.
pub open spec fn spec_stencil_descriptor(width: u32, height: u32) -> TextureDescriptor {
    TextureDescriptor {
        width,
        height,
        depth_or_array_layers: 1,
        format: TextureFormat::Stencil8,
        usage: TextureUsages { bits: TEXTURE_USAGE_RENDER_ATTACHMENT },
    }
}

/// Describes the stencil buffer that goes with a render target of the given size.
pub fn stencil_descriptor(width: u32, height: u32) -> (r: TextureDescriptor)
    ensures
        r == spec_stencil_descriptor(width, height),
{
    TextureDescriptor {
        width,
        height,
        depth_or_array_layers: 1,
        format: TextureFormat::Stencil8,
        usage: TextureUsages { bits: TEXTURE_USAGE_RENDER_ATTACHMENT },
    }
}

/// The intermediate texture of a two-pass blur of `source`: same size and
/// format, sampled and rendered to.
pub open spec fn spec_blur_descriptor(source: TextureInfo) -> TextureDescriptor {
    TextureDescriptor {
        width: source.width,
        height: source.height,
        depth_or_array_layers: 1,
        format: source.format,
        usage: TextureUsages {
            bits: TEXTURE_USAGE_TEXTURE_BINDING | TEXTURE_USAGE_RENDER_ATTACHMENT,
        },
    }
}

/// Describes the intermediate texture of a two-pass blur of `source`.
pub fn blur_descriptor(source: &TextureInfo) -> (r: TextureDescriptor)
    ensures
        r == spec_blur_descriptor(*source),
{
    TextureDescriptor {
        width: source.width,
        height: source.height,
        depth_or_array_layers: 1,
        format: source.format,
        usage: TextureUsages {
            bits: TEXTURE_USAGE_TEXTURE_BINDING | TEXTURE_USAGE_RENDER_ATTACHMENT,
        },
    }
}

/// The one-pixel texture sampled where a draw has no image: an opaque red
/// pixel, four channels, sampled and copied into.
pub open spec fn spec_empty_texture_descriptor() -> TextureDescriptor {
    TextureDescriptor {
        width: 1,
        height: 1,
        depth_or_array_layers: 1,
        format: TextureFormat::Rgba8Unorm,
        usage: TextureUsages { bits: TEXTURE_USAGE_TEXTURE_BINDING | TEXTURE_USAGE_COPY_DST },
    }
}

/// The one-pixel texture sampled where a draw has no image, with what is
/// written into it once it is made.
#[derive(Clone, Copy, Debug)]
pub struct EmptyTexture {
    pub descriptor: TextureDescriptor,
    /// The pixel written into the texture.
    pub pixel: [u8; 4],
    /// Where the pixel starts in the bytes written.
    pub offset: u64,
    /// The length of a row of the bytes written.
    pub bytes_per_row: u32,
}

/// The placeholder texture: an opaque red pixel in a four-channel texture
/// that is sampled and copied into, written from offset 0 with four-byte
/// rows.
pub open spec fn spec_is_empty_texture(e: EmptyTexture) -> bool {
    &&& e.descriptor == spec_empty_texture_descriptor()
    &&& e.pixel@ == seq![255u8, 0, 0, 255]
    &&& e.offset == 0
    &&& e.bytes_per_row == 4
}

/// Describes the one-pixel texture sampled where a draw has no image, and
/// how its pixel is written.
pub fn empty_texture() -> (r: EmptyTexture)
    ensures
        spec_is_empty_texture(r),
{
    let r = EmptyTexture {
        descriptor: TextureDescriptor {
            width: 1,
            height: 1,
            depth_or_array_layers: 1,
            format: TextureFormat::Rgba8Unorm,
            usage: TextureUsages { bits: TEXTURE_USAGE_TEXTURE_BINDING | TEXTURE_USAGE_COPY_DST },
        },
        pixel: [255u8, 0, 0, 255],
        offset: 0,
        bytes_per_row: 4,
    };
    assert(r.pixel@ =~= seq![255u8, 0, 0, 255]);
    r
}

/// The canvas's images, by id.
pub struct ImageStore {
    entries: Vec<(ImageId, Image)>,
}

impl ImageStore {
    /// No two entries have the same id.
    pub closed spec fn wf(&self) -> bool {
        forall|i: int, j: int|
            0 <= i < j < self.entries@.len() ==> #[trigger] self.entries@[i].0
                != #[trigger] self.entries@[j].0
    }

    /// Whether an image with this id is stored.
    pub closed spec fn spec_has(&self, id: ImageId) -> bool {
        exists|i: int| 0 <= i < self.entries@.len() && #[trigger] self.entries@[i].0 == id
    }

    /// The stored images, by id.
    pub closed spec fn spec_images(&self) -> Map<ImageId, Image> {
        Map::new(
            |id: ImageId| self.spec_has(id),
            |id: ImageId|
                self.entries@[choose|i: int|
                    0 <= i < self.entries@.len() && #[trigger] self.entries@[i].0 == id].1,
        )
    }

    /// The image with this id, if stored.
    pub open spec fn spec_get(&self, id: ImageId) -> Option<Image> {
        if self.spec_images().dom().contains(id) {
            Some(self.spec_images()[id])
        } else {
            None
        }
    }

    /// The empty store.
    pub fn new() -> (r: Self)
        ensures
            r.wf(),
            r.spec_images() == Map::<ImageId, Image>::empty(),
    {
        let r = ImageStore { entries: Vec::new() };
        assert(r.spec_images() =~= Map::<ImageId, Image>::empty());
        r
    }

    fn find(&self, id: ImageId) -> (r: Option<usize>)
        requires
            self.wf(),
        ensures
            r is None ==> !self.spec_has(id),
            r matches Some(i) ==> i < self.entries@.len() && self.entries@[i as int].0 == id,
    {
        let mut i: usize = 0;
        while i < self.entries.len()
            invariant
                0 <= i <= self.entries@.len(),
                forall|j: int| 0 <= j < i ==> #[trigger] self.entries@[j].0 != id,
            decreases self.entries@.len() - i,
        {
            if self.entries[i].0 == id {
                return Some(i);
            }
            i = i + 1;
        }
        None
    }

    proof fn lemma_entry_is_image(&self, i: int)
        requires
            self.wf(),
            0 <= i < self.entries@.len(),
        ensures
            self.spec_get(self.entries@[i].0) == Some(self.entries@[i].1),
    {
        let id = self.entries@[i].0;
        assert(self.spec_has(id));
        let k = choose|k: int| 0 <= k < self.entries@.len() && #[trigger] self.entries@[k].0 == id;
        assert(k == i);
    }

    /// The image with this id, if stored.
    pub fn get(&self, id: ImageId) -> (r: Option<Image>)
        requires
            self.wf(),
        ensures
            r == self.spec_get(id),
    {
        match self.find(id) {
            Some(i) => {
                proof { self.lemma_entry_is_image(i as int); }
                Some(self.entries[i].1)
            },
            None => None,
        }
    }

    /// Stores `image` under `id`, replacing any image stored under it.
    pub fn insert(&mut self, id: ImageId, image: Image)
        requires
            old(self).wf(),
        ensures
            final(self).wf(),
            final(self).spec_images() == old(self).spec_images().insert(id, image),
    {
        let ghost pos: int;
        match self.find(id) {
            Some(i) => {
                self.entries.set(i, (id, image));
                proof { pos = i as int; }
                assert forall|k: int, j: int|
                    0 <= k < j < self.entries@.len() implies #[trigger] self.entries@[k].0
                    != #[trigger] self.entries@[j].0 by {
                    assert(old(self).entries@[k].0 != old(self).entries@[j].0);
                }
            },
            None => {
                self.entries.push((id, image));
                proof { pos = old(self).entries@.len() as int; }
            },
        }
        assert(self.entries@[pos].0 == id && self.entries@[pos].1 == image);
        assert(forall|k: int|
            0 <= k < old(self).entries@.len() && k != pos ==> #[trigger] self.entries@[k]
                == old(self).entries@[k]);
        assert forall|x: ImageId|
            #[trigger] self.spec_images().dom().contains(x) == old(self).spec_images().insert(
                id,
                image,
            ).dom().contains(x) by {
            if x != id && old(self).spec_has(x) {
                let k = choose|k: int|
                    0 <= k < old(self).entries@.len() && #[trigger] old(self).entries@[k].0 == x;
                assert(self.entries@[k].0 == x);
            }
            if x != id && self.spec_has(x) {
                let k = choose|k: int|
                    0 <= k < self.entries@.len() && #[trigger] self.entries@[k].0 == x;
                assert(k != pos);
                assert(old(self).entries@[k].0 == x);
            }
            if x == id {
                assert(self.entries@[pos].0 == id);
            }
        }
        assert forall|x: ImageId| #[trigger] self.spec_images().dom().contains(x) implies self.spec_get(
            x,
        ) == Some(old(self).spec_images().insert(id, image).index(x)) by {
            let k = choose|k: int|
                0 <= k < self.entries@.len() && #[trigger] self.entries@[k].0 == x;
            self.lemma_entry_is_image(k);
            if x != id {
                assert(k != pos);
                old(self).lemma_entry_is_image(k);
            }
        }
        assert(self.spec_images() =~= old(self).spec_images().insert(id, image));
    }

    /// Takes the image stored under `id` out of the store.
    pub fn remove(&mut self, id: ImageId) -> (r: Option<Image>)
        requires
            old(self).wf(),
        ensures
            final(self).wf(),
            r == old(self).spec_get(id),
            final(self).spec_images() == old(self).spec_images().remove(id),
    {
        match self.find(id) {
            Some(i) => {
                proof { old(self).lemma_entry_is_image(i as int); }
                let (_, image) = self.entries.remove(i);
                assert forall|k: int, j: int|
                    0 <= k < j < self.entries@.len() implies #[trigger] self.entries@[k].0
                    != #[trigger] self.entries@[j].0 by {
                    let ok = if k < i { k } else { k + 1 };
                    let oj = if j < i { j } else { j + 1 };
                    assert(old(self).entries@[ok].0 != old(self).entries@[oj].0);
                }
                assert forall|x: ImageId|
                    #[trigger] self.spec_images().dom().contains(x) == old(self).spec_images().remove(
                        id,
                    ).dom().contains(x) by {
                    if x != id && old(self).spec_has(x) {
                        let k = choose|k: int|
                            0 <= k < old(self).entries@.len() && #[trigger] old(self).entries@[k].0
                                == x;
                        assert(k != i);
                        let nk = if k < i { k } else { k - 1 };
                        assert(self.entries@[nk].0 == x);
                    }
                    if self.spec_has(x) {
                        let k = choose|k: int|
                            0 <= k < self.entries@.len() && #[trigger] self.entries@[k].0 == x;
                        let ok = if k < i { k } else { k + 1 };
                        assert(old(self).entries@[ok].0 == x);
                        assert(x != id);
                    }
                }
                assert forall|x: ImageId| #[trigger]
                    self.spec_images().dom().contains(x) implies self.spec_get(x)
                    == Some(old(self).spec_images().remove(id).index(x)) by {
                    let k = choose|k: int|
                        0 <= k < self.entries@.len() && #[trigger] self.entries@[k].0 == x;
                    self.lemma_entry_is_image(k);
                    let ok = if k < i { k } else { k + 1 };
                    old(self).lemma_entry_is_image(ok);
                }
                assert(self.spec_images() =~= old(self).spec_images().remove(id));
                Some(image)
            },
            None => {
                assert(self.spec_images() =~= old(self).spec_images().remove(id));
                None
            },
        }
    }
}

/// Why an image operation is refused.
#[derive(Clone, Copy, Debug, PartialEq, Eq, Structural)]
pub enum ErrorKind {
    /// The renderer does not offer the operation.
    UnsupportedOperation,
}

/// A rectangle of pixels in a buffer: `width` × `height` pixels, rows
/// `stride` pixels apart, each pixel a fixed number of bytes.
pub struct PixelBuffer {
    pub buf: Vec<u8>,
    pub width: usize,
    pub height: usize,
    pub stride: usize,
}

/// Pixels to upload into an image, by layout.
pub enum ImageSource {
    /// Three bytes per pixel: red, green, blue.
    Rgb(PixelBuffer),
    /// Four bytes per pixel: red, green, blue, alpha.
    Rgba(PixelBuffer),
    /// One byte per pixel.
    Gray(PixelBuffer),
}

/// The pixel rectangle of a source.
pub open spec fn spec_source_buffer(data: ImageSource) -> PixelBuffer {
    match data {
        ImageSource::Rgb(b) => b,
        ImageSource::Rgba(b) => b,
        ImageSource::Gray(b) => b,
    }
}

/// The bytes per pixel of what is uploaded for a source: colour sources
/// are uploaded with four bytes per pixel, grey ones with one.
pub open spec fn spec_upload_bytes_per_pixel(data: ImageSource) -> u32 {
    match data {
        ImageSource::Gray(_) => 1,
        _ => 4,
    }
}

/// The four bytes uploaded for pixel `k / 4` of a row starting at pixel
/// `start` of a three-byte buffer: its red, green, blue and an opaque alpha.
pub open spec fn spec_rgba_row(buf: Seq<u8>, start: int, width: int) -> Seq<u8> {
    Seq::new(
        (4 * width) as nat,
        |k: int|
            if k % 4 == 3 {
                255u8
            } else {
                buf[3 * (start + k / 4) + k % 4]
            },
    )
}

/// The first `rows` rows of a three-byte pixel rectangle, made opaque
/// four-byte pixels and packed without padding.
pub open spec fn spec_rgba_rows(buf: Seq<u8>, width: int, stride: int, rows: nat) -> Seq<u8>
    decreases rows,
{
    if rows == 0 {
        seq![]
    } else {
        spec_rgba_rows(buf, width, stride, (rows - 1) as nat) + spec_rgba_row(
            buf,
            (rows - 1) * stride,
            width,
        )
    }
}

/// Whether a pixel buffer holds its rectangle: rows no shorter than the
/// rectangle's width, and every pixel of it within the buffer.
pub open spec fn spec_buffer_holds(b: PixelBuffer, bytes_per_pixel: int) -> bool {
    &&& b.width <= b.stride
    &&& b.height > 0 ==> bytes_per_pixel * ((b.height - 1) * b.stride + b.width) <= b.buf@.len()
}

/// Whether the pixels that an upload reads one by one are in the buffer:
/// those of a three-byte source, which is converted; the other sources are
/// handed over as they are.
pub open spec fn spec_source_holds(data: ImageSource) -> bool {
    match data {
        ImageSource::Rgb(b) => spec_buffer_holds(b, 3),
        _ => true,
    }
}

/// Converts a rectangle of three-byte pixels to packed opaque four-byte pixels.
pub fn rgb_to_rgba(b: &PixelBuffer) -> (r: Vec<u8>)
    requires
        spec_buffer_holds(*b, 3),
    ensures
        r@ == spec_rgba_rows(b.buf@, b.width as int, b.stride as int, b.height as nat),
{
    let mut out: Vec<u8> = Vec::new();
    let n: usize = b.buf.len();
    let mut row: usize = 0;
    while row < b.height
        invariant
            n == b.buf@.len(),
            spec_buffer_holds(*b, 3),
            0 <= row <= b.height,
            out@ == spec_rgba_rows(b.buf@, b.width as int, b.stride as int, row as nat),
        decreases b.height - row,
    {
        proof {
            assert(row * b.stride <= (b.height - 1) * b.stride) by (nonlinear_arith)
                requires
                    row <= b.height - 1,
            ;
        }
        let row_start: usize = row * b.stride;
        let ghost done = out@;
        let ghost full = spec_rgba_row(b.buf@, row_start as int, b.width as int);
        let mut col: usize = 0;
        while col < b.width
            invariant
                n == b.buf@.len(),
                spec_buffer_holds(*b, 3),
                row < b.height,
                row_start == row * b.stride,
                row_start <= (b.height - 1) * b.stride,
                0 <= col <= b.width,
                full == spec_rgba_row(b.buf@, row_start as int, b.width as int),
                out@ == done + full.take(4 * col),
            decreases b.width - col,
        {
            let base: usize = 3 * (row_start + col);
            out.push(b.buf[base]);
            out.push(b.buf[base + 1]);
            out.push(b.buf[base + 2]);
            out.push(255u8);
            proof {
                assert((4 * col + 0) / 4 == col && (4 * col + 0) % 4 == 0) by (nonlinear_arith)
                    requires
                        col >= 0,
                ;
                assert((4 * col + 1) / 4 == col && (4 * col + 1) % 4 == 1) by (nonlinear_arith)
                    requires
                        col >= 0,
                ;
                assert((4 * col + 2) / 4 == col && (4 * col + 2) % 4 == 2) by (nonlinear_arith)
                    requires
                        col >= 0,
                ;
                assert((4 * col + 3) / 4 == col && (4 * col + 3) % 4 == 3) by (nonlinear_arith)
                    requires
                        col >= 0,
                ;
                assert(full.take(4 * (col + 1)) =~= full.take(4 * col) + seq![
                    b.buf@[base as int],
                    b.buf@[base + 1],
                    b.buf@[base + 2],
                    255u8,
                ]);
                assert(out@ =~= done + full.take(4 * (col + 1)));
            }
            col = col + 1;
        }
        proof {
            assert(full.take(4 * col) =~= full);
            assert(out@ =~= spec_rgba_rows(b.buf@, b.width as int, b.stride as int, (row + 1) as nat));
        }
        row = row + 1;
    }
    out
}

/// The converted rows hold four bytes per pixel, and pixel (`c`, `r`) of
/// the rectangle comes out as the source pixel's red, green and blue bytes
/// followed by an opaque alpha.
pub proof fn lemma_rgba_rows_pixel(buf: Seq<u8>, width: int, stride: int, rows: nat, r: int, c: int)
    requires
        0 <= width,
        0 <= r < rows,
        0 <= c < width,
    ensures
        spec_rgba_rows(buf, width, stride, rows).len() == 4 * width * rows,
        spec_rgba_rows(buf, width, stride, rows).subrange(4 * (r * width + c), 4 * (r * width + c) + 4)
            == seq![
            buf[3 * (r * stride + c)],
            buf[3 * (r * stride + c) + 1],
            buf[3 * (r * stride + c) + 2],
            255u8,
        ],
    decreases rows,
{
    lemma_rgba_rows_len(buf, width, stride, (rows - 1) as nat);
    let prev = spec_rgba_rows(buf, width, stride, (rows - 1) as nat);
    let row = spec_rgba_row(buf, (rows - 1) * stride, width);
    let all = spec_rgba_rows(buf, width, stride, rows);
    assert(all == prev + row);
    assert(4 * width * rows == 4 * width * (rows - 1) + 4 * width) by (nonlinear_arith);
    if r < rows - 1 {
        lemma_rgba_rows_pixel(buf, width, stride, (rows - 1) as nat, r, c);
        assert(4 * (r * width + c) + 4 <= 4 * width * (rows - 1)) by (nonlinear_arith)
            requires
                0 <= r < rows - 1,
                0 <= c < width,
        ;
        assert(all.subrange(4 * (r * width + c), 4 * (r * width + c) + 4) =~= prev.subrange(
            4 * (r * width + c),
            4 * (r * width + c) + 4,
        ));
    } else {
        let off = 4 * width * (rows - 1);
        assert(4 * (r * width + c) == off + 4 * c) by (nonlinear_arith)
            requires
                r == rows - 1,
                off == 4 * width * (rows - 1),
        ;
        assert(r * stride == (rows - 1) * stride);
        assert((4 * c + 0) / 4 == c && (4 * c + 0) % 4 == 0) by (nonlinear_arith)
            requires
                c >= 0,
        ;
        assert((4 * c + 1) / 4 == c && (4 * c + 1) % 4 == 1) by (nonlinear_arith)
            requires
                c >= 0,
        ;
        assert((4 * c + 2) / 4 == c && (4 * c + 2) % 4 == 2) by (nonlinear_arith)
            requires
                c >= 0,
        ;
        assert((4 * c + 3) / 4 == c && (4 * c + 3) % 4 == 3) by (nonlinear_arith)
            requires
                c >= 0,
        ;
        assert(all.subrange(4 * (r * width + c), 4 * (r * width + c) + 4) =~= seq![
            buf[3 * (r * stride + c)],
            buf[3 * (r * stride + c) + 1],
            buf[3 * (r * stride + c) + 2],
            255u8,
        ]);
    }
}

proof fn lemma_rgba_rows_len(buf: Seq<u8>, width: int, stride: int, rows: nat)
    requires
        0 <= width,
    ensures
        spec_rgba_rows(buf, width, stride, rows).len() == 4 * width * rows,
    decreases rows,
{
    if rows > 0 {
        lemma_rgba_rows_len(buf, width, stride, (rows - 1) as nat);
        assert(spec_rgba_row(buf, (rows - 1) * stride, width).len() == 4 * width);
        assert(4 * width * rows == 4 * width * (rows - 1) + 4 * width) by (nonlinear_arith);
    } else {
        assert(4 * width * rows == 0) by (nonlinear_arith)
            requires
                rows == 0,
        ;
    }
}

/// Where the bytes of an upload come from.
pub enum UploadData {
    /// The source's buffer, as it is.
    FromSource,
    /// These bytes.
    Converted(Vec<u8>),
}

/// The copy into a texture that updates an image: the bytes, rows of
/// `bytes_per_row` bytes, written at (`origin_x`, `origin_y`) over a
/// `width` × `height` rectangle.
pub struct UploadPlan {
    pub data: UploadData,
    pub origin_x: u32,
    pub origin_y: u32,
    pub bytes_per_row: u32,
    pub width: u32,
    pub height: u32,
}

/// Plans the upload of `data` into `image` at (`x`, `y`): colour sources
/// are uploaded as four-byte pixels (three-byte ones converted to opaque
/// four-byte pixels, packed), grey ones as they are; rows are taken to be as
/// long as the image's texture; coordinates and sizes are taken as 32-bit
/// numbers.
pub fn upload_plan(image: &Image, data: &ImageSource, x: usize, y: usize) -> (r: UploadPlan)
    requires
        spec_source_holds(*data),
        spec_upload_bytes_per_pixel(*data) * image.texture.width <= u32::MAX,
    ensures
        r.origin_x == x as u32,
        r.origin_y == y as u32,
        r.bytes_per_row == spec_upload_bytes_per_pixel(*data) * image.texture.width,
        r.width == spec_source_buffer(*data).width as u32,
        r.height == spec_source_buffer(*data).height as u32,
        match *data {
            ImageSource::Rgb(b) => r.data matches UploadData::Converted(bytes) && bytes@
                == spec_rgba_rows(b.buf@, b.width as int, b.stride as int, b.height as nat),
            _ => r.data is FromSource,
        },
{
    let (upload, bpp, buffer): (UploadData, u32, &PixelBuffer) = match data {
        ImageSource::Rgb(b) => (UploadData::Converted(rgb_to_rgba(b)), 4, b),
        ImageSource::Rgba(b) => (UploadData::FromSource, 4, b),
        ImageSource::Gray(b) => (UploadData::FromSource, 1, b),
    };
    UploadPlan {
        data: upload,
        origin_x: x as u32,
        origin_y: y as u32,
        bytes_per_row: bpp * image.texture.width,
        width: buffer.width as u32,
        height: buffer.height as u32,
    }
}

/// An image's texture has the image's size (as 32-bit numbers), one layer,
/// one channel for grey images and four for colour ones, and can be sampled,
/// copied into and rendered to.
pub proof fn lemma_image_texture_fits_the_image(info: ImageInfo)
    ensures
        ({
            let d = spec_image_texture_descriptor(info);
            &&& d.width == info.width as u32
            &&& d.height == info.height as u32
            &&& d.depth_or_array_layers == 1
            &&& d.format == if info.format is Gray8 { TextureFormat::R8Unorm } else { TextureFormat::Rgba8Unorm }
            &&& d.usage.bits & TEXTURE_USAGE_TEXTURE_BINDING != 0
            &&& d.usage.bits & TEXTURE_USAGE_COPY_DST != 0
            &&& d.usage.bits & TEXTURE_USAGE_RENDER_ATTACHMENT != 0
            &&& d.usage.bits & (TEXTURE_USAGE_COPY_SRC | TEXTURE_USAGE_STORAGE_BINDING) == 0
        }),
{
    assert((4u32 | 2u32 | 16u32) & 4 != 0) by (bit_vector);
    assert((4u32 | 2u32 | 16u32) & 2 != 0) by (bit_vector);
    assert((4u32 | 2u32 | 16u32) & 16 != 0) by (bit_vector);
    assert((4u32 | 2u32 | 16u32) & (1u32 | 8u32) == 0) by (bit_vector);
}

/// A render target's stencil buffer has the target's size, one layer, an
/// eight-bit stencil format, and is only rendered to.
pub proof fn lemma_stencil_buffer_fits_the_target(width: u32, height: u32)
    ensures
        ({
            let d = spec_stencil_descriptor(width, height);
            &&& d.width == width && d.height == height && d.depth_or_array_layers == 1
            &&& d.format == TextureFormat::Stencil8
            &&& d.usage.bits == TEXTURE_USAGE_RENDER_ATTACHMENT
        }),
{
}

/// The intermediate texture of a blur is shaped like its source (size and
/// format, one layer) and can be sampled and rendered to.
pub proof fn lemma_blur_texture_fits_the_source(source: TextureInfo)
    ensures
        ({
            let d = spec_blur_descriptor(source);
            &&& d.width == source.width && d.height == source.height && d.depth_or_array_layers == 1
            &&& d.format == source.format
            &&& d.usage.bits & TEXTURE_USAGE_TEXTURE_BINDING != 0
            &&& d.usage.bits & TEXTURE_USAGE_RENDER_ATTACHMENT != 0
        }),
{
    assert((4u32 | 16u32) & 4 != 0) by (bit_vector);
    assert((4u32 | 16u32) & 16 != 0) by (bit_vector);
}

} // verus!
