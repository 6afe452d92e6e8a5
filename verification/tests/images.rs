use femtovg::bind_group::{
    create_texture_view_and_sampler, sampler_for, AddressMode, BindGroupState, BoundTexture,
    FilterMode, ImageOrTexture,
};
use femtovg::images::{
    blur_descriptor, empty_texture, image_texture_descriptor, rgb_to_rgba, stencil_descriptor,
    upload_plan, Image, ImageFlags, ImageInfo, ImageSource, ImageStore, PixelBuffer, PixelFormat,
    TextureInfo, UploadData, IMAGE_FLAG_NEAREST, IMAGE_FLAG_REPEAT_X, IMAGE_FLAG_REPEAT_Y,
};
use femtovg::params::{GlyphTexture, ImageId};
use femtovg::pipeline::TextureFormat;
use femtovg::renderer::WGPURenderer;
use femtovg::setup::{BindingKind, LayoutEntry, ShaderStage};
use femtovg::uniforms::UniformParams;

fn info(flags: u32, width: usize, height: usize, format: PixelFormat) -> ImageInfo {
    ImageInfo { flags: ImageFlags { bits: flags }, width, height, format }
}

fn image(tex_id: u64, width: u32, height: u32, flags: u32) -> Image {
    Image::from_texture(
        TextureInfo { id: tex_id, width, height, format: TextureFormat::Rgba8Unorm },
        info(flags, width as usize, height as usize, PixelFormat::Rgba8),
    )
}

#[test]
fn image_texture_formats_and_usage() {
    let d = image_texture_descriptor(&info(0, 640, 480, PixelFormat::Rgb8));
    assert_eq!((d.width, d.height, d.depth_or_array_layers), (640, 480, 1));
    assert_eq!(d.format, TextureFormat::Rgba8Unorm);
    // sampled | copied into | rendered to
    assert_eq!(d.usage.bits, 4 | 2 | 16);
    assert_eq!(image_texture_descriptor(&info(0, 1, 1, PixelFormat::Rgba8)).format, TextureFormat::Rgba8Unorm);
    assert_eq!(image_texture_descriptor(&info(0, 1, 1, PixelFormat::Gray8)).format, TextureFormat::R8Unorm);
}

#[test]
fn image_texture_size_is_truncated_to_32_bits() {
    if usize::BITS == 64 {
        let w = (1usize << 32) + 5;
        let d = image_texture_descriptor(&info(0, w, 3, PixelFormat::Gray8));
        assert_eq!(d.width, 5);
    }
}

#[test]
fn stencil_blur_and_empty_textures() {
    let s = stencil_descriptor(800, 600);
    assert_eq!((s.width, s.height, s.depth_or_array_layers), (800, 600, 1));
    assert_eq!(s.format, TextureFormat::Stencil8);
    assert_eq!(s.usage.bits, 16);

    let src = TextureInfo { id: 3, width: 64, height: 32, format: TextureFormat::R8Unorm };
    let b = blur_descriptor(&src);
    assert_eq!((b.width, b.height), (64, 32));
    assert_eq!(b.format, TextureFormat::R8Unorm);
    assert_eq!(b.usage.bits, 4 | 16);

    let empty = empty_texture();
    let e = empty.descriptor;
    assert_eq!((e.width, e.height, e.depth_or_array_layers), (1, 1, 1));
    assert_eq!(e.format, TextureFormat::Rgba8Unorm);
    assert_eq!(e.usage.bits, 4 | 2);
    assert_eq!(empty.pixel, [255, 0, 0, 255]);
    assert_eq!((empty.offset, empty.bytes_per_row), (0, 4));
}

#[test]
fn image_store_insert_get_remove() {
    let mut store = ImageStore::new();
    let a = ImageId { id: 1 };
    let b = ImageId { id: 2 };
    assert_eq!(store.get(a), None);
    store.insert(a, image(10, 4, 4, 0));
    store.insert(b, image(20, 8, 8, 0));
    assert_eq!(store.get(a).unwrap().texture.id, 10);
    assert_eq!(store.get(b).unwrap().texture.id, 20);
    store.insert(a, image(11, 4, 4, 0));
    assert_eq!(store.get(a).unwrap().texture.id, 11);
    let removed = store.remove(a);
    assert_eq!(removed.unwrap().texture.id, 11);
    assert_eq!(store.get(a), None);
    assert_eq!(store.remove(a), None);
    assert_eq!(store.get(b).unwrap().texture.id, 20);
}

#[test]
fn samplers_follow_image_flags() {
    let plain = sampler_for(ImageFlags { bits: 0 });
    assert_eq!(plain.address_mode_u, AddressMode::ClampToEdge);
    assert_eq!(plain.address_mode_v, AddressMode::ClampToEdge);
    assert_eq!(plain.address_mode_w, AddressMode::ClampToEdge);
    assert_eq!(plain.mag_filter, FilterMode::Linear);
    assert_eq!(plain.min_filter, FilterMode::Linear);

    let s = sampler_for(ImageFlags { bits: IMAGE_FLAG_REPEAT_X | IMAGE_FLAG_NEAREST });
    assert_eq!(s.address_mode_u, AddressMode::Repeat);
    assert_eq!(s.address_mode_v, AddressMode::ClampToEdge);
    assert_eq!(s.mag_filter, FilterMode::Nearest);
    assert_eq!(s.min_filter, FilterMode::Nearest);

    let t = sampler_for(ImageFlags { bits: IMAGE_FLAG_REPEAT_Y });
    assert_eq!(t.address_mode_u, AddressMode::ClampToEdge);
    assert_eq!(t.address_mode_v, AddressMode::Repeat);
}

#[test]
fn texture_bindings_for_images_textures_and_nothing() {
    let mut store = ImageStore::new();
    let id = ImageId { id: 5 };
    store.insert(id, image(50, 2, 2, IMAGE_FLAG_NEAREST));

    let b = create_texture_view_and_sampler(&store, Some(ImageOrTexture::Image(id)));
    assert_eq!(b.texture, BoundTexture::Stored(50));
    assert_eq!(b.sampler.mag_filter, FilterMode::Nearest);

    let missing = create_texture_view_and_sampler(&store, Some(ImageOrTexture::Image(ImageId { id: 6 })));
    assert_eq!(missing.texture, BoundTexture::Empty);
    assert_eq!(missing.sampler, sampler_for(ImageFlags::empty()));

    let t = create_texture_view_and_sampler(&store, Some(ImageOrTexture::Texture(3)));
    assert_eq!(t.texture, BoundTexture::Intermediate(3));
    assert_eq!(t.sampler.mag_filter, FilterMode::Linear);

    let none = create_texture_view_and_sampler(&store, None);
    assert_eq!(none.texture, BoundTexture::Empty);
}

#[test]
fn bind_group_binds_image_and_glyphs() {
    let mut store = ImageStore::new();
    let img = ImageId { id: 1 };
    let atlas = ImageId { id: 2 };
    store.insert(img, image(100, 2, 2, IMAGE_FLAG_REPEAT_X));
    store.insert(atlas, image(200, 2, 2, 0));
    let state = BindGroupState {
        image: Some(ImageOrTexture::Image(img)),
        glyph_texture: GlyphTexture::AlphaMask(atlas),
        uniforms: UniformParams::zeroed(),
    };
    let d = state.materialize(&store);
    assert_eq!(d.main.texture, BoundTexture::Stored(100));
    assert_eq!(d.main.sampler.address_mode_u, AddressMode::Repeat);
    assert_eq!(d.glyph.texture, BoundTexture::Stored(200));
    assert!(state.same_as(&state));
    let other = BindGroupState { glyph_texture: GlyphTexture::NoGlyphs, ..state };
    assert!(!state.same_as(&other));
    assert_eq!(other.materialize(&store).glyph.texture, BoundTexture::Empty);
}

#[test]
fn rgb_pixels_become_opaque_rgba_skipping_row_padding() {
    // 2 x 2 pixels, rows 3 pixels apart; the third pixel of each row is padding.
    let buf: Vec<u8> = vec![
        1, 2, 3, 4, 5, 6, 99, 99, 99, //
        7, 8, 9, 10, 11, 12,
    ];
    let b = PixelBuffer { buf, width: 2, height: 2, stride: 3 };
    let out = rgb_to_rgba(&b);
    assert_eq!(out, vec![1, 2, 3, 255, 4, 5, 6, 255, 7, 8, 9, 255, 10, 11, 12, 255]);
}

#[test]
fn rgb_conversion_of_empty_rectangles() {
    let b = PixelBuffer { buf: vec![], width: 0, height: 0, stride: 0 };
    assert!(rgb_to_rgba(&b).is_empty());
    let c = PixelBuffer { buf: vec![], width: 0, height: 3, stride: 0 };
    assert!(rgb_to_rgba(&c).is_empty());
}

#[test]
fn upload_plans() {
    let target = image(1, 10, 10, 0);
    let rgb = ImageSource::Rgb(PixelBuffer { buf: vec![1, 2, 3, 4, 5, 6], width: 2, height: 1, stride: 2 });
    let p = upload_plan(&target, &rgb, 3, 4);
    assert_eq!((p.origin_x, p.origin_y), (3, 4));
    assert_eq!(p.bytes_per_row, 40);
    assert_eq!((p.width, p.height), (2, 1));
    match p.data {
        UploadData::Converted(bytes) => assert_eq!(bytes, vec![1, 2, 3, 255, 4, 5, 6, 255]),
        UploadData::FromSource => panic!("an RGB source must be converted"),
    }

    let gray = ImageSource::Gray(PixelBuffer { buf: vec![7; 6], width: 3, height: 2, stride: 3 });
    let g = upload_plan(&target, &gray, 0, 0);
    assert_eq!(g.bytes_per_row, 10);
    assert_eq!((g.width, g.height), (3, 2));
    assert!(matches!(g.data, UploadData::FromSource));

    let rgba = ImageSource::Rgba(PixelBuffer { buf: vec![0; 16], width: 2, height: 2, stride: 2 });
    let r = upload_plan(&target, &rgba, 1, 1);
    assert_eq!(r.bytes_per_row, 40);
    assert!(matches!(r.data, UploadData::FromSource));
}

#[test]
fn renderer_plans_image_updates() {
    let r = WGPURenderer::new();
    let target = image(2, 4, 4, 0);
    let rgb = ImageSource::Rgb(PixelBuffer {
        buf: vec![9, 8, 7, 0, 0, 0, 6, 5, 4],
        width: 1,
        height: 2,
        stride: 2,
    });
    let plan = r.update_image(&target, &rgb, 2, 1).unwrap();
    assert_eq!((plan.origin_x, plan.origin_y, plan.bytes_per_row), (2, 1, 16));
    assert_eq!((plan.width, plan.height), (1, 2));
    match plan.data {
        UploadData::Converted(bytes) => assert_eq!(bytes, vec![9, 8, 7, 255, 6, 5, 4, 255]),
        UploadData::FromSource => panic!("an RGB source must be converted"),
    }
}

#[test]
fn renderer_sets_up_layouts_and_placeholder() {
    let r = WGPURenderer::new();
    let setup = r.setup;
    assert_eq!(setup.viewport_layout, [LayoutEntry { binding: 0, visibility: ShaderStage::Vertex, kind: BindingKind::UniformBuffer }]);
    let kinds: Vec<(u32, ShaderStage, BindingKind)> =
        setup.draw_layout.iter().map(|e| (e.binding, e.visibility, e.kind)).collect();
    assert_eq!(
        kinds,
        vec![
            (0, ShaderStage::Fragment, BindingKind::UniformBuffer),
            (1, ShaderStage::Fragment, BindingKind::FilterableTexture2d),
            (2, ShaderStage::Fragment, BindingKind::FilteringSampler),
            (3, ShaderStage::Fragment, BindingKind::FilterableTexture2d),
            (4, ShaderStage::Fragment, BindingKind::FilteringSampler),
        ]
    );
    let e = setup.empty_texture;
    assert_eq!((e.descriptor.width, e.descriptor.height), (1, 1));
    assert_eq!(e.descriptor.format, TextureFormat::Rgba8Unorm);
    assert_eq!(e.descriptor.usage.bits, 4 | 2);
    assert_eq!(e.pixel, [255, 0, 0, 255]);
    assert_eq!((e.offset, e.bytes_per_row), (0, 4));
}
