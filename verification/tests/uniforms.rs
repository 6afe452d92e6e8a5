use femtovg::floats::{f32_eq, f32_slice_eq, u32_as_f32_value, u32_to_f32_bits, u8_to_f32_bits};
use femtovg::params::{GlyphTexture, ImageId, Params, ShaderType};
use femtovg::uniforms::{Mat3x4, UniformArray, UniformParams};

fn bits<const N: usize>(v: [f32; N]) -> [u32; N] {
    let mut out = [0u32; N];
    for i in 0..N {
        out[i] = v[i].to_bits();
    }
    out
}

fn sample_params() -> Params {
    let mut scissor = [0f32; 12];
    let mut paint = [0f32; 12];
    for i in 0..12 {
        scissor[i] = i as f32 + 0.5;
        paint[i] = 100.0 + i as f32;
    }
    Params {
        scissor_mat: bits(scissor),
        paint_mat: bits(paint),
        inner_col: bits([0.1, 0.2, 0.3, 0.4]),
        outer_col: bits([0.5, 0.6, 0.7, 0.8]),
        scissor_ext: bits([10.0, 20.0]),
        scissor_scale: bits([1.5, 2.5]),
        extent: bits([30.0, 40.0]),
        radius: 3.0f32.to_bits(),
        feather: 4.0f32.to_bits(),
        stroke_mult: 5.0f32.to_bits(),
        stroke_thr: (-1.0f32).to_bits(),
        tex_type: 2.0f32.to_bits(),
        shader_type: ShaderType::FillImage,
        glyph_texture_type: 2,
        image_blur_filter_direction: bits([1.0, 0.0]),
        image_blur_filter_sigma: 6.0f32.to_bits(),
        image_blur_filter_coeff: bits([0.25, 0.5, 0.75]),
    }
}

#[test]
fn byte_to_float_bits_matches_float_conversion() {
    for n in 0..=255u8 {
        assert_eq!(u8_to_f32_bits(n), (n as f32).to_bits(), "n = {}", n);
    }
}

#[test]
fn float_equality_on_bits() {
    let nan = f32::NAN.to_bits();
    assert!(!f32_eq(nan, nan));
    assert!(f32_eq(0.0f32.to_bits(), (-0.0f32).to_bits()));
    assert!(f32_eq(1.0f32.to_bits(), 1.0f32.to_bits()));
    assert!(!f32_eq(1.0f32.to_bits(), 2.0f32.to_bits()));
    assert!(f32_eq(f32::INFINITY.to_bits(), f32::INFINITY.to_bits()));
    assert!(!f32_eq(f32::INFINITY.to_bits(), f32::NEG_INFINITY.to_bits()));
    // Agrees with `==` on a spread of values.
    let vals = [0.0f32, -0.0, 1.0, -1.0, 0.5, f32::NAN, f32::INFINITY, f32::MIN_POSITIVE, 3.25];
    for a in vals.iter() {
        for b in vals.iter() {
            assert_eq!(f32_eq(a.to_bits(), b.to_bits()), a == b);
        }
    }
}

#[test]
fn float_slices_compare_elementwise() {
    assert!(f32_slice_eq(&bits([1.0, 0.0]), &bits([1.0, -0.0])));
    assert!(!f32_slice_eq(&bits([1.0, 0.0]), &bits([1.0, 2.0])));
    assert!(!f32_slice_eq(&bits([1.0]), &bits([1.0, 2.0])));
}

#[test]
fn mat3x4_is_filled_column_by_column() {
    let m: [u32; 12] = [0, 1, 2, 3, 4, 5, 6, 7, 8, 9, 10, 11];
    let mat = Mat3x4::from_array(m);
    assert_eq!(mat.cols, [[0, 3, 6, 9], [1, 4, 7, 10], [2, 5, 8, 11]]);
    for c in 0..3 {
        for r in 0..4 {
            assert_eq!(mat.cols[c][r], m[3 * r + c]);
        }
    }
}

#[test]
fn uniform_params_from_params() {
    let p = sample_params();
    let u = UniformParams::from_params(&p);
    assert_eq!(u.scissor_mat.cols[1][2], p.scissor_mat[7]);
    assert_eq!(u.paint_mat.cols[2][3], p.paint_mat[11]);
    assert_eq!(u.inner_col, p.inner_col);
    assert_eq!(u.outer_col, p.outer_col);
    assert_eq!(u.scissor_ext, p.scissor_ext);
    assert_eq!(u.scissor_scale, p.scissor_scale);
    assert_eq!(u.extent, p.extent);
    assert_eq!(u.radius, p.radius);
    assert_eq!(u.feather, p.feather);
    assert_eq!(u.stroke_mult, p.stroke_mult);
    assert_eq!(u.stroke_thr, p.stroke_thr);
    assert_eq!(u.tex_type, p.tex_type);
    assert_eq!(u.unused_shader_type, 1.0f32.to_bits());
    assert_eq!(u.glyph_texture_type, 2.0f32.to_bits());
    assert_eq!(u.image_blur_filter_sigma, p.image_blur_filter_sigma);
    assert_eq!(u.image_blur_filter_direction, p.image_blur_filter_direction);
    assert_eq!(u.image_blur_filter_coeff, p.image_blur_filter_coeff);
}

#[test]
fn uniform_params_setters_touch_one_field() {
    let mut u = UniformParams::zeroed();
    u.set_radius(7.0f32.to_bits());
    u.set_image_blur_filter_coeff(bits([1.0, 2.0, 3.0]));
    assert_eq!(u.radius, 7.0f32.to_bits());
    assert_eq!(u.feather, 0);
    assert_eq!(u.image_blur_filter_coeff, bits([1.0, 2.0, 3.0]));
    assert_eq!(u.image_blur_filter_direction, [0, 0]);
    u.set_shader_type(4.0f32.to_bits());
    assert_eq!(u.unused_shader_type, 4.0f32.to_bits());
}

#[test]
fn uniform_params_compare_as_floats() {
    let p = sample_params();
    let a = UniformParams::from_params(&p);
    let b = UniformParams::from_params(&p);
    assert!(a.same_as(&b));
    let mut c = b;
    c.set_feather((-0.0f32).to_bits());
    let mut d = b;
    d.set_feather(0.0f32.to_bits());
    assert!(c.same_as(&d));
    let mut e = b;
    e.set_radius(f32::NAN.to_bits());
    assert!(!e.same_as(&e));
    let mut f = b;
    f.set_scissor_mat(bits([9.0; 12]));
    assert!(!f.same_as(&a));
}

#[test]
fn uniform_array_layout() {
    let p = sample_params();
    let a = UniformArray::from_params(&p);
    let s = a.as_slice();
    assert_eq!(s.len(), 56);
    assert_eq!(&s[0..12], &p.scissor_mat[..]);
    assert_eq!(&s[12..24], &p.paint_mat[..]);
    assert_eq!(&s[24..28], &p.inner_col[..]);
    assert_eq!(&s[28..32], &p.outer_col[..]);
    assert_eq!(&s[32..34], &p.scissor_ext[..]);
    assert_eq!(&s[34..36], &p.scissor_scale[..]);
    assert_eq!(&s[36..38], &p.extent[..]);
    assert_eq!(s[38], p.radius);
    assert_eq!(s[39], p.feather);
    assert_eq!(s[40], p.stroke_mult);
    assert_eq!(s[41], p.stroke_thr);
    assert_eq!(s[42], p.tex_type);
    assert_eq!(s[43], 1.0f32.to_bits());
    assert_eq!(s[44], 2.0f32.to_bits());
    assert_eq!(s[45], p.image_blur_filter_sigma);
    assert_eq!(&s[46..48], &p.image_blur_filter_direction[..]);
    assert_eq!(&s[48..51], &p.image_blur_filter_coeff[..]);
    assert_eq!(&s[51..56], &[0u32; 5][..]);
}

#[test]
fn uniform_array_default_is_zero() {
    let a = UniformArray::default();
    assert_eq!(a.as_slice(), &[0u32; 56][..]);
}

#[test]
fn uniform_array_setters_commute() {
    let mut a = UniformArray::default();
    a.set_extent([1, 2]);
    a.set_radius(3);
    a.set_image_blur_filter_coeff([4, 5, 6]);
    let mut b = UniformArray::default();
    b.set_image_blur_filter_coeff([4, 5, 6]);
    b.set_radius(3);
    b.set_extent([1, 2]);
    assert_eq!(a.as_slice(), b.as_slice());
    let s = a.as_slice();
    assert_eq!(&s[36..39], &[1, 2, 3][..]);
    assert_eq!(&s[48..51], &[4, 5, 6][..]);
    assert_eq!(s.iter().filter(|x| **x != 0).count(), 6);
}

#[test]
fn uniform_array_each_setter_writes_its_slots() {
    let mut a = UniformArray::default();
    a.set_scissor_mat([1; 12]);
    a.set_paint_mat([2; 12]);
    a.set_inner_col([3; 4]);
    a.set_outer_col([4; 4]);
    a.set_scissor_ext([5; 2]);
    a.set_scissor_scale([6; 2]);
    a.set_extent([7; 2]);
    a.set_radius(8);
    a.set_feather(9);
    a.set_stroke_mult(10);
    a.set_stroke_thr(11);
    a.set_tex_type(12);
    a.set_shader_type(13);
    a.set_glyph_texture_type(14);
    a.set_image_blur_filter_sigma(15);
    a.set_image_blur_filter_direction([16; 2]);
    a.set_image_blur_filter_coeff([17; 3]);
    let mut expected = Vec::new();
    expected.extend_from_slice(&[1; 12]);
    expected.extend_from_slice(&[2; 12]);
    expected.extend_from_slice(&[3; 4]);
    expected.extend_from_slice(&[4; 4]);
    expected.extend_from_slice(&[5; 2]);
    expected.extend_from_slice(&[6; 2]);
    expected.extend_from_slice(&[7; 2]);
    expected.extend_from_slice(&[8, 9, 10, 11, 12, 13, 14, 15]);
    expected.extend_from_slice(&[16; 2]);
    expected.extend_from_slice(&[17; 3]);
    expected.extend_from_slice(&[0; 5]);
    assert_eq!(a.as_slice(), &expected[..]);
}

#[test]
fn glyph_texture_images_and_glyph_flag() {
    let id = ImageId { id: 9 };
    assert_eq!(GlyphTexture::NoGlyphs.image_id(), None);
    assert_eq!(GlyphTexture::AlphaMask(id).image_id(), Some(id));
    assert_eq!(GlyphTexture::ColorTexture(id).image_id(), Some(id));
    let mut p = sample_params();
    assert!(p.uses_glyph_texture());
    p.glyph_texture_type = 0;
    assert!(!p.uses_glyph_texture());
}

#[test]
fn whole_numbers_round_as_floats_do() {
    for n in [0u32, 1, 255, 16_777_215, 16_777_216, 16_777_217, 16_777_218, 16_777_219,
              33_554_435, 123_456_789, 2_147_483_647, 4_294_967_295] {
        assert_eq!(u32_as_f32_value(n), (n as f32) as u64, "n = {}", n);
    }
    assert_eq!(u32_as_f32_value(16_777_217), 16_777_216);
    assert_eq!(u32_as_f32_value(16_777_219), 16_777_220);
    assert_eq!(u32_as_f32_value(4_294_967_295), 4_294_967_296);
}

#[test]
fn uniform_layouts_agree() {
    let p = sample_params();
    let u = UniformParams::from_params(&p);
    let a = UniformArray::from_params(&p);
    let flat = a.as_slice();
    for k in 0..12 {
        assert_eq!(u.scissor_mat.cols[k % 3][k / 3], flat[k]);
        assert_eq!(u.paint_mat.cols[k % 3][k / 3], flat[12 + k]);
    }
    assert_eq!(&u.inner_col[..], &flat[24..28]);
    assert_eq!(&u.outer_col[..], &flat[28..32]);
    assert_eq!(&u.scissor_ext[..], &flat[32..34]);
    assert_eq!(&u.scissor_scale[..], &flat[34..36]);
    assert_eq!(&u.extent[..], &flat[36..38]);
    assert_eq!(
        [u.radius, u.feather, u.stroke_mult, u.stroke_thr, u.tex_type, u.unused_shader_type,
         u.glyph_texture_type, u.image_blur_filter_sigma],
        flat[38..46]
    );
    assert_eq!(&u.image_blur_filter_direction[..], &flat[46..48]);
    assert_eq!(&u.image_blur_filter_coeff[..], &flat[48..51]);
}

#[test]
fn whole_numbers_as_float_bits() {
    let mut samples = vec![0u32, 1, 2, 3, 255, 256, 1000, 8_388_607, 8_388_608, 8_388_609,
        16_777_215, 16_777_216, 16_777_217, 16_777_219, 33_554_435, 123_456_789,
        2_147_483_647, 2_147_483_648, 4_294_967_040, 4_294_967_295];
    let mut x: u32 = 12345;
    for _ in 0..2000 {
        x = x.wrapping_mul(1_664_525).wrapping_add(1_013_904_223);
        samples.push(x);
        samples.push(x >> 9);
    }
    for n in samples {
        assert_eq!(u32_to_f32_bits(n), (n as f32).to_bits(), "n = {}", n);
    }
}
