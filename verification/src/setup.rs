//! What a renderer sets up once on its device: the layouts of its two bind
//! groups and the placeholder texture sampled where a draw has no image.

use vstd::prelude::*;

use crate::images::{EmptyTexture, empty_texture, spec_is_empty_texture};

verus! {

/// The shader stage that sees a binding.
#[derive(Clone, Copy, Debug, PartialEq, Eq, Hash, Structural)]
pub enum ShaderStage {
    Vertex,
    Fragment,
}

/// What a binding holds.
#[derive(Clone, Copy, Debug, PartialEq, Eq, Hash, Structural)]
pub enum BindingKind {
    /// A uniform buffer, bound at offset zero, of any size.
    UniformBuffer,
    /// A single-sampled two-dimensional texture of filterable floats.
    FilterableTexture2d,
    /// A sampler that filters.
    FilteringSampler,
}

/// One binding of a bind group layout.
#[derive(Clone, Copy, Debug, PartialEq, Eq, Hash, Structural)]
pub struct LayoutEntry {
    pub binding: u32,
    pub visibility: ShaderStage,
    pub kind: BindingKind,
}

/// The layout of the bind group that holds the viewport size: one uniform
/// buffer, seen by the vertex stage.
pub open spec fn spec_viewport_layout() -> Seq<LayoutEntry> {
    seq![LayoutEntry { binding: 0, visibility: ShaderStage::Vertex, kind: BindingKind::UniformBuffer }]
}

/// The layout of a draw's bind group, all seen by the fragment stage: the
/// uniform block, then the image's texture and sampler, then the glyph
/// texture and sampler.
pub open spec fn spec_draw_layout() -> Seq<LayoutEntry> {
    seq![
        LayoutEntry { binding: 0, visibility: ShaderStage::Fragment, kind: BindingKind::UniformBuffer },
        LayoutEntry { binding: 1, visibility: ShaderStage::Fragment, kind: BindingKind::FilterableTexture2d },
        LayoutEntry { binding: 2, visibility: ShaderStage::Fragment, kind: BindingKind::FilteringSampler },
        LayoutEntry { binding: 3, visibility: ShaderStage::Fragment, kind: BindingKind::FilterableTexture2d },
        LayoutEntry { binding: 4, visibility: ShaderStage::Fragment, kind: BindingKind::FilteringSampler },
    ]
}

/// What a renderer sets up on its device. The pipeline layout holds the
/// viewport layout as group 0 and the draw layout as group 1.
#[derive(Clone, Copy, Debug)]
pub struct DeviceSetup {
    pub viewport_layout: [LayoutEntry; 1],
    pub draw_layout: [LayoutEntry; 5],
    pub empty_texture: EmptyTexture,
}

/// The device setup of every renderer.
pub open spec fn spec_is_device_setup(s: DeviceSetup) -> bool {
    &&& s.viewport_layout@ == spec_viewport_layout()
    &&& s.draw_layout@ == spec_draw_layout()
    &&& spec_is_empty_texture(s.empty_texture)
}

/// Describes what a renderer sets up on its device.
pub fn device_setup() -> (r: DeviceSetup)
    ensures
        spec_is_device_setup(r),
{
    let fragment = ShaderStage::Fragment;
    let r = DeviceSetup {
        viewport_layout: [
            LayoutEntry { binding: 0, visibility: ShaderStage::Vertex, kind: BindingKind::UniformBuffer },
        ],
        draw_layout: [
            LayoutEntry { binding: 0, visibility: fragment, kind: BindingKind::UniformBuffer },
            LayoutEntry { binding: 1, visibility: fragment, kind: BindingKind::FilterableTexture2d },
            LayoutEntry { binding: 2, visibility: fragment, kind: BindingKind::FilteringSampler },
            LayoutEntry { binding: 3, visibility: fragment, kind: BindingKind::FilterableTexture2d },
            LayoutEntry { binding: 4, visibility: fragment, kind: BindingKind::FilteringSampler },
        ],
        empty_texture: empty_texture(),
    };
    assert(r.viewport_layout@ =~= spec_viewport_layout());
    assert(r.draw_layout@ =~= spec_draw_layout());
    r
}

} // verus!
