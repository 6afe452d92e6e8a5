//! Blend factors and blend states.

use vstd::prelude::*;

verus! {

/// A blend factor as the canvas names it.
#[derive(Clone, Copy, Debug, PartialEq, Eq, Structural)]
pub enum BlendFactor {
    Zero,
    One,
    SrcColor,
    OneMinusSrcColor,
    DstColor,
    OneMinusDstColor,
    SrcAlpha,
    OneMinusSrcAlpha,
    DstAlpha,
    OneMinusDstAlpha,
    SrcAlphaSaturate,
}

/// A blend factor as the GPU pipeline names it.
#[derive(Clone, Copy, Debug, PartialEq, Eq, Hash, Structural)]
pub enum GpuBlendFactor {
    Zero,
    One,
    Src,
    OneMinusSrc,
    SrcAlpha,
    OneMinusSrcAlpha,
    Dst,
    OneMinusDst,
    DstAlpha,
    OneMinusDstAlpha,
    SrcAlphaSaturated,
}

/// The GPU factor that stands for a canvas factor.
pub open spec fn spec_blend_factor(factor: BlendFactor) -> GpuBlendFactor {
    match factor {
        BlendFactor::Zero => GpuBlendFactor::Zero,
        BlendFactor::One => GpuBlendFactor::One,
        BlendFactor::SrcColor => GpuBlendFactor::Src,
        BlendFactor::OneMinusSrcColor => GpuBlendFactor::OneMinusSrc,
        BlendFactor::DstColor => GpuBlendFactor::Dst,
        BlendFactor::OneMinusDstColor => GpuBlendFactor::OneMinusDst,
        BlendFactor::SrcAlpha => GpuBlendFactor::SrcAlpha,
        BlendFactor::OneMinusSrcAlpha => GpuBlendFactor::OneMinusSrcAlpha,
        BlendFactor::DstAlpha => GpuBlendFactor::DstAlpha,
        BlendFactor::OneMinusDstAlpha => GpuBlendFactor::OneMinusDstAlpha,
        BlendFactor::SrcAlphaSaturate => GpuBlendFactor::SrcAlphaSaturated,
    }
}

/// Translates a canvas blend factor into the GPU's blend factor.
pub fn blend_factor(factor: BlendFactor) -> (r: GpuBlendFactor)
    ensures
        r == spec_blend_factor(factor),
{
    match factor {
        BlendFactor::Zero => GpuBlendFactor::Zero,
        BlendFactor::One => GpuBlendFactor::One,
        BlendFactor::SrcColor => GpuBlendFactor::Src,
        BlendFactor::OneMinusSrcColor => GpuBlendFactor::OneMinusSrc,
        BlendFactor::DstColor => GpuBlendFactor::Dst,
        BlendFactor::OneMinusDstColor => GpuBlendFactor::OneMinusDst,
        BlendFactor::SrcAlpha => GpuBlendFactor::SrcAlpha,
        BlendFactor::OneMinusSrcAlpha => GpuBlendFactor::OneMinusSrcAlpha,
        BlendFactor::DstAlpha => GpuBlendFactor::DstAlpha,
        BlendFactor::OneMinusDstAlpha => GpuBlendFactor::OneMinusDstAlpha,
        BlendFactor::SrcAlphaSaturate => GpuBlendFactor::SrcAlphaSaturated,
    }
}

/// Distinct canvas blend factors are translated into distinct GPU blend
/// factors: no two ways of blending collapse into one.
pub proof fn lemma_blend_factor_injective(a: BlendFactor, b: BlendFactor)
    ensures
        spec_blend_factor(a) == spec_blend_factor(b) ==> a == b,
{
}

/// How a source and a destination term are combined.
#[derive(Clone, Copy, Debug, PartialEq, Eq, Hash, Structural)]
pub enum BlendOperation {
    Add,
    Subtract,
    ReverseSubtract,
    Min,
    Max,
}

/// Blending of one group of channels (colour or alpha).
#[derive(Clone, Copy, Debug, PartialEq, Eq, Hash, Structural)]
pub struct BlendComponent {
    pub src_factor: GpuBlendFactor,
    pub dst_factor: GpuBlendFactor,
    pub operation: BlendOperation,
}

/// Blending of colour and alpha channels.
#[derive(Clone, Copy, Debug, PartialEq, Eq, Hash, Structural)]
pub struct BlendState {
    pub color: BlendComponent,
    pub alpha: BlendComponent,
}

/// The four blend factors of a canvas composite operation.
#[derive(Clone, Copy, Debug, PartialEq, Eq, Structural)]
pub struct CompositeOperationState {
    pub src_rgb: BlendFactor,
    pub src_alpha: BlendFactor,
    pub dst_rgb: BlendFactor,
    pub dst_alpha: BlendFactor,
}

/// The GPU blend state that carries out a composite operation: each factor
/// translated, both groups of channels added.
pub open spec fn spec_blend_state(op: CompositeOperationState) -> BlendState {
    BlendState {
        color: BlendComponent {
            src_factor: spec_blend_factor(op.src_rgb),
            dst_factor: spec_blend_factor(op.dst_rgb),
            operation: BlendOperation::Add,
        },
        alpha: BlendComponent {
            src_factor: spec_blend_factor(op.src_alpha),
            dst_factor: spec_blend_factor(op.dst_alpha),
            operation: BlendOperation::Add,
        },
    }
}

/// Builds the GPU blend state of a composite operation.
pub fn blend_state(op: CompositeOperationState) -> (r: BlendState)
    ensures
        r == spec_blend_state(op),
{
    BlendState {
        color: BlendComponent {
            src_factor: blend_factor(op.src_rgb),
            dst_factor: blend_factor(op.dst_rgb),
            operation: BlendOperation::Add,
        },
        alpha: BlendComponent {
            src_factor: blend_factor(op.src_alpha),
            dst_factor: blend_factor(op.dst_alpha),
            operation: BlendOperation::Add,
        },
    }
}

/// The blend state that overwrites the destination with the source.
pub open spec fn spec_replace_blend_state() -> BlendState {
    BlendState {
        color: BlendComponent {
            src_factor: GpuBlendFactor::One,
            dst_factor: GpuBlendFactor::Zero,
            operation: BlendOperation::Add,
        },
        alpha: BlendComponent {
            src_factor: GpuBlendFactor::One,
            dst_factor: GpuBlendFactor::Zero,
            operation: BlendOperation::Add,
        },
    }
}

/// Builds the blend state that overwrites the destination with the source.
pub fn replace_blend_state() -> (r: BlendState)
    ensures
        r == spec_replace_blend_state(),
{
    BlendState {
        color: BlendComponent {
            src_factor: GpuBlendFactor::One,
            dst_factor: GpuBlendFactor::Zero,
            operation: BlendOperation::Add,
        },
        alpha: BlendComponent {
            src_factor: GpuBlendFactor::One,
            dst_factor: GpuBlendFactor::Zero,
            operation: BlendOperation::Add,
        },
    }
}

/// Distinct composite operations give distinct blend states.
pub proof fn lemma_blend_state_injective(a: CompositeOperationState, b: CompositeOperationState)
    ensures
        spec_blend_state(a) == spec_blend_state(b) ==> a == b,
{
    lemma_blend_factor_injective(a.src_rgb, b.src_rgb);
    lemma_blend_factor_injective(a.dst_rgb, b.dst_rgb);
    lemma_blend_factor_injective(a.src_alpha, b.src_alpha);
    lemma_blend_factor_injective(a.dst_alpha, b.dst_alpha);
}

/// The weight a canvas blend factor gives a term, for a source colour
/// channel `s` and alpha `sa` and a destination colour channel `d` and alpha
/// `da`, all in `0 ..= one`.
pub open spec fn spec_canvas_weight(f: BlendFactor, one: int, s: int, sa: int, d: int, da: int) -> int {
    match f {
        BlendFactor::Zero => 0,
        BlendFactor::One => one,
        BlendFactor::SrcColor => s,
        BlendFactor::OneMinusSrcColor => one - s,
        BlendFactor::DstColor => d,
        BlendFactor::OneMinusDstColor => one - d,
        BlendFactor::SrcAlpha => sa,
        BlendFactor::OneMinusSrcAlpha => one - sa,
        BlendFactor::DstAlpha => da,
        BlendFactor::OneMinusDstAlpha => one - da,
        BlendFactor::SrcAlphaSaturate => if sa < one - da { sa } else { one - da },
    }
}

/// The weight a GPU blend factor gives a term, with the same inputs.
pub open spec fn spec_gpu_weight(f: GpuBlendFactor, one: int, s: int, sa: int, d: int, da: int) -> int {
    match f {
        GpuBlendFactor::Zero => 0,
        GpuBlendFactor::One => one,
        GpuBlendFactor::Src => s,
        GpuBlendFactor::OneMinusSrc => one - s,
        GpuBlendFactor::SrcAlpha => sa,
        GpuBlendFactor::OneMinusSrcAlpha => one - sa,
        GpuBlendFactor::Dst => d,
        GpuBlendFactor::OneMinusDst => one - d,
        GpuBlendFactor::DstAlpha => da,
        GpuBlendFactor::OneMinusDstAlpha => one - da,
        GpuBlendFactor::SrcAlphaSaturated => if sa < one - da { sa } else { one - da },
    }
}

/// The GPU factor that stands for a canvas factor weighs every term as the
/// canvas factor does, whatever the colours.
pub proof fn lemma_blend_factor_weighs_alike(f: BlendFactor, one: int, s: int, sa: int, d: int, da: int)
    ensures
        spec_gpu_weight(spec_blend_factor(f), one, s, sa, d, da) == spec_canvas_weight(f, one, s, sa, d, da),
{
}

/// The blend state of a composite operation weighs source and destination
/// as the operation's factors do, for colour and alpha alike, and adds the
/// two terms.
pub proof fn lemma_blend_state_weighs_alike(
    op: CompositeOperationState,
    one: int,
    s: int,
    sa: int,
    d: int,
    da: int,
)
    ensures
        ({
            let b = spec_blend_state(op);
            &&& spec_gpu_weight(b.color.src_factor, one, s, sa, d, da) == spec_canvas_weight(op.src_rgb, one, s, sa, d, da)
            &&& spec_gpu_weight(b.color.dst_factor, one, s, sa, d, da) == spec_canvas_weight(op.dst_rgb, one, s, sa, d, da)
            &&& spec_gpu_weight(b.alpha.src_factor, one, s, sa, d, da) == spec_canvas_weight(op.src_alpha, one, s, sa, d, da)
            &&& spec_gpu_weight(b.alpha.dst_factor, one, s, sa, d, da) == spec_canvas_weight(op.dst_alpha, one, s, sa, d, da)
            &&& b.color.operation == BlendOperation::Add
            &&& b.alpha.operation == BlendOperation::Add
        }),
{
}

/// The replacing blend state keeps the source whole and drops the
/// destination, for colour and alpha.
pub proof fn lemma_replace_blend_keeps_the_source(one: int, s: int, sa: int, d: int, da: int)
    ensures
        ({
            let b = spec_replace_blend_state();
            &&& spec_gpu_weight(b.color.src_factor, one, s, sa, d, da) == one
            &&& spec_gpu_weight(b.color.dst_factor, one, s, sa, d, da) == 0
            &&& spec_gpu_weight(b.alpha.src_factor, one, s, sa, d, da) == one
            &&& spec_gpu_weight(b.alpha.dst_factor, one, s, sa, d, da) == 0
            &&& b.color.operation == BlendOperation::Add
            &&& b.alpha.operation == BlendOperation::Add
        }),
{
}

} // verus!
