//! The stencil states of the multi-pass fills and strokes.
//!
//! A concave fill first counts windings into the stencil buffer with colour
//! writes off, then draws its anti-aliased fringe and its cover where the
//! count says "inside", clearing the count as it covers. A stencil stroke
//! first draws the stroke where the stencil is zero and marks it, then draws
//! the anti-aliased edge where it is still zero, then clears its marks.

use vstd::prelude::*;

use crate::pipeline::{CompareFunction, StencilFaceState, StencilOperation, StencilState};

verus! {

/// Which points count as inside a path.
#[derive(Clone, Copy, Debug, PartialEq, Eq, Hash, Structural)]
pub enum FillRule {
    EvenOdd,
    NonZero,
}

/// The stencil bits that decide insideness: all eight for the non-zero
/// rule, the lowest (the parity of the winding count) for the even-odd rule.
pub open spec fn spec_fill_rule_mask(rule: FillRule) -> u32 {
    match rule {
        FillRule::NonZero => 0xff,
        FillRule::EvenOdd => 0x1,
    }
}

/// The stencil bits that decide insideness under a fill rule.
pub fn fill_rule_mask(rule: FillRule) -> (r: u32)
    ensures
        r == spec_fill_rule_mask(rule),
{
    match rule {
        FillRule::NonZero => 0xff,
        FillRule::EvenOdd => 0x1,
    }
}

/// A face state.
pub open spec fn spec_face(
    compare: CompareFunction,
    fail_op: StencilOperation,
    depth_fail_op: StencilOperation,
    pass_op: StencilOperation,
) -> StencilFaceState {
    StencilFaceState { compare, fail_op, depth_fail_op, pass_op }
}

/// Winding count: every fragment passes; front faces increment, back faces
/// decrement, both wrapping.
pub open spec fn spec_concave_fill_stencil() -> StencilState {
    StencilState {
        front: spec_face(
            CompareFunction::Always,
            StencilOperation::Keep,
            StencilOperation::Keep,
            StencilOperation::IncrementWrap,
        ),
        back: spec_face(
            CompareFunction::Always,
            StencilOperation::Keep,
            StencilOperation::Keep,
            StencilOperation::DecrementWrap,
        ),
        read_mask: 0xffff_ffff,
        write_mask: 0xffff_ffff,
    }
}

/// Builds the winding-count stencil state.
pub fn concave_fill_stencil() -> (r: StencilState)
    ensures
        r == spec_concave_fill_stencil(),
{
    StencilState {
        front: StencilFaceState {
            compare: CompareFunction::Always,
            fail_op: StencilOperation::Keep,
            depth_fail_op: StencilOperation::Keep,
            pass_op: StencilOperation::IncrementWrap,
        },
        back: StencilFaceState {
            compare: CompareFunction::Always,
            fail_op: StencilOperation::Keep,
            depth_fail_op: StencilOperation::Keep,
            pass_op: StencilOperation::DecrementWrap,
        },
        read_mask: 0xffff_ffff,
        write_mask: 0xffff_ffff,
    }
}

/// Fringe of a concave fill: drawn where the masked count equals the
/// reference (zero), leaving the stencil buffer as it is.
pub open spec fn spec_fringe_stencil(rule: FillRule) -> StencilState {
    let face = spec_face(
        CompareFunction::Equal,
        StencilOperation::Keep,
        StencilOperation::Keep,
        StencilOperation::Keep,
    );
    StencilState {
        front: face,
        back: face,
        read_mask: spec_fill_rule_mask(rule),
        write_mask: spec_fill_rule_mask(rule),
    }
}

/// Builds the fringe stencil state of a concave fill.
pub fn fringe_stencil(rule: FillRule) -> (r: StencilState)
    ensures
        r == spec_fringe_stencil(rule),
{
    let face = StencilFaceState {
        compare: CompareFunction::Equal,
        fail_op: StencilOperation::Keep,
        depth_fail_op: StencilOperation::Keep,
        pass_op: StencilOperation::Keep,
    };
    let mask = fill_rule_mask(rule);
    StencilState { front: face, back: face, read_mask: mask, write_mask: mask }
}

/// Cover of a concave fill: drawn where the masked count differs from the
/// reference (zero), and the count is zeroed wherever it is tested.
pub open spec fn spec_cover_stencil(rule: FillRule) -> StencilState {
    let face = spec_face(
        CompareFunction::NotEqual,
        StencilOperation::Zero,
        StencilOperation::Zero,
        StencilOperation::Zero,
    );
    StencilState {
        front: face,
        back: face,
        read_mask: spec_fill_rule_mask(rule),
        write_mask: spec_fill_rule_mask(rule),
    }
}

/// Builds the cover stencil state of a concave fill.
pub fn cover_stencil(rule: FillRule) -> (r: StencilState)
    ensures
        r == spec_cover_stencil(rule),
{
    let face = StencilFaceState {
        compare: CompareFunction::NotEqual,
        fail_op: StencilOperation::Zero,
        depth_fail_op: StencilOperation::Zero,
        pass_op: StencilOperation::Zero,
    };
    let mask = fill_rule_mask(rule);
    StencilState { front: face, back: face, read_mask: mask, write_mask: mask }
}

/// A stencil state that treats both faces alike and uses all bits.
pub open spec fn spec_symmetric_stencil(face: StencilFaceState) -> StencilState {
    StencilState { front: face, back: face, read_mask: 0xffff_ffff, write_mask: 0xffff_ffff }
}

/// Base of a stencil stroke: drawn where the stencil is zero, which it then
/// increments (clamping), so no pixel is drawn twice.
pub open spec fn spec_stroke_base_stencil() -> StencilState {
    spec_symmetric_stencil(
        spec_face(
            CompareFunction::Equal,
            StencilOperation::Keep,
            StencilOperation::Keep,
            StencilOperation::IncrementClamp,
        ),
    )
}

/// Builds the base stencil state of a stencil stroke.
pub fn stroke_base_stencil() -> (r: StencilState)
    ensures
        r == spec_stroke_base_stencil(),
{
    let face = StencilFaceState {
        compare: CompareFunction::Equal,
        fail_op: StencilOperation::Keep,
        depth_fail_op: StencilOperation::Keep,
        pass_op: StencilOperation::IncrementClamp,
    };
    StencilState { front: face, back: face, read_mask: 0xffff_ffff, write_mask: 0xffff_ffff }
}

/// Anti-aliased edge of a stencil stroke: drawn where the stencil is still
/// zero, leaving it as it is.
pub open spec fn spec_stroke_aa_stencil() -> StencilState {
    spec_symmetric_stencil(
        spec_face(
            CompareFunction::Equal,
            StencilOperation::Keep,
            StencilOperation::Keep,
            StencilOperation::Keep,
        ),
    )
}

/// Builds the anti-aliasing stencil state of a stencil stroke.
pub fn stroke_aa_stencil() -> (r: StencilState)
    ensures
        r == spec_stroke_aa_stencil(),
{
    let face = StencilFaceState {
        compare: CompareFunction::Equal,
        fail_op: StencilOperation::Keep,
        depth_fail_op: StencilOperation::Keep,
        pass_op: StencilOperation::Keep,
    };
    StencilState { front: face, back: face, read_mask: 0xffff_ffff, write_mask: 0xffff_ffff }
}

/// Clean-up of a stencil stroke: every fragment zeroes the stencil.
pub open spec fn spec_stroke_clear_stencil() -> StencilState {
    spec_symmetric_stencil(
        spec_face(
            CompareFunction::Always,
            StencilOperation::Zero,
            StencilOperation::Zero,
            StencilOperation::Zero,
        ),
    )
}

/// Builds the clean-up stencil state of a stencil stroke.
pub fn stroke_clear_stencil() -> (r: StencilState)
    ensures
        r == spec_stroke_clear_stencil(),
{
    let face = StencilFaceState {
        compare: CompareFunction::Always,
        fail_op: StencilOperation::Zero,
        depth_fail_op: StencilOperation::Zero,
        pass_op: StencilOperation::Zero,
    };
    StencilState { front: face, back: face, read_mask: 0xffff_ffff, write_mask: 0xffff_ffff }
}

/// Whether the comparison holds between the (masked) reference and the
/// (masked) stencil value, the reference on the left.
pub open spec fn spec_compare_holds(c: CompareFunction, reference: int, value: int) -> bool {
    match c {
        CompareFunction::Never => false,
        CompareFunction::Less => reference < value,
        CompareFunction::Equal => reference == value,
        CompareFunction::LessEqual => reference <= value,
        CompareFunction::Greater => reference > value,
        CompareFunction::NotEqual => reference != value,
        CompareFunction::GreaterEqual => reference >= value,
        CompareFunction::Always => true,
    }
}

/// What a stencil operation makes of an 8-bit stencil value.
pub open spec fn spec_apply_stencil_op(op: StencilOperation, reference: u8, value: u8) -> u8 {
    match op {
        StencilOperation::Keep => value,
        StencilOperation::Zero => 0,
        StencilOperation::Replace => reference,
        StencilOperation::Invert => (255 - value) as u8,
        StencilOperation::IncrementClamp => if value == 255 { 255 } else { (value + 1) as u8 },
        StencilOperation::DecrementClamp => if value == 0 { 0 } else { (value - 1) as u8 },
        StencilOperation::IncrementWrap => if value == 255 { 0 } else { (value + 1) as u8 },
        StencilOperation::DecrementWrap => if value == 0 { 255 } else { (value - 1) as u8 },
    }
}

/// The face test a fragment meets.
pub open spec fn spec_face_of(s: StencilState, front_facing: bool) -> StencilFaceState {
    if front_facing {
        s.front
    } else {
        s.back
    }
}

/// Whether a fragment facing as given passes the stencil test of `s`
/// against an 8-bit stencil value (only the low eight mask bits count).
pub open spec fn spec_stencil_passes(s: StencilState, front_facing: bool, reference: u8, value: u8) -> bool {
    let m = (s.read_mask % 256) as u8;
    spec_compare_holds(spec_face_of(s, front_facing).compare, (reference & m) as int, (value & m) as int)
}

/// The stencil value after a fragment facing as given meets `s` (there is
/// no depth test): the pass or fail operation, written through the write
/// mask.
pub open spec fn spec_stencil_after(s: StencilState, front_facing: bool, reference: u8, value: u8) -> u8 {
    let face = spec_face_of(s, front_facing);
    let op = if spec_stencil_passes(s, front_facing, reference, value) {
        face.pass_op
    } else {
        face.fail_op
    };
    let w = (s.write_mask % 256) as u8;
    (value & !w) | (spec_apply_stencil_op(op, reference, value) & w)
}

proof fn lemma_full_mask(value: u8, r: u8)
    ensures
        value & 0xffu8 == value,
        (value & !0xffu8) | (r & 0xffu8) == r,
        0u8 & 0xffu8 == 0,
{
    assert(value & 0xffu8 == value) by (bit_vector);
    assert((value & !0xffu8) | (r & 0xffu8) == r) by (bit_vector);
    assert(0u8 & 0xffu8 == 0) by (bit_vector);
}

proof fn lemma_low_bit(value: u8)
    ensures
        (value & 1u8 == 0) == (value % 2 == 0),
        (value & !1u8) | (value & 1u8) == value,
        (value & !1u8) | (0u8 & 1u8) == value - value % 2,
        0u8 & 1u8 == 0,
{
    assert((value & 1u8 == 0) == (value % 2 == 0)) by (bit_vector);
    assert((value & !1u8) | (value & 1u8) == value) by (bit_vector);
    assert((value & !1u8) | (0u8 & 1u8) == value - value % 2) by (bit_vector);
    assert(0u8 & 1u8 == 0) by (bit_vector);
}

/// Counting windings: every fragment passes; a front-facing one adds one to
/// the stencil value and a back-facing one takes one away, both modulo 256.
pub proof fn lemma_concave_fill_stencil_counts(front_facing: bool, value: u8)
    ensures
        spec_stencil_passes(spec_concave_fill_stencil(), front_facing, 0, value),
        front_facing ==> spec_stencil_after(spec_concave_fill_stencil(), front_facing, 0, value) as int
            == (value + 1) % 256,
        !front_facing ==> spec_stencil_after(spec_concave_fill_stencil(), front_facing, 0, value) as int
            == (value + 255) % 256,
{
    let s = spec_concave_fill_stencil();
    let r = spec_apply_stencil_op(spec_face_of(s, front_facing).pass_op, 0, value);
    lemma_full_mask(value, r);
}

/// The fringe of a concave fill is drawn exactly where the winding count is
/// zero under the fill rule (all bits zero for non-zero, an even count for
/// even-odd) and leaves the count as it is.
pub proof fn lemma_fringe_stencil_draws_outside(rule: FillRule, front_facing: bool, value: u8)
    ensures
        spec_stencil_passes(spec_fringe_stencil(rule), front_facing, 0, value) == match rule {
            FillRule::NonZero => value == 0,
            FillRule::EvenOdd => value % 2 == 0,
        },
        spec_stencil_after(spec_fringe_stencil(rule), front_facing, 0, value) == value,
{
    lemma_full_mask(value, value);
    lemma_low_bit(value);
}

/// The cover of a concave fill is drawn exactly where the winding count is
/// non-zero under the fill rule, and resets the count's deciding bits to
/// zero wherever it is tested.
pub proof fn lemma_cover_stencil_draws_inside(rule: FillRule, front_facing: bool, value: u8)
    ensures
        spec_stencil_passes(spec_cover_stencil(rule), front_facing, 0, value) == match rule {
            FillRule::NonZero => value != 0,
            FillRule::EvenOdd => value % 2 != 0,
        },
        spec_stencil_after(spec_cover_stencil(rule), front_facing, 0, value) as int == match rule {
            FillRule::NonZero => 0,
            FillRule::EvenOdd => value - value % 2,
        },
{
    lemma_full_mask(value, 0);
    lemma_low_bit(value);
}

/// The base of a stencil stroke is drawn exactly where the stencil is zero
/// and marks what it draws, so no pixel is drawn twice.
pub proof fn lemma_stroke_base_stencil_marks(front_facing: bool, value: u8)
    ensures
        spec_stencil_passes(spec_stroke_base_stencil(), front_facing, 0, value) == (value == 0),
        spec_stencil_after(spec_stroke_base_stencil(), front_facing, 0, value) == if value == 0 {
            1u8
        } else {
            value
        },
{
    lemma_full_mask(value, spec_apply_stencil_op(StencilOperation::IncrementClamp, 0, value));
    lemma_full_mask(value, value);
}

/// The anti-aliased edge of a stencil stroke is drawn exactly where the
/// stencil is still zero (pixels the base did not draw) and leaves it alone.
pub proof fn lemma_stroke_aa_stencil_draws_unmarked(front_facing: bool, value: u8)
    ensures
        spec_stencil_passes(spec_stroke_aa_stencil(), front_facing, 0, value) == (value == 0),
        spec_stencil_after(spec_stroke_aa_stencil(), front_facing, 0, value) == value,
{
    lemma_full_mask(value, value);
}

/// The clean-up of a stencil stroke passes everywhere and leaves the
/// stencil zero.
pub proof fn lemma_stroke_clear_stencil_zeroes(front_facing: bool, value: u8)
    ensures
        spec_stencil_passes(spec_stroke_clear_stencil(), front_facing, 0, value),
        spec_stencil_after(spec_stroke_clear_stencil(), front_facing, 0, value) == 0,
{
    lemma_full_mask(value, 0);
}

} // verus!
