use vstd::prelude::*;

verus! {

/// An exact non-negative rational `num / den`; a zero denominator stands for
/// the quotient that floating-point division would make infinite or NaN.
#[derive(Clone, Copy, Debug, PartialEq, Eq, Structural)]
pub struct Ratio {
    pub num: u128,
    pub den: u128,
}

/// The size of one frame when `full` pixels are cut into `count` frames.
pub open spec fn frame_size(full: u32, count: usize) -> Ratio {
    Ratio { num: full as u128, den: count as u128 }
}

/// One frame's size relative to the whole: `(full / count) / full`.
pub open spec fn frame_fraction(full: u32, count: usize) -> Ratio {
    Ratio { num: full as u128, den: (full as u128 * count as u128) as u128 }
}

pub fn sprite_frame(full: u32, count: usize) -> (r: Ratio)
    ensures
        r == frame_size(full, count),
{
    Ratio { num: full as u128, den: count as u128 }
}

pub fn sprite_fraction(full: u32, count: usize) -> (r: Ratio)
    ensures
        r == frame_fraction(full, count),
{
    let f = full as u128;
    let c = count as u128;
    assert(f * c <= 0xffff_ffffu128 * 0xffff_ffff_ffff_ffffu128) by (nonlinear_arith)
        requires
            f <= 0xffff_ffffu128,
            c <= 0xffff_ffff_ffff_ffffu128,
    ;
    Ratio { num: f, den: f * c }
}

} // verus!
