//! The hue ramp behind the demo program's cycling background colour.
use vstd::prelude::*;

verus! {

/// One colour channel at hue `i` degrees: rising over `[0, 60]` to 255, held
/// at 255 up to 180, then the line `(300 - h) * 255 / 60` over `[180, 240)`
/// (from 510 down to 256), and off for the rest of the circle.
pub open spec fn ramp(i: u32) -> u32 {
    let h = i % 360;
    if h <= 60 {
        (h * 255 / 60) as u32
    } else if h < 180 {
        255
    } else if h < 240 {
        ((300 - h) * 255 / 60) as u32
    } else {
        0
    }
}

pub fn slope(i: u32) -> (r: u32)
    ensures
        r == ramp(i),
        r <= 510,
{
    let i = i % 360;
    proof {
        assert(i <= 60 ==> i * 255 / 60 <= 255) by (nonlinear_arith);
        assert(180 <= i < 240 ==> (300 - i) * 255 / 60 <= 510) by (nonlinear_arith);
    }
    if i <= 60 {
        i * 255 / 60
    } else if i < 180 {
        255
    } else if i < 240 {
        ((300 - i) * 255) / 60
    } else {
        0
    }
}

} // verus!
