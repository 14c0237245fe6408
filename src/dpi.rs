use vstd::prelude::*;

verus! {

/// Pixels per inch of a display at the standard density.
pub const STANDARD_DPI: i32 = 96;

/// Rust's integer division, which rounds toward zero, for a positive divisor.
pub open spec fn div_trunc(a: int, b: int) -> int
    recommends
        b > 0,
{
    if a >= 0 {
        a / b
    } else {
        -((-a) / b)
    }
}

/// Scale factor of one display axis: its pixels per inch over the standard
/// density, rounded down.
pub fn dpi_scale_factor(log_pixels: i32) -> (r: i32)
    requires
        log_pixels >= 0,
    ensures
        r == log_pixels / 96,
        r >= 0,
{
    log_pixels / STANDARD_DPI
}

/// Converts a length in physical pixels to device-independent units by
/// dividing by the axis's scale factor.
pub fn to_dips(pixels: i32, scale: i32) -> (r: i32)
    requires
        scale > 0,
    ensures
        r == div_trunc(pixels as int, scale as int),
{
    if pixels >= 0 {
        pixels / scale
    } else {
        let magnitude: i64 = -(pixels as i64);
        let q: i64 = magnitude / (scale as i64);
        assert(q <= magnitude) by (nonlinear_arith)
            requires
                magnitude >= 0,
                scale > 0,
                q == magnitude / (scale as i64),
        ;
        let r: i64 = -q;
        r as i32
    }
}

} // verus!
