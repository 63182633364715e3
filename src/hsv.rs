//! The sector table of the hue/saturation/value to RGB conversion.
//!
//! The hue circle is cut into six sectors, `floor(6 h) mod 6` for a hue `h`
//! wrapped into `[0, 1)`. Within a sector each RGB channel is one of the value
//! `v` and the interpolants `p = v (1 - s)`, `q = v (1 - f s)` and
//! `t = v (1 - (1 - f) s)`, where `f` is the fractional part of `6 h`.
use vstd::prelude::*;

verus! {

/// Which of `v`, `p`, `q`, `t` each of the channels `(r, g, b)` takes in a sector.
pub open spec fn sector_channels<T>(sector: int, v: T, p: T, q: T, t: T) -> (T, T, T) {
    if sector == 0 {
        (v, t, p)
    } else if sector == 1 {
        (q, v, p)
    } else if sector == 2 {
        (p, v, t)
    } else if sector == 3 {
        (p, q, v)
    } else if sector == 4 {
        (t, p, v)
    } else {
        (v, p, q)
    }
}

/// The `(r, g, b)` channels for the sector `sector mod 6`, where `sector` is
/// `floor(6 h)` for the wrapped hue `h`.
pub fn rgb_from_hsv_sector<T>(sector: i32, v: T, p: T, q: T, t: T) -> (rgb: (T, T, T))
    requires
        sector >= 0,
    ensures
        rgb == sector_channels(sector as int % 6, v, p, q, t),
{
    let s: i32 = sector % 6;
    if s == 0 {
        (v, t, p)
    } else if s == 1 {
        (q, v, p)
    } else if s == 2 {
        (p, v, t)
    } else if s == 3 {
        (p, q, v)
    } else if s == 4 {
        (t, p, v)
    } else {
        (v, p, q)
    }
}

/// When the interpolants `p`, `q` and `t` all equal the value `v`, as they do
/// at saturation zero, every sector gives the gray `(v, v, v)`, whatever the hue.
pub proof fn lemma_uniform_sector_is_gray<T>(sector: int, v: T)
    requires
        0 <= sector < 6,
    ensures
        sector_channels(sector, v, v, v, v) == (v, v, v),
{
}

} // verus!
