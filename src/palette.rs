//! The named colors, at their canonical byte values.
use vstd::prelude::*;

use crate::color32::{rgba, Color32};

verus! {

/// Fully transparent black.
pub fn transparent() -> (c: Color32)
    ensures
        c == rgba(0, 0, 0, 0),
{
    Color32 { r: 0, g: 0, b: 0, a: 0 }
}

/// Opaque black.
pub fn black() -> (c: Color32)
    ensures
        c == rgba(0, 0, 0, 255),
{
    Color32 { r: 0, g: 0, b: 0, a: 255 }
}

/// Opaque light gray.
pub fn light_gray() -> (c: Color32)
    ensures
        c == rgba(220, 220, 220, 255),
{
    Color32 { r: 220, g: 220, b: 220, a: 255 }
}

/// Opaque mid gray.
pub fn gray() -> (c: Color32)
    ensures
        c == rgba(160, 160, 160, 255),
{
    Color32 { r: 160, g: 160, b: 160, a: 255 }
}

/// Opaque white.
pub fn white() -> (c: Color32)
    ensures
        c == rgba(255, 255, 255, 255),
{
    Color32 { r: 255, g: 255, b: 255, a: 255 }
}

/// Opaque red.
pub fn red() -> (c: Color32)
    ensures
        c == rgba(255, 0, 0, 255),
{
    Color32 { r: 255, g: 0, b: 0, a: 255 }
}

/// Opaque green.
pub fn green() -> (c: Color32)
    ensures
        c == rgba(0, 255, 0, 255),
{
    Color32 { r: 0, g: 255, b: 0, a: 255 }
}

/// Opaque blue.
pub fn blue() -> (c: Color32)
    ensures
        c == rgba(0, 0, 255, 255),
{
    Color32 { r: 0, g: 0, b: 255, a: 255 }
}

/// Opaque yellow.
pub fn yellow() -> (c: Color32)
    ensures
        c == rgba(255, 255, 0, 255),
{
    Color32 { r: 255, g: 255, b: 0, a: 255 }
}

/// Opaque light blue.
pub fn light_blue() -> (c: Color32)
    ensures
        c == rgba(140, 160, 255, 255),
{
    Color32 { r: 140, g: 160, b: 255, a: 255 }
}

} // verus!
