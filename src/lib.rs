//! Colors as compact gamma-encoded bytes: premultiplied `sRGB` channels with a
//! linearly stored alpha, the named colors, and the sector table of the
//! hue/saturation/value to RGB conversion.
pub mod color32;
pub mod palette;
pub mod hsv;
