use vstd::prelude::*;

verus! {

/// A 32-bit color: gamma-encoded `sRGB` channels with premultiplied alpha,
/// and an alpha channel that is stored linearly (`a / 255`), never gamma-encoded.
///
/// Every combination of four bytes is a valid value.
#[derive(Clone, Copy, Debug, Default, PartialEq, Eq, Hash, Structural)]
pub struct Color32 {
    pub r: u8,
    pub g: u8,
    pub b: u8,
    pub a: u8,
}

/// The color with the given premultiplied channels.
pub open spec fn rgba(r: u8, g: u8, b: u8, a: u8) -> Color32 {
    Color32 { r, g, b, a }
}

/// Shorthand for `Color32::from_rgba_premultiplied`.
pub fn srgba(r: u8, g: u8, b: u8, a: u8) -> (c: Color32)
    ensures
        c == rgba(r, g, b, a),
{
    Color32::from_rgba_premultiplied(r, g, b, a)
}

impl Color32 {
    /// The channels in the order `[r, g, b, a]`.
    pub open spec fn channels(self) -> Seq<u8> {
        seq![self.r, self.g, self.b, self.a]
    }

    /// An opaque color (alpha byte 255).
    pub fn from_rgb(r: u8, g: u8, b: u8) -> (c: Self)
        ensures
            c == rgba(r, g, b, 255),
    {
        Color32 { r, g, b, a: 255 }
    }

    /// An additive color: alpha byte 0, so it adds light without covering.
    pub fn from_rgb_additive(r: u8, g: u8, b: u8) -> (c: Self)
        ensures
            c == rgba(r, g, b, 0),
    {
        Color32 { r, g, b, a: 0 }
    }

    /// From gamma-encoded channels that are already premultiplied by alpha.
    pub fn from_rgba_premultiplied(r: u8, g: u8, b: u8, a: u8) -> (c: Self)
        ensures
            c == rgba(r, g, b, a),
    {
        Color32 { r, g, b, a }
    }

    /// From gamma-encoded channels that are not premultiplied by alpha.
    ///
    /// `premultiply(x, a)` gives the gamma-encoded byte of channel `x` scaled by
    /// the linear alpha `a / 255`. An opaque input needs no scaling and is taken
    /// as it is; otherwise each color channel goes through `premultiply` and the
    /// alpha byte is kept, since alpha is stored linearly.
    pub fn from_rgba_unmultiplied<F: Fn(u8, u8) -> u8>(
        r: u8,
        g: u8,
        b: u8,
        a: u8,
        premultiply: F,
    ) -> (c: Self)
        requires
            forall|x: u8, y: u8| premultiply.requires((x, y)),
        ensures
            a == 255 ==> c == rgba(r, g, b, a),
            a != 255 ==> {
                &&& premultiply.ensures((r, a), c.r)
                &&& premultiply.ensures((g, a), c.g)
                &&& premultiply.ensures((b, a), c.b)
                &&& c.a == a
            },
    {
        if a == 255 {
            Self::from_rgba_premultiplied(r, g, b, a)
        } else {
            let pr = premultiply(r, a);
            let pg = premultiply(g, a);
            let pb = premultiply(b, a);
            Color32 { r: pr, g: pg, b: pb, a }
        }
    }

    /// The same as `from_rgba_premultiplied`, under its older name.
    pub fn new(r: u8, g: u8, b: u8, a: u8) -> (c: Self)
        ensures
            c == rgba(r, g, b, a),
    {
        Color32 { r, g, b, a }
    }

    /// An opaque gray with all three color channels `l`.
    pub fn gray(l: u8) -> (c: Self)
        ensures
            c == rgba(l, l, l, 255),
    {
        Color32 { r: l, g: l, b: l, a: 255 }
    }

    /// Black with the given linear alpha byte.
    pub fn black_alpha(a: u8) -> (c: Self)
        ensures
            c == rgba(0, 0, 0, a),
    {
        Color32 { r: 0, g: 0, b: 0, a }
    }

    /// White with the given linear alpha byte, premultiplied.
    ///
    /// `encode(a)` gives the gamma-encoded byte of the linear fraction `a / 255`:
    /// premultiplied white has that value in each color channel, which differs
    /// from `a` itself because the color channels are gamma-encoded.
    pub fn white_alpha<F: Fn(u8) -> u8>(a: u8, encode: F) -> (c: Self)
        requires
            forall|x: u8| encode.requires((x,)),
        ensures
            encode.ensures((a,), c.r),
            c.g == c.r,
            c.b == c.r,
            c.a == a,
    {
        let w = encode(a);
        Color32 { r: w, g: w, b: w, a }
    }

    /// An additive gray (alpha byte 0) with all three color channels `l`.
    pub fn additive_luminance(l: u8) -> (c: Self)
        ensures
            c == rgba(l, l, l, 0),
    {
        Color32 { r: l, g: l, b: l, a: 0 }
    }

    /// Whether the alpha byte is 255.
    pub fn is_opaque(&self) -> (o: bool)
        ensures
            o == (self.a == 255),
    {
        self.a == 255
    }

    pub fn r(&self) -> (v: u8)
        ensures
            v == self.r,
    {
        self.r
    }

    pub fn g(&self) -> (v: u8)
        ensures
            v == self.g,
    {
        self.g
    }

    pub fn b(&self) -> (v: u8)
        ensures
            v == self.b,
    {
        self.b
    }

    pub fn a(&self) -> (v: u8)
        ensures
            v == self.a,
    {
        self.a
    }

    /// The opaque version of this color: alpha byte 255, color channels un-premultiplied.
    ///
    /// `unmultiply(x, a)` gives the gamma-encoded byte of channel `x` divided by
    /// the linear alpha `a / 255`, for `a > 0`. With alpha 0 (an additive or fully
    /// transparent color) there is nothing to divide by, and the color channels
    /// pass through unchanged; with alpha 255 dividing changes nothing.
    pub fn to_opaque<F: Fn(u8, u8) -> u8>(self, unmultiply: F) -> (c: Self)
        requires
            forall|x: u8, y: u8| y != 0 ==> unmultiply.requires((x, y)),
        ensures
            c.a == 255,
            self.a == 0 || self.a == 255 ==> c == rgba(self.r, self.g, self.b, 255),
            self.a != 0 && self.a != 255 ==> {
                &&& unmultiply.ensures((self.r, self.a), c.r)
                &&& unmultiply.ensures((self.g, self.a), c.g)
                &&& unmultiply.ensures((self.b, self.a), c.b)
            },
    {
        if self.a == 0 || self.a == 255 {
            Self::from_rgb(self.r, self.g, self.b)
        } else {
            let ur = unmultiply(self.r, self.a);
            let ug = unmultiply(self.g, self.a);
            let ub = unmultiply(self.b, self.a);
            Self::from_rgb(ur, ug, ub)
        }
    }

    /// The channels as an array `[r, g, b, a]`.
    pub fn to_array(&self) -> (arr: [u8; 4])
        ensures
            arr@ == self.channels(),
    {
        [self.r(), self.g(), self.b(), self.a()]
    }

    /// The channels as a tuple `(r, g, b, a)`.
    pub fn to_tuple(&self) -> (t: (u8, u8, u8, u8))
        ensures
            t == (self.r, self.g, self.b, self.a),
    {
        (self.r(), self.g(), self.b(), self.a())
    }

    /// The channel at `index`, in the order `[r, g, b, a]`.
    pub fn channel(&self, index: usize) -> (v: u8)
        requires
            index < 4,
        ensures
            v == self.channels()[index as int],
    {
        if index == 0 {
            self.r
        } else if index == 1 {
            self.g
        } else if index == 2 {
            self.b
        } else {
            self.a
        }
    }

    /// Replaces the channel at `index`, in the order `[r, g, b, a]`.
    pub fn set_channel(&mut self, index: usize, value: u8)
        requires
            index < 4,
        ensures
            final(self).channels() == old(self).channels().update(index as int, value),
    {
        if index == 0 {
            self.r = value;
        } else if index == 1 {
            self.g = value;
        } else if index == 2 {
            self.b = value;
        } else {
            self.a = value;
        }
    }
}

} // verus!
