//! The color-space tags and the typed color values they select.
//!
//! Every component field is an IEEE-754 binary64 bit pattern (`u64`), as the
//! [`crate::bits`] module describes. A [`Color`] is a tagged union with one
//! variant per supported space, each wrapping that space's typed value.

use vstd::prelude::*;

verus! {

/// A closed enumeration naming every supported color space.
#[derive(Debug, Clone, Copy, PartialEq, Eq, Structural)]
pub enum ColorSpaceTag {
    Rgb,
    Cmy,
    Cmyk,
    Hsv,
    Hsl,
    Lch,
    Luv,
    Lab,
    HunterLab,
    Xyz,
    Yxy,
}

/// An RGB value: red, green and blue, each in 0 to 255.
#[derive(Debug, Clone, Copy, PartialEq, Eq, Structural)]
pub struct Rgb {
    pub r: u64,
    pub g: u64,
    pub b: u64,
}

/// A CMY value: cyan, magenta and yellow, each in 0 to 1.
#[derive(Debug, Clone, Copy, PartialEq, Eq, Structural)]
pub struct Cmy {
    pub c: u64,
    pub m: u64,
    pub y: u64,
}

/// A CMYK value: cyan, magenta, yellow and key, each in 0 to 1.
#[derive(Debug, Clone, Copy, PartialEq, Eq, Structural)]
pub struct Cmyk {
    pub c: u64,
    pub m: u64,
    pub y: u64,
    pub k: u64,
}

/// An HSV value: hue in 0 to 360, saturation and value in 0 to 1.
#[derive(Debug, Clone, Copy, PartialEq, Eq, Structural)]
pub struct Hsv {
    pub h: u64,
    pub s: u64,
    pub v: u64,
}

/// An HSL value: hue in 0 to 360, saturation and lightness in 0 to 1.
#[derive(Debug, Clone, Copy, PartialEq, Eq, Structural)]
pub struct Hsl {
    pub h: u64,
    pub s: u64,
    pub l: u64,
}

/// An LCH value: luminance and chroma in 0 to 100, hue in 0 to 360.
#[derive(Debug, Clone, Copy, PartialEq, Eq, Structural)]
pub struct Lch {
    pub l: u64,
    pub c: u64,
    pub h: u64,
}

/// A CIELUV value: luminance in 0 to 100, u in -134 to 220, v in -140 to
/// 122.
#[derive(Debug, Clone, Copy, PartialEq, Eq, Structural)]
pub struct Luv {
    pub l: u64,
    pub u: u64,
    pub v: u64,
}

/// A CIELAB value: luminance in 0 to 100, a and b unconstrained.
#[derive(Debug, Clone, Copy, PartialEq, Eq, Structural)]
pub struct Lab {
    pub l: u64,
    pub a: u64,
    pub b: u64,
}

/// A Hunter Lab value: luminance in 0 to 100, a and b unconstrained.
#[derive(Debug, Clone, Copy, PartialEq, Eq, Structural)]
pub struct HunterLab {
    pub l: u64,
    pub a: u64,
    pub b: u64,
}

/// A CIEXYZ value: all three components unconstrained.
#[derive(Debug, Clone, Copy, PartialEq, Eq, Structural)]
pub struct Xyz {
    pub x: u64,
    pub y: u64,
    pub z: u64,
}

/// An xyY value (luminance and two chromaticity coordinates): all three
/// components unconstrained.
#[derive(Debug, Clone, Copy, PartialEq, Eq, Structural)]
pub struct Yxy {
    pub y1: u64,
    pub x: u64,
    pub y2: u64,
}

/// A validated color: one variant per color space, wrapping the space's
/// typed value. A `Color` is only ever constructed through
/// [`crate::convert::build`], which guarantees that every field lies within
/// its declared legal range.
#[derive(Debug, Clone, Copy, PartialEq, Eq, Structural)]
pub enum Color {
    Rgb(Rgb),
    Cmy(Cmy),
    Cmyk(Cmyk),
    Hsv(Hsv),
    Hsl(Hsl),
    Lch(Lch),
    Luv(Luv),
    Lab(Lab),
    HunterLab(HunterLab),
    Xyz(Xyz),
    Yxy(Yxy),
}

impl Color {
    /// The tag of the space this color belongs to.
    pub open spec fn spec_tag(self) -> ColorSpaceTag {
        match self {
            Color::Rgb(_) => ColorSpaceTag::Rgb,
            Color::Cmy(_) => ColorSpaceTag::Cmy,
            Color::Cmyk(_) => ColorSpaceTag::Cmyk,
            Color::Hsv(_) => ColorSpaceTag::Hsv,
            Color::Hsl(_) => ColorSpaceTag::Hsl,
            Color::Lch(_) => ColorSpaceTag::Lch,
            Color::Luv(_) => ColorSpaceTag::Luv,
            Color::Lab(_) => ColorSpaceTag::Lab,
            Color::HunterLab(_) => ColorSpaceTag::HunterLab,
            Color::Xyz(_) => ColorSpaceTag::Xyz,
            Color::Yxy(_) => ColorSpaceTag::Yxy,
        }
    }

    /// The components of the color, in the order the space declares them.
    pub open spec fn spec_components(self) -> Seq<u64> {
        match self {
            Color::Rgb(c) => seq![c.r, c.g, c.b],
            Color::Cmy(c) => seq![c.c, c.m, c.y],
            Color::Cmyk(c) => seq![c.c, c.m, c.y, c.k],
            Color::Hsv(c) => seq![c.h, c.s, c.v],
            Color::Hsl(c) => seq![c.h, c.s, c.l],
            Color::Lch(c) => seq![c.l, c.c, c.h],
            Color::Luv(c) => seq![c.l, c.u, c.v],
            Color::Lab(c) => seq![c.l, c.a, c.b],
            Color::HunterLab(c) => seq![c.l, c.a, c.b],
            Color::Xyz(c) => seq![c.x, c.y, c.z],
            Color::Yxy(c) => seq![c.y1, c.x, c.y2],
        }
    }

    /// The tag of the space this color belongs to.
    pub fn tag(&self) -> (t: ColorSpaceTag)
        ensures
            t == self.spec_tag(),
    {
        match self {
            Color::Rgb(_) => ColorSpaceTag::Rgb,
            Color::Cmy(_) => ColorSpaceTag::Cmy,
            Color::Cmyk(_) => ColorSpaceTag::Cmyk,
            Color::Hsv(_) => ColorSpaceTag::Hsv,
            Color::Hsl(_) => ColorSpaceTag::Hsl,
            Color::Lch(_) => ColorSpaceTag::Lch,
            Color::Luv(_) => ColorSpaceTag::Luv,
            Color::Lab(_) => ColorSpaceTag::Lab,
            Color::HunterLab(_) => ColorSpaceTag::HunterLab,
            Color::Xyz(_) => ColorSpaceTag::Xyz,
            Color::Yxy(_) => ColorSpaceTag::Yxy,
        }
    }

    /// The components of the color as bit patterns, in the order the space
    /// declares them: exactly the values the color was built from.
    pub fn components(&self) -> (r: Vec<u64>)
        ensures
            r@ == self.spec_components(),
    {
        let mut r: Vec<u64> = Vec::new();
        match self {
            Color::Rgb(c) => {
                r.push(c.r);
                r.push(c.g);
                r.push(c.b);
            },
            Color::Cmy(c) => {
                r.push(c.c);
                r.push(c.m);
                r.push(c.y);
            },
            Color::Cmyk(c) => {
                r.push(c.c);
                r.push(c.m);
                r.push(c.y);
                r.push(c.k);
            },
            Color::Hsv(c) => {
                r.push(c.h);
                r.push(c.s);
                r.push(c.v);
            },
            Color::Hsl(c) => {
                r.push(c.h);
                r.push(c.s);
                r.push(c.l);
            },
            Color::Lch(c) => {
                r.push(c.l);
                r.push(c.c);
                r.push(c.h);
            },
            Color::Luv(c) => {
                r.push(c.l);
                r.push(c.u);
                r.push(c.v);
            },
            Color::Lab(c) => {
                r.push(c.l);
                r.push(c.a);
                r.push(c.b);
            },
            Color::HunterLab(c) => {
                r.push(c.l);
                r.push(c.a);
                r.push(c.b);
            },
            Color::Xyz(c) => {
                r.push(c.x);
                r.push(c.y);
                r.push(c.z);
            },
            Color::Yxy(c) => {
                r.push(c.y1);
                r.push(c.x);
                r.push(c.y2);
            },
        }
        proof {
            assert(r@ =~= self.spec_components());
        }
        r
    }
}

} // verus!
