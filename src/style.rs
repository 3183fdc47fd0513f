//! Plain style values used by the mesh configuration: colours, line and text
//! styles, and sizes given either in pixels or relative to a drawing area.
use vstd::prelude::*;

verus! {

/// A colour with an opacity given in percent (0 is transparent, 100 opaque).
#[derive(Clone, Copy, Debug, PartialEq, Eq, Structural)]
pub struct RGBAColor {
    pub r: u8,
    pub g: u8,
    pub b: u8,
    pub opacity: u8,
}

impl RGBAColor {
    pub open spec fn wf(self) -> bool {
        self.opacity <= 100
    }

    /// Black at the given opacity.
    pub fn black(opacity: u8) -> (c: RGBAColor)
        requires
            opacity <= 100,
        ensures
            c == (RGBAColor { r: 0, g: 0, b: 0, opacity }),
            c.wf(),
    {
        RGBAColor { r: 0, g: 0, b: 0, opacity }
    }
}


/// The style of a stroked or filled shape.
#[derive(Clone, Copy, Debug, PartialEq, Eq, Structural)]
pub struct ShapeStyle {
    pub color: RGBAColor,
    pub filled: bool,
    pub stroke_width: u32,
}

impl ShapeStyle {
    /// The style that a bare colour stands for: an outline one pixel wide.
    pub fn from_color(color: RGBAColor) -> (s: ShapeStyle)
        ensures
            s == (ShapeStyle { color, filled: false, stroke_width: 1 }),
    {
        ShapeStyle { color, filled: false, stroke_width: 1 }
    }
}

/// A font family and a size in pixels.
#[derive(Clone, Debug, PartialEq)]
pub struct FontDesc {
    pub family: String,
    pub size: i32,
}

/// A resolved text style: font and colour.
#[derive(Clone, Debug, PartialEq)]
pub struct TextStyle {
    pub font: FontDesc,
    pub color: RGBAColor,
}

impl TextStyle {
    /// A copy equal to this style.
    pub fn duplicate(&self) -> (r: TextStyle)
        ensures
            r == *self,
    {
        TextStyle {
            font: FontDesc { family: self.font.family.clone(), size: self.font.size },
            color: self.color,
        }
    }
}

/// A text style whose size may still be relative to the area it is drawn in.
#[derive(Clone, Debug, PartialEq)]
pub struct TextStyleDesc {
    pub family: String,
    pub size: SizeDesc,
    pub color: RGBAColor,
}

/// The text style that a description stands for in an area of the given
/// dimensions.
pub open spec fn text_style_in(desc: TextStyleDesc, parent: (u32, u32)) -> TextStyle {
    TextStyle {
        font: FontDesc { family: desc.family, size: size_in_pixels(desc.size, parent) as i32 },
        color: desc.color,
    }
}

impl TextStyleDesc {
    /// Resolves the size of this style against the area it is drawn in.
    pub fn into_text_style(self, parent: (u32, u32)) -> (t: TextStyle)
        ensures
            t == text_style_in(self, parent),
    {
        let size = self.size.in_pixels(parent);
        TextStyle { font: FontDesc { family: self.family, size }, color: self.color }
    }
}

/// A length given in pixels, or as a percentage of the smaller side of the
/// area it is drawn in.
#[derive(Clone, Copy, Debug, PartialEq, Eq, Structural)]
pub enum SizeDesc {
    Pixels(i32),
    Percent(i32),
}

/// The saturating conversion of an integer into the range of `i32`.
pub open spec fn clamp_i32(v: int) -> int {
    if v < i32::MIN {
        i32::MIN as int
    } else if v > i32::MAX {
        i32::MAX as int
    } else {
        v
    }
}

/// The smaller side of an area.
pub open spec fn smaller_side(parent: (u32, u32)) -> int {
    if parent.0 <= parent.1 {
        parent.0 as int
    } else {
        parent.1 as int
    }
}

/// Integer division that truncates toward zero, as Rust's `/` does.
pub open spec fn div_toward_zero(a: int, d: int) -> int {
    if a >= 0 {
        a / d
    } else {
        -((-a) / d)
    }
}

/// The pixel length that a size stands for in an area of the given dimensions:
/// a percentage is truncated toward zero and held within the range of `i32`.
pub open spec fn size_in_pixels(size: SizeDesc, parent: (u32, u32)) -> int {
    match size {
        SizeDesc::Pixels(p) => p as int,
        SizeDesc::Percent(p) => clamp_i32(div_toward_zero(smaller_side(parent) * p, 100)),
    }
}

impl SizeDesc {
    /// Resolves this size against the dimensions of the area it is drawn in.
    pub fn in_pixels(&self, parent: (u32, u32)) -> (r: i32)
        ensures
            r as int == size_in_pixels(*self, parent),
    {
        match *self {
            SizeDesc::Pixels(p) => p,
            SizeDesc::Percent(p) => {
                let side: i64 = if parent.0 <= parent.1 { parent.0 as i64 } else { parent.1 as i64 };
                assert(i64::MIN < side * (p as i64) <= i64::MAX) by (nonlinear_arith)
                    requires
                        0 <= side <= u32::MAX,
                        i32::MIN <= p <= i32::MAX,
                ;
                let product: i64 = side * (p as i64);
                let scaled: i64 = if product >= 0 {
                    product / 100
                } else {
                    -((-product) / 100)
                };
                if scaled < i32::MIN as i64 {
                    i32::MIN
                } else if scaled > i32::MAX as i64 {
                    i32::MAX
                } else {
                    scaled as i32
                }
            },
        }
    }
}

} // verus!
