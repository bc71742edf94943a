use vstd::prelude::*;

verus! {

/// Red channel of a packed `0xRRGGBB` value.
pub open spec fn red(c: int) -> int {
    (c / 0x10000) % 0x100
}

/// Green channel of a packed `0xRRGGBB` value.
pub open spec fn green(c: int) -> int {
    (c / 0x100) % 0x100
}

/// Blue channel of a packed `0xRRGGBB` value.
pub open spec fn blue(c: int) -> int {
    c % 0x100
}

/// A channel value capped at the brightest level.
pub open spec fn saturate(x: int) -> int {
    if x > 255 {
        255
    } else {
        x
    }
}

/// The packed value of three channels, each in `0..=255`.
pub open spec fn pack(r: int, g: int, b: int) -> int {
    r * 0x10000 + g * 0x100 + b
}

proof fn lemma_channels_bits(c: usize)
    ensures
        (c >> 16usize) & 0xffusize == (c / 0x10000) % 0x100,
        (c >> 8usize) & 0xffusize == (c / 0x100) % 0x100,
        c & 0xffusize == c % 0x100,
{
    assert((c >> 16usize) & 0xffusize == (c / 0x10000) % 0x100) by (bit_vector);
    assert((c >> 8usize) & 0xffusize == (c / 0x100) % 0x100) by (bit_vector);
    assert(c & 0xffusize == c % 0x100) by (bit_vector);
}

proof fn lemma_pack_bits(r: usize, g: usize, b: usize)
    requires
        r < 256,
        g < 256,
        b < 256,
    ensures
        (r << 16usize) | (g << 8usize) | b == r * 0x10000 + g * 0x100 + b,
{
    assert((r << 16usize) | (g << 8usize) | b == r * 0x10000 + g * 0x100 + b) by (bit_vector)
        requires
            r < 256,
            g < 256,
            b < 256,
    ;
}

/// Reading the channels back out of a packed value gives the channels put in.
pub proof fn lemma_unpack_pack(r: int, g: int, b: int)
    requires
        0 <= r < 256,
        0 <= g < 256,
        0 <= b < 256,
    ensures
        red(pack(r, g, b)) == r,
        green(pack(r, g, b)) == g,
        blue(pack(r, g, b)) == b,
        0 <= pack(r, g, b) < 0x1000000,
{
    assert(red(pack(r, g, b)) == r) by (nonlinear_arith)
        requires
            0 <= r < 256,
            0 <= g < 256,
            0 <= b < 256,
    ;
    assert(green(pack(r, g, b)) == g) by (nonlinear_arith)
        requires
            0 <= r < 256,
            0 <= g < 256,
            0 <= b < 256,
    ;
    assert(blue(pack(r, g, b)) == b) by (nonlinear_arith)
        requires
            0 <= r < 256,
            0 <= g < 256,
            0 <= b < 256,
    ;
}

/// The named colors of the palette used to describe scenes.
#[derive(Clone, Copy, Debug, PartialEq, Eq, Structural)]
pub enum Color {
    // Reds
    Salmon,
    Crimson,
    Red,
    DarkRed,

    // Pinks
    Pink,
    DeepPink,

    // Oranges
    Coral,
    DarkOrange,
    Orange,

    // Yellows
    Gold,
    Yellow,
    LightYellow,

    // Purples
    Lavender,
    Plum,
    Violet,
    Magenta,
    DarkViolet,
    Purple,
    Indigo,

    // Greens
    Lime,
    LimeGreen,
    SeaGreen,
    Green,
    DarkGreen,
    Olive,
    Teal,

    // Blues
    Cyan,
    LightCyan,
    Turquoise,
    SteelBlue,
    LightBlue,
    SkyBlue,
    DeepSkyBlue,
    DodgerBlue,
    CornflowerBlue,
    RoyalBlue,
    Blue,
    DarkBlue,
    Navy,

    // Browns
    Cornsilk,
    Wheat,
    Tan,
    Goldenrod,
    SaddleBrown,
    Sienna,
    Brown,
    Maroon,

    // Whites/Grays
    White,
    GhostWhite,
    WhiteSmoke,
    Ivory,
    LightGray,
    Gray,
    SlateGray,
    Black,
}

impl Color {
    /// The packed `0xRRGGBB` value of a named color.
    pub open spec fn spec_value(self) -> usize {
        match self {
            Color::Salmon => 0xFA8072,
            Color::Crimson => 0xDC143C,
            Color::Red => 0xFF0000,
            Color::DarkRed => 0x8B0000,
            Color::Pink => 0xFFC0CB,
            Color::DeepPink => 0xFF1493,
            Color::Coral => 0xFF7F50,
            Color::DarkOrange => 0xFF8C00,
            Color::Orange => 0xFFA500,
            Color::Gold => 0xFFD700,
            Color::Yellow => 0xFFFF00,
            Color::LightYellow => 0xFFFFE0,
            Color::Lavender => 0xE6E6FA,
            Color::Plum => 0xDDA0DD,
            Color::Violet => 0xEE82EE,
            Color::Magenta => 0xFF00FF,
            Color::DarkViolet => 0x9400D3,
            Color::Purple => 0x800080,
            Color::Indigo => 0x4B0082,
            Color::Lime => 0x00FF00,
            Color::LimeGreen => 0x32CD32,
            Color::SeaGreen => 0x2E8B57,
            Color::Green => 0x008000,
            Color::DarkGreen => 0x006400,
            Color::Olive => 0x808000,
            Color::Teal => 0x008080,
            Color::Cyan => 0x00FFFF,
            Color::LightCyan => 0xE0FFFF,
            Color::Turquoise => 0x40E0D0,
            Color::SteelBlue => 0x4682B4,
            Color::LightBlue => 0xADD8E6,
            Color::SkyBlue => 0x87CEEB,
            Color::DeepSkyBlue => 0x00BFFF,
            Color::DodgerBlue => 0x1E90FF,
            Color::CornflowerBlue => 0x6495ED,
            Color::RoyalBlue => 0x4169E1,
            Color::Blue => 0x0000FF,
            Color::DarkBlue => 0x00008B,
            Color::Navy => 0x000080,
            Color::Cornsilk => 0xFFF8DC,
            Color::Wheat => 0xF5DEB3,
            Color::Tan => 0xD2B48C,
            Color::Goldenrod => 0xDAA520,
            Color::SaddleBrown => 0x8B4513,
            Color::Sienna => 0xA0522D,
            Color::Brown => 0xA52A2A,
            Color::Maroon => 0x800000,
            Color::White => 0xFFFFFF,
            Color::GhostWhite => 0xF8F8FF,
            Color::WhiteSmoke => 0xF5F5F5,
            Color::Ivory => 0xFFFFF0,
            Color::LightGray => 0xD3D3D3,
            Color::Gray => 0x808080,
            Color::SlateGray => 0x708090,
            Color::Black => 0x000000,
        }
    }

    /// The packed `0xRRGGBB` value of this color.
    #[verifier::when_used_as_spec(spec_value)]
    pub fn value(self) -> (v: usize)
        ensures
            v == self.spec_value(),
            v < 0x1000000,
    {
        match self {
            Color::Salmon => 0xFA8072,
            Color::Crimson => 0xDC143C,
            Color::Red => 0xFF0000,
            Color::DarkRed => 0x8B0000,
            Color::Pink => 0xFFC0CB,
            Color::DeepPink => 0xFF1493,
            Color::Coral => 0xFF7F50,
            Color::DarkOrange => 0xFF8C00,
            Color::Orange => 0xFFA500,
            Color::Gold => 0xFFD700,
            Color::Yellow => 0xFFFF00,
            Color::LightYellow => 0xFFFFE0,
            Color::Lavender => 0xE6E6FA,
            Color::Plum => 0xDDA0DD,
            Color::Violet => 0xEE82EE,
            Color::Magenta => 0xFF00FF,
            Color::DarkViolet => 0x9400D3,
            Color::Purple => 0x800080,
            Color::Indigo => 0x4B0082,
            Color::Lime => 0x00FF00,
            Color::LimeGreen => 0x32CD32,
            Color::SeaGreen => 0x2E8B57,
            Color::Green => 0x008000,
            Color::DarkGreen => 0x006400,
            Color::Olive => 0x808000,
            Color::Teal => 0x008080,
            Color::Cyan => 0x00FFFF,
            Color::LightCyan => 0xE0FFFF,
            Color::Turquoise => 0x40E0D0,
            Color::SteelBlue => 0x4682B4,
            Color::LightBlue => 0xADD8E6,
            Color::SkyBlue => 0x87CEEB,
            Color::DeepSkyBlue => 0x00BFFF,
            Color::DodgerBlue => 0x1E90FF,
            Color::CornflowerBlue => 0x6495ED,
            Color::RoyalBlue => 0x4169E1,
            Color::Blue => 0x0000FF,
            Color::DarkBlue => 0x00008B,
            Color::Navy => 0x000080,
            Color::Cornsilk => 0xFFF8DC,
            Color::Wheat => 0xF5DEB3,
            Color::Tan => 0xD2B48C,
            Color::Goldenrod => 0xDAA520,
            Color::SaddleBrown => 0x8B4513,
            Color::Sienna => 0xA0522D,
            Color::Brown => 0xA52A2A,
            Color::Maroon => 0x800000,
            Color::White => 0xFFFFFF,
            Color::GhostWhite => 0xF8F8FF,
            Color::WhiteSmoke => 0xF5F5F5,
            Color::Ivory => 0xFFFFF0,
            Color::LightGray => 0xD3D3D3,
            Color::Gray => 0x808080,
            Color::SlateGray => 0x708090,
            Color::Black => 0x000000,
        }
    }

    /// Red channel of a packed color.
    pub fn r(c: usize) -> (r: usize)
        ensures
            r == red(c as int),
    {
        proof {
            lemma_channels_bits(c);
        }
        (c >> 16) & 0xFF
    }

    /// Green channel of a packed color.
    pub fn g(c: usize) -> (g: usize)
        ensures
            g == green(c as int),
    {
        proof {
            lemma_channels_bits(c);
        }
        (c >> 8) & 0xFF
    }

    /// Blue channel of a packed color.
    pub fn b(c: usize) -> (b: usize)
        ensures
            b == blue(c as int),
    {
        proof {
            lemma_channels_bits(c);
        }
        c & 0xFF
    }

    /// Packs three channel levels, each capped at 255.
    pub fn rgb(r: usize, g: usize, b: usize) -> (c: usize)
        ensures
            c == pack(saturate(r as int), saturate(g as int), saturate(b as int)),
            c < 0x1000000,
    {
        let r: usize = if r > 255 { 255 } else { r };
        let g: usize = if g > 255 { 255 } else { g };
        let b: usize = if b > 255 { 255 } else { b };
        proof {
            lemma_pack_bits(r, g, b);
            lemma_unpack_pack(r as int, g as int, b as int);
        }
        (r << 16) | (g << 8) | b
    }

    /// Channel-wise sum of two packed colors, each channel capped at 255.
    pub fn add(a: usize, b: usize) -> (c: usize)
        ensures
            c == pack(
                saturate(red(a as int) + red(b as int)),
                saturate(green(a as int) + green(b as int)),
                saturate(blue(a as int) + blue(b as int)),
            ),
            c < 0x1000000,
    {
        let r: usize = Color::r(a) + Color::r(b);
        let g: usize = Color::g(a) + Color::g(b);
        let bl: usize = Color::b(a) + Color::b(b);
        Color::rgb(r, g, bl)
    }
}

} // verus!
