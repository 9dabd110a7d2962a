//! Which palette entry or RGB value a terminal color stands for.
use vstd::prelude::*;

verus! {

/// A named terminal color.
#[derive(Clone, Copy, Debug, PartialEq, Eq, Structural)]
pub enum NamedColor {
    Black,
    Red,
    Green,
    Yellow,
    Blue,
    Magenta,
    Cyan,
    White,
    BrightBlack,
    BrightRed,
    BrightGreen,
    BrightYellow,
    BrightBlue,
    BrightMagenta,
    BrightCyan,
    BrightWhite,
    Foreground,
    Background,
    Cursor,
    DimBlack,
    DimRed,
    DimGreen,
    DimYellow,
    DimBlue,
    DimMagenta,
    DimCyan,
    DimWhite,
    BrightForeground,
    DimForeground,
}

/// A color as a terminal cell gives it.
#[derive(Clone, Copy, Debug, PartialEq, Eq, Structural)]
pub enum TermColor {
    Named(NamedColor),
    /// A position in the 256-color palette.
    Indexed(u8),
    /// A direct RGB value.
    Spec(u8, u8, u8),
}

/// What a color is drawn with.
#[derive(Clone, Copy, Debug, PartialEq, Eq, Structural)]
pub enum ColorChoice {
    /// Entry 0-15 of the 16-color theme palette.
    Palette(u8),
    /// Entry 0-7 of the palette at reduced lightness.
    DimPalette(u8),
    /// The terminal's text color.
    Foreground,
    /// The terminal's text color at reduced lightness.
    DimForeground,
    /// The terminal's background color.
    Background,
    /// The cursor color.
    Cursor,
    /// An RGB value.
    Rgb(u8, u8, u8),
}

/// The palette entry of a named color: standard colors 0-7, bright 8-15.
pub open spec fn named_choice(n: NamedColor) -> ColorChoice {
    match n {
        NamedColor::Black => ColorChoice::Palette(0),
        NamedColor::Red => ColorChoice::Palette(1),
        NamedColor::Green => ColorChoice::Palette(2),
        NamedColor::Yellow => ColorChoice::Palette(3),
        NamedColor::Blue => ColorChoice::Palette(4),
        NamedColor::Magenta => ColorChoice::Palette(5),
        NamedColor::Cyan => ColorChoice::Palette(6),
        NamedColor::White => ColorChoice::Palette(7),
        NamedColor::BrightBlack => ColorChoice::Palette(8),
        NamedColor::BrightRed => ColorChoice::Palette(9),
        NamedColor::BrightGreen => ColorChoice::Palette(10),
        NamedColor::BrightYellow => ColorChoice::Palette(11),
        NamedColor::BrightBlue => ColorChoice::Palette(12),
        NamedColor::BrightMagenta => ColorChoice::Palette(13),
        NamedColor::BrightCyan => ColorChoice::Palette(14),
        NamedColor::BrightWhite => ColorChoice::Palette(15),
        NamedColor::DimBlack => ColorChoice::DimPalette(0),
        NamedColor::DimRed => ColorChoice::DimPalette(1),
        NamedColor::DimGreen => ColorChoice::DimPalette(2),
        NamedColor::DimYellow => ColorChoice::DimPalette(3),
        NamedColor::DimBlue => ColorChoice::DimPalette(4),
        NamedColor::DimMagenta => ColorChoice::DimPalette(5),
        NamedColor::DimCyan => ColorChoice::DimPalette(6),
        NamedColor::DimWhite => ColorChoice::DimPalette(7),
        NamedColor::Foreground | NamedColor::BrightForeground => ColorChoice::Foreground,
        NamedColor::Background => ColorChoice::Background,
        NamedColor::Cursor => ColorChoice::Cursor,
        NamedColor::DimForeground => ColorChoice::DimForeground,
    }
}

/// The intensity of level `c` (0-5) of the 6x6x6 color cube.
pub open spec fn cube_level(c: int) -> int {
    if c == 0 {
        0
    } else {
        55 + 40 * c
    }
}

/// The color of palette position `i`: the 16 theme colors, then the
/// 6x6x6 cube (16-231), then a 24-step gray ramp (232-255).
pub open spec fn indexed_choice(i: u8) -> ColorChoice {
    if i < 16 {
        ColorChoice::Palette(i)
    } else if i < 232 {
        let k = i - 16;
        ColorChoice::Rgb(cube_level(k / 36) as u8, cube_level((k % 36) / 6) as u8, cube_level(k % 6) as u8)
    } else {
        let v = (8 + 10 * (i - 232)) as u8;
        ColorChoice::Rgb(v, v, v)
    }
}

/// What a terminal color is drawn with.
pub open spec fn color_choice(c: TermColor) -> ColorChoice {
    match c {
        TermColor::Named(n) => named_choice(n),
        TermColor::Indexed(i) => indexed_choice(i),
        TermColor::Spec(r, g, b) => ColorChoice::Rgb(r, g, b),
    }
}

fn cube_component(c: u8) -> (r: u8)
    requires
        c <= 5,
    ensures
        r == cube_level(c as int),
{
    if c == 0 {
        0
    } else {
        55 + 40 * c
    }
}

/// Decides what a terminal color is drawn with.
pub fn resolve_color(c: TermColor) -> (r: ColorChoice)
    ensures
        r == color_choice(c),
{
    match c {
        TermColor::Named(n) => resolve_named(n),
        TermColor::Indexed(i) => resolve_indexed(i),
        TermColor::Spec(r, g, b) => ColorChoice::Rgb(r, g, b),
    }
}

/// The palette entry of a named color.
pub fn resolve_named(n: NamedColor) -> (r: ColorChoice)
    ensures
        r == named_choice(n),
{
    match n {
        NamedColor::Black => ColorChoice::Palette(0),
        NamedColor::Red => ColorChoice::Palette(1),
        NamedColor::Green => ColorChoice::Palette(2),
        NamedColor::Yellow => ColorChoice::Palette(3),
        NamedColor::Blue => ColorChoice::Palette(4),
        NamedColor::Magenta => ColorChoice::Palette(5),
        NamedColor::Cyan => ColorChoice::Palette(6),
        NamedColor::White => ColorChoice::Palette(7),
        NamedColor::BrightBlack => ColorChoice::Palette(8),
        NamedColor::BrightRed => ColorChoice::Palette(9),
        NamedColor::BrightGreen => ColorChoice::Palette(10),
        NamedColor::BrightYellow => ColorChoice::Palette(11),
        NamedColor::BrightBlue => ColorChoice::Palette(12),
        NamedColor::BrightMagenta => ColorChoice::Palette(13),
        NamedColor::BrightCyan => ColorChoice::Palette(14),
        NamedColor::BrightWhite => ColorChoice::Palette(15),
        NamedColor::DimBlack => ColorChoice::DimPalette(0),
        NamedColor::DimRed => ColorChoice::DimPalette(1),
        NamedColor::DimGreen => ColorChoice::DimPalette(2),
        NamedColor::DimYellow => ColorChoice::DimPalette(3),
        NamedColor::DimBlue => ColorChoice::DimPalette(4),
        NamedColor::DimMagenta => ColorChoice::DimPalette(5),
        NamedColor::DimCyan => ColorChoice::DimPalette(6),
        NamedColor::DimWhite => ColorChoice::DimPalette(7),
        NamedColor::Foreground | NamedColor::BrightForeground => ColorChoice::Foreground,
        NamedColor::Background => ColorChoice::Background,
        NamedColor::Cursor => ColorChoice::Cursor,
        NamedColor::DimForeground => ColorChoice::DimForeground,
    }
}

/// The color of a palette position.
pub fn resolve_indexed(i: u8) -> (r: ColorChoice)
    ensures
        r == indexed_choice(i),
{
    if i < 16 {
        ColorChoice::Palette(i)
    } else if i < 232 {
        let k = i - 16;
        ColorChoice::Rgb(cube_component(k / 36), cube_component((k % 36) / 6), cube_component(k % 6))
    } else {
        let v: u8 = 8 + 10 * (i - 232);
        ColorChoice::Rgb(v, v, v)
    }
}

/// The standard and bright named colors in palette order.
pub open spec fn palette_name(i: int) -> NamedColor {
    if i == 0 { NamedColor::Black }
    else if i == 1 { NamedColor::Red }
    else if i == 2 { NamedColor::Green }
    else if i == 3 { NamedColor::Yellow }
    else if i == 4 { NamedColor::Blue }
    else if i == 5 { NamedColor::Magenta }
    else if i == 6 { NamedColor::Cyan }
    else if i == 7 { NamedColor::White }
    else if i == 8 { NamedColor::BrightBlack }
    else if i == 9 { NamedColor::BrightRed }
    else if i == 10 { NamedColor::BrightGreen }
    else if i == 11 { NamedColor::BrightYellow }
    else if i == 12 { NamedColor::BrightBlue }
    else if i == 13 { NamedColor::BrightMagenta }
    else if i == 14 { NamedColor::BrightCyan }
    else { NamedColor::BrightWhite }
}

/// Palette positions 0-15 are drawn exactly as the named colors they
/// stand for.
pub proof fn lemma_indexed_matches_named(i: u8)
    requires
        i < 16,
    ensures
        color_choice(TermColor::Indexed(i)) == color_choice(TermColor::Named(palette_name(i as int))),
{
}

/// The ramp positions 232-255 are grays running from 8 to 238 in steps
/// of 10.
pub proof fn lemma_gray_ramp(i: u8)
    requires
        232 <= i,
    ensures
        indexed_choice(i) matches ColorChoice::Rgb(r, g, b) && r == g && g == b && r == 8 + 10 * (i - 232)
            && 8 <= r <= 238,
{
}

/// The undimmed color a choice is drawn from: a dim palette entry is its
/// palette entry dimmed, and the dim text color the text color dimmed.
/// Palette entries, the text, background and cursor colors, and RGB values
/// get distinct numbers.
pub open spec fn base_key(c: ColorChoice) -> int {
    match c {
        ColorChoice::Palette(i) => 0x1_0000_0000 + i,
        ColorChoice::DimPalette(i) => 0x1_0000_0000 + i,
        ColorChoice::Foreground => 0x3_0000_0000,
        ColorChoice::DimForeground => 0x3_0000_0000,
        ColorChoice::Background => 0x5_0000_0000,
        ColorChoice::Cursor => 0x6_0000_0000,
        ColorChoice::Rgb(r, g, b) => 0x7_0000_0000 + r * 0x10000 + g * 0x100 + b,
    }
}

/// How many times a choice is dimmed when drawn (each time at 67%
/// lightness): once for a dim palette entry or the dim text color, once
/// more for a dim cell. Black has no lightness to lose, so it is never
/// dimmed.
pub open spec fn dim_count(c: ColorChoice, dim: bool) -> int {
    if c == ColorChoice::Rgb(0, 0, 0) {
        0
    } else {
        (if c is DimPalette || c is DimForeground { 1int } else { 0 }) + (if dim { 1int } else { 0 })
    }
}

/// A key naming the color a choice is drawn as, dimmed by a cell or not:
/// the undimmed color in the low 40 bits and the number of dimmings above.
pub open spec fn color_key(c: ColorChoice, dim: bool) -> u64 {
    (base_key(c) + 0x100_0000_0000 * dim_count(c, dim)) as u64
}

/// Two choices get the same key exactly when they are drawn from the same
/// undimmed color, dimmed the same number of times.
pub proof fn lemma_color_key_same_drawing(c1: ColorChoice, d1: bool, c2: ColorChoice, d2: bool)
    ensures
        (color_key(c1, d1) == color_key(c2, d2)) == (base_key(c1) == base_key(c2) && dim_count(c1, d1)
            == dim_count(c2, d2)),
{
    let b1 = base_key(c1);
    let b2 = base_key(c2);
    let n1 = dim_count(c1, d1);
    let n2 = dim_count(c2, d2);
    assert(0 <= b1 < 0x100_0000_0000 && 0 <= b2 < 0x100_0000_0000);
    assert(0 <= n1 <= 2 && 0 <= n2 <= 2);
    assert(b1 + 0x100_0000_0000 * n1 < 0x1_0000_0000_0000_0000);
    assert(b2 + 0x100_0000_0000 * n2 < 0x1_0000_0000_0000_0000);
    if b1 + 0x100_0000_0000 * n1 == b2 + 0x100_0000_0000 * n2 {
        if n1 < n2 {
            assert(b1 == b2 + 0x100_0000_0000 * (n2 - n1));
        } else if n2 < n1 {
            assert(b2 == b1 + 0x100_0000_0000 * (n1 - n2));
        }
    }
}

/// The key of a drawn color.
pub fn choice_key(c: ColorChoice, dim: bool) -> (r: u64)
    ensures
        r == color_key(c, dim),
{
    let base: u64 = match c {
        ColorChoice::Palette(i) => 0x1_0000_0000u64 + i as u64,
        ColorChoice::DimPalette(i) => 0x1_0000_0000u64 + i as u64,
        ColorChoice::Foreground => 0x3_0000_0000u64,
        ColorChoice::DimForeground => 0x3_0000_0000u64,
        ColorChoice::Background => 0x5_0000_0000u64,
        ColorChoice::Cursor => 0x6_0000_0000u64,
        ColorChoice::Rgb(r, g, b) => 0x7_0000_0000u64 + (r as u64) * 0x10000 + (g as u64) * 0x100 + b as u64,
    };
    let black = match c {
        ColorChoice::Rgb(r, g, b) => r == 0 && g == 0 && b == 0,
        _ => false,
    };
    let dims: u64 = if black {
        0
    } else {
        let own: u64 = match c {
            ColorChoice::DimPalette(_) | ColorChoice::DimForeground => 1,
            _ => 0,
        };
        own + if dim { 1u64 } else { 0u64 }
    };
    base + 0x100_0000_0000u64 * dims
}

/// The text and background colors a cell is drawn with: swapped when the
/// cell is inverse; the text dimmed when the cell is dim; the text in the
/// background color when it is hidden.
pub open spec fn cell_colors(fg: TermColor, bg: TermColor, inverse: bool, dim: bool, hidden: bool) -> (u64, u64) {
    let text = if inverse { bg } else { fg };
    let back = if inverse { fg } else { bg };
    let back_key = color_key(color_choice(back), false);
    let text_key = color_key(color_choice(text), dim);
    (if hidden { back_key } else { text_key }, back_key)
}

/// Resolves the colors a cell is drawn with (see [`cell_colors`]).
pub fn resolve_cell_colors(fg: TermColor, bg: TermColor, inverse: bool, dim: bool, hidden: bool) -> (r: (u64, u64))
    ensures
        r == cell_colors(fg, bg, inverse, dim, hidden),
{
    let text = if inverse { bg } else { fg };
    let back = if inverse { fg } else { bg };
    let back_key = choice_key(resolve_color(back), false);
    let text_key = choice_key(resolve_color(text), dim);
    (if hidden { back_key } else { text_key }, back_key)
}

/// The 6x6x6 cube: palette position `16 + 36 r + 6 g + b` (each of `r`,
/// `g`, `b` below 6) is the RGB color whose red, green and blue intensities
/// are the cube levels of `r`, `g` and `b` (0, then 95, 135, 175, 215, 255).
pub proof fn lemma_cube_position(r: int, g: int, b: int)
    requires
        0 <= r < 6,
        0 <= g < 6,
        0 <= b < 6,
    ensures
        indexed_choice((16 + 36 * r + 6 * g + b) as u8) == ColorChoice::Rgb(
            cube_level(r) as u8,
            cube_level(g) as u8,
            cube_level(b) as u8,
        ),
        cube_level(0) == 0,
        cube_level(1) == 95 && cube_level(5) == 255,
{
    let i: int = 16 + 36 * r + 6 * g + b;
    let k: int = i - 16;
    assert(16 <= i < 232);
    assert(k / 36 == r && k % 36 == 6 * g + b) by (nonlinear_arith)
        requires
            k == 36 * r + 6 * g + b,
            0 <= r < 6,
            0 <= g < 6,
            0 <= b < 6,
    ;
    assert((6 * g + b) / 6 == g && (6 * g + b) % 6 == b && k % 6 == b) by (nonlinear_arith)
        requires
            k == 36 * r + 6 * g + b,
            0 <= g < 6,
            0 <= b < 6,
            0 <= r < 6,
    ;
    let iu = i as u8;
    assert(iu == i);
    assert(iu - 16 == k);
}

} // verus!
