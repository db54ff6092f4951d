//! Colour resolution for terminal cells.
//!
//! Cells reference colours symbolically: a named ANSI colour, an index into
//! the 256-colour table, or an explicit RGB triple. Resolution turns any of
//! these into a concrete `Color` with 8-bit channels. The 256-colour table is
//! the standard layout: 16 named entries, a 6x6x6 colour cube at indices
//! 16..=231, and a 24-step grayscale ramp at indices 232..=255.

use vstd::prelude::*;

verus! {

/// A concrete colour with 8-bit channels. A renderer that wants normalised
/// floating-point channels divides each by 255.
#[derive(Debug, Clone, Copy, PartialEq, Eq, Structural)]
pub struct Color {
    pub r: u8,
    pub g: u8,
    pub b: u8,
}

/// A named ANSI colour, as a terminal cell refers to one.
///
/// `Foreground`, `Background` and `Cursor` resolve to the caller-supplied
/// defaults rather than to fixed table entries. `Other` stands for the
/// remaining special names (dim and bright-foreground variants), which
/// resolve to the default foreground.
#[derive(Debug, Clone, Copy, PartialEq, Eq, Structural)]
pub enum NamedColor {
    Black,
    Red,
    Green,
    Yellow,
    Blue,
    Magenta,
    Cyan,
    White,
    BrightBlack,
    BrightRed,
    BrightGreen,
    BrightYellow,
    BrightBlue,
    BrightMagenta,
    BrightCyan,
    BrightWhite,
    Foreground,
    Background,
    Cursor,
    Other,
}

/// A cell's colour reference: named, indexed into the 256-colour table, or
/// an explicit RGB value.
#[derive(Debug, Clone, Copy, PartialEq, Eq, Structural)]
pub enum AnsiColor {
    Named(NamedColor),
    Spec(Color),
    Indexed(u8),
}

/// The 16 named palette entries (8 standard + 8 bright variants).
pub open spec fn spec_palette16(i: int) -> Color {
    if i == 0 {
        Color { r: 0, g: 0, b: 0 }
    } else if i == 1 {
        Color { r: 205, g: 0, b: 0 }
    } else if i == 2 {
        Color { r: 0, g: 205, b: 0 }
    } else if i == 3 {
        Color { r: 205, g: 205, b: 0 }
    } else if i == 4 {
        Color { r: 0, g: 0, b: 238 }
    } else if i == 5 {
        Color { r: 205, g: 0, b: 205 }
    } else if i == 6 {
        Color { r: 0, g: 205, b: 205 }
    } else if i == 7 {
        Color { r: 229, g: 229, b: 229 }
    } else if i == 8 {
        Color { r: 127, g: 127, b: 127 }
    } else if i == 9 {
        Color { r: 255, g: 0, b: 0 }
    } else if i == 10 {
        Color { r: 0, g: 255, b: 0 }
    } else if i == 11 {
        Color { r: 255, g: 255, b: 0 }
    } else if i == 12 {
        Color { r: 92, g: 92, b: 255 }
    } else if i == 13 {
        Color { r: 255, g: 0, b: 255 }
    } else if i == 14 {
        Color { r: 0, g: 255, b: 255 }
    } else {
        Color { r: 255, g: 255, b: 255 }
    }
}

/// One channel of the 6x6x6 colour cube: 0 for channel index 0, else
/// `55 + 40 * index`.
pub open spec fn spec_cube_channel(c: int) -> int {
    if c == 0 {
        0
    } else {
        55 + 40 * c
    }
}

/// Entry `i` of the 256-colour table.
pub open spec fn spec_palette256(i: int) -> Color {
    if i < 16 {
        spec_palette16(i)
    } else if i < 232 {
        let k = i - 16;
        Color {
            r: spec_cube_channel((k / 36) % 6) as u8,
            g: spec_cube_channel((k / 6) % 6) as u8,
            b: spec_cube_channel(k % 6) as u8,
        }
    } else {
        let v = 8 + 10 * (i - 232);
        Color { r: v as u8, g: v as u8, b: v as u8 }
    }
}

/// Resolution of a named colour against the caller-supplied defaults.
pub open spec fn spec_named_color(n: NamedColor, default_fg: Color, default_bg: Color) -> Color {
    match n {
        NamedColor::Foreground => default_fg,
        NamedColor::Background => default_bg,
        NamedColor::Cursor => default_fg,
        NamedColor::Black => spec_palette16(0),
        NamedColor::Red => spec_palette16(1),
        NamedColor::Green => spec_palette16(2),
        NamedColor::Yellow => spec_palette16(3),
        NamedColor::Blue => spec_palette16(4),
        NamedColor::Magenta => spec_palette16(5),
        NamedColor::Cyan => spec_palette16(6),
        NamedColor::White => spec_palette16(7),
        NamedColor::BrightBlack => spec_palette16(8),
        NamedColor::BrightRed => spec_palette16(9),
        NamedColor::BrightGreen => spec_palette16(10),
        NamedColor::BrightYellow => spec_palette16(11),
        NamedColor::BrightBlue => spec_palette16(12),
        NamedColor::BrightMagenta => spec_palette16(13),
        NamedColor::BrightCyan => spec_palette16(14),
        NamedColor::BrightWhite => spec_palette16(15),
        NamedColor::Other => default_fg,
    }
}

/// Resolution of any cell colour reference against the defaults.
pub open spec fn spec_resolve_color(c: AnsiColor, default_fg: Color, default_bg: Color) -> Color {
    match c {
        AnsiColor::Named(n) => spec_named_color(n, default_fg, default_bg),
        AnsiColor::Spec(rgb) => rgb,
        AnsiColor::Indexed(i) => spec_palette256(i as int),
    }
}

/// Entry `idx` of the 256-colour table: the 16 named entries, then the
/// 6x6x6 cube, then the grayscale ramp.
pub fn palette256(idx: u8) -> (c: Color)
    ensures
        c == spec_palette256(idx as int),
{
    if idx < 16 {
        palette16(idx)
    } else if idx < 232 {
        let k: usize = (idx - 16) as usize;
        let r: usize = (k / 36) % 6;
        let g: usize = (k / 6) % 6;
        let b: usize = k % 6;
        Color { r: cube_channel(r), g: cube_channel(g), b: cube_channel(b) }
    } else {
        let step: usize = (idx - 232) as usize;
        let v: u8 = (8 + 10 * step) as u8;
        Color { r: v, g: v, b: v }
    }
}

/// One of the 16 named palette entries.
fn palette16(idx: u8) -> (c: Color)
    requires
        idx < 16,
    ensures
        c == spec_palette16(idx as int),
{
    if idx == 0 {
        Color { r: 0, g: 0, b: 0 }
    } else if idx == 1 {
        Color { r: 205, g: 0, b: 0 }
    } else if idx == 2 {
        Color { r: 0, g: 205, b: 0 }
    } else if idx == 3 {
        Color { r: 205, g: 205, b: 0 }
    } else if idx == 4 {
        Color { r: 0, g: 0, b: 238 }
    } else if idx == 5 {
        Color { r: 205, g: 0, b: 205 }
    } else if idx == 6 {
        Color { r: 0, g: 205, b: 205 }
    } else if idx == 7 {
        Color { r: 229, g: 229, b: 229 }
    } else if idx == 8 {
        Color { r: 127, g: 127, b: 127 }
    } else if idx == 9 {
        Color { r: 255, g: 0, b: 0 }
    } else if idx == 10 {
        Color { r: 0, g: 255, b: 0 }
    } else if idx == 11 {
        Color { r: 255, g: 255, b: 0 }
    } else if idx == 12 {
        Color { r: 92, g: 92, b: 255 }
    } else if idx == 13 {
        Color { r: 255, g: 0, b: 255 }
    } else if idx == 14 {
        Color { r: 0, g: 255, b: 255 }
    } else {
        Color { r: 255, g: 255, b: 255 }
    }
}

/// One channel of the colour cube for a channel index below 6.
fn cube_channel(c: usize) -> (v: u8)
    requires
        c < 6,
    ensures
        v as int == spec_cube_channel(c as int),
{
    if c == 0 {
        0
    } else {
        (55 + 40 * c) as u8
    }
}

/// Convert a cell colour reference to a concrete colour.
///
/// `default_fg` and `default_bg` are used when the colour is
/// `Named(Foreground)`, `Named(Background)` or `Named(Cursor)`.
pub fn ansi_to_color(color: &AnsiColor, default_fg: &Color, default_bg: &Color) -> (c: Color)
    ensures
        c == spec_resolve_color(*color, *default_fg, *default_bg),
{
    match color {
        AnsiColor::Named(named) => named_to_color(*named, default_fg, default_bg),
        AnsiColor::Spec(rgb) => *rgb,
        AnsiColor::Indexed(idx) => palette256(*idx),
    }
}

/// Convert a named ANSI colour to a concrete colour.
fn named_to_color(named: NamedColor, default_fg: &Color, default_bg: &Color) -> (c: Color)
    ensures
        c == spec_named_color(named, *default_fg, *default_bg),
{
    match named {
        NamedColor::Foreground => *default_fg,
        NamedColor::Background => *default_bg,
        NamedColor::Cursor => *default_fg,
        NamedColor::Black => palette16(0),
        NamedColor::Red => palette16(1),
        NamedColor::Green => palette16(2),
        NamedColor::Yellow => palette16(3),
        NamedColor::Blue => palette16(4),
        NamedColor::Magenta => palette16(5),
        NamedColor::Cyan => palette16(6),
        NamedColor::White => palette16(7),
        NamedColor::BrightBlack => palette16(8),
        NamedColor::BrightRed => palette16(9),
        NamedColor::BrightGreen => palette16(10),
        NamedColor::BrightYellow => palette16(11),
        NamedColor::BrightBlue => palette16(12),
        NamedColor::BrightMagenta => palette16(13),
        NamedColor::BrightCyan => palette16(14),
        NamedColor::BrightWhite => palette16(15),
        NamedColor::Other => *default_fg,
    }
}

/// The numeric code a VT engine assigns to each named colour: the 16
/// palette entries in order, then 256 for the default foreground, 257 for
/// the default background and 258 for the cursor colour. Every other code
/// maps to `Other`.
pub open spec fn spec_named_from_code(code: int) -> NamedColor {
    if code == 0 {
        NamedColor::Black
    } else if code == 1 {
        NamedColor::Red
    } else if code == 2 {
        NamedColor::Green
    } else if code == 3 {
        NamedColor::Yellow
    } else if code == 4 {
        NamedColor::Blue
    } else if code == 5 {
        NamedColor::Magenta
    } else if code == 6 {
        NamedColor::Cyan
    } else if code == 7 {
        NamedColor::White
    } else if code == 8 {
        NamedColor::BrightBlack
    } else if code == 9 {
        NamedColor::BrightRed
    } else if code == 10 {
        NamedColor::BrightGreen
    } else if code == 11 {
        NamedColor::BrightYellow
    } else if code == 12 {
        NamedColor::BrightBlue
    } else if code == 13 {
        NamedColor::BrightMagenta
    } else if code == 14 {
        NamedColor::BrightCyan
    } else if code == 15 {
        NamedColor::BrightWhite
    } else if code == 256 {
        NamedColor::Foreground
    } else if code == 257 {
        NamedColor::Background
    } else if code == 258 {
        NamedColor::Cursor
    } else {
        NamedColor::Other
    }
}

/// Map a VT engine's numeric colour code to the named colour it stands for.
pub fn named_from_code(code: usize) -> (n: NamedColor)
    ensures
        n == spec_named_from_code(code as int),
{
    if code == 0 {
        NamedColor::Black
    } else if code == 1 {
        NamedColor::Red
    } else if code == 2 {
        NamedColor::Green
    } else if code == 3 {
        NamedColor::Yellow
    } else if code == 4 {
        NamedColor::Blue
    } else if code == 5 {
        NamedColor::Magenta
    } else if code == 6 {
        NamedColor::Cyan
    } else if code == 7 {
        NamedColor::White
    } else if code == 8 {
        NamedColor::BrightBlack
    } else if code == 9 {
        NamedColor::BrightRed
    } else if code == 10 {
        NamedColor::BrightGreen
    } else if code == 11 {
        NamedColor::BrightYellow
    } else if code == 12 {
        NamedColor::BrightBlue
    } else if code == 13 {
        NamedColor::BrightMagenta
    } else if code == 14 {
        NamedColor::BrightCyan
    } else if code == 15 {
        NamedColor::BrightWhite
    } else if code == 256 {
        NamedColor::Foreground
    } else if code == 257 {
        NamedColor::Background
    } else if code == 258 {
        NamedColor::Cursor
    } else {
        NamedColor::Other
    }
}

} // verus!
