//! Flat colours: an 8-bit RGB triple and a table of named colours.

use vstd::prelude::*;

verus! {

/// An 8-bit RGB triple, red first.
#[derive(Clone, Copy, Debug, PartialEq, Eq, Structural)]
pub struct ColorType {
    pub r: u8,
    pub g: u8,
    pub b: u8,
}

/// The colour that every pixel has before anything is drawn on it.
pub open spec fn background() -> ColorType {
    ColorType { r: 0, g: 0, b: 0 }
}

/// The named colours. Each one comes plain, dark and light.
#[derive(Clone, Copy, Debug, PartialEq, Eq, Structural)]
pub enum Color {
    Red,
    DarkRed,
    LightRed,
    Green,
    DarkGreen,
    LightGreen,
    Blue,
    DarkBlue,
    LightBlue,
    White,
    DarkWhite,
    LightWhite,
    Black,
    DarkBlack,
    LightBlack,
    Yellow,
    DarkYellow,
    LightYellow,
    Cyan,
    DarkCyan,
    LightCyan,
    Magenta,
    DarkMagenta,
    LightMagenta,
    Gray,
    DarkGray,
    LightGray,
    Orange,
    DarkOrange,
    LightOrange,
    Purple,
    DarkPurple,
    LightPurple,
    Brown,
    DarkBrown,
    LightBrown,
}

impl Color {
    /// The triple that a named colour stands for.
    pub open spec fn channels(self) -> ColorType {
        match self {
            Color::Red => ColorType { r: 255, g: 0, b: 0 },
            Color::DarkRed => ColorType { r: 139, g: 0, b: 0 },
            Color::LightRed => ColorType { r: 255, g: 102, b: 102 },
            Color::Green => ColorType { r: 0, g: 255, b: 0 },
            Color::DarkGreen => ColorType { r: 0, g: 100, b: 0 },
            Color::LightGreen => ColorType { r: 144, g: 238, b: 144 },
            Color::Blue => ColorType { r: 0, g: 0, b: 255 },
            Color::DarkBlue => ColorType { r: 0, g: 0, b: 139 },
            Color::LightBlue => ColorType { r: 173, g: 216, b: 230 },
            Color::White => ColorType { r: 255, g: 255, b: 255 },
            Color::DarkWhite => ColorType { r: 211, g: 211, b: 211 },
            Color::LightWhite => ColorType { r: 255, g: 255, b: 255 },
            Color::Black => ColorType { r: 0, g: 0, b: 0 },
            Color::DarkBlack => ColorType { r: 0, g: 0, b: 0 },
            Color::LightBlack => ColorType { r: 64, g: 64, b: 64 },
            Color::Yellow => ColorType { r: 255, g: 255, b: 0 },
            Color::DarkYellow => ColorType { r: 139, g: 139, b: 0 },
            Color::LightYellow => ColorType { r: 255, g: 255, b: 153 },
            Color::Cyan => ColorType { r: 0, g: 255, b: 255 },
            Color::DarkCyan => ColorType { r: 0, g: 139, b: 139 },
            Color::LightCyan => ColorType { r: 224, g: 255, b: 255 },
            Color::Magenta => ColorType { r: 255, g: 0, b: 255 },
            Color::DarkMagenta => ColorType { r: 139, g: 0, b: 139 },
            Color::LightMagenta => ColorType { r: 255, g: 153, b: 255 },
            Color::Gray => ColorType { r: 128, g: 128, b: 128 },
            Color::DarkGray => ColorType { r: 105, g: 105, b: 105 },
            Color::LightGray => ColorType { r: 211, g: 211, b: 211 },
            Color::Orange => ColorType { r: 255, g: 165, b: 0 },
            Color::DarkOrange => ColorType { r: 255, g: 140, b: 0 },
            Color::LightOrange => ColorType { r: 255, g: 200, b: 0 },
            Color::Purple => ColorType { r: 128, g: 0, b: 128 },
            Color::DarkPurple => ColorType { r: 75, g: 0, b: 130 },
            Color::LightPurple => ColorType { r: 216, g: 191, b: 216 },
            Color::Brown => ColorType { r: 165, g: 42, b: 42 },
            Color::DarkBrown => ColorType { r: 92, g: 51, b: 23 },
            Color::LightBrown => ColorType { r: 210, g: 180, b: 140 },
        }
    }

    /// An arbitrary colour from its three channels.
    pub fn new(r: u8, g: u8, b: u8) -> (c: ColorType)
        ensures
            c == (ColorType { r, g, b }),
    {
        ColorType { r, g, b }
    }

    /// Looks the named colour up.
    pub fn rgb(&self) -> (c: ColorType)
        ensures
            c == self.channels(),
    {
        match self {
            Color::Red => ColorType { r: 255, g: 0, b: 0 },
            Color::DarkRed => ColorType { r: 139, g: 0, b: 0 },
            Color::LightRed => ColorType { r: 255, g: 102, b: 102 },
            Color::Green => ColorType { r: 0, g: 255, b: 0 },
            Color::DarkGreen => ColorType { r: 0, g: 100, b: 0 },
            Color::LightGreen => ColorType { r: 144, g: 238, b: 144 },
            Color::Blue => ColorType { r: 0, g: 0, b: 255 },
            Color::DarkBlue => ColorType { r: 0, g: 0, b: 139 },
            Color::LightBlue => ColorType { r: 173, g: 216, b: 230 },
            Color::White => ColorType { r: 255, g: 255, b: 255 },
            Color::DarkWhite => ColorType { r: 211, g: 211, b: 211 },
            Color::LightWhite => ColorType { r: 255, g: 255, b: 255 },
            Color::Black => ColorType { r: 0, g: 0, b: 0 },
            Color::DarkBlack => ColorType { r: 0, g: 0, b: 0 },
            Color::LightBlack => ColorType { r: 64, g: 64, b: 64 },
            Color::Yellow => ColorType { r: 255, g: 255, b: 0 },
            Color::DarkYellow => ColorType { r: 139, g: 139, b: 0 },
            Color::LightYellow => ColorType { r: 255, g: 255, b: 153 },
            Color::Cyan => ColorType { r: 0, g: 255, b: 255 },
            Color::DarkCyan => ColorType { r: 0, g: 139, b: 139 },
            Color::LightCyan => ColorType { r: 224, g: 255, b: 255 },
            Color::Magenta => ColorType { r: 255, g: 0, b: 255 },
            Color::DarkMagenta => ColorType { r: 139, g: 0, b: 139 },
            Color::LightMagenta => ColorType { r: 255, g: 153, b: 255 },
            Color::Gray => ColorType { r: 128, g: 128, b: 128 },
            Color::DarkGray => ColorType { r: 105, g: 105, b: 105 },
            Color::LightGray => ColorType { r: 211, g: 211, b: 211 },
            Color::Orange => ColorType { r: 255, g: 165, b: 0 },
            Color::DarkOrange => ColorType { r: 255, g: 140, b: 0 },
            Color::LightOrange => ColorType { r: 255, g: 200, b: 0 },
            Color::Purple => ColorType { r: 128, g: 0, b: 128 },
            Color::DarkPurple => ColorType { r: 75, g: 0, b: 130 },
            Color::LightPurple => ColorType { r: 216, g: 191, b: 216 },
            Color::Brown => ColorType { r: 165, g: 42, b: 42 },
            Color::DarkBrown => ColorType { r: 92, g: 51, b: 23 },
            Color::LightBrown => ColorType { r: 210, g: 180, b: 140 },
        }
    }
}

} // verus!
