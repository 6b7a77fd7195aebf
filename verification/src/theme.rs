//! Colour themes, looked up by name.

use crate::strings::str_eq;
use vstd::prelude::*;

verus! {

/// Named colours used in theme definitions.
#[derive(Debug, Clone, Copy, PartialEq, Eq)]
pub enum ThemeColor {
    Black,
    White,
    Magenta,
    DarkGreen,
    DarkCyan,
    DarkGrey,
    Grey,
    Cyan,
}

/// The colours of the text area and of the status bar.
pub struct Theme {
    pub name: String,
    pub fg: ThemeColor,
    pub bg: ThemeColor,
    pub status_fg: ThemeColor,
    pub status_bg: ThemeColor,
    pub tilde_fg: ThemeColor,
    pub number_fg: ThemeColor,
}

impl Theme {
    /// Whether `self` is the theme "pink": magenta on black.
    pub open spec fn is_pink(&self) -> bool {
        &&& self.name@ == "pink"@
        &&& self.fg == ThemeColor::Magenta
        &&& self.bg == ThemeColor::Black
        &&& self.status_fg == ThemeColor::Black
        &&& self.status_bg == ThemeColor::Magenta
        &&& self.tilde_fg == ThemeColor::Magenta
        &&& self.number_fg == ThemeColor::White
    }

    /// Whether `self` is the theme "ocean": cyan on black.
    pub open spec fn is_ocean(&self) -> bool {
        &&& self.name@ == "ocean"@
        &&& self.fg == ThemeColor::Cyan
        &&& self.bg == ThemeColor::Black
        &&& self.status_fg == ThemeColor::Black
        &&& self.status_bg == ThemeColor::DarkCyan
        &&& self.tilde_fg == ThemeColor::DarkGreen
        &&& self.number_fg == ThemeColor::White
    }

    /// In a theme that can be read, text differs from its background, in the
    /// text area and in the status bar.
    pub open spec fn readable(&self) -> bool {
        &&& self.fg != self.bg
        &&& self.status_fg != self.status_bg
        &&& self.number_fg != self.bg
        &&& self.tilde_fg != self.bg
    }

    /// Look up a built-in theme by name. Falls back to "pink" if unknown.
    pub fn from_name(name: &str) -> (theme: Self)
        ensures
            name@ == "ocean"@ ==> theme.is_ocean(),
            name@ != "ocean"@ ==> theme.is_pink(),
            theme.readable(),
    {
        if str_eq(name, "ocean") {
            Self::ocean()
        } else {
            Self::pink()
        }
    }

    /// The default theme: magenta on black.
    pub fn pink() -> (theme: Self)
        ensures
            theme.is_pink(),
    {
        Self {
            name: "pink".to_string(),
            fg: ThemeColor::Magenta,
            bg: ThemeColor::Black,
            status_fg: ThemeColor::Black,
            status_bg: ThemeColor::Magenta,
            tilde_fg: ThemeColor::Magenta,
            number_fg: ThemeColor::White,
        }
    }

    /// A calmer alternative: cyan and green on a dark background.
    pub fn ocean() -> (theme: Self)
        ensures
            theme.is_ocean(),
    {
        Self {
            name: "ocean".to_string(),
            fg: ThemeColor::Cyan,
            bg: ThemeColor::Black,
            status_fg: ThemeColor::Black,
            status_bg: ThemeColor::DarkCyan,
            tilde_fg: ThemeColor::DarkGreen,
            number_fg: ThemeColor::White,
        }
    }
}

} // verus!
