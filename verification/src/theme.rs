//! The window's colours, as the pages read them.
use vstd::prelude::*;

verus! {

/// The palette in force: every colour a page paints, as `0xRRGGBB`.
///
/// Which numbers fill it is the theme's choice (dark or light); the pages only
/// ever name a role, so a badge reads the same on a card and in a row.
#[derive(Clone, Copy, PartialEq, Eq, Debug)]
pub struct Palette {
    pub bg: u32,
    pub panel: u32,
    pub border: u32,
    pub text: u32,
    pub text_soft: u32,
    pub muted: u32,
    pub dim: u32,
    pub secondary: u32,
    pub hover: u32,
    pub selected: u32,
    pub accent: u32,
    pub info: u32,
    pub success: u32,
    pub success_bg: u32,
    pub success_strong: u32,
    pub warning: u32,
    pub warning_bg: u32,
    pub danger: u32,
    pub danger_bg: u32,
    pub danger_bg_soft: u32,
    pub danger_strong: u32,
}

/// The two appearances the window can be painted in.
#[derive(Clone, Copy, PartialEq, Eq, Debug, Structural)]
pub enum ThemeChoice {
    Dark,
    Light,
}

impl ThemeChoice {
    /// The identifier a choice is stored and addressed by.
    pub open spec fn code_spec(self) -> Seq<char> {
        match self {
            ThemeChoice::Dark => "dark"@,
            ThemeChoice::Light => "light"@,
        }
    }

    /// The identifier a choice is stored and addressed by.
    pub fn code(self) -> (r: &'static str)
        ensures
            r@ == self.code_spec(),
    {
        match self {
            ThemeChoice::Dark => "dark",
            ThemeChoice::Light => "light",
        }
    }
}

} // verus!
