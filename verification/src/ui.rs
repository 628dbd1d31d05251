//! Text sizes understood by the drawing helpers.

use vstd::prelude::*;

verus! {

/// The two sizes of text a screen can draw.
#[derive(Clone, Copy, Debug, PartialEq, Eq, Structural)]
pub enum TextSize {
    Title,
    Standard,
}

impl TextSize {
    /// Height in pixels of a glyph drawn at this size.
    pub open spec fn spec_pixels(self) -> nat {
        match self {
            TextSize::Title => 40,
            TextSize::Standard => 20,
        }
    }

    /// Height in pixels of a glyph drawn at this size.
    pub fn pixels(self) -> (px: u16)
        ensures
            px == self.spec_pixels(),
    {
        match self {
            TextSize::Title => 40,
            TextSize::Standard => 20,
        }
    }
}

} // verus!
