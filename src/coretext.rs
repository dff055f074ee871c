//! Plain codes of the text layout interface.
use vstd::prelude::*;

verus! {

/// Symbolic traits of a font, each a bit of the foreign mask.
#[derive(Debug, Clone, Copy, PartialEq, Eq, Structural, Hash)]
pub enum CTFontSymbolicTraits {
    ItalicTrait,
    BoldTrait,
}

impl CTFontSymbolicTraits {
    pub open spec fn spec_bits(self) -> u32 {
        match self {
            CTFontSymbolicTraits::ItalicTrait => 1,
            CTFontSymbolicTraits::BoldTrait => 2,
        }
    }

    /// The trait's bit in the foreign mask.
    pub fn bits(self) -> (r: u32)
        ensures
            r == self.spec_bits(),
    {
        match self {
            CTFontSymbolicTraits::ItalicTrait => 1,
            CTFontSymbolicTraits::BoldTrait => 2,
        }
    }
}

/// The orientation in which glyphs are measured.
#[derive(Debug, Clone, Copy, PartialEq, Eq, Structural, Hash)]
pub enum CTFontOrientation {
    Default,
    Horizontal,
    Vertical,
}

impl CTFontOrientation {
    pub open spec fn spec_value(self) -> u32 {
        match self {
            CTFontOrientation::Default => 0,
            CTFontOrientation::Horizontal => 1,
            CTFontOrientation::Vertical => 2,
        }
    }

    /// The foreign value of the orientation.
    pub fn value(self) -> (r: u32)
        ensures
            r == self.spec_value(),
    {
        match self {
            CTFontOrientation::Default => 0,
            CTFontOrientation::Horizontal => 1,
            CTFontOrientation::Vertical => 2,
        }
    }
}

} // verus!
