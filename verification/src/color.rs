//! Colours of teams and paint.
use vstd::prelude::*;

verus! {

/// A colour by its red, green, blue and alpha channels, each from 0 to 255.
#[derive(Clone, Copy, Debug, PartialEq, Eq, Structural)]
pub struct Color {
    pub red: u8,
    pub green: u8,
    pub blue: u8,
    pub alpha: u8,
}

impl Color {
    pub fn srgba_u8(red: u8, green: u8, blue: u8, alpha: u8) -> (colour: Color)
        ensures
            colour == (Color { red, green, blue, alpha }),
    {
        Color { red, green, blue, alpha }
    }

    pub open spec fn spec_red() -> Color {
        Color { red: 255, green: 0, blue: 0, alpha: 255 }
    }

    pub open spec fn spec_blue() -> Color {
        Color { red: 0, green: 0, blue: 255, alpha: 255 }
    }

    pub open spec fn spec_white() -> Color {
        Color { red: 255, green: 255, blue: 255, alpha: 255 }
    }

    #[verifier::when_used_as_spec(spec_red)]
    pub fn red() -> (colour: Color)
        ensures
            colour == Color::spec_red(),
    {
        Color { red: 255, green: 0, blue: 0, alpha: 255 }
    }

    #[verifier::when_used_as_spec(spec_blue)]
    pub fn blue() -> (colour: Color)
        ensures
            colour == Color::spec_blue(),
    {
        Color { red: 0, green: 0, blue: 255, alpha: 255 }
    }

    #[verifier::when_used_as_spec(spec_white)]
    pub fn white() -> (colour: Color)
        ensures
            colour == Color::spec_white(),
    {
        Color { red: 255, green: 255, blue: 255, alpha: 255 }
    }
}

} // verus!
