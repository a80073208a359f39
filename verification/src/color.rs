//! The colours the light can show and their channel values.

use vstd::prelude::*;
use vstd::string::*;

verus! {

/// A colour of the light.
#[derive(Clone, Copy, Debug, PartialEq, Eq, Structural)]
pub enum Color {
    Red,
    Green,
    Blue,
}

impl Color {
    /// The colour that a name stands for: `red` and `green` are themselves,
    /// every other name is blue.
    pub open spec fn spec_from_name(name: Seq<char>) -> Color {
        if name == "red"@ {
            Color::Red
        } else if name == "green"@ {
            Color::Green
        } else {
            Color::Blue
        }
    }

    /// The name of the colour, in lower case.
    pub open spec fn spec_name(self) -> Seq<char> {
        match self {
            Color::Red => "red"@,
            Color::Green => "green"@,
            Color::Blue => "blue"@,
        }
    }

    /// The red, green and blue channel values of the colour.
    pub open spec fn spec_rgb(self) -> (u8, u8, u8) {
        match self {
            Color::Red => (255u8, 0u8, 0u8),
            Color::Green => (0u8, 255u8, 0u8),
            Color::Blue => (0u8, 0u8, 255u8),
        }
    }

    /// Reads a colour name. The mapping is total: a name that is neither
    /// `red` nor `green` gives blue.
    pub fn from_name(name: &str) -> (color: Color)
        ensures
            color == Color::spec_from_name(name@),
    {
        let owned = name.to_owned();
        if owned == String::from_str("red") {
            Color::Red
        } else if owned == String::from_str("green") {
            Color::Green
        } else {
            Color::Blue
        }
    }

    /// The name of the colour, in lower case.
    pub fn name(self) -> (name: &'static str)
        ensures
            name@ == self.spec_name(),
    {
        match self {
            Color::Red => "red",
            Color::Green => "green",
            Color::Blue => "blue",
        }
    }

    /// The red, green and blue channel values of the colour.
    pub fn rgb(self) -> (channels: (u8, u8, u8))
        ensures
            channels == self.spec_rgb(),
    {
        match self {
            Color::Red => (255, 0, 0),
            Color::Green => (0, 255, 0),
            Color::Blue => (0, 0, 255),
        }
    }
}

/// Every colour is the one its own name stands for.
pub proof fn lemma_name_round_trip(color: Color)
    ensures
        Color::spec_from_name(color.spec_name()) == color,
{
    reveal_strlit("red");
    reveal_strlit("green");
    reveal_strlit("blue");
    assert("red"@.len() == 3);
    assert("green"@.len() == 5);
    assert("blue"@.len() == 4);
}

} // verus!
