//! The sixteen colours of a terminal, each a single bit.
use vstd::prelude::*;

verus! {

#[derive(Clone, Copy, Debug, PartialEq, Eq, Structural)]
pub enum Color {
    White,
    Orange,
    Magenta,
    LightBlue,
    Yellow,
    Lime,
    Pink,
    Gray,
    LightGray,
    Cyan,
    Purple,
    Blue,
    Brown,
    Green,
    Red,
    Black,
}

/// A number that is no colour.
#[derive(Debug)]
pub enum TryFromColorError {
    InvalidColorValue(u64),
}

/// The bit of each colour, in order from white.
pub open spec fn color_index(c: Color) -> nat {
    match c {
        Color::White => 0,
        Color::Orange => 1,
        Color::Magenta => 2,
        Color::LightBlue => 3,
        Color::Yellow => 4,
        Color::Lime => 5,
        Color::Pink => 6,
        Color::Gray => 7,
        Color::LightGray => 8,
        Color::Cyan => 9,
        Color::Purple => 10,
        Color::Blue => 11,
        Color::Brown => 12,
        Color::Green => 13,
        Color::Red => 14,
        Color::Black => 15,
    }
}

/// The number of a colour: two to the power of its index.
pub open spec fn color_value(c: Color) -> u64 {
    vstd::arithmetic::power2::pow2(color_index(c)) as u64
}

impl Color {
    /// The number of the colour.
    pub fn value(self) -> (r: u64)
        ensures
            r == color_value(self),
    {
        proof {
            vstd::arithmetic::power2::lemma2_to64();
        }
        match self {
            Color::White => 1,
            Color::Orange => 2,
            Color::Magenta => 4,
            Color::LightBlue => 8,
            Color::Yellow => 16,
            Color::Lime => 32,
            Color::Pink => 64,
            Color::Gray => 128,
            Color::LightGray => 256,
            Color::Cyan => 512,
            Color::Purple => 1024,
            Color::Blue => 2048,
            Color::Brown => 4096,
            Color::Green => 8192,
            Color::Red => 16384,
            Color::Black => 32768,
        }
    }

    /// The colour of a number, if it is the number of one.
    pub fn try_from_value(value: u64) -> (r: Result<Color, TryFromColorError>)
        ensures
            r is Ok ==> color_value(r->Ok_0) == value,
            r is Err <==> forall|c: Color| color_value(c) != value,
            r is Err ==> r->Err_0 == TryFromColorError::InvalidColorValue(value),
    {
        let colors = Color::colors();
        let mut i: usize = 0;
        while i < 16
            invariant
                0 <= i <= 16,
                forall|j: int| 0 <= j < 16 ==> color_index(#[trigger] colors[j]) == j,
                forall|j: int| 0 <= j < i ==> color_value(#[trigger] colors[j]) != value,
            decreases 16 - i,
        {
            if colors[i].value() == value {
                return Ok(colors[i]);
            }
            i = i + 1;
        }
        proof {
            assert forall|c: Color| color_value(c) != value by {
                assert(colors[color_index(c) as int] == c);
            }
        }
        Err(TryFromColorError::InvalidColorValue(value))
    }

    /// Every colour, in order from white.
    pub fn colors() -> (r: [Color; 16])
        ensures
            forall|j: int| 0 <= j < 16 ==> color_index(#[trigger] r[j]) == j,
    {
        [
            Color::White,
            Color::Orange,
            Color::Magenta,
            Color::LightBlue,
            Color::Yellow,
            Color::Lime,
            Color::Pink,
            Color::Gray,
            Color::LightGray,
            Color::Cyan,
            Color::Purple,
            Color::Blue,
            Color::Brown,
            Color::Green,
            Color::Red,
            Color::Black,
        ]
    }
}


/// No two colours share a number.
pub proof fn lemma_color_value_injective(a: Color, b: Color)
    requires
        color_value(a) == color_value(b),
    ensures
        a == b,
{
    vstd::arithmetic::power2::lemma2_to64();
}

} // verus!
