//! Colours.

use super::ll::SDL_Color;
use vstd::prelude::*;

verus! {

/// A colour, with or without an alpha channel.
#[derive(Copy, Clone, Debug, PartialEq, Eq, Structural)]
pub enum Color {
    RGB(u8, u8, u8),
    RGBA(u8, u8, u8, u8),
}

impl Color {
    /// The colour that a palette entry holds.
    pub open spec fn of_struct(c: SDL_Color) -> Color {
        Color::RGB(c.r, c.g, c.b)
    }

    /// The palette entry for this colour: its red, green and blue, and zero
    /// in the unused byte.
    pub open spec fn as_struct(self) -> SDL_Color {
        match self {
            Color::RGB(r, g, b) => SDL_Color { r, g, b, unused: 0 },
            Color::RGBA(r, g, b, _) => SDL_Color { r, g, b, unused: 0 },
        }
    }

    /// Reads a colour from a palette entry. The entry's unused byte is dropped.
    pub fn from_struct(c: SDL_Color) -> (color: Color)
        ensures
            color == Color::of_struct(c),
    {
        Color::RGB(c.r, c.g, c.b)
    }

    /// The palette entry for this colour. An alpha channel is dropped.
    pub fn to_struct(self) -> (c: SDL_Color)
        ensures
            c == self.as_struct(),
    {
        match self {
            Color::RGB(r, g, b) => SDL_Color { r, g, b, unused: 0 },
            Color::RGBA(r, g, b, _) => SDL_Color { r, g, b, unused: 0 },
        }
    }
}

/// The palette entries for a list of colours, in the same order.
pub fn to_structs(colors: &[Color]) -> (entries: Vec<SDL_Color>)
    ensures
        entries@ == colors@.map_values(|color: Color| color.as_struct()),
{
    let mut entries: Vec<SDL_Color> = Vec::new();
    let mut i: usize = 0;
    while i < colors.len()
        invariant
            i <= colors.len(),
            entries@ == colors@.take(i as int).map_values(|color: Color| color.as_struct()),
        decreases colors.len() - i,
    {
        entries.push(colors[i].to_struct());
        proof {
            assert(entries@ =~= colors@.take(i + 1).map_values(|color: Color| color.as_struct()));
        }
        i += 1;
    }
    assert(colors@.take(i as int) =~= colors@);
    entries
}

/// Reading a colour back from its palette entry gives its red, green and
/// blue again: the colour itself if it has no alpha channel.
pub proof fn lemma_struct_round_trip(color: Color)
    ensures
        Color::of_struct(color.as_struct()) == match color {
            Color::RGB(r, g, b) => Color::RGB(r, g, b),
            Color::RGBA(r, g, b, _) => Color::RGB(r, g, b),
        },
{
}

} // verus!
