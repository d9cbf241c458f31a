//! The six facelet colors, the six outward directions, the fixed solved-state
//! color table, and the total mapping from a color to its render-ready value.

use vstd::prelude::*;

verus! {

/// The six colors a facelet can show.
#[derive(Clone, Copy, PartialEq, Eq, Structural, Debug)]
pub enum Color {
    White,
    Yellow,
    Red,
    Orange,
    Blue,
    Green,
}

/// The six outward directions a facelet can point to, one per face of a cubie.
#[derive(Clone, Copy, PartialEq, Eq, Structural, Debug)]
pub enum Direction {
    PosX,
    NegX,
    PosY,
    NegY,
    PosZ,
    NegZ,
}

/// The fixed solved-state table: the color every cubie shows in each outward
/// direction immediately after construction, independent of its position.
pub open spec fn solved_color(d: Direction) -> Color {
    match d {
        Direction::PosX => Color::Red,
        Direction::NegX => Color::Orange,
        Direction::PosY => Color::White,
        Direction::NegY => Color::Yellow,
        Direction::PosZ => Color::Green,
        Direction::NegZ => Color::Blue,
    }
}

/// The render-ready value of a color, as red, green and blue bytes. Total over
/// the closed set of colors; the host scales the bytes into its own color type.
pub open spec fn render_rgb_spec(c: Color) -> (u8, u8, u8) {
    match c {
        Color::White => (255u8, 255u8, 255u8),
        Color::Yellow => (255u8, 255u8, 0u8),
        Color::Red => (255u8, 0u8, 0u8),
        Color::Orange => (255u8, 140u8, 0u8),
        Color::Blue => (0u8, 0u8, 255u8),
        Color::Green => (0u8, 200u8, 0u8),
    }
}

/// The render-ready value of a color, as red, green and blue bytes.
pub fn render_rgb(c: Color) -> (rgb: (u8, u8, u8))
    ensures
        rgb == render_rgb_spec(c),
{
    match c {
        Color::White => (255, 255, 255),
        Color::Yellow => (255, 255, 0),
        Color::Red => (255, 0, 0),
        Color::Orange => (255, 140, 0),
        Color::Blue => (0, 0, 255),
        Color::Green => (0, 200, 0),
    }
}

} // verus!
