//! One of the 27 unit blocks of the cube: its facelet-color assignment, and
//! how that assignment is relabeled when the block takes part in a quarter
//! turn. Colors move with the block's orientation, never independently.

use vstd::prelude::*;

use crate::color::{solved_color, Color, Direction};
use crate::{Axis, Spin};

verus! {

/// One unit block. Each field holds the color of the facelet pointing in the
/// corresponding outward direction.
#[derive(Clone, Copy, PartialEq, Eq, Structural, Debug)]
pub struct Cubie {
    pub pos_x: Color,
    pub neg_x: Color,
    pub pos_y: Color,
    pub neg_y: Color,
    pub pos_z: Color,
    pub neg_z: Color,
}

/// Where a facelet pointing in direction `d` points after a quarter turn of
/// sense `spin` about `axis`. The two directions parallel to the axis are
/// unchanged; the four orthogonal ones cycle, the cycle sense following `spin`.
pub open spec fn rotated_dir_spec(axis: Axis, spin: Spin, d: Direction) -> Direction {
    match axis {
        Axis::X => match spin {
            Spin::Pos => match d {
                Direction::PosX => Direction::PosX,
                Direction::NegX => Direction::NegX,
                Direction::PosY => Direction::NegZ,
                Direction::NegZ => Direction::NegY,
                Direction::NegY => Direction::PosZ,
                Direction::PosZ => Direction::PosY,
            },
            Spin::Neg => match d {
                Direction::PosX => Direction::PosX,
                Direction::NegX => Direction::NegX,
                Direction::PosY => Direction::PosZ,
                Direction::PosZ => Direction::NegY,
                Direction::NegY => Direction::NegZ,
                Direction::NegZ => Direction::PosY,
            },
        },
        Axis::Y => match spin {
            Spin::Pos => match d {
                Direction::PosY => Direction::PosY,
                Direction::NegY => Direction::NegY,
                Direction::PosZ => Direction::NegX,
                Direction::NegX => Direction::NegZ,
                Direction::NegZ => Direction::PosX,
                Direction::PosX => Direction::PosZ,
            },
            Spin::Neg => match d {
                Direction::PosY => Direction::PosY,
                Direction::NegY => Direction::NegY,
                Direction::PosZ => Direction::PosX,
                Direction::PosX => Direction::NegZ,
                Direction::NegZ => Direction::NegX,
                Direction::NegX => Direction::PosZ,
            },
        },
        Axis::Z => match spin {
            Spin::Pos => match d {
                Direction::PosZ => Direction::PosZ,
                Direction::NegZ => Direction::NegZ,
                Direction::PosX => Direction::NegY,
                Direction::NegY => Direction::NegX,
                Direction::NegX => Direction::PosY,
                Direction::PosY => Direction::PosX,
            },
            Spin::Neg => match d {
                Direction::PosZ => Direction::PosZ,
                Direction::NegZ => Direction::NegZ,
                Direction::PosX => Direction::PosY,
                Direction::PosY => Direction::NegX,
                Direction::NegX => Direction::NegY,
                Direction::NegY => Direction::PosX,
            },
        },
    }
}

/// Where a facelet pointing in direction `d` points after a quarter turn of
/// sense `spin` about `axis`.
pub fn rotated_dir(axis: Axis, spin: Spin, d: Direction) -> (r: Direction)
    ensures
        r == rotated_dir_spec(axis, spin, d),
{
    match (axis, spin, d) {
        (Axis::X, _, Direction::PosX) => Direction::PosX,
        (Axis::X, _, Direction::NegX) => Direction::NegX,
        (Axis::X, Spin::Pos, Direction::PosY) => Direction::NegZ,
        (Axis::X, Spin::Pos, Direction::NegZ) => Direction::NegY,
        (Axis::X, Spin::Pos, Direction::NegY) => Direction::PosZ,
        (Axis::X, Spin::Pos, Direction::PosZ) => Direction::PosY,
        (Axis::X, Spin::Neg, Direction::PosY) => Direction::PosZ,
        (Axis::X, Spin::Neg, Direction::PosZ) => Direction::NegY,
        (Axis::X, Spin::Neg, Direction::NegY) => Direction::NegZ,
        (Axis::X, Spin::Neg, Direction::NegZ) => Direction::PosY,
        (Axis::Y, _, Direction::PosY) => Direction::PosY,
        (Axis::Y, _, Direction::NegY) => Direction::NegY,
        (Axis::Y, Spin::Pos, Direction::PosZ) => Direction::NegX,
        (Axis::Y, Spin::Pos, Direction::NegX) => Direction::NegZ,
        (Axis::Y, Spin::Pos, Direction::NegZ) => Direction::PosX,
        (Axis::Y, Spin::Pos, Direction::PosX) => Direction::PosZ,
        (Axis::Y, Spin::Neg, Direction::PosZ) => Direction::PosX,
        (Axis::Y, Spin::Neg, Direction::PosX) => Direction::NegZ,
        (Axis::Y, Spin::Neg, Direction::NegZ) => Direction::NegX,
        (Axis::Y, Spin::Neg, Direction::NegX) => Direction::PosZ,
        (Axis::Z, _, Direction::PosZ) => Direction::PosZ,
        (Axis::Z, _, Direction::NegZ) => Direction::NegZ,
        (Axis::Z, Spin::Pos, Direction::PosX) => Direction::NegY,
        (Axis::Z, Spin::Pos, Direction::NegY) => Direction::NegX,
        (Axis::Z, Spin::Pos, Direction::NegX) => Direction::PosY,
        (Axis::Z, Spin::Pos, Direction::PosY) => Direction::PosX,
        (Axis::Z, Spin::Neg, Direction::PosX) => Direction::PosY,
        (Axis::Z, Spin::Neg, Direction::PosY) => Direction::NegX,
        (Axis::Z, Spin::Neg, Direction::NegX) => Direction::NegY,
        (Axis::Z, Spin::Neg, Direction::NegY) => Direction::PosX,
    }
}

impl Cubie {
    /// The color this cubie shows in direction `d`.
    pub open spec fn color_spec(self, d: Direction) -> Color {
        match d {
            Direction::PosX => self.pos_x,
            Direction::NegX => self.neg_x,
            Direction::PosY => self.pos_y,
            Direction::NegY => self.neg_y,
            Direction::PosZ => self.pos_z,
            Direction::NegZ => self.neg_z,
        }
    }

    /// The color this cubie shows in direction `d`.
    pub fn color(&self, d: Direction) -> (c: Color)
        ensures
            c == self.color_spec(d),
    {
        match d {
            Direction::PosX => self.pos_x,
            Direction::NegX => self.neg_x,
            Direction::PosY => self.pos_y,
            Direction::NegY => self.neg_y,
            Direction::PosZ => self.pos_z,
            Direction::NegZ => self.neg_z,
        }
    }

    /// A cubie in the solved configuration: every direction shows the fixed
    /// solved-state color for that direction.
    pub open spec fn solved_spec() -> Cubie {
        Cubie {
            pos_x: solved_color(Direction::PosX),
            neg_x: solved_color(Direction::NegX),
            pos_y: solved_color(Direction::PosY),
            neg_y: solved_color(Direction::NegY),
            pos_z: solved_color(Direction::PosZ),
            neg_z: solved_color(Direction::NegZ),
        }
    }

    /// A cubie in the solved configuration.
    pub fn solved() -> (c: Cubie)
        ensures
            c == Self::solved_spec(),
            forall|d: Direction| c.color_spec(d) == solved_color(d),
    {
        Cubie {
            pos_x: Color::Red,
            neg_x: Color::Orange,
            pos_y: Color::White,
            neg_y: Color::Yellow,
            pos_z: Color::Green,
            neg_z: Color::Blue,
        }
    }
}

/// The cubie as it looks after a quarter turn of sense `spin` about `axis`:
/// the facelet that pointed in `d` now points in `rotated_dir_spec(axis, spin,
/// d)` and keeps its color, so the new assignment reads each direction's color
/// from the direction that rotates onto it.
pub open spec fn relabel_spec(c: Cubie, axis: Axis, spin: Spin) -> Cubie {
    Cubie {
        pos_x: c.color_spec(rotated_dir_spec(axis, spin.flip_spec(), Direction::PosX)),
        neg_x: c.color_spec(rotated_dir_spec(axis, spin.flip_spec(), Direction::NegX)),
        pos_y: c.color_spec(rotated_dir_spec(axis, spin.flip_spec(), Direction::PosY)),
        neg_y: c.color_spec(rotated_dir_spec(axis, spin.flip_spec(), Direction::NegY)),
        pos_z: c.color_spec(rotated_dir_spec(axis, spin.flip_spec(), Direction::PosZ)),
        neg_z: c.color_spec(rotated_dir_spec(axis, spin.flip_spec(), Direction::NegZ)),
    }
}

/// The cubie as it looks after a quarter turn of sense `spin` about `axis`.
pub fn relabel(c: &Cubie, axis: Axis, spin: Spin) -> (r: Cubie)
    ensures
        r == relabel_spec(*c, axis, spin),
        forall|d: Direction| r.color_spec(rotated_dir_spec(axis, spin, d)) == c.color_spec(d),
{
    let back = spin.flip();
    Cubie {
        pos_x: c.color(rotated_dir(axis, back, Direction::PosX)),
        neg_x: c.color(rotated_dir(axis, back, Direction::NegX)),
        pos_y: c.color(rotated_dir(axis, back, Direction::PosY)),
        neg_y: c.color(rotated_dir(axis, back, Direction::NegY)),
        pos_z: c.color(rotated_dir(axis, back, Direction::PosZ)),
        neg_z: c.color(rotated_dir(axis, back, Direction::NegZ)),
    }
}

} // verus!
