//! Components: the pure value types attached to entities, and their derived
//! geometric queries.
//!
//! Queries that add two coordinates return `i128`, so they are total over
//! every `i64` input.

use vstd::prelude::*;

verus! {

/// An RGBA colour with byte channels, consumed by the drawing collaborator.
#[derive(Clone, Copy, Debug, PartialEq, Eq, Structural)]
pub struct Colour {
    pub r: u8,
    pub g: u8,
    pub b: u8,
    pub a: u8,
}

impl Colour {
    pub fn new(r: u8, g: u8, b: u8, a: u8) -> (c: Colour)
        ensures
            c == (Colour { r, g, b, a }),
    {
        Colour { r, g, b, a }
    }
}

pub open spec fn columbia_blue() -> Colour {
    Colour { r: 189, g: 213, b: 234, a: 255 }
}

pub open spec fn dark_pastel_green() -> Colour {
    Colour { r: 76, g: 185, b: 68, a: 255 }
}

pub open spec fn deep_sky_blue() -> Colour {
    Colour { r: 0, g: 187, b: 249, a: 255 }
}

pub open spec fn drab_dark_brown() -> Colour {
    Colour { r: 48, g: 50, b: 28, a: 255 }
}

pub open spec fn maize() -> Colour {
    Colour { r: 254, g: 228, b: 64, a: 255 }
}

pub open spec fn yinmn_blue() -> Colour {
    Colour { r: 39, g: 76, b: 119, a: 255 }
}

impl Colour {
    pub fn columbia_blue() -> (c: Colour)
        ensures
            c == columbia_blue(),
    {
        Colour::new(189, 213, 234, 255)
    }

    pub fn dark_pastel_green() -> (c: Colour)
        ensures
            c == dark_pastel_green(),
    {
        Colour::new(76, 185, 68, 255)
    }

    pub fn deep_sky_blue() -> (c: Colour)
        ensures
            c == deep_sky_blue(),
    {
        Colour::new(0, 187, 249, 255)
    }

    pub fn drab_dark_brown() -> (c: Colour)
        ensures
            c == drab_dark_brown(),
    {
        Colour::new(48, 50, 28, 255)
    }

    pub fn maize() -> (c: Colour)
        ensures
            c == maize(),
    {
        Colour::new(254, 228, 64, 255)
    }

    pub fn yinmn_blue() -> (c: Colour)
        ensures
            c == yinmn_blue(),
    {
        Colour::new(39, 76, 119, 255)
    }
}

/// Marker component of the single finish line entity.
#[derive(Clone, Copy, Debug, PartialEq, Eq, Structural)]
pub struct FinishLine;

/// Marker component of the single player entity.
#[derive(Clone, Copy, Debug, PartialEq, Eq, Structural)]
pub struct Flipper {}

/// A world-space position; y grows downward.
#[derive(Clone, Copy, Debug, PartialEq, Eq, Structural)]
pub struct Position {
    pub x: i64,
    pub y: i64,
}

/// A velocity in world units per second.
#[derive(Clone, Copy, Debug, PartialEq, Eq, Structural)]
pub struct Velocity {
    pub x: i64,
    pub y: i64,
}

/// An axis-aligned rectangle; left and top come from the entity's `Position`.
#[derive(Clone, Copy, Debug, PartialEq, Eq, Structural)]
pub struct RectangleShape {
    pub width: i64,
    pub height: i64,
}

impl RectangleShape {
    /// The rectangle's left edge: the position's x.
    pub fn left(&self, position: &Position) -> (r: i128)
        ensures
            r == position.x,
    {
        position.x as i128
    }

    /// The rectangle's right edge: the position's x plus the width.
    pub fn right(&self, position: &Position) -> (r: i128)
        ensures
            r == position.x + self.width,
    {
        position.x as i128 + self.width as i128
    }

    /// The rectangle's top edge: the position's y.
    pub fn top(&self, position: &Position) -> (r: i128)
        ensures
            r == position.y,
    {
        position.y as i128
    }

    /// The rectangle's bottom edge: the position's y plus the height.
    pub fn bottom(&self, position: &Position) -> (r: i128)
        ensures
            r == position.y + self.height,
    {
        position.y as i128 + self.height as i128
    }
}

/// A full-height barrier with a passable vertical gap. The gap spans the
/// vertical interval from `gap_y_displacement` to
/// `gap_y_displacement + gap_length`.
#[derive(Clone, Copy, Debug, PartialEq, Eq, Structural)]
pub struct ObstacleShape {
    pub gap_length: i64,
    pub gap_y_displacement: i64,
    pub width: i64,
}

impl ObstacleShape {
    /// The obstacle's left edge: the position's x.
    pub fn left(&self, position: &Position) -> (r: i128)
        ensures
            r == position.x,
    {
        position.x as i128
    }

    /// The obstacle's right edge: the position's x plus the width.
    pub fn right(&self, position: &Position) -> (r: i128)
        ensures
            r == position.x + self.width,
    {
        position.x as i128 + self.width as i128
    }

    /// Where the gap begins.
    pub fn gap_top(&self) -> (r: i128)
        ensures
            r == self.gap_y_displacement,
    {
        self.gap_y_displacement as i128
    }

    /// Where the gap ends: where it begins plus its length.
    pub fn gap_bottom(&self) -> (r: i128)
        ensures
            r == self.gap_y_displacement + self.gap_length,
    {
        self.gap_y_displacement as i128 + self.gap_length as i128
    }
}

/// Whenever the gap has positive length, its bottom lies strictly below its
/// top.
pub proof fn lemma_gap_is_nonempty(shape: ObstacleShape)
    requires
        shape.gap_length > 0,
    ensures
        shape.gap_y_displacement + shape.gap_length > shape.gap_y_displacement,
{
}

/// The number of obstacles the player has cleared.
#[derive(Clone, Copy, Debug, PartialEq, Eq, Structural)]
pub struct Score {
    pub value: u32,
}

} // verus!
