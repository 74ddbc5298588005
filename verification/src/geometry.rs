//! The geometry that a window carries: its bounds and its layout constraint.
//!
//! Lengths are whole device units and never negative. Positions are signed and
//! as wide as the positions that an alignment computes.

use vstd::prelude::*;

verus! {

/// A position and a size.
#[derive(Copy, Clone, Debug, PartialEq, Eq, Structural)]
pub struct Rectangle {
    pub x: i64,
    pub y: i64,
    pub width: u32,
    pub height: u32,
}

impl Rectangle {
    /// A rectangle at the given position with the given size.
    pub fn new(x: i64, y: i64, width: u32, height: u32) -> (rectangle: Rectangle)
        ensures
            rectangle == (Rectangle { x, y, width, height }),
    {
        Rectangle { x, y, width, height }
    }

    /// Width and height as a pair.
    pub open spec fn spec_size(&self) -> (u32, u32) {
        (self.width, self.height)
    }

    /// Width and height as a pair.
    #[verifier::when_used_as_spec(spec_size)]
    pub fn size(&self) -> (size: (u32, u32))
        ensures
            size == self.spec_size(),
    {
        (self.width, self.height)
    }

    /// Writes a new size and leaves the position alone.
    pub fn set_size(&mut self, width: u32, height: u32)
        ensures
            *final(self) == (Rectangle { width, height, ..*old(self) }),
    {
        self.width = width;
        self.height = height;
    }
}

/// The size that a layout pass aims for, with the limits it must respect.
#[derive(Copy, Clone, Debug, PartialEq, Eq, Structural)]
pub struct Constraint {
    pub min_width: u32,
    pub max_width: u32,
    pub width: u32,
    pub min_height: u32,
    pub max_height: u32,
    pub height: u32,
}

impl Constraint {
    /// The constraint that limits nothing and aims for no size.
    pub open spec fn unbounded() -> Constraint {
        Constraint {
            min_width: 0,
            max_width: u32::MAX,
            width: 0,
            min_height: 0,
            max_height: u32::MAX,
            height: 0,
        }
    }

    /// A constraint that limits nothing and aims for no size.
    pub fn new() -> (constraint: Constraint)
        ensures
            constraint == Constraint::unbounded(),
    {
        Constraint {
            min_width: 0,
            max_width: u32::MAX,
            width: 0,
            min_height: 0,
            max_height: u32::MAX,
            height: 0,
        }
    }

    /// The size aimed for, as a pair.
    pub open spec fn spec_size(&self) -> (u32, u32) {
        (self.width, self.height)
    }

    /// The size aimed for, as a pair.
    #[verifier::when_used_as_spec(spec_size)]
    pub fn size(&self) -> (size: (u32, u32))
        ensures
            size == self.spec_size(),
    {
        (self.width, self.height)
    }

    /// Writes the size to aim for and leaves the limits alone. The size is not
    /// held against the limits.
    pub fn set_size(&mut self, width: u32, height: u32)
        ensures
            *final(self) == (Constraint { width, height, ..*old(self) }),
    {
        self.width = width;
        self.height = height;
    }
}

} // verus!
