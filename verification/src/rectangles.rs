use vstd::prelude::*;

verus! {

/// An axis-aligned rectangle with integer side lengths.
#[derive(Debug, Clone, Copy, PartialEq, Eq, Structural)]
pub struct Rectangle {
    pub width: u32,
    pub height: u32,
}

/// Whether a rectangle of size (`w`, `h`) fits strictly inside one of size
/// (`ow`, `oh`), in either orientation.
pub open spec fn fits_within(ow: int, oh: int, w: int, h: int) -> bool {
    (ow > w && oh > h) || (ow > h && oh > w)
}

impl Rectangle {
    /// The area of the rectangle.
    pub fn area(&self) -> (a: u32)
        requires
            self.width * self.height <= u32::MAX,
        ensures
            a == self.width * self.height,
    {
        self.width * self.height
    }

    /// Whether the rectangle has a nonzero width.
    pub fn width(&self) -> (b: bool)
        ensures
            b == (self.width > 0),
    {
        self.width > 0
    }

    /// Whether `other` fits strictly inside `self`, allowing a quarter turn.
    pub fn can_hold(&self, other: &Rectangle) -> (b: bool)
        ensures
            b == fits_within(
                self.width as int,
                self.height as int,
                other.width as int,
                other.height as int,
            ),
    {
        (self.width > other.width && self.height > other.height) || (self.width > other.height
            && self.height > other.width)
    }
}

} // verus!
