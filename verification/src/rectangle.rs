//! Rectangles, and whether one can hold another.

use vstd::prelude::*;

verus! {

/// A rectangle with sides of whole length.
#[derive(Debug)]
pub struct Rectangle {
    pub width: u32,
    pub height: u32,
}

impl Rectangle {
    /// Whether `other` fits inside `self` with room to spare on both sides:
    /// `self` is both wider and higher.
    pub open spec fn holds(&self, other: &Rectangle) -> bool {
        self.width > other.width && self.height > other.height
    }

    /// Whether the rectangle has any width.
    fn _area(&self) -> (wide: bool)
        ensures
            wide == (self.width > 0),
    {
        self.width > 0
    }

    /// Whether `self` is both wider and higher than `other`.
    pub fn can_hold(&self, other: &Rectangle) -> (fits: bool)
        ensures
            fits == self.holds(other),
    {
        self.width > other.width && self.height > other.height
    }

    /// The square with sides of length `size`.
    pub fn square(size: u32) -> (square: Rectangle)
        ensures
            square.width == size,
            square.height == size,
    {
        Rectangle { width: size, height: size }
    }

    /// Of two rectangles at most one can hold the other, and none holds
    /// itself.
    pub proof fn lemma_holds_one_way(&self, other: &Rectangle)
        ensures
            self.holds(other) ==> !other.holds(self),
            !self.holds(self),
    {
    }

    /// What is held by something that is itself held is held by the outermost
    /// rectangle too.
    pub proof fn lemma_holds_through(&self, middle: &Rectangle, inner: &Rectangle)
        requires
            self.holds(middle),
            middle.holds(inner),
        ensures
            self.holds(inner),
    {
    }
}

} // verus!
