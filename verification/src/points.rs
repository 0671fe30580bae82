//! Generic point types.
//!
//! `Point` pairs two coordinates of one type; `MultiTypePoint` lets the
//! two coordinates have different types and can mix coordinates taken
//! from two differently typed points.

use vstd::prelude::*;

verus! {

/// A point whose two coordinates share one type.
pub struct Point<T> {
    pub x: T,
    pub y: T,
}

impl<T> Point<T> {
    /// A borrow of the first coordinate.
    pub fn x(&self) -> (r: &T)
        ensures
            *r == self.x,
    {
        &self.x
    }
}

/// A point whose two coordinates may have different types.
pub struct MultiTypePoint<T, U> {
    pub x: T,
    pub y: U,
}

impl<T, U> MultiTypePoint<T, U> {
    /// The point made of this point's first coordinate and the other
    /// point's second coordinate.
    pub fn mixup<V, W>(self, other_point: MultiTypePoint<V, W>) -> (r: MultiTypePoint<T, W>)
        ensures
            r.x == self.x,
            r.y == other_point.y,
    {
        MultiTypePoint { x: self.x, y: other_point.y }
    }
}

} // verus!
