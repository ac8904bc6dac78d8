use vstd::prelude::*;

verus! {

/// A point of the plane, given by its two components.
#[derive(Debug, PartialEq, Eq, Structural)]
pub struct Position<T> {
    pub x: T,
    pub y: T,
}

impl<T: Copy> Clone for Position<T> {
    fn clone(&self) -> (p: Self)
        ensures
            p == *self,
    {
        *self
    }
}

impl<T: Copy> Copy for Position<T> {

}

impl Default for Position<i32> {
    /// The point whose two components are zero.
    fn default() -> (p: Self)
        ensures
            p == (Position { x: 0i32, y: 0i32 }),
    {
        Position { x: 0, y: 0 }
    }
}

impl Position<i32> {
    /// The point `(x, y)`.
    pub fn new(x: i32, y: i32) -> (p: Self)
        ensures
            p == (Position { x, y }),
    {
        Position { x, y }
    }

    /// The point whose two components are zero.
    pub fn origin() -> (p: Self)
        ensures
            p == (Position { x: 0i32, y: 0i32 }),
    {
        Position { x: 0, y: 0 }
    }
}

} // verus!
