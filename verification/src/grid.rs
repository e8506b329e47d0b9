use vstd::prelude::*;

verus! {

/// The rectangular world: the cells range from (0, 0) to (max_x, max_y),
/// both bounds inclusive. A grid never changes once constructed.
#[derive(Clone, Copy, Debug, PartialEq, Eq, Structural)]
pub struct Grid {
    pub max_x: i32,
    pub max_y: i32,
}

impl Grid {
    /// The bounds are taken as given: the session driver validates operator
    /// input (in particular non-negativity) before construction, so this
    /// layer rejects nothing.
    pub fn new(max_x: i32, max_y: i32) -> (g: Grid)
        ensures
            g.max_x == max_x,
            g.max_y == max_y,
    {
        Grid { max_x, max_y }
    }

    pub fn max_x(&self) -> (r: i32)
        ensures
            r == self.max_x,
    {
        self.max_x
    }

    pub fn max_y(&self) -> (r: i32)
        ensures
            r == self.max_y,
    {
        self.max_y
    }
}

} // verus!
