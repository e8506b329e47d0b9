use vstd::prelude::*;

use crate::grid::Grid;

verus! {

/// A compass heading, cyclically ordered clockwise: N, E, S, W.
///
/// The heading is a closed four-way variant, not an integer, so that the
/// rotation and movement tables below are exhaustive and no fifth value can
/// slip in.
#[derive(Clone, Copy, Debug, PartialEq, Eq, Structural)]
pub enum Direction {
    N,
    E,
    S,
    W,
}

impl Direction {
    /// The heading after one counter-clockwise quarter turn.
    pub open spec fn turned_left(self) -> Direction {
        match self {
            Direction::N => Direction::W,
            Direction::W => Direction::S,
            Direction::S => Direction::E,
            Direction::E => Direction::N,
        }
    }

    /// The heading after one clockwise quarter turn.
    pub open spec fn turned_right(self) -> Direction {
        match self {
            Direction::N => Direction::E,
            Direction::E => Direction::S,
            Direction::S => Direction::W,
            Direction::W => Direction::N,
        }
    }
}

/// The rover: a position, a heading, and a terminal `lost` flag.
///
/// While `lost` is false the rover is active and commands act on it; once a
/// forward move steps off the grid, `lost` becomes true and the pose freezes
/// at the last in-bounds values. `lost` never returns to false.
#[derive(Clone, Copy, Debug, PartialEq, Eq, Structural)]
pub struct Robot {
    pub x: i32,
    pub y: i32,
    pub direction: Direction,
    pub lost: bool,
}

impl Robot {
    /// Whether the rover's cell lies on the grid.
    pub open spec fn in_bounds(self, grid: Grid) -> bool {
        0 <= self.x <= grid.max_x && 0 <= self.y <= grid.max_y
    }

    /// The cell one step ahead of the rover, as unbounded integers.
    pub open spec fn forward_target(self) -> (int, int) {
        match self.direction {
            Direction::N => (self.x as int, self.y + 1),
            Direction::E => (self.x + 1, self.y as int),
            Direction::S => (self.x as int, self.y - 1),
            Direction::W => (self.x - 1, self.y as int),
        }
    }

    /// The rover after `rotate_left`: a quarter turn counter-clockwise,
    /// position unchanged; a no-op once lost.
    pub open spec fn spec_rotate_left(self) -> Robot {
        if self.lost {
            self
        } else {
            Robot { direction: self.direction.turned_left(), ..self }
        }
    }

    /// The rover after `rotate_right`: a quarter turn clockwise, position
    /// unchanged; a no-op once lost.
    pub open spec fn spec_rotate_right(self) -> Robot {
        if self.lost {
            self
        } else {
            Robot { direction: self.direction.turned_right(), ..self }
        }
    }

    /// The rover after `move_forward`: one step ahead when the target cell is
    /// on the grid, otherwise lost at the unchanged pose; a no-op once lost.
    pub open spec fn spec_move_forward(self, grid: Grid) -> Robot {
        if self.lost {
            self
        } else {
            let t = self.forward_target();
            if 0 <= t.0 <= grid.max_x && 0 <= t.1 <= grid.max_y {
                Robot { x: t.0 as i32, y: t.1 as i32, ..self }
            } else {
                Robot { lost: true, ..self }
            }
        }
    }

    /// Launch a rover at the given pose. The start is not validated against
    /// any grid: a rover launched off the grid is simply lost by its first
    /// forward move.
    pub fn new(x: i32, y: i32, direction: Direction) -> (r: Robot)
        ensures
            r == (Robot { x, y, direction, lost: false }),
    {
        Robot { x, y, direction, lost: false }
    }

    /// Rebuild a rover from a previously reported state, `lost` flag
    /// included.
    pub fn from_state(x: i32, y: i32, direction: Direction, lost: bool) -> (r: Robot)
        ensures
            r == (Robot { x, y, direction, lost }),
    {
        Robot { x, y, direction, lost }
    }

    /// The reportable state: position, heading, and the `lost` flag.
    pub fn state(&self) -> (s: (i32, i32, Direction, bool))
        ensures
            s == (self.x, self.y, self.direction, self.lost),
    {
        (self.x, self.y, self.direction, self.lost)
    }

    /// Turn a quarter counter-clockwise; a no-op once lost. Never fails.
    pub fn rotate_left(&mut self)
        ensures
            *final(self) == old(self).spec_rotate_left(),
    {
        if !self.lost {
            self.direction = match self.direction {
                Direction::N => Direction::W,
                Direction::W => Direction::S,
                Direction::S => Direction::E,
                Direction::E => Direction::N,
            };
        }
    }

    /// Turn a quarter clockwise; a no-op once lost. Never fails.
    pub fn rotate_right(&mut self)
        ensures
            *final(self) == old(self).spec_rotate_right(),
    {
        if !self.lost {
            self.direction = match self.direction {
                Direction::N => Direction::E,
                Direction::E => Direction::S,
                Direction::S => Direction::W,
                Direction::W => Direction::N,
            };
        }
    }

    /// Step one cell in the current heading. When the target cell falls
    /// outside the grid the rover becomes lost and keeps its last in-bounds
    /// pose; once lost this is a no-op. Never fails.
    ///
    /// The bound checks are phrased so that no coordinate arithmetic can
    /// overflow: a coordinate is incremented only after it was seen to be
    /// strictly below the corresponding bound.
    pub fn move_forward(&mut self, grid: &Grid)
        ensures
            *final(self) == old(self).spec_move_forward(*grid),
    {
        if self.lost {
            return;
        }
        match self.direction {
            Direction::N => {
                if 0 <= self.x && self.x <= grid.max_x && -1 <= self.y && self.y < grid.max_y {
                    self.y = self.y + 1;
                } else {
                    self.lost = true;
                }
            }
            Direction::E => {
                if -1 <= self.x && self.x < grid.max_x && 0 <= self.y && self.y <= grid.max_y {
                    self.x = self.x + 1;
                } else {
                    self.lost = true;
                }
            }
            Direction::S => {
                if 0 <= self.x && self.x <= grid.max_x && 1 <= self.y && self.y - 1 <= grid.max_y {
                    self.y = self.y - 1;
                } else {
                    self.lost = true;
                }
            }
            Direction::W => {
                if 1 <= self.x && self.x - 1 <= grid.max_x && 0 <= self.y && self.y <= grid.max_y {
                    self.x = self.x - 1;
                } else {
                    self.lost = true;
                }
            }
        }
    }
}

/// Turning is a four-cycle and the two turns are mutual inverses: four left
/// turns (or four right turns) return any rover to its original state, and a
/// left turn followed by a right turn (or the reverse) changes nothing.
pub proof fn lemma_rotation_cycle(r: Robot)
    ensures
        r.spec_rotate_left().spec_rotate_left().spec_rotate_left().spec_rotate_left() == r,
        r.spec_rotate_right().spec_rotate_right().spec_rotate_right().spec_rotate_right() == r,
        r.spec_rotate_right().spec_rotate_left() == r,
        r.spec_rotate_left().spec_rotate_right() == r,
{
}

/// A half turn is the same whichever way it is taken: two left turns and two
/// right turns yield the same rover.
pub proof fn lemma_half_turn(r: Robot)
    ensures
        r.spec_rotate_left().spec_rotate_left() == r.spec_rotate_right().spec_rotate_right(),
{
}

/// A committed forward move, a half turn, and a second committed forward move
/// bring the rover back to its starting cell (facing the opposite way).
pub proof fn lemma_move_then_reverse(r: Robot, grid: Grid)
    requires
        !r.lost,
        r.in_bounds(grid),
        !r.spec_move_forward(grid).spec_rotate_left().spec_rotate_left().spec_move_forward(
            grid,
        ).lost,
    ensures
        ({
            let back = r.spec_move_forward(grid).spec_rotate_left().spec_rotate_left()
                .spec_move_forward(grid);
            back.x == r.x && back.y == r.y
        }),
{
}

/// Loss is terminal and idempotent: a lost rover is left unchanged by every
/// turn and by every forward move.
pub proof fn lemma_lost_is_terminal(r: Robot, grid: Grid)
    requires
        r.lost,
    ensures
        r.spec_rotate_left() == r,
        r.spec_rotate_right() == r,
        r.spec_move_forward(grid) == r,
{
}

/// Loss is monotonic: turning never touches the `lost` flag, and a forward
/// move can only set it, never clear it.
pub proof fn lemma_lost_is_monotonic(r: Robot, grid: Grid)
    ensures
        r.spec_rotate_left().lost == r.lost,
        r.spec_rotate_right().lost == r.lost,
        r.lost ==> r.spec_move_forward(grid).lost,
{
}

/// An active rover on the grid stays on the grid: a committed move lands in
/// bounds, and a refused move leaves the pose (still in bounds) frozen.
pub proof fn lemma_moves_preserve_bounds(r: Robot, grid: Grid)
    requires
        r.in_bounds(grid),
    ensures
        r.spec_rotate_left().in_bounds(grid),
        r.spec_rotate_right().in_bounds(grid),
        r.spec_move_forward(grid).in_bounds(grid),
{
}

/// Rebuilding a rover from the four fields of its reported state reproduces
/// the identical rover.
pub proof fn lemma_state_round_trip(r: Robot)
    ensures
        (Robot { x: r.x, y: r.y, direction: r.direction, lost: r.lost }) == r,
{
}

} // verus!
