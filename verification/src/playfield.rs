//! The grid on which the game is played: cells, headings, and movement that
//! wraps round at the edges.

use vstd::prelude::*;
use vstd::std_specs::cmp::PartialEqSpecImpl;

verus! {

/// One of the four ways the snake can head. There is no diagonal.
#[derive(PartialEq, Eq, Structural, Clone, Copy, Debug)]
pub enum Direction {
    Up,
    Down,
    Left,
    Right,
}

impl Direction {
    /// The heading that points the other way.
    pub open spec fn opposite(self) -> Direction {
        match self {
            Direction::Up => Direction::Down,
            Direction::Down => Direction::Up,
            Direction::Left => Direction::Right,
            Direction::Right => Direction::Left,
        }
    }

    /// The heading after `input` is asked for: `input` itself, unless it
    /// would turn the snake back on itself.
    pub open spec fn turned(self, input: Direction) -> Direction {
        if input == self.opposite() {
            self
        } else {
            input
        }
    }
}

/// A cell of the grid.
#[derive(Eq, Clone, Copy, Debug)]
pub struct Point {
    pub x: u32,
    pub y: u32,
}

impl PartialEq for Point {
    /// Two cells are equal when both coordinates are.
    fn eq(&self, other: &Point) -> (equal: bool) {
        self.x == other.x && self.y == other.y
    }
}

impl PartialEqSpecImpl for Point {
    open spec fn obeys_eq_spec() -> bool {
        true
    }

    open spec fn eq_spec(&self, other: &Point) -> bool {
        self.x == other.x && self.y == other.y
    }
}

impl Point {
    /// The cell in column `x` of row `y`.
    pub fn new(x: u32, y: u32) -> (point: Self)
        ensures
            point.x == x,
            point.y == y,
    {
        Self { x, y }
    }

    /// Whether the cell lies on a grid of `bounds.0` columns and `bounds.1`
    /// rows.
    pub open spec fn within(self, bounds: (u32, u32)) -> bool {
        self.x < bounds.0 && self.y < bounds.1
    }

    /// The cell one step from this one in the given heading. The grid is a
    /// torus: a step over an edge lands on the opposite edge.
    pub open spec fn neighbour(self, heading: Direction, bounds: (u32, u32)) -> Point {
        match heading {
            Direction::Up => Point {
                x: self.x,
                y: if self.y == 0 {
                    (bounds.1 - 1) as u32
                } else {
                    (self.y - 1) as u32
                },
            },
            Direction::Down => Point {
                x: self.x,
                y: if self.y == bounds.1 - 1 {
                    0
                } else {
                    (self.y + 1) as u32
                },
            },
            Direction::Left => Point {
                x: if self.x == 0 {
                    (bounds.0 - 1) as u32
                } else {
                    (self.x - 1) as u32
                },
                y: self.y,
            },
            Direction::Right => Point {
                x: if self.x == bounds.0 - 1 {
                    0
                } else {
                    (self.x + 1) as u32
                },
                y: self.y,
            },
        }
    }

    /// Whether this cell comes before `other` when cells are read row by
    /// row, each row from the left.
    pub open spec fn precedes(self, other: Point) -> bool {
        self.y < other.y || (self.y == other.y && self.x < other.x)
    }
}

/// A step never leaves the grid, and a step over an edge comes back in at the
/// opposite edge of the same row or column.
pub proof fn lemma_step_wraps(cell: Point, heading: Direction, bounds: (u32, u32))
    requires
        cell.within(bounds),
    ensures
        cell.neighbour(heading, bounds).within(bounds),
        heading == Direction::Left && cell.x == 0 ==> cell.neighbour(heading, bounds) == (Point {
            x: (bounds.0 - 1) as u32,
            y: cell.y,
        }),
        heading == Direction::Right && cell.x == bounds.0 - 1 ==> cell.neighbour(heading, bounds)
            == (Point { x: 0, y: cell.y }),
        heading == Direction::Up && cell.y == 0 ==> cell.neighbour(heading, bounds) == (Point {
            x: cell.x,
            y: (bounds.1 - 1) as u32,
        }),
        heading == Direction::Down && cell.y == bounds.1 - 1 ==> cell.neighbour(heading, bounds)
            == (Point { x: cell.x, y: 0 }),
{
}

} // verus!
