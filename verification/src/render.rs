//! What a display is asked to draw for a game: one filled circle for each
//! segment of the snake, then one for the food; and how much of the display
//! a tick asks to refresh.
//!
//! Circles and rectangles are plain values, handed out without allocating.
//! Putting them on a display is left to the caller.

use crate::fixed_vec_deque::FixedVecDequeIter;
use crate::game::Food;
use crate::game::Snake;
use crate::game::Update;
use crate::playfield::Point;
use vstd::prelude::*;

verus! {

/// The side of a cell on the display, in pixels.
pub const CELL_SIZE: u32 = 8;

/// The diameter of the circle drawn for a segment of the snake, in pixels.
pub const SEGMENT_DIAMETER: u32 = 4;

/// The diameter of the circle drawn for the food, in pixels.
pub const FOOD_DIAMETER: u32 = 8;

/// One of the two colours of the display.
#[derive(PartialEq, Eq, Structural, Clone, Copy, Debug)]
pub enum Ink {
    On,
    Off,
}

/// A filled circle, by the pixel at its centre. The coordinates are wide
/// enough for the middle of any cell.
#[derive(PartialEq, Eq, Structural, Clone, Copy, Debug)]
pub struct Disc {
    pub x: i64,
    pub y: i64,
    pub diameter: u32,
    pub ink: Ink,
}

/// A rectangle of pixels, by the pixel in its top left corner. The
/// coordinates are wide enough for the corner of any cell.
#[derive(PartialEq, Eq, Structural, Clone, Copy, Debug)]
pub struct Patch {
    pub x: u64,
    pub y: u64,
    pub width: u32,
    pub height: u32,
}

/// How much of the display has to be refreshed after a tick.
#[derive(PartialEq, Eq, Structural, Clone, Copy, Debug)]
pub enum Refresh {
    /// Nothing: the picture is as it was.
    Nothing,
    /// Two cells: first the one that the head entered, then the one that
    /// the tail left.
    Cells(Patch, Patch),
    /// The whole display.
    Full,
}

/// The pixels of a cell.
pub open spec fn patch_of(cell: Point) -> Patch {
    Patch {
        x: (cell.x * CELL_SIZE) as u64,
        y: (cell.y * CELL_SIZE) as u64,
        width: CELL_SIZE,
        height: CELL_SIZE,
    }
}

/// The refresh that a tick asks for: the two cells that changed where the
/// snake only moved, the whole display where it ate, nothing where nothing
/// changed.
pub open spec fn refresh_for(update: Update) -> Refresh {
    match update {
        Update::Snake(entered, left) => Refresh::Cells(patch_of(entered), patch_of(left)),
        Update::Food(_, _) => Refresh::Full,
        Update::NoChange => Refresh::Nothing,
    }
}

/// The circle of the given diameter in the middle of a cell, filled with the
/// "off" colour so that it shows on a display cleared to "on".
pub open spec fn disc_on(cell: Point, diameter: u32) -> Disc {
    Disc {
        x: (cell.x * CELL_SIZE + CELL_SIZE / 2) as i64,
        y: (cell.y * CELL_SIZE + CELL_SIZE / 2) as i64,
        diameter,
        ink: Ink::Off,
    }
}

/// The circles for a snake: one for each segment, from head to tail.
pub open spec fn snake_discs(body: Seq<Point>) -> Seq<Disc> {
    body.map_values(|cell: Point| disc_on(cell, SEGMENT_DIAMETER))
}

/// The circles for a game: those of the snake, then the larger one of the
/// food, which is therefore drawn on top.
pub open spec fn game_discs(body: Seq<Point>, food: Point) -> Seq<Disc> {
    snake_discs(body).push(disc_on(food, FOOD_DIAMETER))
}

impl Point {
    /// The pixels of this cell.
    pub fn patch(&self) -> (patch: Patch)
        ensures
            patch == patch_of(*self),
    {
        let side: u64 = CELL_SIZE as u64;
        assert(side == 8);
        Patch { x: self.x as u64 * side, y: self.y as u64 * side, width: CELL_SIZE, height: CELL_SIZE }
    }

    /// The circle of the given diameter in the middle of this cell.
    pub fn disc(&self, diameter: u32) -> (disc: Disc)
        ensures
            disc == disc_on(*self, diameter),
    {
        let side: i64 = CELL_SIZE as i64;
        assert(side == 8);
        Disc {
            x: self.x as i64 * side + side / 2,
            y: self.y as i64 * side + side / 2,
            diameter,
            ink: Ink::Off,
        }
    }
}

impl Update {
    /// How much of the display to refresh for this update.
    pub fn refresh(&self) -> (refresh: Refresh)
        ensures
            refresh == refresh_for(*self),
    {
        match self {
            Update::Snake(entered, left) => Refresh::Cells(entered.patch(), left.patch()),
            Update::Food(_, _) => Refresh::Full,
            Update::NoChange => Refresh::Nothing,
        }
    }
}

impl Food {
    /// The circle to draw for the food.
    pub fn disc(&self) -> (disc: Disc)
        ensures
            disc == disc_on(self.position, FOOD_DIAMETER),
    {
        self.position.disc(FOOD_DIAMETER)
    }
}

/// A pass over the circles to draw, in drawing order.
pub struct Discs<'a, const N: usize> {
    segments: FixedVecDequeIter<'a, Point, N>,
    food: Option<Point>,
    food_served: bool,
}

impl<'a, const N: usize> Discs<'a, N> {
    /// The pass is over a well-formed snake, and the food comes after the
    /// last segment.
    pub closed spec fn wf(&self) -> bool {
        &&& self.segments.wf()
        &&& self.segments.position() <= self.segments.items().len()
        &&& self.food_served ==> self.food is Some && self.segments.position()
            == self.segments.items().len()
    }

    /// All the circles of the pass, in drawing order.
    pub closed spec fn all(&self) -> Seq<Disc> {
        match self.food {
            Some(food) => game_discs(self.segments.items(), food),
            None => snake_discs(self.segments.items()),
        }
    }

    /// How many circles the pass has handed out.
    pub closed spec fn position(&self) -> nat {
        if self.food_served {
            self.segments.position() + 1
        } else {
            self.segments.position()
        }
    }

    /// A pass over the circles of the segments that `segments` hands out,
    /// followed by that of `food` where there is one.
    pub(crate) fn starting(
        segments: FixedVecDequeIter<'a, Point, N>,
        food: Option<Point>,
    ) -> (discs: Self)
        requires
            segments.wf(),
            segments.position() == 0,
        ensures
            discs.wf(),
            discs.position() == 0,
            discs.all() == match food {
                Some(food) => game_discs(segments.items(), food),
                None => snake_discs(segments.items()),
            },
    {
        Discs { segments, food, food_served: false }
    }

    /// Hands out the next circle, or `None` once all are handed out.
    pub fn next(&mut self) -> (disc: Option<Disc>)
        requires
            old(self).wf(),
        ensures
            final(self).wf(),
            final(self).all() == old(self).all(),
            final(self).position() <= final(self).all().len(),
            old(self).position() < old(self).all().len() ==> disc == Some(
                old(self).all()[old(self).position() as int],
            ) && final(self).position() == old(self).position() + 1,
            old(self).position() >= old(self).all().len() ==> disc is None && final(self).position()
                == old(self).position(),
    {
        match self.segments.next() {
            Some(segment) => Some(segment.disc(SEGMENT_DIAMETER)),
            None => {
                if self.food_served {
                    None
                } else {
                    match self.food {
                        Some(food) => {
                            self.food_served = true;
                            Some(food.disc(FOOD_DIAMETER))
                        },
                        None => None,
                    }
                }
            },
        }
    }
}

impl<const N: usize> Snake<N> {
    /// The circles to draw for the snake, from head to tail.
    pub fn discs(&self) -> (discs: Discs<'_, N>)
        requires
            self.body.wf(),
        ensures
            discs.wf(),
            discs.position() == 0,
            discs.all() == snake_discs(self.body@),
    {
        Discs::starting(self.body.iter(), None)
    }
}

} // verus!
