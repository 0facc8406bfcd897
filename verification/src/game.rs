//! The game: a snake that moves one cell per tick on a torus, grows by one
//! segment for each food it eats, and ends the game by running into itself.

use crate::fixed_vec_deque::FixedVecDeque;
use crate::playfield::Direction;
use crate::playfield::Point;
use crate::random::draw_below;
use crate::random::seeded;
use crate::render::game_discs;
use crate::render::Discs;
use crate::rules::is_free;
use crate::rules::lemma_free_cell_iff_shorter;
use crate::rules::lemma_snake_fits_grid;
use crate::rules::GameView;
use crate::rules::FIRST_FOOD_OFFSET;
use rand::rngs::SmallRng;
use vstd::prelude::*;

verus! {

/// The seed of the generator that places food. It is fixed, so that two games
/// on one machine see the same food.
pub const FOOD_SEED: u64 = 0;

/// How many cells are drawn at random for new food before the grid is
/// searched row by row instead. The bound is there so that placing food is
/// sure to end; in play it is out of reach.
pub const FOOD_DRAWS: u32 = u32::MAX;

/// The snake: its segments from head to tail, and where it is heading.
#[derive(Debug)]
pub struct Snake<const N: usize> {
    pub body: FixedVecDeque<Point, N>,
    pub direction: Direction,
}

/// The one piece of food on the grid.
#[derive(Debug)]
pub struct Food {
    pub position: Point,
}

/// What a tick changed, so that a display can redraw no more than that.
#[derive(Clone, Copy, Debug, PartialEq, Eq)]
pub enum Update {
    /// The snake moved: its head entered the first cell and its tail left
    /// the second.
    Snake(Point, Point),
    /// The snake ate: food now lies on the first cell and lay on the second.
    Food(Point, Point),
    /// Nothing changed, because the snake ran into itself.
    NoChange,
}

/// A game on a grid of `bounds.0` columns and `bounds.1` rows, with room for
/// a snake of `N` segments.
#[derive(Debug)]
pub struct Game<const N: usize> {
    pub snake: Snake<N>,
    pub food: Food,
    pub score: u32,
    pub game_over: bool,
    pub bounds: (u32, u32),
    rng: SmallRng,
}

impl<const N: usize> View for Game<N> {
    type V = GameView;

    /// The state of the game.
    closed spec fn view(&self) -> GameView {
        GameView {
            body: self.snake.body@,
            heading: self.snake.direction,
            food: self.food.position,
            score: self.score as nat,
            game_over: self.game_over,
            bounds: self.bounds,
        }
    }
}

impl<const N: usize> Game<N> {
    /// The generator that places food.
    pub closed spec fn source(&self) -> SmallRng {
        self.rng
    }

    /// The representation invariant: the buffer that holds the snake is
    /// well formed.
    pub closed spec fn wf(&self) -> bool {
        self.snake.body.wf()
    }

    /// A new game: the snake is one segment in the middle of the grid and
    /// heads right, the first food lies to its right.
    pub fn new(bounds: (u32, u32)) -> (game: Self)
        requires
            N > 0,
        ensures
            game.wf(),
            game@ == GameView::start(bounds),
            game@.fits(N as nat) ==> game@.playable(N as nat),
    {
        let mut snake = Snake { body: FixedVecDeque::new(), direction: Direction::Right };
        snake.body.push_back(Point { x: bounds.0 / 2, y: bounds.1 / 2 });

        let food = Food {
            position: Point { x: (bounds.0 / 2) + FIRST_FOOD_OFFSET, y: bounds.1 / 2 },
        };

        Self { rng: seeded(FOOD_SEED), snake, food, score: 0, game_over: false, bounds }
    }

    /// Starts over on the same grid: snake, food, score and the end-of-game
    /// flag are as in a new game. The generator is left as it is.
    pub fn reset(&mut self)
        requires
            N > 0,
        ensures
            final(self).wf(),
            final(self)@ == GameView::start(old(self)@.bounds),
            final(self)@.fits(N as nat) ==> final(self)@.playable(N as nat),
            final(self).source() == old(self).source(),
    {
        self.snake = Snake { body: FixedVecDeque::new(), direction: Direction::Right };
        self.snake.body.push_back(Point { x: self.bounds.0 / 2, y: self.bounds.1 / 2 });

        self.food = Food {
            position: Point { x: (self.bounds.0 / 2) + FIRST_FOOD_OFFSET, y: self.bounds.1 / 2 },
        };

        self.score = 0;
        self.game_over = false;
    }

    /// Turns the snake towards `input`, unless that is the reverse of its
    /// heading: a snake cannot turn back on itself.
    pub fn handle_input(&mut self, input: Direction)
        ensures
            final(self).wf() == old(self).wf(),
            final(self)@ == old(self)@.turned(input),
            final(self).source() == old(self).source(),
    {
        match input {
            Direction::Up => {
                if self.snake.direction != Direction::Down {
                    self.snake.direction = Direction::Up;
                }
            },
            Direction::Down => {
                if self.snake.direction != Direction::Up {
                    self.snake.direction = Direction::Down;
                }
            },
            Direction::Left => {
                if self.snake.direction != Direction::Right {
                    self.snake.direction = Direction::Left;
                }
            },
            Direction::Right => {
                if self.snake.direction != Direction::Left {
                    self.snake.direction = Direction::Right;
                }
            },
        }
    }

    /// The first cell, row by row from the top left, that the snake does
    /// not cover, or `None` where it covers the whole grid.
    pub fn first_free_cell(&self) -> (found: Option<Point>)
        requires
            self.wf(),
        ensures
            match found {
                Some(cell) => {
                    &&& is_free(self@.body, self@.bounds, cell)
                    &&& forall|other: Point|
                        other.within(self@.bounds) && #[trigger] other.precedes(cell)
                            ==> self@.body.contains(other)
                },
                None => forall|other: Point| #[trigger]
                    other.within(self@.bounds) ==> self@.body.contains(other),
            },
    {
        let mut y: u32 = 0;
        while y < self.bounds.1
            invariant
                self.wf(),
                y <= self.bounds.1,
                forall|other: Point| #[trigger]
                    other.within(self.bounds) && other.y < y ==> self.snake.body@.contains(other),
            decreases self.bounds.1 - y,
        {
            let mut x: u32 = 0;
            while x < self.bounds.0
                invariant
                    self.wf(),
                    y < self.bounds.1,
                    x <= self.bounds.0,
                    forall|other: Point| #[trigger]
                        other.within(self.bounds) && (other.y < y || (other.y == y && other.x < x))
                            ==> self.snake.body@.contains(other),
                decreases self.bounds.0 - x,
            {
                let cell = Point { x, y };
                if !self.snake.body.contains(&cell) {
                    return Some(cell);
                }
                x += 1;
            }
            y += 1;
        }
        None
    }

    /// Picks the cell for new food: cells are drawn uniformly at random, the
    /// column first, until one is free of the snake. Should `FOOD_DRAWS`
    /// draws in a row hit the snake, the first free cell is taken instead.
    fn generate_food(&mut self) -> (cell: Point)
        requires
            old(self).wf(),
            old(self)@.bounds.0 > 0,
            old(self)@.bounds.1 > 0,
            exists|free: Point| is_free(old(self)@.body, old(self)@.bounds, free),
        ensures
            final(self).wf(),
            final(self)@ == old(self)@,
            is_free(old(self)@.body, old(self)@.bounds, cell),
    {
        let mut draws: u32 = 0;
        while draws < FOOD_DRAWS
            invariant
                self.wf(),
                self@ == old(self)@,
                self.bounds.0 > 0,
                self.bounds.1 > 0,
            decreases FOOD_DRAWS - draws,
        {
            let x = draw_below(&mut self.rng, self.bounds.0);
            let y = draw_below(&mut self.rng, self.bounds.1);
            let cell = Point { x, y };
            if !self.snake.body.contains(&cell) {
                return cell;
            }
            draws += 1;
        }
        match self.first_free_cell() {
            Some(cell) => cell,
            None => {
                proof {
                    let free = choose|free: Point| is_free(self@.body, self@.bounds, free);
                    assert(free.within(self@.bounds));
                }
                unreached()
            },
        }
    }

    /// Plays one tick. The head moves one cell in the snake's heading, over
    /// an edge onto the opposite edge.
    ///
    /// * Where that cell is under the snake, the game ends and nothing else
    ///   changes.
    /// * Where it holds the food, the snake grows by the new head and the
    ///   score goes up. New food is placed on a free cell; if the snake now
    ///   covers the whole grid, there is none, the game ends and both cells of
    ///   the answer are the one on which the food was eaten.
    /// * Otherwise the snake moves: it gains the new head and loses its tail.
    pub fn update(&mut self) -> (update: Update)
        requires
            old(self).wf(),
            old(self)@.playable(N as nat),
            old(self)@.eats() ==> old(self)@.score < u32::MAX,
        ensures
            final(self).wf(),
            final(self)@.playable(N as nat),
            old(self)@.collides() ==> {
                &&& update == Update::NoChange
                &&& final(self)@ == old(self)@.ended()
                &&& final(self).source() == old(self).source()
            },
            !old(self)@.collides() && !old(self)@.eats() ==> {
                &&& update == Update::Snake(old(self)@.next_head(), old(self)@.body.last())
                &&& final(self)@ == old(self)@.moved()
                &&& final(self).source() == old(self).source()
            },
            old(self)@.eats() && old(self)@.has_room() ==> {
                &&& update matches Update::Food(placed, eaten)
                &&& eaten == old(self)@.food
                &&& is_free(old(self)@.fed(placed).body, old(self)@.bounds, placed)
                &&& final(self)@ == old(self)@.fed(placed)
            },
            old(self)@.eats() && !old(self)@.has_room() ==> {
                &&& update == Update::Food(old(self)@.food, old(self)@.food)
                &&& final(self)@ == old(self)@.fed(old(self)@.food).ended()
                &&& final(self).source() == old(self).source()
            },
    {
        let mut new_head = self.snake.body.front().unwrap().clone();

        match self.snake.direction {
            Direction::Up => {
                if new_head.y == 0 {
                    new_head.y = self.bounds.1 - 1;
                } else {
                    new_head.y -= 1;
                }
            },
            Direction::Down => {
                if new_head.y == self.bounds.1 - 1 {
                    new_head.y = 0;
                } else {
                    new_head.y += 1;
                }
            },
            Direction::Left => {
                if new_head.x == 0 {
                    new_head.x = self.bounds.0 - 1;
                } else {
                    new_head.x -= 1;
                }
            },
            Direction::Right => {
                if new_head.x == self.bounds.0 - 1 {
                    new_head.x = 0;
                } else {
                    new_head.x += 1;
                }
            },
        }
        assert(new_head == old(self)@.next_head());

        if self.snake.body.contains(&new_head) {
            self.game_over = true;
            return Update::NoChange;
        }
        proof {
            let grown = seq![new_head] + self.snake.body@;
            assert(grown.no_duplicates());
            lemma_snake_fits_grid(grown, self.bounds);
            lemma_free_cell_iff_shorter(grown, self.bounds);
        }

        self.snake.body.push_front(new_head);

        if *self.snake.body.front().unwrap() == self.food.position {
            self.score += 1;
            let old_food = self.food.position.clone();
            let cells: u64 = (self.bounds.0 as u64) * (self.bounds.1 as u64);
            if self.snake.body.len() as u64 >= cells {
                self.game_over = true;
                Update::Food(old_food, old_food)
            } else {
                self.food.position = self.generate_food();
                Update::Food(self.food.position.clone(), old_food)
            }
        } else {
            Update::Snake(
                self.snake.body.front().unwrap().clone(),
                self.snake.body.pop_back().unwrap(),
            )
        }
    }

    /// The circles to draw for the game: the snake's from head to tail,
    /// then the food's.
    pub fn discs(&self) -> (discs: Discs<'_, N>)
        requires
            self.wf(),
        ensures
            discs.wf(),
            discs.position() == 0,
            discs.all() == game_discs(self@.body, self@.food),
    {
        Discs::starting(self.snake.body.iter(), Some(self.food.position))
    }
}

} // verus!
