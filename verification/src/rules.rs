//! The rules of the game as mathematics: the state of a game, what a tick
//! makes of it, and the counting argument that keeps the snake inside its
//! buffer.

use crate::playfield::lemma_step_wraps;
use crate::playfield::Direction;
use crate::playfield::Point;
use vstd::prelude::*;
use vstd::seq_lib::seq_to_set_is_finite;
use vstd::set_lib::lemma_int_range;
use vstd::set_lib::lemma_len_subset;
use vstd::set_lib::set_int_range;

verus! {

/// How far to the right of the centre the first food lies.
pub const FIRST_FOOD_OFFSET: u32 = 3;

/// The cell in the middle of the grid, where the snake starts.
pub open spec fn centre(bounds: (u32, u32)) -> Point {
    Point { x: bounds.0 / 2, y: bounds.1 / 2 }
}

/// The cell of the first food: in the snake's row, a few cells to its right.
pub open spec fn first_food(bounds: (u32, u32)) -> Point {
    Point { x: (bounds.0 / 2 + FIRST_FOOD_OFFSET) as u32, y: bounds.1 / 2 }
}

/// Whether `cell` lies on the grid and under no segment of `body`.
pub open spec fn is_free(body: Seq<Point>, bounds: (u32, u32), cell: Point) -> bool {
    cell.within(bounds) && !body.contains(cell)
}

/// The state of a game, with the random source left out.
#[verifier::ext_equal]
pub struct GameView {
    /// The snake's segments from head to tail.
    pub body: Seq<Point>,
    /// Where the snake is heading.
    pub heading: Direction,
    /// The cell on which the food lies.
    pub food: Point,
    /// How much food the snake has eaten.
    pub score: nat,
    /// Whether the game has ended.
    pub game_over: bool,
    /// The grid's number of columns and of rows.
    pub bounds: (u32, u32),
}

impl GameView {
    /// The state in which every game starts: a snake of one segment in the
    /// middle of the grid that heads right, and the first food to its right.
    pub open spec fn start(bounds: (u32, u32)) -> GameView {
        GameView {
            body: seq![centre(bounds)],
            heading: Direction::Right,
            food: first_food(bounds),
            score: 0,
            game_over: false,
            bounds,
        }
    }

    /// The number of cells of the grid.
    pub open spec fn cells(self) -> int {
        self.bounds.0 * self.bounds.1
    }

    /// Whether the grid has cells, and no more of them than a buffer of
    /// `capacity` segments can hold.
    pub open spec fn fits(self, capacity: nat) -> bool {
        &&& self.bounds.0 > 0
        &&& self.bounds.1 > 0
        &&& self.cells() <= capacity
    }

    /// The invariant of play: the grid fits the buffer, and the snake has a
    /// head, lies on the grid and covers no cell twice.
    pub open spec fn playable(self, capacity: nat) -> bool {
        &&& self.fits(capacity)
        &&& self.body.len() > 0
        &&& self.body.no_duplicates()
        &&& forall|i: int| 0 <= i < self.body.len() ==> (#[trigger] self.body[i]).within(self.bounds)
    }

    /// The cell that the head enters at the next tick.
    pub open spec fn next_head(self) -> Point {
        self.body.first().neighbour(self.heading, self.bounds)
    }

    /// Whether the next tick runs the head into the snake's own body.
    pub open spec fn collides(self) -> bool {
        self.body.contains(self.next_head())
    }

    /// Whether the next tick brings the head onto the food.
    pub open spec fn eats(self) -> bool {
        !self.collides() && self.next_head() == self.food
    }

    /// Whether a snake one segment longer still leaves a cell of the grid
    /// free.
    pub open spec fn has_room(self) -> bool {
        self.body.len() + 1 < self.cells()
    }

    /// The state after a request to head towards `input`.
    pub open spec fn turned(self, input: Direction) -> GameView {
        GameView { heading: self.heading.turned(input), ..self }
    }

    /// The state after the game has ended.
    pub open spec fn ended(self) -> GameView {
        GameView { game_over: true, ..self }
    }

    /// The state after a tick that only moves the snake: the head enters
    /// the next cell and the tail leaves its own.
    pub open spec fn moved(self) -> GameView {
        GameView { body: seq![self.next_head()] + self.body.drop_last(), ..self }
    }

    /// The state after a tick on which the snake eats: the head enters the
    /// next cell, the tail stays, and food lies on `food`.
    pub open spec fn fed(self, food: Point) -> GameView {
        GameView { body: seq![self.next_head()] + self.body, score: self.score + 1, food, ..self }
    }
}

/// Every game starts in a state that can be played, on any grid that fits
/// the buffer.
pub proof fn lemma_start_playable(bounds: (u32, u32), capacity: nat)
    requires
        GameView::start(bounds).fits(capacity),
    ensures
        GameView::start(bounds).playable(capacity),
{
}

/// A tick that does not run the snake into itself leaves a state that can
/// be played: a move keeps the snake's length, a meal adds one segment, and
/// either way the snake still lies on the grid and covers no cell twice.
pub proof fn lemma_tick_keeps_playable(state: GameView, capacity: nat, food: Point)
    requires
        state.playable(capacity),
        !state.collides(),
    ensures
        state.moved().playable(capacity),
        state.moved().body.len() == state.body.len(),
        state.fed(food).playable(capacity),
        state.fed(food).body.len() == state.body.len() + 1,
        state.fed(food).body.len() <= state.cells(),
{
    lemma_step_wraps(state.body.first(), state.heading, state.bounds);
    let grown = state.fed(food).body;
    assert(grown.no_duplicates());
    lemma_snake_fits_grid(grown, state.bounds);
    let moved = state.moved().body;
    assert forall|i: int| 0 <= i < moved.len() implies #[trigger] moved[i] == grown[i] by {}
}

/// A request for the reverse of the heading that was just asked for is
/// refused: the state stays what the first request left it.
pub proof fn lemma_reversal_refused(state: GameView, input: Direction)
    ensures
        state.turned(input).turned(input.opposite()) == state.turned(input),
{
}

/// Asking twice for the same heading is the same as asking once.
pub proof fn lemma_turn_idempotent(state: GameView, input: Direction)
    ensures
        state.turned(input).turned(input) == state.turned(input),
{
}

/// The number of a cell when the cells of a grid of `width` columns are
/// counted row by row.
spec fn rank(cell: Point, width: int) -> int {
    cell.y * width + cell.x
}

/// Counted row by row, the cells of a grid get the numbers from zero up to
/// the number of cells, each cell a number of its own.
proof fn lemma_rank_counts_cells(a: Point, b: Point, bounds: (u32, u32))
    requires
        a.within(bounds),
        b.within(bounds),
    ensures
        0 <= rank(a, bounds.0 as int) < bounds.0 * bounds.1,
        rank(a, bounds.0 as int) == rank(b, bounds.0 as int) ==> a == b,
{
    let w = bounds.0 as int;
    let h = bounds.1 as int;
    let (ax, ay) = (a.x as int, a.y as int);
    let (bx, by) = (b.x as int, b.y as int);
    assert(0 <= ay * w + ax < w * h) by (nonlinear_arith)
        requires
            0 <= ax < w,
            0 <= ay < h,
    ;
    assert(ay * w + ax == by * w + bx ==> ay == by && ax == bx) by (nonlinear_arith)
        requires
            0 <= ax < w,
            0 <= bx < w,
            0 <= ay,
            0 <= by,
    ;
}

/// Every number below the number of cells is the number of a cell of the
/// grid.
proof fn lemma_rank_reaches(code: int, bounds: (u32, u32)) -> (cell: Point)
    requires
        0 <= code < bounds.0 * bounds.1,
    ensures
        cell.within(bounds),
        rank(cell, bounds.0 as int) == code,
{
    let w = bounds.0 as int;
    let h = bounds.1 as int;
    assert(w > 0) by (nonlinear_arith)
        requires
            0 <= code < w * h,
            w >= 0,
            h >= 0,
    ;
    assert(0 <= code % w < w && 0 <= code / w < h && (code / w) * w + code % w == code)
        by (nonlinear_arith)
        requires
            0 <= code < w * h,
            w > 0,
    ;
    Point { x: (code % w) as u32, y: (code / w) as u32 }
}

/// A snake that lies on the grid and covers no cell twice has no more
/// segments than the grid has cells.
pub proof fn lemma_snake_fits_grid(body: Seq<Point>, bounds: (u32, u32))
    requires
        body.no_duplicates(),
        forall|i: int| 0 <= i < body.len() ==> (#[trigger] body[i]).within(bounds),
    ensures
        body.len() <= bounds.0 * bounds.1,
{
    let w = bounds.0 as int;
    let cells = bounds.0 * bounds.1;
    let codes = body.map_values(|cell: Point| rank(cell, w));
    assert(codes.no_duplicates()) by {
        assert forall|i: int, j: int|
            0 <= i < codes.len() && 0 <= j < codes.len() && i != j implies codes[i] != codes[j] by {
            lemma_rank_counts_cells(body[i], body[j], bounds);
        }
    }
    codes.unique_seq_to_set();
    assert(codes.to_set().subset_of(set_int_range(0, cells))) by {
        assert forall|code: int| codes.to_set().contains(code) implies set_int_range(
            0,
            cells,
        ).contains(code) by {
            let i = choose|i: int| 0 <= i < codes.len() && codes[i] == code;
            lemma_rank_counts_cells(body[i], body[i], bounds);
        }
    }
    lemma_int_range(0, cells);
    lemma_len_subset(codes.to_set(), set_int_range(0, cells));
}

/// A snake that lies on the grid and covers no cell twice leaves a cell free
/// exactly when it has fewer segments than the grid has cells.
pub proof fn lemma_free_cell_iff_shorter(body: Seq<Point>, bounds: (u32, u32))
    requires
        body.no_duplicates(),
        forall|i: int| 0 <= i < body.len() ==> (#[trigger] body[i]).within(bounds),
    ensures
        (exists|cell: Point| is_free(body, bounds, cell)) <==> body.len() < bounds.0 * bounds.1,
{
    let w = bounds.0 as int;
    let cells = bounds.0 * bounds.1;
    if exists|cell: Point| is_free(body, bounds, cell) {
        let cell = choose|cell: Point| is_free(body, bounds, cell);
        let longer = body.push(cell);
        assert(longer.no_duplicates());
        lemma_snake_fits_grid(longer, bounds);
    }
    if body.len() < cells {
        lemma_snake_fits_grid(body, bounds);
        let codes = body.map_values(|cell: Point| rank(cell, w));
        let all = set_int_range(0, cells);
        lemma_int_range(0, cells);
        if all.subset_of(codes.to_set()) {
            seq_to_set_is_finite(codes);
            lemma_len_subset(all, codes.to_set());
            codes.lemma_cardinality_of_set();
        }
        let code = choose|code: int| all.contains(code) && !codes.to_set().contains(code);
        let cell = lemma_rank_reaches(code, bounds);
        if body.contains(cell) {
            let i = choose|i: int| 0 <= i < body.len() && body[i] == cell;
            assert(codes[i] == code);
        }
        assert(is_free(body, bounds, cell));
    }
}

} // verus!
