use badger_snake::fixed_vec_deque::FixedVecDeque;
use badger_snake::render::Disc;
use badger_snake::render::Discs;
use badger_snake::render::Ink;
use badger_snake::render::Patch;
use badger_snake::render::Refresh;
use badger_snake::render::CELL_SIZE;
use badger_snake::render::FOOD_DIAMETER;
use badger_snake::render::SEGMENT_DIAMETER;
use badger_snake::Direction;
use badger_snake::Food;
use badger_snake::Game;
use badger_snake::Point;
use badger_snake::Snake;
use badger_snake::Update;

fn collected<const N: usize>(mut discs: Discs<'_, N>) -> Vec<Disc> {
    let mut all = Vec::new();
    while let Some(disc) = discs.next() {
        all.push(disc);
    }
    assert_eq!(discs.next(), None);
    all
}

fn snake_of<const N: usize>(cells: &[(u32, u32)]) -> Snake<N> {
    let mut body = FixedVecDeque::<Point, N>::new();
    for (x, y) in cells {
        body.push_back(Point::new(*x, *y));
    }
    Snake { body, direction: Direction::Right }
}

#[test]
fn drawing_sizes() {
    assert_eq!(CELL_SIZE, 8);
    assert_eq!(SEGMENT_DIAMETER, 4);
    assert_eq!(FOOD_DIAMETER, 8);
}

#[test]
fn disc_sits_in_the_middle_of_its_cell() {
    assert_eq!(Point::new(0, 0).disc(4), Disc { x: 4, y: 4, diameter: 4, ink: Ink::Off });
    assert_eq!(Point::new(5, 2).disc(8), Disc { x: 44, y: 20, diameter: 8, ink: Ink::Off });
    assert_eq!(
        Point::new(u32::MAX, u32::MAX).disc(1),
        Disc { x: 34359738364, y: 34359738364, diameter: 1, ink: Ink::Off }
    );
}

#[test]
fn food_disc_is_larger_than_a_segment() {
    let food = Food { position: Point::new(21, 8) };
    assert_eq!(food.disc(), Disc { x: 172, y: 68, diameter: 8, ink: Ink::Off });
    let snake = snake_of::<4>(&[(21, 8)]);
    let segment = collected(snake.discs())[0];
    assert_eq!(segment, Disc { x: 172, y: 68, diameter: 4, ink: Ink::Off });
    assert!(food.disc().diameter > segment.diameter);
}

#[test]
fn snake_discs_run_from_head_to_tail() {
    let snake = snake_of::<4>(&[(2, 1), (1, 1), (1, 0)]);
    assert_eq!(
        collected(snake.discs()),
        vec![
            Disc { x: 20, y: 12, diameter: 4, ink: Ink::Off },
            Disc { x: 12, y: 12, diameter: 4, ink: Ink::Off },
            Disc { x: 12, y: 4, diameter: 4, ink: Ink::Off },
        ]
    );
}

#[test]
fn empty_snake_has_no_discs() {
    let snake = snake_of::<4>(&[]);
    assert_eq!(collected(snake.discs()), vec![]);
}

#[test]
fn game_discs_end_with_the_food() {
    let mut game = Game::<592>::new((37, 16));
    assert_eq!(
        collected(game.discs()),
        vec![
            Disc { x: 148, y: 68, diameter: 4, ink: Ink::Off },
            Disc { x: 172, y: 68, diameter: 8, ink: Ink::Off },
        ]
    );
    game.update();
    assert_eq!(
        collected(game.discs()),
        vec![
            Disc { x: 156, y: 68, diameter: 4, ink: Ink::Off },
            Disc { x: 172, y: 68, diameter: 8, ink: Ink::Off },
        ]
    );
}

#[test]
fn game_discs_cover_every_segment_once() {
    let mut game = Game::<592>::new((37, 16));
    game.snake = snake_of::<592>(&[(3, 3), (2, 3), (2, 2), (2, 1)]);
    game.food.position = Point::new(0, 15);
    let discs = collected(game.discs());
    assert_eq!(discs.len(), 5);
    assert_eq!(
        discs,
        vec![
            Disc { x: 28, y: 28, diameter: 4, ink: Ink::Off },
            Disc { x: 20, y: 28, diameter: 4, ink: Ink::Off },
            Disc { x: 20, y: 20, diameter: 4, ink: Ink::Off },
            Disc { x: 20, y: 12, diameter: 4, ink: Ink::Off },
            Disc { x: 4, y: 124, diameter: 8, ink: Ink::Off },
        ]
    );
}

#[test]
fn patch_covers_its_cell() {
    assert_eq!(Point::new(0, 0).patch(), Patch { x: 0, y: 0, width: 8, height: 8 });
    assert_eq!(Point::new(36, 15).patch(), Patch { x: 288, y: 120, width: 8, height: 8 });
    assert_eq!(
        Point::new(u32::MAX, 1).patch(),
        Patch { x: 34359738360, y: 8, width: 8, height: 8 }
    );
}

#[test]
fn move_refreshes_the_two_cells_that_changed() {
    let update = Update::Snake(Point::new(6, 5), Point::new(4, 5));
    assert_eq!(
        update.refresh(),
        Refresh::Cells(
            Patch { x: 48, y: 40, width: 8, height: 8 },
            Patch { x: 32, y: 40, width: 8, height: 8 },
        )
    );
}

#[test]
fn meal_refreshes_the_whole_display() {
    let update = Update::Food(Point::new(1, 2), Point::new(6, 5));
    assert_eq!(update.refresh(), Refresh::Full);
}

#[test]
fn collision_refreshes_nothing() {
    assert_eq!(Update::NoChange.refresh(), Refresh::Nothing);
}
