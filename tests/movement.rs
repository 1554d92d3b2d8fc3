use grid::AllocationEvent::{CollitionRuleMissing, Crash, Yum};
use grid::{AllocationEvent, Direction, Game, Grid, Object, Position, INITIAL_LENGTH};

#[derive(Debug, PartialEq, Eq)]
enum GameEvent {
    Crash,
    ObjectAdded,
}

fn add_object_at(grid: &mut Grid, object: Object, position: Position) -> GameEvent {
    match grid.allocate_object_at(object, position) {
        AllocationEvent::Collition(_) => GameEvent::Crash,
        AllocationEvent::Allocated => GameEvent::ObjectAdded,
        _ => GameEvent::Crash,
    }
}

/// A grid of `w` by `h` cells whose outer ring is wall.
fn walled(w: u8, h: u8) -> Game {
    let mut game = Game::new(Grid::new(w, h));
    for x in 1..=w {
        game.grid.allocate_at(Position(x, 1), Object::Wall);
        game.grid.allocate_at(Position(x, h), Object::Wall);
    }
    for y in 1..=h {
        game.grid.allocate_at(Position(1, y), Object::Wall);
        game.grid.allocate_at(Position(w, y), Object::Wall);
    }
    game
}

#[test]
fn game_test_game_has_a_grid() {
    let mut game = Game::new(Grid::new(4, 4));
    let (wall, apple, snake) = (Object::Wall, Object::Apple, Object::Snake);

    assert_eq!(game.allocate_at(Position(1, 1), wall), AllocationEvent::Allocated);
    assert_eq!(game.allocate_at(Position(1, 2), apple), AllocationEvent::Allocated);
    assert_eq!(game.allocate_at(Position(1, 2), snake), AllocationEvent::Yum);
    assert_eq!(game.allocate_at(Position(1, 1), snake), Crash);
    assert_eq!(game.allocate_at(Position(1, 3), snake), AllocationEvent::Allocated);
    assert_eq!(game.allocate_at(Position(1, 3), snake), Crash);
    assert_eq!(game.allocate_at(Position(1, 1), apple), AllocationEvent::CollitionRuleMissing);
}

#[test]
fn grid_test_game_has_a_grid() {
    let mut game = Game::new(Grid::new(4, 4));
    let (wall, apple, snake) = (Object::Wall, Object::Apple, Object::Snake);

    assert_eq!(game.allocate_at(Position(1, 1), wall), AllocationEvent::Allocated);
    assert_eq!(game.allocate_at(Position(1, 2), apple), AllocationEvent::Allocated);
    assert_eq!(game.allocate_at(Position(1, 2), snake), AllocationEvent::Yum);
    assert_eq!(game.allocate_at(Position(1, 1), snake), Crash);
    assert_eq!(game.allocate_at(Position(1, 3), snake), AllocationEvent::Allocated);
    assert_eq!(game.allocate_at(Position(1, 3), snake), Crash);
    assert_eq!(game.allocate_at(Position(1, 1), apple), AllocationEvent::CollitionRuleMissing);
}

#[test]
fn game_game_has_a_grid() {
    let mut grid = Grid::new(4, 4);
    let (wall, apple, snake) = (Object::Wall, Object::Apple, Object::Snake);

    assert_eq!(add_object_at(&mut grid, wall, Position(1, 1)), GameEvent::ObjectAdded);
    assert_eq!(add_object_at(&mut grid, apple, Position(1, 2)), GameEvent::ObjectAdded);
    assert_eq!(add_object_at(&mut grid, snake, Position(1, 2)), GameEvent::Crash);
    assert_eq!(add_object_at(&mut grid, snake, Position(1, 1)), GameEvent::Crash);
    assert_eq!(add_object_at(&mut grid, snake, Position(1, 3)), GameEvent::ObjectAdded);
    assert_eq!(add_object_at(&mut grid, snake, Position(1, 3)), GameEvent::Crash);
}

#[test]
fn snake_can_move() {
    let mut game = Game::new(Grid::new(4, 4));
    let snake = Object::Snake;
    let position = Position(2, 2);

    assert_eq!(game.allocate_at(position, snake), AllocationEvent::Allocated);
    assert_eq!(game.grid.move_object(position, Position(2, 3)), AllocationEvent::Allocated);
    assert_eq!(game.grid.object_at(Position(2, 3)), Some(&snake));
}

#[test]
fn collision_table() {
    let all = [Object::Snake, Object::Apple, Object::Empty, Object::Wall];
    for mover in all {
        for obstacle in all {
            let expected = match (mover, obstacle) {
                (Object::Snake, Object::Wall) => Crash,
                (Object::Snake, Object::Snake) => Crash,
                (Object::Snake, Object::Apple) => Yum,
                _ => CollitionRuleMissing,
            };
            assert_eq!(mover.handle_collition(obstacle), expected);
        }
    }
    assert_eq!(Object::Snake.handle_collition(Object::Wall), Crash);
    assert_eq!(Object::Snake.handle_collition(Object::Apple), Yum);
    assert_eq!(Object::Snake.handle_collition(Object::Snake), Crash);
    assert_eq!(Object::Apple.handle_collition(Object::Snake), CollitionRuleMissing);
    assert_eq!(Object::Wall.handle_collition(Object::Wall), CollitionRuleMissing);
}

#[test]
fn off_grid_placement_is_fatal_for_the_game() {
    let mut game = Game::new(Grid::new(4, 4));
    assert_eq!(game.allocate_at(Position(5, 1), Object::Snake), Crash);
    assert_eq!(game.grid.object_at(Position(5, 1)), None);
}

#[test]
fn motion_scenario_on_ten_by_ten() {
    let mut grid = Grid::new(10, 10);
    let top_left = Position(1, 1);
    let bottom_right = Position(10, 10);

    assert_eq!(grid.move_object(top_left, bottom_right), AllocationEvent::EmptySpace);
    assert_eq!(grid.allocate_at(top_left, Object::Snake), AllocationEvent::Allocated);
    assert_eq!(grid.move_object(top_left, bottom_right), AllocationEvent::Allocated);
    assert_eq!(grid.object_at(bottom_right), Some(&Object::Snake));
    assert_eq!(grid.object_at(top_left), None);
    assert_eq!(grid.allocate_at(top_left, Object::Snake), AllocationEvent::Allocated);
    assert_eq!(
        grid.move_object(bottom_right, top_left),
        AllocationEvent::Collition(Object::Snake)
    );
}

#[test]
fn walled_player_runs_into_the_wall() {
    // Four free columns and ten free rows inside a ring of wall.
    let mut game = walled(6, 12);
    let mut player = game.add_player().unwrap();
    assert_eq!(player.body(), &vec![Position(3, 6), Position(3, 5), Position(3, 4)]);
    assert_eq!(player.body().len(), INITIAL_LENGTH);
    assert_eq!(player.direction(), Direction::Up);

    assert_eq!(game.move_player(&mut player, Direction::Right), AllocationEvent::Allocated);
    assert_eq!(game.move_player(&mut player, Direction::Right), AllocationEvent::Allocated);
    assert_eq!(player.body(), &vec![Position(3, 4), Position(4, 4), Position(5, 4)]);
    assert_eq!(game.grid.object_at(Position(3, 6)), None);
    assert_eq!(game.grid.object_at(Position(3, 5)), None);

    assert_eq!(game.grid.object_at(Position(6, 4)), Some(&Object::Wall));
    let mut probe = walled(6, 12);
    assert_eq!(
        probe.grid.allocate_at(Position(6, 4), Object::Snake),
        AllocationEvent::Collition(Object::Wall)
    );
    assert_eq!(game.move_player(&mut player, Direction::Right), Crash);
    assert_eq!(player.head(), Position(6, 4));
    assert_eq!(player.direction(), Direction::Right);
}

#[test]
fn player_eats_an_apple() {
    let mut game = Game::new(Grid::new(9, 9));
    let mut player = game.add_player().unwrap();
    assert_eq!(player.head(), Position(4, 2));
    game.grid.allocate_at(Position(3, 2), Object::Apple);
    assert_eq!(game.move_player(&mut player, Direction::Left), AllocationEvent::Yum);
    assert_eq!(game.grid.object_at(Position(3, 2)), Some(&Object::Snake));
    assert_eq!(game.grid.object_at(Position(4, 4)), None);
    assert_eq!(player.body().len(), 3);
}

#[test]
fn player_may_follow_its_own_tail() {
    let mut game = Game::new(Grid::new(9, 9));
    let mut player = game.add_player().unwrap();
    // Body (4,4) (4,3) (4,2): turn around the tail in a loop of four cells.
    assert_eq!(game.move_player(&mut player, Direction::Right), AllocationEvent::Allocated);
    assert_eq!(game.move_player(&mut player, Direction::Down), AllocationEvent::Allocated);
    assert_eq!(game.move_player(&mut player, Direction::Left), AllocationEvent::Allocated);
    assert_eq!(player.body(), &vec![Position(5, 2), Position(5, 3), Position(4, 3)]);
    assert_eq!(game.move_player(&mut player, Direction::Up), AllocationEvent::Allocated);
    assert_eq!(game.move_player(&mut player, Direction::Left), AllocationEvent::Allocated);
    assert_eq!(game.move_player(&mut player, Direction::Right), Crash);
}

#[test]
fn player_stops_at_the_edge() {
    let mut game = Game::new(Grid::new(3, 6));
    let mut player = game.add_player().unwrap();
    assert_eq!(player.body(), &vec![Position(1, 3), Position(1, 2), Position(1, 1)]);
    assert_eq!(game.move_player(&mut player, Direction::Up), AllocationEvent::OutOfBounds);
    assert_eq!(game.move_player(&mut player, Direction::Left), AllocationEvent::OutOfBounds);
    assert_eq!(player.body(), &vec![Position(1, 3), Position(1, 2), Position(1, 1)]);
    assert_eq!(player.direction(), Direction::Up);
    assert_eq!(game.grid.object_at(Position(1, 3)), Some(&Object::Snake));
}

#[test]
fn seeding_fails_on_a_small_or_crowded_grid() {
    let mut game = Game::new(Grid::new(4, 3));
    // Center (2, 1): the second segment would sit on row 0.
    assert_eq!(game.add_player().err(), Some(AllocationEvent::OutOfBounds));
    assert_eq!(game.grid.object_at(Position(2, 1)), Some(&Object::Snake));

    let mut game = Game::new(Grid::new(1, 1));
    assert_eq!(game.add_player().err(), Some(AllocationEvent::OutOfBounds));

    let mut game = Game::new(Grid::new(8, 8));
    game.grid.allocate_at(Position(4, 3), Object::Apple);
    assert_eq!(game.add_player().err(), Some(AllocationEvent::Collition(Object::Apple)));
    assert_eq!(game.grid.object_at(Position(4, 4)), Some(&Object::Snake));
    assert_eq!(game.grid.object_at(Position(4, 3)), Some(&Object::Snake));
    assert_eq!(game.grid.object_at(Position(4, 2)), None);
}
