use sokoban::engine::Outcome;
use sokoban::game::{Game, Status};
use sokoban::playfield::{Playfield, ALIGN, PLAYFIELD_LEN};
use sokoban::tiles::{BOX, BOX_ON_GOAL, FLOOR, GOAL, PUSHER, WALL};

fn snapshot(field: &Playfield) -> Vec<u8> {
    let mut bytes = Vec::new();
    for i in 0..PLAYFIELD_LEN {
        bytes.push(field.read(i));
    }
    bytes
}

fn custom_game(cells: &[(usize, u8)], level: u8) -> Game {
    let mut field = Playfield::new();
    for &(i, t) in cells {
        field.write(i, t);
    }
    Game { field, level, status: Status::AwaitingInput }
}

#[test]
fn push_box_into_floor() {
    // Level 0 after one step right: the pusher at (2,2) pushes the box at
    // (2,3) into the floor at (2,4); both shift one column right.
    let mut game = Game::new();
    assert_eq!(game.step(b'd'), Outcome::Moved);
    assert_eq!(game.step(b'd'), Outcome::Moved);
    assert_eq!(game.field.read(2 * ALIGN + 2), FLOOR);
    assert_eq!(game.field.read(2 * ALIGN + 3), PUSHER);
    assert_eq!(game.field.read(2 * ALIGN + 4), BOX);
    assert_eq!(game.level, 0);
    assert_eq!(game.status, Status::AwaitingInput);
}

#[test]
fn push_box_onto_goal() {
    let cells = [(65usize, PUSHER), (66usize, BOX), (67usize, GOAL), (100usize, GOAL)];
    let mut game = custom_game(&cells, 0);
    assert_eq!(game.step(b'd'), Outcome::Moved);
    assert_eq!(game.field.read(65), FLOOR);
    assert_eq!(game.field.read(66), PUSHER);
    assert_eq!(game.field.read(67), BOX_ON_GOAL);
    // The extra bare goal kept the level unwon.
    assert_eq!(game.level, 0);
    assert_eq!(game.status, Status::AwaitingInput);
}

#[test]
fn push_into_wall_is_blocked() {
    let cells = [(65usize, PUSHER), (66usize, BOX), (67usize, WALL), (100usize, GOAL)];
    let mut game = custom_game(&cells, 0);
    let before = snapshot(&game.field);
    assert_eq!(game.step(b'd'), Outcome::Blocked);
    assert_eq!(snapshot(&game.field), before);
}

#[test]
fn push_into_box_is_blocked() {
    // Chained pushes are never supported.
    let cells = [(65usize, PUSHER), (66usize, BOX), (67usize, BOX), (100usize, GOAL)];
    let mut game = custom_game(&cells, 0);
    let before = snapshot(&game.field);
    assert_eq!(game.step(b'd'), Outcome::Blocked);
    assert_eq!(snapshot(&game.field), before);
}

#[test]
fn push_into_box_on_goal_is_blocked() {
    let cells = [(65usize, PUSHER), (66usize, BOX), (67usize, BOX_ON_GOAL), (100usize, GOAL)];
    let mut game = custom_game(&cells, 0);
    let before = snapshot(&game.field);
    assert_eq!(game.step(b'd'), Outcome::Blocked);
    assert_eq!(snapshot(&game.field), before);
}

#[test]
fn push_off_the_grid_is_blocked() {
    // The box sits in the very last cell: there is nowhere to push it.
    let last = PLAYFIELD_LEN - 1;
    let cells = [(last - 1, PUSHER), (last, BOX), (100usize, GOAL)];
    let mut game = custom_game(&cells, 0);
    let before = snapshot(&game.field);
    assert_eq!(game.step(b'd'), Outcome::Blocked);
    assert_eq!(snapshot(&game.field), before);
}

#[test]
fn push_into_sentinel_is_blocked() {
    // The cell behind the box was never stamped; it is no open cell.
    let cells = [(65usize, PUSHER), (66usize, BOX), (100usize, GOAL)];
    let mut game = custom_game(&cells, 0);
    let before = snapshot(&game.field);
    assert_eq!(game.step(b'd'), Outcome::Blocked);
    assert_eq!(snapshot(&game.field), before);
}
