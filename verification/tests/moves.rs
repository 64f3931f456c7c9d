use sokoban::engine::{is_won, Outcome};
use sokoban::game::{Game, Status, INPUT_NONE};
use sokoban::playfield::{Playfield, ALIGN, PLAYFIELD_LEN};
use sokoban::tiles::{FLOOR, GOAL, PUSHER, PUSHER_ON_GOAL, WALL};
use sokoban::{ERR_OK};

fn snapshot(field: &Playfield) -> Vec<u8> {
    let mut bytes = Vec::new();
    for i in 0..PLAYFIELD_LEN {
        bytes.push(field.read(i));
    }
    bytes
}

fn custom_game(cells: &[(usize, u8)], level: u8) -> Game {
    let mut field = Playfield::new();
    for &(i, t) in cells {
        field.write(i, t);
    }
    Game { field, level, status: Status::AwaitingInput }
}

#[test]
fn move_right_into_floor() {
    // Level 0: the pusher at (2,1) moves right into the floor cell (2,2).
    let mut game = Game::new();
    let outcome = game.step(b'd');
    assert_eq!(outcome, Outcome::Moved);
    assert_eq!(game.field.read(2 * ALIGN + 1), FLOOR);
    assert_eq!(game.field.read(2 * ALIGN + 2), PUSHER);
    assert_eq!(game.level, 0);
    assert_eq!(game.status, Status::AwaitingInput);
    assert_eq!(game.error_code(), ERR_OK);
    assert!(!is_won(&game.field));
}

#[test]
fn move_into_wall_is_byte_for_byte_noop() {
    // Level 0: left of the pusher is a wall.
    let mut game = Game::new();
    let before = snapshot(&game.field);
    let outcome = game.step(b'a');
    assert_eq!(outcome, Outcome::Blocked);
    assert_eq!(snapshot(&game.field), before);
    assert_eq!(game.level, 0);
    assert_eq!(game.status, Status::AwaitingInput);
}

#[test]
fn move_onto_goal_and_off_restores_it() {
    // A pusher beside two goals; an extra bare goal keeps the level unwon.
    let game_cells = [(65usize, PUSHER), (66usize, GOAL), (100usize, GOAL)];
    let mut game = custom_game(&game_cells, 0);
    let outcome = game.step(b'd');
    assert_eq!(outcome, Outcome::Moved);
    assert_eq!(game.field.read(65), FLOOR);
    assert_eq!(game.field.read(66), PUSHER_ON_GOAL);
    // Stepping back off the goal restores the bare goal, not floor.
    let outcome = game.step(b'a');
    assert_eq!(outcome, Outcome::Moved);
    assert_eq!(game.field.read(65), PUSHER);
    assert_eq!(game.field.read(66), GOAL);
}

#[test]
fn moves_off_the_grid_are_blocked() {
    // A pusher in the top-left corner cannot leave the grid.
    let mut game = custom_game(&[(0usize, PUSHER), (100usize, GOAL)], 0);
    assert_eq!(game.step(b'w'), Outcome::Blocked);
    assert_eq!(game.step(b'a'), Outcome::Blocked);
    assert_eq!(game.field.read(0), PUSHER);
    // A pusher in the last cell cannot leave it either.
    let last = PLAYFIELD_LEN - 1;
    let mut game = custom_game(&[(last, PUSHER), (100usize, GOAL)], 0);
    assert_eq!(game.step(b's'), Outcome::Blocked);
    assert_eq!(game.step(b'd'), Outcome::Blocked);
    assert_eq!(game.field.read(last), PUSHER);
}

#[test]
fn unmapped_bytes_are_ignored() {
    let mut game = Game::new();
    let before = snapshot(&game.field);
    assert_eq!(game.step(b'x'), Outcome::Ignored);
    assert_eq!(game.step(INPUT_NONE), Outcome::Ignored);
    assert_eq!(game.step(0), Outcome::Ignored);
    assert_eq!(snapshot(&game.field), before);
    assert_eq!(game.status, Status::AwaitingInput);
}

#[test]
fn wall_tile_never_moves() {
    // Walls around the level-0 border stay exactly where they were loaded.
    let mut game = Game::new();
    game.step(b'd');
    game.step(b'w');
    for col in 0..8 {
        assert_eq!(game.field.read(col), WALL);
        assert_eq!(game.field.read(5 * ALIGN + col), WALL);
    }
}
