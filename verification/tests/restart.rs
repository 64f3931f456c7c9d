use sokoban::engine::Outcome;
use sokoban::game::{Game, Status};
use sokoban::levels::load_level;
use sokoban::playfield::{Playfield, PLAYFIELD_LEN};

fn snapshot(field: &Playfield) -> Vec<u8> {
    let mut bytes = Vec::new();
    for i in 0..PLAYFIELD_LEN {
        bytes.push(field.read(i));
    }
    bytes
}

#[test]
fn restart_reloads_the_current_level_exactly() {
    let mut game = Game::new();
    let pristine = snapshot(&game.field);
    // Shove things around first, then restart.
    assert_eq!(game.step(b'd'), Outcome::Moved);
    assert_eq!(game.step(b'd'), Outcome::Moved);
    assert_ne!(snapshot(&game.field), pristine);
    assert_eq!(game.step(b'r'), Outcome::Restarted);
    assert_eq!(snapshot(&game.field), pristine);
    // The level index is untouched and play continues.
    assert_eq!(game.level, 0);
    assert_eq!(game.status, Status::AwaitingInput);
}

#[test]
fn restart_keeps_later_levels_too() {
    let mut field = Playfield::new();
    load_level(&mut field, 2);
    let pristine = snapshot(&field);
    let mut game = Game { field, level: 2, status: Status::AwaitingInput };
    assert_eq!(game.step(b'w'), Outcome::Moved);
    assert_eq!(game.step(b'r'), Outcome::Restarted);
    assert_eq!(snapshot(&game.field), pristine);
    assert_eq!(game.level, 2);
}
