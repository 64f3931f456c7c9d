use sokoban::levels::{level_template, load_level, LEVEL_COUNT};
use sokoban::playfield::{Playfield, ALIGN, PLAYFIELD_LEN};
use sokoban::tiles::{BOX, BOX_ON_GOAL, FLOOR, GOAL, PUSHER, PUSHER_ON_GOAL, SENTINEL, WALL};

fn loaded_field(idx: u8) -> Playfield {
    let mut field = Playfield::new();
    load_level(&mut field, idx);
    field
}

fn counts(field: &Playfield) -> (usize, usize) {
    let mut pushers = 0;
    let mut boxes = 0;
    for i in 0..PLAYFIELD_LEN {
        let t = field.read(i);
        if t == PUSHER || t == PUSHER_ON_GOAL {
            pushers += 1;
        }
        if t == BOX || t == BOX_ON_GOAL {
            boxes += 1;
        }
    }
    (pushers, boxes)
}

#[test]
fn fresh_playfield_is_all_sentinel() {
    let field = Playfield::new();
    for i in 0..PLAYFIELD_LEN {
        assert_eq!(field.read(i), SENTINEL);
    }
}

#[test]
fn level_0_counts() {
    let (pushers, boxes) = counts(&loaded_field(0));
    assert_eq!(pushers, 1);
    assert_eq!(boxes, 2);
}

#[test]
fn level_1_counts() {
    let (pushers, boxes) = counts(&loaded_field(1));
    assert_eq!(pushers, 1);
    assert_eq!(boxes, 3);
}

#[test]
fn level_2_counts() {
    let (pushers, boxes) = counts(&loaded_field(2));
    assert_eq!(pushers, 1);
    assert_eq!(boxes, 5);
}

#[test]
fn level_0_layout() {
    let field = loaded_field(0);
    // Row 0 is a full wall run of eight cells.
    for col in 0..8 {
        assert_eq!(field.read(col), WALL);
    }
    // The pusher starts at row 2, column 1, with floor to its right.
    assert_eq!(field.read(2 * ALIGN + 1), PUSHER);
    assert_eq!(field.read(2 * ALIGN + 2), FLOOR);
    // Boxes at (2,3) and (3,4); goals at (4,2) and (4,4).
    assert_eq!(field.read(2 * ALIGN + 3), BOX);
    assert_eq!(field.read(3 * ALIGN + 4), BOX);
    assert_eq!(field.read(4 * ALIGN + 2), GOAL);
    assert_eq!(field.read(4 * ALIGN + 4), GOAL);
    // Cells past the template's eight columns keep the diagnostic sentinel.
    assert_eq!(field.read(8), SENTINEL);
    assert_eq!(field.read(PLAYFIELD_LEN - 1), SENTINEL);
}

#[test]
fn level_count_matches_catalog() {
    assert_eq!(LEVEL_COUNT, 3);
    for idx in 0..LEVEL_COUNT {
        // Every catalog entry has a template and loads without trouble.
        assert!(!level_template(idx as u8).is_empty());
        let (pushers, _) = counts(&loaded_field(idx as u8));
        assert_eq!(pushers, 1);
    }
}

#[test]
fn template_0_bytes_match_shipped_text() {
    let text = "########\n#      #\n#@ $   #\n#   $  #\n# . .  #\n########\n";
    assert_eq!(level_template(0), text.as_bytes().to_vec());
}

#[test]
fn template_1_bytes_match_shipped_text() {
    let text = "########\n#     .#\n#@ $   #\n#   $  #\n# . *  #\n########\n";
    assert_eq!(level_template(1), text.as_bytes().to_vec());
}

#[test]
fn template_2_bytes_match_shipped_text() {
    let text = "######\n#.   #\n#    #\n###$ .##\n#   #.#\n# $$$.#\n#@ .$ #\n#######\n";
    assert_eq!(level_template(2), text.as_bytes().to_vec());
}
