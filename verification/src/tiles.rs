//! The tile table: byte encodings of the tile kinds, the template-character
//! translation, and the vacate rule for composite tiles.

use vstd::prelude::*;

use crate::ERR_BAD_COMPOSITE;

verus! {

/// An impassable wall cell.
pub const WALL: u8 = 0xFF;

/// An empty floor cell.
pub const FLOOR: u8 = 0x00;

/// A goal cell not yet covered by a box.
pub const GOAL: u8 = 0x2E;

/// A box standing on plain floor.
pub const BOX: u8 = 0x24;

/// A box standing on a goal.
pub const BOX_ON_GOAL: u8 = 0x2A;

/// The player-controlled pusher standing on plain floor.
pub const PUSHER: u8 = 0x40;

/// The pusher standing on a goal.
pub const PUSHER_ON_GOAL: u8 = 0x2B;

/// The diagnostic fill byte for freshly cleared, not-yet-loaded cells.  It is
/// none of the tile encodings above, so a half-loaded grid is visually
/// distinct from a legitimate one.
pub const SENTINEL: u8 = 0xCC;

/// Template character `p`: a pusher on floor.
pub const CH_PUSHER: u8 = 0x70;

/// Template character `P`: a pusher on a goal.
pub const CH_PUSHER_ON_GOAL: u8 = 0x50;

/// Template character `b`: a box on floor.
pub const CH_BOX: u8 = 0x62;

/// Template character `B`: a box on a goal.
pub const CH_BOX_ON_GOAL: u8 = 0x42;

/// Template character `#`: a wall.
pub const CH_WALL: u8 = 0x23;

/// Template character ` `: floor.
pub const CH_SPACE: u8 = 0x20;

/// Template character `-`: floor.
pub const CH_DASH: u8 = 0x2D;

/// Template character `_`: floor.
pub const CH_UNDERSCORE: u8 = 0x5F;

/// A newline in a template advances the row and resets the column.
pub const NEWLINE: u8 = 0x0A;

/// True of the two tiles that carry the pusher.
pub open spec fn is_pusher(t: u8) -> bool {
    t == PUSHER || t == PUSHER_ON_GOAL
}

/// True of the two tiles that carry a box.
pub open spec fn is_box(t: u8) -> bool {
    t == BOX || t == BOX_ON_GOAL
}

/// True of the four composite tiles: ones that encode both an underlying
/// floor/goal state and an occupant.
pub open spec fn is_composite(t: u8) -> bool {
    is_pusher(t) || is_box(t)
}

/// The underlying tile left behind when a composite tile's occupant leaves:
/// `Goal` under the on-goal composites, `Floor` under the other two.  Only
/// meaningful on composite tiles.
pub open spec fn leave(t: u8) -> u8 {
    if t == PUSHER_ON_GOAL || t == BOX_ON_GOAL {
        GOAL
    } else {
        FLOOR
    }
}

/// The tile the pusher becomes when it steps onto `t` (a floor or goal cell).
pub open spec fn pusher_enter(t: u8) -> u8 {
    if t == GOAL {
        PUSHER_ON_GOAL
    } else {
        PUSHER
    }
}

/// The tile a box becomes when it is pushed onto `t` (a floor or goal cell).
pub open spec fn box_enter(t: u8) -> u8 {
    if t == GOAL {
        BOX_ON_GOAL
    } else {
        BOX
    }
}

/// The tile a level-template character stands for.  Unrecognised characters
/// pass through verbatim as opaque tiles, which lets level authors embed
/// arbitrary markers (and lets `.`, `@`, `$`, `*` and `+` encode themselves).
pub open spec fn translate(c: u8) -> u8 {
    if c == CH_PUSHER {
        PUSHER
    } else if c == CH_PUSHER_ON_GOAL {
        PUSHER_ON_GOAL
    } else if c == CH_BOX {
        BOX
    } else if c == CH_BOX_ON_GOAL {
        BOX_ON_GOAL
    } else if c == CH_WALL {
        WALL
    } else if c == CH_SPACE || c == CH_DASH || c == CH_UNDERSCORE {
        FLOOR
    } else {
        c
    }
}

/// Executable form of the vacate rule, restricted to composite tiles.
pub fn leave_tile(t: u8) -> (r: u8)
    requires
        is_composite(t),
    ensures
        r == leave(t),
{
    if t == PUSHER_ON_GOAL || t == BOX_ON_GOAL {
        GOAL
    } else {
        FLOOR
    }
}

/// Executable form of the pusher-entry rule.
pub fn pusher_enter_tile(t: u8) -> (r: u8)
    ensures
        r == pusher_enter(t),
{
    if t == GOAL {
        PUSHER_ON_GOAL
    } else {
        PUSHER
    }
}

/// Executable form of the box-entry rule.
pub fn box_enter_tile(t: u8) -> (r: u8)
    ensures
        r == box_enter(t),
{
    if t == GOAL {
        BOX_ON_GOAL
    } else {
        BOX
    }
}

/// The full vacate rule: composite tiles recover their underlying tile; any
/// other tile signals an unrepresentable playfield, a fatal condition.
pub fn tile_leave(t: u8) -> (r: Result<u8, u8>)
    ensures
        is_composite(t) ==> r == Ok::<u8, u8>(leave(t)),
        !is_composite(t) ==> r == Err::<u8, u8>(ERR_BAD_COMPOSITE),
{
    if t == PUSHER || t == PUSHER_ON_GOAL || t == BOX || t == BOX_ON_GOAL {
        Ok(leave_tile(t))
    } else {
        Err(ERR_BAD_COMPOSITE)
    }
}

/// Executable form of the template-character translation.
pub fn translate_char(c: u8) -> (r: u8)
    ensures
        r == translate(c),
{
    if c == CH_PUSHER {
        PUSHER
    } else if c == CH_PUSHER_ON_GOAL {
        PUSHER_ON_GOAL
    } else if c == CH_BOX {
        BOX
    } else if c == CH_BOX_ON_GOAL {
        BOX_ON_GOAL
    } else if c == CH_WALL {
        WALL
    } else if c == CH_SPACE || c == CH_DASH || c == CH_UNDERSCORE {
        FLOOR
    } else {
        c
    }
}

} // verus!
