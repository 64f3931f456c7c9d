//! The move engine: locating the pusher, mapping command bytes to
//! directions, and applying the movement and box-pushing rules; plus the win
//! detector.

use vstd::prelude::*;

use crate::levels::{load_level, loaded, LEVEL_COUNT};
use crate::playfield::{
    box_count, count_pushers_to, lemma_count_boxes_update, lemma_count_pushers_update,
    lemma_pusher_unique, pusher_count, Playfield, ALIGN, PLAYFIELD_LEN,
};
use crate::tiles::{
    box_enter, box_enter_tile, is_box, is_composite, is_pusher, leave, leave_tile, pusher_enter,
    pusher_enter_tile, BOX, BOX_ON_GOAL, FLOOR, GOAL, PUSHER, PUSHER_ON_GOAL, WALL,
};
use crate::{ERR_BAD_TILE, ERR_NO_PUSHER};

verus! {

/// Command byte `w`: move the pusher one row up.
pub const CMD_UP: u8 = 0x77;

/// Command byte `a`: move the pusher one column left.
pub const CMD_LEFT: u8 = 0x61;

/// Command byte `s`: move the pusher one row down.
pub const CMD_DOWN: u8 = 0x73;

/// Command byte `d`: move the pusher one column right.
pub const CMD_RIGHT: u8 = 0x64;

/// Command byte `r`: reload the current level.
pub const CMD_RESTART: u8 = 0x72;

/// What applying one command to the playfield amounted to.
#[derive(Clone, Copy, Debug, PartialEq, Eq, Structural)]
pub enum Outcome {
    /// The pusher moved, possibly pushing a box.
    Moved,
    /// A benign no-op: the way was blocked by a wall, a box that cannot
    /// advance, or the grid's edge.
    Blocked,
    /// The current level was reloaded from its template.
    Restarted,
    /// The command byte maps to no action, or the engine is already halted.
    Ignored,
    /// The playfield is in an unrepresentable state; the code is the
    /// diagnostic to report.
    Fatal(u8),
}

/// True of the four movement command bytes.
pub open spec fn is_move_cmd(c: u8) -> bool {
    c == CMD_UP || c == CMD_DOWN || c == CMD_LEFT || c == CMD_RIGHT
}

/// The linear-index offset of one step in the commanded direction: a row is
/// one stride, a column one byte.
pub open spec fn dir_offset(c: u8) -> int {
    if c == CMD_UP {
        -(ALIGN as int)
    } else if c == CMD_DOWN {
        ALIGN as int
    } else if c == CMD_LEFT {
        -1
    } else {
        1
    }
}

/// The index of the pusher tile; meaningful when the grid holds exactly one.
pub open spec fn pusher_at(s: Seq<u8>) -> int {
    choose|i: int| 0 <= i < s.len() && is_pusher(s[i])
}

/// The level is won exactly when no cell holds a bare goal or the pusher
/// standing on a goal: every goal must be covered by a box.
pub open spec fn won(s: Seq<u8>) -> bool {
    forall|i: int| 0 <= i < s.len() ==> s[i] != GOAL && s[i] != PUSHER_ON_GOAL
}

/// The grid and outcome that applying one command byte to `s` produces, with
/// `level` the catalog index a restart reloads.  The order of the rules: a
/// grid without exactly one pusher is fatal whatever the command; then the
/// byte is mapped (restart, movement, or an ignored key); then the pusher's
/// target cell decides between moving, pushing, blocking, and the fatal
/// unrecognised-tile case.  A target or push destination beyond the grid's
/// edge blocks, like a wall.
pub open spec fn apply_spec(s: Seq<u8>, level: u8, cmd: u8) -> (Seq<u8>, Outcome) {
    if pusher_count(s) != 1 {
        (s, Outcome::Fatal(ERR_NO_PUSHER))
    } else if cmd == CMD_RESTART {
        (loaded(level as int), Outcome::Restarted)
    } else if !is_move_cmd(cmd) {
        (s, Outcome::Ignored)
    } else {
        let p = pusher_at(s);
        let t = p + dir_offset(cmd);
        if !(0 <= t < s.len()) {
            (s, Outcome::Blocked)
        } else if s[t] == WALL {
            (s, Outcome::Blocked)
        } else if s[t] == FLOOR || s[t] == GOAL {
            (s.update(p, leave(s[p])).update(t, pusher_enter(s[t])), Outcome::Moved)
        } else if s[t] == BOX || s[t] == BOX_ON_GOAL {
            let b = t + dir_offset(cmd);
            if !(0 <= b < s.len()) {
                (s, Outcome::Blocked)
            } else if s[b] == FLOOR || s[b] == GOAL {
                (
                    s.update(p, leave(s[p])).update(t, pusher_enter(leave(s[t]))).update(
                        b,
                        box_enter(s[b]),
                    ),
                    Outcome::Moved,
                )
            } else {
                (s, Outcome::Blocked)
            }
        } else {
            (s, Outcome::Fatal(ERR_BAD_TILE))
        }
    }
}

/// A prefix with at least one pusher yields a witness index.
proof fn lemma_count_pushers_witness(s: Seq<u8>, n: int)
    requires
        count_pushers_to(s, n) >= 1,
    ensures
        exists|i: int| 0 <= i < n && is_pusher(s[i]),
    decreases n,
{
    if n > 0 {
        if is_pusher(s[n - 1]) {
            assert(0 <= n - 1 < n && is_pusher(s[n - 1]));
        } else {
            lemma_count_pushers_witness(s, n - 1);
        }
    }
}

/// On a grid with a pusher, `pusher_at` names a cell that holds one.
pub proof fn lemma_pusher_at_is_pusher(s: Seq<u8>)
    requires
        pusher_count(s) >= 1,
    ensures
        0 <= pusher_at(s) < s.len(),
        is_pusher(s[pusher_at(s)]),
{
    lemma_count_pushers_witness(s, s.len() as int);
}

/// Scan the grid for the pusher: `Some` of its unique index when the grid
/// holds exactly one pusher tile, `None` otherwise (none, or duplicates —
/// both invariant violations).
pub fn find_pusher(field: &Playfield) -> (r: Option<usize>)
    requires
        field.wf(),
    ensures
        (r is Some) <==> pusher_count(field@) == 1,
        r matches Some(p) ==> p < PLAYFIELD_LEN && is_pusher(field@[p as int]) && p as int
            == pusher_at(field@),
{
    let mut i: usize = 0;
    let mut cnt: usize = 0;
    let mut pos: usize = 0;
    while i < PLAYFIELD_LEN
        invariant
            field.wf(),
            i <= PLAYFIELD_LEN,
            cnt == count_pushers_to(field@, i as int),
            cnt <= i,
            cnt > 0 ==> pos < i && is_pusher(field@[pos as int]),
        decreases PLAYFIELD_LEN - i,
    {
        let t = field.read(i);
        if t == PUSHER || t == PUSHER_ON_GOAL {
            cnt = cnt + 1;
            pos = i;
        }
        i = i + 1;
    }
    if cnt == 1 {
        proof {
            lemma_pusher_at_is_pusher(field@);
            lemma_pusher_unique(field@, pos as int, pusher_at(field@));
        }
        Some(pos)
    } else {
        None
    }
}

/// One step from `i` in the commanded direction, `None` when it would leave
/// the grid.
fn shift(i: usize, cmd: u8) -> (r: Option<usize>)
    requires
        is_move_cmd(cmd),
        i < PLAYFIELD_LEN,
    ensures
        ({
            let t = i as int + dir_offset(cmd);
            &&& (r is Some) <==> 0 <= t < PLAYFIELD_LEN as int
            &&& (r matches Some(j) ==> j as int == t)
        }),
{
    if cmd == CMD_UP {
        if i >= ALIGN {
            Some(i - ALIGN)
        } else {
            None
        }
    } else if cmd == CMD_DOWN {
        if i + ALIGN < PLAYFIELD_LEN {
            Some(i + ALIGN)
        } else {
            None
        }
    } else if cmd == CMD_LEFT {
        if i >= 1 {
            Some(i - 1)
        } else {
            None
        }
    } else {
        if i + 1 < PLAYFIELD_LEN {
            Some(i + 1)
        } else {
            None
        }
    }
}

/// Apply one command byte to the playfield, with `level` the catalog index a
/// restart reloads.  Mutates the grid exactly as `apply_spec` says and
/// reports the outcome; every fatal condition is reported, never acted on
/// here (halting is the control loop's business).
pub fn apply(field: &mut Playfield, level: u8, cmd: u8) -> (r: Outcome)
    requires
        old(field).wf(),
        (level as int) < LEVEL_COUNT as int,
    ensures
        final(field).wf(),
        (final(field)@, r) == apply_spec(old(field)@, level, cmd),
{
    let p = match find_pusher(field) {
        Some(p) => p,
        None => {
            return Outcome::Fatal(ERR_NO_PUSHER);
        },
    };
    if cmd == CMD_RESTART {
        load_level(field, level);
        return Outcome::Restarted;
    }
    if !(cmd == CMD_UP || cmd == CMD_DOWN || cmd == CMD_LEFT || cmd == CMD_RIGHT) {
        return Outcome::Ignored;
    }
    let t = match shift(p, cmd) {
        Some(t) => t,
        None => {
            return Outcome::Blocked;
        },
    };
    let target = field.read(t);
    if target == WALL {
        return Outcome::Blocked;
    }
    if target == FLOOR || target == GOAL {
        let under = leave_tile(field.read(p));
        field.write(p, under);
        field.write(t, pusher_enter_tile(target));
        return Outcome::Moved;
    }
    if target == BOX || target == BOX_ON_GOAL {
        let b = match shift(t, cmd) {
            Some(b) => b,
            None => {
                return Outcome::Blocked;
            },
        };
        let dest = field.read(b);
        if dest == FLOOR || dest == GOAL {
            let under_p = leave_tile(field.read(p));
            let under_t = leave_tile(target);
            field.write(p, under_p);
            field.write(t, pusher_enter_tile(under_t));
            field.write(b, box_enter_tile(dest));
            return Outcome::Moved;
        }
        return Outcome::Blocked;
    }
    Outcome::Fatal(ERR_BAD_TILE)
}

/// Scan the grid and report whether the level is won: no bare goal and no
/// pusher standing on a goal anywhere.
pub fn is_won(field: &Playfield) -> (r: bool)
    requires
        field.wf(),
    ensures
        r == won(field@),
{
    let mut i: usize = 0;
    while i < PLAYFIELD_LEN
        invariant
            field.wf(),
            i <= PLAYFIELD_LEN,
            forall|j: int| 0 <= j < i ==> field@[j] != GOAL && field@[j] != PUSHER_ON_GOAL,
        decreases PLAYFIELD_LEN - i,
    {
        let t = field.read(i);
        if t == GOAL || t == PUSHER_ON_GOAL {
            return false;
        }
        i = i + 1;
    }
    true
}

/// A pusher standing on a bare goal is enough to keep the level unwon, even
/// with every goal cell covered by a box.
pub proof fn lemma_pusher_on_goal_not_won(s: Seq<u8>, i: int)
    requires
        0 <= i < s.len(),
        s[i] == PUSHER_ON_GOAL,
    ensures
        !won(s),
{
}

/// Moving into a wall changes nothing: the grid after the command is the
/// grid before it, and the outcome is a benign block.
pub proof fn lemma_wall_blocks(s: Seq<u8>, level: u8, cmd: u8)
    requires
        pusher_count(s) == 1,
        is_move_cmd(cmd),
        0 <= pusher_at(s) + dir_offset(cmd) < s.len(),
        s[pusher_at(s) + dir_offset(cmd)] == WALL,
    ensures
        apply_spec(s, level, cmd) == (s, Outcome::Blocked),
{
}

/// Moving into floor or onto a bare goal relocates the pusher one step: the
/// target cell now carries the pusher, the vacated cell is restored to its
/// underlying tile (never a stray composite), every other cell is untouched,
/// and the grid still holds exactly one pusher, at the target.
pub proof fn lemma_move_into_open(s: Seq<u8>, level: u8, cmd: u8)
    requires
        pusher_count(s) == 1,
        is_move_cmd(cmd),
        0 <= pusher_at(s) + dir_offset(cmd) < s.len(),
        s[pusher_at(s) + dir_offset(cmd)] == FLOOR || s[pusher_at(s) + dir_offset(cmd)] == GOAL,
    ensures
        ({
            let p = pusher_at(s);
            let t = p + dir_offset(cmd);
            let (s2, o) = apply_spec(s, level, cmd);
            &&& o == Outcome::Moved
            &&& s2.len() == s.len()
            &&& s2[t] == pusher_enter(s[t])
            &&& is_pusher(s2[t])
            &&& s2[p] == leave(s[p])
            &&& !is_composite(s2[p])
            &&& forall|j: int| 0 <= j < s.len() && j != p && j != t ==> s2[j] == s[j]
            &&& pusher_count(s2) == 1
            &&& pusher_at(s2) == t
        }),
{
    lemma_pusher_at_is_pusher(s);
    let p = pusher_at(s);
    let t = p + dir_offset(cmd);
    let s1 = s.update(p, leave(s[p]));
    let s2 = s1.update(t, pusher_enter(s[t]));
    lemma_count_pushers_update(s, p, leave(s[p]), s.len() as int);
    lemma_count_pushers_update(s1, t, pusher_enter(s[t]), s1.len() as int);
    lemma_pusher_at_is_pusher(s2);
    lemma_pusher_unique(s2, pusher_at(s2), t);
}

/// Pushing a box whose destination is floor or a bare goal moves both the
/// box and the pusher one step: the box's old cell now carries the pusher,
/// the destination carries the box, the pusher's old cell is restored, every
/// other cell is untouched, and the pusher and box counts are preserved.
pub proof fn lemma_push_into_open(s: Seq<u8>, level: u8, cmd: u8)
    requires
        pusher_count(s) == 1,
        is_move_cmd(cmd),
        0 <= pusher_at(s) + dir_offset(cmd) < s.len(),
        is_box(s[pusher_at(s) + dir_offset(cmd)]),
        0 <= pusher_at(s) + 2 * dir_offset(cmd) < s.len(),
        s[pusher_at(s) + 2 * dir_offset(cmd)] == FLOOR || s[pusher_at(s) + 2 * dir_offset(cmd)]
            == GOAL,
    ensures
        ({
            let p = pusher_at(s);
            let t = p + dir_offset(cmd);
            let b = p + 2 * dir_offset(cmd);
            let (s2, o) = apply_spec(s, level, cmd);
            &&& o == Outcome::Moved
            &&& s2.len() == s.len()
            &&& s2[b] == box_enter(s[b])
            &&& is_box(s2[b])
            &&& s2[t] == pusher_enter(leave(s[t]))
            &&& is_pusher(s2[t])
            &&& s2[p] == leave(s[p])
            &&& !is_composite(s2[p])
            &&& forall|j: int| 0 <= j < s.len() && j != p && j != t && j != b ==> s2[j] == s[j]
            &&& pusher_count(s2) == 1
            &&& pusher_at(s2) == t
            &&& box_count(s2) == box_count(s)
        }),
{
    lemma_pusher_at_is_pusher(s);
    let p = pusher_at(s);
    let t = p + dir_offset(cmd);
    let b = p + 2 * dir_offset(cmd);
    let s1 = s.update(p, leave(s[p]));
    let s2 = s1.update(t, pusher_enter(leave(s[t])));
    let s3 = s2.update(b, box_enter(s[b]));
    lemma_count_pushers_update(s, p, leave(s[p]), s.len() as int);
    lemma_count_pushers_update(s1, t, pusher_enter(leave(s[t])), s1.len() as int);
    lemma_count_pushers_update(s2, b, box_enter(s[b]), s2.len() as int);
    lemma_count_boxes_update(s, p, leave(s[p]), s.len() as int);
    lemma_count_boxes_update(s1, t, pusher_enter(leave(s[t])), s1.len() as int);
    lemma_count_boxes_update(s2, b, box_enter(s[b]), s2.len() as int);
    lemma_pusher_at_is_pusher(s3);
    lemma_pusher_unique(s3, pusher_at(s3), t);
}

/// Pushing a box whose destination is a wall, another box, the grid's edge,
/// or any other non-open byte changes nothing: a benign block.
pub proof fn lemma_push_blocked(s: Seq<u8>, level: u8, cmd: u8)
    requires
        pusher_count(s) == 1,
        is_move_cmd(cmd),
        0 <= pusher_at(s) + dir_offset(cmd) < s.len(),
        is_box(s[pusher_at(s) + dir_offset(cmd)]),
        !(0 <= pusher_at(s) + 2 * dir_offset(cmd) < s.len() && (s[pusher_at(s) + 2 * dir_offset(
            cmd,
        )] == FLOOR || s[pusher_at(s) + 2 * dir_offset(cmd)] == GOAL)),
    ensures
        apply_spec(s, level, cmd) == (s, Outcome::Blocked),
{
}

/// A restart command reloads the current level's template, whatever the grid
/// looked like.
pub proof fn lemma_restart_reloads(s: Seq<u8>, level: u8)
    requires
        pusher_count(s) == 1,
    ensures
        apply_spec(s, level, CMD_RESTART) == (loaded(level as int), Outcome::Restarted),
{
}

} // verus!
