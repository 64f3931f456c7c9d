//! The control loop's state machine: a game owns the playfield and the
//! control cells (current level index, halt status), consumes one command
//! byte per step, and advances the catalog on a win.  A fatal outcome moves
//! it to a terminal halted state that no further command can leave.

use vstd::prelude::*;

use crate::engine::{apply, apply_spec, is_won, won, Outcome, CMD_RESTART};
use crate::levels::{load_level, loaded, LEVEL_COUNT};
use crate::playfield::{pusher_count, Playfield};
use crate::{ERR_LEVEL_RANGE, ERR_NO_PUSHER, ERR_OK};

verus! {

/// The input cell's value while no command is pending.  The byte doubles as
/// an ignored command, so feeding it to `step` is a harmless no-op.
pub const INPUT_NONE: u8 = 0x20;

/// The control loop's two states.
#[derive(Clone, Copy, Debug, PartialEq, Eq, Structural)]
pub enum Status {
    /// Servicing commands normally.
    AwaitingInput,
    /// A fatal invariant violation was hit; the code is the diagnostic.
    /// Terminal: no further command is ever serviced.
    Halted(u8),
}

/// The state after feeding one command byte to a game: the new grid, level
/// index, status, and the reported outcome.  A halted game ignores
/// everything.  Otherwise the move engine runs; a fatal outcome halts the
/// game, and after a winning move the level index advances and the next
/// catalog entry is loaded — winning the last entry halts with the
/// out-of-range-level diagnostic, the chosen end-of-catalog policy.
pub open spec fn step_result(s: Seq<u8>, level: u8, status: Status, cmd: u8) -> (
    Seq<u8>,
    u8,
    Status,
    Outcome,
) {
    match status {
        Status::Halted(_) => (s, level, status, Outcome::Ignored),
        Status::AwaitingInput => {
            let (s2, o) = apply_spec(s, level, cmd);
            match o {
                Outcome::Fatal(c) => (s2, level, Status::Halted(c), o),
                Outcome::Moved => if won(s2) {
                    if level as int + 1 < LEVEL_COUNT as int {
                        (loaded(level as int + 1), (level + 1) as u8, Status::AwaitingInput, o)
                    } else {
                        (
                            s2,
                            (level + 1) as u8,
                            Status::Halted(ERR_LEVEL_RANGE),
                            Outcome::Fatal(ERR_LEVEL_RANGE),
                        )
                    }
                } else {
                    (s2, level, Status::AwaitingInput, o)
                },
                _ => (s2, level, Status::AwaitingInput, o),
            }
        },
    }
}

/// A running game: the playfield plus the control cells.
pub struct Game {
    /// The live grid.
    pub field: Playfield,
    /// The active level catalog index.
    pub level: u8,
    /// Whether the engine still services commands.
    pub status: Status,
}

impl Game {
    /// Well-formedness: the grid has its fixed size, and while the game still
    /// services commands the level index points into the catalog.
    pub open spec fn wf(&self) -> bool {
        &&& self.field.wf()
        &&& self.status == Status::AwaitingInput ==> (self.level as int) < LEVEL_COUNT as int
    }

    /// Startup: control cells initialised, level 0 loaded, awaiting input.
    pub fn new() -> (g: Game)
        ensures
            g.wf(),
            g.field@ == loaded(0),
            g.level == 0,
            g.status == Status::AwaitingInput,
    {
        let mut field = Playfield::new();
        load_level(&mut field, 0);
        Game { field, level: 0, status: Status::AwaitingInput }
    }

    /// Feed one command byte to the game, exactly as `step_result` says.
    pub fn step(&mut self, cmd: u8) -> (r: Outcome)
        requires
            old(self).wf(),
        ensures
            final(self).wf(),
            (final(self).field@, final(self).level, final(self).status, r) == step_result(
                old(self).field@,
                old(self).level,
                old(self).status,
                cmd,
            ),
    {
        match self.status {
            Status::Halted(_) => Outcome::Ignored,
            Status::AwaitingInput => {
                let o = apply(&mut self.field, self.level, cmd);
                match o {
                    Outcome::Fatal(c) => {
                        self.status = Status::Halted(c);
                        o
                    },
                    Outcome::Moved => {
                        if is_won(&self.field) {
                            let next = self.level + 1;
                            self.level = next;
                            if (next as usize) < LEVEL_COUNT {
                                load_level(&mut self.field, next);
                                o
                            } else {
                                self.status = Status::Halted(ERR_LEVEL_RANGE);
                                Outcome::Fatal(ERR_LEVEL_RANGE)
                            }
                        } else {
                            o
                        }
                    },
                    _ => o,
                }
            },
        }
    }

    /// The error cell's value: the reserved "never failed" byte while the
    /// game runs, the diagnostic code once it has halted.
    pub fn error_code(&self) -> (r: u8)
        ensures
            r == (match self.status {
                Status::AwaitingInput => ERR_OK,
                Status::Halted(c) => c,
            }),
    {
        match self.status {
            Status::AwaitingInput => ERR_OK,
            Status::Halted(c) => c,
        }
    }
}

/// A restart command on a healthy grid reloads the current level with the
/// level index unchanged, and the game keeps running.
pub proof fn lemma_restart_keeps_level(s: Seq<u8>, level: u8)
    requires
        pusher_count(s) == 1,
    ensures
        step_result(s, level, Status::AwaitingInput, CMD_RESTART) == (
            loaded(level as int),
            level,
            Status::AwaitingInput,
            Outcome::Restarted,
        ),
{
}

/// A grid without a pusher tile is fatal on any command byte whatsoever: the
/// game halts with the no-pusher diagnostic and the grid is left as it was.
pub proof fn lemma_no_pusher_halts(s: Seq<u8>, level: u8, cmd: u8)
    requires
        pusher_count(s) == 0,
    ensures
        step_result(s, level, Status::AwaitingInput, cmd) == (
            s,
            level,
            Status::Halted(ERR_NO_PUSHER),
            Outcome::Fatal(ERR_NO_PUSHER),
        ),
{
}

/// A halted game is terminal: whatever command is fed to it — even a valid
/// movement — nothing changes and the command is ignored.
pub proof fn lemma_halted_is_terminal(s: Seq<u8>, level: u8, code: u8, cmd: u8)
    ensures
        step_result(s, level, Status::Halted(code), cmd) == (
            s,
            level,
            Status::Halted(code),
            Outcome::Ignored,
        ),
{
}

} // verus!
