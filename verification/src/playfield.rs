//! The playfield: an owned, fixed-size, fixed-stride byte grid with indexed
//! tile access, plus counting functions over grid contents.

use vstd::prelude::*;

use crate::tiles::{is_box, is_pusher, SENTINEL};

verus! {

/// Columns per row in the linear byte layout (the alignment width).
pub const ALIGN: usize = 32;

/// Total number of grid cells.  A linear index is valid iff it is below this.
pub const PLAYFIELD_LEN: usize = 316;

/// The grid as it looks right after a clear: every cell holds the sentinel.
pub open spec fn sentinel_field() -> Seq<u8> {
    Seq::new(PLAYFIELD_LEN as nat, |i: int| SENTINEL)
}

/// The live grid.  Row-major: the cell at `(row, col)` is the byte at linear
/// index `row * ALIGN + col`.
pub struct Playfield {
    cells: Vec<u8>,
}

impl View for Playfield {
    type V = Seq<u8>;

    closed spec fn view(&self) -> Seq<u8> {
        self.cells@
    }
}

impl Playfield {
    /// Well-formedness: the grid always holds exactly `PLAYFIELD_LEN` cells.
    pub open spec fn wf(&self) -> bool {
        self@.len() == PLAYFIELD_LEN
    }

    /// A fresh grid, every cell filled with the sentinel.
    pub fn new() -> (r: Self)
        ensures
            r.wf(),
            r@ == sentinel_field(),
    {
        let mut cells: Vec<u8> = Vec::new();
        let mut i: usize = 0;
        while i < PLAYFIELD_LEN
            invariant
                i <= PLAYFIELD_LEN,
                cells@.len() == i,
                forall|j: int| 0 <= j < i ==> cells@[j] == SENTINEL,
            decreases PLAYFIELD_LEN - i,
        {
            cells.push(SENTINEL);
            i = i + 1;
        }
        let r = Playfield { cells };
        proof {
            assert(r@ =~= sentinel_field());
        }
        r
    }

    /// Read the tile at a linear index.
    pub fn read(&self, i: usize) -> (r: u8)
        requires
            self.wf(),
            i < PLAYFIELD_LEN,
        ensures
            r == self@[i as int],
    {
        self.cells[i]
    }

    /// Write the tile at a linear index.
    pub fn write(&mut self, i: usize, t: u8)
        requires
            old(self).wf(),
            i < PLAYFIELD_LEN,
        ensures
            final(self).wf(),
            final(self)@ == old(self)@.update(i as int, t),
    {
        self.cells.set(i, t);
    }

    /// Reset every cell to the sentinel.
    pub fn clear(&mut self)
        requires
            old(self).wf(),
        ensures
            final(self).wf(),
            final(self)@ == sentinel_field(),
    {
        let mut i: usize = 0;
        while i < PLAYFIELD_LEN
            invariant
                self.wf(),
                i <= PLAYFIELD_LEN,
                forall|j: int| 0 <= j < i ==> self@[j] == SENTINEL,
            decreases PLAYFIELD_LEN - i,
        {
            self.write(i, SENTINEL);
            i = i + 1;
        }
        proof {
            assert(self@ =~= sentinel_field());
        }
    }
}

/// Number of pusher tiles among the first `n` cells of `s`.
pub open spec fn count_pushers_to(s: Seq<u8>, n: int) -> int
    decreases n,
{
    if n <= 0 {
        0
    } else {
        count_pushers_to(s, n - 1) + if is_pusher(s[n - 1]) {
            1int
        } else {
            0int
        }
    }
}

/// Number of pusher tiles in the whole of `s`.
pub open spec fn pusher_count(s: Seq<u8>) -> int {
    count_pushers_to(s, s.len() as int)
}

/// Number of box tiles among the first `n` cells of `s`.
pub open spec fn count_boxes_to(s: Seq<u8>, n: int) -> int
    decreases n,
{
    if n <= 0 {
        0
    } else {
        count_boxes_to(s, n - 1) + if is_box(s[n - 1]) {
            1int
        } else {
            0int
        }
    }
}

/// Number of box tiles in the whole of `s`.
pub open spec fn box_count(s: Seq<u8>) -> int {
    count_boxes_to(s, s.len() as int)
}

/// The pusher count never shrinks as the counted prefix grows.
pub proof fn lemma_count_pushers_monotone(s: Seq<u8>, m: int, n: int)
    requires
        0 <= m <= n,
    ensures
        count_pushers_to(s, m) <= count_pushers_to(s, n),
    decreases n,
{
    if m < n {
        lemma_count_pushers_monotone(s, m, n - 1);
    }
}

/// A prefix with a pusher tile in it counts at least one pusher.
pub proof fn lemma_count_pushers_at_least_one(s: Seq<u8>, i: int, n: int)
    requires
        0 <= i < n,
        is_pusher(s[i]),
    ensures
        count_pushers_to(s, n) >= 1,
{
    lemma_count_pushers_monotone(s, i + 1, n);
    lemma_count_pushers_monotone(s, 0, i);
}

/// A sequence whose pusher count is one holds the pusher at a single index.
pub proof fn lemma_pusher_unique(s: Seq<u8>, i: int, j: int)
    requires
        pusher_count(s) == 1,
        0 <= i < s.len(),
        0 <= j < s.len(),
        is_pusher(s[i]),
        is_pusher(s[j]),
    ensures
        i == j,
{
    if i < j {
        lemma_count_pushers_at_least_one(s, i, j);
        lemma_count_pushers_monotone(s, j + 1, s.len() as int);
    } else if j < i {
        lemma_count_pushers_at_least_one(s, j, i);
        lemma_count_pushers_monotone(s, i + 1, s.len() as int);
    }
}

/// A prefix with no pusher tiles counts zero pushers.
pub proof fn lemma_count_pushers_zero(s: Seq<u8>, n: int)
    requires
        forall|j: int| 0 <= j < n ==> !is_pusher(s[j]),
    ensures
        count_pushers_to(s, n) == 0,
    decreases n,
{
    if n > 0 {
        lemma_count_pushers_zero(s, n - 1);
    }
}

/// A prefix with no box tiles counts zero boxes.
pub proof fn lemma_count_boxes_zero(s: Seq<u8>, n: int)
    requires
        forall|j: int| 0 <= j < n ==> !is_box(s[j]),
    ensures
        count_boxes_to(s, n) == 0,
    decreases n,
{
    if n > 0 {
        lemma_count_boxes_zero(s, n - 1);
    }
}

/// How a single-cell update changes the pusher count of a prefix.
pub proof fn lemma_count_pushers_update(s: Seq<u8>, i: int, v: u8, n: int)
    requires
        0 <= i < s.len(),
        n <= s.len(),
    ensures
        count_pushers_to(s.update(i, v), n) == count_pushers_to(s, n) + if i < n {
            (if is_pusher(v) {
                1int
            } else {
                0int
            }) - (if is_pusher(s[i]) {
                1int
            } else {
                0int
            })
        } else {
            0int
        },
    decreases n,
{
    if n > 0 {
        lemma_count_pushers_update(s, i, v, n - 1);
    }
}

/// How a single-cell update changes the box count of a prefix.
pub proof fn lemma_count_boxes_update(s: Seq<u8>, i: int, v: u8, n: int)
    requires
        0 <= i < s.len(),
        n <= s.len(),
    ensures
        count_boxes_to(s.update(i, v), n) == count_boxes_to(s, n) + if i < n {
            (if is_box(v) {
                1int
            } else {
                0int
            }) - (if is_box(s[i]) {
                1int
            } else {
                0int
            })
        } else {
            0int
        },
    decreases n,
{
    if n > 0 {
        lemma_count_boxes_update(s, i, v, n - 1);
    }
}

} // verus!
