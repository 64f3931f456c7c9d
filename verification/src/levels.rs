//! The level catalog and the level loader: static level templates, the
//! stamping of a template into the playfield, and the proof that every
//! catalog entry loads into a well-formed position.

use vstd::prelude::*;

use crate::playfield::{
    box_count, lemma_count_boxes_update, lemma_count_boxes_zero, lemma_count_pushers_update,
    lemma_count_pushers_zero, pusher_count, sentinel_field, Playfield, ALIGN, PLAYFIELD_LEN,
};
use crate::tiles::{is_box, is_pusher, translate, translate_char, NEWLINE, SENTINEL};

verus! {

/// Number of entries in the level catalog.
pub const LEVEL_COUNT: usize = 3;

/// The level 0 template, one byte per character, rows separated by newlines.
pub open spec fn template_0() -> Seq<u8> {
    Seq::empty()
        // ########
        .push(0x23).push(0x23).push(0x23).push(0x23).push(0x23).push(0x23).push(0x23).push(0x23).push(0x0A)
        // #      #
        .push(0x23).push(0x20).push(0x20).push(0x20).push(0x20).push(0x20).push(0x20).push(0x23).push(0x0A)
        // #@ $   #
        .push(0x23).push(0x40).push(0x20).push(0x24).push(0x20).push(0x20).push(0x20).push(0x23).push(0x0A)
        // #   $  #
        .push(0x23).push(0x20).push(0x20).push(0x20).push(0x24).push(0x20).push(0x20).push(0x23).push(0x0A)
        // # . .  #
        .push(0x23).push(0x20).push(0x2E).push(0x20).push(0x2E).push(0x20).push(0x20).push(0x23).push(0x0A)
        // ########
        .push(0x23).push(0x23).push(0x23).push(0x23).push(0x23).push(0x23).push(0x23).push(0x23).push(0x0A)
}

/// The level 1 template, one byte per character, rows separated by newlines.
pub open spec fn template_1() -> Seq<u8> {
    Seq::empty()
        // ########
        .push(0x23).push(0x23).push(0x23).push(0x23).push(0x23).push(0x23).push(0x23).push(0x23).push(0x0A)
        // #     .#
        .push(0x23).push(0x20).push(0x20).push(0x20).push(0x20).push(0x20).push(0x2E).push(0x23).push(0x0A)
        // #@ $   #
        .push(0x23).push(0x40).push(0x20).push(0x24).push(0x20).push(0x20).push(0x20).push(0x23).push(0x0A)
        // #   $  #
        .push(0x23).push(0x20).push(0x20).push(0x20).push(0x24).push(0x20).push(0x20).push(0x23).push(0x0A)
        // # . *  #
        .push(0x23).push(0x20).push(0x2E).push(0x20).push(0x2A).push(0x20).push(0x20).push(0x23).push(0x0A)
        // ########
        .push(0x23).push(0x23).push(0x23).push(0x23).push(0x23).push(0x23).push(0x23).push(0x23).push(0x0A)
}

/// The level 2 template, one byte per character, rows separated by newlines.
pub open spec fn template_2() -> Seq<u8> {
    Seq::empty()
        // ######
        .push(0x23).push(0x23).push(0x23).push(0x23).push(0x23).push(0x23).push(0x0A)
        // #.   #
        .push(0x23).push(0x2E).push(0x20).push(0x20).push(0x20).push(0x23).push(0x0A)
        // #    #
        .push(0x23).push(0x20).push(0x20).push(0x20).push(0x20).push(0x23).push(0x0A)
        // ###$ .##
        .push(0x23).push(0x23).push(0x23).push(0x24).push(0x20).push(0x2E).push(0x23).push(0x23).push(0x0A)
        // #   #.#
        .push(0x23).push(0x20).push(0x20).push(0x20).push(0x23).push(0x2E).push(0x23).push(0x0A)
        // # $$$.#
        .push(0x23).push(0x20).push(0x24).push(0x24).push(0x24).push(0x2E).push(0x23).push(0x0A)
        // #@ .$ #
        .push(0x23).push(0x40).push(0x20).push(0x2E).push(0x24).push(0x20).push(0x23).push(0x0A)
        // #######
        .push(0x23).push(0x23).push(0x23).push(0x23).push(0x23).push(0x23).push(0x23).push(0x0A)
}

/// The catalog entry at `idx`, as the byte sequence of its template.
pub open spec fn spec_template(idx: int) -> Seq<u8> {
    if idx == 0 {
        template_0()
    } else if idx == 1 {
        template_1()
    } else if idx == 2 {
        template_2()
    } else {
        Seq::empty()
    }
}

/// The catalog entry at `idx` as owned bytes.
pub fn level_template(idx: u8) -> (v: Vec<u8>)
    requires
        (idx as int) < LEVEL_COUNT as int,
    ensures
        v@ == spec_template(idx as int),
{
    let mut v: Vec<u8> = Vec::new();
    if idx == 0 {
        // ########
        v.push(0x23); v.push(0x23); v.push(0x23); v.push(0x23); v.push(0x23); v.push(0x23); v.push(0x23); v.push(0x23); v.push(0x0A);
        // #      #
        v.push(0x23); v.push(0x20); v.push(0x20); v.push(0x20); v.push(0x20); v.push(0x20); v.push(0x20); v.push(0x23); v.push(0x0A);
        // #@ $   #
        v.push(0x23); v.push(0x40); v.push(0x20); v.push(0x24); v.push(0x20); v.push(0x20); v.push(0x20); v.push(0x23); v.push(0x0A);
        // #   $  #
        v.push(0x23); v.push(0x20); v.push(0x20); v.push(0x20); v.push(0x24); v.push(0x20); v.push(0x20); v.push(0x23); v.push(0x0A);
        // # . .  #
        v.push(0x23); v.push(0x20); v.push(0x2E); v.push(0x20); v.push(0x2E); v.push(0x20); v.push(0x20); v.push(0x23); v.push(0x0A);
        // ########
        v.push(0x23); v.push(0x23); v.push(0x23); v.push(0x23); v.push(0x23); v.push(0x23); v.push(0x23); v.push(0x23); v.push(0x0A);
    } else if idx == 1 {
        // ########
        v.push(0x23); v.push(0x23); v.push(0x23); v.push(0x23); v.push(0x23); v.push(0x23); v.push(0x23); v.push(0x23); v.push(0x0A);
        // #     .#
        v.push(0x23); v.push(0x20); v.push(0x20); v.push(0x20); v.push(0x20); v.push(0x20); v.push(0x2E); v.push(0x23); v.push(0x0A);
        // #@ $   #
        v.push(0x23); v.push(0x40); v.push(0x20); v.push(0x24); v.push(0x20); v.push(0x20); v.push(0x20); v.push(0x23); v.push(0x0A);
        // #   $  #
        v.push(0x23); v.push(0x20); v.push(0x20); v.push(0x20); v.push(0x24); v.push(0x20); v.push(0x20); v.push(0x23); v.push(0x0A);
        // # . *  #
        v.push(0x23); v.push(0x20); v.push(0x2E); v.push(0x20); v.push(0x2A); v.push(0x20); v.push(0x20); v.push(0x23); v.push(0x0A);
        // ########
        v.push(0x23); v.push(0x23); v.push(0x23); v.push(0x23); v.push(0x23); v.push(0x23); v.push(0x23); v.push(0x23); v.push(0x0A);
    } else {
        // ######
        v.push(0x23); v.push(0x23); v.push(0x23); v.push(0x23); v.push(0x23); v.push(0x23); v.push(0x0A);
        // #.   #
        v.push(0x23); v.push(0x2E); v.push(0x20); v.push(0x20); v.push(0x20); v.push(0x23); v.push(0x0A);
        // #    #
        v.push(0x23); v.push(0x20); v.push(0x20); v.push(0x20); v.push(0x20); v.push(0x23); v.push(0x0A);
        // ###$ .##
        v.push(0x23); v.push(0x23); v.push(0x23); v.push(0x24); v.push(0x20); v.push(0x2E); v.push(0x23); v.push(0x23); v.push(0x0A);
        // #   #.#
        v.push(0x23); v.push(0x20); v.push(0x20); v.push(0x20); v.push(0x23); v.push(0x2E); v.push(0x23); v.push(0x0A);
        // # $$$.#
        v.push(0x23); v.push(0x20); v.push(0x24); v.push(0x24); v.push(0x24); v.push(0x2E); v.push(0x23); v.push(0x0A);
        // #@ .$ #
        v.push(0x23); v.push(0x40); v.push(0x20); v.push(0x2E); v.push(0x24); v.push(0x20); v.push(0x23); v.push(0x0A);
        // #######
        v.push(0x23); v.push(0x23); v.push(0x23); v.push(0x23); v.push(0x23); v.push(0x23); v.push(0x23); v.push(0x0A);
    }
    v
}

/// The grid after stamping the template bytes from position `i` on into `f`,
/// starting at column `x` of row `y`.  A newline resets the column and
/// advances the row; any other byte is translated and written at linear index
/// `y * ALIGN + x`, or ignored when that index falls outside the grid (the
/// clamping policy for templates that do not fit).
pub open spec fn stamp_from(f: Seq<u8>, t: Seq<u8>, i: int, x: int, y: int) -> Seq<u8>
    decreases t.len() - i,
{
    if i < 0 || i >= t.len() {
        f
    } else if t[i] == NEWLINE {
        stamp_from(f, t, i + 1, 0, y + 1)
    } else {
        let pos = y * (ALIGN as int) + x;
        let f2 = if 0 <= pos < f.len() {
            f.update(pos, translate(t[i]))
        } else {
            f
        };
        stamp_from(f2, t, i + 1, x + 1, y)
    }
}

/// The playfield contents right after loading catalog level `idx`: the
/// sentinel-filled grid with the template stamped over it.
pub open spec fn loaded(idx: int) -> Seq<u8> {
    stamp_from(sentinel_field(), spec_template(idx), 0, 0, 0)
}

/// Clear the whole grid to the sentinel, then stamp catalog level `idx` into
/// it.  Every load rebuilds the playfield wholesale; there is no incremental
/// re-layout.
pub fn load_level(field: &mut Playfield, idx: u8)
    requires
        old(field).wf(),
        (idx as int) < LEVEL_COUNT as int,
    ensures
        final(field).wf(),
        final(field)@ == loaded(idx as int),
{
    field.clear();
    let tpl = level_template(idx);
    let mut i: usize = 0;
    let mut x: usize = 0;
    let mut y: usize = 0;
    while i < tpl.len()
        invariant
            field.wf(),
            tpl@ == spec_template(idx as int),
            tpl@.len() <= 100,
            i <= tpl@.len(),
            x <= i,
            y <= i,
            stamp_from(field@, tpl@, i as int, x as int, y as int) == loaded(idx as int),
        decreases tpl@.len() - i,
    {
        let c = tpl[i];
        if c == NEWLINE {
            x = 0;
            y = y + 1;
        } else {
            let pos = y * ALIGN + x;
            if pos < PLAYFIELD_LEN {
                field.write(pos, translate_char(c));
            }
            x = x + 1;
        }
        i = i + 1;
    }
}

/// True when stamping the template bytes from position `i` on, starting at
/// column `x` of row `y`, keeps every written cell inside the grid and every
/// column below the stride.  All catalog templates satisfy this from the
/// start position.
pub open spec fn stamp_ok(t: Seq<u8>, i: int, x: int, y: int) -> bool
    decreases t.len() - i,
{
    if i < 0 || i >= t.len() {
        true
    } else if t[i] == NEWLINE {
        stamp_ok(t, i + 1, 0, y + 1)
    } else {
        0 <= x < ALIGN as int && 0 <= y * (ALIGN as int) + x < PLAYFIELD_LEN as int
            && stamp_ok(t, i + 1, x + 1, y)
    }
}

/// Number of template bytes from position `i` on that stamp a pusher tile.
pub open spec fn pusher_chars_from(t: Seq<u8>, i: int) -> int
    decreases t.len() - i,
{
    if i < 0 || i >= t.len() {
        0
    } else if t[i] == NEWLINE {
        pusher_chars_from(t, i + 1)
    } else {
        (if is_pusher(translate(t[i])) {
            1int
        } else {
            0int
        }) + pusher_chars_from(t, i + 1)
    }
}

/// Number of template bytes from position `i` on that stamp a box tile.
pub open spec fn box_chars_from(t: Seq<u8>, i: int) -> int
    decreases t.len() - i,
{
    if i < 0 || i >= t.len() {
        0
    } else if t[i] == NEWLINE {
        box_chars_from(t, i + 1)
    } else {
        (if is_box(translate(t[i])) {
            1int
        } else {
            0int
        }) + box_chars_from(t, i + 1)
    }
}

/// Stamping a fitting template over a region of sentinel cells adds exactly
/// the pusher and box tiles its characters call for: writes walk the grid in
/// strictly increasing linear order, so no stamped cell is ever overwritten.
proof fn lemma_stamp_counts(f: Seq<u8>, t: Seq<u8>, i: int, x: int, y: int)
    requires
        f.len() == PLAYFIELD_LEN,
        0 <= i <= t.len(),
        0 <= x <= ALIGN as int,
        0 <= y,
        stamp_ok(t, i, x, y),
        forall|c: int| y * (ALIGN as int) + x <= c < PLAYFIELD_LEN ==> f[c] == SENTINEL,
    ensures
        stamp_from(f, t, i, x, y).len() == PLAYFIELD_LEN,
        pusher_count(stamp_from(f, t, i, x, y)) == pusher_count(f) + pusher_chars_from(t, i),
        box_count(stamp_from(f, t, i, x, y)) == box_count(f) + box_chars_from(t, i),
    decreases t.len() - i,
{
    if i >= t.len() {
    } else if t[i] == NEWLINE {
        assert((y + 1) * (ALIGN as int) == y * (ALIGN as int) + ALIGN as int);
        lemma_stamp_counts(f, t, i + 1, 0, y + 1);
    } else {
        let pos = y * (ALIGN as int) + x;
        let f2 = f.update(pos, translate(t[i]));
        assert(f[pos] == SENTINEL);
        lemma_count_pushers_update(f, pos, translate(t[i]), f.len() as int);
        lemma_count_boxes_update(f, pos, translate(t[i]), f.len() as int);
        lemma_stamp_counts(f2, t, i + 1, x + 1, y);
    }
}

#[verifier::rlimit(100)]
proof fn lemma_template_0_counts()
    ensures
        stamp_ok(template_0(), 0, 0, 0),
        pusher_chars_from(template_0(), 0) == 1,
{
    reveal_with_fuel(stamp_ok, 56);
    reveal_with_fuel(pusher_chars_from, 56);
}

#[verifier::rlimit(100)]
proof fn lemma_template_1_counts()
    ensures
        stamp_ok(template_1(), 0, 0, 0),
        pusher_chars_from(template_1(), 0) == 1,
{
    reveal_with_fuel(stamp_ok, 56);
    reveal_with_fuel(pusher_chars_from, 56);
}

#[verifier::rlimit(100)]
proof fn lemma_template_2_counts()
    ensures
        stamp_ok(template_2(), 0, 0, 0),
        pusher_chars_from(template_2(), 0) == 1,
{
    reveal_with_fuel(stamp_ok, 64);
    reveal_with_fuel(pusher_chars_from, 64);
}

/// Loading any catalog level yields exactly one pusher tile, and exactly as
/// many box tiles as the template has box-producing characters.
pub proof fn lemma_load_invariant(idx: int)
    requires
        0 <= idx < LEVEL_COUNT as int,
    ensures
        loaded(idx).len() == PLAYFIELD_LEN,
        pusher_count(loaded(idx)) == 1,
        box_count(loaded(idx)) == box_chars_from(spec_template(idx), 0),
{
    let f = sentinel_field();
    assert(forall|j: int| 0 <= j < f.len() ==> !is_pusher(f[j]) && !is_box(f[j]));
    lemma_count_pushers_zero(f, f.len() as int);
    lemma_count_boxes_zero(f, f.len() as int);
    if idx == 0 {
        lemma_template_0_counts();
    } else if idx == 1 {
        lemma_template_1_counts();
    } else {
        lemma_template_2_counts();
    }
    lemma_stamp_counts(f, spec_template(idx), 0, 0, 0);
}

} // verus!
