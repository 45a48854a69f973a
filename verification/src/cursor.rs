//! A cursor over a list: an index that moves one entry at a time and never
//! leaves the list.

use vstd::prelude::*;

verus! {

/// Where a cursor may stand on a list of `len` entries: on an entry, or on
/// index 0 while the list is empty.
pub open spec fn cursor_in_bounds(index: int, len: int) -> bool {
    (len == 0 && index == 0) || (0 <= index < len)
}

/// The index after a move towards the end: one further, unless that would
/// leave the list.
pub open spec fn cursor_below(index: int, len: int) -> int {
    if index + 1 < len {
        index + 1
    } else {
        index
    }
}

/// The index after a move towards the start: one back, unless the cursor
/// stands on `floor` or before it.
pub open spec fn cursor_above(index: int, floor: int) -> int {
    if index > floor {
        index - 1
    } else {
        index
    }
}

/// The index of a cursor after the list changed to `len` entries: where it
/// was, as long as it still stands on an entry; else on the last entry, and
/// on index 0 of an empty list.
pub open spec fn cursor_kept(index: int, len: int) -> int {
    if index < len {
        index
    } else if len == 0 {
        0
    } else {
        len - 1
    }
}

/// One move of a cursor.
pub enum CursorMove {
    Below,
    Above,
}

/// The index after `moves`, made in order from `index` on a list of `len`
/// entries.
pub open spec fn cursor_after(index: int, len: int, moves: Seq<CursorMove>) -> int
    decreases moves.len(),
{
    if moves.len() == 0 {
        index
    } else {
        let before = cursor_after(index, len, moves.drop_last());
        match moves.last() {
            CursorMove::Below => cursor_below(before, len),
            CursorMove::Above => cursor_above(before, 0),
        }
    }
}

/// Whatever moves are made, and in whatever order, a cursor that stands
/// within a list stays within it.
pub proof fn lemma_cursor_moves_stay_in_bounds(index: int, len: int, moves: Seq<CursorMove>)
    requires
        cursor_in_bounds(index, len),
    ensures
        cursor_in_bounds(cursor_after(index, len, moves), len),
    decreases moves.len(),
{
    if moves.len() > 0 {
        lemma_cursor_moves_stay_in_bounds(index, len, moves.drop_last());
    }
}

/// Moves `index` one entry towards the end of a list of `len` entries.
pub fn step_below(index: usize, len: usize) -> (next: usize)
    ensures
        next == cursor_below(index as int, len as int),
{
    if index < len && index + 1 < len {
        index + 1
    } else {
        index
    }
}

/// Keeps `index` within a list that changed to `len` entries.
pub fn step_kept(index: usize, len: usize) -> (kept: usize)
    ensures
        kept == cursor_kept(index as int, len as int),
        cursor_in_bounds(kept as int, len as int),
{
    if index < len {
        index
    } else if len == 0 {
        0
    } else {
        len - 1
    }
}

/// Moves `index` one entry towards the start, not past `floor`.
pub fn step_above(index: usize, floor: usize) -> (next: usize)
    ensures
        next == cursor_above(index as int, floor as int),
{
    if index > floor {
        index - 1
    } else {
        index
    }
}

} // verus!
