use vstd::prelude::*;
use crate::game::{LifeState, cleared};
use crate::rule::{is_board, is_live, live_neighbors};

verus! {

/// Clearing leaves every cell of the shown grid dead and keeps the dimensions
/// and boundary mode; clearing twice in a row leaves the same state as
/// clearing once.
pub proof fn lemma_clear_idempotent(s: LifeState)
    ensures
        cleared(cleared(s)) == cleared(s),
        cleared(s).width == s.width,
        cleared(s).height == s.height,
        cleared(s).repeating == s.repeating,
        cleared(s).front_cells.len() == s.height,
        forall|r: int, c: int|
            0 <= r < s.height && 0 <= c < s.width ==> #[trigger] cleared(s).front_cells[r][c] == 0,
{
}

/// The value, 1 or 0, that the live cell `(row, col)` of `g` adds to a count.
pub open spec fn live_value(g: Seq<Seq<u8>>, row: int, col: int) -> int {
    if is_live(g, row, col) {
        1
    } else {
        0
    }
}

/// On a bounded grid of at least two rows and two columns, the neighbor count
/// of each corner cell considers exactly its three neighbors inside the grid.
pub proof fn lemma_bounded_corner_neighbors(g: Seq<Seq<u8>>, height: nat, width: nat)
    requires
        is_board(g, height, width),
        height >= 2,
        width >= 2,
    ensures
        live_neighbors(g, height as int, width as int, false, 0, 0) == live_value(g, 0, 1)
            + live_value(g, 1, 0) + live_value(g, 1, 1),
        live_neighbors(g, height as int, width as int, false, 0, width - 1) == live_value(
            g,
            0,
            width - 2,
        ) + live_value(g, 1, width - 1) + live_value(g, 1, width - 2),
        live_neighbors(g, height as int, width as int, false, height - 1, 0) == live_value(
            g,
            height - 2,
            0,
        ) + live_value(g, height - 1, 1) + live_value(g, height - 2, 1),
        live_neighbors(g, height as int, width as int, false, height - 1, width - 1)
            == live_value(g, height - 2, width - 1) + live_value(g, height - 1, width - 2)
            + live_value(g, height - 2, width - 2),
{
}

} // verus!
