use vstd::prelude::*;

verus! {

/// Conway's rule: a cell is alive in the next generation exactly when it has
/// three live neighbors, or is alive and has two.
pub open spec fn alive_next(already_alive: bool, neighbors: int) -> bool {
    neighbors == 3 || (already_alive && neighbors == 2)
}

/// Whether the cell at `(row, col)` of `g` is alive.
pub open spec fn is_live(g: Seq<Seq<u8>>, row: int, col: int) -> bool {
    g[row][col] != 0
}

/// An index at most one step outside `[0, n)`, brought back into that range
/// as though the two ends were adjacent (that is, `i` modulo `n`).
pub open spec fn wrap_index(i: int, n: int) -> int {
    if i < 0 {
        i + n
    } else if i >= n {
        i - n
    } else {
        i
    }
}

/// What the neighbor of `(row, col)` at offset `(dr, dc)` adds to its count:
/// 1 when that position is a live cell, else 0. Without wrapping, a position
/// outside the grid adds nothing; with wrapping, it stands for the cell on the
/// opposite edge.
pub open spec fn neighbor_value(
    g: Seq<Seq<u8>>,
    height: int,
    width: int,
    wrap: bool,
    row: int,
    col: int,
    dr: int,
    dc: int,
) -> int {
    let nr = row + dr;
    let nc = col + dc;
    if wrap {
        if is_live(g, wrap_index(nr, height), wrap_index(nc, width)) {
            1
        } else {
            0
        }
    } else if 0 <= nr < height && 0 <= nc < width && is_live(g, nr, nc) {
        1
    } else {
        0
    }
}

/// The number of live cells among the eight Moore neighbors of `(row, col)`.
pub open spec fn live_neighbors(
    g: Seq<Seq<u8>>,
    height: int,
    width: int,
    wrap: bool,
    row: int,
    col: int,
) -> int {
    neighbor_value(g, height, width, wrap, row, col, -1, -1) + neighbor_value(
        g,
        height,
        width,
        wrap,
        row,
        col,
        -1,
        0,
    ) + neighbor_value(g, height, width, wrap, row, col, -1, 1) + neighbor_value(
        g,
        height,
        width,
        wrap,
        row,
        col,
        0,
        -1,
    ) + neighbor_value(g, height, width, wrap, row, col, 0, 1) + neighbor_value(
        g,
        height,
        width,
        wrap,
        row,
        col,
        1,
        -1,
    ) + neighbor_value(g, height, width, wrap, row, col, 1, 0) + neighbor_value(
        g,
        height,
        width,
        wrap,
        row,
        col,
        1,
        1,
    )
}

/// The state of `(row, col)` in the generation after `g`.
pub open spec fn next_cell(
    g: Seq<Seq<u8>>,
    height: int,
    width: int,
    wrap: bool,
    row: int,
    col: int,
) -> u8 {
    if alive_next(is_live(g, row, col), live_neighbors(g, height, width, wrap, row, col)) {
        1
    } else {
        0
    }
}

/// The generation after `g`, a grid of `height` rows of `width` cells, every
/// cell computed from `g` alone.
pub open spec fn next_generation(g: Seq<Seq<u8>>, height: nat, width: nat, wrap: bool) -> Seq<
    Seq<u8>,
> {
    Seq::new(
        height,
        |row: int| Seq::new(width, |col: int| next_cell(g, height as int, width as int, wrap, row, col)),
    )
}

/// `g` has `height` rows of `width` cells, each 0 or 1.
pub open spec fn is_board(g: Seq<Seq<u8>>, height: nat, width: nat) -> bool {
    &&& g.len() == height
    &&& forall|r: int| 0 <= r < height ==> (#[trigger] g[r]).len() == width
    &&& forall|r: int, c: int| 0 <= r < height && 0 <= c < width ==> #[trigger] g[r][c] <= 1
}

} // verus!
