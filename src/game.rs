use vstd::prelude::*;
use crate::grid::{Grid, grid_cells, grid_cols, zero_cells};
use crate::rule::{alive_next, is_board, next_cell, next_generation, neighbor_value, live_neighbors, wrap_index};

verus! {

/// The abstract state of a game: both buffers, which one is in front, the
/// dimensions and the boundary mode.
pub struct LifeState {
    pub front_cells: Seq<Seq<u8>>,
    pub back_cells: Seq<Seq<u8>>,
    pub front: nat,
    pub width: nat,
    pub height: nat,
    pub repeating: bool,
}

/// The state of a game just made with these dimensions and mode.
pub open spec fn fresh(width: nat, height: nat, repeating: bool) -> LifeState {
    LifeState {
        front_cells: zero_cells(height, width),
        back_cells: zero_cells(height, width),
        front: 0,
        width,
        height,
        repeating,
    }
}

/// The state that clearing `s` leaves.
pub open spec fn cleared(s: LifeState) -> LifeState {
    fresh(s.width, s.height, s.repeating)
}

/// `s` with `cells` as its shown grid.
pub open spec fn with_front(s: LifeState, cells: Seq<Seq<u8>>) -> LifeState {
    LifeState { front_cells: cells, ..s }
}

/// Whether `coord`, read as `[row, col]`, lies on a grid of `height` rows of
/// `width` cells.
pub open spec fn in_bounds(coord: [usize; 2], height: nat, width: nat) -> bool {
    coord@[0] < height && coord@[1] < width
}

/// Whether some coordinate of `coords` is `[row, col]`.
pub open spec fn names_cell(coords: Seq<[usize; 2]>, row: int, col: int) -> bool {
    exists|i: int| 0 <= i < coords.len() && coords[i]@[0] == row && coords[i]@[1] == col
}

/// `g` with every cell that `coords` names set to `v`.
pub open spec fn painted(g: Seq<Seq<u8>>, coords: Seq<[usize; 2]>, v: u8) -> Seq<Seq<u8>> {
    Seq::new(
        g.len(),
        |r: int| Seq::new(g[r].len(), |c: int| if names_cell(coords, r, c) { v } else { g[r][c] }),
    )
}

/// A coordinate handed to a seeding operation that lies outside the grid.
#[derive(Debug, Clone, Copy, PartialEq, Eq, Structural)]
pub struct OutOfBounds {
    pub row: usize,
    pub col: usize,
}

/// The index of the first coordinate of `coords` outside the grid, if any.
fn first_out_of_bounds(coords: &Vec<[usize; 2]>, height: usize, width: usize) -> (r: Option<usize>)
    ensures
        match r {
            Some(i) => {
                &&& i < coords@.len()
                &&& !in_bounds(coords@[i as int], height as nat, width as nat)
                &&& forall|j: int| 0 <= j < i ==> in_bounds(#[trigger] coords@[j], height as nat, width as nat)
            },
            None => forall|j: int|
                0 <= j < coords@.len() ==> in_bounds(#[trigger] coords@[j], height as nat, width as nat),
        },
{
    let mut i: usize = 0;
    while i < coords.len()
        invariant
            i <= coords@.len(),
            forall|j: int| 0 <= j < i ==> in_bounds(#[trigger] coords@[j], height as nat, width as nat),
        decreases coords@.len() - i,
    {
        let coord = coords[i];
        if !(coord[0] < height && coord[1] < width) {
            return Some(i);
        }
        i = i + 1;
    }
    None
}

/// Sets to `v` every cell of `grid` that `coords` names.
fn paint(grid: &mut Grid, coords: &Vec<[usize; 2]>, v: u8, height: usize, width: usize)
    requires
        grid_fits(*old(grid), height as nat, width as nat),
        v <= 1,
        forall|j: int| 0 <= j < coords@.len() ==> in_bounds(#[trigger] coords@[j], height as nat, width as nat),
    ensures
        grid_cells(*final(grid)) == painted(grid_cells(*old(grid)), coords@, v),
        grid_fits(*final(grid), height as nat, width as nat),
{
    let ghost g = grid_cells(*grid);
    let mut i: usize = 0;
    assert(painted(g, coords@.subrange(0, 0), v) =~~= g);
    while i < coords.len()
        invariant
            i <= coords@.len(),
            v <= 1,
            g.len() == height,
            forall|r: int| 0 <= r < height ==> (#[trigger] g[r]).len() == width,
            forall|j: int| 0 <= j < coords@.len() ==> in_bounds(#[trigger] coords@[j], height as nat, width as nat),
            grid_cells(*grid) == painted(g, coords@.subrange(0, i as int), v),
            grid_fits(*grid, height as nat, width as nat),
        decreases coords@.len() - i,
    {
        let coord = coords[i];
        assert(in_bounds(coords@[i as int], height as nat, width as nat));
        let ghost before = coords@.subrange(0, i as int);
        let ghost after = coords@.subrange(0, i as int + 1);
        grid.set(coord[0], coord[1], v);
        proof {
            assert forall|r: int, c: int| #![auto]
                names_cell(after, r, c) == (names_cell(before, r, c) || (r == coord@[0] && c
                    == coord@[1])) by {
                if names_cell(before, r, c) {
                    let k = choose|k: int|
                        0 <= k < before.len() && before[k]@[0] == r && before[k]@[1] == c;
                    assert(after[k] == before[k]);
                }
                if r == coord@[0] && c == coord@[1] {
                    assert(after[i as int] == coord);
                }
                if names_cell(after, r, c) {
                    let k = choose|k: int|
                        0 <= k < after.len() && after[k]@[0] == r && after[k]@[1] == c;
                    if k < i {
                        assert(after[k] == before[k]);
                    }
                }
            }
            assert(grid_cells(*grid) =~~= painted(g, after, v));
        }
        i = i + 1;
    }
    assert(coords@.subrange(0, coords@.len() as int) =~= coords@);
}

/// An instance of Conway's Game of Life.
pub struct Game {
    /// The double buffer: one grid is shown while the other receives the next
    /// generation, and then their roles switch.
    grid_a: Grid,
    grid_b: Grid,
    /// Which grid is shown: 0 for `grid_a`, 1 for `grid_b`.
    front: u8,
    /// Whether the top and bottom edges, and the left and right edges, are
    /// joined.
    repeating: bool,
    width: usize,
    height: usize,
}

impl View for Game {
    type V = LifeState;

    closed spec fn view(&self) -> LifeState {
        LifeState {
            front_cells: if self.front == 0 {
                grid_cells(self.grid_a)
            } else {
                grid_cells(self.grid_b)
            },
            back_cells: if self.front == 0 {
                grid_cells(self.grid_b)
            } else {
                grid_cells(self.grid_a)
            },
            front: self.front as nat,
            width: self.width as nat,
            height: self.height as nat,
            repeating: self.repeating,
        }
    }
}

/// Whether `g` is a well-formed buffer of a game of these dimensions.
pub open spec fn grid_fits(g: Grid, height: nat, width: nat) -> bool {
    &&& is_board(grid_cells(g), height, width)
    &&& grid_cols(g) == width
}

/// The position `i + d - 1` along an axis of length `n`, wrapped when `wrap`
/// holds, or `None` when it falls outside the axis without wrapping.
fn shifted(i: usize, n: usize, d: usize, wrap: bool) -> (r: Option<usize>)
    requires
        i < n,
        d <= 2,
    ensures
        match r {
            Some(j) => {
                &&& j < n
                &&& wrap ==> j == wrap_index(i + d - 1, n as int)
                &&& !wrap ==> j == i + d - 1
            },
            None => !wrap && !(0 <= i + d - 1 < n),
        },
{
    if d == 0 {
        if i > 0 {
            Some(i - 1)
        } else if wrap {
            Some(n - 1)
        } else {
            None
        }
    } else if d == 1 {
        Some(i)
    } else if i + 1 < n {
        Some(i + 1)
    } else if wrap {
        Some(0)
    } else {
        None
    }
}

impl Game {
    /// Well-formedness: positive dimensions whose product fits an `isize`, a
    /// front selector of 0 or 1, and two buffers of the game's shape holding
    /// only 0 and 1.
    pub closed spec fn wf(&self) -> bool {
        &&& self.width > 0
        &&& self.height > 0
        &&& self.width * self.height <= isize::MAX
        &&& self.front <= 1
        &&& grid_fits(self.grid_a, self.height as nat, self.width as nat)
        &&& grid_fits(self.grid_b, self.height as nat, self.width as nat)
    }

    /// A game of `height` rows of `width` cells, all dead.
    pub fn new(width: usize, height: usize, repeating: bool) -> (g: Game)
        requires
            width > 0,
            height > 0,
            width * height <= isize::MAX,
        ensures
            g.wf(),
            g@ == fresh(width as nat, height as nat, repeating),
    {
        proof {
            assert(width * height == height * width) by (nonlinear_arith);
            assert(width <= width * height && height <= width * height) by (nonlinear_arith)
                requires
                    width > 0,
                    height > 0,
            ;
        }
        let grid_a = Grid::zeros(height, width);
        let grid_b = Grid::zeros(height, width);
        Game { grid_a, grid_b, front: 0, repeating, width, height }
    }

    /// Conway's rule for one cell, from its current state and its number of
    /// live neighbors.
    pub fn alive(already_alive: bool, neighbors: usize) -> (r: bool)
        ensures
            r == alive_next(already_alive, neighbors as int),
    {
        neighbors == 3 || (already_alive && neighbors == 2)
    }

    /// 1 when the neighbor of `(row, col)` at offset `(dr - 1, dc - 1)` is a
    /// live cell of `src`, else 0.
    fn neighbor(
        src: &Grid,
        height: usize,
        width: usize,
        wrap: bool,
        row: usize,
        col: usize,
        dr: usize,
        dc: usize,
    ) -> (n: usize)
        requires
            grid_fits(*src, height as nat, width as nat),
            row < height,
            col < width,
            dr <= 2,
            dc <= 2,
        ensures
            n as int == neighbor_value(
                grid_cells(*src),
                height as int,
                width as int,
                wrap,
                row as int,
                col as int,
                dr - 1,
                dc - 1,
            ),
    {
        match (shifted(row, height, dr, wrap), shifted(col, width, dc, wrap)) {
            (Some(r), Some(c)) => {
                if src.get(r, c) != 0 {
                    1
                } else {
                    0
                }
            },
            _ => 0,
        }
    }

    /// The number of live cells of `src` among the eight neighbors of
    /// `(row, col)`.
    fn count_neighbors(
        src: &Grid,
        height: usize,
        width: usize,
        wrap: bool,
        row: usize,
        col: usize,
    ) -> (n: usize)
        requires
            grid_fits(*src, height as nat, width as nat),
            row < height,
            col < width,
        ensures
            n as int == live_neighbors(
                grid_cells(*src),
                height as int,
                width as int,
                wrap,
                row as int,
                col as int,
            ),
    {
        Self::neighbor(src, height, width, wrap, row, col, 0, 0) + Self::neighbor(
            src,
            height,
            width,
            wrap,
            row,
            col,
            0,
            1,
        ) + Self::neighbor(src, height, width, wrap, row, col, 0, 2) + Self::neighbor(
            src,
            height,
            width,
            wrap,
            row,
            col,
            1,
            0,
        ) + Self::neighbor(src, height, width, wrap, row, col, 1, 2) + Self::neighbor(
            src,
            height,
            width,
            wrap,
            row,
            col,
            2,
            0,
        ) + Self::neighbor(src, height, width, wrap, row, col, 2, 1) + Self::neighbor(
            src,
            height,
            width,
            wrap,
            row,
            col,
            2,
            2,
        )
    }

    /// Writes into `dst` the next state of `(row, col)`, computed from `src`.
    fn update_cell(
        src: &Grid,
        dst: &mut Grid,
        height: usize,
        width: usize,
        wrap: bool,
        row: usize,
        col: usize,
    )
        requires
            grid_fits(*src, height as nat, width as nat),
            grid_cells(*old(dst)).len() == height,
            forall|r: int| 0 <= r < height ==> (#[trigger] grid_cells(*old(dst))[r]).len() == width,
            row < height,
            col < width,
        ensures
            grid_cells(*final(dst)) == grid_cells(*old(dst)).update(
                row as int,
                grid_cells(*old(dst))[row as int].update(
                    col as int,
                    next_cell(grid_cells(*src), height as int, width as int, wrap, row as int, col as int),
                ),
            ),
            grid_cols(*final(dst)) == grid_cols(*old(dst)),
    {
        let neighbors = Self::count_neighbors(src, height, width, wrap, row, col);
        let next: u8 = if Self::alive(src.get(row, col) != 0, neighbors) {
            1
        } else {
            0
        };
        dst.set(row, col, next);
    }

    /// Writes into `dst` the whole generation after `src`.
    fn advance(src: &Grid, dst: &mut Grid, height: usize, width: usize, wrap: bool)
        requires
            grid_fits(*src, height as nat, width as nat),
            grid_fits(*old(dst), height as nat, width as nat),
        ensures
            grid_cells(*final(dst)) == next_generation(grid_cells(*src), height as nat, width as nat, wrap),
            grid_fits(*final(dst), height as nat, width as nat),
    {
        let ghost g = grid_cells(*src);
        let mut row: usize = 0;
        while row < height
            invariant
                row <= height,
                grid_fits(*src, height as nat, width as nat),
                grid_cells(*src) == g,
                grid_cells(*dst).len() == height,
                forall|r: int| 0 <= r < height ==> (#[trigger] grid_cells(*dst)[r]).len() == width,
                grid_cols(*dst) == width,
                forall|r: int, c: int|
                    0 <= r < row && 0 <= c < width ==> #[trigger] grid_cells(*dst)[r][c] == next_cell(
                        g,
                        height as int,
                        width as int,
                        wrap,
                        r,
                        c,
                    ),
            decreases height - row,
        {
            let mut col: usize = 0;
            while col < width
                invariant
                    row < height,
                    col <= width,
                    grid_fits(*src, height as nat, width as nat),
                    grid_cells(*src) == g,
                    grid_cells(*dst).len() == height,
                    forall|r: int| 0 <= r < height ==> (#[trigger] grid_cells(*dst)[r]).len() == width,
                    grid_cols(*dst) == width,
                    forall|r: int, c: int|
                        0 <= r < height && 0 <= c < width && (r < row || (r == row && c < col))
                            ==> #[trigger] grid_cells(*dst)[r][c] == next_cell(
                            g,
                            height as int,
                            width as int,
                            wrap,
                            r,
                            c,
                        ),
                decreases width - col,
            {
                Self::update_cell(src, dst, height, width, wrap, row, col);
                col = col + 1;
            }
            row = row + 1;
        }
        assert(grid_cells(*dst) =~~= next_generation(g, height as nat, width as nat, wrap));
    }

    /// Advances the game by one generation: the next state of every cell is
    /// computed from the shown grid alone and written into the other, which is
    /// then shown.
    pub fn step(&mut self)
        requires
            old(self).wf(),
        ensures
            final(self).wf(),
            final(self)@.front_cells == next_generation(
                old(self)@.front_cells,
                old(self)@.height,
                old(self)@.width,
                old(self)@.repeating,
            ),
            final(self)@.back_cells == old(self)@.front_cells,
            final(self)@.front == 1 - old(self)@.front,
            final(self)@.width == old(self)@.width,
            final(self)@.height == old(self)@.height,
            final(self)@.repeating == old(self)@.repeating,
    {
        if self.front == 0 {
            Self::advance(&self.grid_a, &mut self.grid_b, self.height, self.width, self.repeating);
        } else {
            Self::advance(&self.grid_b, &mut self.grid_a, self.height, self.width, self.repeating);
        }
        self.front = 1 - self.front;
    }

    /// Resets the game to the state of a fresh one with the same dimensions
    /// and boundary mode: every cell dead, the first grid shown.
    pub fn clear(&mut self)
        requires
            old(self).wf(),
        ensures
            final(self).wf(),
            final(self)@ == cleared(old(self)@),
    {
        *self = Game::new(self.width, self.height, self.repeating);
    }

    /// Brings each cell named by `alive`, read as `[row, col]`, to life in the
    /// shown grid. When a coordinate lies outside the grid nothing changes and
    /// the first such coordinate is returned.
    pub fn set_on(&mut self, alive: Vec<[usize; 2]>) -> (r: Result<(), OutOfBounds>)
        requires
            old(self).wf(),
        ensures
            final(self).wf(),
            match r {
                Ok(()) => {
                    &&& forall|j: int|
                        0 <= j < alive@.len() ==> in_bounds(
                            #[trigger] alive@[j],
                            old(self)@.height,
                            old(self)@.width,
                        )
                    &&& final(self)@ == with_front(
                        old(self)@,
                        painted(old(self)@.front_cells, alive@, 1),
                    )
                },
                Err(e) => {
                    &&& exists|i: int|
                        0 <= i < alive@.len() && !in_bounds(alive@[i], old(self)@.height, old(self)@.width)
                            && (forall|j: int|
                            0 <= j < i ==> in_bounds(#[trigger] alive@[j], old(self)@.height, old(self)@.width))
                            && e.row == alive@[i]@[0] && e.col == alive@[i]@[1]
                    &&& final(self)@ == old(self)@
                },
            },
    {
        self.seed(&alive, 1)
    }

    /// Kills each cell named by `dead`, read as `[row, col]`, in the shown
    /// grid. When a coordinate lies outside the grid nothing changes and the
    /// first such coordinate is returned.
    pub fn set_off(&mut self, dead: Vec<[usize; 2]>) -> (r: Result<(), OutOfBounds>)
        requires
            old(self).wf(),
        ensures
            final(self).wf(),
            match r {
                Ok(()) => {
                    &&& forall|j: int|
                        0 <= j < dead@.len() ==> in_bounds(
                            #[trigger] dead@[j],
                            old(self)@.height,
                            old(self)@.width,
                        )
                    &&& final(self)@ == with_front(
                        old(self)@,
                        painted(old(self)@.front_cells, dead@, 0),
                    )
                },
                Err(e) => {
                    &&& exists|i: int|
                        0 <= i < dead@.len() && !in_bounds(dead@[i], old(self)@.height, old(self)@.width)
                            && (forall|j: int|
                            0 <= j < i ==> in_bounds(#[trigger] dead@[j], old(self)@.height, old(self)@.width))
                            && e.row == dead@[i]@[0] && e.col == dead@[i]@[1]
                    &&& final(self)@ == old(self)@
                },
            },
    {
        self.seed(&dead, 0)
    }

    /// Sets to `v` each cell of the shown grid that `coords` names, after
    /// checking that all of them lie on the grid.
    fn seed(&mut self, coords: &Vec<[usize; 2]>, v: u8) -> (r: Result<(), OutOfBounds>)
        requires
            old(self).wf(),
            v <= 1,
        ensures
            final(self).wf(),
            match r {
                Ok(()) => {
                    &&& forall|j: int|
                        0 <= j < coords@.len() ==> in_bounds(
                            #[trigger] coords@[j],
                            old(self)@.height,
                            old(self)@.width,
                        )
                    &&& final(self)@ == with_front(
                        old(self)@,
                        painted(old(self)@.front_cells, coords@, v),
                    )
                },
                Err(e) => {
                    &&& exists|i: int|
                        0 <= i < coords@.len() && !in_bounds(coords@[i], old(self)@.height, old(self)@.width)
                            && (forall|j: int|
                            0 <= j < i ==> in_bounds(#[trigger] coords@[j], old(self)@.height, old(self)@.width))
                            && e.row == coords@[i]@[0] && e.col == coords@[i]@[1]
                    &&& final(self)@ == old(self)@
                },
            },
    {
        match first_out_of_bounds(coords, self.height, self.width) {
            Some(i) => {
                let coord = coords[i];
                Err(OutOfBounds { row: coord[0], col: coord[1] })
            },
            None => {
                if self.front == 0 {
                    paint(&mut self.grid_a, coords, v, self.height, self.width);
                } else {
                    paint(&mut self.grid_b, coords, v, self.height, self.width);
                }
                Ok(())
            },
        }
    }

    /// The grid shown: the current generation.
    pub fn front(&self) -> (r: &Grid)
        requires
            self.wf(),
        ensures
            grid_cells(*r) == self@.front_cells,
            grid_fits(*r, self@.height, self@.width),
    {
        if self.front == 0 {
            &self.grid_a
        } else {
            &self.grid_b
        }
    }

    /// The grid not shown: the generation before the current one, and the one
    /// that the next step overwrites.
    pub fn back(&self) -> (r: &Grid)
        requires
            self.wf(),
        ensures
            grid_cells(*r) == self@.back_cells,
            grid_fits(*r, self@.height, self@.width),
    {
        if self.front == 0 {
            &self.grid_b
        } else {
            &self.grid_a
        }
    }

    /// The number of cells in each row.
    pub fn width(&self) -> (r: usize)
        ensures
            r == self@.width,
    {
        self.width
    }

    /// The number of rows.
    pub fn height(&self) -> (r: usize)
        ensures
            r == self@.height,
    {
        self.height
    }

    /// Whether opposite edges of the grid are joined.
    pub fn repeating(&self) -> (r: bool)
        ensures
            r == self@.repeating,
    {
        self.repeating
    }
}

} // verus!
