//! Toroidal grids as row-major sequences of cells: neighbour counts and the
//! computation of one generation from the previous one.

use vstd::prelude::*;
use vstd::arithmetic::div_mod::{lemma_fundamental_div_mod_converse, lemma_small_mod};

use crate::cell::{Cell, next_state, weight, transition};

verus! {

/// The position of `(row, col)` in a row-major grid `width` cells wide.
#[verifier::opaque]
pub open spec fn index_of(width: int, row: int, col: int) -> int {
    row * width + col
}

/// The coordinate before `x` along an axis of `n` positions that wraps around:
/// the one before 0 is `n - 1`.
#[verifier::opaque]
pub open spec fn wrap_prev(x: int, n: int) -> int {
    (x + n - 1) % n
}

/// The coordinate after `x` along an axis of `n` positions that wraps around:
/// the one after `n - 1` is 0.
#[verifier::opaque]
pub open spec fn wrap_next(x: int, n: int) -> int {
    (x + 1) % n
}

/// The number of live cells among the eight cells around `(row, col)` in `g`,
/// a `width` by `height` grid whose edges wrap around to the opposite edge.
pub open spec fn neighbors_in(g: Seq<Cell>, width: int, height: int, row: int, col: int) -> int {
    let north = wrap_prev(row, height);
    let south = wrap_next(row, height);
    let west = wrap_prev(col, width);
    let east = wrap_next(col, width);
    weight(g[index_of(width, north, west)]) + weight(g[index_of(width, north, col)])
        + weight(g[index_of(width, north, east)]) + weight(g[index_of(width, row, west)])
        + weight(g[index_of(width, row, east)]) + weight(g[index_of(width, south, west)])
        + weight(g[index_of(width, south, col)]) + weight(g[index_of(width, south, east)])
}

/// The generation that follows `g`: each cell's next state is decided by its
/// own state and its live neighbours in `g`.
pub open spec fn step(g: Seq<Cell>, width: int, height: int) -> Seq<Cell> {
    Seq::new(
        (width * height) as nat,
        |i: int| next_state(g[i], neighbors_in(g, width, height, i / width, i % width)),
    )
}

/// The generation `k` steps after `g`.
pub open spec fn generations(g: Seq<Cell>, width: int, height: int, k: nat) -> Seq<Cell>
    decreases k,
{
    if k == 0 {
        g
    } else {
        step(generations(g, width, height, (k - 1) as nat), width, height)
    }
}

/// A grid of `n` cells, all dead.
pub open spec fn all_dead(n: nat) -> Seq<Cell> {
    Seq::new(n, |i: int| Cell::Dead)
}

/// Whether `g` is a well-formed `width` by `height` grid.
pub open spec fn is_grid(g: Seq<Cell>, width: int, height: int) -> bool {
    &&& 1 <= width
    &&& 1 <= height
    &&& g.len() == width * height
}

/// `(row, col)` lies in a `width` by `height` grid, at an index below `width * height`.
pub proof fn lemma_index_in_bounds(width: int, height: int, row: int, col: int)
    requires
        0 <= row < height,
        0 <= col < width,
    ensures
        0 <= index_of(width, row, col) < width * height,
{
    reveal(index_of);
    assert(0 <= row * width + col < width * height) by (nonlinear_arith)
        requires
            0 <= row < height,
            0 <= col < width,
    ;
}

/// Row and column of index `i` in a grid `width` cells wide are `i / width`
/// and `i % width`, and they lie in the grid.
pub proof fn lemma_row_col_of_index(width: int, height: int, i: int)
    requires
        1 <= width,
        0 <= i < width * height,
    ensures
        0 <= i / width < height,
        0 <= i % width < width,
        index_of(width, i / width, i % width) == i,
{
    reveal(index_of);
    assert(0 <= i / width < height && 0 <= i % width < width && (i / width) * width + i % width
        == i) by (nonlinear_arith)
        requires
            1 <= width,
            0 <= i < width * height,
    ;
}

/// Index `index_of(width, row, col)` lies in row `row` and column `col`.
pub proof fn lemma_index_row_col(width: int, row: int, col: int)
    requires
        0 <= row,
        0 <= col < width,
    ensures
        index_of(width, row, col) / width == row,
        index_of(width, row, col) % width == col,
{
    reveal(index_of);
    lemma_fundamental_div_mod_converse(row * width + col, width, row, col);
}

/// Inside the axis, the coordinate before `x` is `x - 1`, or `n - 1` for 0.
pub proof fn lemma_wrap_prev(x: int, n: int)
    requires
        0 <= x < n,
    ensures
        wrap_prev(x, n) == if x == 0 { n - 1 } else { x - 1 },
{
    reveal(wrap_prev);
    if x == 0 {
        lemma_small_mod((n - 1) as nat, n as nat);
    } else {
        lemma_fundamental_div_mod_converse(x + n - 1, n, 1, x - 1);
    }
}

/// Inside the axis, the coordinate after `x` is `x + 1`, or 0 for `n - 1`.
pub proof fn lemma_wrap_next(x: int, n: int)
    requires
        0 <= x < n,
    ensures
        wrap_next(x, n) == if x == n - 1 { 0 } else { x + 1 },
{
    reveal(wrap_next);
    if x == n - 1 {
        lemma_fundamental_div_mod_converse(x + 1, n, 1, 0);
    } else {
        lemma_small_mod((x + 1) as nat, n as nat);
    }
}

/// The index of `(row, col)` in a row-major grid of the given size.
pub fn get_index(width: u32, height: u32, row: u32, col: u32) -> (r: usize)
    requires
        row < height,
        col < width,
        width * height <= usize::MAX,
    ensures
        r as int == index_of(width as int, row as int, col as int),
        r < width * height,
{
    proof {
        reveal(index_of);
        lemma_index_in_bounds(width as int, height as int, row as int, col as int);
    }
    (row as usize) * (width as usize) + (col as usize)
}

/// 1 if the cell at `(row, col)` of `cells` is alive, else 0.
fn weight_at(cells: &Vec<Cell>, width: u32, height: u32, row: u32, col: u32) -> (r: u8)
    requires
        is_grid(cells@, width as int, height as int),
        row < height,
        col < width,
    ensures
        r as int == weight(cells@[index_of(width as int, row as int, col as int)]),
        r <= 1,
{
    // The length of the vector bounds the size of the grid.
    let _len: usize = cells.len();
    cells[get_index(width, height, row, col)].as_u8()
}

/// The number of live cells around `(row, col)` in `cells`, a `width` by
/// `height` grid whose edges wrap around.
pub fn live_neighbor_count(cells: &Vec<Cell>, width: u32, height: u32, row: u32, col: u32) -> (r:
    u8)
    requires
        is_grid(cells@, width as int, height as int),
        row < height,
        col < width,
    ensures
        r as int == neighbors_in(cells@, width as int, height as int, row as int, col as int),
        r <= 8,
{
    let north: u32 = if row == 0 { height - 1 } else { row - 1 };
    let south: u32 = if row == height - 1 { 0 } else { row + 1 };
    let west: u32 = if col == 0 { width - 1 } else { col - 1 };
    let east: u32 = if col == width - 1 { 0 } else { col + 1 };
    proof {
        lemma_wrap_prev(row as int, height as int);
        lemma_wrap_next(row as int, height as int);
        lemma_wrap_prev(col as int, width as int);
        lemma_wrap_next(col as int, width as int);
    }
    weight_at(cells, width, height, north, west) + weight_at(cells, width, height, north, col)
        + weight_at(cells, width, height, north, east) + weight_at(cells, width, height, row, west)
        + weight_at(cells, width, height, row, east) + weight_at(cells, width, height, south, west)
        + weight_at(cells, width, height, south, col) + weight_at(cells, width, height, south, east)
}

/// Writes into `next` the generation that follows `current`, cell by cell in
/// row-major order. Only `current` is read, so no cell sees a value computed
/// in the same sweep.
pub fn write_next_generation(current: &Vec<Cell>, next: &mut Vec<Cell>, width: u32, height: u32)
    requires
        is_grid(current@, width as int, height as int),
        old(next)@.len() == current@.len(),
    ensures
        final(next)@ == step(current@, width as int, height as int),
{
    let total: usize = current.len();
    let w: usize = width as usize;
    let mut i: usize = 0;
    while i < total
        invariant
            is_grid(current@, width as int, height as int),
            total == current@.len(),
            w == width,
            0 <= i <= total,
            next@.len() == total,
            forall|j: int|
                0 <= j < i ==> #[trigger] next@[j] == step(current@, width as int, height as int)[j],
        decreases total - i,
    {
        proof {
            lemma_row_col_of_index(width as int, height as int, i as int);
        }
        let row: u32 = (i / w) as u32;
        let col: u32 = (i % w) as u32;
        let cell: Cell = current[i];
        let live: u8 = live_neighbor_count(current, width, height, row, col);
        next.set(i, transition(cell, live));
        i = i + 1;
    }
    assert(next@ =~= step(current@, width as int, height as int));
}

} // verus!
