//! Laws of the engine that relate several operations or hold of every grid.

use vstd::prelude::*;

use crate::cell::{Cell, flipped};
use crate::grid::{
    all_dead, generations, index_of, is_grid, lemma_index_in_bounds, lemma_index_row_col,
    lemma_row_col_of_index, lemma_wrap_next, lemma_wrap_prev, neighbors_in, step, wrap_next,
    wrap_prev,
};

verus! {

/// Whether `g1` and `g2` agree on the cell at `(row, col)` and on its eight
/// toroidal neighbours.
pub open spec fn agree_around(
    g1: Seq<Cell>,
    g2: Seq<Cell>,
    width: int,
    height: int,
    row: int,
    col: int,
) -> bool {
    forall|r: int, c: int|
        (r == wrap_prev(row, height) || r == row || r == wrap_next(row, height)) && (c == wrap_prev(
            col,
            width,
        ) || c == col || c == wrap_next(col, width)) ==> #[trigger] g1[index_of(width, r, c)]
            == g2[index_of(width, r, c)]
}

/// The next state of a cell depends on the previous generation alone, and
/// there only on the cell itself and its eight neighbours: two grids that
/// agree around `(row, col)` give that cell the same next state, whatever
/// the rest of either grid holds.
pub proof fn lemma_next_state_is_local(
    g1: Seq<Cell>,
    g2: Seq<Cell>,
    width: int,
    height: int,
    row: int,
    col: int,
)
    requires
        is_grid(g1, width, height),
        is_grid(g2, width, height),
        0 <= row < height,
        0 <= col < width,
        agree_around(g1, g2, width, height, row, col),
    ensures
        step(g1, width, height)[index_of(width, row, col)] == step(g2, width, height)[index_of(
            width,
            row,
            col,
        )],
{
    lemma_index_in_bounds(width, height, row, col);
    lemma_index_row_col(width, row, col);
    let (n, s, w, e) = (
        wrap_prev(row, height),
        wrap_next(row, height),
        wrap_prev(col, width),
        wrap_next(col, width),
    );
    assert(g1[index_of(width, n, w)] == g2[index_of(width, n, w)]);
    assert(g1[index_of(width, n, col)] == g2[index_of(width, n, col)]);
    assert(g1[index_of(width, n, e)] == g2[index_of(width, n, e)]);
    assert(g1[index_of(width, row, w)] == g2[index_of(width, row, w)]);
    assert(g1[index_of(width, row, col)] == g2[index_of(width, row, col)]);
    assert(g1[index_of(width, row, e)] == g2[index_of(width, row, e)]);
    assert(g1[index_of(width, s, w)] == g2[index_of(width, s, w)]);
    assert(g1[index_of(width, s, col)] == g2[index_of(width, s, col)]);
    assert(g1[index_of(width, s, e)] == g2[index_of(width, s, e)]);
    assert(neighbors_in(g1, width, height, row, col) == neighbors_in(g2, width, height, row, col));
}

/// A grid with no live cell stays without one, for any number of
/// generations.
pub proof fn lemma_dead_grid_stays_dead(width: int, height: int, k: nat)
    requires
        1 <= width,
        1 <= height,
    ensures
        generations(all_dead((width * height) as nat), width, height, k) == all_dead(
            (width * height) as nat,
        ),
    decreases k,
{
    if k > 0 {
        lemma_dead_grid_stays_dead(width, height, (k - 1) as nat);
        let g = all_dead((width * height) as nat);
        assert forall|i: int| 0 <= i < width * height implies #[trigger] step(g, width, height)[i]
            == Cell::Dead by {
            lemma_row_col_of_index(width, height, i);
            let (row, col) = (i / width, i % width);
            assert(neighbors_in(g, width, height, row, col) == 0) by {
                let (n, s, w, e) = (
                    wrap_prev(row, height),
                    wrap_next(row, height),
                    wrap_prev(col, width),
                    wrap_next(col, width),
                );
                lemma_wrap_prev(row, height);
                lemma_wrap_next(row, height);
                lemma_wrap_prev(col, width);
                lemma_wrap_next(col, width);
                lemma_index_in_bounds(width, height, n, w);
                lemma_index_in_bounds(width, height, n, col);
                lemma_index_in_bounds(width, height, n, e);
                lemma_index_in_bounds(width, height, row, w);
                lemma_index_in_bounds(width, height, row, e);
                lemma_index_in_bounds(width, height, s, w);
                lemma_index_in_bounds(width, height, s, col);
                lemma_index_in_bounds(width, height, s, e);
            }
        }
        assert(step(g, width, height) =~= g);
    }
}

/// Toggling the same cell twice, with nothing in between, gives back the
/// grid that was there before.
pub proof fn lemma_toggle_twice_restores(g: Seq<Cell>, i: int)
    requires
        0 <= i < g.len(),
    ensures
        ({
            let once = g.update(i, flipped(g[i]));
            once.update(i, flipped(once[i])) == g
        }),
{
    let once = g.update(i, flipped(g[i]));
    assert(once.update(i, flipped(once[i])) =~= g);
}

} // verus!
