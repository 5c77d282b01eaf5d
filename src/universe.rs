//! The simulation state: a double-buffered toroidal grid and the operations
//! that advance, seed and edit it.

use vstd::prelude::*;

use crate::cell::{Cell, flipped};
use crate::grid::{
    all_dead, generations, get_index, index_of, is_grid, live_neighbor_count, neighbors_in,
    write_next_generation,
};

verus! {

/// The side of the square grid that the engine starts with.
pub const SIZE: u32 = 64;

/// The width of the fixed-size grid that a host-wide engine uses.
pub fn static_width() -> (r: u32)
    ensures
        r == SIZE,
{
    SIZE
}

/// The height of the fixed-size grid that a host-wide engine uses.
pub fn static_height() -> (r: u32)
    ensures
        r == SIZE,
{
    SIZE
}

/// Which of the two buffers holds the current generation.
enum BufferState {
    First,
    Second,
}

/// A Game of Life on a `width` by `height` torus. Two equally long buffers
/// hold the cells: the active one is the current generation, the other is
/// scratch space into which the next generation is written.
pub struct Universe {
    width: u32,
    height: u32,
    tick_rate: u32,
    cells: Vec<Cell>,
    double: Vec<Cell>,
    state: BufferState,
}

/// The abstract state of a [`Universe`].
pub struct UniverseView {
    pub width: nat,
    pub height: nat,
    /// Generations advanced by one call of `tick`.
    pub tick_rate: nat,
    /// The current generation, row-major.
    pub cells: Seq<Cell>,
    /// The inactive buffer.
    pub scratch: Seq<Cell>,
}

impl UniverseView {
    /// Both buffers are grids of the stated size, and at least one
    /// generation is advanced per tick.
    pub open spec fn valid(self) -> bool {
        &&& is_grid(self.cells, self.width as int, self.height as int)
        &&& self.scratch.len() == self.cells.len()
        &&& self.size() <= usize::MAX
        &&& self.tick_rate >= 1
    }

    /// The number of cells in the grid.
    pub open spec fn size(self) -> nat {
        self.width * self.height
    }
}

impl View for Universe {
    type V = UniverseView;

    closed spec fn view(&self) -> UniverseView {
        UniverseView {
            width: self.width as nat,
            height: self.height as nat,
            tick_rate: self.tick_rate as nat,
            cells: match self.state {
                BufferState::First => self.cells@,
                BufferState::Second => self.double@,
            },
            scratch: match self.state {
                BufferState::First => self.double@,
                BufferState::Second => self.cells@,
            },
        }
    }
}

/// The fixed seed pattern: cell `i` is alive exactly when `i` is even or a
/// multiple of 7.
pub open spec fn stripe_pattern(n: nat) -> Seq<Cell> {
    Seq::new(n, |i: int| if i % 2 == 0 || i % 7 == 0 { Cell::Alive } else { Cell::Dead })
}

/// The grid seeded from `draws`: cell `i` is alive exactly when `draws[i]`.
pub open spec fn drawn_pattern(draws: Seq<bool>) -> Seq<Cell> {
    Seq::new(draws.len(), |i: int| if draws[i] { Cell::Alive } else { Cell::Dead })
}

/// Whether one of `coords`, taken as `(row, col)`, addresses index `i` of a
/// grid `width` cells wide.
pub open spec fn addressed(coords: Seq<(u32, u32)>, width: int, i: int) -> bool {
    exists|k: int|
        0 <= k < coords.len() && #[trigger] index_of(width, coords[k].0 as int, coords[k].1 as int)
            == i
}

/// `g` with every cell that `coords` addresses set alive.
pub open spec fn marked_alive(g: Seq<Cell>, coords: Seq<(u32, u32)>, width: int) -> Seq<Cell> {
    Seq::new(g.len(), |i: int| if addressed(coords, width, i) { Cell::Alive } else { g[i] })
}

/// A vector of `n` dead cells.
fn dead_cells(n: usize) -> (r: Vec<Cell>)
    ensures
        r@ == all_dead(n as nat),
{
    let mut v: Vec<Cell> = Vec::new();
    let mut i: usize = 0;
    while i < n
        invariant
            0 <= i <= n,
            v@ == all_dead(i as nat),
        decreases n - i,
    {
        v.push(Cell::Dead);
        i = i + 1;
        assert(v@ =~= all_dead(i as nat));
    }
    v
}

impl Universe {
    /// The invariant of a universe.
    pub open spec fn wf(&self) -> bool {
        self@.valid()
    }

    /// A `width` by `height` universe whose cells are all dead, advancing one
    /// generation per tick.
    pub fn new(width: u32, height: u32) -> (r: Universe)
        requires
            1 <= width,
            1 <= height,
            width * height <= usize::MAX,
        ensures
            r.wf(),
            r@.width == width,
            r@.height == height,
            r@.tick_rate == 1,
            r@.cells == all_dead(r@.size()),
            r@.scratch == all_dead(r@.size()),
    {
        let n: usize = (width as usize) * (height as usize);
        Universe {
            width,
            height,
            tick_rate: 1,
            cells: dead_cells(n),
            double: dead_cells(n),
            state: BufferState::First,
        }
    }

    /// Replaces both buffers with dead cells, as many as the current
    /// dimensions call for.
    fn clear_to_size(&mut self)
        requires
            1 <= old(self)@.width,
            1 <= old(self)@.height,
            old(self)@.tick_rate >= 1,
            old(self)@.size() <= usize::MAX,
        ensures
            final(self).wf(),
            final(self)@.width == old(self)@.width,
            final(self)@.height == old(self)@.height,
            final(self)@.tick_rate == old(self)@.tick_rate,
            final(self)@.cells == all_dead(final(self)@.size()),
            final(self)@.scratch == final(self)@.cells,
    {
        let n: usize = (self.width as usize) * (self.height as usize);
        self.cells = dead_cells(n);
        self.double = dead_cells(n);
    }

    /// Sets every cell of both buffers to dead.
    pub fn reset_dead(&mut self)
        requires
            old(self).wf(),
        ensures
            final(self).wf(),
            final(self)@.width == old(self)@.width,
            final(self)@.height == old(self)@.height,
            final(self)@.tick_rate == old(self)@.tick_rate,
            final(self)@.cells == all_dead(final(self)@.size()),
            final(self)@.scratch == final(self)@.cells,
    {
        self.clear_to_size();
    }

    /// Seeds the grid from one independent random draw per cell: cell `i` is
    /// alive exactly when `draws[i]` is true. Both buffers get the pattern.
    pub fn reset_random(&mut self, draws: &[bool])
        requires
            old(self).wf(),
            draws@.len() == old(self)@.size(),
        ensures
            final(self).wf(),
            final(self)@.width == old(self)@.width,
            final(self)@.height == old(self)@.height,
            final(self)@.tick_rate == old(self)@.tick_rate,
            final(self)@.cells == drawn_pattern(draws@),
            final(self)@.scratch == final(self)@.cells,
    {
        let n: usize = draws.len();
        let ghost start = *self;
        let mut i: usize = 0;
        while i < n
            invariant
                n == draws@.len(),
                start.wf(),
                self.width == start.width,
                self.height == start.height,
                self.tick_rate == start.tick_rate,
                self.state == start.state,
                self.cells@.len() == n,
                self.double@.len() == n,
                0 <= i <= n,
                forall|j: int| 0 <= j < i ==> #[trigger] self.cells@[j] == drawn_pattern(draws@)[j],
                forall|j: int| 0 <= j < i ==> #[trigger] self.double@[j] == drawn_pattern(draws@)[j],
            decreases n - i,
        {
            let c: Cell = if draws[i] { Cell::Alive } else { Cell::Dead };
            self.cells.set(i, c);
            self.double.set(i, c);
            i = i + 1;
        }
        assert(self.cells@ =~= drawn_pattern(draws@));
        assert(self.double@ =~= drawn_pattern(draws@));
    }

    /// Seeds the grid with the fixed stripe pattern: cell `i` is alive
    /// exactly when `i` is even or a multiple of 7. Both buffers get the
    /// pattern.
    pub fn reset_grid(&mut self)
        requires
            old(self).wf(),
        ensures
            final(self).wf(),
            final(self)@.width == old(self)@.width,
            final(self)@.height == old(self)@.height,
            final(self)@.tick_rate == old(self)@.tick_rate,
            final(self)@.cells == stripe_pattern(final(self)@.size()),
            final(self)@.scratch == final(self)@.cells,
    {
        let n: usize = self.cells.len();
        let ghost start = *self;
        let mut i: usize = 0;
        while i < n
            invariant
                n == self@.size(),
                start.wf(),
                self.width == start.width,
                self.height == start.height,
                self.tick_rate == start.tick_rate,
                self.state == start.state,
                self.cells@.len() == n,
                self.double@.len() == n,
                0 <= i <= n,
                forall|j: int| 0 <= j < i ==> #[trigger] self.cells@[j] == stripe_pattern(n as nat)[j],
                forall|j: int| 0 <= j < i ==> #[trigger] self.double@[j] == stripe_pattern(n as nat)[j],
            decreases n - i,
        {
            let c: Cell = if i % 2 == 0 || i % 7 == 0 { Cell::Alive } else { Cell::Dead };
            self.cells.set(i, c);
            self.double.set(i, c);
            i = i + 1;
        }
        assert(self.cells@ =~= stripe_pattern(n as nat));
        assert(self.double@ =~= stripe_pattern(n as nat));
    }

    /// Seeds the grid with the stripe pattern of [`Universe::reset_grid`].
    pub fn reset(&mut self)
        requires
            old(self).wf(),
        ensures
            final(self).wf(),
            final(self)@.width == old(self)@.width,
            final(self)@.height == old(self)@.height,
            final(self)@.tick_rate == old(self)@.tick_rate,
            final(self)@.cells == stripe_pattern(final(self)@.size()),
            final(self)@.scratch == final(self)@.cells,
    {
        self.reset_grid();
    }

    /// Advances the universe by `tick_rate` generations. Each sweep reads
    /// only the active buffer and writes the next generation into the other
    /// one; the two then swap roles, so no data is copied.
    pub fn tick(&mut self)
        requires
            old(self).wf(),
        ensures
            final(self).wf(),
            final(self)@.width == old(self)@.width,
            final(self)@.height == old(self)@.height,
            final(self)@.tick_rate == old(self)@.tick_rate,
            final(self)@.cells == generations(
                old(self)@.cells,
                old(self)@.width as int,
                old(self)@.height as int,
                old(self)@.tick_rate,
            ),
            final(self)@.scratch == generations(
                old(self)@.cells,
                old(self)@.width as int,
                old(self)@.height as int,
                (old(self)@.tick_rate - 1) as nat,
            ),
    {
        let ghost start = self@;
        let mut k: u32 = 0;
        while k < self.tick_rate
            invariant
                self.wf(),
                self@.width == start.width,
                self@.height == start.height,
                self@.tick_rate == start.tick_rate,
                0 <= k <= self.tick_rate,
                self@.cells == generations(start.cells, start.width as int, start.height as int, k as nat),
                k >= 1 ==> self@.scratch == generations(
                    start.cells,
                    start.width as int,
                    start.height as int,
                    (k - 1) as nat,
                ),
            decreases self.tick_rate - k,
        {
            match self.state {
                BufferState::First => {
                    write_next_generation(&self.cells, &mut self.double, self.width, self.height);
                    self.state = BufferState::Second;
                },
                BufferState::Second => {
                    write_next_generation(&self.double, &mut self.cells, self.width, self.height);
                    self.state = BufferState::First;
                },
            }
            k = k + 1;
        }
    }

    /// The current generation, row-major. The view is only valid until the
    /// next call that changes the universe.
    pub fn get_cells(&self) -> (r: &[Cell])
        ensures
            r@ == self@.cells,
    {
        match self.state {
            BufferState::First => self.cells.as_slice(),
            BufferState::Second => self.double.as_slice(),
        }
    }

    /// The width of the grid.
    pub fn width(&self) -> (r: u32)
        ensures
            r == self@.width,
    {
        self.width
    }

    /// The height of the grid.
    pub fn height(&self) -> (r: u32)
        ensures
            r == self@.height,
    {
        self.height
    }

    /// Sets alive, in the current generation only, each cell whose
    /// `(row, col)` is listed in `alive`.
    pub fn set_cells_alive(&mut self, alive: &[(u32, u32)])
        requires
            old(self).wf(),
            forall|k: int|
                0 <= k < alive@.len() ==> #[trigger] alive@[k].0 < old(self)@.height && alive@[k].1
                    < old(self)@.width,
        ensures
            final(self).wf(),
            final(self)@.width == old(self)@.width,
            final(self)@.height == old(self)@.height,
            final(self)@.tick_rate == old(self)@.tick_rate,
            final(self)@.cells == marked_alive(old(self)@.cells, alive@, old(self)@.width as int),
            final(self)@.scratch == old(self)@.scratch,
    {
        let ghost start = self@;
        let mut j: usize = 0;
        while j < alive.len()
            invariant
                self.wf(),
                self@.width == start.width,
                self@.height == start.height,
                self@.tick_rate == start.tick_rate,
                self@.scratch == start.scratch,
                start.cells.len() == self@.cells.len(),
                0 <= j <= alive@.len(),
                forall|k: int|
                    0 <= k < alive@.len() ==> #[trigger] alive@[k].0 < start.height && alive@[k].1
                        < start.width,
                self@.cells == marked_alive(start.cells, alive@.take(j as int), start.width as int),
            decreases alive@.len() - j,
        {
            let (row, col) = alive[j];
            let idx: usize = get_index(self.width, self.height, row, col);
            match self.state {
                BufferState::First => self.cells.set(idx, Cell::Alive),
                BufferState::Second => self.double.set(idx, Cell::Alive),
            }
            proof {
                let w = start.width as int;
                let before = alive@.take(j as int);
                let after = alive@.take(j + 1);
                assert forall|i: int| 0 <= i < start.cells.len() implies addressed(after, w, i) == (
                addressed(before, w, i) || i == idx) by {
                    if addressed(before, w, i) {
                        let k = choose|k: int|
                            0 <= k < before.len() && #[trigger] index_of(
                                w,
                                before[k].0 as int,
                                before[k].1 as int,
                            ) == i;
                        assert(after[k] == before[k]);
                    }
                    if i == idx {
                        assert(after[j as int] == alive@[j as int]);
                        assert(index_of(w, after[j as int].0 as int, after[j as int].1 as int) == i);
                    }
                    if addressed(after, w, i) && i != idx {
                        let k = choose|k: int|
                            0 <= k < after.len() && #[trigger] index_of(
                                w,
                                after[k].0 as int,
                                after[k].1 as int,
                            ) == i;
                        assert(k != j);
                        assert(after[k] == before[k]);
                    }
                }
                assert(self@.cells =~= marked_alive(start.cells, after, w));
            }
            j = j + 1;
        }
        assert(alive@.take(alive@.len() as int) =~= alive@);
    }

    /// Flips the cell at `(row, column)` in the current generation only; the
    /// next tick recomputes it like any other cell.
    pub fn toggle_cell(&mut self, row: u32, column: u32)
        requires
            old(self).wf(),
            row < old(self)@.height,
            column < old(self)@.width,
        ensures
            final(self).wf(),
            final(self)@.width == old(self)@.width,
            final(self)@.height == old(self)@.height,
            final(self)@.tick_rate == old(self)@.tick_rate,
            final(self)@.cells == old(self)@.cells.update(
                index_of(old(self)@.width as int, row as int, column as int),
                flipped(old(self)@.cells[index_of(old(self)@.width as int, row as int, column as int)]),
            ),
            final(self)@.scratch == old(self)@.scratch,
    {
        let idx: usize = get_index(self.width, self.height, row, column);
        match self.state {
            BufferState::First => {
                let mut c: Cell = self.cells[idx];
                c.toggle();
                self.cells.set(idx, c);
            },
            BufferState::Second => {
                let mut c: Cell = self.double[idx];
                c.toggle();
                self.double.set(idx, c);
            },
        }
    }

    /// Changes the width of the grid and clears it: every cell of both
    /// buffers is dead at the new size.
    pub fn set_width(&mut self, width: u32)
        requires
            old(self).wf(),
            1 <= width,
            width * old(self)@.height <= usize::MAX,
        ensures
            final(self).wf(),
            final(self)@.width == width,
            final(self)@.height == old(self)@.height,
            final(self)@.tick_rate == old(self)@.tick_rate,
            final(self)@.cells == all_dead(final(self)@.size()),
            final(self)@.scratch == final(self)@.cells,
    {
        self.width = width;
        self.clear_to_size();
    }

    /// Changes the height of the grid and clears it: every cell of both
    /// buffers is dead at the new size.
    pub fn set_height(&mut self, height: u32)
        requires
            old(self).wf(),
            1 <= height,
            old(self)@.width * height <= usize::MAX,
        ensures
            final(self).wf(),
            final(self)@.width == old(self)@.width,
            final(self)@.height == height,
            final(self)@.tick_rate == old(self)@.tick_rate,
            final(self)@.cells == all_dead(final(self)@.size()),
            final(self)@.scratch == final(self)@.cells,
    {
        self.height = height;
        self.clear_to_size();
    }

    /// The number of generations that one call of `tick` advances.
    pub fn tick_rate(&self) -> (r: u32)
        ensures
            r == self@.tick_rate,
    {
        self.tick_rate
    }

    /// Sets the number of generations that one call of `tick` advances.
    pub fn set_tick_rate(&mut self, tick_rate: u32)
        requires
            old(self).wf(),
            1 <= tick_rate,
        ensures
            final(self).wf(),
            final(self)@ == (UniverseView { tick_rate: tick_rate as nat, ..old(self)@ }),
    {
        self.tick_rate = tick_rate;
    }

    /// The number of live cells around `(row, col)` in the current
    /// generation, with the edges of the grid wrapping around.
    pub fn live_neighbor_count(&self, row: u32, col: u32) -> (r: u8)
        requires
            self.wf(),
            row < self@.height,
            col < self@.width,
        ensures
            r as int == neighbors_in(self@.cells, self@.width as int, self@.height as int, row as int, col as int),
    {
        match self.state {
            BufferState::First => live_neighbor_count(&self.cells, self.width, self.height, row, col),
            BufferState::Second => live_neighbor_count(&self.double, self.width, self.height, row, col),
        }
    }
}

} // verus!