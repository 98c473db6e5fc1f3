//! The automaton: construction, neighbour tallies, the generation step and
//! the textual form of a grid of `CellState`.

use crate::cell::{CellState, NeighbourState};
use crate::grid::Grid;
use crate::point::{offset, Point};
use crate::random::coin_flip;
use vstd::prelude::*;

verus! {

/// The tag test as a function on cells.
pub open spec fn alive_test() -> spec_fn(CellState) -> bool {
    |c: CellState| c.is_alive()
}

/// The number of cells of `s` that are alive, whatever their glyphs.
pub open spec fn count_alive(s: Seq<CellState>) -> nat {
    s.filter(alive_test()).len()
}

/// An empty sequence holds no living cell.
pub proof fn lemma_count_alive_empty()
    ensures
        count_alive(Seq::<CellState>::empty()) == 0,
{
    Seq::<CellState>::empty().lemma_filter_len(alive_test());
}

/// One more cell adds one to the count if it is alive, and nothing if not.
pub proof fn lemma_count_alive_push(s: Seq<CellState>, c: CellState)
    ensures
        count_alive(s.push(c)) == count_alive(s) + if c.is_alive() {
            1nat
        } else {
            0nat
        },
        count_alive(s.push(c)) <= s.len() + 1,
{
    s.lemma_filter_len_push(alive_test(), c);
    s.lemma_filter_len(alive_test());
}

/// Row `row` of a grid of `width` by `height` cells ends at or before the
/// end of the cell sequence.
proof fn lemma_row_within(width: int, height: int, row: int)
    requires
        0 <= row < height,
        0 <= width,
    ensures
        0 <= row * width,
        row * width + width <= width * height,
{
    assert(0 <= row * width && row * width + width <= width * height) by (nonlinear_arith)
        requires
            0 <= row < height,
            0 <= width,
    ;
}

impl Grid<CellState> {
    /// The cell stored for a coordinate, as a function on coordinates.
    pub open spec fn lookup(&self) -> spec_fn(Point) -> CellState {
        |q: Point| self.cells@[self.index_of(q)]
    }

    /// The cells of the neighbour set of `p`, clockwise from north.
    pub open spec fn neighbour_cells(&self, p: Point) -> Seq<CellState> {
        self.neighbours(p).map_values(self.lookup())
    }

    /// How many cells of the neighbour set of `p` are alive.
    pub open spec fn alive_neighbours(&self, p: Point) -> nat {
        count_alive(self.neighbour_cells(p))
    }

    /// How many cells of the neighbour set of `p` are dead.
    pub open spec fn dead_neighbours(&self, p: Point) -> nat {
        (self.neighbour_cells(p).len() - self.alive_neighbours(p)) as nat
    }

    /// The coordinate of the `i`-th cell of the sequence.
    pub open spec fn point_at(&self, i: int) -> Point {
        offset(self.column_row(i).0, self.column_row(i).1)
    }

    /// The `i`-th cell of the next generation: the rule applied to the
    /// `i`-th cell and to the tally of its neighbours in this generation.
    pub open spec fn next_cell(&self, i: int) -> CellState {
        self.cells@[i].next(
            self.alive_neighbours(self.point_at(i)) as int,
            self.alive_glyph,
            self.dead_glyph,
        )
    }

    /// The cell sequence of the next generation. Every cell of it is
    /// computed from this generation alone.
    pub open spec fn next_generation(&self) -> Seq<CellState> {
        Seq::new(self.cells@.len(), |i: int| self.next_cell(i))
    }

    /// Each cell is alive with the first glyph or dead with the second.
    pub open spec fn cells_drawn_from(s: Seq<CellState>, alive_glyph: char, dead_glyph: char) -> bool {
        forall|i: int|
            0 <= i < s.len() ==> #[trigger] s[i] == CellState::Alive(alive_glyph) || s[i]
                == CellState::Dead(dead_glyph)
    }

    /// Create a new `Grid` of a given `width` and `height`.
    /// It will default to `X` for alive glyph and ` ` for dead glyph
    pub fn new_empty(width: usize, height: usize) -> (grid: Self)
        requires
            width * height <= usize::MAX,
        ensures
            grid.wf(),
            grid.width == width,
            grid.height == height,
            grid.cells@ == Seq::new((width * height) as nat, |i: int| CellState::Dead(' ')),
            grid.alive_glyph == 'X',
            grid.dead_glyph == ' ',
            grid.population == 0,
            grid.population == count_alive(grid.cells@),
    {
        let size = width * height;
        let mut cells: Vec<CellState> = Vec::new();
        let mut i: usize = 0;
        proof {
            lemma_count_alive_empty();
        }
        while i < size
            invariant
                i <= size,
                cells@.len() == i,
                forall|j: int| 0 <= j < i ==> cells@[j] == CellState::Dead(' '),
                count_alive(cells@) == 0,
            decreases size - i,
        {
            proof {
                lemma_count_alive_push(cells@, CellState::Dead(' '));
            }
            cells.push(CellState::Dead(' '));
            i += 1;
        }
        Grid { width, height, cells, dead_glyph: ' ', alive_glyph: 'X', population: 0 }
    }

    /// Draws `size` cells, each by one flip of a coin: heads is alive with
    /// `alive_glyph`, tails is dead with `dead_glyph`.
    pub fn generate_random_cells(size: usize, alive_glyph: char, dead_glyph: char) -> (cells: Vec<
        CellState,
    >)
        ensures
            cells@.len() == size,
            Self::cells_drawn_from(cells@, alive_glyph, dead_glyph),
    {
        let mut cells: Vec<CellState> = Vec::new();
        let mut i: usize = 0;
        while i < size
            invariant
                i <= size,
                cells@.len() == i,
                Self::cells_drawn_from(cells@, alive_glyph, dead_glyph),
            decreases size - i,
        {
            let heads = coin_flip();
            cells.push(CellState::from_flip(heads, alive_glyph, dead_glyph));
            i += 1;
        }
        cells
    }

    /// Generate a new `Grid` of a given `width` and `height`
    /// It will be populated with a random distribution of Alive/Dead cells
    /// The default glyphs of `X` for alive and ` ` for dead.
    pub fn new_random(width: usize, height: usize) -> (grid: Self)
        requires
            width * height <= usize::MAX,
        ensures
            grid.wf(),
            grid.width == width,
            grid.height == height,
            Self::cells_drawn_from(grid.cells@, 'X', ' '),
            grid.alive_glyph == 'X',
            grid.dead_glyph == ' ',
            grid.population == count_alive(grid.cells@),
    {
        Self::new_random_custom_glyphs(width, height, 'X', ' ')
    }

    /// Generate a new `Grid` of a given `width` and `height`
    /// It will be populated with a random distribution of Alive/Dead cells
    /// The glyphs can be overriddne with `alive_glyph` and `dead_glyph`
    pub fn new_random_custom_glyphs(
        width: usize,
        height: usize,
        alive_glyph: char,
        dead_glyph: char,
    ) -> (grid: Self)
        requires
            width * height <= usize::MAX,
        ensures
            grid.wf(),
            grid.width == width,
            grid.height == height,
            Self::cells_drawn_from(grid.cells@, alive_glyph, dead_glyph),
            grid.alive_glyph == alive_glyph,
            grid.dead_glyph == dead_glyph,
            grid.population == count_alive(grid.cells@),
    {
        let cells = Self::generate_random_cells(width * height, alive_glyph, dead_glyph);
        let mut grid = Grid { width, height, cells, alive_glyph, dead_glyph, population: 0 };
        grid.population = grid.calculate_population();
        grid
    }

    /// Re-generates the state of the `Grid` `cells` based on the rules of Conways game of life
    ///
    /// Returns the population of the new generation.
    pub fn update_states(&mut self) -> (population: usize)
        requires
            old(self).wf(),
            old(self).addressable(),
        ensures
            final(self).wf(),
            final(self).width == old(self).width,
            final(self).height == old(self).height,
            final(self).alive_glyph == old(self).alive_glyph,
            final(self).dead_glyph == old(self).dead_glyph,
            final(self).cells@ == old(self).next_generation(),
            final(self).population == count_alive(final(self).cells@),
            population == final(self).population,
    {
        let mut new_grid: Vec<CellState> = Vec::new();
        let mut idx: usize = 0;
        while idx < self.cells.len()
            invariant
                *self == *old(self),
                self.wf(),
                self.addressable(),
                idx <= self.cells.len(),
                new_grid@.len() == idx,
                forall|j: int| 0 <= j < idx ==> new_grid@[j] == self.next_cell(j),
            decreases self.cells.len() - idx,
        {
            proof {
                self.lemma_column_row_in_range(idx as int);
            }
            let cell = self.cells[idx];
            let state = self.get_neighbours_state(self.pos(idx));
            let cellstate = self.get_cell_state(&cell, state);
            new_grid.push(cellstate);
            idx += 1;
        }
        proof {
            assert(new_grid@ =~= self.next_generation());
        }
        self.cells = new_grid;
        self.population = self.calculate_population();
        self.population
    }

    /// One line of the textual form: the glyphs of row `row` from left to
    /// right, then a line break.
    pub open spec fn row_text(&self, row: int) -> Seq<char> {
        Seq::new(self.width as nat, |x: int| self.cells@[row * self.width + x].glyph()).push('\n')
    }

    /// The lines of the first `rows` rows, top to bottom.
    pub open spec fn rows_text(&self, rows: nat) -> Seq<char>
        decreases rows,
    {
        if rows == 0 {
            Seq::empty()
        } else {
            self.rows_text((rows - 1) as nat) + self.row_text(rows - 1)
        }
    }

    /// The textual form of the grid: `height` lines of `width` glyphs each.
    pub open spec fn text(&self) -> Seq<char> {
        self.rows_text(self.height as nat)
    }

    /// Writes the grid out as text, one line for each row.
    pub fn to_string(&self) -> (out: String)
        requires
            self.wf(),
        ensures
            out@ == self.text(),
    {
        let mut out = String::new();
        let mut row: usize = 0;
        while row < self.height
            invariant
                self.wf(),
                row <= self.height,
                out@ == self.rows_text(row as nat),
            decreases self.height - row,
        {
            proof {
                lemma_row_within(self.width as int, self.height as int, row as int);
                assert(self.cells.len() == self.width * self.height);
            }
            let start = row * self.width;
            let ghost above = out@;
            let mut w: usize = start;
            while w < start + self.width
                invariant
                    self.wf(),
                    row < self.height,
                    start == row * self.width,
                    start + self.width <= self.cells.len(),
                    start <= w <= start + self.width,
                    out@ == above + Seq::new(
                        (w - start) as nat,
                        |x: int| self.cells@[row * self.width + x].glyph(),
                    ),
                decreases start + self.width - w,
            {
                out.push(self.cells[w].symbol());
                w += 1;
            }
            out.push('\n');
            row += 1;
        }
        out
    }

    /// Counts the living cells of the grid.
    pub fn calculate_population(&self) -> (n: usize)
        ensures
            n == count_alive(self.cells@),
    {
        let mut n: usize = 0;
        let mut i: usize = 0;
        proof {
            assert(self.cells@.take(0) =~= Seq::<CellState>::empty());
            lemma_count_alive_empty();
        }
        while i < self.cells.len()
            invariant
                i <= self.cells.len(),
                n <= i,
                n == count_alive(self.cells@.take(i as int)),
            decreases self.cells.len() - i,
        {
            proof {
                assert(self.cells@.take(i + 1) =~= self.cells@.take(i as int).push(self.cells@[i as int]));
                lemma_count_alive_push(self.cells@.take(i as int), self.cells@[i as int]);
            }
            if self.cells[i].alive() {
                n += 1;
            }
            i += 1;
        }
        proof {
            assert(self.cells@.take(self.cells@.len() as int) =~= self.cells@);
        }
        n
    }

    /// Gets the new state of the current cell based on the following rules:
    /// - Any live cell with 0 or 1 live neighbors becomes dead, because of underpopulation
    /// - Any live cell with 2 or 3 live neighbors stays alive, because its neighborhood is just right
    /// - Any live cell with more than 3 live neighbors becomes dead, because of overpopulation
    /// - Any dead cell with exactly 3 live neighbors becomes alive, by reproduction
    pub fn get_cell_state(&self, cell: &CellState, state: NeighbourState) -> (next: CellState)
        ensures
            next == cell.next(state.alive as int, self.alive_glyph, self.dead_glyph),
    {
        match cell {
            CellState::Alive(_) => {
                if 0 <= state.alive && state.alive <= 1 {
                    CellState::Dead(self.dead_glyph)
                } else if 2 <= state.alive && state.alive <= 3 {
                    CellState::Alive(self.alive_glyph)
                } else if 4 <= state.alive && state.alive <= 8 {
                    CellState::Dead(self.dead_glyph)
                } else {
                    *cell
                }
            },
            CellState::Dead(_) => {
                if state.alive == 3 {
                    CellState::Alive(self.alive_glyph)
                } else {
                    *cell
                }
            },
        }
    }

    /// Tallies the living and the dead cells of the neighbour set of `point`.
    pub fn get_neighbours_state(&self, point: Point) -> (state: NeighbourState)
        requires
            self.wf(),
        ensures
            state.alive == self.alive_neighbours(point),
            state.dead == self.dead_neighbours(point),
    {
        let mut alive: i32 = 0;
        let mut dead: i32 = 0;
        let around = self.get_neighbours(point);
        let mut i: usize = 0;
        proof {
            self.lemma_neighbours_among_in_bounds(point, crate::point::compass());
            assert(around@.take(0).map_values(self.lookup()) =~= Seq::<CellState>::empty());
            lemma_count_alive_empty();
        }
        while i < around.len()
            invariant
                self.wf(),
                around@ == self.neighbours(point),
                around@.len() <= 8,
                forall|j: int| 0 <= j < around@.len() ==> self.in_bounds(#[trigger] around@[j]),
                i <= around.len(),
                alive == count_alive(around@.take(i as int).map_values(self.lookup())),
                alive + dead == i,
            decreases around.len() - i,
        {
            let q = around[i];
            proof {
                assert(around@.take(i + 1).map_values(self.lookup()) =~= around@.take(
                    i as int,
                ).map_values(self.lookup()).push(self.cells@[self.index_of(q)]));
                lemma_count_alive_push(
                    around@.take(i as int).map_values(self.lookup()),
                    self.cells@[self.index_of(q)],
                );
            }
            match self.try_get(q) {
                Some(c) => match c {
                    CellState::Alive(_) => alive += 1,
                    CellState::Dead(_) => dead += 1,
                },
                None => {},
            }
            i += 1;
        }
        proof {
            assert(around@.take(around@.len() as int) =~= around@);
        }
        NeighbourState { alive, dead }
    }
}

impl Default for Grid<CellState> {
    /// Ten by ten dead cells, `X` for alive and ` ` for dead.
    fn default() -> (grid: Self)
        ensures
            grid.wf(),
            grid.width == 10,
            grid.height == 10,
            grid.cells@ == Seq::new(100, |i: int| CellState::Dead(' ')),
            grid.alive_glyph == 'X',
            grid.dead_glyph == ' ',
            grid.population == 0,
            grid.population == count_alive(grid.cells@),
    {
        Grid::new_empty(10, 10)
    }
}

} // verus!
