//! What holds of every grid: the size of neighbour sets, and that the next
//! generation is a function of shape, cells and glyphs alone.

use crate::cell::CellState;
use crate::grid::Grid;
use crate::life::{alive_test, count_alive};
use crate::point::{compass, Point};
use vstd::prelude::*;

verus! {

/// One if there is a neighbour of `p` in the `k`-th direction, else zero.
pub open spec fn neighbour_towards<T>(g: Grid<T>, p: Point, k: int) -> nat {
    if g.has_neighbour(p, compass()[k]) {
        1
    } else {
        0
    }
}

/// The neighbour set has one member for each direction in which the grid
/// goes on.
pub proof fn lemma_neighbours_len<T>(g: Grid<T>, p: Point)
    ensures
        g.neighbours(p).len() == neighbour_towards(g, p, 0) + neighbour_towards(g, p, 1)
            + neighbour_towards(g, p, 2) + neighbour_towards(g, p, 3) + neighbour_towards(g, p, 4)
            + neighbour_towards(g, p, 5) + neighbour_towards(g, p, 6) + neighbour_towards(g, p, 7),
{
    let c = compass();
    let s0 = Seq::<Point>::empty();
    let s1 = s0.push(c[0]);
    let s2 = s1.push(c[1]);
    let s3 = s2.push(c[2]);
    let s4 = s3.push(c[3]);
    let s5 = s4.push(c[4]);
    let s6 = s5.push(c[5]);
    let s7 = s6.push(c[6]);
    let s8 = s7.push(c[7]);
    assert(s8 =~= c);
    g.lemma_neighbours_among_empty(p);
    g.lemma_neighbours_among_push(p, s0, c[0]);
    g.lemma_neighbours_among_push(p, s1, c[1]);
    g.lemma_neighbours_among_push(p, s2, c[2]);
    g.lemma_neighbours_among_push(p, s3, c[3]);
    g.lemma_neighbours_among_push(p, s4, c[4]);
    g.lemma_neighbours_among_push(p, s5, c[5]);
    g.lemma_neighbours_among_push(p, s6, c[6]);
    g.lemma_neighbours_among_push(p, s7, c[7]);
}

/// `p` lies in the first or the last column of the grid.
pub open spec fn in_outer_column<T>(g: Grid<T>, p: Point) -> bool {
    p.x == 0 || p.x == g.width - 1
}

/// `p` lies in the first or the last row of the grid.
pub open spec fn in_outer_row<T>(g: Grid<T>, p: Point) -> bool {
    p.y == 0 || p.y == g.height - 1
}

/// A cell has at most eight neighbours inside the grid, a cell on an edge at
/// most five and a cell in a corner at most three.
pub proof fn law_neighbour_set_bounded<T>(g: Grid<T>, p: Point)
    requires
        g.in_bounds(p),
    ensures
        g.neighbours(p).len() <= 8,
        in_outer_column(g, p) || in_outer_row(g, p) ==> g.neighbours(p).len() <= 5,
        in_outer_column(g, p) && in_outer_row(g, p) ==> g.neighbours(p).len() <= 3,
{
    lemma_neighbours_len(g, p);
}

/// In a grid of at least two columns and two rows, all with coordinates, a
/// cell in a corner has exactly three neighbours, any other cell on an edge exactly
/// five, and a cell off the edges all eight.
pub proof fn law_neighbour_set_size<T>(g: Grid<T>, p: Point)
    requires
        g.addressable(),
        g.in_bounds(p),
        g.width >= 2,
        g.height >= 2,
    ensures
        g.neighbours(p).len() == if in_outer_column(g, p) && in_outer_row(g, p) {
            3nat
        } else if in_outer_column(g, p) || in_outer_row(g, p) {
            5nat
        } else {
            8nat
        },
{
    lemma_neighbours_len(g, p);
}

/// The tally of a neighbour set splits it: living and dead neighbours
/// together are the neighbours inside the grid, eight at most.
pub proof fn law_tally_splits_neighbours(g: Grid<CellState>, p: Point)
    ensures
        g.alive_neighbours(p) + g.dead_neighbours(p) == g.neighbours(p).len(),
        g.alive_neighbours(p) <= 8,
        g.dead_neighbours(p) <= 8,
{
    lemma_neighbours_len(g, p);
    g.neighbour_cells(p).lemma_filter_len(alive_test());
}

/// The next generation is a function of the snapshot: two grids that agree
/// in width, height, cells and glyphs have the same next generation,
/// whatever else differs between them.
pub proof fn law_next_generation_deterministic(a: Grid<CellState>, b: Grid<CellState>)
    requires
        a.width == b.width,
        a.height == b.height,
        a.cells@ == b.cells@,
        a.alive_glyph == b.alive_glyph,
        a.dead_glyph == b.dead_glyph,
    ensures
        a.next_generation() == b.next_generation(),
{
    assert forall|i: int| 0 <= i < a.cells@.len() implies a.next_cell(i) == b.next_cell(i) by {
        lemma_same_tally(a, b, a.point_at(i));
    }
    assert(a.next_generation() =~= b.next_generation());
}

/// Which cells of the next generation are alive does not depend on the
/// glyphs: two grids that agree in width, height and cells have next
/// generations of the same length and with the same tags.
pub proof fn law_next_generation_tags(a: Grid<CellState>, b: Grid<CellState>)
    requires
        a.width == b.width,
        a.height == b.height,
        a.cells@ == b.cells@,
    ensures
        a.next_generation().len() == b.next_generation().len(),
        forall|i: int|
            0 <= i < a.next_generation().len() ==> (#[trigger] a.next_generation()[i]).is_alive()
                == b.next_generation()[i].is_alive(),
{
    assert forall|i: int| 0 <= i < a.next_generation().len() implies (
    #[trigger] a.next_generation()[i]).is_alive() == b.next_generation()[i].is_alive() by {
        lemma_same_tally(a, b, a.point_at(i));
        law_tally_splits_neighbours(a, a.point_at(i));
    }
}

/// Grids of the same shape and cells tally the same around every point.
pub proof fn lemma_same_tally(a: Grid<CellState>, b: Grid<CellState>, p: Point)
    requires
        a.width == b.width,
        a.height == b.height,
        a.cells@ == b.cells@,
    ensures
        a.neighbours(p) == b.neighbours(p),
        a.neighbour_cells(p) == b.neighbour_cells(p),
        a.alive_neighbours(p) == b.alive_neighbours(p),
{
    assert(a.neighbour_test(p) =~= b.neighbour_test(p));
    assert(a.lookup() =~= b.lookup());
}

/// Whatever a neighbour set holds, a sequence of dead cells counts as zero.
pub proof fn lemma_count_alive_none(s: Seq<CellState>)
    requires
        forall|i: int| 0 <= i < s.len() ==> !(#[trigger] s[i]).is_alive(),
    ensures
        count_alive(s) == 0,
    decreases s.len(),
{
    if s.len() == 0 {
        crate::life::lemma_count_alive_empty();
        assert(s =~= Seq::<CellState>::empty());
    } else {
        lemma_count_alive_none(s.drop_last());
        crate::life::lemma_count_alive_push(s.drop_last(), s.last());
        assert(s.drop_last().push(s.last()) =~= s);
    }
}

/// A grid without a living cell has none in the next generation either,
/// and every cell keeps its glyph.
pub proof fn lemma_dead_grid_stays_dead(g: Grid<CellState>)
    requires
        g.wf(),
        forall|i: int| 0 <= i < g.cells@.len() ==> !(#[trigger] g.cells@[i]).is_alive(),
    ensures
        g.next_generation() == g.cells@,
{
    assert forall|i: int| 0 <= i < g.cells@.len() implies g.next_cell(i) == g.cells@[i] by {
        let p = g.point_at(i);
        g.lemma_neighbours_among_in_bounds(p, compass());
        assert forall|j: int| 0 <= j < g.neighbour_cells(p).len() implies !(
        #[trigger] g.neighbour_cells(p)[j]).is_alive() by {
            let q = g.neighbours(p)[j];
            assert(g.in_bounds(q));
            g.lemma_index_in_range(q);
        }
        lemma_count_alive_none(g.neighbour_cells(p));
    }
    assert(g.next_generation() =~= g.cells@);
}

/// Where every cell is alive with the grid's glyph for the living or dead
/// with its glyph for the dead, the same holds of the next generation.
pub proof fn law_next_generation_keeps_glyphs(g: Grid<CellState>)
    requires
        Grid::cells_drawn_from(g.cells@, g.alive_glyph, g.dead_glyph),
    ensures
        Grid::cells_drawn_from(g.next_generation(), g.alive_glyph, g.dead_glyph),
{
    assert forall|i: int| 0 <= i < g.next_generation().len() implies (
    #[trigger] g.next_generation()[i] == CellState::Alive(g.alive_glyph) || g.next_generation()[i]
        == CellState::Dead(g.dead_glyph)) by {
        assert(g.cells@[i] == CellState::Alive(g.alive_glyph) || g.cells@[i] == CellState::Dead(
            g.dead_glyph,
        ));
    }
}

/// The first `rows` lines of the textual form are `rows` times `width + 1`
/// characters, and the line of each row stands at its place among them.
pub proof fn lemma_rows_text_layout(g: Grid<CellState>, rows: nat)
    ensures
        g.rows_text(rows).len() == rows * (g.width + 1),
        forall|row: int|
            0 <= row < rows ==> g.rows_text(rows).subrange(
                row * (g.width + 1),
                (row + 1) * (g.width + 1),
            ) == #[trigger] g.row_text(row),
    decreases rows,
{
    let line = g.width + 1;
    if rows > 0 {
        let above = g.rows_text((rows - 1) as nat);
        lemma_rows_text_layout(g, (rows - 1) as nat);
        assert((rows - 1) * line + line == rows * line) by (nonlinear_arith);
        assert forall|row: int| 0 <= row < rows implies g.rows_text(rows).subrange(
            row * line,
            (row + 1) * line,
        ) == #[trigger] g.row_text(row) by {
            assert(0 <= row * line && (row + 1) * line == row * line + line && (row + 1) * line
                <= rows * line) by (nonlinear_arith)
                requires
                    0 <= row < rows,
                    0 < line,
            ;
            if row < rows - 1 {
                assert((row + 1) * line <= (rows - 1) * line) by (nonlinear_arith)
                    requires
                        row + 1 <= rows - 1,
                        0 < line,
                ;
                assert(g.rows_text(rows).subrange(row * line, (row + 1) * line) =~= above.subrange(
                    row * line,
                    (row + 1) * line,
                ));
            } else {
                assert(g.rows_text(rows).subrange(row * line, (row + 1) * line) =~= g.row_text(
                    row,
                ));
            }
        }
    }
}

/// The textual form of a grid is `height` lines of `width` glyphs and a line
/// break each, the line of row `row` being the `row`-th of them.
pub proof fn law_text_layout(g: Grid<CellState>)
    ensures
        g.text().len() == g.height * (g.width + 1),
        forall|row: int|
            0 <= row < g.height ==> g.text().subrange(
                row * (g.width + 1),
                (row + 1) * (g.width + 1),
            ) == #[trigger] g.row_text(row),
        forall|row: int|
            0 <= row < g.height ==> (#[trigger] g.row_text(row)).len() == g.width + 1
                && g.row_text(row).last() == '\n',
{
    lemma_rows_text_layout(g, g.height as nat);
}

} // verus!
