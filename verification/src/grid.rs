//! The grid as a container: dimensions, row-major layout, bounds and lookup.

use crate::point::{compass, direction, Point};
use std::ops::Index;
use vstd::prelude::*;

verus! {

/// `Grid` holds the state for a Conways game of life
///
/// The cell at column `x` of row `y` is stored at `y * width + x`.
#[derive(Debug)]
#[non_exhaustive]
pub struct Grid<T> {
    /// The `width` of the grid to be created
    pub width: usize,
    /// The `height` of the grid to be created
    pub height: usize,
    /// The state of the grid in terms of what cells are alive and dead in automaton
    pub cells: Vec<T>,
    /// What character glyph should be used to display a dead population
    pub dead_glyph: char,
    /// What character glyph should be used to display an alive population
    pub alive_glyph: char,
    /// Population of the grid i.e number of alive cells
    pub population: usize,
}

impl<T> Grid<T> {
    /// The grid holds exactly one cell for each place of its rectangle.
    pub open spec fn wf(&self) -> bool {
        self.cells@.len() == self.width * self.height
    }

    /// Every cell of the grid has a coordinate: a grid that holds any cell
    /// at all is no wider and no higher than the coordinate type can count.
    pub open spec fn addressable(&self) -> bool {
        self.width == 0 || self.height == 0 || (self.width <= 0x8000_0000 && self.height
            <= 0x8000_0000)
    }

    /// `p` lies in `[0, width) x [0, height)`.
    pub open spec fn in_bounds(&self, p: Point) -> bool {
        0 <= p.x < self.width && 0 <= p.y < self.height
    }

    /// The place of the cell at `p` in the row-major cell sequence.
    pub open spec fn index_of(&self, p: Point) -> int {
        p.y * self.width + p.x
    }

    /// The column and row of the `i`-th cell of the sequence.
    pub open spec fn column_row(&self, i: int) -> (int, int) {
        (i % (self.width as int), i / (self.width as int))
    }

    /// The cell at `p`, or nothing where `p` lies outside the grid.
    pub open spec fn cell_at(&self, p: Point) -> Option<T> {
        if self.in_bounds(p) {
            Some(self.cells@[self.index_of(p)])
        } else {
            None
        }
    }

    /// Whether the cell that lies in direction `d` from `p` has a coordinate
    /// and lies inside the grid.
    pub open spec fn has_neighbour(&self, p: Point, d: Point) -> bool {
        p.can_shift(d) && self.in_bounds(p.shifted(d))
    }

    /// `has_neighbour` as a test on directions.
    pub open spec fn neighbour_test(&self, p: Point) -> spec_fn(Point) -> bool {
        |d: Point| self.has_neighbour(p, d)
    }

    /// The coordinates inside the grid that lie in one of the directions
    /// `dirs` from `p`, in the order of `dirs`.
    pub open spec fn neighbours_among(&self, p: Point, dirs: Seq<Point>) -> Seq<Point> {
        dirs.filter(self.neighbour_test(p)).map_values(p.shift())
    }

    /// The neighbour set of `p`: the up to eight coordinates around `p` that
    /// lie inside the grid, clockwise from north. The grid does not wrap.
    pub open spec fn neighbours(&self, p: Point) -> Seq<Point> {
        self.neighbours_among(p, compass())
    }

    /// No direction, no neighbour.
    pub proof fn lemma_neighbours_among_empty(&self, p: Point)
        ensures
            self.neighbours_among(p, Seq::<Point>::empty()) == Seq::<Point>::empty(),
    {
        reveal(Seq::filter);
        assert(self.neighbours_among(p, Seq::<Point>::empty()) =~= Seq::<Point>::empty());
    }

    /// One more direction adds its neighbour where there is one.
    pub proof fn lemma_neighbours_among_push(&self, p: Point, dirs: Seq<Point>, d: Point)
        ensures
            self.neighbours_among(p, dirs.push(d)) == if self.has_neighbour(p, d) {
                self.neighbours_among(p, dirs).push(p.shifted(d))
            } else {
                self.neighbours_among(p, dirs)
            },
    {
        let test = self.neighbour_test(p);
        dirs.lemma_filter_push(d, test);
        if self.has_neighbour(p, d) {
            assert(dirs.filter(test).push(d).map_values(p.shift()) =~= dirs.filter(test).map_values(
                p.shift(),
            ).push(p.shifted(d)));
        }
    }

    /// Every neighbour lies inside the grid, and there are no more of them
    /// than directions.
    pub proof fn lemma_neighbours_among_in_bounds(&self, p: Point, dirs: Seq<Point>)
        ensures
            self.neighbours_among(p, dirs).len() <= dirs.len(),
            forall|i: int|
                0 <= i < self.neighbours_among(p, dirs).len() ==> self.in_bounds(
                    #[trigger] self.neighbours_among(p, dirs)[i],
                ),
    {
        let test = self.neighbour_test(p);
        let kept = dirs.filter(test);
        dirs.lemma_filter_len(test);
        assert forall|i: int| 0 <= i < self.neighbours_among(p, dirs).len() implies self.in_bounds(
            #[trigger] self.neighbours_among(p, dirs)[i],
        ) by {
            dirs.lemma_filter_pred(test, i);
            assert(test(kept[i]));
        }
    }

    /// A coordinate inside the grid has its place inside the cell sequence.
    pub proof fn lemma_index_in_range(&self, p: Point)
        requires
            self.wf(),
            self.in_bounds(p),
        ensures
            0 <= self.index_of(p) < self.cells@.len(),
            self.column_row(self.index_of(p)) == (p.x as int, p.y as int),
    {
        let w = self.width as int;
        let h = self.height as int;
        let x = p.x as int;
        let y = p.y as int;
        assert(0 <= y * w && y * w + w <= h * w) by (nonlinear_arith)
            requires
                0 <= y < h,
                0 < w,
        ;
        assert(h * w == w * h) by (nonlinear_arith);
        vstd::arithmetic::div_mod::lemma_fundamental_div_mod_converse(y * w + x, w, y, x);
    }

    /// The place `i` of the cell sequence belongs to a column and a row
    /// inside the grid, and is the place of that coordinate.
    pub proof fn lemma_column_row_in_range(&self, i: int)
        requires
            self.wf(),
            0 <= i < self.cells@.len(),
        ensures
            self.width > 0,
            0 <= self.column_row(i).0 < self.width,
            0 <= self.column_row(i).1 < self.height,
            self.column_row(i).1 * self.width + self.column_row(i).0 == i,
    {
        let w = self.width as int;
        let h = self.height as int;
        assert(w > 0) by (nonlinear_arith)
            requires
                0 <= i < w * h,
                0 <= w,
        ;
        vstd::arithmetic::div_mod::lemma_fundamental_div_mod(i, w);
        let q = i / w;
        let r = i % w;
        assert(0 <= q < h) by (nonlinear_arith)
            requires
                0 <= i < w * h,
                i == w * q + r,
                0 <= r < w,
        ;
        assert(q * w == w * q) by (nonlinear_arith);
    }

    /// Whether the coordinate lies within the grid.
    pub fn contains(&self, p: &Point) -> (inside: bool)
        ensures
            inside == self.in_bounds(*p),
    {
        p.x >= 0 && (p.x as usize) < self.width && p.y >= 0 && (p.y as usize) < self.height
    }

    /// The coordinate of the `p`-th cell of the sequence.
    pub fn pos(&self, p: usize) -> (at: Point)
        requires
            self.width > 0,
            self.column_row(p as int).0 <= i32::MAX,
            self.column_row(p as int).1 <= i32::MAX,
        ensures
            (at.x as int, at.y as int) == self.column_row(p as int),
    {
        Point::new((p % self.width) as i32, (p / self.width) as i32)
    }

    /// The place in the cell sequence of a coordinate inside the grid.
    pub fn idx(&self, p: &Point) -> (i: usize)
        requires
            self.wf(),
            self.in_bounds(*p),
        ensures
            i == self.index_of(*p),
            i < self.cells@.len(),
    {
        let row = p.y as usize;
        let column = p.x as usize;
        proof {
            self.lemma_index_in_range(*p);
            assert(self.index_of(*p) < self.cells.len());
            assert(0 <= row * self.width) by (nonlinear_arith);
        }
        row * self.width + column
    }

    /// The neighbour set of `point`.
    pub fn get_neighbours(&self, point: Point) -> (found: Vec<Point>)
        ensures
            found@ == self.neighbours(point),
    {
        let mut found: Vec<Point> = Vec::new();
        let mut k: usize = 0;
        proof {
            assert(compass().take(0) =~= Seq::<Point>::empty());
            self.lemma_neighbours_among_empty(point);
        }
        while k < 8
            invariant
                k <= 8,
                found@ == self.neighbours_among(point, compass().take(k as int)),
            decreases 8 - k,
        {
            let d = direction(k);
            proof {
                assert(compass().take(k + 1) =~= compass().take(k as int).push(d));
                self.lemma_neighbours_among_push(point, compass().take(k as int), d);
            }
            match point.checked_add(d) {
                Some(q) => {
                    if self.contains(&q) {
                        found.push(q);
                    }
                },
                None => {},
            }
            k += 1;
        }
        proof {
            assert(compass().take(8) =~= compass());
        }
        found
    }

    /// The cell at `p`, or nothing where `p` lies outside the grid.
    pub fn try_get(&self, p: Point) -> (found: Option<&T>)
        requires
            self.wf(),
        ensures
            match found {
                Some(cell) => self.cell_at(p) == Some(*cell),
                None => self.cell_at(p) == None::<T>,
            },
    {
        if self.contains(&p) {
            Some(&self[p])
        } else {
            None
        }
    }
}

impl<T> vstd::std_specs::core::IndexSpecImpl<Point> for Grid<T> {
    open spec fn index_req(&self, index: &Point) -> bool {
        self.wf() && self.in_bounds(*index)
    }
}

impl<T> Index<Point> for Grid<T> {
    type Output = T;

    /// The cell at a coordinate inside the grid.
    #[inline]
    fn index(&self, pos: Point) -> (cell: &T)
        ensures
            *cell == self.cells@[self.index_of(pos)],
    {
        &self.cells[self.idx(&pos)]
    }
}

} // verus!
