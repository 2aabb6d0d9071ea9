//! Iterators over a grid's cells and positions, in row-major order.
//!
//! None of these types implement `std::iter::Iterator`; each offers an
//! inherent `next` method with a full contract instead, so a caller drives
//! the iteration with a loop of its own.

use vstd::prelude::*;

verus! {

use crate::grid::{Grid, in_bounds_dim, index_in_dim, index_position, lemma_row_major_index, pos_at};
use crate::vector::Vector;

/// An iterator over every position of a grid of dimensions `dim`, in
/// row-major order. It is independent of any grid value and never borrows
/// one.
#[derive(Clone, Copy)]
pub struct Positions {
    pos: Vector,
    dim: Vector,
}

impl Positions {
    /// The dimensions being traversed.
    pub closed spec fn spec_dim(self) -> Vector {
        self.dim
    }

    /// The linear row-major index of the next position to yield; equals
    /// `width * height` once the iterator is exhausted.
    pub closed spec fn spec_at(self) -> int {
        index_in_dim(self.dim, self.pos)
    }

    /// How many positions a full traversal yields.
    pub open spec fn spec_total(self) -> int {
        self.spec_dim().x * self.spec_dim().y
    }

    #[verifier::type_invariant]
    spec fn wf(self) -> bool {
        &&& 0 < self.dim.x
        &&& 0 < self.dim.y
        &&& in_bounds_dim(self.dim, self.pos) || self.pos == (Vector {
            x: 0i64,
            y: self.dim.y,
        })
    }

    /// Yields the next position in row-major order, or `None` once every
    /// position of the dimensions has been yielded.
    pub fn next(&mut self) -> (r: Option<Vector>)
        ensures
            final(self).spec_dim() == old(self).spec_dim(),
            match r {
                Some(p) => old(self).spec_at() < old(self).spec_total() && p == pos_at(
                    old(self).spec_dim(),
                    old(self).spec_at(),
                ) && in_bounds_dim(old(self).spec_dim(), p) && final(self).spec_at() == old(
                    self,
                ).spec_at() + 1,
                None => {
                    &&& old(self).spec_at() == old(self).spec_total()
                    &&& final(self).spec_at() == old(self).spec_at()
                },
            },
    {
        proof {
            use_type_invariant(&*self);
        }
        if self.pos.y != self.dim.y {
            let p = self.pos;
            proof {
                lemma_row_major_index(self.dim, p);
                vstd::arithmetic::mul::lemma_mul_is_distributive_add_other_way(
                    self.dim.x as int,
                    self.pos.y as int,
                    1,
                );
            }
            let stepped = if p.x + 1 == self.dim.x {
                Vector { x: 0, y: p.y + 1 }
            } else {
                Vector { x: p.x + 1, y: p.y }
            };
            self.pos = stepped;
            proof {
                assert(index_in_dim(self.dim, self.pos) == index_in_dim(self.dim, p) + 1);
            }
            Some(p)
        } else {
            proof {
                assert(self.pos == (Vector { x: 0i64, y: self.dim.y }));
                assert(index_in_dim(self.dim, self.pos) == self.dim.y * self.dim.x);
                assert(self.dim.y * self.dim.x == self.dim.x * self.dim.y);
            }
            None
        }
    }
}

/// An iterator over shared references to a grid's cells, in row-major order.
pub struct Iter<'a, T> {
    grid: &'a Grid<T>,
    at: usize,
}

impl<'a, T> Iter<'a, T> {
    /// The grid being traversed.
    pub closed spec fn spec_grid(self) -> Grid<T> {
        *self.grid
    }

    /// The linear row-major index of the next cell to yield.
    pub closed spec fn spec_at(self) -> int {
        self.at as int
    }

    #[verifier::type_invariant]
    spec fn wf(self) -> bool {
        self.at <= (*self.grid).cells().len()
    }

    /// Yields a reference to the next cell in row-major order, or `None`
    /// once every cell has been yielded.
    pub fn next(&mut self) -> (r: Option<&'a T>)
        ensures
            final(self).spec_grid() == old(self).spec_grid(),
            match r {
                Some(v) => {
                    &&& old(self).spec_at() < old(self).spec_grid().cells().len()
                    &&& *v == old(self).spec_grid().cells()[old(self).spec_at()]
                    &&& final(self).spec_at() == old(self).spec_at() + 1
                },
                None => {
                    &&& old(self).spec_at() == old(self).spec_grid().cells().len()
                    &&& final(self).spec_at() == old(self).spec_at()
                },
            },
    {
        proof {
            use_type_invariant(&*self);
        }
        if self.at < self.grid.cell_count() {
            let p = index_position(self.grid.dim(), self.at);
            let v = self.grid.index(p);
            self.at = self.at + 1;
            Some(v)
        } else {
            None
        }
    }
}

/// An iterator over a grid's positions paired with references to its cells,
/// in row-major order.
pub struct PositionIter<'a, T> {
    grid: &'a Grid<T>,
    at: usize,
}

impl<'a, T> PositionIter<'a, T> {
    /// The grid being traversed.
    pub closed spec fn spec_grid(self) -> Grid<T> {
        *self.grid
    }

    /// The linear row-major index of the next pair to yield.
    pub closed spec fn spec_at(self) -> int {
        self.at as int
    }

    #[verifier::type_invariant]
    spec fn wf(self) -> bool {
        self.at <= (*self.grid).cells().len()
    }

    /// Yields the next position together with a reference to the cell at
    /// that position, in row-major order, or `None` once every cell has
    /// been yielded.
    pub fn next(&mut self) -> (r: Option<(Vector, &'a T)>)
        ensures
            final(self).spec_grid() == old(self).spec_grid(),
            match r {
                Some(pv) => {
                    &&& old(self).spec_at() < old(self).spec_grid().cells().len()
                    &&& pv.0 == pos_at(old(self).spec_grid().spec_dim(), old(self).spec_at())
                    &&& old(self).spec_grid().spec_in_bounds(pv.0)
                    &&& *pv.1 == old(self).spec_grid().cells()[old(self).spec_at()]
                    &&& *pv.1 == old(self).spec_grid().spec_cell(pv.0)
                    &&& final(self).spec_at() == old(self).spec_at() + 1
                },
                None => {
                    &&& old(self).spec_at() == old(self).spec_grid().cells().len()
                    &&& final(self).spec_at() == old(self).spec_at()
                },
            },
    {
        proof {
            use_type_invariant(&*self);
        }
        if self.at < self.grid.cell_count() {
            let p = index_position(self.grid.dim(), self.at);
            let v = self.grid.index(p);
            self.at = self.at + 1;
            Some((p, v))
        } else {
            None
        }
    }
}

/// A consuming iterator over a grid's cells, in row-major order.
pub struct IntoIter<T> {
    data: Vec<T>,
}

impl<T> IntoIter<T> {
    /// The cells not yet yielded, in row-major order.
    pub closed spec fn remaining(self) -> Seq<T> {
        self.data@
    }

    /// Yields the next cell by value, or `None` once the buffer is
    /// exhausted.
    pub fn next(&mut self) -> (r: Option<T>)
        ensures
            match r {
                Some(v) => {
                    &&& old(self).remaining().len() > 0
                    &&& v == old(self).remaining()[0]
                    &&& final(self).remaining() == old(self).remaining().skip(1)
                },
                None => {
                    &&& old(self).remaining().len() == 0
                    &&& final(self).remaining() == old(self).remaining()
                },
            },
    {
        if self.data.len() > 0 {
            let v = self.data.remove(0);
            proof {
                assert(self.data@ =~= old(self).remaining().skip(1));
            }
            Some(v)
        } else {
            None
        }
    }
}

/// A consuming iterator over a grid's positions paired with its cells, in
/// row-major order.
pub struct PositionIntoIter<T> {
    data: Vec<T>,
    dim: Vector,
    at: usize,
}

impl<T> PositionIntoIter<T> {
    /// The dimensions of the consumed grid.
    pub closed spec fn spec_dim(self) -> Vector {
        self.dim
    }

    /// The linear row-major index of the next pair to yield.
    pub closed spec fn spec_at(self) -> int {
        self.at as int
    }

    /// The cells not yet yielded, in row-major order.
    pub closed spec fn remaining(self) -> Seq<T> {
        self.data@
    }

    /// The iterator still matches the grid it was made from: the positions
    /// not yet yielded are exactly those of the cells still held.
    pub closed spec fn wf(self) -> bool {
        &&& 0 < self.dim.x
        &&& 0 < self.dim.y
        &&& self.dim.x * self.dim.y <= usize::MAX
        &&& self.at + self.remaining().len() == self.dim.x * self.dim.y
    }

    /// Yields the next position together with the cell at that position, in
    /// row-major order, or `None` once every cell has been yielded.
    pub fn next(&mut self) -> (r: Option<(Vector, T)>)
        requires
            old(self).wf(),
        ensures
            final(self).wf(),
            final(self).spec_dim() == old(self).spec_dim(),
            match r {
                Some(pv) => {
                    &&& old(self).remaining().len() > 0
                    &&& pv.0 == pos_at(old(self).spec_dim(), old(self).spec_at())
                    &&& in_bounds_dim(old(self).spec_dim(), pv.0)
                    &&& pv.1 == old(self).remaining()[0]
                    &&& final(self).remaining() == old(self).remaining().skip(1)
                    &&& final(self).spec_at() == old(self).spec_at() + 1
                },
                None => {
                    &&& old(self).remaining().len() == 0
                    &&& final(self).remaining() == old(self).remaining()
                    &&& final(self).spec_at() == old(self).spec_at()
                },
            },
    {
        if self.data.len() > 0 {
            let p = index_position(self.dim, self.at);
            let v = self.data.remove(0);
            self.at = self.at + 1;
            proof {
                assert(self.data@ =~= old(self).remaining().skip(1));
            }
            Some((p, v))
        } else {
            None
        }
    }
}

/// Position iteration agrees with cell iteration: at every step `k` of a
/// row-major traversal, the position yielded names exactly the cell yielded,
/// so zipping `positions()` with any cell iterator of the same grid pairs
/// every position with the cell stored there.
pub proof fn lemma_position_names_cell<T>(g: Grid<T>, k: int)
    requires
        0 < g.spec_width(),
        0 < g.spec_height(),
        0 <= k < g.spec_width() * g.spec_height(),
    ensures
        g.spec_in_bounds(pos_at(g.spec_dim(), k)),
        g.spec_cell(pos_at(g.spec_dim(), k)) == g.cells()[k],
{
    crate::grid::lemma_pos_at(g.spec_dim(), k);
}

impl<T> Grid<T> {
    /// Returns an iterator over every position that indexes into the grid,
    /// in row-major order.
    pub fn positions(&self) -> (it: Positions)
        ensures
            it.spec_dim() == self.spec_dim(),
            it.spec_at() == 0,
    {
        Positions { pos: Vector { x: 0, y: 0 }, dim: self.dim() }
    }

    /// Returns an iterator over references to the cells of the grid, in
    /// row-major order.
    pub fn iter(&self) -> (it: Iter<'_, T>)
        ensures
            it.spec_grid() == *self,
            it.spec_at() == 0,
    {
        Iter { grid: self, at: 0 }
    }

    /// Returns an iterator over every position and a reference to the cell
    /// at it, in row-major order.
    pub fn iter_positions(&self) -> (it: PositionIter<'_, T>)
        ensures
            it.spec_grid() == *self,
            it.spec_at() == 0,
    {
        PositionIter { grid: self, at: 0 }
    }

    /// Returns an iterator over the cells of the grid by value, in row-major
    /// order, consuming the grid.
    pub fn into_iter(self) -> (it: IntoIter<T>)
        ensures
            it.remaining() == self.cells(),
    {
        let (data, _) = self.into_parts();
        IntoIter { data }
    }

    /// Returns an iterator over every position and the cell at it by value,
    /// in row-major order, consuming the grid.
    pub fn into_iter_positions(self) -> (it: PositionIntoIter<T>)
        ensures
            it.wf(),
            it.spec_dim() == self.spec_dim(),
            it.spec_at() == 0,
            it.remaining() == self.cells(),
    {
        let (data, dim) = self.into_parts();
        PositionIntoIter { data, dim, at: 0 }
    }
}

} // verus!
