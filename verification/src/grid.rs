//! A generic heap-allocated 2D grid indexed by `Vector`.
//!
//! For a position `Vector { x, y }` in the grid, `x` selects the column and
//! `y` selects the row. A grid with `width` columns and `height` rows stores
//! its `width * height` cells in one contiguous buffer in row-major order:
//! the cell at `(x, y)` lives at linear index `x + y * width`.

use vstd::prelude::*;

verus! {

use crate::vector::Vector;
use vstd::arithmetic::div_mod::{
    lemma_fundamental_div_mod,
    lemma_fundamental_div_mod_converse,
    lemma_mod_division_less_than_divisor,
    lemma_div_pos_is_pos,
};
use vstd::pervasive::cloned;

/// Whether a grid of the given dimensions can be built: both must be strictly
/// positive and the cell count must fit in `usize`.
pub open spec fn valid_dimensions(width: i64, height: i64) -> bool {
    &&& 0 < width
    &&& 0 < height
    &&& width * height <= usize::MAX
}

/// Whether `pos` lies inside a grid of dimensions `dim`.
pub open spec fn in_bounds_dim(dim: Vector, pos: Vector) -> bool {
    &&& 0 <= pos.x < dim.x
    &&& 0 <= pos.y < dim.y
}

/// The linear row-major index of `pos` in a grid of dimensions `dim`.
pub open spec fn index_in_dim(dim: Vector, pos: Vector) -> int {
    pos.x + pos.y * dim.x
}

/// The position whose linear row-major index is `k` in a grid of dimensions
/// `dim`: column `k % width`, row `k / width`.
pub open spec fn pos_at(dim: Vector, k: int) -> Vector {
    Vector { x: (k % (dim.x as int)) as i64, y: (k / (dim.x as int)) as i64 }
}

/// Row-major layout sends every in-bounds position to a linear index within
/// the buffer, and `pos_at` inverts it.
pub proof fn lemma_row_major_index(dim: Vector, pos: Vector)
    requires
        0 < dim.x,
        0 < dim.y,
        in_bounds_dim(dim, pos),
    ensures
        0 <= index_in_dim(dim, pos) < dim.x * dim.y,
        pos_at(dim, index_in_dim(dim, pos)) == pos,
{
    let w = dim.x as int;
    let k = pos.x + pos.y * w;
    lemma_fundamental_div_mod_converse(k, w, pos.y as int, pos.x as int);
    assert(pos.y * w + pos.x == k) by (nonlinear_arith)
        requires
            k == pos.x + pos.y * w,
    {}
    assert(k < dim.x * dim.y) by (nonlinear_arith)
        requires
            k == pos.x + pos.y * w,
            w == dim.x,
            pos.x < dim.x,
            pos.y < dim.y,
            0 < dim.x,
    {}
}

/// Every linear index within the buffer comes from exactly the in-bounds
/// position that `pos_at` names, so iterating linearly visits every position.
pub proof fn lemma_pos_at(dim: Vector, k: int)
    requires
        0 < dim.x,
        0 < dim.y,
        0 <= k < dim.x * dim.y,
    ensures
        in_bounds_dim(dim, pos_at(dim, k)),
        index_in_dim(dim, pos_at(dim, k)) == k,
{
    let w = dim.x as int;
    lemma_fundamental_div_mod(k, w);
    lemma_mod_division_less_than_divisor(k, w);
    lemma_div_pos_is_pos(k, w);
    assert(k / w < dim.y) by (nonlinear_arith)
        requires
            0 < w,
            0 <= k < w * (dim.y as int),
            k == w * (k / w) + k % w,
            0 <= k % w < w,
            0 <= k / w,
    {}
    assert(index_in_dim(dim, pos_at(dim, k)) == k) by (nonlinear_arith)
        requires
            0 < w,
            w == dim.x,
            k == w * (k / w) + k % w,
            0 <= k % w < w,
            pos_at(dim, k) == (Vector { x: (k % w) as i64, y: (k / w) as i64 }),
            0 <= k / w < dim.y,
    {}
}

/// Distinct in-bounds positions occupy distinct cells of the buffer.
pub proof fn lemma_index_in_dim_injective(dim: Vector, p: Vector, q: Vector)
    requires
        0 < dim.x,
        0 < dim.y,
        in_bounds_dim(dim, p),
        in_bounds_dim(dim, q),
        index_in_dim(dim, p) == index_in_dim(dim, q),
    ensures
        p == q,
{
    lemma_row_major_index(dim, p);
    lemma_row_major_index(dim, q);
}

/// A generic heap-allocated 2D grid indexed by `Vector`, with its cells in a
/// contiguous row-major buffer.
#[derive(PartialEq, Eq, Hash)]
pub struct Grid<T> {
    data: Vec<T>,
    dim: Vector,
}

impl<T> Grid<T> {
    /// The dimensions of the grid, as the vector `(width, height)`.
    pub closed spec fn spec_dim(self) -> Vector {
        self.dim
    }

    /// The number of columns.
    pub open spec fn spec_width(self) -> int {
        self.spec_dim().x as int
    }

    /// The number of rows.
    pub open spec fn spec_height(self) -> int {
        self.spec_dim().y as int
    }

    /// The cells of the grid, in row-major order.
    pub closed spec fn cells(self) -> Seq<T> {
        self.data@
    }

    /// Whether `pos` lies inside the grid.
    pub open spec fn spec_in_bounds(self, pos: Vector) -> bool {
        in_bounds_dim(self.spec_dim(), pos)
    }

    /// The linear index of `pos` in the buffer.
    pub open spec fn spec_index_of(self, pos: Vector) -> int {
        index_in_dim(self.spec_dim(), pos)
    }

    /// The cell at position `pos`.
    pub open spec fn spec_cell(self, pos: Vector) -> T {
        self.cells()[self.spec_index_of(pos)]
    }

    #[verifier::type_invariant]
    spec fn wf(self) -> bool {
        &&& valid_dimensions(self.dim.x, self.dim.y)
        &&& self.data@.len() == self.dim.x * self.dim.y
    }

    /// Returns the width of the grid.
    pub fn width(&self) -> (w: i64)
        ensures
            w == self.spec_width(),
            0 < w,
            self.cells().len() == self.spec_width() * self.spec_height(),
    {
        proof {
            use_type_invariant(self);
        }
        self.dim.x
    }

    /// Returns the height of the grid.
    pub fn height(&self) -> (h: i64)
        ensures
            h == self.spec_height(),
            0 < h,
            self.cells().len() == self.spec_width() * self.spec_height(),
    {
        proof {
            use_type_invariant(self);
        }
        self.dim.y
    }

    /// Returns the dimensions of the grid.
    pub fn dim(&self) -> (d: Vector)
        ensures
            d == self.spec_dim(),
            0 < d.x,
            0 < d.y,
            self.cells().len() == self.spec_width() * self.spec_height(),
            self.spec_width() * self.spec_height() <= usize::MAX,
    {
        proof {
            use_type_invariant(self);
        }
        self.dim
    }

    /// The number of cells in the buffer, `width * height`.
    pub(crate) fn cell_count(&self) -> (n: usize)
        ensures
            n == self.cells().len(),
            n == self.spec_width() * self.spec_height(),
            valid_dimensions(self.spec_dim().x, self.spec_dim().y),
    {
        proof {
            use_type_invariant(self);
        }
        self.data.len()
    }

    /// Takes the grid apart into its buffer and its dimensions.
    pub(crate) fn into_parts(self) -> (r: (Vec<T>, Vector))
        ensures
            r.0@ == self.cells(),
            r.1 == self.spec_dim(),
            valid_dimensions(r.1.x, r.1.y),
            r.0@.len() == r.1.x * r.1.y,
    {
        proof {
            use_type_invariant(&self);
        }
        let Grid { data, dim } = self;
        (data, dim)
    }

    /// Returns `true` if the given position is within the bounds of the grid.
    pub fn in_bounds(&self, pos: Vector) -> (b: bool)
        ensures
            b == self.spec_in_bounds(pos),
    {
        0 <= pos.x && pos.x < self.dim.x && 0 <= pos.y && pos.y < self.dim.y
    }

    /// The linear buffer index of `pos`, or `None` when `pos` is out of
    /// bounds.
    fn get_index(&self, pos: Vector) -> (r: Option<usize>)
        ensures
            match r {
                Some(i) => self.spec_in_bounds(pos) && i == self.spec_index_of(pos) && i
                    < self.cells().len(),
                None => !self.spec_in_bounds(pos),
            },
    {
        proof {
            use_type_invariant(self);
        }
        if self.in_bounds(pos) {
            proof {
                lemma_row_major_index(self.dim, pos);
                assert(0 <= pos.y * self.dim.x) by (nonlinear_arith)
                    requires
                        0 <= pos.y,
                        0 < self.dim.x,
                {}
                assert(pos.y <= pos.y * self.dim.x && self.dim.x <= self.dim.x * self.dim.y)
                    by (nonlinear_arith)
                    requires
                        0 <= pos.y,
                        0 < self.dim.x,
                        0 < self.dim.y,
                {}
            }
            Some((pos.x as usize) + (pos.y as usize) * (self.dim.x as usize))
        } else {
            None
        }
    }

    /// Returns a reference to the value at the given position of the grid, or
    /// `None` if out of bounds.
    pub fn get(&self, pos: Vector) -> (r: Option<&T>)
        ensures
            match r {
                Some(v) => self.spec_in_bounds(pos) && *v == self.spec_cell(pos),
                None => !self.spec_in_bounds(pos),
            },
    {
        match self.get_index(pos) {
            Some(i) => Some(&self.data[i]),
            None => None,
        }
    }

    /// Returns a mutable reference to the value at the given position of the
    /// grid, or `None` if out of bounds.
    pub fn get_mut(&mut self, pos: Vector) -> (r: Option<&mut T>)
        ensures
            match r {
                Some(m) => old(self).spec_in_bounds(pos) && *m == old(self).spec_cell(pos)
                    && final(self).spec_dim() == old(self).spec_dim() && final(self).cells() == old(
                    self,
                ).cells().update(old(self).spec_index_of(pos), *final(m)),
                None => !old(self).spec_in_bounds(pos) && final(self).spec_dim() == old(
                    self,
                ).spec_dim() && final(self).cells() == old(self).cells(),
            },
    {
        proof {
            use_type_invariant(&*self);
        }
        match self.get_index(pos) {
            Some(i) => Some(&mut self.data[i]),
            None => None,
        }
    }

    /// Sets the value at the given position of the grid.
    ///
    /// Returns the old value at that position, or `None` if out of bounds; in
    /// that case the grid is unchanged and `value` is dropped.
    pub fn set(&mut self, pos: Vector, value: T) -> (r: Option<T>)
        ensures
            final(self).spec_dim() == old(self).spec_dim(),
            match r {
                Some(prev) => old(self).spec_in_bounds(pos) && prev == old(self).spec_cell(pos)
                    && final(self).cells() == old(self).cells().update(
                    old(self).spec_index_of(pos),
                    value,
                ),
                None => !old(self).spec_in_bounds(pos) && final(self).cells() == old(self).cells(),
            },
    {
        proof {
            use_type_invariant(&*self);
        }
        match self.get_index(pos) {
            Some(i) => {
                let mut v = value;
                let m = &mut self.data[i];
                core::mem::swap(m, &mut v);
                Some(v)
            },
            None => None,
        }
    }

    /// Returns a reference to the value at the given position, which must be
    /// in bounds.
    pub fn index(&self, pos: Vector) -> (v: &T)
        requires
            self.spec_in_bounds(pos),
        ensures
            *v == self.spec_cell(pos),
    {
        match self.get(pos) {
            Some(v) => v,
            None => unreached(),
        }
    }

    /// Returns a mutable reference to the value at the given position, which
    /// must be in bounds.
    pub fn index_mut(&mut self, pos: Vector) -> (m: &mut T)
        requires
            old(self).spec_in_bounds(pos),
        ensures
            *m == old(self).spec_cell(pos),
            final(self).spec_dim() == old(self).spec_dim(),
            final(self).cells() == old(self).cells().update(
                old(self).spec_index_of(pos),
                *final(m),
            ),
    {
        proof {
            use_type_invariant(&*self);
        }
        let i = match self.get_index(pos) {
            Some(i) => i,
            None => unreached(),
        };
        &mut self.data[i]
    }
}

impl<T: Clone> Clone for Grid<T> {
    /// Clones the grid cell by cell, preserving the dimensions and the
    /// row-major order of the buffer.
    fn clone(&self) -> (r: Self)
        ensures
            r.spec_dim() == self.spec_dim(),
            r.cells().len() == self.cells().len(),
            forall|k: int|
                0 <= k < self.cells().len() ==> cloned::<T>(
                    self.cells()[k],
                    #[trigger] r.cells()[k],
                ),
    {
        proof {
            use_type_invariant(self);
        }
        let mut data: Vec<T> = Vec::with_capacity(self.data.len());
        let mut i: usize = 0;
        while i < self.data.len()
            invariant
                i == data@.len() <= self.data@.len(),
                forall|k: int| 0 <= k < i ==> cloned::<T>(self.data@[k], #[trigger] data@[k]),
            decreases self.data@.len() - i,
        {
            data.push(self.data[i].clone());
            i = i + 1;
        }
        proof {
            use_type_invariant(self);
        }
        Grid { data, dim: self.dim }
    }
}

/// The number of cells a grid with the given dimensions holds.
fn size(width: i64, height: i64) -> (s: usize)
    requires
        valid_dimensions(width, height),
    ensures
        s == width * height,
        0 < s,
{
    assert(width <= width * height && height <= width * height) by (nonlinear_arith)
        requires
            0 < width,
            0 < height,
    {}
    (width as usize) * (height as usize)
}

impl<T: Clone> Grid<T> {
    /// Constructs a new `Grid<T>` with the given dimensions, initialising
    /// every cell to a clone of `value`.
    pub fn new(width: i64, height: i64, value: T) -> (g: Grid<T>)
        requires
            valid_dimensions(width, height),
        ensures
            g.spec_width() == width,
            g.spec_height() == height,
            g.cells().len() == width * height,
            forall|k: int| 0 <= k < g.cells().len() ==> cloned::<T>(value, #[trigger] g.cells()[k]),
    {
        let sz = size(width, height);
        let mut data: Vec<T> = Vec::with_capacity(sz);
        data.resize(sz, value);
        Grid { data, dim: Vector { x: width, y: height } }
    }
}

impl<T: Default> Grid<T> {
    /// Constructs a new `Grid<T>` with the given dimensions, initialising
    /// every cell to an independently constructed default value.
    pub fn default(width: i64, height: i64) -> (g: Grid<T>)
        requires
            valid_dimensions(width, height),
        ensures
            g.spec_width() == width,
            g.spec_height() == height,
            g.cells().len() == width * height,
            forall|k: int|
                0 <= k < g.cells().len() ==> call_ensures(
                    T::default,
                    (),
                    #[trigger] g.cells()[k],
                ),
    {
        let sz = size(width, height);
        let mut data: Vec<T> = Vec::with_capacity(sz);
        while data.len() < sz
            invariant
                data@.len() <= sz,
                forall|k: int|
                    0 <= k < data@.len() ==> call_ensures(T::default, (), #[trigger] data@[k]),
            decreases sz - data@.len(),
        {
            data.push(T::default());
        }
        Grid { data, dim: Vector { x: width, y: height } }
    }
}

/// The in-bounds position whose linear row-major index is `k`.
pub(crate) fn index_position(dim: Vector, k: usize) -> (p: Vector)
    requires
        0 < dim.x,
        0 < dim.y,
        dim.x * dim.y <= usize::MAX,
        k < dim.x * dim.y,
    ensures
        p == pos_at(dim, k as int),
        in_bounds_dim(dim, p),
        index_in_dim(dim, p) == k,
{
    proof {
        lemma_pos_at(dim, k as int);
        assert(dim.x <= dim.x * dim.y) by (nonlinear_arith)
            requires
                0 < dim.x,
                0 < dim.y,
        {}
    }
    Vector { x: (k % (dim.x as usize)) as i64, y: (k / (dim.x as usize)) as i64 }
}

impl<T> Grid<T> {
    /// Constructs a new `Grid<T>` with the given dimensions, filling the
    /// cells with results of the closure `f`, called once per cell in
    /// row-major order.
    pub fn from_simple_fn<F: Fn() -> T>(width: i64, height: i64, f: F) -> (g: Grid<T>)
        requires
            valid_dimensions(width, height),
            call_requires(f, ()),
        ensures
            g.spec_width() == width,
            g.spec_height() == height,
            g.cells().len() == width * height,
            forall|k: int| 0 <= k < g.cells().len() ==> call_ensures(f, (), #[trigger] g.cells()[k]),
    {
        let sz = size(width, height);
        let mut data: Vec<T> = Vec::with_capacity(sz);
        while data.len() < sz
            invariant
                call_requires(f, ()),
                data@.len() <= sz,
                forall|k: int| 0 <= k < data@.len() ==> call_ensures(f, (), #[trigger] data@[k]),
            decreases sz - data@.len(),
        {
            data.push(f());
        }
        Grid { data, dim: Vector { x: width, y: height } }
    }

    /// Constructs a new `Grid<T>` with the given dimensions, computing the
    /// cell at each position `p` as `f(p)`, in row-major order.
    pub fn from_fn<F: Fn(Vector) -> T>(width: i64, height: i64, f: F) -> (g: Grid<T>)
        requires
            valid_dimensions(width, height),
            forall|p: Vector|
                in_bounds_dim((Vector { x: width, y: height }), p) ==> call_requires(f, (p,)),
        ensures
            g.spec_width() == width,
            g.spec_height() == height,
            g.cells().len() == width * height,
            forall|k: int|
                0 <= k < g.cells().len() ==> call_ensures(
                    f,
                    (pos_at(g.spec_dim(), k),),
                    #[trigger] g.cells()[k],
                ),
            forall|p: Vector|
                in_bounds_dim((Vector { x: width, y: height }), p) ==> call_ensures(
                    f,
                    (p,),
                    #[trigger] g.spec_cell(p),
                ),
    {
        let dim = Vector { x: width, y: height };
        let sz = size(width, height);
        let mut data: Vec<T> = Vec::with_capacity(sz);
        while data.len() < sz
            invariant
                valid_dimensions(width, height),
                dim == (Vector { x: width, y: height }),
                sz == width * height,
                forall|p: Vector| in_bounds_dim(dim, p) ==> call_requires(f, (p,)),
                data@.len() <= sz,
                forall|k: int|
                    0 <= k < data@.len() ==> call_ensures(
                        f,
                        (pos_at(dim, k),),
                        #[trigger] data@[k],
                    ),
            decreases sz - data@.len(),
        {
            let p = index_position(dim, data.len());
            data.push(f(p));
        }
        proof {
            assert forall|p: Vector| in_bounds_dim(dim, p) implies call_ensures(
                f,
                (p,),
                data@[index_in_dim(dim, p)],
            ) by {
                lemma_row_major_index(dim, p);
            }
        }
        Grid { data, dim }
    }

    /// Maps the cells of an existing grid to create a new grid with the same
    /// dimensions, calling `f` on a reference to each cell in row-major
    /// order.
    pub fn map<U, F: Fn(&T) -> U>(&self, f: F) -> (g: Grid<U>)
        requires
            forall|k: int|
                0 <= k < self.cells().len() ==> call_requires(f, (&self.cells()[k],)),
        ensures
            g.spec_dim() == self.spec_dim(),
            g.cells().len() == self.cells().len(),
            forall|k: int|
                0 <= k < self.cells().len() ==> call_ensures(
                    f,
                    (&self.cells()[k],),
                    #[trigger] g.cells()[k],
                ),
            forall|p: Vector|
                self.spec_in_bounds(p) ==> call_ensures(
                    f,
                    (&self.spec_cell(p),),
                    #[trigger] g.spec_cell(p),
                ),
    {
        proof {
            use_type_invariant(self);
        }
        let mut data: Vec<U> = Vec::with_capacity(self.data.len());
        let mut i: usize = 0;
        while i < self.data.len()
            invariant
                forall|k: int|
                    0 <= k < self.cells().len() ==> call_requires(f, (&self.cells()[k],)),
                i == data@.len() <= self.data@.len(),
                forall|k: int|
                    0 <= k < data@.len() ==> call_ensures(
                        f,
                        (&self.cells()[k],),
                        #[trigger] data@[k],
                    ),
            decreases self.data@.len() - i,
        {
            proof {
                assert(call_requires(f, (&self.cells()[i as int],)));
            }
            data.push(f(&self.data[i]));
            i += 1;
        }
        proof {
            use_type_invariant(self);
            assert forall|p: Vector| self.spec_in_bounds(p) implies call_ensures(
                f,
                (&self.spec_cell(p),),
                data@[self.spec_index_of(p)],
            ) by {
                lemma_row_major_index(self.spec_dim(), p);
            }
        }
        Grid { data, dim: self.dim }
    }

    /// Maps the cells of an existing grid to create a new grid with the same
    /// dimensions, calling `f` on each position and a reference to the cell
    /// at that position, in row-major order.
    pub fn pos_map<U, F: Fn(Vector, &T) -> U>(&self, f: F) -> (g: Grid<U>)
        requires
            forall|p: Vector| #![trigger self.spec_cell(p)]
                self.spec_in_bounds(p) ==> call_requires(f, (p, &self.spec_cell(p))),
        ensures
            g.spec_dim() == self.spec_dim(),
            g.cells().len() == self.cells().len(),
            forall|p: Vector|
                self.spec_in_bounds(p) ==> call_ensures(
                    f,
                    (p, &self.spec_cell(p)),
                    #[trigger] g.spec_cell(p),
                ),
            forall|k: int|
                0 <= k < self.cells().len() ==> call_ensures(
                    f,
                    (pos_at(self.spec_dim(), k), &self.cells()[k]),
                    #[trigger] g.cells()[k],
                ),
    {
        proof {
            use_type_invariant(self);
        }
        let ghost dim = self.spec_dim();
        let mut data: Vec<U> = Vec::with_capacity(self.data.len());
        let mut i: usize = 0;
        while i < self.data.len()
            invariant
                self.wf(),
                dim == self.spec_dim(),
                forall|p: Vector| #![trigger self.spec_cell(p)]
                    self.spec_in_bounds(p) ==> call_requires(f, (p, &self.spec_cell(p))),
                i == data@.len() <= self.data@.len(),
                forall|k: int|
                    0 <= k < data@.len() ==> call_ensures(
                        f,
                        (pos_at(dim, k), &self.cells()[k]),
                        #[trigger] data@[k],
                    ),
            decreases self.data@.len() - i,
        {
            let p = index_position(self.dim, i);
            proof {
                assert(self.spec_cell(p) == self.cells()[i as int]);
                assert(call_requires(f, (p, &self.spec_cell(p))));
            }
            data.push(f(p, &self.data[i]));
            i += 1;
        }
        proof {
            assert forall|p: Vector| self.spec_in_bounds(p) implies call_ensures(
                f,
                (p, &self.spec_cell(p)),
                data@[self.spec_index_of(p)],
            ) by {
                lemma_row_major_index(dim, p);
            }
        }
        Grid { data, dim: self.dim }
    }
}

/// Setting the cell at an in-bounds position and then reading the buffer
/// back finds the new value there, and every other in-bounds position
/// untouched.
pub proof fn lemma_set_roundtrip<T>(cells: Seq<T>, dim: Vector, pos: Vector, value: T)
    requires
        0 < dim.x,
        0 < dim.y,
        cells.len() == dim.x * dim.y,
        in_bounds_dim(dim, pos),
    ensures
        cells.update(index_in_dim(dim, pos), value)[index_in_dim(dim, pos)] == value,
        forall|q: Vector|
            in_bounds_dim(dim, q) && q != pos ==> cells.update(index_in_dim(dim, pos), value)[
                index_in_dim(dim, q)
            ] == cells[index_in_dim(dim, q)],
{
    lemma_row_major_index(dim, pos);
    assert forall|q: Vector| in_bounds_dim(dim, q) && q != pos implies cells.update(
        index_in_dim(dim, pos),
        value,
    )[index_in_dim(dim, q)] == cells[index_in_dim(dim, q)] by {
        lemma_row_major_index(dim, q);
        if index_in_dim(dim, q) == index_in_dim(dim, pos) {
            lemma_index_in_dim_injective(dim, pos, q);
        }
    }
}

} // verus!
