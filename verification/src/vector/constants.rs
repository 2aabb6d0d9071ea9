//! Useful `Vector` values for traversing 2D space.
//!
//! The cardinal directions follow the screen convention (`y` grows downward),
//! so `north` has a `y` component of `-1`.

use vstd::prelude::*;

verus! {

use crate::vector::Vector;

/// The zero vector `(0, 0)`, the identity for vector addition.
pub fn zero() -> (v: Vector)
    ensures
        v == (Vector { x: 0i64, y: 0i64 }),
{
    Vector { x: 0, y: 0 }
}

/// One step east: `(1, 0)`.
pub fn east() -> (v: Vector)
    ensures
        v == (Vector { x: 1i64, y: 0i64 }),
{
    Vector { x: 1, y: 0 }
}

/// One step north: `(0, -1)`.
pub fn north() -> (v: Vector)
    ensures
        v == (Vector { x: 0i64, y: -1i64 }),
{
    Vector { x: 0, y: -1 }
}

/// One step west: `(-1, 0)`.
pub fn west() -> (v: Vector)
    ensures
        v == (Vector { x: -1i64, y: 0i64 }),
{
    Vector { x: -1, y: 0 }
}

/// One step south: `(0, 1)`.
pub fn south() -> (v: Vector)
    ensures
        v == (Vector { x: 0i64, y: 1i64 }),
{
    Vector { x: 0, y: 1 }
}

/// One step north-east: `(1, -1)`.
pub fn north_east() -> (v: Vector)
    ensures
        v == (Vector { x: 1i64, y: -1i64 }),
{
    Vector { x: 1, y: -1 }
}

/// One step north-west: `(-1, -1)`.
pub fn north_west() -> (v: Vector)
    ensures
        v == (Vector { x: -1i64, y: -1i64 }),
{
    Vector { x: -1, y: -1 }
}

/// One step south-west: `(-1, 1)`.
pub fn south_west() -> (v: Vector)
    ensures
        v == (Vector { x: -1i64, y: 1i64 }),
{
    Vector { x: -1, y: 1 }
}

/// One step south-east: `(1, 1)`.
pub fn south_east() -> (v: Vector)
    ensures
        v == (Vector { x: 1i64, y: 1i64 }),
{
    Vector { x: 1, y: 1 }
}

/// The four cardinal offsets, in the order east, north, west, south.
pub fn orthogonal() -> (a: [Vector; 4])
    ensures
        a@ =~= seq![
            (Vector { x: 1i64, y: 0i64 }),
            (Vector { x: 0i64, y: -1i64 }),
            (Vector { x: -1i64, y: 0i64 }),
            (Vector { x: 0i64, y: 1i64 }),
        ],
{
    [east(), north(), west(), south()]
}

/// The four diagonal offsets, in the order north-east, north-west,
/// south-west, south-east.
pub fn diagonal() -> (a: [Vector; 4])
    ensures
        a@ =~= seq![
            (Vector { x: 1i64, y: -1i64 }),
            (Vector { x: -1i64, y: -1i64 }),
            (Vector { x: -1i64, y: 1i64 }),
            (Vector { x: 1i64, y: 1i64 }),
        ],
{
    [north_east(), north_west(), south_west(), south_east()]
}

/// All eight neighbouring offsets, counter-clockwise from east.
pub fn adjacent() -> (a: [Vector; 8])
    ensures
        a@ =~= seq![
            (Vector { x: 1i64, y: 0i64 }),
            (Vector { x: 1i64, y: -1i64 }),
            (Vector { x: 0i64, y: -1i64 }),
            (Vector { x: -1i64, y: -1i64 }),
            (Vector { x: -1i64, y: 0i64 }),
            (Vector { x: -1i64, y: 1i64 }),
            (Vector { x: 0i64, y: 1i64 }),
            (Vector { x: 1i64, y: 1i64 }),
        ],
{
    [east(), north_east(), north(), north_west(), west(), south_west(), south(), south_east()]
}

/// The four cardinal offsets preceded by the zero offset.
pub fn orthogonal_zero() -> (a: [Vector; 5])
    ensures
        a@ =~= seq![
            (Vector { x: 0i64, y: 0i64 }),
            (Vector { x: 1i64, y: 0i64 }),
            (Vector { x: 0i64, y: -1i64 }),
            (Vector { x: -1i64, y: 0i64 }),
            (Vector { x: 0i64, y: 1i64 }),
        ],
{
    [zero(), east(), north(), west(), south()]
}

/// The four diagonal offsets preceded by the zero offset.
pub fn diagonal_zero() -> (a: [Vector; 5])
    ensures
        a@ =~= seq![
            (Vector { x: 0i64, y: 0i64 }),
            (Vector { x: 1i64, y: -1i64 }),
            (Vector { x: -1i64, y: -1i64 }),
            (Vector { x: -1i64, y: 1i64 }),
            (Vector { x: 1i64, y: 1i64 }),
        ],
{
    [zero(), north_east(), north_west(), south_west(), south_east()]
}

/// All eight neighbouring offsets preceded by the zero offset.
pub fn adjacent_zero() -> (a: [Vector; 9])
    ensures
        a@ =~= seq![
            (Vector { x: 0i64, y: 0i64 }),
            (Vector { x: 1i64, y: 0i64 }),
            (Vector { x: 1i64, y: -1i64 }),
            (Vector { x: 0i64, y: -1i64 }),
            (Vector { x: -1i64, y: -1i64 }),
            (Vector { x: -1i64, y: 0i64 }),
            (Vector { x: -1i64, y: 1i64 }),
            (Vector { x: 0i64, y: 1i64 }),
            (Vector { x: 1i64, y: 1i64 }),
        ],
{
    [zero(), east(), north_east(), north(), north_west(), west(), south_west(), south(),
        south_east()]
}

} // verus!
