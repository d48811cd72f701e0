//! Coordinate normalizer: translates a decoded vertex set so that the
//! minimum x and the minimum y become exactly zero, preserving every
//! relative distance. The shift is computed in 32-bit signed space, and
//! the output carries 32-bit coordinates, since a difference of two
//! 16-bit coordinates can exceed the 16-bit range.

use crate::wad::Vertex;
use crate::WadError;
use vstd::prelude::*;

verus! {

/// A vertex translated so that the whole set's minimum x and y are zero.
/// Coordinates are widened to 32 bits: a shifted coordinate can be as
/// large as 65535, beyond the signed 16-bit range.
#[derive(Clone, Copy, Debug, PartialEq, Eq, Structural)]
pub struct NormalizedVertex {
    pub x: i32,
    pub y: i32,
}

/// Translates every vertex by the sequence's minimum x and minimum y: a
/// pure translation producing a new sequence of equal length whose
/// minimum x and minimum y are exactly zero and whose relative vertex
/// positions all equal those of the input. Fails with `EmptyInput`
/// exactly on an empty sequence, whose minimum is undefined.
pub fn normalize(vertices: &Vec<Vertex>) -> (r: Result<Vec<NormalizedVertex>, WadError>)
    ensures
        match r {
            Ok(out) => {
                &&& vertices@.len() > 0
                &&& out@.len() == vertices@.len()
                &&& forall|i: int|
                    0 <= i < out@.len() ==> (#[trigger] out@[i]).x >= 0 && out@[i].y >= 0
                &&& exists|i: int| 0 <= i < out@.len() && (#[trigger] out@[i]).x == 0
                &&& exists|i: int| 0 <= i < out@.len() && (#[trigger] out@[i]).y == 0
                &&& forall|i: int, j: int|
                    0 <= i < out@.len() && 0 <= j < out@.len() ==> {
                        &&& (#[trigger] out@[i]).x - (#[trigger] out@[j]).x == vertices@[i].x
                            - vertices@[j].x
                        &&& out@[i].y - out@[j].y == vertices@[i].y - vertices@[j].y
                    }
            },
            Err(e) => e == WadError::EmptyInput && vertices@.len() == 0,
        },
{
    let n: usize = vertices.len();
    if n == 0 {
        return Err(WadError::EmptyInput);
    }
    let mut min_x: i16 = vertices[0].x;
    let mut min_y: i16 = vertices[0].y;
    let ghost mut wx: int = 0;
    let ghost mut wy: int = 0;
    let mut i: usize = 1;
    while i < n
        invariant
            1 <= i <= n,
            n == vertices@.len(),
            0 <= wx < i,
            0 <= wy < i,
            vertices@[wx].x == min_x,
            vertices@[wy].y == min_y,
            forall|j: int| 0 <= j < i ==> (#[trigger] vertices@[j]).x >= min_x,
            forall|j: int| 0 <= j < i ==> (#[trigger] vertices@[j]).y >= min_y,
        decreases n - i,
    {
        if vertices[i].x < min_x {
            min_x = vertices[i].x;
            proof {
                wx = i as int;
            }
        }
        if vertices[i].y < min_y {
            min_y = vertices[i].y;
            proof {
                wy = i as int;
            }
        }
        i = i + 1;
    }
    let mut out: Vec<NormalizedVertex> = Vec::new();
    let mut k: usize = 0;
    while k < n
        invariant
            k <= n,
            n == vertices@.len(),
            out@.len() == k,
            forall|j: int|
                0 <= j < k ==> {
                    &&& (#[trigger] out@[j]).x == vertices@[j].x - min_x
                    &&& out@[j].y == vertices@[j].y - min_y
                },
        decreases n - k,
    {
        out.push(
            NormalizedVertex {
                x: vertices[k].x as i32 - min_x as i32,
                y: vertices[k].y as i32 - min_y as i32,
            },
        );
        k = k + 1;
    }
    proof {
        assert(out@[wx].x == 0);
        assert(out@[wy].y == 0);
    }
    Ok(out)
}

} // verus!
