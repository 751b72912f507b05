//! Procedural mesh generation.
//!
//! Pure, deterministic vertex-list builders for primitive shapes.  Callers
//! own the result, and regenerating a shape yields the same vertex sequence,
//! so render items may rebuild their geometry at any time.

use vstd::prelude::*;
use crate::math::Rat;
use crate::types::Vertex;

verus! {

/// The rational holding the integer `i`.
pub open spec fn cv(i: int) -> Rat {
    Rat { n: i as i128, d: 1 }
}

/// A vertex from integer position, normal and texture coordinates.
pub open spec fn vert_s(px: int, py: int, pz: int, nx: int, ny: int, nz: int, tu: int, tv: int) -> Vertex {
    Vertex {
        position: (cv(px), cv(py), cv(pz)),
        normal: (cv(nx), cv(ny), cv(nz)),
        texture: (cv(tu), cv(tv)),
    }
}

/// Build a vertex from small integer coordinates.
fn vert(px: i64, py: i64, pz: i64, nx: i64, ny: i64, nz: i64, tu: i64, tv: i64) -> (r: Vertex)
    ensures
        r == vert_s(px as int, py as int, pz as int, nx as int, ny as int, nz as int, tu as int, tv as int),
{
    Vertex {
        position: (
            Rat { n: px as i128, d: 1 },
            Rat { n: py as i128, d: 1 },
            Rat { n: pz as i128, d: 1 },
        ),
        normal: (
            Rat { n: nx as i128, d: 1 },
            Rat { n: ny as i128, d: 1 },
            Rat { n: nz as i128, d: 1 },
        ),
        texture: (Rat { n: tu as i128, d: 1 }, Rat { n: tv as i128, d: 1 }),
    }
}

/// The thirty-six vertices of the unit cube: six faces, two triangles each,
/// with per-face normals and texture coordinates.
pub open spec fn cube_mesh() -> Seq<Vertex> {
    seq![
        vert_s(0, 0, 1, 0, 0, 1, 0, 0),
        vert_s(1, 0, 1, 0, 0, 1, 1, 0),
        vert_s(1, 1, 1, 0, 0, 1, 1, 1),
        vert_s(0, 0, 1, 0, 0, 1, 0, 0),
        vert_s(1, 1, 1, 0, 0, 1, 1, 1),
        vert_s(0, 1, 1, 0, 0, 1, 0, 1),
        vert_s(1, 0, 0, 0, 0, -1, 0, 0),
        vert_s(0, 0, 0, 0, 0, -1, 1, 0),
        vert_s(0, 1, 0, 0, 0, -1, 1, 1),
        vert_s(1, 0, 0, 0, 0, -1, 0, 0),
        vert_s(0, 1, 0, 0, 0, -1, 1, 1),
        vert_s(1, 1, 0, 0, 0, -1, 0, 1),
        vert_s(1, 0, 1, 1, 0, 0, 0, 0),
        vert_s(1, 0, 0, 1, 0, 0, 1, 0),
        vert_s(1, 1, 0, 1, 0, 0, 1, 1),
        vert_s(1, 0, 1, 1, 0, 0, 0, 0),
        vert_s(1, 1, 0, 1, 0, 0, 1, 1),
        vert_s(1, 1, 1, 1, 0, 0, 0, 1),
        vert_s(0, 0, 0, -1, 0, 0, 0, 0),
        vert_s(0, 0, 1, -1, 0, 0, 1, 0),
        vert_s(0, 1, 1, -1, 0, 0, 1, 1),
        vert_s(0, 0, 0, -1, 0, 0, 0, 0),
        vert_s(0, 1, 1, -1, 0, 0, 1, 1),
        vert_s(0, 1, 0, -1, 0, 0, 0, 1),
        vert_s(0, 1, 1, 0, 1, 0, 0, 0),
        vert_s(1, 1, 1, 0, 1, 0, 1, 0),
        vert_s(1, 1, 0, 0, 1, 0, 1, 1),
        vert_s(0, 1, 1, 0, 1, 0, 0, 0),
        vert_s(1, 1, 0, 0, 1, 0, 1, 1),
        vert_s(0, 1, 0, 0, 1, 0, 0, 1),
        vert_s(0, 0, 0, 0, -1, 0, 0, 0),
        vert_s(1, 0, 0, 0, -1, 0, 1, 0),
        vert_s(1, 0, 1, 0, -1, 0, 1, 1),
        vert_s(0, 0, 0, 0, -1, 0, 0, 0),
        vert_s(1, 0, 1, 0, -1, 0, 1, 1),
        vert_s(0, 0, 1, 0, -1, 0, 0, 1),
    ]
}

/// Generate the unit cube's vertex list: six faces of two triangles each,
/// per-face normals, corner texture coordinates.  The result is exactly
/// [`cube_mesh`], so regenerating the cube yields the identical sequence.
#[verifier::rlimit(50)]
pub fn gen_cube() -> (r: Vec<Vertex>)
    ensures
        r@ == cube_mesh(),
{
    let mut v: Vec<Vertex> = Vec::new();
    v.push(vert(0, 0, 1, 0, 0, 1, 0, 0));
    v.push(vert(1, 0, 1, 0, 0, 1, 1, 0));
    v.push(vert(1, 1, 1, 0, 0, 1, 1, 1));
    v.push(vert(0, 0, 1, 0, 0, 1, 0, 0));
    v.push(vert(1, 1, 1, 0, 0, 1, 1, 1));
    v.push(vert(0, 1, 1, 0, 0, 1, 0, 1));
    v.push(vert(1, 0, 0, 0, 0, -1, 0, 0));
    v.push(vert(0, 0, 0, 0, 0, -1, 1, 0));
    v.push(vert(0, 1, 0, 0, 0, -1, 1, 1));
    v.push(vert(1, 0, 0, 0, 0, -1, 0, 0));
    v.push(vert(0, 1, 0, 0, 0, -1, 1, 1));
    v.push(vert(1, 1, 0, 0, 0, -1, 0, 1));
    v.push(vert(1, 0, 1, 1, 0, 0, 0, 0));
    v.push(vert(1, 0, 0, 1, 0, 0, 1, 0));
    v.push(vert(1, 1, 0, 1, 0, 0, 1, 1));
    v.push(vert(1, 0, 1, 1, 0, 0, 0, 0));
    v.push(vert(1, 1, 0, 1, 0, 0, 1, 1));
    v.push(vert(1, 1, 1, 1, 0, 0, 0, 1));
    v.push(vert(0, 0, 0, -1, 0, 0, 0, 0));
    v.push(vert(0, 0, 1, -1, 0, 0, 1, 0));
    v.push(vert(0, 1, 1, -1, 0, 0, 1, 1));
    v.push(vert(0, 0, 0, -1, 0, 0, 0, 0));
    v.push(vert(0, 1, 1, -1, 0, 0, 1, 1));
    v.push(vert(0, 1, 0, -1, 0, 0, 0, 1));
    v.push(vert(0, 1, 1, 0, 1, 0, 0, 0));
    v.push(vert(1, 1, 1, 0, 1, 0, 1, 0));
    v.push(vert(1, 1, 0, 0, 1, 0, 1, 1));
    v.push(vert(0, 1, 1, 0, 1, 0, 0, 0));
    v.push(vert(1, 1, 0, 0, 1, 0, 1, 1));
    v.push(vert(0, 1, 0, 0, 1, 0, 0, 1));
    v.push(vert(0, 0, 0, 0, -1, 0, 0, 0));
    v.push(vert(1, 0, 0, 0, -1, 0, 1, 0));
    v.push(vert(1, 0, 1, 0, -1, 0, 1, 1));
    v.push(vert(0, 0, 0, 0, -1, 0, 0, 0));
    v.push(vert(1, 0, 1, 0, -1, 0, 1, 1));
    v.push(vert(0, 0, 1, 0, -1, 0, 0, 1));
    proof {
        assert(v@ =~= cube_mesh());
    }
    v
}

/// Mesh generation is restartable: any two vertex lists that are the cube
/// mesh are the same sequence, element for element — two calls of
/// [`gen_cube`] agree exactly.
pub proof fn lemma_gen_cube_deterministic(a: Seq<Vertex>, b: Seq<Vertex>)
    requires
        a == cube_mesh(),
        b == cube_mesh(),
    ensures
        a == b,
{
}

} // verus!
