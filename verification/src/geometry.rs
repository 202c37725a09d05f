//! The static full-screen quad.
//!
//! Six vertices, two triangles, covering the normalized device
//! coordinate square from -1 to 1 on both axes. Built once at startup
//! and never mutated; the caller widens each coordinate to its GPU
//! vertex format.

use vstd::prelude::*;

verus! {

/// How many vertices one draw over the quad covers.
pub const QUAD_VERTEX_COUNT: usize = 6;

/// The quad's vertices in order: the lower-left triangle, then the
/// upper-right one, each coordinate -1 or 1.
pub fn quad_vertices() -> (v: Vec<(i8, i8)>)
    ensures
        v@ == seq![
            (-1i8, -1i8),
            (1i8, -1i8),
            (-1i8, 1i8),
            (1i8, -1i8),
            (1i8, 1i8),
            (-1i8, 1i8),
        ],
        v@.len() == QUAD_VERTEX_COUNT,
        forall|i: int|
            0 <= i < v@.len() ==> (v@[i].0 == -1 || v@[i].0 == 1) && (v@[i].1 == -1 || v@[i].1
                == 1),
{
    let mut v: Vec<(i8, i8)> = Vec::new();
    v.push((-1, -1));
    v.push((1, -1));
    v.push((-1, 1));
    v.push((1, -1));
    v.push((1, 1));
    v.push((-1, 1));
    proof {
        assert(v@ =~= seq![
            (-1i8, -1i8),
            (1i8, -1i8),
            (-1i8, 1i8),
            (1i8, -1i8),
            (1i8, 1i8),
            (-1i8, 1i8),
        ]);
    }
    v
}

} // verus!
