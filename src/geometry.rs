use vstd::prelude::*;

verus! {

/// A corner of the full-screen quad in normalized device coordinates, on
/// the plane z = 0. Each coordinate is -1 or 1.
#[derive(Debug, Clone, Copy, PartialEq, Eq)]
pub struct QuadCorner {
    pub x: i8,
    pub y: i8,
}

/// The corners of the full-screen quad, in vertex order.
pub open spec fn quad_corners() -> Seq<QuadCorner> {
    seq![
        QuadCorner { x: -1i8, y: -1i8 },
        QuadCorner { x: -1i8, y: 1i8 },
        QuadCorner { x: 1i8, y: -1i8 },
        QuadCorner { x: 1i8, y: 1i8 },
    ]}

/// Two triangles over the four corners, with a fixed winding.
pub open spec fn quad_indices() -> Seq<u16> {
    seq![2u16, 1, 0, 3, 1, 2]
}

/// The static full-screen quad mesh: four vertices, two triangles.
pub fn fullscreen_quad() -> (r: (Vec<QuadCorner>, Vec<u16>))
    ensures
        r.0@ == quad_corners(),
        r.1@ == quad_indices(),
        forall|i: int| 0 <= i < r.1@.len() ==> (r.1@[i] as int) < r.0@.len(),
{
    let vertices = vec![
        QuadCorner { x: -1, y: -1 },
        QuadCorner { x: -1, y: 1 },
        QuadCorner { x: 1, y: -1 },
        QuadCorner { x: 1, y: 1 },
    ];
    let indices: Vec<u16> = vec![2, 1, 0, 3, 1, 2];
    proof {
        assert(vertices@ =~= quad_corners());
        assert(indices@ =~= quad_indices());
    }
    (vertices, indices)
}

} // verus!
