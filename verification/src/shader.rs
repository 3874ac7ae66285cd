//! The vertex stage: a triangle that covers the whole viewport, its corners
//! told by the vertex index alone.

use vstd::prelude::*;

verus! {

/// The corner of the full-screen triangle that the vertex index `vert_id`
/// stands for, in clip space: the horizontal position goes by the lowest bit
/// of the index and the vertical one by the bit above it, each -1 where the
/// bit is clear and 3 where it is set.
pub open spec fn corner(vert_id: i32) -> (int, int) {
    (
        if vert_id & 1 != 0 {
            3
        } else {
            -1
        },
        if vert_id & 2 != 0 {
            3
        } else {
            -1
        },
    )
}

/// The clip-space position of the vertex `vert_id`, at depth 0.
pub fn main_vs(vert_id: i32) -> (out_pos: (i32, i32))
    ensures
        (out_pos.0 as int, out_pos.1 as int) == corner(vert_id),
{
    assert((vert_id & 1 == 0 || vert_id & 1 == 1) && (vert_id & 2 == 0 || vert_id & 2 == 2))
        by (bit_vector);
    let uv_x: i32 = (vert_id & 1) * 2;
    let uv_y: i32 = vert_id & 2;
    (2 * uv_x - 1, 2 * uv_y - 1)
}

/// The vertices 0, 1 and 2 are the corners (-1, -1), (3, -1) and (-1, 3),
/// and the triangle between them covers the whole clip square: every point
/// with both coordinates from -1 to 1 lies on the inner side of its three
/// edges.
pub proof fn lemma_triangle_covers_viewport(x: int, y: int)
    requires
        -1 <= x <= 1,
        -1 <= y <= 1,
    ensures
        corner(0) == (-1int, -1int),
        corner(1) == (3int, -1int),
        corner(2) == (-1int, 3int),
        x >= corner(0).0,
        y >= corner(0).1,
        x + y <= corner(1).0 + corner(1).1,
        x + y <= corner(2).0 + corner(2).1,
{
    assert(0i32 & 1 == 0 && 0i32 & 2 == 0) by (bit_vector);
    assert(1i32 & 1 != 0 && 1i32 & 2 == 0) by (bit_vector);
    assert(2i32 & 1 == 0 && 2i32 & 2 != 0) by (bit_vector);
}

} // verus!
