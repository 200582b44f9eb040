use vstd::prelude::*;

verus! {

/// One vertex of the background quad: clip-space position `(x, y)` and
/// texture coordinate `(u, v)`. All values are whole numbers in `-1..=1`.
#[derive(Clone, Copy, Debug, PartialEq, Eq, Structural)]
pub struct Vertex {
    pub x: i8,
    pub y: i8,
    pub u: i8,
    pub v: i8,
}

pub open spec fn vtx(x: int, y: int, u: int, v: int) -> Vertex {
    Vertex { x: x as i8, y: y as i8, u: u as i8, v: v as i8 }
}

/// The two triangles covering clip space from `(-1, -1)` to `(1, 1)`, with the
/// image's top-left texel at the top-left corner of the viewport.
pub open spec fn quad_spec() -> Seq<Vertex> {
    seq![
        vtx(-1, 1, 0, 0),
        vtx(1, 1, 1, 0),
        vtx(1, -1, 1, 1),
        vtx(1, -1, 1, 1),
        vtx(-1, -1, 0, 1),
        vtx(-1, 1, 0, 0),
    ]
}

/// Number of vertices in the quad.
pub const QUAD_VERTEX_COUNT: usize = 6;

/// Builds the fixed quad.
pub fn quad_vertices() -> (r: [Vertex; 6])
    ensures
        r@ == quad_spec(),
{
    let r = [
        Vertex { x: -1, y: 1, u: 0, v: 0 },
        Vertex { x: 1, y: 1, u: 1, v: 0 },
        Vertex { x: 1, y: -1, u: 1, v: 1 },
        Vertex { x: 1, y: -1, u: 1, v: 1 },
        Vertex { x: -1, y: -1, u: 0, v: 1 },
        Vertex { x: -1, y: 1, u: 0, v: 0 },
    ];
    assert(r@ =~= quad_spec());
    r
}

/// A position of the quad is a corner of clip space, and its texture
/// coordinate is that corner mapped into the unit square (`v` grows downwards).
pub open spec fn corner_vertex(p: Vertex) -> bool {
    &&& (p.x == -1 || p.x == 1)
    &&& (p.y == -1 || p.y == 1)
    &&& 2 * p.u == p.x + 1
    &&& 2 * p.v == 1 - p.y
}

/// The quad has six vertices, two triangles, each vertex a clip-space corner
/// with its matching texture coordinate, and both the `(-1, -1)` and the
/// `(1, 1)` corners occur: together the triangles span the whole viewport.
pub proof fn lemma_quad_spans_clip_space()
    ensures
        quad_spec().len() == QUAD_VERTEX_COUNT,
        QUAD_VERTEX_COUNT == 2 * 3,
        forall|i: int| 0 <= i < quad_spec().len() ==> corner_vertex(#[trigger] quad_spec()[i]),
        exists|i: int| 0 <= i < quad_spec().len() && quad_spec()[i].x == -1 && quad_spec()[i].y == -1,
        exists|i: int| 0 <= i < quad_spec().len() && quad_spec()[i].x == 1 && quad_spec()[i].y == 1,
{
    let q = quad_spec();
    assert(q[4].x == -1 && q[4].y == -1);
    assert(q[1].x == 1 && q[1].y == 1);
}

} // verus!
