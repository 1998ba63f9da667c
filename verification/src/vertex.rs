//! The unit cube mesh shared by every voxel.
//!
//! Vertex positions are homogeneous with unit w, and all coordinates are the
//! exact integers -1, 0 or 1, so they are carried as plain bytes; the
//! graphics layer widens them to the GPU vertex format. The cube has four
//! vertices per face and 6 x 2 x 3 = 36 indices.
use vstd::prelude::*;

verus! {

/// One mesh vertex: a homogeneous position and a texture coordinate.
#[derive(Clone, Copy, PartialEq, Eq, Structural, Debug)]
pub struct Vertex {
    pub pos_x: i8,
    pub pos_y: i8,
    pub pos_z: i8,
    pub pos_w: i8,
    pub tex_u: i8,
    pub tex_v: i8,
}

/// A vertex at the given position with unit w.
pub open spec fn vertex_s(x: i8, y: i8, z: i8, u: i8, v: i8) -> Vertex {
    Vertex { pos_x: x, pos_y: y, pos_z: z, pos_w: 1, tex_u: u, tex_v: v }
}

/// A vertex at the given position with unit w.
pub(crate) fn vertex(x: i8, y: i8, z: i8, u: i8, v: i8) -> (r: Vertex)
    ensures
        r == vertex_s(x, y, z, u, v),
{
    Vertex { pos_x: x, pos_y: y, pos_z: z, pos_w: 1, tex_u: u, tex_v: v }
}

/// The 24 vertices of the unit cube, four per face.
pub open spec fn cube_vertices_spec() -> Seq<Vertex> {
    seq![
        // top
        vertex_s(-1i8, -1i8, 1i8, 0i8, 0i8),
        vertex_s(1i8, -1i8, 1i8, 1i8, 0i8),
        vertex_s(1i8, 1i8, 1i8, 1i8, 1i8),
        vertex_s(-1i8, 1i8, 1i8, 0i8, 1i8),
        // bottom
        vertex_s(-1i8, 1i8, -1i8, 1i8, 0i8),
        vertex_s(1i8, 1i8, -1i8, 0i8, 0i8),
        vertex_s(1i8, -1i8, -1i8, 0i8, 1i8),
        vertex_s(-1i8, -1i8, -1i8, 1i8, 1i8),
        // right
        vertex_s(1i8, -1i8, -1i8, 0i8, 0i8),
        vertex_s(1i8, 1i8, -1i8, 1i8, 0i8),
        vertex_s(1i8, 1i8, 1i8, 1i8, 1i8),
        vertex_s(1i8, -1i8, 1i8, 0i8, 1i8),
        // left
        vertex_s(-1i8, -1i8, 1i8, 1i8, 0i8),
        vertex_s(-1i8, 1i8, 1i8, 0i8, 0i8),
        vertex_s(-1i8, 1i8, -1i8, 0i8, 1i8),
        vertex_s(-1i8, -1i8, -1i8, 1i8, 1i8),
        // front
        vertex_s(1i8, 1i8, -1i8, 1i8, 0i8),
        vertex_s(-1i8, 1i8, -1i8, 0i8, 0i8),
        vertex_s(-1i8, 1i8, 1i8, 0i8, 1i8),
        vertex_s(1i8, 1i8, 1i8, 1i8, 1i8),
        // back
        vertex_s(1i8, -1i8, 1i8, 0i8, 0i8),
        vertex_s(-1i8, -1i8, 1i8, 1i8, 0i8),
        vertex_s(-1i8, -1i8, -1i8, 1i8, 1i8),
        vertex_s(1i8, -1i8, -1i8, 0i8, 1i8),
    ]
}

/// The 36 indices of the unit cube: two triangles for each face.
pub open spec fn cube_indices_spec() -> Seq<u16> {
    seq![
        0, 1, 2, 2, 3, 0,  // top
        4, 5, 6, 6, 7, 4,  // bottom
        8, 9, 10, 10, 11, 8,  // right
        12, 13, 14, 14, 15, 12,  // left
        16, 17, 18, 18, 19, 16,  // front
        20, 21, 22, 22, 23, 20,  // back
    ]
}

/// Build the cube vertex list.
pub fn cube_vertices() -> (r: Vec<Vertex>)
    ensures
        r@ =~= cube_vertices_spec(),
        r@.len() == 24,
{
    let mut r: Vec<Vertex> = Vec::new();
    // top
    r.push(vertex(-1i8, -1i8, 1i8, 0i8, 0i8));
    r.push(vertex(1i8, -1i8, 1i8, 1i8, 0i8));
    r.push(vertex(1i8, 1i8, 1i8, 1i8, 1i8));
    r.push(vertex(-1i8, 1i8, 1i8, 0i8, 1i8));
    // bottom
    r.push(vertex(-1i8, 1i8, -1i8, 1i8, 0i8));
    r.push(vertex(1i8, 1i8, -1i8, 0i8, 0i8));
    r.push(vertex(1i8, -1i8, -1i8, 0i8, 1i8));
    r.push(vertex(-1i8, -1i8, -1i8, 1i8, 1i8));
    // right
    r.push(vertex(1i8, -1i8, -1i8, 0i8, 0i8));
    r.push(vertex(1i8, 1i8, -1i8, 1i8, 0i8));
    r.push(vertex(1i8, 1i8, 1i8, 1i8, 1i8));
    r.push(vertex(1i8, -1i8, 1i8, 0i8, 1i8));
    // left
    r.push(vertex(-1i8, -1i8, 1i8, 1i8, 0i8));
    r.push(vertex(-1i8, 1i8, 1i8, 0i8, 0i8));
    r.push(vertex(-1i8, 1i8, -1i8, 0i8, 1i8));
    r.push(vertex(-1i8, -1i8, -1i8, 1i8, 1i8));
    // front
    r.push(vertex(1i8, 1i8, -1i8, 1i8, 0i8));
    r.push(vertex(-1i8, 1i8, -1i8, 0i8, 0i8));
    r.push(vertex(-1i8, 1i8, 1i8, 0i8, 1i8));
    r.push(vertex(1i8, 1i8, 1i8, 1i8, 1i8));
    // back
    r.push(vertex(1i8, -1i8, 1i8, 0i8, 0i8));
    r.push(vertex(-1i8, -1i8, 1i8, 1i8, 0i8));
    r.push(vertex(-1i8, -1i8, -1i8, 1i8, 1i8));
    r.push(vertex(1i8, -1i8, -1i8, 0i8, 1i8));
    r
}

/// Build the cube index list.
pub fn cube_indices() -> (r: Vec<u16>)
    ensures
        r@ =~= cube_indices_spec(),
        r@.len() == 36,
{
    let mut r: Vec<u16> = Vec::new();
    r.push(0); r.push(1); r.push(2); r.push(2); r.push(3); r.push(0);  // top
    r.push(4); r.push(5); r.push(6); r.push(6); r.push(7); r.push(4);  // bottom
    r.push(8); r.push(9); r.push(10); r.push(10); r.push(11); r.push(8);  // right
    r.push(12); r.push(13); r.push(14); r.push(14); r.push(15); r.push(12);  // left
    r.push(16); r.push(17); r.push(18); r.push(18); r.push(19); r.push(16);  // front
    r.push(20); r.push(21); r.push(22); r.push(22); r.push(23); r.push(20);  // back
    r
}

} // verus!
