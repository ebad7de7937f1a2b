//! Vertex data and the per-frame matrix set.
//!
//! The scene is a unit cube centered on the origin, drawn as 36 vertices —
//! two triangles per face — each carrying the face normal and one shared
//! base color. The table is built here with an exact contract; the driver
//! converts the fixed-point values to floats and uploads them once into a
//! static vertex buffer.

use crate::light::Rgb;
use crate::mat::{Mat4, Vec3};
use vstd::prelude::*;

verus! {

/// One vertex of the scene: position, surface normal and base color, in
/// fixed point.
#[derive(Clone, Copy, Debug, PartialEq, Eq, Structural)]
pub struct Vertex {
    pub position: Vec3,
    pub normal: Vec3,
    pub color: Rgb,
}

/// The model, view and projection matrices uploaded together as one uniform
/// block.
#[derive(Clone, Debug)]
pub struct MVP {
    pub model: Mat4,
    pub view: Mat4,
    pub projection: Mat4,
}

impl MVP {
    /// A fresh matrix set: all three matrices start as the identity.
    pub fn new() -> (mvp: MVP)
        ensures
            mvp.model.wf(),
            mvp.model.is_identity(),
            mvp.view.wf(),
            mvp.view.is_identity(),
            mvp.projection.wf(),
            mvp.projection.is_identity(),
    {
        MVP { model: Mat4::identity(), view: Mat4::identity(), projection: Mat4::identity() }
    }
}

/// The base color every cube vertex carries: (1.0, 0.35, 0.137) in fixed
/// point.
pub open spec fn cube_color() -> Rgb {
    Rgb { r: 1000, g: 350, b: 137 }
}

/// A cube vertex at position `p` with normal `n` and the shared base color.
pub open spec fn cube_vertex(p: Vec3, n: Vec3) -> Vertex {
    Vertex { position: p, normal: n, color: cube_color() }
}

/// One face of the cube: its four corners in winding order, split into the
/// two triangles (c0, c1, c2) and (c0, c2, c3), all with the face normal.
pub open spec fn face_vertices(n: Vec3, c0: Vec3, c1: Vec3, c2: Vec3, c3: Vec3) -> Seq<Vertex> {
    seq![
        cube_vertex(c0, n),
        cube_vertex(c1, n),
        cube_vertex(c2, n),
        cube_vertex(c0, n),
        cube_vertex(c2, n),
        cube_vertex(c3, n),
    ]
}

/// A corner of the cube, each coordinate -1.0 or 1.0 in fixed point.
pub open spec fn corner(x: int, y: int, z: int) -> Vec3 {
    Vec3 { x: (1000 * x) as i64, y: (1000 * y) as i64, z: (1000 * z) as i64 }
}

/// The full cube: six faces of six vertices each, front, back, top, bottom,
/// left, right, with outward normals (y pointing down matches the surface's
/// clip-space y convention, as the camera's inverted up vector does).
pub open spec fn spec_cube() -> Seq<Vertex> {
    face_vertices(
        (Vec3 { x: 0, y: 0, z: 1000 }),
        corner(-1, -1, 1),
        corner(-1, 1, 1),
        corner(1, 1, 1),
        corner(1, -1, 1),
    ) + face_vertices(
        (Vec3 { x: 0, y: 0, z: -1000i64 }),
        corner(1, -1, -1),
        corner(1, 1, -1),
        corner(-1, 1, -1),
        corner(-1, -1, -1),
    ) + face_vertices(
        (Vec3 { x: 0, y: -1000i64, z: 0 }),
        corner(-1, -1, 1),
        corner(1, -1, 1),
        corner(1, -1, -1),
        corner(-1, -1, -1),
    ) + face_vertices(
        (Vec3 { x: 0, y: 1000, z: 0 }),
        corner(1, 1, 1),
        corner(-1, 1, 1),
        corner(-1, 1, -1),
        corner(1, 1, -1),
    ) + face_vertices(
        (Vec3 { x: -1000i64, y: 0, z: 0 }),
        corner(-1, -1, -1),
        corner(-1, 1, -1),
        corner(-1, 1, 1),
        corner(-1, -1, 1),
    ) + face_vertices(
        (Vec3 { x: 1000, y: 0, z: 0 }),
        corner(1, -1, 1),
        corner(1, 1, 1),
        corner(1, 1, -1),
        corner(1, -1, -1),
    )
}

/// Appends one face — two triangles over four corners, all with the face
/// normal and the shared base color — to the vertex list.
fn push_face(out: &mut Vec<Vertex>, n: Vec3, c0: Vec3, c1: Vec3, c2: Vec3, c3: Vec3)
    ensures
        final (out)@ == old(out)@ + face_vertices(n, c0, c1, c2, c3),
{
    let color = Rgb { r: 1000, g: 350, b: 137 };
    out.push(Vertex { position: c0, normal: n, color });
    out.push(Vertex { position: c1, normal: n, color });
    out.push(Vertex { position: c2, normal: n, color });
    out.push(Vertex { position: c0, normal: n, color });
    out.push(Vertex { position: c2, normal: n, color });
    out.push(Vertex { position: c3, normal: n, color });
    proof {
        assert(out@ =~= old(out)@ + face_vertices(n, c0, c1, c2, c3));
    }
}

/// Builds the cube's 36 vertices, exactly the table `spec_cube` gives.
pub fn cube_vertices() -> (v: Vec<Vertex>)
    ensures
        v@ == spec_cube(),
        v@.len() == 36,
{
    let mut v: Vec<Vertex> = Vec::new();
    push_face(
        &mut v,
        Vec3 { x: 0, y: 0, z: 1000 },
        Vec3 { x: -1000, y: -1000, z: 1000 },
        Vec3 { x: -1000, y: 1000, z: 1000 },
        Vec3 { x: 1000, y: 1000, z: 1000 },
        Vec3 { x: 1000, y: -1000, z: 1000 },
    );
    push_face(
        &mut v,
        Vec3 { x: 0, y: 0, z: -1000 },
        Vec3 { x: 1000, y: -1000, z: -1000 },
        Vec3 { x: 1000, y: 1000, z: -1000 },
        Vec3 { x: -1000, y: 1000, z: -1000 },
        Vec3 { x: -1000, y: -1000, z: -1000 },
    );
    push_face(
        &mut v,
        Vec3 { x: 0, y: -1000, z: 0 },
        Vec3 { x: -1000, y: -1000, z: 1000 },
        Vec3 { x: 1000, y: -1000, z: 1000 },
        Vec3 { x: 1000, y: -1000, z: -1000 },
        Vec3 { x: -1000, y: -1000, z: -1000 },
    );
    push_face(
        &mut v,
        Vec3 { x: 0, y: 1000, z: 0 },
        Vec3 { x: 1000, y: 1000, z: 1000 },
        Vec3 { x: -1000, y: 1000, z: 1000 },
        Vec3 { x: -1000, y: 1000, z: -1000 },
        Vec3 { x: 1000, y: 1000, z: -1000 },
    );
    push_face(
        &mut v,
        Vec3 { x: -1000, y: 0, z: 0 },
        Vec3 { x: -1000, y: -1000, z: -1000 },
        Vec3 { x: -1000, y: 1000, z: -1000 },
        Vec3 { x: -1000, y: 1000, z: 1000 },
        Vec3 { x: -1000, y: -1000, z: 1000 },
    );
    push_face(
        &mut v,
        Vec3 { x: 1000, y: 0, z: 0 },
        Vec3 { x: 1000, y: -1000, z: 1000 },
        Vec3 { x: 1000, y: 1000, z: 1000 },
        Vec3 { x: 1000, y: 1000, z: -1000 },
        Vec3 { x: 1000, y: -1000, z: -1000 },
    );
    proof {
        assert(v@ =~= spec_cube());
    }
    v
}

} // verus!
