use vstd::prelude::*;

use crate::mesh::Mesh;
use crate::vertex::{Vertex, F32_HALF, F32_NEG_HALF, F32_ONE, F32_ZERO};

verus! {

/// Red, as colour bit patterns.
pub open spec fn red() -> [u32; 3] {
    [F32_ONE, F32_ZERO, F32_ZERO]
}

/// Green, as colour bit patterns.
pub open spec fn green() -> [u32; 3] {
    [F32_ZERO, F32_ONE, F32_ZERO]
}

/// The corners of the unit cube centred on the origin: the four of the front
/// face (z = 0.5) in red, then the four of the back face (z = -0.5) in green,
/// each face counter-clockwise from (-0.5, -0.5).
pub open spec fn cube_vertices() -> Seq<Vertex> {
    seq![
        Vertex { position: [F32_NEG_HALF, F32_NEG_HALF, F32_HALF], color: red() },
        Vertex { position: [F32_HALF, F32_NEG_HALF, F32_HALF], color: red() },
        Vertex { position: [F32_HALF, F32_HALF, F32_HALF], color: red() },
        Vertex { position: [F32_NEG_HALF, F32_HALF, F32_HALF], color: red() },
        Vertex { position: [F32_NEG_HALF, F32_NEG_HALF, F32_NEG_HALF], color: green() },
        Vertex { position: [F32_HALF, F32_NEG_HALF, F32_NEG_HALF], color: green() },
        Vertex { position: [F32_HALF, F32_HALF, F32_NEG_HALF], color: green() },
        Vertex { position: [F32_NEG_HALF, F32_HALF, F32_NEG_HALF], color: green() },
    ]
}

/// A mesh labelled "Cube" holding the eight corners of the unit cube.
pub fn cube_mesh() -> (r: Mesh<'static>)
    ensures
        r@ == cube_vertices(),
        r@.len() == 8,
        r.spec_label() matches Some(l) && l@ == "Cube"@,
{
    let red: [u32; 3] = [F32_ONE, F32_ZERO, F32_ZERO];
    let green: [u32; 3] = [F32_ZERO, F32_ONE, F32_ZERO];
    let vertices = [
        Vertex { position: [F32_NEG_HALF, F32_NEG_HALF, F32_HALF], color: red },
        Vertex { position: [F32_HALF, F32_NEG_HALF, F32_HALF], color: red },
        Vertex { position: [F32_HALF, F32_HALF, F32_HALF], color: red },
        Vertex { position: [F32_NEG_HALF, F32_HALF, F32_HALF], color: red },
        Vertex { position: [F32_NEG_HALF, F32_NEG_HALF, F32_NEG_HALF], color: green },
        Vertex { position: [F32_HALF, F32_NEG_HALF, F32_NEG_HALF], color: green },
        Vertex { position: [F32_HALF, F32_HALF, F32_NEG_HALF], color: green },
        Vertex { position: [F32_NEG_HALF, F32_HALF, F32_NEG_HALF], color: green },
    ];
    let r = Mesh::new(Some("Cube"), vertices.as_slice());
    assert(r@ =~= cube_vertices());
    r
}

} // verus!
