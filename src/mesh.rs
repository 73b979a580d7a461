use vstd::prelude::*;

use crate::vertex::Vertex;

verus! {

/// An owned copy of a vertex slice.
fn copy_vertices(vs: &[Vertex]) -> (r: Vec<Vertex>)
    ensures
        r@ == vs@,
{
    let mut out: Vec<Vertex> = Vec::with_capacity(vs.len());
    let mut i: usize = 0;
    while i < vs.len()
        invariant
            i <= vs@.len(),
            out@ == vs@.subrange(0, i as int),
        decreases vs@.len() - i,
    {
        out.push(vs[i]);
        i = i + 1;
        assert(out@ =~= vs@.subrange(0, i as int));
    }
    assert(out@ =~= vs@);
    out
}

/// A labelled, ordered list of vertices. Its vertices are only ever replaced as
/// a whole.
pub struct Mesh<'a> {
    label: Option<&'a str>,
    vertices: Vec<Vertex>,
}

impl<'a> View for Mesh<'a> {
    type V = Seq<Vertex>;

    closed spec fn view(&self) -> Seq<Vertex> {
        self.vertices@
    }
}

impl<'a> Mesh<'a> {
    /// The label the mesh was created with.
    pub closed spec fn spec_label(&self) -> Option<&'a str> {
        self.label
    }

    pub fn new(label: Option<&'a str>, vertices: &[Vertex]) -> (r: Mesh<'a>)
        ensures
            r@ == vertices@,
            r.spec_label() == label,
    {
        Mesh { label, vertices: copy_vertices(vertices) }
    }

    /// Replaces all vertices; the label is kept.
    pub fn set_vertices(&mut self, vertices: &[Vertex])
        ensures
            final(self)@ == vertices@,
            final(self).spec_label() == old(self).spec_label(),
    {
        self.vertices = copy_vertices(vertices);
    }

    pub fn vertices(&self) -> (r: &[Vertex])
        ensures
            r@ == self@,
    {
        self.vertices.as_slice()
    }

    pub fn label(&self) -> (r: Option<&'a str>)
        ensures
            r == self.spec_label(),
    {
        self.label
    }

    pub fn vertex_count(&self) -> (r: usize)
        ensures
            r == self@.len(),
    {
        self.vertices.len()
    }
}

} // verus!
