use vstd::prelude::*;

use crate::mesh::Mesh;
use crate::vertex::{vertex_bytes, Vertex, VERTEX_SIZE};

verus! {

/// Number of vertices over all meshes.
pub open spec fn total_vertices(ms: Seq<Seq<Vertex>>) -> nat
    decreases ms.len(),
{
    if ms.len() == 0 {
        0
    } else {
        total_vertices(ms.drop_last()) + ms.last().len()
    }
}

/// The vertices of all meshes, in collection order.
pub open spec fn flatten_meshes(ms: Seq<Seq<Vertex>>) -> Seq<Vertex>
    decreases ms.len(),
{
    if ms.len() == 0 {
        seq![]
    } else {
        flatten_meshes(ms.drop_last()) + ms.last()
    }
}

/// The wire images of a list of vertices, one after another.
pub open spec fn vertices_bytes(vs: Seq<Vertex>) -> Seq<u8>
    decreases vs.len(),
{
    if vs.len() == 0 {
        seq![]
    } else {
        vertices_bytes(vs.drop_last()) + vertex_bytes(vs.last())
    }
}

/// Contents of the combined vertex buffer built from a collection.
pub open spec fn combined_bytes(ms: Seq<Seq<Vertex>>) -> Seq<u8> {
    vertices_bytes(flatten_meshes(ms))
}

/// Index of the first vertex of mesh `i` in the combined buffer.
pub open spec fn mesh_offset(ms: Seq<Seq<Vertex>>, i: int) -> nat {
    total_vertices(ms.subrange(0, i))
}

/// Whether a total vertex count can be drawn in one call (the draw range is
/// 32-bit) and its bytes held in memory.
pub open spec fn fits(n: int) -> bool {
    0 <= n <= u32::MAX && n * VERTEX_SIZE <= usize::MAX
}

/// Reasons a mutation of a collection is refused.
#[derive(Clone, Copy, Debug, PartialEq, Eq, Structural)]
pub enum MeshError {
    /// The collection would hold more vertices than one draw call can cover.
    TooManyVertices,
    /// No mesh has the given index.
    NoSuchMesh,
}

/// The CPU image of the combined vertex buffer.
#[derive(Debug)]
pub struct CombinedVertexBuffer {
    /// The vertex records of all meshes, in collection order.
    pub bytes: Vec<u8>,
    /// Number of vertex records in `bytes`: the draw range is `0..vertex_count`.
    pub vertex_count: u32,
    /// For each mesh, the index of its first vertex.
    pub mesh_offsets: Vec<u32>,
}

impl CombinedVertexBuffer {
    /// What a buffer built from `ms` holds.
    pub open spec fn built_from(&self, ms: Seq<Seq<Vertex>>) -> bool {
        &&& self.bytes@ == combined_bytes(ms)
        &&& self.vertex_count == total_vertices(ms)
        &&& self.mesh_offsets@.len() == ms.len()
        &&& forall|i: int| 0 <= i < ms.len() ==> self.mesh_offsets@[i] == mesh_offset(ms, i)
    }

    /// The bytes to store on the GPU. A GPU buffer slice cannot be empty, so an
    /// empty buffer is backed by one zeroed record, which the draw range `0..0`
    /// never reads; otherwise the bytes as they are.
    pub fn upload_image(&self) -> (r: Vec<u8>)
        ensures
            self.bytes@.len() > 0 ==> r@ == self.bytes@,
            self.bytes@.len() == 0 ==> r@ == Seq::new(VERTEX_SIZE as nat, |i: int| 0u8),
    {
        let mut out: Vec<u8> = Vec::new();
        if self.bytes.len() == 0 {
            let mut i: usize = 0;
            while i < VERTEX_SIZE
                invariant
                    i <= VERTEX_SIZE,
                    out@ == Seq::new(i as nat, |k: int| 0u8),
                decreases VERTEX_SIZE - i,
            {
                out.push(0u8);
                i = i + 1;
                assert(out@ =~= Seq::new(i as nat, |k: int| 0u8));
            }
        } else {
            let mut i: usize = 0;
            while i < self.bytes.len()
                invariant
                    i <= self.bytes@.len(),
                    out@ == self.bytes@.subrange(0, i as int),
                decreases self.bytes@.len() - i,
            {
                out.push(self.bytes[i]);
                i = i + 1;
                assert(out@ =~= self.bytes@.subrange(0, i as int));
            }
            assert(out@ =~= self.bytes@);
        }
        out
    }
}

/// An ordered collection of meshes with a flag recording whether it changed
/// since the combined buffer was last built.
pub struct MeshCollection<'a> {
    meshes: Vec<Mesh<'a>>,
    vertex_total: usize,
    dirty: bool,
}

impl<'a> View for MeshCollection<'a> {
    type V = Seq<Seq<Vertex>>;

    closed spec fn view(&self) -> Seq<Seq<Vertex>> {
        self.meshes@.map_values(|m: Mesh<'a>| m@)
    }
}

/// Each vertex takes 24 bytes of the image.
pub proof fn lemma_vertices_bytes_len(vs: Seq<Vertex>)
    ensures
        vertices_bytes(vs).len() == VERTEX_SIZE * vs.len(),
    decreases vs.len(),
{
    if vs.len() > 0 {
        lemma_vertices_bytes_len(vs.drop_last());
    }
}

/// Flattening keeps every vertex of every mesh.
pub proof fn lemma_flatten_len(ms: Seq<Seq<Vertex>>)
    ensures
        flatten_meshes(ms).len() == total_vertices(ms),
    decreases ms.len(),
{
    if ms.len() > 0 {
        lemma_flatten_len(ms.drop_last());
    }
}

/// The prefix of a collection of length `i + 1` adds mesh `i` to the prefix of
/// length `i`.
pub proof fn lemma_prefix_step(ms: Seq<Seq<Vertex>>, i: int)
    requires
        0 <= i < ms.len(),
    ensures
        flatten_meshes(ms.subrange(0, i + 1)) == flatten_meshes(ms.subrange(0, i)) + ms[i],
        total_vertices(ms.subrange(0, i + 1)) == total_vertices(ms.subrange(0, i)) + ms[i].len(),
{
    assert(ms.subrange(0, i + 1).drop_last() =~= ms.subrange(0, i));
}

/// Totals only grow along prefixes.
pub proof fn lemma_prefix_total_le(ms: Seq<Seq<Vertex>>, i: int, j: int)
    requires
        0 <= i <= j <= ms.len(),
    ensures
        total_vertices(ms.subrange(0, i)) <= total_vertices(ms.subrange(0, j)),
    decreases j - i,
{
    if i < j {
        lemma_prefix_total_le(ms, i, j - 1);
        lemma_prefix_step(ms, j - 1);
    }
}

/// Byte length of the combined buffer: 24 bytes for each vertex of each mesh,
/// in collection order.
pub proof fn combined_length(ms: Seq<Seq<Vertex>>)
    ensures
        combined_bytes(ms).len() == VERTEX_SIZE * total_vertices(ms),
        forall|i: int|
            0 <= i < ms.len() ==> total_vertices(ms.subrange(0, i + 1)) == mesh_offset(ms, i)
                + ms[i].len(),
        total_vertices(ms) == mesh_offset(ms, ms.len() as int),
{
    lemma_flatten_len(ms);
    lemma_vertices_bytes_len(flatten_meshes(ms));
    assert forall|i: int| 0 <= i < ms.len() implies total_vertices(ms.subrange(0, i + 1))
        == mesh_offset(ms, i) + ms[i].len() by {
        lemma_prefix_step(ms, i);
    }
    assert(ms.subrange(0, ms.len() as int) =~= ms);
}

impl<'a> MeshCollection<'a> {
    /// Whether the collection changed since the combined buffer was last built.
    pub closed spec fn spec_dirty(&self) -> bool {
        self.dirty
    }

    pub closed spec fn wf(&self) -> bool {
        &&& self.vertex_total == total_vertices(self@)
        &&& fits(total_vertices(self@) as int)
    }

    /// A well-formed collection's vertices fit one draw call.
    pub proof fn lemma_wf_fits(&self)
        requires
            self.wf(),
        ensures
            fits(total_vertices(self@) as int),
    {
    }

    /// An empty collection; no buffer has been built for it yet, so it is dirty.
    pub fn new() -> (r: MeshCollection<'a>)
        ensures
            r.wf(),
            r@ == Seq::<Seq<Vertex>>::empty(),
            r.spec_dirty(),
    {
        let r = MeshCollection { meshes: Vec::new(), vertex_total: 0, dirty: true };
        assert(r@ =~= Seq::<Seq<Vertex>>::empty());
        r
    }

    pub fn len(&self) -> (r: usize)
        ensures
            r == self@.len(),
    {
        self.meshes.len()
    }

    pub fn is_dirty(&self) -> (r: bool)
        ensures
            r == self.spec_dirty(),
    {
        self.dirty
    }

    pub fn total_vertex_count(&self) -> (r: usize)
        requires
            self.wf(),
        ensures
            r == total_vertices(self@),
    {
        self.vertex_total
    }

    pub fn mesh(&self, index: usize) -> (r: Option<&Mesh<'a>>)
        ensures
            index < self@.len() ==> (r matches Some(m) && m@ == self@[index as int]),
            index >= self@.len() ==> r is None,
    {
        if index < self.meshes.len() {
            Some(&self.meshes[index])
        } else {
            None
        }
    }

    /// Appends a mesh at the end and marks the collection dirty. Refused, with
    /// nothing changed, when the total vertex count would no longer fit.
    pub fn push(&mut self, mesh: Mesh<'a>) -> (r: Result<(), MeshError>)
        requires
            old(self).wf(),
        ensures
            final(self).wf(),
            r is Ok <==> fits(total_vertices(old(self)@) + mesh@.len() as int),
            r is Ok ==> final(self)@ == old(self)@.push(mesh@) && final(self).spec_dirty(),
            r is Err ==> r == Err::<(), MeshError>(MeshError::TooManyVertices) && *final(self)
                == *old(self),
    {
        let n = mesh.vertex_count();
        if n > u32::MAX as usize || self.vertex_total > u32::MAX as usize - n {
            return Err(MeshError::TooManyVertices);
        }
        let new_total = self.vertex_total + n;
        if new_total > usize::MAX / VERTEX_SIZE {
            return Err(MeshError::TooManyVertices);
        }
        let ghost before = self@;
        self.meshes.push(mesh);
        self.vertex_total = new_total;
        self.dirty = true;
        assert(self@ =~= before.push(mesh@));
        assert(self@.drop_last() =~= before);
        Ok(())
    }

    /// Replaces all vertices of mesh `index` and marks the collection dirty.
    /// Refused, with nothing changed, when there is no such mesh or the total
    /// vertex count would no longer fit.
    pub fn set_mesh_vertices(&mut self, index: usize, vertices: &[Vertex]) -> (r: Result<
        (),
        MeshError,
    >)
        requires
            old(self).wf(),
        ensures
            final(self).wf(),
            index >= old(self)@.len() ==> r == Err::<(), MeshError>(MeshError::NoSuchMesh),
            index < old(self)@.len() ==> (r is Ok <==> fits(
                (total_vertices(old(self)@) - old(self)@[index as int].len()) + vertices@.len(),
            )),
            r is Ok ==> final(self)@ == old(self)@.update(index as int, vertices@)
                && final(self).spec_dirty(),
            r is Err ==> *final(self) == *old(self),
            r is Err && index < old(self)@.len() ==> r == Err::<(), MeshError>(
                MeshError::TooManyVertices,
            ),
    {
        if index >= self.meshes.len() {
            return Err(MeshError::NoSuchMesh);
        }
        let ghost ms = self@;
        proof {
            lemma_total_update(ms, index as int, vertices@);
        }
        let old_n = self.meshes[index].vertex_count();
        let rest = self.vertex_total - old_n;
        let n = vertices.len();
        if n > u32::MAX as usize || rest > u32::MAX as usize - n {
            return Err(MeshError::TooManyVertices);
        }
        let new_total = rest + n;
        if new_total > usize::MAX / VERTEX_SIZE {
            return Err(MeshError::TooManyVertices);
        }
        let mut mesh = self.meshes.remove(index);
        mesh.set_vertices(vertices);
        self.meshes.insert(index, mesh);
        self.vertex_total = new_total;
        self.dirty = true;
        assert(self@ =~= ms.update(index as int, vertices@));
        Ok(())
    }

    /// The combined buffer for the current contents; the collection is left as
    /// it is.
    pub fn build(&self) -> (r: CombinedVertexBuffer)
        requires
            self.wf(),
        ensures
            r.built_from(self@),
    {
        let ghost ms = self@;
        let mut bytes: Vec<u8> = Vec::new();
        let mut offsets: Vec<u32> = Vec::new();
        let mut count: u32 = 0;
        let mut i: usize = 0;
        proof {
            assert(ms.subrange(0, 0) =~= Seq::<Seq<Vertex>>::empty());
        }
        while i < self.meshes.len()
            invariant
                self.wf(),
                ms == self@,
                i <= ms.len(),
                count == total_vertices(ms.subrange(0, i as int)),
                bytes@ == vertices_bytes(flatten_meshes(ms.subrange(0, i as int))),
                offsets@.len() == i,
                forall|k: int| 0 <= k < i ==> offsets@[k] == mesh_offset(ms, k),
            decreases ms.len() - i,
        {
            let vs = self.meshes[i].vertices();
            proof {
                assert(vs@ == ms[i as int]);
                lemma_prefix_step(ms, i as int);
                lemma_prefix_total_le(ms, i as int + 1, ms.len() as int);
                assert(ms.subrange(0, ms.len() as int) =~= ms);
            }
            offsets.push(count);
            let mut j: usize = 0;
            let ghost prefix = flatten_meshes(ms.subrange(0, i as int));
            while j < vs.len()
                invariant
                    j <= vs@.len(),
                    vs@ == ms[i as int],
                    count as nat == total_vertices(ms.subrange(0, i as int)) + j,
                    total_vertices(ms.subrange(0, i as int)) + vs@.len() <= u32::MAX,
                    bytes@ == vertices_bytes(prefix + vs@.subrange(0, j as int)),
                decreases vs@.len() - j,
            {
                let ghost before = bytes@;
                vs[j].write_bytes(&mut bytes);
                proof {
                    let s = prefix + vs@.subrange(0, j as int + 1);
                    assert(s.drop_last() =~= prefix + vs@.subrange(0, j as int));
                    assert(s.last() == vs@[j as int]);
                }
                count = count + 1;
                j = j + 1;
            }
            assert(vs@.subrange(0, j as int) =~= vs@);
            i = i + 1;
        }
        assert(ms.subrange(0, ms.len() as int) =~= ms);
        CombinedVertexBuffer { bytes, vertex_count: count, mesh_offsets: offsets }
    }

    /// Builds the combined buffer and clears the dirty flag.
    pub fn rebuild(&mut self) -> (r: CombinedVertexBuffer)
        requires
            old(self).wf(),
        ensures
            final(self).wf(),
            final(self)@ == old(self)@,
            !final(self).spec_dirty(),
            r.built_from(old(self)@),
    {
        let r = self.build();
        self.dirty = false;
        r
    }
}

/// Replacing one mesh changes the total by the difference of the two lengths.
pub proof fn lemma_total_update(ms: Seq<Seq<Vertex>>, i: int, vs: Seq<Vertex>)
    requires
        0 <= i < ms.len(),
    ensures
        ms[i].len() <= total_vertices(ms),
        total_vertices(ms.update(i, vs)) == total_vertices(ms) - ms[i].len() + vs.len(),
    decreases ms.len(),
{
    let u = ms.update(i, vs);
    if i == ms.len() - 1 {
        assert(u.drop_last() =~= ms.drop_last());
    } else {
        lemma_total_update(ms.drop_last(), i, vs);
        assert(u.drop_last() =~= ms.drop_last().update(i, vs));
    }
}

} // verus!
