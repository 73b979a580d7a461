use vstd::prelude::*;

use crate::mesh::Mesh;
use crate::mesh_buffer::{
    combined_bytes, combined_length, fits, total_vertices, CombinedVertexBuffer, MeshCollection, MeshError,
};
use crate::vertex::{push_word_bytes, word_bytes, Vertex, F32_ONE, F32_ZERO, VERTEX_SIZE};

verus! {

/// Size in bytes of the uniform block: one float32, elapsed seconds.
pub const UNIFORM_SIZE: usize = 4;

/// Binding slot of the uniform block, visible to the vertex and fragment stages.
pub const UNIFORM_SLOT: u32 = 0;

/// Slot the combined vertex buffer is bound to.
pub const VERTEX_BUFFER_SLOT: u32 = 0;

/// Bit patterns of the background colour (opaque black), as RGBA float32.
pub open spec fn clear_color() -> [u32; 4] {
    [F32_ZERO, F32_ZERO, F32_ZERO, F32_ONE]
}

/// The wire image of the uniform block for a time value given by its float32
/// bit pattern.
pub fn uniform_bytes(time_bits: u32) -> (r: Vec<u8>)
    ensures
        r@ == word_bytes(time_bits),
        r@.len() == UNIFORM_SIZE,
{
    let mut out: Vec<u8> = Vec::new();
    push_word_bytes(&mut out, time_bits);
    assert(out@ =~= word_bytes(time_bits));
    out
}

/// What acquiring the next surface texture gave.
#[derive(Clone, Copy, Debug, PartialEq, Eq, Structural)]
pub enum AcquireOutcome {
    Acquired,
    Timeout,
    Outdated,
    Lost,
    OutOfMemory,
    Other,
}

/// A surface failure that ends rendering.
#[derive(Clone, Copy, Debug, PartialEq, Eq, Structural)]
pub enum SurfaceFailure {
    Timeout,
    OutOfMemory,
    Other,
}

/// One step of a recorded frame, to be carried out in order.
#[derive(Clone, Copy, Debug, PartialEq, Eq)]
pub enum Command {
    /// Opens the single render pass, clearing the target to `clear` (RGBA
    /// float32 bit patterns).
    BeginRenderPass { clear: [u32; 4] },
    SetPipeline,
    SetBindGroup { slot: u32 },
    SetVertexBuffer { slot: u32 },
    Draw { first_vertex: u32, vertex_count: u32, first_instance: u32, instance_count: u32 },
    EndRenderPass,
    Submit,
    Present,
}

/// What the host does after an acquisition.
#[derive(Clone, Debug, PartialEq, Eq)]
pub enum FrameAction {
    /// The texture was acquired: record and carry out these commands.
    Record(Vec<Command>),
    /// The surface is outdated or lost: reconfigure it and try again next frame.
    Reconfigure,
    /// Rendering cannot go on.
    Fatal(SurfaceFailure),
}

/// The abstract state of a renderer.
pub struct FrameModel {
    /// Vertices of each mesh, in collection order.
    pub meshes: Seq<Seq<Vertex>>,
    /// Whether `meshes` changed since the buffer was last built.
    pub dirty: bool,
    /// Contents of the combined vertex buffer as of its last build.
    pub buffer: Seq<u8>,
    /// Number of vertices in that buffer.
    pub buffer_vertices: nat,
    /// Elapsed time since creation, in nanoseconds, as the uniform last held it.
    pub elapsed: nat,
    pub width: nat,
    pub height: nat,
    /// Whether the surface must be reconfigured before the next frame.
    pub needs_reconfigure: bool,
}

/// The buffer matches the meshes unless they changed since it was built.
pub open spec fn model_wf(s: FrameModel) -> bool {
    &&& fits(total_vertices(s.meshes) as int)
    &&& s.buffer_vertices <= u32::MAX
    &&& !s.dirty ==> s.buffer == combined_bytes(s.meshes) && s.buffer_vertices == total_vertices(
        s.meshes,
    )
}

/// A renderer right after creation: no meshes, no buffer built yet, time zero.
pub open spec fn initial_model(width: nat, height: nat) -> FrameModel {
    FrameModel {
        meshes: seq![],
        dirty: true,
        buffer: seq![],
        buffer_vertices: 0,
        elapsed: 0,
        width,
        height,
        needs_reconfigure: false,
    }
}

/// The state after the start of a frame at observed elapsed time `now`: the
/// time never goes back, and a dirty collection is rebuilt.
pub open spec fn begin_model(s: FrameModel, now: nat) -> FrameModel {
    FrameModel {
        meshes: s.meshes,
        dirty: false,
        buffer: if s.dirty { combined_bytes(s.meshes) } else { s.buffer },
        buffer_vertices: if s.dirty { total_vertices(s.meshes) } else { s.buffer_vertices },
        elapsed: if now > s.elapsed { now } else { s.elapsed },
        width: s.width,
        height: s.height,
        needs_reconfigure: s.needs_reconfigure,
    }
}

/// The state after a mesh is appended.
pub open spec fn push_model(s: FrameModel, m: Seq<Vertex>) -> FrameModel {
    FrameModel { meshes: s.meshes.push(m), dirty: true, ..s }
}

/// The state after the vertices of mesh `i` are replaced by `vs`.
pub open spec fn replace_model(s: FrameModel, i: int, vs: Seq<Vertex>) -> FrameModel {
    FrameModel { meshes: s.meshes.update(i, vs), dirty: true, ..s }
}

/// The state after the surface is configured at a new size.
pub open spec fn resize_model(s: FrameModel, width: nat, height: nat) -> FrameModel {
    FrameModel { width, height, needs_reconfigure: false, ..s }
}

/// Whether an acquisition outcome asks for the surface to be reconfigured.
pub open spec fn recoverable(o: AcquireOutcome) -> bool {
    o == AcquireOutcome::Outdated || o == AcquireOutcome::Lost
}

/// The state after an acquisition.
pub open spec fn acquire_model(s: FrameModel, o: AcquireOutcome) -> FrameModel {
    if recoverable(o) {
        FrameModel { needs_reconfigure: true, ..s }
    } else {
        s
    }
}

/// The draw range of a state: all vertices of the buffer, one instance.
pub open spec fn draw_command(s: FrameModel) -> Command {
    Command::Draw {
        first_vertex: 0,
        vertex_count: s.buffer_vertices as u32,
        first_instance: 0,
        instance_count: 1,
    }
}

/// The commands of a frame whose texture was acquired: one render pass that
/// clears, binds pipeline, uniform and vertex buffer, and draws the whole
/// buffer; then one submission and one presentation.
pub open spec fn frame_commands(s: FrameModel) -> Seq<Command> {
    seq![
        Command::BeginRenderPass { clear: clear_color() },
        Command::SetPipeline,
        Command::SetBindGroup { slot: UNIFORM_SLOT },
        Command::SetVertexBuffer { slot: VERTEX_BUFFER_SLOT },
        draw_command(s),
        Command::EndRenderPass,
        Command::Submit,
        Command::Present,
    ]
}

/// The fatal failure an outcome stands for, if any.
pub open spec fn failure_of(o: AcquireOutcome) -> Option<SurfaceFailure> {
    match o {
        AcquireOutcome::Timeout => Some(SurfaceFailure::Timeout),
        AcquireOutcome::OutOfMemory => Some(SurfaceFailure::OutOfMemory),
        AcquireOutcome::Other => Some(SurfaceFailure::Other),
        _ => None,
    }
}

/// The renderer's own state: the mesh collection, the size of the combined
/// buffer on the GPU, the frame clock and the surface size.
pub struct RenderState<'a> {
    meshes: MeshCollection<'a>,
    buffer: Ghost<Seq<u8>>,
    buffer_vertices: u32,
    elapsed_nanos: u64,
    width: u32,
    height: u32,
    needs_reconfigure: bool,
}

impl<'a> View for RenderState<'a> {
    type V = FrameModel;

    closed spec fn view(&self) -> FrameModel {
        FrameModel {
            meshes: self.meshes@,
            dirty: self.meshes.spec_dirty(),
            buffer: self.buffer@,
            buffer_vertices: self.buffer_vertices as nat,
            elapsed: self.elapsed_nanos as nat,
            width: self.width as nat,
            height: self.height as nat,
            needs_reconfigure: self.needs_reconfigure,
        }
    }
}

impl<'a> RenderState<'a> {
    pub closed spec fn wf(&self) -> bool {
        &&& self.meshes.wf()
        &&& model_wf(self@)
    }

    /// A renderer for a surface of the given size, with no meshes; its clock
    /// starts at zero.
    pub fn new(width: u32, height: u32) -> (r: RenderState<'a>)
        ensures
            r.wf(),
            r@ == initial_model(width as nat, height as nat),
    {
        let meshes = MeshCollection::new();
        let r = RenderState {
            meshes,
            buffer: Ghost(Seq::empty()),
            buffer_vertices: 0,
            elapsed_nanos: 0,
            width,
            height,
            needs_reconfigure: false,
        };
        assert(r@.meshes =~= initial_model(width as nat, height as nat).meshes);
        assert(r@.buffer =~= initial_model(width as nat, height as nat).buffer);
        r
    }

    pub fn meshes(&self) -> (r: &MeshCollection<'a>)
        ensures
            r@ == self@.meshes,
            r.spec_dirty() == self@.dirty,
    {
        &self.meshes
    }

    /// Appends a mesh; the buffer is rebuilt at the start of the next frame.
    pub fn push_mesh(&mut self, mesh: Mesh<'a>) -> (r: Result<(), MeshError>)
        requires
            old(self).wf(),
        ensures
            final(self).wf(),
            r is Ok <==> fits(total_vertices(old(self)@.meshes) + mesh@.len() as int),
            r is Ok ==> final(self)@ == push_model(old(self)@, mesh@),
            r is Err ==> r == Err::<(), MeshError>(MeshError::TooManyVertices) && final(self)@
                == old(self)@,
    {
        let ghost m = mesh@;
        let r = self.meshes.push(mesh);
        proof {
            self.meshes.lemma_wf_fits();
            if r is Ok {
                assert(self@.meshes == old(self)@.meshes.push(m));
            }
        }
        r
    }

    /// Replaces the vertices of mesh `index`; the buffer is rebuilt at the start
    /// of the next frame.
    pub fn set_mesh_vertices(&mut self, index: usize, vertices: &[Vertex]) -> (r: Result<
        (),
        MeshError,
    >)
        requires
            old(self).wf(),
        ensures
            final(self).wf(),
            index >= old(self)@.meshes.len() ==> r == Err::<(), MeshError>(MeshError::NoSuchMesh),
            index < old(self)@.meshes.len() ==> (r is Ok <==> fits(
                (total_vertices(old(self)@.meshes) - old(self)@.meshes[index as int].len())
                    + vertices@.len(),
            )),
            r is Ok ==> final(self)@ == replace_model(old(self)@, index as int, vertices@),
            r is Err ==> final(self)@ == old(self)@,
    {
        let r = self.meshes.set_mesh_vertices(index, vertices);
        proof {
            self.meshes.lemma_wf_fits();
        }
        r
    }

    /// Starts a frame at the observed elapsed time since creation. The clock
    /// keeps the larger of its value and `observed_nanos`. If the meshes changed
    /// since the last build, the combined buffer is rebuilt and returned for
    /// upload; otherwise `None`.
    pub fn begin_frame(&mut self, observed_nanos: u64) -> (r: Option<CombinedVertexBuffer>)
        requires
            old(self).wf(),
        ensures
            final(self).wf(),
            final(self)@ == begin_model(old(self)@, observed_nanos as nat),
            r is Some <==> old(self)@.dirty,
            (r matches Some(b) ==> b.built_from(old(self)@.meshes)),
    {
        if observed_nanos > self.elapsed_nanos {
            self.elapsed_nanos = observed_nanos;
        }
        if self.meshes.is_dirty() {
            let b = self.meshes.rebuild();
            self.buffer_vertices = b.vertex_count;
            self.buffer = Ghost(b.bytes@);
            Some(b)
        } else {
            None
        }
    }

    /// Decides what follows an acquisition: the frame's commands when the
    /// texture was acquired, a reconfiguration when the surface is outdated or
    /// lost, and a fatal failure otherwise.
    pub fn on_acquire(&mut self, outcome: AcquireOutcome) -> (r: FrameAction)
        requires
            old(self).wf(),
        ensures
            final(self).wf(),
            final(self)@ == acquire_model(old(self)@, outcome),
            outcome == AcquireOutcome::Acquired ==> (r matches FrameAction::Record(cmds)
                && cmds@ == frame_commands(old(self)@)),
            recoverable(outcome) ==> r == FrameAction::Reconfigure,
            (failure_of(outcome) matches Some(f) ==> r == FrameAction::Fatal(f)),
    {
        match outcome {
            AcquireOutcome::Acquired => {
                let cmds = vec![
                    Command::BeginRenderPass { clear: [F32_ZERO, F32_ZERO, F32_ZERO, F32_ONE] },
                    Command::SetPipeline,
                    Command::SetBindGroup { slot: UNIFORM_SLOT },
                    Command::SetVertexBuffer { slot: VERTEX_BUFFER_SLOT },
                    Command::Draw {
                        first_vertex: 0,
                        vertex_count: self.buffer_vertices,
                        first_instance: 0,
                        instance_count: 1,
                    },
                    Command::EndRenderPass,
                    Command::Submit,
                    Command::Present,
                ];
                assert(cmds@ =~= frame_commands(self@));
                FrameAction::Record(cmds)
            },
            AcquireOutcome::Outdated | AcquireOutcome::Lost => {
                self.needs_reconfigure = true;
                FrameAction::Reconfigure
            },
            AcquireOutcome::Timeout => FrameAction::Fatal(SurfaceFailure::Timeout),
            AcquireOutcome::OutOfMemory => FrameAction::Fatal(SurfaceFailure::OutOfMemory),
            AcquireOutcome::Other => FrameAction::Fatal(SurfaceFailure::Other),
        }
    }

    /// Records a new surface size. A size with a zero side cannot be configured:
    /// it is refused and nothing changes. Otherwise the size is kept, the
    /// pending reconfiguration is cleared, and the host configures the surface.
    pub fn reconfigure(&mut self, width: u32, height: u32) -> (r: bool)
        requires
            old(self).wf(),
        ensures
            final(self).wf(),
            r == (width > 0 && height > 0),
            r ==> final(self)@ == resize_model(old(self)@, width as nat, height as nat),
            !r ==> final(self)@ == old(self)@,
    {
        if width == 0 || height == 0 {
            return false;
        }
        self.width = width;
        self.height = height;
        self.needs_reconfigure = false;
        true
    }

    pub fn needs_reconfigure(&self) -> (r: bool)
        ensures
            r == self@.needs_reconfigure,
    {
        self.needs_reconfigure
    }

    /// The surface size as last configured.
    pub fn surface_size(&self) -> (r: (u32, u32))
        ensures
            r.0 == self@.width,
            r.1 == self@.height,
    {
        (self.width, self.height)
    }

    /// The elapsed time, in nanoseconds, that the uniform block last held.
    pub fn elapsed_nanos(&self) -> (r: u64)
        ensures
            r == self@.elapsed,
    {
        self.elapsed_nanos
    }

    /// The vertex range the next draw covers: `(first, end)`.
    pub fn draw_range(&self) -> (r: (u32, u32))
        ensures
            r.0 == 0,
            r.1 == self@.buffer_vertices,
    {
        (0, self.buffer_vertices)
    }
}

/// Starting frames without changing the meshes in between leaves the buffer
/// as the first start built it: rebuilding is idempotent.
pub proof fn rebuild_idempotent(s: FrameModel, t1: nat, t2: nat)
    requires
        model_wf(s),
    ensures
        begin_model(s, t1).buffer == combined_bytes(s.meshes),
        begin_model(begin_model(s, t1), t2).buffer == begin_model(s, t1).buffer,
        begin_model(begin_model(s, t1), t2).buffer_vertices == begin_model(s, t1).buffer_vertices,
{
}

/// Appending a mesh marks the state dirty, and the next frame rebuilds before
/// it draws: the buffer then holds all meshes, and the draw covers every vertex
/// of every mesh.
pub proof fn append_then_frame_draws_all(s: FrameModel, m: Seq<Vertex>, now: nat)
    requires
        model_wf(s),
        fits(total_vertices(s.meshes) + m.len() as int),
    ensures
        push_model(s, m).dirty,
        model_wf(push_model(s, m)),
        begin_model(push_model(s, m), now).buffer == combined_bytes(s.meshes.push(m)),
        begin_model(push_model(s, m), now).buffer.len() == VERTEX_SIZE * (total_vertices(s.meshes)
            + m.len()),
        draw_command(begin_model(push_model(s, m), now)) == (Command::Draw {
            first_vertex: 0,
            vertex_count: (total_vertices(s.meshes) + m.len()) as u32,
            first_instance: 0,
            instance_count: 1,
        }),
{
    assert(s.meshes.push(m).drop_last() =~= s.meshes);
    combined_length(s.meshes.push(m));
}

/// The uniform clock never goes back, and reads zero at creation.
pub proof fn clock_monotonic(s: FrameModel, now: nat, width: nat, height: nat)
    ensures
        begin_model(s, now).elapsed >= s.elapsed,
        begin_model(s, now).elapsed >= now,
        initial_model(width, height).elapsed == 0,
{
}

/// With no meshes, a frame draws the empty range `0..0` from an empty buffer,
/// whatever was drawn before, and an acquired frame is still recorded.
pub proof fn empty_collection_draws_nothing(s: FrameModel, now: nat)
    requires
        model_wf(s),
        s.meshes.len() == 0,
    ensures
        begin_model(s, now).buffer.len() == 0,
        begin_model(s, now).buffer_vertices == 0,
        draw_command(begin_model(s, now)) == (Command::Draw {
            first_vertex: 0,
            vertex_count: 0,
            first_instance: 0,
            instance_count: 1,
        }),
        frame_commands(begin_model(s, now))[4] == draw_command(begin_model(s, now)),
{
    combined_length(s.meshes);
}

} // verus!
