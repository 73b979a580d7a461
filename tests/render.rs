use voxels_wgpu::cube::cube_mesh;
use voxels_wgpu::frame::{
    uniform_bytes, AcquireOutcome, Command, FrameAction, RenderState, SurfaceFailure,
    UNIFORM_SIZE,
};
use voxels_wgpu::mesh::Mesh;
use voxels_wgpu::mesh_buffer::{MeshCollection, MeshError};
use voxels_wgpu::vertex::{
    Vertex, VertexAttribute, VertexFormat, COLOR_OFFSET, F32_HALF, F32_NEG_HALF, F32_ONE,
    F32_ZERO, POSITION_OFFSET, VERTEX_SIZE,
};

fn vtx(p: [f32; 3], c: [f32; 3]) -> Vertex {
    Vertex::new(
        [p[0].to_bits(), p[1].to_bits(), p[2].to_bits()],
        [c[0].to_bits(), c[1].to_bits(), c[2].to_bits()],
    )
}

fn triangle() -> Vec<Vertex> {
    vec![
        vtx([-1.0, 1.0, 0.0], [1.0, 0.0, 0.0]),
        vtx([-1.0, -1.0, 0.0], [0.0, 1.0, 0.0]),
        vtx([1.0, -1.0, 0.0], [0.0, 0.0, 1.0]),
    ]
}

fn count_of(cmds: &[Command], c: Command) -> usize {
    cmds.iter().filter(|x| **x == c).count()
}

fn draw_of(cmds: &[Command]) -> Vec<Command> {
    cmds.iter().filter(|x| matches!(x, Command::Draw { .. })).copied().collect()
}

#[test]
fn float_bit_constants_match_f32() {
    assert_eq!(F32_ZERO, 0.0f32.to_bits());
    assert_eq!(F32_ONE, 1.0f32.to_bits());
    assert_eq!(F32_HALF, 0.5f32.to_bits());
    assert_eq!(F32_NEG_HALF, (-0.5f32).to_bits());
}

#[test]
fn vertex_bytes_are_little_endian_words() {
    let v = vtx([1.0, -0.5, 0.0], [0.5, 0.0, 1.0]);
    let b = v.to_bytes();
    assert_eq!(b.len(), VERTEX_SIZE);
    assert_eq!(b.len(), 24);
    let mut expected: Vec<u8> = Vec::new();
    for x in [1.0f32, -0.5, 0.0, 0.5, 0.0, 1.0] {
        expected.extend_from_slice(&x.to_le_bytes());
    }
    assert_eq!(b, expected);
    assert_eq!(&b[0..4], &[0x00, 0x00, 0x80, 0x3F]);
    assert_eq!(&b[4..8], &[0x00, 0x00, 0x00, 0xBF]);
}

#[test]
fn vertex_layout_matches_wire_image() {
    let l = Vertex::layout();
    assert_eq!(l.stride, 24);
    assert_eq!(POSITION_OFFSET, 0);
    assert_eq!(COLOR_OFFSET, 12);
    assert_eq!(
        l.attributes,
        vec![
            VertexAttribute { location: 0, offset: 0, format: VertexFormat::Float32x3 },
            VertexAttribute { location: 1, offset: 12, format: VertexFormat::Float32x3 },
        ]
    );
}

#[test]
fn cube_mesh_has_eight_corners() {
    let m = cube_mesh();
    assert_eq!(m.label(), Some("Cube"));
    assert_eq!(m.vertices().len(), 8);
    assert_eq!(m.vertex_count(), 8);
    assert_eq!(m.vertices()[0], vtx([-0.5, -0.5, 0.5], [1.0, 0.0, 0.0]));
    assert_eq!(m.vertices()[2], vtx([0.5, 0.5, 0.5], [1.0, 0.0, 0.0]));
    assert_eq!(m.vertices()[4], vtx([-0.5, -0.5, -0.5], [0.0, 1.0, 0.0]));
    assert_eq!(m.vertices()[7], vtx([-0.5, 0.5, -0.5], [0.0, 1.0, 0.0]));
}

#[test]
fn mesh_new_and_set_vertices() {
    let t = triangle();
    let mut m = Mesh::new(None, &t);
    assert_eq!(m.label(), None);
    assert_eq!(m.vertices(), t.as_slice());
    let one = vec![vtx([0.0, 0.0, 0.0], [1.0, 1.0, 1.0])];
    m.set_vertices(&one);
    assert_eq!(m.vertices(), one.as_slice());
    m.set_vertices(&[]);
    assert!(m.vertices().is_empty());
}

#[test]
fn combined_length_is_sum_of_meshes() {
    let mut c = MeshCollection::new();
    assert!(c.push(cube_mesh()).is_ok());
    assert!(c.push(Mesh::new(Some("Tri"), &triangle())).is_ok());
    assert_eq!(c.len(), 2);
    assert_eq!(c.total_vertex_count(), 11);
    let b = c.build();
    assert_eq!(b.bytes.len(), (8 + 3) * 24);
    assert_eq!(b.vertex_count, 11);
    assert_eq!(b.mesh_offsets, vec![0, 8]);
    let mut expected: Vec<u8> = Vec::new();
    for v in cube_mesh().vertices().iter().chain(triangle().iter()) {
        expected.extend(v.to_bytes());
    }
    assert_eq!(b.bytes, expected);
}

#[test]
fn rebuilding_twice_is_identical() {
    let mut c = MeshCollection::new();
    c.push(cube_mesh()).unwrap();
    c.push(Mesh::new(None, &triangle())).unwrap();
    assert!(c.is_dirty());
    let first = c.rebuild();
    assert!(!c.is_dirty());
    let second = c.rebuild();
    assert_eq!(first.bytes, second.bytes);
    assert_eq!(first.vertex_count, second.vertex_count);
    assert_eq!(first.mesh_offsets, second.mesh_offsets);
}

#[test]
fn set_mesh_vertices_replaces_and_marks_dirty() {
    let mut c = MeshCollection::new();
    c.push(cube_mesh()).unwrap();
    c.rebuild();
    assert_eq!(c.set_mesh_vertices(0, &triangle()), Ok(()));
    assert!(c.is_dirty());
    assert_eq!(c.total_vertex_count(), 3);
    assert_eq!(c.mesh(0).unwrap().label(), Some("Cube"));
    assert_eq!(c.rebuild().bytes.len(), 72);
}

#[test]
fn set_mesh_vertices_on_missing_mesh_fails() {
    let mut c = MeshCollection::new();
    c.push(cube_mesh()).unwrap();
    c.rebuild();
    assert_eq!(c.set_mesh_vertices(1, &triangle()), Err(MeshError::NoSuchMesh));
    assert!(!c.is_dirty());
    assert_eq!(c.total_vertex_count(), 8);
    assert!(c.mesh(1).is_none());
}

#[test]
fn append_marks_dirty_and_next_frame_draws_all() {
    let mut s = RenderState::new(640, 480);
    s.begin_frame(0);
    assert!(!s.meshes().is_dirty());
    s.push_mesh(cube_mesh()).unwrap();
    assert!(s.meshes().is_dirty());
    let b = s.begin_frame(1_000).expect("dirty collection is rebuilt");
    assert_eq!(b.vertex_count, 8);
    s.push_mesh(Mesh::new(Some("Tri"), &triangle())).unwrap();
    let b = s.begin_frame(2_000).expect("dirty collection is rebuilt");
    assert_eq!(b.vertex_count, 11);
    assert_eq!(b.bytes.len(), 11 * 24);
    assert_eq!(s.draw_range(), (0, 11));
    match s.on_acquire(AcquireOutcome::Acquired) {
        FrameAction::Record(cmds) => assert_eq!(
            draw_of(&cmds),
            vec![Command::Draw { first_vertex: 0, vertex_count: 11, first_instance: 0, instance_count: 1 }]
        ),
        other => panic!("unexpected action {:?}", other),
    }
    assert!(s.begin_frame(3_000).is_none());
}

#[test]
fn clock_is_monotonic_and_starts_at_zero() {
    let mut s = RenderState::new(640, 480);
    assert_eq!(s.elapsed_nanos(), 0);
    s.begin_frame(16_000_000);
    assert_eq!(s.elapsed_nanos(), 16_000_000);
    s.begin_frame(5_000_000);
    assert_eq!(s.elapsed_nanos(), 16_000_000);
    s.begin_frame(33_000_000);
    assert_eq!(s.elapsed_nanos(), 33_000_000);
}

#[test]
fn uniform_bytes_hold_time_bits() {
    let b = uniform_bytes(1.5f32.to_bits());
    assert_eq!(b.len(), UNIFORM_SIZE);
    assert_eq!(b, 1.5f32.to_le_bytes().to_vec());
    assert_eq!(uniform_bytes(0), vec![0, 0, 0, 0]);
}

#[test]
fn empty_collection_draws_empty_range() {
    let mut s = RenderState::new(640, 480);
    let b = s.begin_frame(0).expect("first frame builds the buffer");
    assert!(b.bytes.is_empty());
    assert_eq!(b.vertex_count, 0);
    assert!(b.mesh_offsets.is_empty());
    assert_eq!(s.draw_range(), (0, 0));
    match s.on_acquire(AcquireOutcome::Acquired) {
        FrameAction::Record(cmds) => {
            assert_eq!(
                draw_of(&cmds),
                vec![Command::Draw { first_vertex: 0, vertex_count: 0, first_instance: 0, instance_count: 1 }]
            );
            assert_eq!(count_of(&cmds, Command::Present), 1);
        }
        other => panic!("unexpected action {:?}", other),
    }
}

#[test]
fn emptied_mesh_draws_no_stale_geometry() {
    let mut s = RenderState::new(640, 480);
    s.push_mesh(cube_mesh()).unwrap();
    s.begin_frame(0);
    assert_eq!(s.draw_range(), (0, 8));
    s.set_mesh_vertices(0, &[]).unwrap();
    let b = s.begin_frame(1).unwrap();
    assert!(b.bytes.is_empty());
    assert_eq!(s.draw_range(), (0, 0));
}

#[test]
fn one_cube_one_frame() {
    let mut s = RenderState::new(800, 600);
    s.push_mesh(cube_mesh()).unwrap();
    let b = s.begin_frame(0).expect("buffer rebuilt");
    assert_eq!(b.bytes.len(), 192);
    match s.on_acquire(AcquireOutcome::Acquired) {
        FrameAction::Record(cmds) => {
            let black = [0.0f32.to_bits(), 0.0f32.to_bits(), 0.0f32.to_bits(), 1.0f32.to_bits()];
            assert_eq!(
                cmds,
                vec![
                    Command::BeginRenderPass { clear: black },
                    Command::SetPipeline,
                    Command::SetBindGroup { slot: 0 },
                    Command::SetVertexBuffer { slot: 0 },
                    Command::Draw { first_vertex: 0, vertex_count: 8, first_instance: 0, instance_count: 1 },
                    Command::EndRenderPass,
                    Command::Submit,
                    Command::Present,
                ]
            );
            assert_eq!(count_of(&cmds, Command::Submit), 1);
            assert_eq!(count_of(&cmds, Command::Present), 1);
        }
        other => panic!("unexpected action {:?}", other),
    }
}

#[test]
fn outdated_surface_is_recoverable() {
    let mut s = RenderState::new(800, 600);
    s.push_mesh(cube_mesh()).unwrap();
    s.begin_frame(0);
    assert_eq!(s.on_acquire(AcquireOutcome::Outdated), FrameAction::Reconfigure);
    assert!(s.needs_reconfigure());
    assert!(s.reconfigure(1024, 768));
    assert!(!s.needs_reconfigure());
    assert_eq!(s.surface_size(), (1024, 768));
    assert!(s.begin_frame(10).is_none());
    match s.on_acquire(AcquireOutcome::Acquired) {
        FrameAction::Record(cmds) => {
            assert_eq!(cmds.last(), Some(&Command::Present));
            assert_eq!(count_of(&cmds, Command::Present), 1);
        }
        other => panic!("unexpected action {:?}", other),
    }
}

#[test]
fn lost_surface_is_recoverable() {
    let mut s = RenderState::new(800, 600);
    assert_eq!(s.on_acquire(AcquireOutcome::Lost), FrameAction::Reconfigure);
    assert!(s.needs_reconfigure());
}

#[test]
fn other_acquire_failures_are_fatal() {
    let mut s = RenderState::new(800, 600);
    assert_eq!(s.on_acquire(AcquireOutcome::Timeout), FrameAction::Fatal(SurfaceFailure::Timeout));
    assert_eq!(
        s.on_acquire(AcquireOutcome::OutOfMemory),
        FrameAction::Fatal(SurfaceFailure::OutOfMemory)
    );
    assert_eq!(s.on_acquire(AcquireOutcome::Other), FrameAction::Fatal(SurfaceFailure::Other));
    assert!(!s.needs_reconfigure());
}

#[test]
fn zero_sized_reconfigure_is_refused() {
    let mut s = RenderState::new(800, 600);
    s.on_acquire(AcquireOutcome::Outdated);
    assert!(!s.reconfigure(0, 600));
    assert!(!s.reconfigure(800, 0));
    assert!(s.needs_reconfigure());
    assert_eq!(s.surface_size(), (800, 600));
}

#[test]
fn upload_image_of_empty_buffer_is_one_zeroed_record() {
    let mut c = MeshCollection::new();
    let b = c.rebuild();
    assert_eq!(b.upload_image(), vec![0u8; 24]);
    c.push(Mesh::new(None, &triangle())).unwrap();
    let b = c.rebuild();
    assert_eq!(b.upload_image(), b.bytes);
    assert_eq!(b.upload_image().len(), 72);
}
