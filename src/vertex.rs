use vstd::prelude::*;

verus! {

/// Size in bytes of one vertex record: three position words and three colour words.
pub const VERTEX_SIZE: usize = 24;

/// Byte offset of the position attribute inside a vertex record.
pub const POSITION_OFFSET: u64 = 0;

/// Byte offset of the colour attribute inside a vertex record.
pub const COLOR_OFFSET: u64 = 12;

/// IEEE-754 single-precision bit pattern of `0.0`.
pub const F32_ZERO: u32 = 0x0000_0000;

/// IEEE-754 single-precision bit pattern of `1.0`.
pub const F32_ONE: u32 = 0x3F80_0000;

/// IEEE-754 single-precision bit pattern of `0.5`.
pub const F32_HALF: u32 = 0x3F00_0000;

/// IEEE-754 single-precision bit pattern of `-0.5`.
pub const F32_NEG_HALF: u32 = 0xBF00_0000;

/// The four little-endian bytes of a 32-bit word, as GPU buffers store it.
pub open spec fn word_bytes(w: u32) -> Seq<u8> {
    seq![
        (w % 256) as u8,
        ((w / 256) % 256) as u8,
        ((w / 65536) % 256) as u8,
        (w / 16777216) as u8,
    ]
}

/// Appends the little-endian bytes of `w` to `out`.
pub fn push_word_bytes(out: &mut Vec<u8>, w: u32)
    ensures
        final(out)@ == old(out)@ + word_bytes(w),
{
    out.push((w % 256) as u8);
    out.push(((w / 256) % 256) as u8);
    out.push(((w / 65536) % 256) as u8);
    out.push((w / 16777216) as u8);
    assert(final(out)@ =~= old(out)@ + word_bytes(w));
}

/// One vertex. Each float32 component is held as its IEEE-754 bit pattern, so
/// the record is plain data whose byte image is exact.
#[derive(Clone, Copy, Debug, PartialEq, Eq)]
pub struct Vertex {
    pub position: [u32; 3],
    pub color: [u32; 3],
}

/// The 24-byte wire image of a vertex: position at offset 0, colour at offset 12.
pub open spec fn vertex_bytes(v: Vertex) -> Seq<u8> {
    word_bytes(v.position@[0]) + word_bytes(v.position@[1]) + word_bytes(v.position@[2])
        + word_bytes(v.color@[0]) + word_bytes(v.color@[1]) + word_bytes(v.color@[2])
}

/// Format of one vertex attribute as the pipeline declares it.
#[derive(Clone, Copy, Debug, PartialEq, Eq)]
pub enum VertexFormat {
    /// Three consecutive float32 values.
    Float32x3,
}

/// One attribute of the vertex-buffer layout.
#[derive(Clone, Copy, Debug, PartialEq, Eq)]
pub struct VertexAttribute {
    pub location: u32,
    pub offset: u64,
    pub format: VertexFormat,
}

/// The vertex-buffer layout that a pipeline declares for [`Vertex`].
#[derive(Clone, Debug, PartialEq, Eq)]
pub struct VertexLayout {
    pub stride: u64,
    pub attributes: Vec<VertexAttribute>,
}

impl Vertex {
    /// A vertex from the bit patterns of its position and colour components.
    pub fn new(position: [u32; 3], color: [u32; 3]) -> (r: Vertex)
        ensures
            r.position == position,
            r.color == color,
    {
        Vertex { position, color }
    }

    /// Appends the wire image of this vertex to `out`.
    pub fn write_bytes(&self, out: &mut Vec<u8>)
        ensures
            final(out)@ == old(out)@ + vertex_bytes(*self),
    {
        push_word_bytes(out, self.position[0]);
        push_word_bytes(out, self.position[1]);
        push_word_bytes(out, self.position[2]);
        push_word_bytes(out, self.color[0]);
        push_word_bytes(out, self.color[1]);
        push_word_bytes(out, self.color[2]);
        assert(final(out)@ =~= old(out)@ + vertex_bytes(*self));
    }

    /// The wire image of this vertex.
    pub fn to_bytes(&self) -> (r: Vec<u8>)
        ensures
            r@ == vertex_bytes(*self),
            r@.len() == VERTEX_SIZE,
    {
        let mut out: Vec<u8> = Vec::new();
        self.write_bytes(&mut out);
        assert(out@ =~= vertex_bytes(*self));
        out
    }

    /// The layout matching the wire image: stride 24, position as attribute 0 at
    /// offset 0, colour as attribute 1 at offset 12.
    pub fn layout() -> (r: VertexLayout)
        ensures
            r.stride == VERTEX_SIZE,
            r.attributes@ == seq![
                VertexAttribute { location: 0, offset: POSITION_OFFSET, format: VertexFormat::Float32x3 },
                VertexAttribute { location: 1, offset: COLOR_OFFSET, format: VertexFormat::Float32x3 },
            ],
    {
        let attributes = vec![
            VertexAttribute { location: 0, offset: POSITION_OFFSET, format: VertexFormat::Float32x3 },
            VertexAttribute { location: 1, offset: COLOR_OFFSET, format: VertexFormat::Float32x3 },
        ];
        VertexLayout { stride: VERTEX_SIZE as u64, attributes }
    }
}

/// Every vertex has a 24-byte image, and its colour starts at byte 12.
pub proof fn vertex_image_layout(v: Vertex)
    ensures
        vertex_bytes(v).len() == VERTEX_SIZE,
        vertex_bytes(v).subrange(COLOR_OFFSET as int, VERTEX_SIZE as int)
            == word_bytes(v.color@[0]) + word_bytes(v.color@[1]) + word_bytes(v.color@[2]),
{
    assert(vertex_bytes(v).subrange(COLOR_OFFSET as int, VERTEX_SIZE as int)
        =~= word_bytes(v.color@[0]) + word_bytes(v.color@[1]) + word_bytes(v.color@[2]));
}

} // verus!
