//! The triangle's geometry and the layout of a vertex in GPU memory.
//!
//! A vertex is six single-precision numbers, three for its position and
//! three for its colour. This module holds each number by its IEEE 754 bit
//! pattern, a `u32`, so that the geometry is exact data.

use vstd::prelude::*;
use wgpu::{VertexAttribute, VertexBufferLayout, VertexFormat, VertexStepMode};

verus! {

/// Bit pattern of the single-precision number zero.
pub const ZERO: u32 = 0x0000_0000;

/// Bit pattern of the single-precision number one.
pub const ONE: u32 = 0x3F80_0000;

/// Bit pattern of the single-precision number one half.
pub const HALF: u32 = 0x3F00_0000;

/// Bit pattern of the single-precision number minus one half.
pub const MINUS_HALF: u32 = 0xBF00_0000;

/// Bytes that one single-precision number takes.
pub const COMPONENT_SIZE: u64 = 4;

/// Numbers in a position, and as many in a colour.
pub const COMPONENTS: u64 = 3;

/// Bytes that a position takes, and as many a colour.
pub const ATTRIBUTE_SIZE: u64 = COMPONENTS * COMPONENT_SIZE;

/// Bytes that a vertex takes.
pub const VERTEX_SIZE: u64 = ATTRIBUTE_SIZE + ATTRIBUTE_SIZE;

/// Vertices of the triangle.
pub const VERTEX_COUNT: u32 = 3;

/// One use that a buffer is put to.
#[derive(Clone, Copy, Debug, PartialEq, Eq, Structural)]
pub enum BufferUse {
    MapRead,
    MapWrite,
    CopySrc,
    CopyDst,
    Index,
    Vertex,
    Uniform,
    Storage,
    Indirect,
    QueryResolve,
}

/// A corner of the triangle: where it lies and what colour it has, each of
/// the six numbers given by its single-precision bit pattern.
#[derive(Clone, Copy, Debug, PartialEq, Eq)]
pub struct Vertex {
    pub position: [u32; 3],
    pub color: [u32; 3],
}

impl Vertex {
    /// The six numbers of the vertex in the order in which memory holds
    /// them: position, then colour.
    pub open spec fn words(self) -> Seq<u32> {
        self.position@ + self.color@
    }

    /// The layout of one vertex in a vertex buffer: position and colour
    /// interleaved, three single-precision numbers each, the position
    /// first, one vertex after the other.
    pub open spec fn layout() -> VertexBufferLayout<'static> {
        VertexBufferLayout {
            array_stride: 24,
            step_mode: VertexStepMode::Vertex,
            attributes: &[
                VertexAttribute { format: VertexFormat::Float32x3, offset: 0, shader_location: 0 },
                VertexAttribute { format: VertexFormat::Float32x3, offset: 12, shader_location: 1 },
            ],
        }
    }

    /// Describes the vertex buffer to the pipeline: a vertex every
    /// `VERTEX_SIZE` bytes, its position at the front and its colour
    /// directly behind the position.
    pub fn desc() -> (layout: VertexBufferLayout<'static>)
        ensures
            layout == Vertex::layout(),
    {
        let layout = VertexBufferLayout {
            array_stride: VERTEX_SIZE,
            step_mode: VertexStepMode::Vertex,
            attributes: &[
                VertexAttribute { format: VertexFormat::Float32x3, offset: 0, shader_location: 0 },
                VertexAttribute {
                    format: VertexFormat::Float32x3,
                    offset: ATTRIBUTE_SIZE,
                    shader_location: 1,
                },
            ],
        };
        assert(layout.attributes@ =~= Vertex::layout().attributes@);
        layout
    }
}

/// The triangle: its upper left corner red, its lower left corner green,
/// its lower right corner blue, in the plane of depth zero.
pub open spec fn triangle() -> [Vertex; 3] {
    [
        Vertex { position: [MINUS_HALF, HALF, ZERO], color: [ONE, ZERO, ZERO] },
        Vertex { position: [MINUS_HALF, MINUS_HALF, ZERO], color: [ZERO, ONE, ZERO] },
        Vertex { position: [HALF, MINUS_HALF, ZERO], color: [ZERO, ZERO, ONE] },
    ]
}

/// The vertices that the shell uploads, the same at every call.
pub fn vertices() -> (corners: [Vertex; 3])
    ensures
        corners == triangle(),
        corners@.len() == VERTEX_COUNT,
{
    let corners = [
        Vertex { position: [MINUS_HALF, HALF, ZERO], color: [ONE, ZERO, ZERO] },
        Vertex { position: [MINUS_HALF, MINUS_HALF, ZERO], color: [ZERO, ONE, ZERO] },
        Vertex { position: [HALF, MINUS_HALF, ZERO], color: [ZERO, ZERO, ONE] },
    ];
    assert(corners@ =~= triangle()@);
    corners
}

/// The numbers of a list of vertices, one vertex after the other.
pub open spec fn words_of(vertices: Seq<Vertex>) -> Seq<u32> {
    Seq::new((6 * vertices.len()) as nat, |k: int| vertices[k / 6].words()[k % 6])
}

/// Byte `k` of a word, counted from its least significant byte.
pub open spec fn byte_of(word: u32, k: int) -> u8 {
    if k == 0 {
        (word as int % 0x100) as u8
    } else if k == 1 {
        (word as int / 0x100 % 0x100) as u8
    } else if k == 2 {
        (word as int / 0x1_0000 % 0x100) as u8
    } else {
        (word as int / 0x100_0000 % 0x100) as u8
    }
}

/// The bytes of a list of words where each word is stored with its least
/// significant byte first.
pub open spec fn little_endian(words: Seq<u32>) -> Seq<u8> {
    Seq::new((4 * words.len()) as nat, |k: int| byte_of(words[k / 4], k % 4))
}

/// The bytes of a list of words where each word is stored with its most
/// significant byte first.
pub open spec fn big_endian(words: Seq<u32>) -> Seq<u8> {
    Seq::new((4 * words.len()) as nat, |k: int| byte_of(words[k / 4], 3 - k % 4))
}

/// `bytes` is what memory holds for `words` on a machine of one of the two
/// byte orders.
pub open spec fn is_memory_image(bytes: Seq<u8>, words: Seq<u32>) -> bool {
    bytes == little_endian(words) || bytes == big_endian(words)
}

/// `bytemuck::cast_slice`, from 32-bit words to bytes. The cast reads the
/// memory of the words as it lies: four bytes for each word, in the byte
/// order of the machine. From `u32` to `u8` it cannot fail, the target
/// being no wider and no stricter in alignment. Nothing here is proved.
#[verifier::external_body]
fn cast_words(words: &Vec<u32>) -> (bytes: Vec<u8>)
    ensures
        is_memory_image(bytes@, words@),
{
    bytemuck::cast_slice::<u32, u8>(words.as_slice()).to_vec()
}

/// Writes the numbers of the vertices out in memory order.
pub fn vertex_words(vertices: &[Vertex]) -> (words: Vec<u32>)
    ensures
        words@ == words_of(vertices@),
{
    let mut words: Vec<u32> = Vec::new();
    let mut i: usize = 0;
    while i < vertices.len()
        invariant
            i <= vertices@.len(),
            words@.len() == 6 * i,
            forall|k: int| 0 <= k < 6 * i ==> words@[k] == vertices@[k / 6].words()[k % 6],
        decreases vertices@.len() - i,
    {
        let vertex: Vertex = vertices[i];
        words.push(vertex.position[0]);
        words.push(vertex.position[1]);
        words.push(vertex.position[2]);
        words.push(vertex.color[0]);
        words.push(vertex.color[1]);
        words.push(vertex.color[2]);
        i += 1;
    }
    assert(words@ =~= words_of(vertices@));
    words
}

/// The contents of the vertex buffer for a list of vertices: 24 bytes for
/// each vertex, the numbers in memory order and each in the byte order of
/// the machine.
pub fn vertex_bytes(vertices: &[Vertex]) -> (bytes: Vec<u8>)
    ensures
        is_memory_image(bytes@, words_of(vertices@)),
        bytes@.len() == Vertex::layout().array_stride * vertices@.len(),
{
    let words = vertex_words(vertices);
    cast_words(&words)
}

} // verus!
