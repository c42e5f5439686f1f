//! The geometry table: the four corners of the quad, the index list that
//! splits it into two triangles, and the memory layout of one vertex as the
//! GPU reads it.
//!
//! Coordinates and colour channels are stored as IEEE-754 single-precision
//! bit patterns, so the table is exactly the data that reaches the vertex
//! buffer.

use vstd::prelude::*;
use crate::bytes::{
    halves_to_bytes, is_native_halves_image, is_native_words_image, words_to_bytes,
};
use crate::ieee::{SINGLE_MINUS_ONE, SINGLE_ONE, SINGLE_ZERO};

verus! {

/// Number of 32-bit components in one vertex: three of position, three of
/// colour.
pub const VERTEX_WORDS: usize = 6;

/// Size in bytes of one vertex in a vertex buffer.
pub const VERTEX_SIZE: u64 = 24;

/// One corner of the quad.
#[derive(Clone, Copy, Debug)]
pub struct Vertex {
    /// x, y, z as single-precision bit patterns.
    pub position: [u32; 3],
    /// red, green, blue as single-precision bit patterns.
    pub color: [u32; 3],
}

/// The vertex at `position`, coloured magenta.
pub open spec fn magenta_at(x: u32, y: u32) -> Vertex {
    Vertex { position: [x, y, SINGLE_ZERO], color: [SINGLE_ONE, SINGLE_ZERO, SINGLE_ONE] }
}

/// The quad: bottom-left, bottom-right, top-right, top-left, all magenta.
pub open spec fn quad_vertices() -> Seq<Vertex> {
    seq![
        magenta_at(SINGLE_MINUS_ONE, SINGLE_MINUS_ONE),
        magenta_at(SINGLE_ONE, SINGLE_MINUS_ONE),
        magenta_at(SINGLE_ONE, SINGLE_ONE),
        magenta_at(SINGLE_MINUS_ONE, SINGLE_ONE),
    ]
}

/// Two triangles over the four corners: (0, 1, 2) and (0, 2, 3).
pub const INDICES: [u16; 6] = [0, 1, 2, 0, 2, 3];

/// The vertex table of the quad.
pub fn vertices() -> (table: [Vertex; 4])
    ensures
        table@ == quad_vertices(),
{
    let magenta = [SINGLE_ONE, SINGLE_ZERO, SINGLE_ONE];
    let table = [
        Vertex { position: [SINGLE_MINUS_ONE, SINGLE_MINUS_ONE, SINGLE_ZERO], color: magenta },
        Vertex { position: [SINGLE_ONE, SINGLE_MINUS_ONE, SINGLE_ZERO], color: magenta },
        Vertex { position: [SINGLE_ONE, SINGLE_ONE, SINGLE_ZERO], color: magenta },
        Vertex { position: [SINGLE_MINUS_ONE, SINGLE_ONE, SINGLE_ZERO], color: magenta },
    ];
    assert(table@ =~= quad_vertices());
    table
}

/// Number of entries of the index list, as a draw call takes it.
pub fn num_indices() -> (count: u32)
    ensures
        count == INDICES@.len(),
        count == 6,
{
    6
}

impl Vertex {
    /// The six 32-bit components of the vertex in buffer order: position, then
    /// colour.
    pub open spec fn words(self) -> Seq<u32> {
        self.position@ + self.color@
    }

    /// The layout of one vertex in the vertex buffer: position at shader
    /// location 0 and colour at location 1, three single-precision components
    /// each, the second attribute directly behind the first and the stride
    /// equal to the size of both, so no byte of padding.
    pub fn desc() -> (layout: VertexBufferLayout)
        ensures
            layout.describes_vertex(),
            layout.is_tightly_packed(),
            layout.array_stride == 4 * VERTEX_WORDS,
    {
        let position = VertexFormat::Float32x3;
        let color = VertexFormat::Float32x3;
        let attributes = [
            VertexAttribute { format: position, offset: 0, shader_location: 0 },
            VertexAttribute { format: color, offset: position.size(), shader_location: 1 },
        ];
        let layout = VertexBufferLayout {
            array_stride: position.size() + color.size(),
            step_mode: VertexStepMode::Vertex,
            attributes,
        };
        proof {
            reveal_with_fuel(packed_size, 3);
            assert(layout.attributes@ =~= vertex_attributes());
        }
        layout
    }
}

/// Component format of one vertex attribute.
#[derive(Clone, Copy, Debug, PartialEq, Eq, Structural)]
pub enum VertexFormat {
    /// One single-precision component.
    Float32,
    /// Two single-precision components.
    Float32x2,
    /// Three single-precision components.
    Float32x3,
    /// Four single-precision components.
    Float32x4,
}

impl VertexFormat {
    /// Number of 32-bit components of the format.
    pub open spec fn components(self) -> nat {
        match self {
            VertexFormat::Float32 => 1,
            VertexFormat::Float32x2 => 2,
            VertexFormat::Float32x3 => 3,
            VertexFormat::Float32x4 => 4,
        }
    }

    /// Size in bytes of an attribute of this format: four for each component.
    pub fn size(&self) -> (bytes: u64)
        ensures
            bytes == 4 * self.components(),
    {
        match self {
            VertexFormat::Float32 => 4,
            VertexFormat::Float32x2 => 8,
            VertexFormat::Float32x3 => 12,
            VertexFormat::Float32x4 => 16,
        }
    }
}

/// Whether the vertex buffer advances once for each vertex or for each
/// instance.
#[derive(Clone, Copy, Debug, PartialEq, Eq, Structural)]
pub enum VertexStepMode {
    /// The buffer advances for each vertex.
    Vertex,
    /// The buffer advances for each instance.
    Instance,
}

/// One input of the vertex shader and where its data lies within a vertex.
#[derive(Clone, Copy, Debug, PartialEq, Eq, Structural)]
pub struct VertexAttribute {
    /// Component format of the attribute.
    pub format: VertexFormat,
    /// Byte offset of the attribute from the start of the vertex.
    pub offset: u64,
    /// Location of the attribute in the shader.
    pub shader_location: u32,
}

/// How a vertex buffer is read: the distance between two vertices and the
/// attributes within each.
#[derive(Clone, Copy, Debug)]
pub struct VertexBufferLayout {
    /// Byte distance between two successive vertices.
    pub array_stride: u64,
    /// How the buffer advances.
    pub step_mode: VertexStepMode,
    /// The attributes of one vertex.
    pub attributes: [VertexAttribute; 2],
}

/// Total size in bytes of the first `count` of `attributes`.
pub open spec fn packed_size(attributes: Seq<VertexAttribute>, count: nat) -> nat
    decreases count,
{
    if count == 0 {
        0
    } else {
        packed_size(attributes, (count - 1) as nat) + 4 * attributes[count - 1].format.components()
    }
}

/// The attributes of a vertex of the geometry table: the position at offset
/// 0 and shader location 0, the colour at offset 12 and shader location 1,
/// three single-precision components each.
pub open spec fn vertex_attributes() -> Seq<VertexAttribute> {
    seq![
        VertexAttribute { format: VertexFormat::Float32x3, offset: 0, shader_location: 0 },
        VertexAttribute { format: VertexFormat::Float32x3, offset: 12, shader_location: 1 },
    ]
}

impl VertexBufferLayout {
    /// The layout is that of the geometry table's vertices: a stride of 24
    /// bytes, one step for each vertex, and the two attributes of a vertex.
    pub open spec fn describes_vertex(self) -> bool {
        &&& self.array_stride == VERTEX_SIZE
        &&& self.step_mode == VertexStepMode::Vertex
        &&& self.attributes@ == vertex_attributes()
    }

    /// Every attribute starts where the one before it ends, the first at
    /// offset zero, and the stride is the size of all of them.
    pub open spec fn is_tightly_packed(self) -> bool {
        &&& forall|i: int|
            0 <= i < self.attributes@.len() ==> (#[trigger] self.attributes@[i]).offset
                == packed_size(self.attributes@, i as nat)
        &&& self.array_stride == packed_size(self.attributes@, self.attributes@.len())
    }
}

/// What a GPU buffer is used for.
#[derive(Clone, Copy, Debug, PartialEq, Eq, Structural)]
pub enum BufferUsage {
    /// Source of vertex data for a draw call.
    Vertex,
    /// Source of index data for an indexed draw call.
    Index,
    /// Uniform data read by shaders, rewritable from the CPU.
    Uniform,
}

/// A request to create a GPU buffer holding the given bytes.
#[derive(Clone, Debug)]
pub struct BufferInit {
    /// Debug label of the buffer.
    pub label: &'static str,
    /// The bytes the buffer starts with.
    pub contents: Vec<u8>,
    /// What the buffer is used for.
    pub usage: BufferUsage,
}

/// The components of all vertices of `table` in buffer order, six for each
/// vertex.
pub open spec fn table_words(table: Seq<Vertex>) -> Seq<u32> {
    Seq::new(6 * table.len(), |i: int| table[i / 6].words()[i % 6])
}

/// Flattens a vertex table into its 32-bit components, in buffer order.
pub fn vertex_words(table: &[Vertex]) -> (words: Vec<u32>)
    ensures
        words@ == table_words(table@),
{
    let mut words: Vec<u32> = Vec::new();
    let mut i: usize = 0;
    while i < table.len()
        invariant
            i <= table.len(),
            words@ == table_words(table@.take(i as int)),
        decreases table.len() - i,
    {
        let vertex = table[i];
        let ghost before = words@;
        words.push(vertex.position[0]);
        words.push(vertex.position[1]);
        words.push(vertex.position[2]);
        words.push(vertex.color[0]);
        words.push(vertex.color[1]);
        words.push(vertex.color[2]);
        proof {
            let next = table@.take(i + 1);
            assert(words@.len() == table_words(next).len());
            assert forall|k: int| 0 <= k < words@.len() implies words@[k] == table_words(
                next,
            )[k] by {
                if k < 6 * i {
                    assert(before[k] == table_words(table@.take(i as int))[k]);
                    assert(k / 6 < i);
                } else {
                    assert(k / 6 == i);
                    assert(next[i as int] == vertex);
                    assert(k % 6 == k - 6 * i);
                }
            }
            assert(words@ =~= table_words(next));
        }
        i += 1;
    }
    assert(table@.take(i as int) =~= table@);
    words
}

/// The vertex buffer of the quad: the vertex table as the GPU reads it, for
/// use as vertex data.
pub fn create_vertex_buffer() -> (init: BufferInit)
    ensures
        init.usage == BufferUsage::Vertex,
        init.label@ == "Vertex Buffer"@,
        is_native_words_image(init.contents@, table_words(quad_vertices())),
        init.contents@.len() == 4 * VERTEX_SIZE,
{
    let table = vertices();
    let words = vertex_words(&table);
    let contents = words_to_bytes(&words);
    BufferInit { label: "Vertex Buffer", contents, usage: BufferUsage::Vertex }
}

/// The index buffer of the quad: the index list as the GPU reads it, two
/// bytes for each index, for use as index data.
pub fn create_index_buffer() -> (init: BufferInit)
    ensures
        init.usage == BufferUsage::Index,
        init.label@ == "Index Buffer"@,
        is_native_halves_image(init.contents@, INDICES@),
        init.contents@.len() == 2 * INDICES@.len(),
{
    let indices = INDICES;
    let contents = halves_to_bytes(&indices);
    BufferInit { label: "Index Buffer", contents, usage: BufferUsage::Index }
}

} // verus!
