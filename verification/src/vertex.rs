//! The quad's vertices, their indices and the layout of one vertex in the
//! vertex buffer.

use vstd::prelude::*;
use crate::encoding::halfwords_le;
use crate::encoding::halfwords_to_le_bytes;
use crate::encoding::words_le;
use crate::encoding::words_to_le_bytes;
use crate::single::nearest_single;

verus! {

/// The type of one vertex attribute as the shader sees it.
#[derive(Clone, Copy, Debug, PartialEq, Eq)]
pub enum VertexFormat {
    /// Two single-precision numbers.
    Float32x2,
    /// Three single-precision numbers.
    Float32x3,
}

impl VertexFormat {
    /// The number of bytes that an attribute of this format takes.
    pub open spec fn spec_size(self) -> nat {
        match self {
            VertexFormat::Float32x2 => 8,
            VertexFormat::Float32x3 => 12,
        }
    }

    /// The number of bytes that an attribute of this format takes.
    pub fn size(self) -> (r: u64)
        ensures
            r == self.spec_size(),
    {
        match self {
            VertexFormat::Float32x2 => 8,
            VertexFormat::Float32x3 => 12,
        }
    }
}

/// Whether the vertex buffer advances once per vertex or once per instance.
#[derive(Clone, Copy, Debug, PartialEq, Eq)]
pub enum VertexStepMode {
    Vertex,
    Instance,
}

/// One input of the vertex shader: where it lies in a vertex and what it is.
#[derive(Clone, Copy, Debug, PartialEq, Eq)]
pub struct VertexAttribute {
    pub format: VertexFormat,
    pub offset: u64,
    pub shader_location: u32,
}

/// How the vertex buffer is cut into vertices and attributes.
#[derive(Clone, Debug, PartialEq, Eq)]
pub struct VertexBufferLayout {
    pub array_stride: u64,
    pub step_mode: VertexStepMode,
    pub attributes: Vec<VertexAttribute>,
}

/// The bytes that the attributes before index `n` take together.
pub open spec fn bytes_before(attributes: Seq<VertexAttribute>, n: int) -> nat
    decreases n,
{
    if n <= 0 || n > attributes.len() {
        0
    } else {
        bytes_before(attributes, n - 1) + attributes[n - 1].format.spec_size()
    }
}

impl VertexBufferLayout {
    /// The attributes follow each other without a gap from offset 0, the
    /// stride is their total size, and each is bound to the shader location
    /// of its index.
    pub open spec fn is_packed(self) -> bool {
        &&& self.array_stride == bytes_before(self.attributes@, self.attributes@.len() as int)
        &&& forall|i: int|
            0 <= i < self.attributes@.len() ==> {
                &&& (#[trigger] self.attributes@[i]).offset == bytes_before(self.attributes@, i)
                &&& self.attributes@[i].shader_location == i
            }
    }
}

/// A corner of the quad: a position in local space and the texture coordinate
/// that is sampled there, each number held as its single-precision pattern.
#[derive(Clone, Copy, Debug, PartialEq, Eq)]
pub struct Vertex {
    pub position: [u32; 3],
    pub tex_coords: [u32; 2],
}

/// The number of 32-bit words in one vertex.
pub const VERTEX_WORDS: usize = 5;

/// The width of the quad in local space.
pub const QUAD_WIDTH: u32 = 640;

/// The height of the quad in local space.
pub const QUAD_HEIGHT: u32 = 360;

impl Vertex {
    /// The five words of the vertex in buffer order: position, then texture
    /// coordinates.
    pub open spec fn words(self) -> Seq<u32> {
        self.position@ + self.tex_coords@
    }

    /// The layout of a buffer of vertices: 20 bytes each, stepped per vertex,
    /// the position as three numbers at offset 0 for shader location 0, the
    /// texture coordinates as two numbers at offset 12 for shader location 1.
    pub fn desc() -> (r: VertexBufferLayout)
        ensures
            r.array_stride == 20,
            r.array_stride == 4 * VERTEX_WORDS,
            r.step_mode == VertexStepMode::Vertex,
            r.attributes@ == seq![
                VertexAttribute { format: VertexFormat::Float32x3, offset: 0, shader_location: 0 },
                VertexAttribute { format: VertexFormat::Float32x2, offset: 12, shader_location: 1 },
            ],
            r.is_packed(),
    {
        let position = VertexAttribute {
            format: VertexFormat::Float32x3,
            offset: 0,
            shader_location: 0,
        };
        let tex_coords = VertexAttribute {
            format: VertexFormat::Float32x2,
            offset: position.format.size(),
            shader_location: 1,
        };
        let array_stride: u64 = tex_coords.offset + tex_coords.format.size();
        let mut attributes: Vec<VertexAttribute> = Vec::new();
        attributes.push(position);
        attributes.push(tex_coords);
        let r = VertexBufferLayout { array_stride, step_mode: VertexStepMode::Vertex, attributes };
        proof {
            reveal_with_fuel(bytes_before, 3);
            assert(r.attributes@ =~= seq![position, tex_coords]);
        }
        r
    }
}

/// The words of all `vertices` in buffer order, five per vertex.
pub open spec fn vertex_words(vertices: Seq<Vertex>) -> Seq<u32> {
    Seq::new(
        VERTEX_WORDS as nat * vertices.len(),
        |i: int| vertices[i / VERTEX_WORDS as int].words()[i % VERTEX_WORDS as int],
    )
}

/// The four corners of a rectangle of `width` by `height` with one corner at
/// the origin, in the plane `z = 0`, going round from the origin along the
/// x axis first; the texture coordinates run over the unit square.
pub open spec fn quad_corners(width: u32, height: u32) -> Seq<Seq<u32>> {
    let x = nearest_single(width as nat);
    let y = nearest_single(height as nat);
    let one = nearest_single(1);
    seq![
        seq![0u32, 0u32, 0u32, 0u32, 0u32],
        seq![x, 0u32, 0u32, one, 0u32],
        seq![x, y, 0u32, one, one],
        seq![0u32, y, 0u32, 0u32, one],
    ]
}

/// The twenty words of the quad's four vertices in buffer order.
pub open spec fn quad_words(width: u32, height: u32) -> Seq<u32> {
    Seq::new(20, |i: int| quad_corners(width, height)[i / 5][i % 5])
}

/// The index list of the quad's two triangles.
pub open spec fn quad_index_list() -> Seq<u16> {
    seq![1u16, 0u16, 2u16, 0u16, 2u16, 3u16]
}

/// The four vertices of the quad of `width` by `height`.
pub fn quad_vertices(width: u32, height: u32) -> (r: Vec<Vertex>)
    ensures
        r@.len() == 4,
        forall|i: int| 0 <= i < 4 ==> (#[trigger] r@[i]).words() == quad_corners(width, height)[i],
        vertex_words(r@) == quad_words(width, height),
{
    let x: u32 = crate::single::from_u32(width);
    let y: u32 = crate::single::from_u32(height);
    let one: u32 = crate::single::from_u32(1);
    let mut r: Vec<Vertex> = Vec::new();
    r.push(Vertex { position: [0, 0, 0], tex_coords: [0, 0] });
    r.push(Vertex { position: [x, 0, 0], tex_coords: [one, 0] });
    r.push(Vertex { position: [x, y, 0], tex_coords: [one, one] });
    r.push(Vertex { position: [0, y, 0], tex_coords: [0, one] });
    proof {
        assert forall|i: int| 0 <= i < 4 implies (#[trigger] r@[i]).words() == quad_corners(
            width,
            height,
        )[i] by {
            assert(r@[i].words() =~= quad_corners(width, height)[i]);
        }
        assert(vertex_words(r@) =~= quad_words(width, height));
    }
    r
}

/// The six indices of the quad's two triangles, each of them the index of
/// one of its four vertices.
pub fn quad_indices() -> (r: Vec<u16>)
    ensures
        r@ == quad_index_list(),
        forall|i: int| 0 <= i < r@.len() ==> #[trigger] r@[i] < 4,
{
    let mut r: Vec<u16> = Vec::new();
    r.push(1);
    r.push(0);
    r.push(2);
    r.push(0);
    r.push(2);
    r.push(3);
    assert(r@ =~= quad_index_list());
    r
}

/// The contents of a vertex buffer that holds `vertices`: 20 bytes each, the
/// five numbers of a vertex in little-endian order.
pub fn vertex_bytes(vertices: &Vec<Vertex>) -> (r: Vec<u8>)
    ensures
        r@ == words_le(vertex_words(vertices@)),
        r@.len() == 20 * vertices@.len(),
{
    let mut words: Vec<u32> = Vec::new();
    let mut i: usize = 0;
    while i < vertices.len()
        invariant
            i <= vertices.len(),
            words@.len() == VERTEX_WORDS * i,
            forall|j: int|
                0 <= j < words@.len() ==> #[trigger] words@[j] == vertex_words(vertices@)[j],
        decreases vertices.len() - i,
    {
        let v: Vertex = vertices[i];
        let ghost before = words@;
        words.push(v.position[0]);
        words.push(v.position[1]);
        words.push(v.position[2]);
        words.push(v.tex_coords[0]);
        words.push(v.tex_coords[1]);
        proof {
            assert(words@ =~= before + v.words());
            assert forall|j: int| 0 <= j < words@.len() implies #[trigger] words@[j]
                == vertex_words(vertices@)[j] by {
                if j >= before.len() {
                    assert(j / 5 == i && j % 5 == j - 5 * i);
                }
            }
        }
        i += 1;
    }
    assert(words@ =~= vertex_words(vertices@));
    words_to_le_bytes(&words)
}

/// The contents of an index buffer that holds `indices`: two bytes each in
/// little-endian order.
pub fn index_bytes(indices: &Vec<u16>) -> (r: Vec<u8>)
    ensures
        r@ == halfwords_le(indices@),
        r@.len() == 2 * indices@.len(),
{
    halfwords_to_le_bytes(indices)
}

} // verus!
