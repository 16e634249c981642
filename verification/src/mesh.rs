//! The mesh: four vertices of a tetrahedron-like solid and four triangles
//! over them, in the form in which the graphics context takes them.
//!
//! Both buffers are sequences of 32-bit words.  A vertex is six words, the
//! position `x y z` and then the colour `r g b`; each word is the bit
//! pattern of an IEEE 754 single-precision number.  A triangle is three
//! words, each the number of a vertex.

use vstd::prelude::*;
use crate::constants::{ARRAY_BUFFER, ELEMENT_ARRAY_BUFFER};
use crate::text::nul_free;

verus! {

/// The bit pattern of `0.0`.
pub const ZERO: u32 = 0x0000_0000;

/// The bit pattern of `-0.0`.
pub const NEGATIVE_ZERO: u32 = 0x8000_0000;

/// The bit pattern of `0.5`.
pub const HALF: u32 = 0x3F00_0000;

/// The bit pattern of `1.0`.
pub const ONE: u32 = 0x3F80_0000;

/// The bit pattern of `-1.0`.
pub const NEGATIVE_ONE: u32 = 0xBF80_0000;

/// How many vertices the mesh has.
pub const VERTEX_COUNT: u32 = 4;

/// How many bytes a word takes.
pub const WORD_SIZE: i32 = 4;

/// How many bytes lie between the start of one vertex and the next.
pub const VERTEX_STRIDE: i32 = 24;

/// How many indices the index buffer holds.
pub const INDEX_COUNT: i32 = 12;

/// How many indices one frame draws: the first two triangles.
pub const DRAWN_INDICES: i32 = 6;

/// The contents of the vertex buffer.
pub open spec fn vertex_words() -> Seq<u32> {
    seq![
        NEGATIVE_ZERO, ONE, ZERO, ZERO, ONE, ZERO,
        NEGATIVE_ONE, ZERO, NEGATIVE_ONE, ONE, ONE, ZERO,
        ONE, ZERO, ZERO, ONE, ZERO, ONE,
        ZERO, ZERO, ONE, ONE, ONE, ZERO,
    ]
}

/// The contents of the index buffer.
pub open spec fn index_words() -> Seq<u32> {
    seq![
        0, 1, 2,
        0, 3, 2,
        0, 1, 3,
        1, 2, 3,
    ]
}

/// The contents of the vertex buffer.
pub fn vertex_data() -> (data: Vec<u32>)
    ensures
        data@ == vertex_words(),
{
    let data = vec![
        NEGATIVE_ZERO, ONE, ZERO, ZERO, ONE, ZERO,
        NEGATIVE_ONE, ZERO, NEGATIVE_ONE, ONE, ONE, ZERO,
        ONE, ZERO, ZERO, ONE, ZERO, ONE,
        ZERO, ZERO, ONE, ONE, ONE, ZERO,
    ];
    assert(data@ =~= vertex_words());
    data
}

/// The contents of the index buffer.
pub fn index_data() -> (data: Vec<u32>)
    ensures
        data@ == index_words(),
{
    let data = vec![
        0, 1, 2,
        0, 3, 2,
        0, 1, 3,
        1, 2, 3,
    ];
    assert(data@ =~= index_words());
    data
}

/// One of the two buffers of the mesh.
#[derive(Debug, Clone, Copy, PartialEq, Eq)]
pub enum MeshBuffer {
    Vertices,
    Indices,
}

impl MeshBuffer {
    /// The binding point to which the buffer is bound.
    pub open spec fn spec_target(self) -> u32 {
        match self {
            MeshBuffer::Vertices => ARRAY_BUFFER,
            MeshBuffer::Indices => ELEMENT_ARRAY_BUFFER,
        }
    }

    /// The contents of the buffer.
    pub open spec fn spec_words(self) -> Seq<u32> {
        match self {
            MeshBuffer::Vertices => vertex_words(),
            MeshBuffer::Indices => index_words(),
        }
    }

    /// How many bytes the buffer takes.
    pub open spec fn spec_size(self) -> isize {
        (self.spec_words().len() * WORD_SIZE) as isize
    }

    /// The binding point to which the buffer is bound.
    #[verifier::when_used_as_spec(spec_target)]
    pub fn target(self) -> (target: u32)
        ensures
            target == self.spec_target(),
    {
        match self {
            MeshBuffer::Vertices => ARRAY_BUFFER,
            MeshBuffer::Indices => ELEMENT_ARRAY_BUFFER,
        }
    }

    /// How many bytes the buffer takes.
    #[verifier::when_used_as_spec(spec_size)]
    pub fn size(self) -> (size: isize)
        ensures
            size == self.spec_size(),
            size == self.spec_words().len() * WORD_SIZE,
    {
        match self {
            MeshBuffer::Vertices => 96,
            MeshBuffer::Indices => 48,
        }
    }

    /// The contents of the buffer.
    pub fn words(self) -> (words: Vec<u32>)
        ensures
            words@ == self.spec_words(),
    {
        match self {
            MeshBuffer::Vertices => vertex_data(),
            MeshBuffer::Indices => index_data(),
        }
    }
}

/// An input of the vertex shader that is fed from the vertex buffer.
#[derive(Debug, Clone, Copy, PartialEq, Eq)]
pub enum Attribute {
    Position,
    Color,
}

impl Attribute {
    /// The name of the input in the vertex shader.
    pub open spec fn spec_name(self) -> Seq<char> {
        match self {
            Attribute::Position => "position"@,
            Attribute::Color => "color"@,
        }
    }

    /// How many words of a vertex belong to the attribute.
    pub open spec fn spec_components(self) -> i32 {
        3
    }

    /// At which byte of a vertex the attribute starts.
    pub open spec fn spec_offset(self) -> i32 {
        match self {
            Attribute::Position => 0,
            Attribute::Color => 12,
        }
    }

    /// The word of the vertex buffer that holds component `k` of the
    /// attribute for vertex `vertex`.
    pub open spec fn word(self, vertex: int, k: int) -> int {
        (vertex * VERTEX_STRIDE + self.spec_offset()) / (WORD_SIZE as int) + k
    }

    /// The name of the input in the vertex shader.
    pub fn name(self) -> (name: &'static str)
        ensures
            name@ == self.spec_name(),
    {
        match self {
            Attribute::Position => "position",
            Attribute::Color => "color",
        }
    }

    /// How many words of a vertex belong to the attribute.
    #[verifier::when_used_as_spec(spec_components)]
    pub fn components(self) -> (components: i32)
        ensures
            components == self.spec_components(),
    {
        3
    }

    /// At which byte of a vertex the attribute starts.
    #[verifier::when_used_as_spec(spec_offset)]
    pub fn offset(self) -> (offset: i32)
        ensures
            offset == self.spec_offset(),
    {
        match self {
            Attribute::Position => 0,
            Attribute::Color => 12,
        }
    }
}

/// No attribute's name holds a NUL character, and the two names differ.
pub proof fn lemma_attribute_names(attribute: Attribute)
    ensures
        nul_free(attribute.spec_name()),
        Attribute::Position.spec_name() != Attribute::Color.spec_name(),
{
    reveal_strlit("position");
    reveal_strlit("color");
    assert("position"@.len() != "color"@.len());
}

/// The vertex buffer holds a whole number of vertices, [`VERTEX_COUNT`] of
/// them, and every index names one of them.
pub proof fn lemma_indices_name_vertices()
    ensures
        vertex_words().len() * WORD_SIZE == VERTEX_COUNT * VERTEX_STRIDE,
        index_words().len() == INDEX_COUNT,
        forall|i: int| 0 <= i < index_words().len() ==> index_words()[i] < VERTEX_COUNT,
{
}

/// A frame draws whole triangles, and no more indices than the buffer holds.
pub proof fn lemma_drawn_indices_in_buffer()
    ensures
        0 <= DRAWN_INDICES <= INDEX_COUNT,
        DRAWN_INDICES % 3 == 0,
{
}

/// The attributes lie within a vertex, on word boundaries, and side by
/// side: the position in the first half, the colour in the second.
pub proof fn lemma_attributes_tile_vertex(attribute: Attribute)
    ensures
        0 <= attribute.spec_offset(),
        attribute.spec_offset() % WORD_SIZE == 0,
        attribute.spec_offset() + attribute.spec_components() * WORD_SIZE <= VERTEX_STRIDE,
        Attribute::Position.spec_offset() + Attribute::Position.spec_components() * WORD_SIZE
            == Attribute::Color.spec_offset(),
        Attribute::Color.spec_offset() + Attribute::Color.spec_components() * WORD_SIZE
            == VERTEX_STRIDE,
{
}

/// Every component of every attribute of every vertex is a word of the
/// vertex buffer, and no word serves for two of them.
pub proof fn lemma_components_are_distinct_words(
    a: Attribute,
    vertex_a: int,
    k_a: int,
    b: Attribute,
    vertex_b: int,
    k_b: int,
)
    requires
        0 <= vertex_a < VERTEX_COUNT,
        0 <= vertex_b < VERTEX_COUNT,
        0 <= k_a < a.spec_components(),
        0 <= k_b < b.spec_components(),
    ensures
        0 <= a.word(vertex_a, k_a) < vertex_words().len(),
        a.word(vertex_a, k_a) == b.word(vertex_b, k_b) ==> a == b && vertex_a == vertex_b && k_a
            == k_b,
{
}

} // verus!
