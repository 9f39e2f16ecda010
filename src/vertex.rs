//! Vertex records and the layouts under which the pipeline reads them.
//!
//! Float components are held as their IEEE-754 bit patterns: the library moves
//! them from the asset to the vertex buffer and never computes with them.

use vstd::prelude::*;

verus! {

/// A vertex with a color: position and RGB color, 32-bit float bit patterns.
#[derive(Clone, Copy, Debug, PartialEq, Eq)]
pub struct ColorVertex {
    pub position: [u32; 3],
    pub color: [u32; 3],
}

/// A textured vertex: position and texture coordinate, 32-bit float bit patterns.
#[derive(Clone, Copy, Debug, PartialEq, Eq)]
pub struct TextureVertex {
    pub position: [u32; 3],
    pub tex_coords: [u32; 2],
}

/// The format of one vertex attribute.
#[derive(Clone, Copy, Debug, PartialEq, Eq, Structural)]
pub enum VertexFormat {
    Float32x2,
    Float32x3,
}

/// One attribute of a vertex record: its format, its byte offset in the record
/// and the shader input location it feeds.
#[derive(Clone, Copy, Debug, PartialEq, Eq, Structural)]
pub struct VertexAttribute {
    pub format: VertexFormat,
    pub offset: u64,
    pub shader_location: u32,
}

/// How the pipeline steps through a vertex buffer: one record per vertex.
#[derive(Clone, Debug)]
pub struct VertexLayout {
    pub array_stride: u64,
    pub attributes: Vec<VertexAttribute>,
}

/// The size in bytes of an attribute of the given format.
pub open spec fn format_size(f: VertexFormat) -> u64 {
    match f {
        VertexFormat::Float32x2 => 8,
        VertexFormat::Float32x3 => 12,
    }
}

/// Attributes packed one after another from offset 0, at locations 0, 1, ...
/// and a stride that is the sum of their sizes.
pub open spec fn packed_layout(l: VertexLayout, formats: Seq<VertexFormat>) -> bool {
    &&& l.attributes@.len() == formats.len()
    &&& forall|i: int|
        0 <= i < formats.len() ==> (#[trigger] l.attributes@[i]).format == formats[i]
            && l.attributes@[i].shader_location == i
    &&& formats.len() > 0 ==> l.attributes@[0].offset == 0
    &&& forall|i: int|
        0 < i < formats.len() ==> (#[trigger] l.attributes@[i]).offset == l.attributes@[i
            - 1].offset + format_size(formats[i - 1])
    &&& formats.len() > 0 ==> l.array_stride == l.attributes@[formats.len() - 1].offset
        + format_size(formats[formats.len() - 1])
}

impl ColorVertex {
    /// Position at location 0, color at location 1.
    pub fn desc() -> (r: VertexLayout)
        ensures
            packed_layout(r, seq![VertexFormat::Float32x3, VertexFormat::Float32x3]),
            r.array_stride == 24,
    {
        let attributes = vec![
            VertexAttribute { format: VertexFormat::Float32x3, offset: 0, shader_location: 0 },
            VertexAttribute { format: VertexFormat::Float32x3, offset: 12, shader_location: 1 },
        ];
        VertexLayout { array_stride: 24, attributes }
    }
}

impl TextureVertex {
    /// Position at location 0, texture coordinate at location 1.
    pub fn desc() -> (r: VertexLayout)
        ensures
            packed_layout(r, seq![VertexFormat::Float32x3, VertexFormat::Float32x2]),
            r.array_stride == 20,
    {
        let attributes = vec![
            VertexAttribute { format: VertexFormat::Float32x3, offset: 0, shader_location: 0 },
            VertexAttribute { format: VertexFormat::Float32x2, offset: 12, shader_location: 1 },
        ];
        VertexLayout { array_stride: 20, attributes }
    }
}

} // verus!
