//! The plain-value description of a glTF document that mesh loading reads:
//! accessors, buffer views, binary buffers, primitives and decoded images, each
//! table indexed as in the document.

use vstd::prelude::*;

verus! {

/// Why a scene could not be loaded.
#[derive(Clone, Copy, Debug, PartialEq, Eq, Structural)]
pub enum ParseError {
    /// The container or a structure inside it is inconsistent (bad header or
    /// JSON, a view that runs past its buffer, attribute data of the wrong
    /// shape, an index that points past the vertices, an unusable image).
    Malformed,
    /// A required accessor, its buffer view or its backing buffer is absent.
    MissingAttribute,
    /// The index accessor stores neither 16-bit nor 32-bit unsigned integers.
    UnsupportedIndexType,
    /// A primitive has a different number of positions than of texture coordinates.
    AttributeCountMismatch,
}

/// The component type an accessor declares.
#[derive(Clone, Copy, Debug, PartialEq, Eq, Structural)]
pub enum ComponentType {
    I8,
    U8,
    I16,
    U16,
    U32,
    F32,
}

/// An accessor: the buffer view it reads (absent for sparse accessors) and the
/// type of its components.
#[derive(Clone, Copy, Debug, PartialEq, Eq, Structural)]
pub struct AccessorDesc {
    pub view: Option<usize>,
    pub component_type: ComponentType,
}

/// A buffer view: a byte range of one buffer.
#[derive(Clone, Copy, Debug, PartialEq, Eq, Structural)]
pub struct ViewDesc {
    pub buffer: usize,
    pub offset: usize,
    pub length: usize,
}

/// A mesh primitive: the accessors of its positions, first texture coordinate
/// set and indices, and the image of its material's base color texture.
#[derive(Clone, Copy, Debug, PartialEq, Eq, Structural)]
pub struct PrimitiveDesc {
    pub positions: Option<usize>,
    pub tex_coords: Option<usize>,
    pub indices: Option<usize>,
    pub image: Option<usize>,
}

/// The channel layout of a decoded image.
#[derive(Clone, Copy, Debug, PartialEq, Eq, Structural)]
pub enum PixelFormat {
    R8,
    R8G8,
    R8G8B8,
    R8G8B8A8,
    R16,
    R16G16,
    R16G16B16,
    R16G16B16A16,
    R32G32B32Float,
    R32G32B32A32Float,
}

/// A decoded image as the document's importer hands it over.
#[derive(Clone, Debug)]
pub struct RawImage {
    pub pixels: Vec<u8>,
    pub format: PixelFormat,
    pub width: u32,
    pub height: u32,
}

/// Where a document's image comes from: a buffer view (with or without a
/// declared MIME type), else a URI if one is given.
#[derive(Clone, Copy, Debug, PartialEq, Eq, Structural)]
pub struct ImageSource {
    pub view: Option<usize>,
    pub has_mime_type: bool,
    pub has_uri: bool,
}

/// The plain values of a decoded image: pixels, layout, width, height.
pub open spec fn raw_image_view(i: RawImage) -> (Seq<u8>, PixelFormat, u32, u32) {
    (i.pixels@, i.format, i.width, i.height)
}

/// Everything of a document that loading reads, primitives in document order
/// (meshes in order, each mesh's primitives in order).
#[derive(Clone, Debug)]
pub struct SceneDesc {
    pub accessors: Vec<AccessorDesc>,
    pub views: Vec<ViewDesc>,
    pub buffers: Vec<Vec<u8>>,
    pub primitives: Vec<PrimitiveDesc>,
    pub images: Vec<RawImage>,
}

/// Where the bytes of accessor `a` lie: `(buffer, start, length)`, or why they
/// cannot be had.
pub open spec fn accessor_span(d: &SceneDesc, a: int) -> Result<(usize, usize, usize), ParseError> {
    if !(0 <= a < d.accessors@.len()) {
        Err(ParseError::MissingAttribute)
    } else {
        match d.accessors@[a].view {
            None => Err(ParseError::MissingAttribute),
            Some(v) => if v >= d.views@.len() {
                Err(ParseError::MissingAttribute)
            } else {
                let view = d.views@[v as int];
                if view.buffer >= d.buffers@.len() {
                    Err(ParseError::MissingAttribute)
                } else if view.offset + view.length > d.buffers@[view.buffer as int]@.len() {
                    Err(ParseError::Malformed)
                } else {
                    Ok((view.buffer, view.offset, view.length))
                }
            },
        }
    }
}

/// The bytes that a valid span covers.
pub open spec fn span_bytes(d: &SceneDesc, s: (usize, usize, usize)) -> Seq<u8> {
    d.buffers@[s.0 as int]@.subrange(s.1 as int, s.1 + s.2)
}

/// The bytes of an optional accessor; an absent one is a missing attribute.
pub open spec fn attribute_bytes(d: &SceneDesc, a: Option<usize>) -> Result<Seq<u8>, ParseError> {
    match a {
        None => Err(ParseError::MissingAttribute),
        Some(a) => match accessor_span(d, a as int) {
            Err(e) => Err(e),
            Ok(s) => Ok(span_bytes(d, s)),
        },
    }
}

impl SceneDesc {
    /// Resolves accessor `a` through its buffer view to a span of a buffer.
    pub fn accessor_span(&self, a: usize) -> (r: Result<(usize, usize, usize), ParseError>)
        ensures
            r == accessor_span(self, a as int),
            r matches Ok(s) ==> s.0 < self.buffers@.len() && s.1 + s.2 <= self.buffers@[s.0 as int]@.len()
                && s.1 + s.2 <= usize::MAX,
    {
        if a >= self.accessors.len() {
            return Err(ParseError::MissingAttribute);
        }
        match self.accessors[a].view {
            None => Err(ParseError::MissingAttribute),
            Some(v) => {
                if v >= self.views.len() {
                    return Err(ParseError::MissingAttribute);
                }
                let view = self.views[v];
                if view.buffer >= self.buffers.len() {
                    Err(ParseError::MissingAttribute)
                } else if view.length > self.buffers[view.buffer].len()
                    || view.offset > self.buffers[view.buffer].len() - view.length {
                    Err(ParseError::Malformed)
                } else {
                    Ok((view.buffer, view.offset, view.length))
                }
            },
        }
    }
}

} // verus!
