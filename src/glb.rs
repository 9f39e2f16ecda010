//! Reading a glTF container through the `gltf` crate into a [`SceneDesc`].
//!
//! The crate reads the container, validates the document, loads its buffers
//! and decodes its images. Each step is a function of the container's bytes
//! alone, and is named here by a spec function of those bytes; the document
//! travels with those bytes as a ghost value that only the trusted reading
//! step sets. Before each step the plain values copied out of the bytes or the
//! document are checked, so that the crate is only handed input it handles
//! without panicking: a binary header must declare a length that covers it,
//! every `POSITION` index must name an accessor before validation, buffer URIs
//! must be absolute (relative ones cannot be loaded from a byte slice anyway),
//! and images must come from a buffer view that lies inside its loaded buffer
//! and has a MIME type, or from a URI.

use vstd::prelude::*;
use gltf::accessor::DataType;
use gltf::buffer::Data as BufferData;
use gltf::image::Format;
use crate::le::{le_u32, read_u32_le};
use crate::scene::{
    AccessorDesc, ComponentType, ImageSource, ParseError, PixelFormat, PrimitiveDesc, RawImage,
    SceneDesc, ViewDesc, raw_image_view,
};

verus! {

#[verifier::external_type_specification]
#[verifier::external_body]
pub struct ExDocument(gltf::Document);

#[verifier::external_type_specification]
#[verifier::external_body]
pub struct ExGltfError(gltf::Error);

/// Whether `gltf::Gltf::from_slice_without_validation` reads these bytes.
pub uninterp spec fn glb_reads(b: Seq<u8>) -> bool;

/// The `POSITION` accessor index of each primitive of the document these
/// bytes hold, before validation (`None` where a primitive has none).
pub uninterp spec fn glb_position_refs(b: Seq<u8>) -> Seq<Option<usize>>;

/// The number of accessors of the document these bytes hold, before validation.
pub uninterp spec fn glb_accessor_count(b: Seq<u8>) -> usize;

/// Whether `gltf::Document::from_json` accepts the document these bytes hold.
pub uninterp spec fn glb_parses(b: Seq<u8>) -> bool;

/// The accessors of the document these bytes hold.
pub uninterp spec fn glb_accessors(b: Seq<u8>) -> Seq<AccessorDesc>;

/// The buffer views of the document these bytes hold.
pub uninterp spec fn glb_views(b: Seq<u8>) -> Seq<ViewDesc>;

/// The primitives of the document these bytes hold, meshes in order.
pub uninterp spec fn glb_primitives(b: Seq<u8>) -> Seq<PrimitiveDesc>;

/// The URI of each buffer of the document (`None` for the binary chunk).
pub uninterp spec fn glb_buffer_uris(b: Seq<u8>) -> Seq<Option<Seq<u8>>>;

/// The source of each image of the document.
pub uninterp spec fn glb_image_sources(b: Seq<u8>) -> Seq<ImageSource>;

/// The loaded contents of each buffer, or `None` if loading them fails.
pub uninterp spec fn glb_buffers(b: Seq<u8>) -> Option<Seq<Seq<u8>>>;

/// Each decoded image, or `None` if decoding them fails.
pub uninterp spec fn glb_images(b: Seq<u8>) -> Option<Seq<(Seq<u8>, PixelFormat, u32, u32)>>;

/// Bytes that `gltf` reads without panicking: bytes that begin with a binary
/// header ("glTF", version, length) declare a length that covers the header.
pub open spec fn header_ok(b: Seq<u8>) -> bool {
    b.len() >= 12 && b[0] == 0x67 && b[1] == 0x6c && b[2] == 0x54 && b[3] == 0x46 ==> le_u32(
        b,
        8,
    ) >= 12
}

/// A document as read, not yet validated, with the bytes it was read from;
/// only [`read_gltf`] makes one, so `source` is always those bytes.
struct RawGlb {
    document: gltf::Document,
    blob: Option<Vec<u8>>,
    source: Ghost<Seq<u8>>,
}

/// A validated document with the bytes it was read from; only
/// [`validate_gltf`] makes one, from a [`RawGlb`], so `source` is always those bytes.
struct GlbDocument {
    document: gltf::Document,
    blob: Option<Vec<u8>>,
    source: Ghost<Seq<u8>>,
}

/// Relies on `gltf::Gltf::from_slice_without_validation`: reads the container
/// (binary or JSON) into a document; the binary chunk comes back as the blob.
/// It would panic on a binary header whose length is below 12, which
/// `requires` rules out.
#[verifier::external_body]
fn read_gltf(bytes: &[u8]) -> (r: Result<RawGlb, gltf::Error>)
    requires
        header_ok(bytes@),
    ensures
        r is Ok <==> glb_reads(bytes@),
        r matches Ok(g) ==> g.source@ == bytes@,
{
    let g = gltf::Gltf::from_slice_without_validation(bytes)?;
    Ok(RawGlb { document: g.document, blob: g.blob, source: Ghost(bytes@) })
}

/// Relies on `gltf::Document::as_json` and the `meshes` of `gltf::json::Root`:
/// each primitive's `POSITION` accessor index, meshes in order.
#[verifier::external_body]
fn position_refs(g: &RawGlb) -> (r: Vec<Option<usize>>)
    ensures
        r@ == glb_position_refs(g.source@),
{
    let positions = gltf::json::validation::Checked::Valid(gltf::Semantic::Positions);
    g.document.as_json().meshes.iter().flat_map(|m| m.primitives.iter()).map(
        |p| p.attributes.get(&positions).map(|i| i.value()),
    ).collect()
}

/// Relies on `gltf::Document::as_json` and the `accessors` of `gltf::json::Root`.
#[verifier::external_body]
fn accessor_count(g: &RawGlb) -> (r: usize)
    ensures
        r == glb_accessor_count(g.source@),
{
    g.document.as_json().accessors.len()
}

/// Every `POSITION` index names one of `n` accessors.
pub open spec fn positions_in_range(refs: Seq<Option<usize>>, n: usize) -> bool {
    forall|i: int| 0 <= i < refs.len() ==> match #[trigger] refs[i] {
        Some(a) => a < n,
        None => true,
    }
}

/// Relies on `gltf::Document::into_json` and `gltf::Document::from_json`:
/// validates the document. Validation would panic on a `POSITION` index past
/// the accessors, which `requires` rules out.
#[verifier::external_body]
fn validate_gltf(g: RawGlb) -> (r: Result<GlbDocument, gltf::Error>)
    requires
        positions_in_range(glb_position_refs(g.source@), glb_accessor_count(g.source@)),
    ensures
        r is Ok <==> glb_parses(g.source@),
        r matches Ok(d) ==> d.source@ == g.source@,
{
    let document = gltf::Document::from_json(g.document.into_json())?;
    Ok(GlbDocument { document, blob: g.blob, source: g.source })
}

/// Whether every `POSITION` index names one of `n` accessors.
fn check_positions(refs: &Vec<Option<usize>>, n: usize) -> (r: bool)
    ensures
        r == positions_in_range(refs@, n),
{
    let mut i: usize = 0;
    while i < refs.len()
        invariant
            i <= refs@.len(),
            forall|j: int| 0 <= j < i ==> match #[trigger] refs@[j] {
                Some(a) => a < n,
                None => true,
            },
        decreases refs@.len() - i,
    {
        if let Some(a) = refs[i] {
            if a >= n {
                assert(!positions_in_range(refs@, n)) by {
                    assert(refs@[i as int] == Some(a));
                }
                return false;
            }
        }
        i += 1;
    }
    true
}

/// Reads and validates a container; `None` where `gltf` refuses it.
fn parse_document(bytes: &[u8]) -> (r: Option<GlbDocument>)
    ensures
        r is Some <==> glb_parsed(bytes@),
        r matches Some(d) ==> d.source@ == bytes@,
{
    let header = bytes.len() >= 12 && bytes[0] == 0x67 && bytes[1] == 0x6c && bytes[2] == 0x54
        && bytes[3] == 0x46 && read_u32_le(bytes, 8) < 12;
    if header {
        return None;
    }
    let raw = match read_gltf(bytes) {
        Err(_) => return None,
        Ok(g) => g,
    };
    let refs = position_refs(&raw);
    let n = accessor_count(&raw);
    if !check_positions(&refs, n) {
        return None;
    }
    match validate_gltf(raw) {
        Err(_) => None,
        Ok(d) => Some(d),
    }
}

/// Whether `gltf` reads and validates these bytes, after the checks that keep
/// it from panicking.
pub open spec fn glb_parsed(b: Seq<u8>) -> bool {
    &&& header_ok(b)
    &&& glb_reads(b)
    &&& positions_in_range(glb_position_refs(b), glb_accessor_count(b))
    &&& glb_parses(b)
}

/// Relies on `gltf::Document::accessors`, `Accessor::view`, `View::index` and
/// `Accessor::data_type`: each accessor's view and component type (variant for
/// variant), in order.
#[verifier::external_body]
fn accessor_table(d: &GlbDocument) -> (r: Vec<AccessorDesc>)
    ensures
        r@ == glb_accessors(d.source@),
{
    d.document.accessors().map(|a| AccessorDesc {
        view: a.view().map(|v| v.index()),
        component_type: match a.data_type() {
            DataType::I8 => ComponentType::I8,
            DataType::U8 => ComponentType::U8,
            DataType::I16 => ComponentType::I16,
            DataType::U16 => ComponentType::U16,
            DataType::U32 => ComponentType::U32,
            DataType::F32 => ComponentType::F32,
        },
    }).collect()
}

/// Relies on `gltf::Document::views`, `View::buffer`, `Buffer::index`,
/// `View::offset` and `View::length`: each buffer view's range, in order.
#[verifier::external_body]
fn view_table(d: &GlbDocument) -> (r: Vec<ViewDesc>)
    ensures
        r@ == glb_views(d.source@),
{
    d.document.views().map(
        |v| ViewDesc { buffer: v.buffer().index(), offset: v.offset(), length: v.length() },
    ).collect()
}

/// Relies on `gltf::Document::meshes`, `Mesh::primitives`, `Primitive::get`,
/// `Primitive::indices`, `Accessor::index` and the material chain
/// `Primitive::material` .. `Texture::source`: each primitive's accessors and
/// base color image, meshes in order and each mesh's primitives in order.
#[verifier::external_body]
fn primitive_table(d: &GlbDocument) -> (r: Vec<PrimitiveDesc>)
    ensures
        r@ == glb_primitives(d.source@),
{
    d.document.meshes().flat_map(|m| m.primitives()).map(|p| PrimitiveDesc {
        positions: p.get(&gltf::Semantic::Positions).map(|a| a.index()),
        tex_coords: p.get(&gltf::Semantic::TexCoords(0)).map(|a| a.index()),
        indices: p.indices().map(|a| a.index()),
        image: p.material().pbr_metallic_roughness().base_color_texture().map(
            |t| t.texture().source().index(),
        ),
    }).collect()
}

/// Relies on `gltf::Document::buffers` and `Buffer::source`: each buffer's
/// URI as bytes, or `None` for the binary chunk, in order.
#[verifier::external_body]
fn buffer_uris(d: &GlbDocument) -> (r: Vec<Option<Vec<u8>>>)
    ensures
        r@.len() == glb_buffer_uris(d.source@).len(),
        forall|i: int|
            0 <= i < r@.len() ==> glb_buffer_uris(d.source@)[i] == match #[trigger] r@[i] {
                Some(u) => Some(u@),
                None => None::<Seq<u8>>,
            },
{
    d.document.buffers().map(|b| match b.source() {
        gltf::buffer::Source::Uri(u) => Some(u.as_bytes().to_vec()),
        gltf::buffer::Source::Bin => None,
    }).collect()
}

/// Relies on `gltf::Document::as_json` and the `images` of `gltf::json::Root`:
/// each image's buffer view and whether it declares a MIME type and a URI.
#[verifier::external_body]
fn image_sources(d: &GlbDocument) -> (r: Vec<ImageSource>)
    ensures
        r@ == glb_image_sources(d.source@),
{
    d.document.as_json().images.iter().map(|i| ImageSource {
        view: i.buffer_view.map(|v| v.value()),
        has_mime_type: i.mime_type.is_some(),
        has_uri: i.uri.is_some(),
    }).collect()
}

/// A URI that `gltf` can resolve without a base path: it names a scheme.
pub open spec fn uri_absolute(u: Option<Seq<u8>>) -> bool {
    match u {
        Some(u) => u.contains(58u8),
        None => true,
    }
}

/// Relies on `gltf::import_buffers` with no base path: the contents of each
/// buffer, from the binary chunk or a `data:` URI. It would panic on a relative
/// URI that percent-decodes to invalid UTF-8, which `requires` rules out.
#[verifier::external_body]
fn load_buffers(d: &GlbDocument) -> (r: Result<Vec<Vec<u8>>, gltf::Error>)
    requires
        forall|i: int|
            0 <= i < glb_buffer_uris(d.source@).len() ==> uri_absolute(
                #[trigger] glb_buffer_uris(d.source@)[i],
            ),
    ensures
        match r {
            Ok(v) => glb_buffers(d.source@) == Some(v@.map_values(|b: Vec<u8>| b@)),
            Err(_) => glb_buffers(d.source@) == None::<Seq<Seq<u8>>>,
        },
{
    let buffers = gltf::import_buffers(&d.document, None, d.blob.clone())?;
    Ok(buffers.into_iter().map(|b| b.0).collect())
}

/// `gltf` can read image `s` without panicking: from a buffer view that lies
/// inside its loaded buffer and has a MIME type, or from a URI.
pub open spec fn image_readable(s: ImageSource, views: Seq<ViewDesc>, buffers: Seq<Seq<u8>>) -> bool {
    match s.view {
        Some(v) => s.has_mime_type && v < views.len() && views[v as int].buffer < buffers.len()
            && views[v as int].offset + views[v as int].length <= buffers[views[v as int].buffer as int].len(),
        None => s.has_uri,
    }
}

/// Relies on `gltf::import_images` with no base path and the loaded buffers:
/// each image decoded, its `gltf::image::Format` converted variant for variant.
/// It would panic on an image view past its buffer's end or without a MIME
/// type, and on an image with neither view nor URI, which `requires` rules out.
#[verifier::external_body]
fn load_images(d: &GlbDocument, buffers: &Vec<Vec<u8>>) -> (r: Result<Vec<RawImage>, gltf::Error>)
    requires
        glb_buffers(d.source@) == Some(buffers@.map_values(|b: Vec<u8>| b@)),
        forall|i: int|
            0 <= i < glb_image_sources(d.source@).len() ==> image_readable(
                #[trigger] glb_image_sources(d.source@)[i],
                glb_views(d.source@),
                buffers@.map_values(|b: Vec<u8>| b@),
            ),
    ensures
        match r {
            Ok(v) => glb_images(d.source@) == Some(v@.map_values(|i: RawImage| raw_image_view(i))),
            Err(_) => glb_images(d.source@) == None::<Seq<(Seq<u8>, PixelFormat, u32, u32)>>,
        },
{
    let data: Vec<BufferData> = buffers.iter().map(|b| BufferData(b.clone())).collect();
    Ok(gltf::import_images(&d.document, None, &data)?.into_iter().map(|i| RawImage {
        pixels: i.pixels, width: i.width, height: i.height, format: match i.format {
            Format::R8 => PixelFormat::R8,
            Format::R8G8 => PixelFormat::R8G8,
            Format::R8G8B8 => PixelFormat::R8G8B8,
            Format::R8G8B8A8 => PixelFormat::R8G8B8A8,
            Format::R16 => PixelFormat::R16,
            Format::R16G16 => PixelFormat::R16G16,
            Format::R16G16B16 => PixelFormat::R16G16B16,
            Format::R16G16B16A16 => PixelFormat::R16G16B16A16,
            Format::R32G32B32FLOAT => PixelFormat::R32G32B32Float,
            Format::R32G32B32A32FLOAT => PixelFormat::R32G32B32A32Float,
        },
    }).collect())
}

/// Every buffer URI of the document these bytes hold is absolute.
pub open spec fn glb_uris_absolute(b: Seq<u8>) -> bool {
    forall|i: int| 0 <= i < glb_buffer_uris(b).len() ==> uri_absolute(#[trigger] glb_buffer_uris(b)[i])
}

/// Every image of the document these bytes hold is readable from `buffers`.
pub open spec fn glb_images_readable(b: Seq<u8>, buffers: Seq<Seq<u8>>) -> bool {
    forall|i: int|
        0 <= i < glb_image_sources(b).len() ==> image_readable(
            #[trigger] glb_image_sources(b)[i],
            glb_views(b),
            buffers,
        )
}

/// Whether these bytes import: they parse, their buffers load, their images
/// are readable and decode.
pub open spec fn glb_loads(b: Seq<u8>) -> bool {
    &&& glb_parsed(b)
    &&& glb_uris_absolute(b)
    &&& glb_buffers(b) is Some
    &&& glb_images_readable(b, glb_buffers(b)->Some_0)
    &&& glb_images(b) is Some
}

/// `d` describes the document these bytes hold.
pub open spec fn glb_describes(b: Seq<u8>, d: SceneDesc) -> bool {
    &&& d.accessors@ == glb_accessors(b)
    &&& d.views@ == glb_views(b)
    &&& d.primitives@ == glb_primitives(b)
    &&& glb_buffers(b) == Some(d.buffers@.map_values(|v: Vec<u8>| v@))
    &&& glb_images(b) == Some(d.images@.map_values(|i: RawImage| raw_image_view(i)))
}

/// Whether every URI is absolute.
fn uris_absolute(uris: &Vec<Option<Vec<u8>>>) -> (r: bool)
    ensures
        r == forall|i: int| 0 <= i < uris@.len() ==> uri_absolute(match #[trigger] uris@[i] {
            Some(u) => Some(u@),
            None => None::<Seq<u8>>,
        }),
{
    let mut i: usize = 0;
    while i < uris.len()
        invariant
            i <= uris@.len(),
            forall|j: int| 0 <= j < i ==> uri_absolute(match #[trigger] uris@[j] {
                Some(u) => Some(u@),
                None => None::<Seq<u8>>,
            }),
        decreases uris@.len() - i,
    {
        if let Some(u) = &uris[i] {
            let mut found = false;
            let mut k: usize = 0;
            while k < u.len()
                invariant
                    k <= u@.len(),
                    found == exists|j: int| 0 <= j < k && u@[j] == 58u8,
                decreases u@.len() - k,
            {
                if u[k] == 58u8 {
                    found = true;
                }
                k += 1;
            }
            if !found {
                return false;
            }
        }
        i += 1;
    }
    true
}

/// Whether every image is readable from `buffers` under `views`.
fn images_readable(sources: &Vec<ImageSource>, views: &Vec<ViewDesc>, buffers: &Vec<Vec<u8>>) -> (r: bool)
    ensures
        r == forall|i: int|
            0 <= i < sources@.len() ==> image_readable(
                #[trigger] sources@[i],
                views@,
                buffers@.map_values(|b: Vec<u8>| b@),
            ),
{
    let ghost bufs = buffers@.map_values(|b: Vec<u8>| b@);
    let mut i: usize = 0;
    while i < sources.len()
        invariant
            i <= sources@.len(),
            bufs == buffers@.map_values(|b: Vec<u8>| b@),
            forall|j: int| 0 <= j < i ==> image_readable(#[trigger] sources@[j], views@, bufs),
        decreases sources@.len() - i,
    {
        let s = sources[i];
        match s.view {
            Some(v) => {
                if !s.has_mime_type || v >= views.len() {
                    return false;
                }
                let view = views[v];
                if view.buffer >= buffers.len() {
                    return false;
                }
                let len = buffers[view.buffer].len();
                if view.length > len || view.offset > len - view.length {
                    return false;
                }
            },
            None => {
                if !s.has_uri {
                    return false;
                }
            },
        }
        i += 1;
    }
    true
}

impl SceneDesc {
    /// Imports a glTF container and describes it. A container that does not
    /// parse, whose buffers or images cannot be loaded from the container
    /// itself, or whose images do not decode is `Malformed`.
    pub fn from_glb(bytes: &[u8]) -> (r: Result<SceneDesc, ParseError>)
        ensures
            r is Ok <==> glb_loads(bytes@),
            r matches Ok(d) ==> glb_describes(bytes@, d),
            r is Err ==> r == Err::<SceneDesc, ParseError>(ParseError::Malformed),
    {
        let doc = match parse_document(bytes) {
            None => return Err(ParseError::Malformed),
            Some(d) => d,
        };
        let uris = buffer_uris(&doc);
        if !uris_absolute(&uris) {
            assert(!glb_uris_absolute(bytes@)) by {
                let i = choose|i: int| 0 <= i < uris@.len() && !uri_absolute(match #[trigger] uris@[i] {
                    Some(u) => Some(u@),
                    None => None::<Seq<u8>>,
                });
                assert(!uri_absolute(glb_buffer_uris(bytes@)[i]));
            }
            return Err(ParseError::Malformed);
        }
        assert(glb_uris_absolute(bytes@)) by {
            assert forall|i: int| 0 <= i < glb_buffer_uris(bytes@).len() implies uri_absolute(
                #[trigger] glb_buffer_uris(bytes@)[i],
            ) by {
                let _ = uris@[i];
            }
        }
        let buffers = match load_buffers(&doc) {
            Err(_) => return Err(ParseError::Malformed),
            Ok(b) => b,
        };
        let views = view_table(&doc);
        let sources = image_sources(&doc);
        if !images_readable(&sources, &views, &buffers) {
            return Err(ParseError::Malformed);
        }
        let images = match load_images(&doc, &buffers) {
            Err(_) => return Err(ParseError::Malformed),
            Ok(i) => i,
        };
        Ok(
            SceneDesc {
                accessors: accessor_table(&doc),
                views,
                buffers,
                primitives: primitive_table(&doc),
                images,
            },
        )
    }
}

} // verus!
