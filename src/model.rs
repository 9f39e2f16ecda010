//! CPU-side meshes built from a scene description, and the draw commands that
//! render them.

use vstd::prelude::*;
use crate::glb::{glb_describes, glb_loads};
use crate::le::{le_u16, le_u32, read_u16_le, read_u32_le};
use crate::scene::{
    ComponentType, ParseError, PixelFormat, PrimitiveDesc, RawImage, SceneDesc, accessor_span,
    attribute_bytes, span_bytes,
};
use crate::vertex::TextureVertex;

verus! {

/// One drawable primitive: interleaved vertex records, indices widened to 32
/// bits, the number of indices to draw and the image of its material, if any.
#[derive(Clone, Debug)]
pub struct ModelMesh {
    pub vertices: Vec<TextureVertex>,
    pub indices: Vec<u32>,
    pub num_elements: u32,
    pub texture_index: Option<usize>,
}

/// A decoded image as RGBA8: four bytes per pixel, rows top to bottom.
#[derive(Clone, Debug)]
pub struct Image {
    pub width: u32,
    pub height: u32,
    pub rgba: Vec<u8>,
}

/// A loaded scene: its meshes in document order and its images, each converted
/// to RGBA8, in document order.
#[derive(Clone, Debug)]
pub struct Model {
    pub label: String,
    pub meshes: Vec<ModelMesh>,
    pub images: Vec<Image>,
}

impl ModelMesh {
    /// Every index names a vertex, and all indices are drawn.
    pub open spec fn wf(&self) -> bool {
        &&& self.num_elements == self.indices@.len()
        &&& forall|k: int|
            0 <= k < self.indices@.len() ==> #[trigger] self.indices@[k] < self.vertices@.len()
    }
}

impl Image {
    /// Four bytes per pixel.
    pub open spec fn wf(&self) -> bool {
        self.rgba@.len() == 4 * (self.width as int * self.height as int)
    }
}

impl Model {
    /// Every mesh and every image is well formed.
    pub open spec fn wf(&self) -> bool {
        &&& forall|i: int| 0 <= i < self.meshes@.len() ==> (#[trigger] self.meshes@[i]).wf()
        &&& forall|i: int| 0 <= i < self.images@.len() ==> (#[trigger] self.images@[i]).wf()
    }
}

/// Number of whole 32-bit floats in `b`, grouped by `width`.
pub open spec fn tuple_count(b: Seq<u8>, width: int) -> int {
    (b.len() / 4) as int / width
}

/// Whether the whole floats of `b` split evenly into tuples of `width`.
pub open spec fn tuples_even(b: Seq<u8>, width: int) -> bool {
    (b.len() / 4) as int % width == 0
}

/// The `i`-th position (three float bit patterns) of tightly packed position data.
pub open spec fn position_at(pos: Seq<u8>, i: int) -> Seq<u32> {
    seq![le_u32(pos, 12 * i), le_u32(pos, 12 * i + 4), le_u32(pos, 12 * i + 8)]
}

/// The `i`-th texture coordinate (two float bit patterns) of tightly packed data.
pub open spec fn tex_coord_at(tex: Seq<u8>, i: int) -> Seq<u32> {
    seq![le_u32(tex, 8 * i), le_u32(tex, 8 * i + 4)]
}

/// The byte width of an index component type; only 16 and 32-bit unsigned
/// integers are index types.
pub open spec fn index_width(c: ComponentType) -> Option<int> {
    match c {
        ComponentType::U16 => Some(2),
        ComponentType::U32 => Some(4),
        _ => None,
    }
}

/// The `k`-th index of `width`-byte little-endian index data, widened to 32 bits.
pub open spec fn index_at(b: Seq<u8>, width: int, k: int) -> u32 {
    if width == 2 {
        le_u16(b, 2 * k) as u32
    } else {
        le_u32(b, 4 * k)
    }
}

/// The index data of a primitive and its component width.
pub open spec fn index_bytes(d: &SceneDesc, p: PrimitiveDesc) -> Result<(Seq<u8>, int), ParseError> {
    match p.indices {
        None => Err(ParseError::MissingAttribute),
        Some(a) => match accessor_span(d, a as int) {
            Err(e) => Err(e),
            Ok(s) => match index_width(d.accessors@[a as int].component_type) {
                None => Err(ParseError::UnsupportedIndexType),
                Some(w) => Ok((span_bytes(d, s), w)),
            },
        },
    }
}

/// The number of whole `width`-byte indices in `b`.
pub open spec fn index_count(b: Seq<u8>, width: int) -> int {
    b.len() as int / width
}

/// Every index of the data names one of `n` vertices.
pub open spec fn indices_in_range(b: Seq<u8>, width: int, n: int) -> bool {
    forall|k: int| 0 <= k < index_count(b, width) ==> #[trigger] index_at(b, width, k) < n
}

/// The first error met while loading primitive `p`, in the order: positions,
/// texture coordinates, their shape, their counts, indices; `None` if it loads.
pub open spec fn primitive_error(d: &SceneDesc, p: PrimitiveDesc) -> Option<ParseError> {
    match attribute_bytes(d, p.positions) {
        Err(e) => Some(e),
        Ok(pos) => match attribute_bytes(d, p.tex_coords) {
            Err(e) => Some(e),
            Ok(tex) => if !tuples_even(pos, 3) || !tuples_even(tex, 2) {
                Some(ParseError::Malformed)
            } else if tuple_count(pos, 3) != tuple_count(tex, 2) {
                Some(ParseError::AttributeCountMismatch)
            } else {
                match index_bytes(d, p) {
                    Err(e) => Some(e),
                    Ok(ib) => if index_count(ib.0, ib.1) > u32::MAX || !indices_in_range(
                        ib.0,
                        ib.1,
                        tuple_count(pos, 3),
                    ) {
                        Some(ParseError::Malformed)
                    } else {
                        None
                    },
                }
            },
        },
    }
}

/// `m` holds exactly what primitive `p` describes.
pub open spec fn mesh_of(d: &SceneDesc, p: PrimitiveDesc, m: ModelMesh) -> bool {
    match (attribute_bytes(d, p.positions), attribute_bytes(d, p.tex_coords), index_bytes(d, p)) {
        (Ok(pos), Ok(tex), Ok(ib)) => {
            &&& m.vertices@.len() == tuple_count(pos, 3)
            &&& forall|i: int|
                0 <= i < m.vertices@.len() ==> (#[trigger] m.vertices@[i]).position@ == position_at(
                    pos,
                    i,
                ) && m.vertices@[i].tex_coords@ == tex_coord_at(tex, i)
            &&& m.indices@.len() == index_count(ib.0, ib.1)
            &&& forall|k: int|
                0 <= k < m.indices@.len() ==> #[trigger] m.indices@[k] == index_at(ib.0, ib.1, k)
            &&& m.num_elements == m.indices@.len()
            &&& m.texture_index == p.image
        },
        _ => false,
    }
}

/// Interleaves `n` positions and texture coordinates into vertex records.
fn interleave(pos: &[u8], tex: &[u8], n: usize) -> (r: Vec<TextureVertex>)
    requires
        12 * n <= pos@.len(),
        8 * n <= tex@.len(),
    ensures
        r@.len() == n,
        forall|i: int|
            0 <= i < n ==> (#[trigger] r@[i]).position@ == position_at(pos@, i)
                && r@[i].tex_coords@ == tex_coord_at(tex@, i),
{
    let pos_len = pos.len();
    let tex_len = tex.len();
    let mut r: Vec<TextureVertex> = Vec::new();
    let mut i: usize = 0;
    while i < n
        invariant
            i <= n,
            pos_len == pos@.len(),
            tex_len == tex@.len(),
            12 * n <= pos@.len(),
            8 * n <= tex@.len(),
            r@.len() == i,
            forall|j: int|
                0 <= j < i ==> (#[trigger] r@[j]).position@ == position_at(pos@, j)
                    && r@[j].tex_coords@ == tex_coord_at(tex@, j),
        decreases n - i,
    {
        let v = TextureVertex {
            position: [
                read_u32_le(pos, 12 * i),
                read_u32_le(pos, 12 * i + 4),
                read_u32_le(pos, 12 * i + 8),
            ],
            tex_coords: [read_u32_le(tex, 8 * i), read_u32_le(tex, 8 * i + 4)],
        };
        assert(v.position@ =~= position_at(pos@, i as int));
        assert(v.tex_coords@ =~= tex_coord_at(tex@, i as int));
        r.push(v);
        i += 1;
    }
    r
}

/// Widens the `width`-byte little-endian indices of `b` to 32 bits, and tells
/// whether every one of them is below `n`.
fn widen_indices(b: &[u8], width: usize, n: usize) -> (r: (Vec<u32>, bool))
    requires
        width == 2 || width == 4,
    ensures
        r.0@.len() == index_count(b@, width as int),
        forall|k: int| 0 <= k < r.0@.len() ==> #[trigger] r.0@[k] == index_at(b@, width as int, k),
        r.1 == indices_in_range(b@, width as int, n as int),
{
    let b_len = b.len();
    let count = if width == 2 { b_len / 2 } else { b_len / 4 };
    let mut r: Vec<u32> = Vec::new();
    let mut all_below = true;
    let mut i: usize = 0;
    while i < count
        invariant
            width == 2 || width == 4,
            b_len == b@.len(),
            width == 2 ==> count == b_len / 2,
            width == 4 ==> count == b_len / 4,
            count == index_count(b@, width as int),
            i <= count,
            r@.len() == i,
            forall|k: int| 0 <= k < i ==> #[trigger] r@[k] == index_at(b@, width as int, k),
            all_below == (forall|k: int| 0 <= k < i ==> #[trigger] index_at(b@, width as int, k) < n),
        decreases count - i,
    {
        let v: u32 = if width == 2 {
            read_u16_le(b, 2 * i) as u32
        } else {
            read_u32_le(b, 4 * i)
        };
        assert(v == index_at(b@, width as int, i as int));
        all_below = all_below && (v as usize) < n;
        r.push(v);
        i += 1;
    }
    (r, all_below)
}

impl ModelMesh {
    /// Loads primitive `p` of scene `d`: resolves its position, texture
    /// coordinate and index accessors, decodes them and checks them against
    /// each other.
    pub fn from_primitive(d: &SceneDesc, p: &PrimitiveDesc) -> (r: Result<ModelMesh, ParseError>)
        ensures
            match r {
                Ok(m) => primitive_error(d, *p) == None::<ParseError> && mesh_of(d, *p, m) && m.wf(),
                Err(e) => primitive_error(d, *p) == Some(e),
            },
    {
        let pa = match p.positions {
            None => return Err(ParseError::MissingAttribute),
            Some(a) => a,
        };
        let ps = d.accessor_span(pa)?;
        let ta = match p.tex_coords {
            None => return Err(ParseError::MissingAttribute),
            Some(a) => a,
        };
        let ts = d.accessor_span(ta)?;
        let pos = vstd::slice::slice_subrange(d.buffers[ps.0].as_slice(), ps.1, ps.1 + ps.2);
        let tex = vstd::slice::slice_subrange(d.buffers[ts.0].as_slice(), ts.1, ts.1 + ts.2);
        if (pos.len() / 4) % 3 != 0 || (tex.len() / 4) % 2 != 0 {
            return Err(ParseError::Malformed);
        }
        let n = pos.len() / 4 / 3;
        if n != tex.len() / 4 / 2 {
            return Err(ParseError::AttributeCountMismatch);
        }
        let ia = match p.indices {
            None => return Err(ParseError::MissingAttribute),
            Some(a) => a,
        };
        let is = d.accessor_span(ia)?;
        let width: usize = match d.accessors[ia].component_type {
            ComponentType::U16 => 2,
            ComponentType::U32 => 4,
            _ => return Err(ParseError::UnsupportedIndexType),
        };
        let ib = vstd::slice::slice_subrange(d.buffers[is.0].as_slice(), is.1, is.1 + is.2);
        if ib.len() / width > u32::MAX as usize {
            return Err(ParseError::Malformed);
        }
        let (indices, all_below) = widen_indices(ib, width, n);
        if !all_below {
            return Err(ParseError::Malformed);
        }
        let vertices = interleave(pos, tex, n);
        let num_elements = indices.len() as u32;
        Ok(ModelMesh { vertices, indices, num_elements, texture_index: p.image })
    }
}

/// The number of pixels of an image.
pub open spec fn pixel_count(img: RawImage) -> int {
    img.width as int * img.height as int
}

/// Byte `c` (0 to 3) of the RGBA8 form of pixel `k` of 8-bit pixel data with
/// `ch` channels: gray (1), gray and alpha (2) or RGB (3); alpha is opaque
/// where the data has none.
pub open spec fn rgba_byte(p: Seq<u8>, ch: int, k: int, c: int) -> u8 {
    if ch == 1 {
        if c == 3 { 255u8 } else { p[k] }
    } else if ch == 2 {
        if c == 3 { p[2 * k + 1] } else { p[2 * k] }
    } else {
        if c == 3 { 255u8 } else { p[3 * k + c] }
    }
}

/// The RGBA8 form of `n` pixels of 8-bit data with `ch` channels.
pub open spec fn to_rgba(p: Seq<u8>, ch: int, n: int) -> Seq<u8> {
    Seq::new((4 * n) as nat, |j: int| rgba_byte(p, ch, j / 4, j % 4))
}

/// The number of 8-bit channels of a pixel layout; `None` for layouts with
/// wider channels.
pub open spec fn channels(f: PixelFormat) -> Option<int> {
    match f {
        PixelFormat::R8 => Some(1),
        PixelFormat::R8G8 => Some(2),
        PixelFormat::R8G8B8 => Some(3),
        PixelFormat::R8G8B8A8 => Some(4),
        _ => None,
    }
}

/// The RGBA8 pixels of a decoded image: RGBA8 data as it is; gray, gray and
/// alpha, and RGB data widened to RGBA8; `None` for layouts with channels
/// wider than 8 bits or a pixel buffer whose length does not match the size.
pub open spec fn rgba_pixels(img: RawImage) -> Option<Seq<u8>> {
    match channels(img.format) {
        Some(ch) => if img.pixels@.len() != ch * pixel_count(img) {
            None
        } else if ch == 4 {
            Some(img.pixels@)
        } else {
            Some(to_rgba(img.pixels@, ch, pixel_count(img)))
        },
        None => None,
    }
}

/// Widens `n` pixels of 8-bit data with `ch` channels (1 to 3) to RGBA8.
fn expand_to_rgba(p: &Vec<u8>, ch: usize, n: usize) -> (r: Vec<u8>)
    requires
        1 <= ch <= 3,
        p@.len() == ch * n,
    ensures
        r@ == to_rgba(p@, ch as int, n as int),
{
    let p_len = p.len();
    let mut r: Vec<u8> = Vec::new();
    let mut k: usize = 0;
    while k < n
        invariant
            1 <= ch <= 3,
            k <= n,
            p_len == p@.len(),
            ch == 1 ==> p_len == n,
            ch == 2 ==> p_len == 2 * n,
            ch == 3 ==> p_len == 3 * n,
            r@ == to_rgba(p@, ch as int, k as int),
        decreases n - k,
    {
        if ch == 1 {
            r.push(p[k]);
            r.push(p[k]);
            r.push(p[k]);
            r.push(255u8);
        } else if ch == 2 {
            r.push(p[2 * k]);
            r.push(p[2 * k]);
            r.push(p[2 * k]);
            r.push(p[2 * k + 1]);
        } else {
            r.push(p[3 * k]);
            r.push(p[3 * k + 1]);
            r.push(p[3 * k + 2]);
            r.push(255u8);
        }
        assert forall|j: int| 4 * k <= j < 4 * k + 4 implies #[trigger] r@[j] == to_rgba(
            p@,
            ch as int,
            k + 1,
        )[j] by {
            assert(j / 4 == k && j % 4 == j - 4 * k);
        }
        assert(r@ =~= to_rgba(p@, ch as int, k + 1));
        k += 1;
    }
    r
}

impl Image {
    /// Converts a decoded image to RGBA8.
    pub fn from_raw(raw: &RawImage) -> (r: Result<Image, ParseError>)
        ensures
            match r {
                Ok(img) => rgba_pixels(*raw) == Some(img.rgba@) && img.width == raw.width
                    && img.height == raw.height && img.wf(),
                Err(e) => rgba_pixels(*raw) == None::<Seq<u8>> && e == ParseError::Malformed,
            },
    {
        let w = raw.width as u64;
        let h = raw.height as u64;
        assert(w * h <= u64::MAX) by (nonlinear_arith)
            requires
                w <= u32::MAX,
                h <= u32::MAX,
        ;
        let area = w * h;
        let len = raw.pixels.len() as u64;
        let ch: u64 = match raw.format {
            PixelFormat::R8 => 1,
            PixelFormat::R8G8 => 2,
            PixelFormat::R8G8B8 => 3,
            PixelFormat::R8G8B8A8 => 4,
            _ => return Err(ParseError::Malformed),
        };
        let fits = if ch == 1 {
            len == area
        } else if ch == 2 {
            len % 2 == 0 && len / 2 == area
        } else if ch == 3 {
            len % 3 == 0 && len / 3 == area
        } else {
            len % 4 == 0 && len / 4 == area
        };
        if !fits {
            return Err(ParseError::Malformed);
        }
        if ch == 4 {
            Ok(Image { width: raw.width, height: raw.height, rgba: raw.pixels.clone() })
        } else {
            let rgba = expand_to_rgba(&raw.pixels, ch as usize, area as usize);
            Ok(Image { width: raw.width, height: raw.height, rgba })
        }
    }
}

/// The first error among the first `n` primitives of `d`, in document order.
pub open spec fn primitives_error(d: &SceneDesc, n: int) -> Option<ParseError>
    decreases n,
{
    if n <= 0 {
        None
    } else {
        match primitives_error(d, n - 1) {
            Some(e) => Some(e),
            None => primitive_error(d, d.primitives@[n - 1]),
        }
    }
}

/// Whether one of the first `n` images of `d` cannot be converted to RGBA8.
pub open spec fn images_error(d: &SceneDesc, n: int) -> bool {
    exists|i: int| 0 <= i < n && #[trigger] rgba_pixels(d.images@[i]) == None::<Seq<u8>>
}

/// The error that loading `d` fails with: the first failing primitive's, else
/// `Malformed` if an image cannot be converted; `None` if `d` loads.
pub open spec fn scene_error(d: &SceneDesc) -> Option<ParseError> {
    match primitives_error(d, d.primitives@.len() as int) {
        Some(e) => Some(e),
        None => if images_error(d, d.images@.len() as int) {
            Some(ParseError::Malformed)
        } else {
            None
        },
    }
}

/// `img` is the RGBA8 conversion of `raw`.
pub open spec fn image_of(raw: RawImage, img: Image) -> bool {
    &&& rgba_pixels(raw) == Some(img.rgba@)
    &&& img.width == raw.width
    &&& img.height == raw.height
}

/// `m` holds one mesh per primitive of `d` and one image per image of `d`, in
/// order, under `label`.
pub open spec fn model_of(d: &SceneDesc, label: Seq<char>, m: Model) -> bool {
    &&& m.label@ == label
    &&& m.meshes@.len() == d.primitives@.len()
    &&& forall|i: int|
        0 <= i < m.meshes@.len() ==> mesh_of(d, d.primitives@[i], #[trigger] m.meshes@[i])
    &&& m.images@.len() == d.images@.len()
    &&& forall|i: int| 0 <= i < m.images@.len() ==> image_of(d.images@[i], #[trigger] m.images@[i])
}

/// `r` is what loading description `d` under `label` gives.
pub open spec fn loads_as(d: SceneDesc, label: Seq<char>, r: Result<Model, ParseError>) -> bool {
    match r {
        Ok(m) => scene_error(&d) == None::<ParseError> && model_of(&d, label, m),
        Err(e) => scene_error(&d) == Some(e),
    }
}

impl Model {
    /// Loads a binary glTF scene: imports the container, then loads every
    /// primitive as a mesh and converts every image to RGBA8.
    pub fn from_bytes(bytes: &[u8], label: &str) -> (r: Result<Model, ParseError>)
        ensures
            !glb_loads(bytes@) ==> r == Err::<Model, ParseError>(ParseError::Malformed),
            r matches Ok(m) ==> m.wf(),
            glb_loads(bytes@) ==> exists|d: SceneDesc|
                glb_describes(bytes@, d) && #[trigger] loads_as(d, label@, r),
    {
        let d = SceneDesc::from_glb(bytes)?;
        let r = Model::from_scene(&d, label);
        assert(glb_describes(bytes@, d) && loads_as(d, label@, r));
        r
    }

    /// Loads every primitive of `d` as a mesh and converts every image of `d`
    /// to RGBA8; fails with the first error met.
    pub fn from_scene(d: &SceneDesc, label: &str) -> (r: Result<Model, ParseError>)
        ensures
            match r {
                Ok(m) => scene_error(d) == None::<ParseError> && model_of(d, label@, m) && m.wf(),
                Err(e) => scene_error(d) == Some(e),
            },
    {
        let mut meshes: Vec<ModelMesh> = Vec::new();
        let mut i: usize = 0;
        while i < d.primitives.len()
            invariant
                i <= d.primitives@.len(),
                primitives_error(d, i as int) == None::<ParseError>,
                meshes@.len() == i,
                forall|j: int| 0 <= j < i ==> mesh_of(d, d.primitives@[j], #[trigger] meshes@[j]),
                forall|j: int| 0 <= j < i ==> (#[trigger] meshes@[j]).wf(),
            decreases d.primitives@.len() - i,
        {
            match ModelMesh::from_primitive(d, &d.primitives[i]) {
                Ok(m) => meshes.push(m),
                Err(e) => {
                    proof {
                        lemma_primitives_error_stays(d, i as int + 1, d.primitives@.len() as int);
                    }
                    return Err(e);
                },
            }
            i += 1;
        }
        let mut images: Vec<Image> = Vec::new();
        let mut k: usize = 0;
        while k < d.images.len()
            invariant
                k <= d.images@.len(),
                primitives_error(d, d.primitives@.len() as int) == None::<ParseError>,
                !images_error(d, k as int),
                images@.len() == k,
                forall|j: int| 0 <= j < k ==> image_of(d.images@[j], #[trigger] images@[j]),
                forall|j: int| 0 <= j < k ==> (#[trigger] images@[j]).wf(),
                forall|j: int| 0 <= j < meshes@.len() ==> (#[trigger] meshes@[j]).wf(),
            decreases d.images@.len() - k,
        {
            match Image::from_raw(&d.images[k]) {
                Ok(img) => images.push(img),
                Err(e) => {
                    assert(rgba_pixels(d.images@[k as int]) == None::<Seq<u8>>);
                    assert(images_error(d, d.images@.len() as int));
                    return Err(e);
                },
            }
            k += 1;
        }
        Ok(Model { label: label.to_string(), meshes, images })
    }
}

/// Once one of the first `n` primitives fails, so do the first `m >= n`, with
/// the same error.
proof fn lemma_primitives_error_stays(d: &SceneDesc, n: int, m: int)
    requires
        n <= m,
        primitives_error(d, n) is Some,
    ensures
        primitives_error(d, m) == primitives_error(d, n),
    decreases m - n,
{
    if n < m {
        lemma_primitives_error_stays(d, n, m - 1);
    }
}

/// One command of a render pass, naming meshes and textures by their position
/// in the model.
#[derive(Clone, Copy, Debug, PartialEq, Eq, Structural)]
pub enum RenderCommand {
    /// Bind the scene's one pipeline.
    SetPipeline,
    /// Bind the uniform buffer's bind group (group 1).
    SetUniformBindGroup,
    /// Bind the vertex buffer of a mesh.
    SetVertexBuffer { mesh: usize },
    /// Bind the 32-bit index buffer of a mesh.
    SetIndexBuffer { mesh: usize },
    /// Bind the bind group of a texture (group 0).
    SetTextureBindGroup { texture: usize },
    /// Draw `count` indices of the bound index buffer, which belongs to `mesh`.
    DrawIndexed { mesh: usize, count: u32 },
}

/// The texture a mesh draws with, among `n` textures: its own image when that
/// exists, else the first texture.
pub open spec fn resolved_texture(texture_index: Option<usize>, n: nat) -> usize {
    match texture_index {
        Some(t) => if t < n {
            t
        } else {
            0
        },
        None => 0,
    }
}

/// The commands that draw mesh `m`, stored at position `i`, among `n` textures:
/// its bindings, then its indexed draw.
pub open spec fn mesh_commands(i: usize, m: ModelMesh, n: nat) -> Seq<RenderCommand> {
    seq![
        RenderCommand::SetVertexBuffer { mesh: i },
        RenderCommand::SetIndexBuffer { mesh: i },
        RenderCommand::SetTextureBindGroup { texture: resolved_texture(m.texture_index, n) },
        RenderCommand::DrawIndexed { mesh: i, count: m.num_elements },
    ]
}

/// The commands that draw the first `k` meshes, in order.
pub open spec fn draw_sequence(meshes: Seq<ModelMesh>, n: nat, k: int) -> Seq<RenderCommand>
    decreases k,
{
    if k <= 0 {
        seq![]
    } else {
        draw_sequence(meshes, n, k - 1) + mesh_commands((k - 1) as usize, meshes[k - 1], n)
    }
}

impl ModelMesh {
    /// The texture this mesh draws with, among `n_textures` textures.
    pub fn texture_slot(&self, n_textures: usize) -> (r: usize)
        ensures
            r == resolved_texture(self.texture_index, n_textures as nat),
            n_textures > 0 ==> r < n_textures,
    {
        match self.texture_index {
            Some(t) => if t < n_textures {
                t
            } else {
                0
            },
            None => 0,
        }
    }

    /// The commands that draw this mesh, stored at position `slot`, among
    /// `n_textures` textures.
    pub fn render(&self, slot: usize, n_textures: usize) -> (r: Vec<RenderCommand>)
        requires
            n_textures > 0,
        ensures
            r@ == mesh_commands(slot, *self, n_textures as nat),
    {
        let texture = self.texture_slot(n_textures);
        let r = vec![
            RenderCommand::SetVertexBuffer { mesh: slot },
            RenderCommand::SetIndexBuffer { mesh: slot },
            RenderCommand::SetTextureBindGroup { texture },
            RenderCommand::DrawIndexed { mesh: slot, count: self.num_elements },
        ];
        assert(r@ =~= mesh_commands(slot, *self, n_textures as nat));
        r
    }
}

impl Model {
    /// The commands that draw every mesh, in the model's order; meshes draw
    /// with the model's textures, so there is at least one where there is a mesh.
    pub fn render(&self) -> (r: Vec<RenderCommand>)
        requires
            self.meshes@.len() > 0 ==> self.images@.len() > 0,
        ensures
            r@ == draw_sequence(self.meshes@, self.images@.len(), self.meshes@.len() as int),
    {
        let mut r: Vec<RenderCommand> = Vec::new();
        let mut i: usize = 0;
        while i < self.meshes.len()
            invariant
                i <= self.meshes@.len(),
                self.meshes@.len() > 0 ==> self.images@.len() > 0,
                r@ == draw_sequence(self.meshes@, self.images@.len(), i as int),
            decreases self.meshes@.len() - i,
        {
            let mut c = self.meshes[i].render(i, self.images.len());
            r.append(&mut c);
            i += 1;
        }
        r
    }

    /// The commands of a whole frame's render pass: the pipeline, the uniform
    /// bind group, then every mesh in order.
    pub fn frame_commands(&self) -> (r: Vec<RenderCommand>)
        requires
            self.meshes@.len() > 0 ==> self.images@.len() > 0,
        ensures
            r@ == seq![RenderCommand::SetPipeline, RenderCommand::SetUniformBindGroup]
                + draw_sequence(self.meshes@, self.images@.len(), self.meshes@.len() as int),
    {
        let mut r = vec![RenderCommand::SetPipeline, RenderCommand::SetUniformBindGroup];
        let mut draws = self.render();
        r.append(&mut draws);
        r
    }
}

/// Draws follow the meshes' order: in the commands for `k` meshes, the four
/// commands at `4 * i` bind mesh `i`'s vertex buffer, index buffer and texture,
/// then draw mesh `i`, for every `i < k`.
pub proof fn lemma_draw_order(meshes: Seq<ModelMesh>, n: nat, k: int, i: int)
    requires
        0 <= i < k <= meshes.len(),
    ensures
        draw_sequence(meshes, n, k).len() == 4 * k,
        draw_sequence(meshes, n, k).subrange(4 * i, 4 * i + 4) == mesh_commands(
            i as usize,
            meshes[i],
            n,
        ),
    decreases k,
{
    lemma_draw_sequence_len(meshes, n, k);
    lemma_draw_sequence_len(meshes, n, k - 1);
    let prev = draw_sequence(meshes, n, k - 1);
    let cur = draw_sequence(meshes, n, k);
    if i < k - 1 {
        lemma_draw_order(meshes, n, k - 1, i);
        assert(cur.subrange(4 * i, 4 * i + 4) =~= prev.subrange(4 * i, 4 * i + 4));
    } else {
        assert(cur.subrange(4 * i, 4 * i + 4) =~= mesh_commands(i as usize, meshes[i], n));
    }
}

/// The commands for `k` meshes are four per mesh.
proof fn lemma_draw_sequence_len(meshes: Seq<ModelMesh>, n: nat, k: int)
    requires
        0 <= k,
    ensures
        draw_sequence(meshes, n, k).len() == 4 * k,
    decreases k,
{
    if k > 0 {
        lemma_draw_sequence_len(meshes, n, k - 1);
    }
}

/// Where every primitive of a scene loads (whatever its images hold), each
/// has as many positions as texture coordinates, and its mesh has one vertex
/// per position; a primitive that fails, a count mismatch among them, makes
/// the whole scene fail before any mesh is handed on.
pub proof fn lemma_loaded_counts_match(d: &SceneDesc, i: int)
    requires
        0 <= i < d.primitives@.len(),
    ensures
        primitive_error(d, d.primitives@[i]) is Some ==> scene_error(d) is Some,
        primitives_error(d, d.primitives@.len() as int) == None::<ParseError> ==> match (
            attribute_bytes(d, d.primitives@[i].positions),
            attribute_bytes(d, d.primitives@[i].tex_coords),
        ) {
            (Ok(pos), Ok(tex)) => tuple_count(pos, 3) == tuple_count(tex, 2),
            _ => false,
        },
        forall|m: ModelMesh|
            #[trigger] mesh_of(d, d.primitives@[i], m) ==> match attribute_bytes(
                d,
                d.primitives@[i].positions,
            ) {
                Ok(pos) => m.vertices@.len() == tuple_count(pos, 3),
                _ => false,
            },
{
    if primitive_error(d, d.primitives@[i]) is Some {
        assert(primitives_error(d, i + 1) is Some);
        lemma_primitives_error_stays(d, i + 1, d.primitives@.len() as int);
    }
}

/// A scene description that loads gives, for each primitive `k`, a mesh with
/// exactly one vertex per position and per texture coordinate.
pub proof fn lemma_model_counts(d: SceneDesc, label: Seq<char>, m: Model, k: int)
    requires
        loads_as(d, label, Ok(m)),
        0 <= k < d.primitives@.len(),
    ensures
        match (
            attribute_bytes(&d, d.primitives@[k].positions),
            attribute_bytes(&d, d.primitives@[k].tex_coords),
        ) {
            (Ok(pos), Ok(tex)) => m.meshes@[k].vertices@.len() == tuple_count(pos, 3)
                && tuple_count(pos, 3) == tuple_count(tex, 2),
            _ => false,
        },
{
    assert(mesh_of(&d, d.primitives@[k], m.meshes@[k]));
    assert(primitives_error(&d, d.primitives@.len() as int) == None::<ParseError>);
    lemma_loaded_counts_match(&d, k);
}

} // verus!
