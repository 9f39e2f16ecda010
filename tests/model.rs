use learn_wgpu::model::{Image, Model, ModelMesh, RenderCommand};
use learn_wgpu::scene::{
    AccessorDesc, ComponentType, ParseError, PixelFormat, PrimitiveDesc, RawImage, SceneDesc,
    ViewDesc,
};

fn floats_le(values: &[f32]) -> Vec<u8> {
    values.iter().flat_map(|v| v.to_le_bytes()).collect()
}

/// One buffer holding three views: positions, texture coordinates, indices.
fn scene(positions: &[f32], tex: &[f32], index_bytes: Vec<u8>, index_type: ComponentType) -> SceneDesc {
    let mut buffer = floats_le(positions);
    let pos_len = buffer.len();
    buffer.extend(floats_le(tex));
    let tex_len = buffer.len() - pos_len;
    let idx_len = index_bytes.len();
    buffer.extend(index_bytes);
    SceneDesc {
        accessors: vec![
            AccessorDesc { view: Some(0), component_type: ComponentType::F32 },
            AccessorDesc { view: Some(1), component_type: ComponentType::F32 },
            AccessorDesc { view: Some(2), component_type: index_type },
        ],
        views: vec![
            ViewDesc { buffer: 0, offset: 0, length: pos_len },
            ViewDesc { buffer: 0, offset: pos_len, length: tex_len },
            ViewDesc { buffer: 0, offset: pos_len + tex_len, length: idx_len },
        ],
        buffers: vec![buffer],
        primitives: vec![PrimitiveDesc {
            positions: Some(0),
            tex_coords: Some(1),
            indices: Some(2),
            image: None,
        }],
        images: vec![],
    }
}

fn u16s(values: &[u16]) -> Vec<u8> {
    values.iter().flat_map(|v| v.to_le_bytes()).collect()
}

fn u32s(values: &[u32]) -> Vec<u8> {
    values.iter().flat_map(|v| v.to_le_bytes()).collect()
}

const FIVE_POSITIONS: [f32; 15] = [
    0.0, 0.0, 0.0, 1.0, 0.0, 0.0, 1.0, 1.0, 0.0, 0.0, 1.0, 0.0, 0.5, 0.5, 1.0,
];
const FIVE_TEX: [f32; 10] = [0.0, 0.0, 1.0, 0.0, 1.0, 1.0, 0.0, 1.0, 0.5, 0.5];

#[test]
fn index_widening_u16() {
    let d = scene(&FIVE_POSITIONS, &FIVE_TEX, u16s(&[0, 1, 4, 1, 2, 4]), ComponentType::U16);
    let m = Model::from_scene(&d, "five").unwrap();
    assert_eq!(m.meshes.len(), 1);
    assert_eq!(m.meshes[0].indices, vec![0u32, 1, 4, 1, 2, 4]);
    assert_eq!(m.meshes[0].num_elements, 6);
    assert_eq!(m.label, "five");
}

#[test]
fn index_widening_u32() {
    let d = scene(&FIVE_POSITIONS, &FIVE_TEX, u32s(&[4, 3, 2]), ComponentType::U32);
    let m = Model::from_scene(&d, "five").unwrap();
    assert_eq!(m.meshes[0].indices, vec![4u32, 3, 2]);
    assert_eq!(m.meshes[0].num_elements, 3);
}

#[test]
fn sixteen_bit_indices_use_both_bytes() {
    let positions: Vec<f32> = (0..3 * 300).map(|i| i as f32).collect();
    let tex: Vec<f32> = (0..2 * 300).map(|i| i as f32).collect();
    let d = scene(&positions, &tex, u16s(&[299, 256, 1]), ComponentType::U16);
    let m = Model::from_scene(&d, "big").unwrap();
    assert_eq!(m.meshes[0].indices, vec![299u32, 256, 1]);
}

#[test]
fn unsupported_index_width_u8() {
    let d = scene(&FIVE_POSITIONS, &FIVE_TEX, vec![0, 1, 2], ComponentType::U8);
    assert_eq!(Model::from_scene(&d, "x").unwrap_err(), ParseError::UnsupportedIndexType);
    let d = scene(&FIVE_POSITIONS, &FIVE_TEX, u32s(&[0, 1, 2]), ComponentType::F32);
    assert_eq!(Model::from_scene(&d, "x").unwrap_err(), ParseError::UnsupportedIndexType);
}

#[test]
fn attribute_count_mismatch_is_an_error() {
    let d = scene(&FIVE_POSITIONS, &FIVE_TEX[..8], u16s(&[0, 1, 2]), ComponentType::U16);
    assert_eq!(Model::from_scene(&d, "x").unwrap_err(), ParseError::AttributeCountMismatch);
}

#[test]
fn equal_attribute_counts_give_one_vertex_each() {
    let d = scene(&FIVE_POSITIONS, &FIVE_TEX, u16s(&[0, 1, 2]), ComponentType::U16);
    let m = Model::from_scene(&d, "x").unwrap();
    assert_eq!(m.meshes[0].vertices.len(), 5);
}

#[test]
fn vertices_interleave_positions_and_tex_coords() {
    let d = scene(&FIVE_POSITIONS, &FIVE_TEX, u16s(&[0, 1, 2]), ComponentType::U16);
    let m = Model::from_scene(&d, "x").unwrap();
    let v = m.meshes[0].vertices[4];
    assert_eq!(v.position, [0.5f32.to_bits(), 0.5f32.to_bits(), 1.0f32.to_bits()]);
    assert_eq!(v.tex_coords, [0.5f32.to_bits(), 0.5f32.to_bits()]);
    let v = m.meshes[0].vertices[1];
    assert_eq!(v.position, [1.0f32.to_bits(), 0, 0]);
    assert_eq!(v.tex_coords, [1.0f32.to_bits(), 0]);
}

#[test]
fn missing_positions_accessor() {
    let mut d = scene(&FIVE_POSITIONS, &FIVE_TEX, u16s(&[0, 1, 2]), ComponentType::U16);
    d.primitives[0].positions = None;
    assert_eq!(Model::from_scene(&d, "x").unwrap_err(), ParseError::MissingAttribute);
}

#[test]
fn missing_tex_coords_accessor() {
    let mut d = scene(&FIVE_POSITIONS, &FIVE_TEX, u16s(&[0, 1, 2]), ComponentType::U16);
    d.primitives[0].tex_coords = Some(7);
    assert_eq!(Model::from_scene(&d, "x").unwrap_err(), ParseError::MissingAttribute);
}

#[test]
fn missing_indices_accessor() {
    let mut d = scene(&FIVE_POSITIONS, &FIVE_TEX, u16s(&[0, 1, 2]), ComponentType::U16);
    d.primitives[0].indices = None;
    assert_eq!(Model::from_scene(&d, "x").unwrap_err(), ParseError::MissingAttribute);
}

#[test]
fn accessor_without_view() {
    let mut d = scene(&FIVE_POSITIONS, &FIVE_TEX, u16s(&[0, 1, 2]), ComponentType::U16);
    d.accessors[1].view = None;
    assert_eq!(Model::from_scene(&d, "x").unwrap_err(), ParseError::MissingAttribute);
}

#[test]
fn view_without_buffer() {
    let mut d = scene(&FIVE_POSITIONS, &FIVE_TEX, u16s(&[0, 1, 2]), ComponentType::U16);
    d.views[2].buffer = 3;
    assert_eq!(Model::from_scene(&d, "x").unwrap_err(), ParseError::MissingAttribute);
}

#[test]
fn view_past_buffer_end() {
    let mut d = scene(&FIVE_POSITIONS, &FIVE_TEX, u16s(&[0, 1, 2]), ComponentType::U16);
    d.views[0].length += 4;
    d.views[0].offset = d.buffers[0].len() - 8;
    assert_eq!(Model::from_scene(&d, "x").unwrap_err(), ParseError::Malformed);
}

#[test]
fn positions_not_in_triples() {
    let d = scene(&FIVE_POSITIONS[..14], &FIVE_TEX, u16s(&[0, 1, 2]), ComponentType::U16);
    assert_eq!(Model::from_scene(&d, "x").unwrap_err(), ParseError::Malformed);
}

#[test]
fn index_past_last_vertex() {
    let d = scene(&FIVE_POSITIONS, &FIVE_TEX, u16s(&[0, 1, 5]), ComponentType::U16);
    assert_eq!(Model::from_scene(&d, "x").unwrap_err(), ParseError::Malformed);
}

#[test]
fn first_failing_primitive_decides() {
    let mut d = scene(&FIVE_POSITIONS, &FIVE_TEX, u16s(&[0, 1, 2]), ComponentType::U16);
    let good = d.primitives[0];
    d.primitives = vec![
        good,
        PrimitiveDesc { indices: None, ..good },
        PrimitiveDesc { positions: None, ..good },
    ];
    assert_eq!(Model::from_scene(&d, "x").unwrap_err(), ParseError::MissingAttribute);
    d.primitives[1] = PrimitiveDesc { indices: Some(0), ..good };
    assert_eq!(Model::from_scene(&d, "x").unwrap_err(), ParseError::UnsupportedIndexType);
}

#[test]
fn empty_scene_loads() {
    let d = SceneDesc { accessors: vec![], views: vec![], buffers: vec![], primitives: vec![], images: vec![] };
    let m = Model::from_scene(&d, "empty").unwrap();
    assert!(m.meshes.is_empty());
    assert!(m.images.is_empty());
    assert!(m.render().is_empty());
}

fn raw(pixels: Vec<u8>, format: PixelFormat, width: u32, height: u32) -> RawImage {
    RawImage { pixels, format, width, height }
}

#[test]
fn rgba_image_kept_as_is() {
    let img = Image::from_raw(&raw(vec![1, 2, 3, 4, 5, 6, 7, 8], PixelFormat::R8G8B8A8, 2, 1)).unwrap();
    assert_eq!(img.rgba, vec![1, 2, 3, 4, 5, 6, 7, 8]);
    assert_eq!((img.width, img.height), (2, 1));
}

#[test]
fn rgb_image_gets_opaque_alpha() {
    let img = Image::from_raw(&raw(vec![1, 2, 3, 4, 5, 6], PixelFormat::R8G8B8, 1, 2)).unwrap();
    assert_eq!(img.rgba, vec![1, 2, 3, 255, 4, 5, 6, 255]);
    assert_eq!((img.width, img.height), (1, 2));
}

#[test]
fn image_size_mismatch_is_malformed() {
    let e = Image::from_raw(&raw(vec![1, 2, 3, 4], PixelFormat::R8G8B8A8, 2, 1)).unwrap_err();
    assert_eq!(e, ParseError::Malformed);
    let e = Image::from_raw(&raw(vec![1, 2, 3, 4], PixelFormat::R8G8B8, 1, 1)).unwrap_err();
    assert_eq!(e, ParseError::Malformed);
}

#[test]
fn other_pixel_layouts_are_refused() {
    let e = Image::from_raw(&raw(vec![0; 8], PixelFormat::R16G16B16A16, 1, 1)).unwrap_err();
    assert_eq!(e, ParseError::Malformed);
    let e = Image::from_raw(&raw(vec![0; 12], PixelFormat::R32G32B32Float, 1, 1)).unwrap_err();
    assert_eq!(e, ParseError::Malformed);
}

#[test]
fn gray_image_widened_to_rgba() {
    let img = Image::from_raw(&raw(vec![7, 200], PixelFormat::R8, 2, 1)).unwrap();
    assert_eq!(img.rgba, vec![7, 7, 7, 255, 200, 200, 200, 255]);
    let e = Image::from_raw(&raw(vec![7], PixelFormat::R8, 2, 1)).unwrap_err();
    assert_eq!(e, ParseError::Malformed);
}

#[test]
fn gray_alpha_image_widened_to_rgba() {
    let img = Image::from_raw(&raw(vec![7, 100, 9, 0], PixelFormat::R8G8, 1, 2)).unwrap();
    assert_eq!(img.rgba, vec![7, 7, 7, 100, 9, 9, 9, 0]);
}

#[test]
fn scene_images_converted_in_order() {
    let mut d = scene(&FIVE_POSITIONS, &FIVE_TEX, u16s(&[0, 1, 2]), ComponentType::U16);
    d.images = vec![
        raw(vec![9, 9, 9], PixelFormat::R8G8B8, 1, 1),
        raw(vec![1, 2, 3, 4], PixelFormat::R8G8B8A8, 1, 1),
    ];
    let m = Model::from_scene(&d, "x").unwrap();
    assert_eq!(m.images[0].rgba, vec![9, 9, 9, 255]);
    assert_eq!(m.images[1].rgba, vec![1, 2, 3, 4]);
    d.images.push(raw(vec![], PixelFormat::R8G8B8A8, 1, 1));
    assert_eq!(Model::from_scene(&d, "x").unwrap_err(), ParseError::Malformed);
}

fn mesh(num_elements: u32, texture_index: Option<usize>) -> ModelMesh {
    ModelMesh { vertices: vec![], indices: vec![0; num_elements as usize], num_elements, texture_index }
}

fn image() -> Image {
    Image { width: 1, height: 1, rgba: vec![0, 0, 0, 255] }
}

#[test]
fn default_texture_fallback() {
    let m = mesh(3, None);
    assert_eq!(m.texture_slot(2), 0);
    assert_eq!(m.render(0, 2)[2], RenderCommand::SetTextureBindGroup { texture: 0 });
    assert_eq!(mesh(3, Some(5)).texture_slot(2), 0);
    assert_eq!(mesh(3, Some(1)).texture_slot(2), 1);
}

#[test]
fn draw_ordering() {
    let model = Model {
        label: "abc".to_string(),
        meshes: vec![mesh(3, Some(1)), mesh(6, None), mesh(9, Some(0))],
        images: vec![image(), image()],
    };
    let expected = vec![
        RenderCommand::SetVertexBuffer { mesh: 0 },
        RenderCommand::SetIndexBuffer { mesh: 0 },
        RenderCommand::SetTextureBindGroup { texture: 1 },
        RenderCommand::DrawIndexed { mesh: 0, count: 3 },
        RenderCommand::SetVertexBuffer { mesh: 1 },
        RenderCommand::SetIndexBuffer { mesh: 1 },
        RenderCommand::SetTextureBindGroup { texture: 0 },
        RenderCommand::DrawIndexed { mesh: 1, count: 6 },
        RenderCommand::SetVertexBuffer { mesh: 2 },
        RenderCommand::SetIndexBuffer { mesh: 2 },
        RenderCommand::SetTextureBindGroup { texture: 0 },
        RenderCommand::DrawIndexed { mesh: 2, count: 9 },
    ];
    assert_eq!(model.render(), expected);
    let mut frame = vec![RenderCommand::SetPipeline, RenderCommand::SetUniformBindGroup];
    frame.extend(expected);
    assert_eq!(model.frame_commands(), frame);
}

fn glb(json: &str, bin: &[u8]) -> Vec<u8> {
    let mut json = json.as_bytes().to_vec();
    while json.len() % 4 != 0 {
        json.push(b' ');
    }
    let mut bin = bin.to_vec();
    while bin.len() % 4 != 0 {
        bin.push(0);
    }
    let total = 12 + 8 + json.len() + 8 + bin.len();
    let mut out = Vec::new();
    out.extend(b"glTF");
    out.extend(2u32.to_le_bytes());
    out.extend((total as u32).to_le_bytes());
    out.extend((json.len() as u32).to_le_bytes());
    out.extend(b"JSON");
    out.extend(json);
    out.extend((bin.len() as u32).to_le_bytes());
    out.extend(b"BIN\0");
    out.extend(bin);
    out
}

const TRIANGLE_JSON: &str = r#"{"asset":{"version":"2.0"},"buffers":[{"byteLength":66}],"bufferViews":[{"buffer":0,"byteOffset":0,"byteLength":36},{"buffer":0,"byteOffset":36,"byteLength":24},{"buffer":0,"byteOffset":60,"byteLength":6}],"accessors":[{"bufferView":0,"componentType":5126,"count":3,"type":"VEC3","min":[0,0,0],"max":[1,1,0]},{"bufferView":1,"componentType":5126,"count":3,"type":"VEC2"},{"bufferView":2,"componentType":5123,"count":3,"type":"SCALAR"}],"meshes":[{"primitives":[{"attributes":{"POSITION":0,"TEXCOORD_0":1},"indices":2}]}]}"#;

fn triangle_bin() -> Vec<u8> {
    let mut bin = floats_le(&[0.0, 0.0, 0.0, 1.0, 0.0, 0.0, 0.0, 1.0, 0.0]);
    bin.extend(floats_le(&[0.0, 0.0, 1.0, 0.0, 0.0, 1.0]));
    bin.extend(u16s(&[2, 1, 0]));
    bin
}

#[test]
fn binary_gltf_triangle_loads() {
    let bytes = glb(TRIANGLE_JSON, &triangle_bin());
    let m = Model::from_bytes(&bytes, "triangle").unwrap();
    assert_eq!(m.label, "triangle");
    assert_eq!(m.meshes.len(), 1);
    let mesh = &m.meshes[0];
    assert_eq!(mesh.indices, vec![2u32, 1, 0]);
    assert_eq!(mesh.num_elements, 3);
    assert_eq!(mesh.texture_index, None);
    assert_eq!(mesh.vertices.len(), 3);
    assert_eq!(mesh.vertices[1].position, [1.0f32.to_bits(), 0, 0]);
    assert_eq!(mesh.vertices[2].tex_coords, [0, 1.0f32.to_bits()]);
    assert!(m.images.is_empty());
}

#[test]
fn binary_gltf_description_tables() {
    let bytes = glb(TRIANGLE_JSON, &triangle_bin());
    let d = SceneDesc::from_glb(&bytes).unwrap();
    assert_eq!(d.accessors.len(), 3);
    assert_eq!(d.accessors[0], AccessorDesc { view: Some(0), component_type: ComponentType::F32 });
    assert_eq!(d.accessors[2], AccessorDesc { view: Some(2), component_type: ComponentType::U16 });
    assert_eq!(d.views[1], ViewDesc { buffer: 0, offset: 36, length: 24 });
    assert_eq!(d.buffers.len(), 1);
    assert_eq!(&d.buffers[0][..66], &triangle_bin()[..]);
    assert_eq!(
        d.primitives,
        vec![PrimitiveDesc { positions: Some(0), tex_coords: Some(1), indices: Some(2), image: None }]
    );
}

#[test]
fn garbage_bytes_are_malformed() {
    assert_eq!(Model::from_bytes(b"not a scene", "x").unwrap_err(), ParseError::Malformed);
    assert_eq!(Model::from_bytes(&[], "x").unwrap_err(), ParseError::Malformed);
    let mut bytes = glb(TRIANGLE_JSON, &triangle_bin());
    bytes[1] = b'X';
    assert_eq!(Model::from_bytes(&bytes, "x").unwrap_err(), ParseError::Malformed);
}

#[test]
fn tex_coords_not_in_pairs() {
    let d = scene(&FIVE_POSITIONS, &FIVE_TEX[..9], u16s(&[0, 1, 2]), ComponentType::U16);
    assert_eq!(Model::from_scene(&d, "x").unwrap_err(), ParseError::Malformed);
}

#[test]
fn trailing_index_byte_is_dropped() {
    let mut bytes = u16s(&[3, 2, 1]);
    bytes.push(9);
    let d = scene(&FIVE_POSITIONS, &FIVE_TEX, bytes, ComponentType::U16);
    let m = Model::from_scene(&d, "x").unwrap();
    assert_eq!(m.meshes[0].indices, vec![3u32, 2, 1]);
}

#[test]
fn relative_buffer_uri_is_malformed() {
    let json = r#"{"asset":{"version":"2.0"},"buffers":[{"byteLength":4,"uri":"%FF"}]}"#;
    assert_eq!(Model::from_bytes(&glb(json, &[]), "x").unwrap_err(), ParseError::Malformed);
    let json = r#"{"asset":{"version":"2.0"},"buffers":[{"byteLength":4,"uri":"data.bin"}]}"#;
    assert_eq!(Model::from_bytes(&glb(json, &[]), "x").unwrap_err(), ParseError::Malformed);
}

#[test]
fn data_uri_buffer_loads() {
    let json = r#"{"asset":{"version":"2.0"},"buffers":[{"byteLength":4,"uri":"data:application/octet-stream;base64,AQIDBA=="}]}"#;
    let d = SceneDesc::from_glb(json.as_bytes()).unwrap();
    assert_eq!(d.buffers, vec![vec![1u8, 2, 3, 4]]);
}

#[test]
fn image_view_past_buffer_is_malformed() {
    let json = r#"{"asset":{"version":"2.0"},"buffers":[{"byteLength":8}],"bufferViews":[{"buffer":0,"byteOffset":4,"byteLength":100}],"images":[{"bufferView":0,"mimeType":"image/png"}]}"#;
    assert_eq!(Model::from_bytes(&glb(json, &[0; 8]), "x").unwrap_err(), ParseError::Malformed);
}

#[test]
fn image_view_without_mime_type_is_malformed() {
    let json = r#"{"asset":{"version":"2.0"},"buffers":[{"byteLength":8}],"bufferViews":[{"buffer":0,"byteLength":8}],"images":[{"bufferView":0}]}"#;
    assert_eq!(Model::from_bytes(&glb(json, &[0; 8]), "x").unwrap_err(), ParseError::Malformed);
}

#[test]
fn image_without_source_is_malformed() {
    let json = r#"{"asset":{"version":"2.0"},"images":[{}]}"#;
    assert_eq!(Model::from_bytes(json.as_bytes(), "x").unwrap_err(), ParseError::Malformed);
}

#[test]
fn short_declared_header_length_is_malformed() {
    let mut bytes = b"glTF".to_vec();
    bytes.extend(2u32.to_le_bytes());
    bytes.extend(5u32.to_le_bytes());
    assert_eq!(Model::from_bytes(&bytes, "x").unwrap_err(), ParseError::Malformed);
    bytes.extend([0u8; 16]);
    assert_eq!(Model::from_bytes(&bytes, "x").unwrap_err(), ParseError::Malformed);
}

#[test]
fn position_index_past_accessors_is_malformed() {
    let json = r#"{"asset":{"version":"2.0"},"meshes":[{"primitives":[{"attributes":{"POSITION":0}}]}]}"#;
    assert_eq!(Model::from_bytes(json.as_bytes(), "x").unwrap_err(), ParseError::Malformed);
    assert_eq!(Model::from_bytes(&glb(json, &[]), "x").unwrap_err(), ParseError::Malformed);
}
