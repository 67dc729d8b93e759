use raytracer::geometry::{
    ingest_scene, BufferUsage,
    ingest_materials, ingest_vertices, material_buffer_bytes, material_buffer_words, vertex_buffer_bytes,
    vertex_buffer_words, vertex_count, Material, MeshData, PrimitiveData, Rgba, Vertex, MATERIAL_STRIDE,
    VERTEX_STRIDE,
};

fn v(x: f32, y: f32, z: f32) -> Vertex {
    Vertex { x: x.to_bits(), y: y.to_bits(), z: z.to_bits() }
}

fn rgba(r: f32, g: f32, b: f32, a: f32) -> Rgba {
    Rgba { r: r.to_bits(), g: g.to_bits(), b: b.to_bits(), a: a.to_bits() }
}

fn sample_scene() -> Vec<MeshData> {
    vec![
        MeshData {
            primitives: vec![
                PrimitiveData { positions: Some(vec![v(0.0, 0.5, 0.0), v(-0.5, -0.5, 0.0), v(0.5, -0.5, 0.0)]) },
                PrimitiveData { positions: None },
                PrimitiveData { positions: Some(vec![v(1.0, 1.0, 1.0)]) },
            ],
        },
        MeshData { primitives: vec![] },
        MeshData { primitives: vec![PrimitiveData { positions: Some(vec![v(2.0, 3.0, 4.0), v(5.0, 6.0, 7.0)]) }] },
    ]
}

#[test]
fn vertices_follow_document_order() {
    let out = ingest_vertices(&sample_scene());
    assert_eq!(
        out,
        vec![
            v(0.0, 0.5, 0.0),
            v(-0.5, -0.5, 0.0),
            v(0.5, -0.5, 0.0),
            v(1.0, 1.0, 1.0),
            v(2.0, 3.0, 4.0),
            v(5.0, 6.0, 7.0),
        ]
    );
}

#[test]
fn vertex_count_is_sum_of_positions() {
    let scene = sample_scene();
    let expected: usize = scene
        .iter()
        .flat_map(|m| m.primitives.iter())
        .map(|p| p.positions.as_ref().map_or(0, |ps| ps.len()))
        .sum();
    let out = ingest_vertices(&scene);
    assert_eq!(out.len(), expected);
    assert_eq!(expected, 6);
    assert_eq!(vertex_count(&out), Some(6));
}

#[test]
fn empty_scene_has_no_vertices() {
    assert!(ingest_vertices(&vec![]).is_empty());
    let only_missing = vec![MeshData { primitives: vec![PrimitiveData { positions: None }] }];
    assert!(ingest_vertices(&only_missing).is_empty());
    assert_eq!(vertex_count(&vec![]), Some(0));
}

#[test]
fn materials_take_base_color_as_ambient() {
    let colors = vec![rgba(1.0, 0.0, 0.0, 1.0), rgba(0.2, 0.4, 0.6, 0.5), rgba(1.0, 0.0, 0.0, 1.0)];
    let out = ingest_materials(&colors);
    assert_eq!(out.len(), 3);
    let zero = rgba(0.0, 0.0, 0.0, 0.0);
    for (m, c) in out.iter().zip(colors.iter()) {
        assert_eq!(*m, Material { ambient: *c, diffuse: zero, specular: zero });
    }
    assert_eq!(f32::from_bits(out[1].ambient.b), 0.6);
    assert_eq!(f32::from_bits(out[2].diffuse.a), 0.0);
}

#[test]
fn no_materials_gives_empty_buffer() {
    let out = ingest_materials(&vec![]);
    assert!(out.is_empty());
    assert!(material_buffer_bytes(&out).is_empty());
}

#[test]
fn vertex_words_are_packed_in_order() {
    let words = vertex_buffer_words(&vec![v(1.0, 2.0, 3.0), v(4.0, 5.0, 6.0)]);
    let expected: Vec<u32> = [1.0f32, 2.0, 3.0, 4.0, 5.0, 6.0].iter().map(|f| f.to_bits()).collect();
    assert_eq!(words, expected);
}

#[test]
fn vertex_bytes_match_float_layout() {
    let verts = vec![v(1.0, -2.5, 3.25), v(0.0, 0.5, 8.0)];
    let bytes = vertex_buffer_bytes(&verts);
    assert_eq!(bytes.len() as u64, VERTEX_STRIDE * 2);
    let expected: Vec<u8> =
        [1.0f32, -2.5, 3.25, 0.0, 0.5, 8.0].iter().flat_map(|f| f.to_ne_bytes()).collect();
    assert_eq!(bytes, expected);
}

#[test]
fn material_words_and_bytes() {
    let mats = ingest_materials(&vec![rgba(0.1, 0.2, 0.3, 0.4)]);
    let words = material_buffer_words(&mats);
    assert_eq!(words.len(), 12);
    assert_eq!(&words[0..4], &[0.1f32.to_bits(), 0.2f32.to_bits(), 0.3f32.to_bits(), 0.4f32.to_bits()]);
    assert!(words[4..].iter().all(|w| *w == 0));
    let bytes = material_buffer_bytes(&mats);
    assert_eq!(bytes.len() as u64, MATERIAL_STRIDE);
    assert_eq!(&bytes[0..4], &0.1f32.to_ne_bytes());
    assert!(bytes[16..].iter().all(|b| *b == 0));
}

#[test]
fn material_buffer_keeps_scene_order() {
    let colors = vec![rgba(0.5, 0.25, 1.0, 1.0), rgba(0.0, 1.0, 0.0, 0.75)];
    let words = material_buffer_words(&ingest_materials(&colors));
    assert_eq!(words.len(), 24);
    for (i, c) in colors.iter().enumerate() {
        assert_eq!(&words[12 * i..12 * i + 4], &[c.r, c.g, c.b, c.a]);
        assert!(words[12 * i + 4..12 * i + 12].iter().all(|w| *w == 0));
    }
}

#[test]
fn scene_upload_tags_buffers() {
    let colors = vec![rgba(0.5, 0.5, 0.5, 1.0)];
    let up = ingest_scene(&sample_scene(), &colors);
    assert_eq!(up.vertices.len(), 6);
    assert_eq!(up.materials.len(), 1);
    assert_eq!(up.vertex_buffer.usage, BufferUsage::Vertex);
    assert_eq!(up.vertex_buffer.contents.len() as u64, VERTEX_STRIDE * 6);
    assert_eq!(up.vertex_buffer.contents, vertex_buffer_bytes(&up.vertices));
    assert_eq!(up.material_buffer.usage, BufferUsage::Storage);
    assert_eq!(up.material_buffer.contents.len() as u64, MATERIAL_STRIDE);
    assert_eq!(&up.material_buffer.contents[0..4], &0.5f32.to_ne_bytes());
}

#[test]
fn appending_a_mesh_appends_its_vertices() {
    let mut scene = sample_scene();
    let before = ingest_vertices(&scene);
    scene.push(MeshData {
        primitives: vec![
            PrimitiveData { positions: Some(vec![v(9.0, 9.0, 9.0)]) },
            PrimitiveData { positions: Some(vec![v(8.0, 8.0, 8.0)]) },
        ],
    });
    let after = ingest_vertices(&scene);
    let mut expected = before.clone();
    expected.push(v(9.0, 9.0, 9.0));
    expected.push(v(8.0, 8.0, 8.0));
    assert_eq!(after, expected);
}
