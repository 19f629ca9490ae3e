use texture_quad::vertex::index_bytes;
use texture_quad::vertex::quad_indices;
use texture_quad::vertex::quad_vertices;
use texture_quad::vertex::vertex_bytes;
use texture_quad::vertex::Vertex;
use texture_quad::vertex::VertexAttribute;
use texture_quad::vertex::VertexFormat;
use texture_quad::vertex::VertexStepMode;

fn numbers(bytes: &[u8]) -> Vec<f32> {
    bytes.chunks(4).map(|c| f32::from_le_bytes([c[0], c[1], c[2], c[3]])).collect()
}

#[test]
fn vertex_layout_has_two_packed_attributes() {
    let layout = Vertex::desc();
    assert_eq!(layout.array_stride, 20);
    assert_eq!(layout.step_mode, VertexStepMode::Vertex);
    assert_eq!(
        layout.attributes,
        vec![
            VertexAttribute { format: VertexFormat::Float32x3, offset: 0, shader_location: 0 },
            VertexAttribute { format: VertexFormat::Float32x2, offset: 12, shader_location: 1 },
        ]
    );
}

#[test]
fn format_sizes_are_four_bytes_a_number() {
    assert_eq!(VertexFormat::Float32x2.size(), 8);
    assert_eq!(VertexFormat::Float32x3.size(), 12);
}

#[test]
fn index_buffer_bytes_are_little_endian() {
    let indices = quad_indices();
    assert_eq!(indices, vec![1, 0, 2, 0, 2, 3]);
    assert_eq!(index_bytes(&indices), vec![1, 0, 0, 0, 2, 0, 0, 0, 2, 0, 3, 0]);
}

#[test]
fn indices_name_vertices_of_the_quad() {
    let vertices = quad_vertices(640, 360);
    for i in quad_indices() {
        assert!((i as usize) < vertices.len());
    }
}

#[test]
fn quad_goes_round_the_rectangle() {
    let vertices = quad_vertices(640, 360);
    assert_eq!(vertices.len(), 4);
    let seen: Vec<([f32; 3], [f32; 2])> = vertices
        .iter()
        .map(|v| (v.position.map(f32::from_bits), v.tex_coords.map(f32::from_bits)))
        .collect();
    assert_eq!(
        seen,
        vec![
            ([0.0, 0.0, 0.0], [0.0, 0.0]),
            ([640.0, 0.0, 0.0], [1.0, 0.0]),
            ([640.0, 360.0, 0.0], [1.0, 1.0]),
            ([0.0, 360.0, 0.0], [0.0, 1.0]),
        ]
    );
    assert_eq!(vertices[2].position, [0x4420_0000, 0x43B4_0000, 0]);
}

#[test]
fn quad_takes_the_size_it_is_given() {
    let vertices = quad_vertices(3, 0);
    assert_eq!(vertices[1].position.map(f32::from_bits), [3.0, 0.0, 0.0]);
    assert_eq!(vertices[2].position.map(f32::from_bits), [3.0, 0.0, 0.0]);
    assert_eq!(vertices[3].tex_coords.map(f32::from_bits), [0.0, 1.0]);
}

#[test]
fn vertex_buffer_holds_twenty_bytes_a_vertex() {
    let bytes = vertex_bytes(&quad_vertices(640, 360));
    assert_eq!(bytes.len(), 80);
    assert_eq!(
        numbers(&bytes),
        vec![
            0.0, 0.0, 0.0, 0.0, 0.0, //
            640.0, 0.0, 0.0, 1.0, 0.0, //
            640.0, 360.0, 0.0, 1.0, 1.0, //
            0.0, 360.0, 0.0, 0.0, 1.0,
        ]
    );
    assert_eq!(&bytes[20..24], &[0x00, 0x00, 0x20, 0x44]);
    assert_eq!(vertex_bytes(&Vec::new()), Vec::<u8>::new());
}
