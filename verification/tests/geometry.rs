use quad_render::bytes::{halves_to_bytes, words_to_bytes};
use quad_render::vertex::{
    create_index_buffer, create_vertex_buffer, num_indices, vertex_words, vertices, BufferUsage,
    Vertex, VertexFormat, VertexStepMode, INDICES, VERTEX_SIZE, VERTEX_WORDS,
};

fn native_bytes_of_singles(values: &[f32]) -> Vec<u8> {
    let mut bytes = Vec::new();
    for value in values {
        bytes.extend_from_slice(&value.to_ne_bytes());
    }
    bytes
}

fn singles(bits: [u32; 3]) -> [f32; 3] {
    [f32::from_bits(bits[0]), f32::from_bits(bits[1]), f32::from_bits(bits[2])]
}

#[test]
fn vertex_table_is_the_magenta_quad() {
    let table = vertices();
    let corners = [[-1.0f32, -1.0, 0.0], [1.0, -1.0, 0.0], [1.0, 1.0, 0.0], [-1.0, 1.0, 0.0]];
    assert_eq!(table.len(), 4);
    for (vertex, corner) in table.iter().zip(corners.iter()) {
        assert_eq!(singles(vertex.position), *corner);
        assert_eq!(singles(vertex.color), [1.0f32, 0.0, 1.0]);
    }
}

#[test]
fn indices_form_two_triangles_over_the_corners() {
    assert_eq!(INDICES, [0u16, 1, 2, 0, 2, 3]);
    assert_eq!(num_indices(), 6);
    assert!(INDICES.iter().all(|&i| (i as usize) < vertices().len()));
}

#[test]
fn layout_matches_the_vertex_record() {
    let layout = Vertex::desc();
    assert_eq!(layout.array_stride, 24);
    assert_eq!(layout.array_stride, VERTEX_SIZE);
    assert_eq!(layout.array_stride as usize, std::mem::size_of::<[f32; 6]>());
    assert_eq!(layout.array_stride as usize, 4 * VERTEX_WORDS);
    assert_eq!(layout.step_mode, VertexStepMode::Vertex);
    assert_eq!(layout.attributes.len(), 2);
    assert_eq!(layout.attributes[0].format, VertexFormat::Float32x3);
    assert_eq!(layout.attributes[0].offset, 0);
    assert_eq!(layout.attributes[0].shader_location, 0);
    assert_eq!(layout.attributes[1].format, VertexFormat::Float32x3);
    assert_eq!(layout.attributes[1].offset, 12);
    assert_eq!(layout.attributes[1].shader_location, 1);
}

#[test]
fn layout_has_no_padding() {
    let layout = Vertex::desc();
    let mut end = 0u64;
    for attribute in layout.attributes.iter() {
        assert_eq!(attribute.offset, end);
        end += attribute.format.size();
    }
    assert_eq!(layout.array_stride, end);
}

#[test]
fn format_sizes_are_four_bytes_a_component() {
    assert_eq!(VertexFormat::Float32.size(), 4);
    assert_eq!(VertexFormat::Float32x2.size(), 8);
    assert_eq!(VertexFormat::Float32x3.size(), 12);
    assert_eq!(VertexFormat::Float32x4.size(), 16);
}

#[test]
fn vertex_words_flattens_position_then_color() {
    let table = [
        Vertex { position: [1, 2, 3], color: [4, 5, 6] },
        Vertex { position: [7, 8, 9], color: [10, 11, 12] },
    ];
    assert_eq!(vertex_words(&table), vec![1u32, 2, 3, 4, 5, 6, 7, 8, 9, 10, 11, 12]);
    assert_eq!(vertex_words(&[]), Vec::<u32>::new());
}

#[test]
fn vertex_buffer_holds_the_table_as_the_gpu_reads_it() {
    let init = create_vertex_buffer();
    assert_eq!(init.usage, BufferUsage::Vertex);
    assert_eq!(init.label, "Vertex Buffer");
    assert_eq!(init.contents.len(), 96);
    let expected = native_bytes_of_singles(&[
        -1.0, -1.0, 0.0, 1.0, 0.0, 1.0, //
        1.0, -1.0, 0.0, 1.0, 0.0, 1.0, //
        1.0, 1.0, 0.0, 1.0, 0.0, 1.0, //
        -1.0, 1.0, 0.0, 1.0, 0.0, 1.0,
    ]);
    assert_eq!(init.contents, expected);
}

#[test]
fn index_buffer_holds_the_indices_as_the_gpu_reads_them() {
    let init = create_index_buffer();
    assert_eq!(init.usage, BufferUsage::Index);
    assert_eq!(init.label, "Index Buffer");
    assert_eq!(init.contents.len(), 12);
    let mut expected = Vec::new();
    for index in [0u16, 1, 2, 0, 2, 3] {
        expected.extend_from_slice(&index.to_ne_bytes());
    }
    assert_eq!(init.contents, expected);
}

#[test]
fn halves_to_bytes_gives_two_native_bytes_a_value() {
    let bytes = halves_to_bytes(&[0x1234, 0xABCD, 0x00FF]);
    let mut expected = Vec::new();
    for value in [0x1234u16, 0xABCD, 0x00FF] {
        expected.extend_from_slice(&value.to_ne_bytes());
    }
    assert_eq!(bytes, expected);
    assert!(bytes == vec![0x34, 0x12, 0xCD, 0xAB, 0xFF, 0x00]
        || bytes == vec![0x12, 0x34, 0xAB, 0xCD, 0x00, 0xFF]);
    assert_eq!(halves_to_bytes(&[]), Vec::<u8>::new());
}

#[test]
fn words_to_bytes_gives_four_native_bytes_a_value() {
    let bytes = words_to_bytes(&[0x1234_5678, 0xDEAD_BEEF]);
    let mut expected = Vec::new();
    for value in [0x1234_5678u32, 0xDEAD_BEEF] {
        expected.extend_from_slice(&value.to_ne_bytes());
    }
    assert_eq!(bytes, expected);
    assert!(bytes == vec![0x78, 0x56, 0x34, 0x12, 0xEF, 0xBE, 0xAD, 0xDE]
        || bytes == vec![0x12, 0x34, 0x56, 0x78, 0xDE, 0xAD, 0xBE, 0xEF]);
    assert_eq!(words_to_bytes(&[]), Vec::<u8>::new());
}

#[test]
fn words_read_back_from_their_bytes_are_the_words() {
    let words = [0u32, 1, 0x3F80_0000, 0xBF80_0000, u32::MAX, 0x0102_0304];
    let bytes = words_to_bytes(&words);
    let back: Vec<u32> = bytemuck::pod_collect_to_vec(&bytes);
    assert_eq!(back, words.to_vec());
}
