use render_core::mesh::{indices_in_range, upload, vertex_count, BufferUsage};

fn native_bytes(indices: &[u16]) -> Vec<u8> {
    let mut bytes = Vec::new();
    for index in indices {
        bytes.extend_from_slice(&index.to_ne_bytes());
    }
    bytes
}

fn vertex_bytes(positions: &[[f32; 3]]) -> Vec<u8> {
    let mut bytes = Vec::new();
    for position in positions {
        for coordinate in position {
            bytes.extend_from_slice(&coordinate.to_ne_bytes());
        }
    }
    bytes
}

#[test]
fn vertex_count_counts_whole_records() {
    assert_eq!(vertex_count(36, 12), 3);
    assert_eq!(vertex_count(35, 12), 2);
    assert_eq!(vertex_count(12, 12), 1);
    assert_eq!(vertex_count(11, 12), 0);
    assert_eq!(vertex_count(0, 12), 0);
    assert_eq!(vertex_count(72, 24), 3);
}

#[test]
fn vertex_count_is_zero_for_zero_stride() {
    assert_eq!(vertex_count(36, 0), 0);
    assert_eq!(vertex_count(0, 0), 0);
}

#[test]
fn indices_in_range_accepts_indices_below_the_count() {
    assert!(indices_in_range(&[0, 1, 2], 3));
    assert!(indices_in_range(&[2, 2, 0, 1], 3));
    assert!(indices_in_range(&[], 0));
    assert!(indices_in_range(&[], 3));
    assert!(indices_in_range(&[u16::MAX], 65536));
}

#[test]
fn indices_in_range_rejects_an_index_at_or_above_the_count() {
    assert!(!indices_in_range(&[0, 1, 3], 3));
    assert!(!indices_in_range(&[3, 0, 1], 3));
    assert!(!indices_in_range(&[0, 7, 1], 3));
    assert!(!indices_in_range(&[0], 0));
    assert!(!indices_in_range(&[u16::MAX], 65535));
}

#[test]
fn upload_records_the_index_count() {
    let vertices = vertex_bytes(&[[0.0, 0.5, 0.0], [-0.5, -0.5, 0.0], [0.5, -0.5, 0.0]]);
    let pair = upload(&vertices, 12, &[0, 1, 2]);
    assert_eq!(pair.index_count(), 3);
    assert_eq!(pair.vertex_count(), 3);
    assert_eq!(pair.vertex_stride(), 12);

    let quad = vertex_bytes(&[
        [-0.5, 0.5, 0.0],
        [-0.5, -0.5, 0.0],
        [0.5, -0.5, 0.0],
        [0.5, 0.5, 0.0],
    ]);
    let pair = upload(&quad, 12, &[0, 1, 2, 0, 2, 3]);
    assert_eq!(pair.index_count(), 6);
    assert_eq!(pair.vertex_count(), 4);
}

#[test]
fn upload_of_nothing_is_empty() {
    let pair = upload(&[], 12, &[]);
    assert_eq!(pair.index_count(), 0);
    assert_eq!(pair.vertex_count(), 0);
    assert!(pair.vertex_buffer().contents().is_empty());
    assert!(pair.index_buffer().contents().is_empty());
}

#[test]
fn upload_copies_the_vertex_bytes() {
    let vertices = vertex_bytes(&[[0.0, 0.5, 0.0], [-0.5, -0.5, 0.0], [0.5, -0.5, 0.0]]);
    let pair = upload(&vertices, 12, &[0, 1, 2]);
    assert_eq!(pair.vertex_buffer().contents(), &vertices);
    assert_eq!(pair.vertex_buffer().usage(), BufferUsage::Vertex);
}

#[test]
fn upload_lays_out_indices_in_native_byte_order() {
    let indices: [u16; 6] = [0, 1, 2, 0x0102, 0xABCD, u16::MAX];
    let vertices = vec![0u8; 4 * 65536];
    let pair = upload(&vertices, 4, &indices);
    assert_eq!(pair.index_buffer().usage(), BufferUsage::Index);
    assert_eq!(pair.index_buffer().contents().len(), 12);
    assert_eq!(pair.index_buffer().contents(), &native_bytes(&indices));
    assert_eq!(pair.index_buffer().contents(), bytemuck::cast_slice::<u16, u8>(&indices));

    let little: Vec<u8> = indices.iter().flat_map(|i| i.to_le_bytes()).collect();
    let big: Vec<u8> = indices.iter().flat_map(|i| i.to_be_bytes()).collect();
    let stored = pair.index_buffer().contents();
    assert!(stored == &little || stored == &big);
}

#[test]
fn upload_with_more_indices_than_vertices() {
    let vertices = vec![0u8; 24];
    let indices: Vec<u16> = (0..300).map(|i| i % 2).collect();
    assert!(indices_in_range(&indices, vertex_count(vertices.len(), 12)));
    let pair = upload(&vertices, 12, &indices);
    assert_eq!(pair.index_count(), 300);
    assert_eq!(pair.vertex_count(), 2);
    assert_eq!(pair.index_buffer().contents().len(), 600);
}
