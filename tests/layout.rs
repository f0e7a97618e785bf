use learn_opengl::{buffer_bytes, interleaved_attributes, VertexAttribute};

#[test]
fn position_and_texture_coordinates() {
    let layout = interleaved_attributes(&[3, 2], 4).unwrap();
    assert_eq!(
        layout,
        vec![
            VertexAttribute { components: 3, stride: 20, offset: 0 },
            VertexAttribute { components: 2, stride: 20, offset: 12 },
        ]
    );
}

#[test]
fn position_and_normal() {
    let layout = interleaved_attributes(&[3, 3], 4).unwrap();
    assert_eq!(
        layout,
        vec![
            VertexAttribute { components: 3, stride: 24, offset: 0 },
            VertexAttribute { components: 3, stride: 24, offset: 12 },
        ]
    );
}

#[test]
fn three_attributes_and_empty_layout() {
    let layout = interleaved_attributes(&[3, 3, 2], 4).unwrap();
    assert_eq!(layout[2], VertexAttribute { components: 2, stride: 32, offset: 24 });
    assert_eq!(interleaved_attributes(&[], 4), Some(vec![]));
    assert_eq!(
        interleaved_attributes(&[5], 0),
        Some(vec![VertexAttribute { components: 5, stride: 0, offset: 0 }])
    );
}

#[test]
fn layout_at_the_size_limit() {
    let max = i32::MAX as u32;
    assert_eq!(
        interleaved_attributes(&[max], 1),
        Some(vec![VertexAttribute { components: i32::MAX, stride: i32::MAX, offset: 0 }])
    );
    assert_eq!(interleaved_attributes(&[max, 1], 1), None);
    assert_eq!(interleaved_attributes(&[u32::MAX], 1), None);
    assert_eq!(interleaved_attributes(&[u32::MAX], 0), None);
    assert_eq!(interleaved_attributes(&[1, 1], 1 << 30), None);
    assert_eq!(interleaved_attributes(&[u32::MAX, u32::MAX], u32::MAX), None);
}

#[test]
fn buffer_sizes() {
    assert_eq!(buffer_bytes(180, 4), Some(720));
    assert_eq!(buffer_bytes(216, 4), Some(864));
    assert_eq!(buffer_bytes(36, 4), Some(144));
    assert_eq!(buffer_bytes(0, 4), Some(0));
}

#[test]
fn buffer_size_limits() {
    let max = isize::MAX as usize;
    assert_eq!(buffer_bytes(max, 1), Some(isize::MAX));
    assert_eq!(buffer_bytes(max + 1, 1), None);
    assert_eq!(buffer_bytes(usize::MAX, 2), None);
    assert_eq!(buffer_bytes(max / 2 + 1, 2), None);
}
