use shared_lib::gl_types::{VertexAttributeType, COMPONENT_BYTES};
use shared_lib::gl_vertex::{RgbVertex, TexturedVertex, Vector2, Vector3, Vector4, Vertex};
use shared_lib::gl_vertex_attribute::VertexAttribute;

fn attribute(
    index: u32,
    size: i32,
    attribute_type: VertexAttributeType,
    stride: usize,
    offset: usize,
) -> VertexAttribute {
    VertexAttribute { index, size, attribute_type, normalized: false, stride, offset }
}

fn component_bytes(attributes: &[VertexAttribute]) -> usize {
    attributes.iter().map(|a| a.size as usize * COMPONENT_BYTES).sum()
}

fn keeps_to_order(attributes: &[VertexAttribute], size: usize) -> bool {
    let slots = attributes.iter().enumerate().all(|(i, a)| a.index as usize == i);
    let counts = attributes.iter().all(|a| 1 <= a.size && a.size <= 4);
    let strides = attributes.iter().all(|a| a.stride == size);
    let apart = attributes
        .windows(2)
        .all(|pair| pair[0].offset + pair[0].size as usize * COMPONENT_BYTES <= pair[1].offset);
    slots && counts && strides && apart
}

fn is_packed(attributes: &[VertexAttribute], size: usize) -> bool {
    let mut next = 0;
    for a in attributes {
        if a.offset != next {
            return false;
        }
        next += a.size as usize * COMPONENT_BYTES;
    }
    next == size
}

#[test]
fn a_component_takes_four_bytes() {
    assert_eq!(COMPONENT_BYTES, 4);
    assert_eq!(COMPONENT_BYTES, std::mem::size_of::<f32>());
}

#[test]
fn new_keeps_every_field() {
    let made = VertexAttribute::new(3, 2, VertexAttributeType::TexCoord, true, 36, 28);
    assert_eq!(made.index, 3);
    assert_eq!(made.size, 2);
    assert_eq!(made.attribute_type, VertexAttributeType::TexCoord);
    assert!(made.normalized);
    assert_eq!(made.stride, 36);
    assert_eq!(made.offset, 28);
}

#[test]
fn new_checks_nothing() {
    let odd = VertexAttribute::new(u32::MAX, -1, VertexAttributeType::Color, false, 0, usize::MAX);
    assert_eq!(
        odd,
        VertexAttribute {
            index: u32::MAX,
            size: -1,
            attribute_type: VertexAttributeType::Color,
            normalized: false,
            stride: 0,
            offset: usize::MAX,
        }
    );
}

#[test]
fn a_descriptor_can_be_copied() {
    let made = VertexAttribute::new(1, 3, VertexAttributeType::Color, false, 24, 12);
    let copy = made.clone();
    assert_eq!(copy, made);
}

#[test]
fn vector2_is_one_texture_coordinate() {
    assert_eq!(Vector2::size(), 8);
    assert_eq!(Vector2::attributes(), vec![attribute(0, 2, VertexAttributeType::TexCoord, 8, 0)]);
}

#[test]
fn vector3_is_one_position() {
    assert_eq!(Vector3::size(), 12);
    assert_eq!(Vector3::attributes(), vec![attribute(0, 3, VertexAttributeType::Position, 12, 0)]);
}

#[test]
fn vector4_is_one_colour() {
    assert_eq!(Vector4::size(), 16);
    assert_eq!(Vector4::attributes(), vec![attribute(0, 4, VertexAttributeType::Color, 16, 0)]);
}

#[test]
fn an_index_has_no_attribute() {
    assert_eq!(<u32 as Vertex>::size(), 4);
    assert_eq!(<u32 as Vertex>::attributes(), vec![]);
}

#[test]
fn rgb_vertex_is_a_position_and_a_colour() {
    assert_eq!(RgbVertex::size(), 24);
    assert_eq!(
        RgbVertex::attributes(),
        vec![
            attribute(0, 3, VertexAttributeType::Position, 24, 0),
            attribute(1, 3, VertexAttributeType::Color, 24, 12),
        ]
    );
}

#[test]
fn textured_vertex_is_a_position_a_colour_and_a_texture_coordinate() {
    assert_eq!(TexturedVertex::size(), 36);
    assert_eq!(
        TexturedVertex::attributes(),
        vec![
            attribute(0, 3, VertexAttributeType::Position, 36, 0),
            attribute(1, 4, VertexAttributeType::Color, 36, 12),
            attribute(2, 2, VertexAttributeType::TexCoord, 36, 28),
        ]
    );
}

#[test]
fn record_sizes_match_the_records() {
    assert_eq!(Vector2::size(), std::mem::size_of::<Vector2>());
    assert_eq!(Vector3::size(), std::mem::size_of::<Vector3>());
    assert_eq!(Vector4::size(), std::mem::size_of::<Vector4>());
    assert_eq!(RgbVertex::size(), std::mem::size_of::<RgbVertex>());
    assert_eq!(TexturedVertex::size(), std::mem::size_of::<TexturedVertex>());
    assert_eq!(RgbVertex::size(), std::mem::size_of::<[f32; 6]>());
    assert_eq!(TexturedVertex::size(), std::mem::size_of::<[f32; 9]>());
}

#[test]
fn component_bytes_add_up_to_the_stride() {
    assert_eq!(component_bytes(&Vector2::attributes()), Vector2::size());
    assert_eq!(component_bytes(&Vector3::attributes()), Vector3::size());
    assert_eq!(component_bytes(&Vector4::attributes()), Vector4::size());
    assert_eq!(component_bytes(&RgbVertex::attributes()), RgbVertex::size());
    assert_eq!(component_bytes(&TexturedVertex::attributes()), TexturedVertex::size());

    assert!(is_packed(&Vector2::attributes(), Vector2::size()));
    assert!(is_packed(&Vector3::attributes(), Vector3::size()));
    assert!(is_packed(&Vector4::attributes(), Vector4::size()));
    assert!(is_packed(&RgbVertex::attributes(), RgbVertex::size()));
    assert!(is_packed(&TexturedVertex::attributes(), TexturedVertex::size()));
}

#[test]
fn every_attribute_lies_within_its_stride() {
    let all = [
        Vector2::attributes(),
        Vector3::attributes(),
        Vector4::attributes(),
        <u32 as Vertex>::attributes(),
        RgbVertex::attributes(),
        TexturedVertex::attributes(),
    ];
    for a in all.iter().flatten() {
        assert!(a.size >= 1);
        assert!(a.offset + a.size as usize * COMPONENT_BYTES <= a.stride);
    }
}

#[test]
fn an_index_declares_no_stride() {
    assert_eq!(component_bytes(&<u32 as Vertex>::attributes()), 0);
    assert!(<u32 as Vertex>::attributes().is_empty());
    assert!(!is_packed(&<u32 as Vertex>::attributes(), <u32 as Vertex>::size()));
}

#[test]
fn a_triangle_of_three_component_vertices_reads_positions_only() {
    let position = VertexAttribute::new(0, 3, VertexAttributeType::Position, false, 12, 0);
    assert_eq!(Vector3::attributes(), vec![position]);
}

#[test]
fn every_layout_keeps_its_attributes_apart() {
    assert!(keeps_to_order(&Vector2::attributes(), Vector2::size()));
    assert!(keeps_to_order(&Vector3::attributes(), Vector3::size()));
    assert!(keeps_to_order(&Vector4::attributes(), Vector4::size()));
    assert!(keeps_to_order(&<u32 as Vertex>::attributes(), <u32 as Vertex>::size()));
    assert!(keeps_to_order(&RgbVertex::attributes(), RgbVertex::size()));
    assert!(keeps_to_order(&TexturedVertex::attributes(), TexturedVertex::size()));
}

#[test]
fn no_layout_normalises_its_components() {
    let all = [
        Vector2::attributes(),
        Vector3::attributes(),
        Vector4::attributes(),
        RgbVertex::attributes(),
        TexturedVertex::attributes(),
    ];
    assert!(all.iter().flatten().all(|a| !a.normalized));
}

#[test]
fn components_are_kept_as_bits() {
    let vertex = RgbVertex {
        position: [(-0.5f32).to_bits(), 0.5f32.to_bits(), 0.0f32.to_bits()],
        color: [1.0f32.to_bits(), 0.0f32.to_bits(), 0.25f32.to_bits()],
    };
    let copy = vertex;
    assert_eq!(f32::from_bits(copy.position[0]), -0.5);
    assert_eq!(f32::from_bits(copy.position[1]), 0.5);
    assert_eq!(f32::from_bits(copy.color[2]), 0.25);
    assert_eq!(vertex.color, [0x3f80_0000, 0, 0x3e80_0000]);

    let point = Vector3 { x: 1.5f32.to_bits(), y: 0, z: 0x8000_0000 };
    assert_eq!(f32::from_bits(point.x), 1.5);
    assert_eq!(point, Vector3 { x: 0x3fc0_0000, y: 0, z: 0x8000_0000 });
}
