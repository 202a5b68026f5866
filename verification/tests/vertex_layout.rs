use nuke::vertex::VERTEX_ALIGNMENT;
use nuke::vertex::VERTEX_COLOR_OFFSET;
use nuke::vertex::VERTEX_POSITION_OFFSET;
use nuke::vertex::VERTEX_SIZE;
use nuke::vertex::VERTEX_UV_OFFSET;
use nuke::vertex::Vertex;
use nuke::vertex::VertexAttribute;
use nuke::vertex::VertexField;
use nuke::vertex::VertexFormat;
use nuke::vertex::push_vertex_bytes;
use nuke::vertex::vertex_field_offset;
use nuke::vertex::vertex_layout;

#[test]
fn packed_offsets_agree_with_constants() {
    // offsets computed by summation against the declared constants
    assert_eq!(vertex_field_offset(VertexField::Position), VERTEX_POSITION_OFFSET);
    assert_eq!(vertex_field_offset(VertexField::Uv), VERTEX_UV_OFFSET);
    assert_eq!(vertex_field_offset(VertexField::Color), VERTEX_COLOR_OFFSET);
    assert_eq!(VERTEX_POSITION_OFFSET, 0);
    assert_eq!(VERTEX_UV_OFFSET, 8);
    assert_eq!(VERTEX_COLOR_OFFSET, 16);
    assert_eq!(VERTEX_SIZE, 20);
    assert_eq!(VERTEX_SIZE % VERTEX_ALIGNMENT, 0);
}

#[test]
fn layout_description_ends_in_sentinel() {
    let layout = vertex_layout();
    assert_eq!(layout.len(), 4);
    assert_eq!(layout[0].attribute, VertexAttribute::Position);
    assert_eq!(layout[0].format, VertexFormat::Float);
    assert_eq!(layout[0].offset, 0);
    assert_eq!(layout[1].attribute, VertexAttribute::Texcoord);
    assert_eq!(layout[1].format, VertexFormat::Float);
    assert_eq!(layout[1].offset, 8);
    assert_eq!(layout[2].attribute, VertexAttribute::Color);
    assert_eq!(layout[2].format, VertexFormat::R8G8B8A8);
    assert_eq!(layout[2].offset, 16);
    assert_eq!(layout[3].attribute, VertexAttribute::AttributeCount);
    assert_eq!(layout[3].format, VertexFormat::FormatCount);
    assert_eq!(layout[3].offset, 0);
}

#[test]
fn vertex_encodes_to_twenty_bytes_little_endian() {
    let v = Vertex {
        position: [0x3f80_0000, 0x4000_0000], // the bit patterns of 1.0f32 and 2.0f32
        uv: [0x0102_0304, 0xaabb_ccdd],
        col: [10, 20, 30, 255],
    };
    let mut bytes: Vec<u8> = Vec::new();
    push_vertex_bytes(&mut bytes, &v);
    assert_eq!(bytes.len(), VERTEX_SIZE);
    assert_eq!(&bytes[0..4], &[0x00, 0x00, 0x80, 0x3f]);
    assert_eq!(&bytes[4..8], &[0x00, 0x00, 0x00, 0x40]);
    assert_eq!(&bytes[8..12], &[0x04, 0x03, 0x02, 0x01]);
    assert_eq!(&bytes[12..16], &[0xdd, 0xcc, 0xbb, 0xaa]);
    assert_eq!(&bytes[16..20], &[10, 20, 30, 255]);
    // the float lanes really carry IEEE-754 bit patterns
    assert_eq!(f32::from_bits(v.position[0]), 1.0);
    assert_eq!(f32::from_bits(v.position[1]), 2.0);
}

#[test]
fn encoding_appends_in_order() {
    let v1 = Vertex { position: [1, 2], uv: [3, 4], col: [5, 6, 7, 8] };
    let v2 = Vertex { position: [9, 10], uv: [11, 12], col: [13, 14, 15, 16] };
    let mut bytes: Vec<u8> = Vec::new();
    push_vertex_bytes(&mut bytes, &v1);
    push_vertex_bytes(&mut bytes, &v2);
    assert_eq!(bytes.len(), 2 * VERTEX_SIZE);
    assert_eq!(bytes[0], 1);
    assert_eq!(bytes[20], 9);
    assert_eq!(bytes[36..40], [13, 14, 15, 16]);
}
