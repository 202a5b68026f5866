//! The packed vertex layout.
//!
//! The GUI library writes vertices straight into a caller-provided byte
//! buffer, using the byte offsets the caller declares for each field. The
//! layout is therefore a binding contract: position, then texture
//! coordinates, then color, tightly packed, with 32-bit lanes for the
//! first two fields and four color bytes. This crate never does float
//! arithmetic on a vertex, so the 32-bit lanes are carried as the bit
//! patterns the shader will read, and a vertex is encoded byte for byte.

use vstd::prelude::*;

verus! {

/// Byte offset of the position field in a packed vertex.
pub const VERTEX_POSITION_OFFSET: usize = 0;

/// Byte offset of the texture-coordinate field in a packed vertex.
pub const VERTEX_UV_OFFSET: usize = 8;

/// Byte offset of the color field in a packed vertex.
pub const VERTEX_COLOR_OFFSET: usize = 16;

/// Size in bytes of a packed vertex.
pub const VERTEX_SIZE: usize = 20;

/// Alignment in bytes of a packed vertex: one 32-bit lane.
pub const VERTEX_ALIGNMENT: usize = 4;

/// The fields of a packed vertex, in their packed order.
#[derive(Clone, Copy, PartialEq, Eq, Structural, Debug)]
pub enum VertexField {
    Position,
    Uv,
    Color,
}

/// What a layout entry describes to the GUI library's convert step.
#[derive(Clone, Copy, PartialEq, Eq, Structural, Debug)]
pub enum VertexAttribute {
    Position,
    Color,
    Texcoord,
    /// Sentinel closing a layout description.
    AttributeCount,
}

/// The element format of a layout entry.
#[derive(Clone, Copy, PartialEq, Eq, Structural, Debug)]
pub enum VertexFormat {
    /// Two 32-bit float lanes.
    Float,
    /// Four color bytes, normalized on the GPU.
    R8G8B8A8,
    /// Sentinel closing a layout description.
    FormatCount,
}

/// One entry of the vertex layout handed to the convert step.
#[derive(Clone, Copy, PartialEq, Eq, Structural, Debug)]
pub struct VertexLayoutElement {
    pub attribute: VertexAttribute,
    pub format: VertexFormat,
    pub offset: usize,
}

/// Size in bytes of one vertex field.
pub open spec fn field_size(f: VertexField) -> nat {
    match f {
        VertexField::Position => 8,
        VertexField::Uv => 8,
        VertexField::Color => 4,
    }
}

/// Byte offset of a field, computed as the sum of the sizes of the
/// fields packed before it — independently of the declared offset
/// constants.
pub open spec fn field_offset(f: VertexField) -> nat {
    match f {
        VertexField::Position => 0,
        VertexField::Uv => field_size(VertexField::Position),
        VertexField::Color => field_size(VertexField::Position) + field_size(VertexField::Uv),
    }
}

/// Byte offset of a field, computed by summation at run time.
pub fn vertex_field_offset(f: VertexField) -> (o: usize)
    ensures
        o == field_offset(f),
{
    let position_size: usize = 8;
    let uv_size: usize = 8;
    match f {
        VertexField::Position => 0,
        VertexField::Uv => position_size,
        VertexField::Color => position_size + uv_size,
    }
}

/// The vertex layout is packed: the declared offset of every field
/// agrees with the sum of the sizes of the fields before it, each field
/// ends where the next begins, and the color bytes end at the vertex
/// size.
pub proof fn lemma_vertex_layout_packed()
    ensures
        field_offset(VertexField::Position) == VERTEX_POSITION_OFFSET,
        field_offset(VertexField::Uv) == VERTEX_UV_OFFSET,
        field_offset(VertexField::Color) == VERTEX_COLOR_OFFSET,
        field_offset(VertexField::Position) + field_size(VertexField::Position) == field_offset(
            VertexField::Uv,
        ),
        field_offset(VertexField::Uv) + field_size(VertexField::Uv) == field_offset(
            VertexField::Color,
        ),
        field_offset(VertexField::Color) + field_size(VertexField::Color) == VERTEX_SIZE,
        VERTEX_SIZE % VERTEX_ALIGNMENT == 0,
{
}

/// The layout description fed to the convert step, closed by the
/// sentinel entry.
pub open spec fn spec_vertex_layout() -> Seq<VertexLayoutElement> {
    seq![
        VertexLayoutElement {
            attribute: VertexAttribute::Position,
            format: VertexFormat::Float,
            offset: VERTEX_POSITION_OFFSET,
        },
        VertexLayoutElement {
            attribute: VertexAttribute::Texcoord,
            format: VertexFormat::Float,
            offset: VERTEX_UV_OFFSET,
        },
        VertexLayoutElement {
            attribute: VertexAttribute::Color,
            format: VertexFormat::R8G8B8A8,
            offset: VERTEX_COLOR_OFFSET,
        },
        VertexLayoutElement {
            attribute: VertexAttribute::AttributeCount,
            format: VertexFormat::FormatCount,
            offset: 0,
        },
    ]
}

/// Builds the layout description fed to the convert step.
pub fn vertex_layout() -> (v: Vec<VertexLayoutElement>)
    ensures
        v@ == spec_vertex_layout(),
{
    let mut v: Vec<VertexLayoutElement> = Vec::new();
    v.push(
        VertexLayoutElement {
            attribute: VertexAttribute::Position,
            format: VertexFormat::Float,
            offset: VERTEX_POSITION_OFFSET,
        },
    );
    v.push(
        VertexLayoutElement {
            attribute: VertexAttribute::Texcoord,
            format: VertexFormat::Float,
            offset: VERTEX_UV_OFFSET,
        },
    );
    v.push(
        VertexLayoutElement {
            attribute: VertexAttribute::Color,
            format: VertexFormat::R8G8B8A8,
            offset: VERTEX_COLOR_OFFSET,
        },
    );
    v.push(
        VertexLayoutElement {
            attribute: VertexAttribute::AttributeCount,
            format: VertexFormat::FormatCount,
            offset: 0,
        },
    );
    proof {
        assert(v@ =~= spec_vertex_layout());
    }
    v
}

/// One vertex of the converted stream. The position and texture lanes
/// carry the 32-bit patterns the shader will read; this crate moves them
/// but never interprets them as numbers.
#[derive(Clone, Copy, PartialEq, Eq, Debug)]
pub struct Vertex {
    pub position: [u32; 2],
    pub uv: [u32; 2],
    pub col: [u8; 4],
}

/// The four bytes of a 32-bit lane, least significant first.
pub open spec fn le32(x: u32) -> Seq<u8> {
    seq![
        (x % 256) as u8,
        ((x / 256) % 256) as u8,
        ((x / 65536) % 256) as u8,
        (x / 16777216) as u8,
    ]
}

/// The twenty bytes of a packed vertex, field by field in layout order.
pub open spec fn spec_vertex_bytes(v: Vertex) -> Seq<u8> {
    le32(v.position@[0]) + le32(v.position@[1]) + le32(v.uv@[0]) + le32(v.uv@[1]) + seq![
        v.col@[0],
        v.col@[1],
        v.col@[2],
        v.col@[3],
    ]
}

/// A packed vertex occupies exactly `VERTEX_SIZE` bytes.
pub proof fn lemma_vertex_bytes_len(v: Vertex)
    ensures
        spec_vertex_bytes(v).len() == VERTEX_SIZE,
{
}

/// Appends the four bytes of a 32-bit lane, least significant first.
fn push_le32(out: &mut Vec<u8>, x: u32)
    ensures
        final(out)@ == old(out)@ + le32(x),
{
    out.push((x % 256) as u8);
    out.push(((x / 256) % 256) as u8);
    out.push(((x / 65536) % 256) as u8);
    out.push((x / 16777216) as u8);
    proof {
        assert(out@ =~= old(out)@ + le32(x));
    }
}

/// Appends the packed encoding of one vertex.
pub fn push_vertex_bytes(out: &mut Vec<u8>, v: &Vertex)
    ensures
        final(out)@ == old(out)@ + spec_vertex_bytes(*v),
{
    push_le32(out, v.position[0]);
    push_le32(out, v.position[1]);
    push_le32(out, v.uv[0]);
    push_le32(out, v.uv[1]);
    out.push(v.col[0]);
    out.push(v.col[1]);
    out.push(v.col[2]);
    out.push(v.col[3]);
    proof {
        assert(out@ =~= old(out)@ + spec_vertex_bytes(*v));
    }
}

} // verus!
