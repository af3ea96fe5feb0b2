//! What the two pipelines are made from, as plain data: the vertex
//! attribute layouts, the unit quad and the blend rule.

use vstd::prelude::*;

use crate::block::ONE;
use crate::rectangle::Rectangle;

verus! {

/// Bits of the 32-bit float -1.0.
pub const MINUS_ONE: u32 = 0xBF80_0000;

/// Number of corners of the unit quad.
pub const QUAD_CORNERS: usize = 4;

/// Shader location of the first per-instance attribute; location 0 is the
/// corner of the quad.
pub const FIRST_INSTANCE_LOCATION: u32 = 1;

/// Numeric format of one vertex attribute: up to four 32-bit floats.
#[derive(Clone, Copy, Debug, PartialEq, Eq, Structural)]
pub enum VertexFormat {
    Float32,
    Float32x2,
    Float32x3,
    Float32x4,
}

/// Whether a vertex buffer advances per vertex or per instance.
#[derive(Clone, Copy, Debug, PartialEq, Eq, Structural)]
pub enum VertexStepMode {
    Vertex,
    Instance,
}

/// One attribute of a vertex buffer.
#[derive(Clone, Copy, Debug, PartialEq, Eq, Structural)]
pub struct VertexAttribute {
    pub format: VertexFormat,
    /// Byte offset of the attribute in one record.
    pub offset: u64,
    pub shader_location: u32,
}

/// The layout of one vertex buffer.
#[derive(Debug)]
pub struct VertexBufferLayout {
    /// Bytes from one record to the next.
    pub array_stride: u64,
    pub step_mode: VertexStepMode,
    pub attributes: Vec<VertexAttribute>,
}

/// A factor of the blend equation.
#[derive(Clone, Copy, Debug, PartialEq, Eq, Structural)]
pub enum BlendFactor {
    One,
    SrcAlpha,
    OneMinusSrcAlpha,
}

/// How the two sides of the blend equation are combined.
#[derive(Clone, Copy, Debug, PartialEq, Eq, Structural)]
pub enum BlendOperation {
    Add,
}

/// The blend equation of the color or of the alpha channel.
#[derive(Clone, Copy, Debug, PartialEq, Eq, Structural)]
pub struct BlendComponent {
    pub src_factor: BlendFactor,
    pub dst_factor: BlendFactor,
    pub operation: BlendOperation,
}

/// The blend equations of a color target.
#[derive(Clone, Copy, Debug, PartialEq, Eq, Structural)]
pub struct BlendState {
    pub color: BlendComponent,
    pub alpha: BlendComponent,
}

impl VertexFormat {
    /// Number of floats in the format.
    pub open spec fn components(self) -> nat {
        match self {
            VertexFormat::Float32 => 1,
            VertexFormat::Float32x2 => 2,
            VertexFormat::Float32x3 => 3,
            VertexFormat::Float32x4 => 4,
        }
    }

    /// Size of the format in bytes.
    pub fn size(self) -> (bytes: u64)
        ensures
            bytes == 4 * self.components(),
    {
        match self {
            VertexFormat::Float32 => 4,
            VertexFormat::Float32x2 => 8,
            VertexFormat::Float32x3 => 12,
            VertexFormat::Float32x4 => 16,
        }
    }
}

/// Byte offset of attribute `i` where the attributes lie one after the
/// other without gaps: the sizes of those before it, added up.
pub open spec fn packed_offset(formats: Seq<VertexFormat>, i: nat) -> nat
    decreases i,
{
    if i == 0 {
        0
    } else {
        packed_offset(formats, (i - 1) as nat) + 4 * formats[i - 1].components()
    }
}

/// The attributes of `formats` packed without gaps, at shader locations
/// that count up from `first_location`.
pub open spec fn packed(formats: Seq<VertexFormat>, first_location: u32) -> Seq<VertexAttribute> {
    Seq::new(
        formats.len(),
        |i: int|
            VertexAttribute {
                format: formats[i],
                offset: packed_offset(formats, i as nat) as u64,
                shader_location: (first_location + i) as u32,
            },
    )
}

/// No attribute starts beyond 16 bytes for each one before it.
pub proof fn lemma_packed_offset_bound(formats: Seq<VertexFormat>, i: nat)
    requires
        i <= formats.len(),
    ensures
        packed_offset(formats, i) <= 16 * i,
    decreases i,
{
    if i > 0 {
        lemma_packed_offset_bound(formats, (i - 1) as nat);
    }
}

/// Packs the attributes of `formats` without gaps, at shader locations
/// that count up from `first_location`.
pub fn pack_attributes(formats: &[VertexFormat], first_location: u32) -> (attributes: Vec<
    VertexAttribute,
>)
    requires
        first_location + formats@.len() <= u32::MAX,
    ensures
        attributes@ == packed(formats@, first_location),
{
    let mut attributes: Vec<VertexAttribute> = Vec::new();
    let mut offset: u64 = 0;
    let mut shader_location: u32 = first_location;
    let mut i: usize = 0;
    while i < formats.len()
        invariant
            0 <= i <= formats@.len(),
            first_location + formats@.len() <= u32::MAX,
            offset == packed_offset(formats@, i as nat),
            shader_location == first_location + i,
            attributes@ == packed(formats@, first_location).take(i as int),
        decreases formats@.len() - i,
    {
        let format = formats[i];
        attributes.push(VertexAttribute { format, offset, shader_location });
        proof {
            lemma_packed_offset_bound(formats@, i as nat);
            assert(attributes@ =~= packed(formats@, first_location).take(i + 1));
        }
        offset = offset + format.size();
        shader_location = shader_location + 1;
        i += 1;
    }
    assert(attributes@ =~= packed(formats@, first_location));
    attributes
}

/// The formats of the per-instance attributes, in the order of the fields
/// of a record.
pub open spec fn instance_formats() -> Seq<VertexFormat> {
    seq![
        VertexFormat::Float32x4,
        VertexFormat::Float32x4,
        VertexFormat::Float32x4,
        VertexFormat::Float32x4,
        VertexFormat::Float32x4,
        VertexFormat::Float32x4,
        VertexFormat::Float32x4,
        VertexFormat::Float32x4,
        VertexFormat::Float32x2,
        VertexFormat::Float32,
        VertexFormat::Float32,
        VertexFormat::Float32x2,
        VertexFormat::Float32,
    ]
}

/// The words of `record` that the attribute `attribute` reads.
pub open spec fn attribute_words(record: Rectangle, attribute: VertexAttribute) -> Seq<u32> {
    record.words().subrange(
        attribute.offset as int / 4,
        attribute.offset as int / 4 + attribute.format.components(),
    )
}

/// The fields of `record` in their declared order, each as the words that
/// one attribute reads; the matrix is read column by column.
pub open spec fn record_fields(record: Rectangle) -> Seq<Seq<u32>> {
    seq![
        record.mvp[0]@,
        record.mvp[1]@,
        record.mvp[2]@,
        record.mvp[3]@,
        record.fill_color@,
        record.border_color@,
        record.corner_radii@,
        record.shadow_color@,
        record.half_size@,
        seq![record.border_size],
        seq![record.shadow_spread],
        record.shadow_offset@,
        seq![record.shadow_blur],
    ]
}

/// The layout of the instance buffer: one record per instance, its fields
/// packed in their declared order.
pub fn instance_layout() -> (layout: VertexBufferLayout)
    ensures
        layout.array_stride == Rectangle::SIZE,
        layout.step_mode == VertexStepMode::Instance,
        layout.attributes@ == packed(instance_formats(), FIRST_INSTANCE_LOCATION),
{
    let formats: [VertexFormat; 13] = [
        VertexFormat::Float32x4,
        VertexFormat::Float32x4,
        VertexFormat::Float32x4,
        VertexFormat::Float32x4,
        VertexFormat::Float32x4,
        VertexFormat::Float32x4,
        VertexFormat::Float32x4,
        VertexFormat::Float32x4,
        VertexFormat::Float32x2,
        VertexFormat::Float32,
        VertexFormat::Float32,
        VertexFormat::Float32x2,
        VertexFormat::Float32,
    ];
    assert(formats@ =~= instance_formats());
    let attributes = pack_attributes(formats.as_slice(), FIRST_INSTANCE_LOCATION);
    VertexBufferLayout {
        array_stride: Rectangle::SIZE as u64,
        step_mode: VertexStepMode::Instance,
        attributes,
    }
}

/// The layout of the quad's vertex buffer: one corner of three floats per
/// vertex, at shader location 0.
pub fn quad_layout() -> (layout: VertexBufferLayout)
    ensures
        layout.array_stride == 12,
        layout.step_mode == VertexStepMode::Vertex,
        layout.attributes@ == packed(seq![VertexFormat::Float32x3], 0),
{
    let formats: [VertexFormat; 1] = [VertexFormat::Float32x3];
    assert(formats@ =~= seq![VertexFormat::Float32x3]);
    let attributes = pack_attributes(formats.as_slice(), 0);
    VertexBufferLayout { array_stride: 12, step_mode: VertexStepMode::Vertex, attributes }
}

/// The instance layout reads a record field for field: attribute `i`
/// reads exactly the words of field `i`, and the attributes end one word
/// of padding before the end of the record.
pub proof fn lemma_instance_layout_matches_record(record: Rectangle, i: int)
    requires
        0 <= i < 13,
    ensures
        packed(instance_formats(), FIRST_INSTANCE_LOCATION).len() == 13,
        packed(instance_formats(), FIRST_INSTANCE_LOCATION)[i].shader_location == i + 1,
        attribute_words(record, packed(instance_formats(), FIRST_INSTANCE_LOCATION)[i])
            == record_fields(record)[i],
        packed_offset(instance_formats(), 13) + 4 == Rectangle::SIZE,
{
    reveal_with_fuel(packed_offset, 14);
    let attribute = packed(instance_formats(), FIRST_INSTANCE_LOCATION)[i];
    assert(attribute_words(record, attribute) =~= record_fields(record)[i]);
}

/// The corners of the unit quad, each as the bits of three floats: the
/// quad spans -1 to 1 on both axes, at depth 0.
pub fn quad_vertices() -> (vertices: [[u32; 3]; QUAD_CORNERS])
    ensures
        vertices[0]@ == seq![MINUS_ONE, ONE, 0u32],
        vertices[1]@ == seq![MINUS_ONE, MINUS_ONE, 0u32],
        vertices[2]@ == seq![ONE, ONE, 0u32],
        vertices[3]@ == seq![ONE, MINUS_ONE, 0u32],
{
    let vertices: [[u32; 3]; QUAD_CORNERS] = [
        [MINUS_ONE, ONE, 0],
        [MINUS_ONE, MINUS_ONE, 0],
        [ONE, ONE, 0],
        [ONE, MINUS_ONE, 0],
    ];
    assert(vertices[0]@ =~= seq![MINUS_ONE, ONE, 0u32]);
    assert(vertices[1]@ =~= seq![MINUS_ONE, MINUS_ONE, 0u32]);
    assert(vertices[2]@ =~= seq![ONE, ONE, 0u32]);
    assert(vertices[3]@ =~= seq![ONE, MINUS_ONE, 0u32]);
    vertices
}

/// The indices of the quad's two triangles. Each names a corner, and the
/// two triangles share the diagonal from corner 1 to corner 2.
pub fn quad_indices() -> (indices: [u16; 6])
    ensures
        indices@ == seq![1u16, 0u16, 2u16, 1u16, 3u16, 2u16],
        forall|i: int| 0 <= i < 6 ==> (#[trigger] indices@[i]) < QUAD_CORNERS,
{
    let indices: [u16; 6] = [1, 0, 2, 1, 3, 2];
    assert(indices@ =~= seq![1u16, 0u16, 2u16, 1u16, 3u16, 2u16]);
    indices
}

/// The blend rule of both passes, alpha-over: the source color weighs by
/// its alpha, what is there already by the rest; the alphas add up in the
/// same way, the source's alpha at full weight.
pub open spec fn alpha_over() -> BlendState {
    BlendState {
        color: BlendComponent {
            src_factor: BlendFactor::SrcAlpha,
            dst_factor: BlendFactor::OneMinusSrcAlpha,
            operation: BlendOperation::Add,
        },
        alpha: BlendComponent {
            src_factor: BlendFactor::One,
            dst_factor: BlendFactor::OneMinusSrcAlpha,
            operation: BlendOperation::Add,
        },
    }
}

/// The blend rule of both passes.
pub fn blend_state() -> (blend: BlendState)
    ensures
        blend == alpha_over(),
{
    BlendState {
        color: BlendComponent {
            src_factor: BlendFactor::SrcAlpha,
            dst_factor: BlendFactor::OneMinusSrcAlpha,
            operation: BlendOperation::Add,
        },
        alpha: BlendComponent {
            src_factor: BlendFactor::One,
            dst_factor: BlendFactor::OneMinusSrcAlpha,
            operation: BlendOperation::Add,
        },
    }
}

} // verus!
