use hui::pipeline::{
    blend_state, instance_layout, pack_attributes, quad_indices, quad_layout, quad_vertices,
    BlendFactor, BlendOperation, VertexAttribute, VertexFormat, VertexStepMode,
};
use hui::rectangle::{append_record, Rectangle, RECORD_WORDS};

fn counting() -> Rectangle {
    Rectangle {
        mvp: [[1, 2, 3, 4], [5, 6, 7, 8], [9, 10, 11, 12], [13, 14, 15, 16]],
        fill_color: [17, 18, 19, 20],
        border_color: [21, 22, 23, 24],
        corner_radii: [25, 26, 27, 28],
        shadow_color: [29, 30, 31, 32],
        half_size: [33, 34],
        border_size: 35,
        shadow_spread: 36,
        shadow_offset: [37, 38],
        shadow_blur: 39,
    }
}

#[test]
fn record_words_follow_the_declared_order() {
    let words = counting().to_words();
    assert_eq!(words.len(), RECORD_WORDS);
    for i in 0..39 {
        assert_eq!(words[i], i as u32 + 1);
    }
    assert_eq!(words[39], 0);
}

#[test]
fn record_size_is_a_multiple_of_sixteen() {
    assert_eq!(Rectangle::SIZE, 160);
    assert_eq!(Rectangle::SIZE % 16, 0);
    assert_eq!(Rectangle::SIZE, 4 * RECORD_WORDS);
}

#[test]
fn zeroed_record_is_all_zero() {
    assert_eq!(Rectangle::zeroed().to_words(), [0u32; 40]);
}

#[test]
fn builder_sets_each_field() {
    let built = Rectangle::builder()
        .mvp([[1, 2, 3, 4], [5, 6, 7, 8], [9, 10, 11, 12], [13, 14, 15, 16]])
        .half_size([33, 34])
        .fill_color([17, 18, 19, 20])
        .border_color([21, 22, 23, 24])
        .corner_radii([25, 26, 27, 28])
        .border_size(35)
        .shadow_color([29, 30, 31, 32])
        .shadow_offset([37, 38])
        .shadow_blur(39)
        .shadow_spread(36)
        .build();
    assert_eq!(built.to_words(), counting().to_words());
    assert_eq!(Rectangle::builder().build().to_words(), [0u32; 40]);
}

#[test]
fn append_record_appends_the_bytes() {
    let mut bytes = vec![0xEEu8, 0xFF];
    append_record(&mut bytes, &counting());
    assert_eq!(bytes.len(), 162);
    assert_eq!(&bytes[..2], &[0xEE, 0xFF]);
    assert_eq!(&bytes[2..6], &1u32.to_ne_bytes());
    assert_eq!(&bytes[6..10], &2u32.to_ne_bytes());
    assert_eq!(&bytes[154..158], &39u32.to_ne_bytes());
    assert_eq!(&bytes[158..], &[0u8, 0, 0, 0]);
}

#[test]
fn append_record_uses_native_byte_order() {
    let mut record = Rectangle::zeroed();
    record.mvp[0][0] = 0x0102_0304;
    let mut bytes = Vec::new();
    append_record(&mut bytes, &record);
    let little = [4u8, 3, 2, 1];
    let big = [1u8, 2, 3, 4];
    if 1u32.to_ne_bytes()[0] == 1 {
        assert_eq!(&bytes[..4], &little);
    } else {
        assert_eq!(&bytes[..4], &big);
    }
}

#[test]
fn format_sizes() {
    assert_eq!(VertexFormat::Float32.size(), 4);
    assert_eq!(VertexFormat::Float32x2.size(), 8);
    assert_eq!(VertexFormat::Float32x3.size(), 12);
    assert_eq!(VertexFormat::Float32x4.size(), 16);
}

#[test]
fn instance_layout_matches_the_record() {
    let layout = instance_layout();
    assert_eq!(layout.array_stride, 160);
    assert_eq!(layout.step_mode, VertexStepMode::Instance);
    let x4 = VertexFormat::Float32x4;
    let x2 = VertexFormat::Float32x2;
    let x1 = VertexFormat::Float32;
    let expected = [
        (x4, 0u64),
        (x4, 16),
        (x4, 32),
        (x4, 48),
        (x4, 64),
        (x4, 80),
        (x4, 96),
        (x4, 112),
        (x2, 128),
        (x1, 136),
        (x1, 140),
        (x2, 144),
        (x1, 152),
    ];
    assert_eq!(layout.attributes.len(), 13);
    for (i, (format, offset)) in expected.iter().enumerate() {
        assert_eq!(
            layout.attributes[i],
            VertexAttribute { format: *format, offset: *offset, shader_location: i as u32 + 1 }
        );
    }
    let last = layout.attributes[12];
    assert_eq!(last.offset + last.format.size() + 4, 160);
}

#[test]
fn quad_layout_is_one_corner_per_vertex() {
    let layout = quad_layout();
    assert_eq!(layout.array_stride, 12);
    assert_eq!(layout.step_mode, VertexStepMode::Vertex);
    assert_eq!(
        layout.attributes,
        vec![VertexAttribute { format: VertexFormat::Float32x3, offset: 0, shader_location: 0 }]
    );
}

#[test]
fn pack_attributes_adds_up_the_sizes() {
    let formats = [VertexFormat::Float32, VertexFormat::Float32x3, VertexFormat::Float32x2];
    let packed = pack_attributes(&formats, 7);
    assert_eq!(
        packed,
        vec![
            VertexAttribute { format: VertexFormat::Float32, offset: 0, shader_location: 7 },
            VertexAttribute { format: VertexFormat::Float32x3, offset: 4, shader_location: 8 },
            VertexAttribute { format: VertexFormat::Float32x2, offset: 16, shader_location: 9 },
        ]
    );
    assert!(pack_attributes(&[], 0).is_empty());
}

#[test]
fn quad_spans_the_unit_square() {
    let corners: Vec<[f32; 3]> = quad_vertices()
        .iter()
        .map(|corner| [f32::from_bits(corner[0]), f32::from_bits(corner[1]), f32::from_bits(corner[2])])
        .collect();
    assert_eq!(
        corners,
        vec![[-1.0, 1.0, 0.0], [-1.0, -1.0, 0.0], [1.0, 1.0, 0.0], [1.0, -1.0, 0.0]]
    );
    assert_eq!(quad_indices(), [1, 0, 2, 1, 3, 2]);
}

#[test]
fn blend_is_alpha_over() {
    let blend = blend_state();
    assert_eq!(blend.color.src_factor, BlendFactor::SrcAlpha);
    assert_eq!(blend.color.dst_factor, BlendFactor::OneMinusSrcAlpha);
    assert_eq!(blend.color.operation, BlendOperation::Add);
    assert_eq!(blend.alpha.src_factor, BlendFactor::One);
    assert_eq!(blend.alpha.dst_factor, BlendFactor::OneMinusSrcAlpha);
    assert_eq!(blend.alpha.operation, BlendOperation::Add);
}
