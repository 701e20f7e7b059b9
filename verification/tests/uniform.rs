use shadertoy_rs::render::RenderCallback;
use shadertoy_rs::uniform::{
    FieldKind, UniformState, Vec2, Vec4, CHANNEL_TIME_OFFSET, DATE_OFFSET, FRAME_OFFSET,
    MOUSE_OFFSET, RESOLUTION_OFFSET, SAMPLE_RATE_OFFSET, TIME_DELTA_OFFSET, TIME_OFFSET,
    UNIFORM_SIZE,
};

fn sample() -> UniformState {
    UniformState {
        resolution: Vec2 { x: 800.0f32.to_bits(), y: 600.0f32.to_bits() },
        time: 1.5f32.to_bits(),
        time_delta: 0.25f32.to_bits(),
        frame: 3.0f32.to_bits(),
        channel_time: Vec4 {
            x: 1.0f32.to_bits(),
            y: 2.0f32.to_bits(),
            z: 3.0f32.to_bits(),
            w: 4.0f32.to_bits(),
        },
        mouse: Vec4 {
            x: 10.0f32.to_bits(),
            y: 20.0f32.to_bits(),
            z: (-1.0f32).to_bits(),
            w: (-2.0f32).to_bits(),
        },
        date: Vec4 {
            x: 2024.0f32.to_bits(),
            y: 5.0f32.to_bits(),
            z: 17.0f32.to_bits(),
            w: 43200.0f32.to_bits(),
        },
        sample_rate: 44100.0f32.to_bits(),
    }
}

fn put(expected: &mut [u8], offset: usize, value: f32) {
    expected[offset..offset + 4].copy_from_slice(&value.to_le_bytes());
}

#[test]
fn default_block_is_ninety_six_zero_bytes() {
    let bytes = UniformState::default().to_bytes();
    assert_eq!(bytes.len(), 96);
    assert_eq!(bytes, vec![0u8; 96]);
}

#[test]
fn named_offsets_and_size() {
    assert_eq!(UNIFORM_SIZE, 96);
    assert_eq!(RESOLUTION_OFFSET, 0);
    assert_eq!(TIME_OFFSET, 8);
    assert_eq!(TIME_DELTA_OFFSET, 12);
    assert_eq!(FRAME_OFFSET, 16);
    assert_eq!(CHANNEL_TIME_OFFSET, 32);
    assert_eq!(MOUSE_OFFSET, 48);
    assert_eq!(DATE_OFFSET, 64);
    assert_eq!(SAMPLE_RATE_OFFSET, 80);
}

#[test]
fn one_point_zero_in_time_gives_its_four_bytes_at_offset_eight() {
    let mut block = UniformState::default();
    block.time = 0x3f80_0000;
    let bytes = block.to_bytes();
    assert_eq!(&bytes[8..12], &[0x00, 0x00, 0x80, 0x3f]);
    assert!(bytes[..8].iter().all(|b| *b == 0));
    assert!(bytes[12..].iter().all(|b| *b == 0));
}

#[test]
fn bytes_are_least_significant_first() {
    let mut block = UniformState::default();
    block.sample_rate = 0x1234_5678;
    let bytes = block.to_bytes();
    assert_eq!(&bytes[80..84], &[0x78, 0x56, 0x34, 0x12]);
}

#[test]
fn every_field_stands_at_its_offset() {
    let bytes = sample().to_bytes();
    let mut expected = [0u8; 96];
    put(&mut expected, 0, 800.0);
    put(&mut expected, 4, 600.0);
    put(&mut expected, 8, 1.5);
    put(&mut expected, 12, 0.25);
    put(&mut expected, 16, 3.0);
    put(&mut expected, 32, 1.0);
    put(&mut expected, 36, 2.0);
    put(&mut expected, 40, 3.0);
    put(&mut expected, 44, 4.0);
    put(&mut expected, 48, 10.0);
    put(&mut expected, 52, 20.0);
    put(&mut expected, 56, -1.0);
    put(&mut expected, 60, -2.0);
    put(&mut expected, 64, 2024.0);
    put(&mut expected, 68, 5.0);
    put(&mut expected, 72, 17.0);
    put(&mut expected, 76, 43200.0);
    put(&mut expected, 80, 44100.0);
    assert_eq!(bytes.as_slice(), &expected[..]);
}

#[test]
fn gaps_hold_zero_bytes_whatever_the_fields_hold() {
    let all_ones = UniformState {
        resolution: Vec2 { x: u32::MAX, y: u32::MAX },
        time: u32::MAX,
        time_delta: u32::MAX,
        frame: u32::MAX,
        channel_time: Vec4 { x: u32::MAX, y: u32::MAX, z: u32::MAX, w: u32::MAX },
        mouse: Vec4 { x: u32::MAX, y: u32::MAX, z: u32::MAX, w: u32::MAX },
        date: Vec4 { x: u32::MAX, y: u32::MAX, z: u32::MAX, w: u32::MAX },
        sample_rate: u32::MAX,
    };
    let bytes = all_ones.to_bytes();
    assert_eq!(bytes.len(), 96);
    assert!(bytes[..20].iter().all(|b| *b == 0xff));
    assert!(bytes[20..32].iter().all(|b| *b == 0));
    assert!(bytes[32..84].iter().all(|b| *b == 0xff));
    assert!(bytes[84..].iter().all(|b| *b == 0));
}

#[test]
fn written_block_reads_back_equal() {
    let block = sample();
    let bytes = block.to_bytes();
    assert_eq!(UniformState::from_bytes(&bytes), Some(block));
    let again = UniformState::from_bytes(&bytes).unwrap().to_bytes();
    assert_eq!(again, bytes);
}

#[test]
fn size_is_the_same_for_every_block() {
    assert_eq!(UniformState::default().to_bytes().len(), sample().to_bytes().len());
}

#[test]
fn reading_rejects_other_lengths() {
    assert_eq!(UniformState::from_bytes(&[]), None);
    assert_eq!(UniformState::from_bytes(&[0u8; 95]), None);
    assert_eq!(UniformState::from_bytes(&[0u8; 97]), None);
    assert_eq!(UniformState::from_bytes(&[0u8; 96]), Some(UniformState::default()));
}

#[test]
fn reading_ignores_the_gaps() {
    let mut bytes = sample().to_bytes();
    bytes[20] = 0xaa;
    bytes[95] = 0xbb;
    assert_eq!(UniformState::from_bytes(&bytes), Some(sample()));
}

#[test]
fn field_kinds_agree_with_the_std140_types() {
    assert_eq!(FieldKind::Float.size(), std::mem::size_of::<std140::float>());
    assert_eq!(FieldKind::Float.align(), std::mem::align_of::<std140::float>());
    assert_eq!(FieldKind::Vec2.size(), std::mem::size_of::<std140::vec2>());
    assert_eq!(FieldKind::Vec2.align(), std::mem::align_of::<std140::vec2>());
    assert_eq!(FieldKind::Vec4.size(), std::mem::size_of::<std140::vec4>());
    assert_eq!(FieldKind::Vec4.align(), std::mem::align_of::<std140::vec4>());
}

#[test]
fn offsets_follow_from_sizes_and_alignments() {
    let fields = [
        (FieldKind::Vec2, RESOLUTION_OFFSET),
        (FieldKind::Float, TIME_OFFSET),
        (FieldKind::Float, TIME_DELTA_OFFSET),
        (FieldKind::Float, FRAME_OFFSET),
        (FieldKind::Vec4, CHANNEL_TIME_OFFSET),
        (FieldKind::Vec4, MOUSE_OFFSET),
        (FieldKind::Vec4, DATE_OFFSET),
        (FieldKind::Float, SAMPLE_RATE_OFFSET),
    ];
    let mut end = 0usize;
    for (kind, offset) in fields {
        let align = kind.align();
        let placed = (end + align - 1) / align * align;
        assert_eq!(placed, offset);
        end = placed + kind.size();
    }
    assert_eq!((end + 15) / 16 * 16, UNIFORM_SIZE);
}

#[test]
fn prepare_hands_out_the_block_bytes() {
    let callback = RenderCallback { uniform: sample() };
    assert_eq!(callback.prepare(), sample().to_bytes());
    assert_eq!(RenderCallback::default().prepare(), vec![0u8; 96]);
}
