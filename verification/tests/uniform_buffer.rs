use shader_toy_slang::graphics::fullscreen_quad::uniform_buffer::{IndexOutOfRange, UniformBuffer};

#[test]
fn aligned_unit_size_rounds_up_to_next_alignment() {
    let buffer = UniformBuffer::<[u8; 40]>::allocate(64, 3);
    assert_eq!(buffer.offset_for_index(1), 64);
    assert_eq!(buffer.buffer_size_in_bytes(), 192);
}

#[test]
fn aligned_unit_size_adds_a_unit_when_data_fills_whole_units() {
    let buffer = UniformBuffer::<[u8; 64]>::allocate(64, 2);
    assert_eq!(buffer.offset_for_index(1), 128);
    assert_eq!(buffer.buffer_size_in_bytes(), 256);
}

#[test]
fn aligned_unit_size_with_small_alignment() {
    let buffer = UniformBuffer::<[u8; 24]>::allocate(16, 4);
    assert_eq!(buffer.offset_for_index(0), 0);
    assert_eq!(buffer.offset_for_index(3), 96);
    assert_eq!(buffer.buffer_size_in_bytes(), 128);
}

#[test]
fn offsets_are_aligned_and_slots_do_not_overlap() {
    let buffer = UniformBuffer::<[u8; 100]>::allocate(256, 3);
    for i in 0..3usize {
        let offset = buffer.offset_for_index(i);
        assert_eq!(offset % 256, 0);
        assert!(offset + 100 <= buffer.buffer_size_in_bytes());
        if i + 1 < 3 {
            assert!(offset + 100 <= buffer.offset_for_index(i + 1));
        }
    }
}

#[test]
fn write_indexed_gives_the_slot_offset() {
    let buffer = UniformBuffer::<[u8; 40]>::allocate(64, 3);
    assert_eq!(buffer.write_indexed(0), Ok(0));
    assert_eq!(buffer.write_indexed(2), Ok(128));
}

#[test]
fn write_indexed_rejects_missing_slot() {
    let buffer = UniformBuffer::<[u8; 40]>::allocate(64, 3);
    assert_eq!(buffer.write_indexed(3), Err(IndexOutOfRange { index: 3, count: 3 }));
    let empty = UniformBuffer::<u32>::allocate(4, 0);
    assert_eq!(empty.write_indexed(0), Err(IndexOutOfRange { index: 0, count: 0 }));
    assert_eq!(empty.buffer_size_in_bytes(), 0);
}

#[test]
fn uniform_buffer_describes_a_host_visible_uniform_buffer() {
    let buffer = UniformBuffer::<[u8; 100]>::allocate(64, 3);
    assert_eq!(
        buffer.buffer_description(),
        shader_toy_slang::graphics::vulkan::BufferDescription {
            size: 384,
            usage: 16,
            memory_properties: 6,
        }
    );
}
