use shader_toy_slang::graphics::texture::texture_loader::transfer_buffer::{
    TransferBuffer as StagingBuffer, INITIAL_CAPACITY,
};
use shader_toy_slang::graphics::texture_loader::transfer_buffer::TransferBuffer;
use shader_toy_slang::graphics::texture_loader::{TextureLoader, INITIAL_TRANSFER_CAPACITY};
use shader_toy_slang::graphics::vulkan::BufferDescription;

fn staging(size: u64) -> BufferDescription {
    BufferDescription { size, usage: 1, memory_properties: 6 }
}

#[test]
fn needs_realloc_only_when_the_data_does_not_fit() {
    let buffer = TransferBuffer::new(7, 9, 8);
    assert!(!buffer.needs_realloc(7));
    assert!(!buffer.needs_realloc(8));
    assert!(buffer.needs_realloc(9));
}

#[test]
fn target_capacity_doubles_until_the_request_fits() {
    let buffer = TransferBuffer::new(7, 9, 8);
    assert_eq!(buffer.target_capacity(8), 8);
    assert_eq!(buffer.target_capacity(9), 16);
    assert_eq!(buffer.target_capacity(100), 128);
    assert_eq!(buffer.target_capacity(1 << 20), 1 << 20);
    assert_eq!(buffer.target_capacity(3), 8);
}

#[test]
fn target_capacity_from_odd_capacity() {
    let buffer = TransferBuffer::new(1, 2, 3);
    assert_eq!(buffer.target_capacity(20), 24);
}

#[test]
fn upload_bytes_decides_on_resize() {
    let buffer = TransferBuffer::new(7, 9, 8);
    assert_eq!(buffer.upload_bytes(5), None);
    assert_eq!(buffer.upload_bytes(8), None);
    assert_eq!(buffer.upload_bytes(9), Some(staging(16)));
    assert_eq!(buffer.upload_bytes(1000), Some(staging(1024)));
}

#[test]
fn realloc_records_new_buffer_and_capacity() {
    let mut buffer = TransferBuffer::new(7, 9, 8);
    buffer.realloc(1000, 11, 12);
    assert_eq!(buffer.capacity(), 1024);
    assert_eq!(buffer.buffer(), 11);
    assert_eq!(buffer.memory(), 12);
    assert!(!buffer.needs_realloc(1024));
    assert!(buffer.needs_realloc(1025));
}

#[test]
fn realloc_is_a_no_op_when_the_capacity_suffices() {
    let mut buffer = TransferBuffer::new(7, 9, 8);
    buffer.realloc(8, 11, 12);
    assert_eq!(buffer, TransferBuffer::new(7, 9, 8));
    let mut staging_buffer = StagingBuffer::new(5);
    staging_buffer.realloc(INITIAL_CAPACITY, 6);
    assert_eq!(staging_buffer, StagingBuffer::new(5));
}

#[test]
fn can_hold_stops_where_doubling_would_overflow() {
    let buffer = TransferBuffer::new(7, 9, 8);
    assert!(buffer.can_hold(1 << 63));
    assert!(!buffer.can_hold((1 << 63) + 1));
    assert!(!TransferBuffer::new(7, 9, 0).can_hold(1));
    assert!(TransferBuffer::new(7, 9, 0).can_hold(0));
    let staging_buffer = StagingBuffer::new(5);
    assert!(staging_buffer.can_hold(usize::MAX / 2 + 1));
    assert!(!staging_buffer.can_hold(usize::MAX / 2 + 2));
}

#[test]
fn staging_buffer_starts_at_one_mebibyte() {
    assert_eq!(StagingBuffer::initial_buffer(), staging(1024 * 1024));
    let buffer = StagingBuffer::new(5);
    assert_eq!(buffer.capacity(), INITIAL_CAPACITY);
    assert_eq!(INITIAL_CAPACITY, 1024 * 1024);
    assert_eq!(buffer.buffer(), 5);
    assert_eq!(buffer.upload_bytes(4 * 512 * 512), None);
    assert_eq!(buffer.upload_bytes(4 * 512 * 512 + 1), Some(staging(2 * 1024 * 1024)));
    assert_eq!(buffer.upload_bytes(1000), None);
}

#[test]
fn staging_buffer_realloc() {
    let mut buffer = StagingBuffer::new(5);
    buffer.realloc(3 * 1024 * 1024, 6);
    assert_eq!(buffer.capacity(), 4 * 1024 * 1024);
    assert_eq!(buffer.buffer(), 6);
}

#[test]
fn texture_loader_starts_with_an_eight_byte_staging_buffer() {
    assert_eq!(TextureLoader::transfer_buffer_description(), staging(8));
    assert_eq!(INITIAL_TRANSFER_CAPACITY, 8);
    let loader = TextureLoader::new(1, 2);
    assert_eq!(loader.transfer_buffer, TransferBuffer::new(1, 2, 8));
    assert_eq!(TransferBuffer::buffer_description(64), staging(64));
}
