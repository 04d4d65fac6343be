use shader_toy_slang::graphics::spirv::{read_spv, SPIRV_MAGIC};

#[test]
fn little_endian_words_are_read_as_they_are() {
    let bytes = [0x03, 0x02, 0x23, 0x07, 0x01, 0x00, 0x00, 0x00, 0x78, 0x56, 0x34, 0x12];
    assert_eq!(read_spv(&bytes), Some(vec![SPIRV_MAGIC, 1, 0x12345678]));
}

#[test]
fn big_endian_words_are_swapped() {
    let bytes = [0x07, 0x23, 0x02, 0x03, 0x00, 0x00, 0x00, 0x01, 0x12, 0x34, 0x56, 0x78];
    assert_eq!(read_spv(&bytes), Some(vec![SPIRV_MAGIC, 1, 0x12345678]));
}

#[test]
fn bytes_that_are_not_spirv_are_refused() {
    assert_eq!(read_spv(&[]), None);
    assert_eq!(read_spv(&[0x03, 0x02, 0x23, 0x07, 0x01]), None);
    assert_eq!(read_spv(&[1, 2, 3, 4]), None);
}
