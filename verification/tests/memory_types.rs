use shader_toy_slang::graphics::vulkan::find_memory_type;

const DEVICE_LOCAL: u32 = 0x1;
const HOST_VISIBLE: u32 = 0x2;
const HOST_COHERENT: u32 = 0x4;

#[test]
fn first_allowed_type_with_every_property_is_chosen() {
    let types = vec![DEVICE_LOCAL, HOST_VISIBLE, HOST_VISIBLE | HOST_COHERENT, HOST_VISIBLE | HOST_COHERENT];
    assert_eq!(find_memory_type(0b1111, &types, HOST_VISIBLE | HOST_COHERENT), Some(2));
    assert_eq!(find_memory_type(0b1111, &types, HOST_VISIBLE), Some(1));
    assert_eq!(find_memory_type(0b1111, &types, 0), Some(0));
}

#[test]
fn type_bits_exclude_memory_types() {
    let types = vec![DEVICE_LOCAL, HOST_VISIBLE, HOST_VISIBLE | HOST_COHERENT, HOST_VISIBLE | HOST_COHERENT];
    assert_eq!(find_memory_type(0b1000, &types, HOST_VISIBLE | HOST_COHERENT), Some(3));
    assert_eq!(find_memory_type(0b0001, &types, HOST_VISIBLE), None);
}

#[test]
fn no_memory_type_fits() {
    assert_eq!(find_memory_type(0b11, &vec![DEVICE_LOCAL, DEVICE_LOCAL], HOST_VISIBLE), None);
    assert_eq!(find_memory_type(u32::MAX, &vec![], 0), None);
}
