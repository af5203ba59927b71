use calx::marshal::{
    parse_stream_configuration, ranges_from_bytes, sum_channels, u32_le_at, u32s_from_bytes,
    u64_le_at,
};
use calx::property_address::{
    get_property_address, u32_to_string, Property, Scope, ELEMENT_MAIN, SCOPE_GLOBAL,
    SCOPE_INPUT, SELECTOR_DEFAULT_INPUT_DEVICE, SELECTOR_DEVICES,
};

#[test]
fn test_u32_to_string_reverses_bytes() {
    // A four-character code is stored big-endian; its readable bytes come out
    // most significant first.
    assert_eq!(u32_to_string(0x64657623), b"dev#".to_vec());
    assert_eq!(u32_to_string(0x64496E20), b"dIn ".to_vec());
    assert_eq!(u32_to_string(0x216F626A), b"!obj".to_vec());
    assert_eq!(u32_to_string(0x77686F3F), b"who?".to_vec());
}

#[test]
fn test_property_address_values() {
    let a = get_property_address(Property::Devices, Scope::Global);
    assert_eq!(a.selector, SELECTOR_DEVICES);
    assert_eq!(a.selector, 0x64657623);
    assert_eq!(a.scope, SCOPE_GLOBAL);
    assert_eq!(a.element, ELEMENT_MAIN);
    let b = get_property_address(Property::DefaultInputDevice, Scope::Input);
    assert_eq!(b.selector, SELECTOR_DEFAULT_INPUT_DEVICE);
    assert_eq!(b.scope, SCOPE_INPUT);
    assert_eq!(u32_to_string(a.scope), b"glob".to_vec());
    assert_eq!(u32_to_string(b.scope), b"inpt".to_vec());
}

#[test]
fn test_u32s_from_bytes_chunks() {
    let bytes = vec![1, 0, 0, 0, 0x78, 0x56, 0x34, 0x12];
    assert_eq!(u32s_from_bytes(&bytes), vec![1, 0x12345678]);
    assert!(u32s_from_bytes(&Vec::new()).is_empty());
    // A trailing fragment shorter than one chunk is dropped.
    assert_eq!(u32s_from_bytes(&vec![2, 0, 0, 0, 9]), vec![2]);
}

#[test]
fn test_scalar_reads_pad_with_zero() {
    // Bytes past the end read as zero, as from a zeroed destination buffer.
    let bytes = vec![0xAA, 0xBB];
    assert_eq!(u32_le_at(&bytes, 0), 0x0000BBAA);
    assert_eq!(u32_le_at(&bytes, 4), 0);
    let eight = 1234.5f64.to_bits().to_le_bytes().to_vec();
    assert_eq!(u64_le_at(&eight, 0), 1234.5f64.to_bits());
}

#[test]
fn test_ranges_from_bytes_pairs() {
    let mut bytes = Vec::new();
    for bound in [8.0f64, 512.0, 16.0, 1024.0] {
        bytes.extend_from_slice(&bound.to_bits().to_le_bytes());
    }
    let ranges = ranges_from_bytes(&bytes);
    assert_eq!(ranges.len(), 2);
    assert_eq!(f64::from_bits(ranges[0].0), 8.0);
    assert_eq!(f64::from_bits(ranges[0].1), 512.0);
    assert_eq!(f64::from_bits(ranges[1].0), 16.0);
    assert_eq!(f64::from_bits(ranges[1].1), 1024.0);
}

#[test]
fn test_parse_stream_configuration_and_sum() {
    let mut config = Vec::new();
    config.extend_from_slice(&2u32.to_le_bytes());
    config.extend_from_slice(&[0; 4]);
    for (channels, byte_size) in [(2u32, 384u32), (6, 1152)] {
        config.extend_from_slice(&channels.to_le_bytes());
        config.extend_from_slice(&byte_size.to_le_bytes());
        config.extend_from_slice(&[0xFF; 8]); // pointer bytes, never read
    }
    let buffers = parse_stream_configuration(&config);
    assert_eq!(buffers.len(), 2);
    assert_eq!(buffers[0].channels, 2);
    assert_eq!(buffers[0].byte_size, 384);
    assert_eq!(buffers[1].channels, 6);
    assert_eq!(sum_channels(&buffers), 8);
    let empty = parse_stream_configuration(&vec![0; 8]);
    assert!(empty.is_empty());
    assert_eq!(sum_channels(&empty), 0);
}
