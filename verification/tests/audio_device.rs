use calx::audio_device::{Side, SystemDevice};
use calx::property_address::{get_property_address, Property, Scope};
use calx::store::PropertyStore;

fn le4(v: u32) -> Vec<u8> {
    v.to_le_bytes().to_vec()
}

fn ids_bytes(ids: &[u32]) -> Vec<u8> {
    let mut out = Vec::new();
    for id in ids {
        out.extend_from_slice(&id.to_le_bytes());
    }
    out
}

fn check_device_is_in_scope(store: &PropertyStore, s: Side) {
    let system_device = SystemDevice::default();
    match system_device.get_default_device(store, &s) {
        Ok(device) => {
            if device.is_valid() {
                assert!(device.in_scope(store, &s).unwrap());
            } else {
                assert_eq!(device.in_scope(store, &s).unwrap_err(), 560947818);
            }
        }
        Err(e) => {
            println!("Failed to get default {:?} device. Error: {}", s, e);
        }
    }
}

#[test]
fn test_default_devices() {
    let mut store = PropertyStore::new();
    // The default input device resolves to a real device with one input
    // stream; the default output device resolves to the unknown sentinel.
    store.insert(
        1,
        get_property_address(Property::DefaultInputDevice, Scope::Global),
        le4(10),
    );
    store.insert(
        10,
        get_property_address(Property::DeviceStreams, Scope::Input),
        le4(0x100),
    );
    store.insert(
        1,
        get_property_address(Property::DefaultOutputDevice, Scope::Global),
        le4(0),
    );
    check_device_is_in_scope(&store, Side::Input);
    check_device_is_in_scope(&store, Side::Output);
}

#[test]
fn test_device_list() {
    let mut store = PropertyStore::new();
    store.insert(
        1,
        get_property_address(Property::Devices, Scope::Global),
        ids_bytes(&[10, 0, 11]),
    );
    store.insert(
        1,
        get_property_address(Property::DefaultInputDevice, Scope::Global),
        le4(10),
    );
    let system_device = SystemDevice::default();
    let devices = system_device.get_all_devices(&store).unwrap();
    let input = system_device.get_default_device(&store, &Side::Input);
    let output = system_device.get_default_device(&store, &Side::Output);
    assert_eq!(
        devices.is_empty(),
        (input.is_err() || !input.unwrap().is_valid())
            && (output.is_err() || !output.unwrap().is_valid())
    );
}

#[test]
fn test_device_list_empty_without_valid_defaults() {
    // An empty device list, the default input erroring and the default output
    // resolving to the sentinel: the equivalence holds on the empty side too.
    let mut store = PropertyStore::new();
    store.insert(
        1,
        get_property_address(Property::Devices, Scope::Global),
        Vec::new(),
    );
    store.insert(
        1,
        get_property_address(Property::DefaultOutputDevice, Scope::Global),
        le4(0),
    );
    let system_device = SystemDevice::default();
    let devices = system_device.get_all_devices(&store).unwrap();
    let input = system_device.get_default_device(&store, &Side::Input);
    let output = system_device.get_default_device(&store, &Side::Output);
    assert!(input.is_err());
    assert!(!output.unwrap().is_valid());
    assert!(devices.is_empty());
}

#[test]
fn test_three_handles_one_sentinel() {
    // A device list of three handles, one the unknown sentinel: enumeration
    // returns exactly three wrappers, exactly one of them invalid.
    let mut store = PropertyStore::new();
    store.insert(
        1,
        get_property_address(Property::Devices, Scope::Global),
        ids_bytes(&[7, 0, 9]),
    );
    let system_device = SystemDevice::default();
    let devices = system_device.get_all_devices(&store).unwrap();
    assert_eq!(devices.len(), 3);
    let invalid = devices.iter().filter(|d| !d.is_valid()).count();
    assert_eq!(invalid, 1);
    assert!(!devices[1].is_valid());
    assert!(devices[0].is_valid() && devices[2].is_valid());
}

#[test]
fn test_channel_count_sums_sub_buffers() {
    // A stream configuration of three sub-buffers: the channel count is
    // exactly their sum.
    let mut store = PropertyStore::new();
    let mut config = Vec::new();
    config.extend_from_slice(&3u32.to_le_bytes()); // sub-buffer count
    config.extend_from_slice(&[0; 4]); // alignment padding
    for (channels, byte_size) in [(2u32, 16u32), (1, 8), (4, 32)] {
        config.extend_from_slice(&channels.to_le_bytes());
        config.extend_from_slice(&byte_size.to_le_bytes());
        config.extend_from_slice(&[0; 8]); // data pointer, never read
    }
    store.insert(
        1,
        get_property_address(Property::Devices, Scope::Global),
        ids_bytes(&[5]),
    );
    store.insert(
        5,
        get_property_address(Property::DeviceStreamConfiguration, Scope::Input),
        config,
    );
    let system_device = SystemDevice::default();
    let devices = system_device.get_all_devices(&store).unwrap();
    let count = devices[0].channel_count(&store, &Side::Input).unwrap();
    assert_eq!(count, 7);
    let buffers = devices[0]
        .stream_configuration(&store, &Side::Input)
        .unwrap();
    assert_eq!(buffers.len(), 3);
    assert_eq!(buffers[0].channels, 2);
    assert_eq!(buffers[2].byte_size, 32);
}

#[test]
fn test_channel_count_zero_for_zero_streams() {
    // A configuration record announcing zero sub-buffers: channel count 0.
    let mut store = PropertyStore::new();
    let mut config = Vec::new();
    config.extend_from_slice(&0u32.to_le_bytes());
    config.extend_from_slice(&[0; 4]);
    store.insert(
        6,
        get_property_address(Property::DeviceStreamConfiguration, Scope::Output),
        config,
    );
    store.insert(
        6,
        get_property_address(Property::DeviceStreams, Scope::Output),
        Vec::new(),
    );
    store.insert(
        1,
        get_property_address(Property::Devices, Scope::Global),
        ids_bytes(&[6]),
    );
    let system_device = SystemDevice::default();
    let devices = system_device.get_all_devices(&store).unwrap();
    assert_eq!(
        devices[0].channel_count(&store, &Side::Output).unwrap(),
        0
    );
    assert!(!devices[0].in_scope(&store, &Side::Output).unwrap());
}

#[test]
fn test_attribute_getters() {
    let mut store = PropertyStore::new();
    let dev = 12u32;
    store.insert(
        1,
        get_property_address(Property::Devices, Scope::Global),
        ids_bytes(&[dev]),
    );
    store.insert(
        dev,
        get_property_address(Property::DeviceLatency, Scope::Input),
        le4(32),
    );
    store.insert(
        dev,
        get_property_address(Property::ClockDomain, Scope::Input),
        le4(5),
    );
    store.insert(
        dev,
        get_property_address(Property::TransportType, Scope::Input),
        le4(0x626C746E),
    );
    store.insert(
        dev,
        get_property_address(Property::DeviceSampleRate, Scope::Input),
        44100.0f64.to_bits().to_le_bytes().to_vec(),
    );
    let mut range = Vec::new();
    range.extend_from_slice(&16.0f64.to_bits().to_le_bytes());
    range.extend_from_slice(&4096.0f64.to_bits().to_le_bytes());
    store.insert(
        dev,
        get_property_address(Property::DeviceBufferFrameSizeRange, Scope::Input),
        range,
    );
    let mut rates = Vec::new();
    for bound in [44100.0f64, 44100.0, 48000.0, 96000.0] {
        rates.extend_from_slice(&bound.to_bits().to_le_bytes());
    }
    store.insert(
        dev,
        get_property_address(Property::DeviceSampleRates, Scope::Input),
        rates,
    );
    store.insert(
        dev,
        get_property_address(Property::DeviceName, Scope::Global),
        b"Built-in Microphone".to_vec(),
    );
    store.insert(
        dev,
        get_property_address(Property::DeviceUID, Scope::Global),
        b"BuiltInMic:0".to_vec(),
    );
    store.insert(
        dev,
        get_property_address(Property::DeviceManufacturer, Scope::Input),
        b"Acme Audio".to_vec(),
    );

    let system_device = SystemDevice::default();
    let devices = system_device.get_all_devices(&store).unwrap();
    let d = &devices[0];
    let s = Side::Input;
    assert_eq!(d.latency(&store, &s).unwrap(), 32);
    assert_eq!(d.clock_domain(&store, &s).unwrap(), 5);
    assert_eq!(d.transport_type(&store, &s).unwrap(), 0x626C746E);
    assert_eq!(f64::from_bits(d.sample_rate(&store, &s).unwrap()), 44100.0);
    let (lo, hi) = d.buffer_frame_size_range(&store, &s).unwrap();
    assert_eq!(f64::from_bits(lo), 16.0);
    assert_eq!(f64::from_bits(hi), 4096.0);
    let ranges = d.sample_rate_ranges(&store, &s).unwrap();
    assert_eq!(ranges.len(), 2);
    assert_eq!(f64::from_bits(ranges[1].0), 48000.0);
    assert_eq!(f64::from_bits(ranges[1].1), 96000.0);
    assert_eq!(d.name(&store, None).unwrap(), b"Built-in Microphone".to_vec());
    assert_eq!(d.uid(&store, None).unwrap(), b"BuiltInMic:0".to_vec());
    assert_eq!(
        d.manufacturer(&store, &s).unwrap(),
        b"Acme Audio".to_vec()
    );
    // No model UID record was added: the host answers with the
    // unknown-property code.
    assert_eq!(d.model_uid(&store, None).unwrap_err(), 0x77686F3F);
}

#[test]
fn test_source_name_needs_source() {
    // The source name is a translation of the current source code, so the
    // code must resolve first: without it the name record alone is not
    // enough.
    let mut store = PropertyStore::new();
    let dev = 9u32;
    store.insert(
        dev,
        get_property_address(Property::DeviceSourceName, Scope::Output),
        b"Internal Speakers".to_vec(),
    );
    store.insert(
        1,
        get_property_address(Property::Devices, Scope::Global),
        ids_bytes(&[dev]),
    );
    let system_device = SystemDevice::default();
    let devices = system_device.get_all_devices(&store).unwrap();
    let d = &devices[0];
    assert_eq!(
        d.source_name(&store, &Side::Output).unwrap_err(),
        0x77686F3F
    );
    let mut store2 = PropertyStore::new();
    store2.insert(
        dev,
        get_property_address(Property::DeviceSource, Scope::Output),
        0x6973706Bu32.to_le_bytes().to_vec(),
    );
    store2.insert(
        dev,
        get_property_address(Property::DeviceSourceName, Scope::Output),
        b"Internal Speakers".to_vec(),
    );
    store2.insert(
        1,
        get_property_address(Property::Devices, Scope::Global),
        ids_bytes(&[dev]),
    );
    let devices2 = system_device.get_all_devices(&store2).unwrap();
    assert_eq!(
        devices2[0].source_name(&store2, &Side::Output).unwrap(),
        b"Internal Speakers".to_vec()
    );
    assert_eq!(devices2[0].source(&store2, &Side::Output).unwrap(), 0x6973706B);
}
