//! The property-address table: maps a named property and a scope to the
//! host's native selector/scope/element triple. The numeric values are the
//! host protocol's four-character codes, stored as big-endian 32-bit values;
//! they must be reproduced exactly to stay interoperable.

use vstd::prelude::*;

verus! {

/// Selector for the default input device ("dIn ").
pub const SELECTOR_DEFAULT_INPUT_DEVICE: u32 = 0x64496E20;

/// Selector for the default output device ("dOut").
pub const SELECTOR_DEFAULT_OUTPUT_DEVICE: u32 = 0x644F7574;

/// Selector for the list of all devices ("dev#").
pub const SELECTOR_DEVICES: u32 = 0x64657623;

/// Selector for the manufacturer name ("lmak").
pub const SELECTOR_MANUFACTURER: u32 = 0x6C6D616B;

/// Selector for the object name ("lnam").
pub const SELECTOR_NAME: u32 = 0x6C6E616D;

/// Selector for the clock domain ("clkd").
pub const SELECTOR_CLOCK_DOMAIN: u32 = 0x636C6B64;

/// Selector for the buffer frame size range ("fsz#").
pub const SELECTOR_BUFFER_FRAME_SIZE_RANGE: u32 = 0x66737A23;

/// Selector for the model UID ("muid").
pub const SELECTOR_MODEL_UID: u32 = 0x6D756964;

/// Selector for the device latency ("ltnc").
pub const SELECTOR_LATENCY: u32 = 0x6C746E63;

/// Selector for the nominal sample rate ("nsrt").
pub const SELECTOR_NOMINAL_SAMPLE_RATE: u32 = 0x6E737274;

/// Selector for the available nominal sample rates ("nsr#").
pub const SELECTOR_AVAILABLE_SAMPLE_RATES: u32 = 0x6E737223;

/// Selector for the current data source ("ssrc").
pub const SELECTOR_DATA_SOURCE: u32 = 0x73737263;

/// Selector for the data source's name ("lscn").
pub const SELECTOR_DATA_SOURCE_NAME: u32 = 0x6C73636E;

/// Selector for the stream configuration ("slay").
pub const SELECTOR_STREAM_CONFIGURATION: u32 = 0x736C6179;

/// Selector for the list of streams ("stm#").
pub const SELECTOR_STREAMS: u32 = 0x73746D23;

/// Selector for the device UID ("uid ").
pub const SELECTOR_DEVICE_UID: u32 = 0x75696420;

/// Selector for the transport type ("tran").
pub const SELECTOR_TRANSPORT_TYPE: u32 = 0x7472616E;

/// Scope code for properties that apply to the whole object ("glob").
pub const SCOPE_GLOBAL: u32 = 0x676C6F62;

/// Scope code for the input direction ("inpt").
pub const SCOPE_INPUT: u32 = 0x696E7074;

/// Scope code for the output direction ("outp").
pub const SCOPE_OUTPUT: u32 = 0x6F757470;

/// Element code addressing the main element of an object.
pub const ELEMENT_MAIN: u32 = 0;

/// The closed set of properties this crate queries.
#[derive(Clone, Copy, PartialEq, Eq, Structural, Debug)]
pub enum Property {
    DefaultInputDevice,
    DefaultOutputDevice,
    Devices,
    DeviceManufacturer,
    DeviceName,
    ClockDomain,
    DeviceBufferFrameSizeRange,
    DeviceModelUID,
    DeviceLatency,
    DeviceSampleRate,
    DeviceSampleRates,
    DeviceSource,
    DeviceSourceName,
    DeviceStreamConfiguration,
    DeviceStreams,
    DeviceUID,
    TransportType,
}

/// Which signal direction a query applies to.
#[derive(Clone, Copy, PartialEq, Eq, Structural, Debug)]
pub enum Scope {
    Global,
    Input,
    Output,
}

/// An immutable selector/scope/element triple identifying one property on one
/// object. Constructed per query, never persisted.
#[derive(Clone, Copy, PartialEq, Eq, Structural, Debug)]
pub struct PropertyAddress {
    pub selector: u32,
    pub scope: u32,
    pub element: u32,
}

/// The selector code of each named property.
pub open spec fn spec_selector(property: Property) -> u32 {
    match property {
        Property::DefaultInputDevice => SELECTOR_DEFAULT_INPUT_DEVICE,
        Property::DefaultOutputDevice => SELECTOR_DEFAULT_OUTPUT_DEVICE,
        Property::Devices => SELECTOR_DEVICES,
        Property::DeviceManufacturer => SELECTOR_MANUFACTURER,
        Property::DeviceName => SELECTOR_NAME,
        Property::ClockDomain => SELECTOR_CLOCK_DOMAIN,
        Property::DeviceBufferFrameSizeRange => SELECTOR_BUFFER_FRAME_SIZE_RANGE,
        Property::DeviceModelUID => SELECTOR_MODEL_UID,
        Property::DeviceLatency => SELECTOR_LATENCY,
        Property::DeviceSampleRate => SELECTOR_NOMINAL_SAMPLE_RATE,
        Property::DeviceSampleRates => SELECTOR_AVAILABLE_SAMPLE_RATES,
        Property::DeviceSource => SELECTOR_DATA_SOURCE,
        Property::DeviceSourceName => SELECTOR_DATA_SOURCE_NAME,
        Property::DeviceStreamConfiguration => SELECTOR_STREAM_CONFIGURATION,
        Property::DeviceStreams => SELECTOR_STREAMS,
        Property::DeviceUID => SELECTOR_DEVICE_UID,
        Property::TransportType => SELECTOR_TRANSPORT_TYPE,
    }
}

/// The code of each scope.
pub open spec fn spec_scope_code(scope: Scope) -> u32 {
    match scope {
        Scope::Global => SCOPE_GLOBAL,
        Scope::Input => SCOPE_INPUT,
        Scope::Output => SCOPE_OUTPUT,
    }
}

/// The address triple a (property, scope) query is issued under.
pub open spec fn spec_property_address(property: Property, scope: Scope) -> PropertyAddress {
    PropertyAddress {
        selector: spec_selector(property),
        scope: spec_scope_code(scope),
        element: ELEMENT_MAIN,
    }
}

/// Builds the host address triple for one named property under one scope.
pub fn get_property_address(property: Property, scope: Scope) -> (r: PropertyAddress)
    ensures
        r == spec_property_address(property, scope),
{
    let selector: u32 = match property {
        Property::DefaultInputDevice => SELECTOR_DEFAULT_INPUT_DEVICE,
        Property::DefaultOutputDevice => SELECTOR_DEFAULT_OUTPUT_DEVICE,
        Property::Devices => SELECTOR_DEVICES,
        Property::DeviceManufacturer => SELECTOR_MANUFACTURER,
        Property::DeviceName => SELECTOR_NAME,
        Property::ClockDomain => SELECTOR_CLOCK_DOMAIN,
        Property::DeviceBufferFrameSizeRange => SELECTOR_BUFFER_FRAME_SIZE_RANGE,
        Property::DeviceModelUID => SELECTOR_MODEL_UID,
        Property::DeviceLatency => SELECTOR_LATENCY,
        Property::DeviceSampleRate => SELECTOR_NOMINAL_SAMPLE_RATE,
        Property::DeviceSampleRates => SELECTOR_AVAILABLE_SAMPLE_RATES,
        Property::DeviceSource => SELECTOR_DATA_SOURCE,
        Property::DeviceSourceName => SELECTOR_DATA_SOURCE_NAME,
        Property::DeviceStreamConfiguration => SELECTOR_STREAM_CONFIGURATION,
        Property::DeviceStreams => SELECTOR_STREAMS,
        Property::DeviceUID => SELECTOR_DEVICE_UID,
        Property::TransportType => SELECTOR_TRANSPORT_TYPE,
    };
    let scope_code: u32 = match scope {
        Scope::Global => SCOPE_GLOBAL,
        Scope::Input => SCOPE_INPUT,
        Scope::Output => SCOPE_OUTPUT,
    };
    PropertyAddress { selector: selector, scope: scope_code, element: ELEMENT_MAIN }
}

/// The four bytes of a four-character code in reading order: a code is stored
/// big-endian, so the most significant byte comes first.
pub open spec fn spec_fourcc_bytes(data: u32) -> Seq<u8> {
    seq![
        (data >> 24) as u8,
        ((data >> 16) & 0xFF) as u8,
        ((data >> 8) & 0xFF) as u8,
        (data & 0xFF) as u8,
    ]
}

/// Reorders a four-character code's big-endian 32-bit value into its four
/// bytes in reading order, for presentation.
pub fn u32_to_string(data: u32) -> (r: Vec<u8>)
    ensures
        r@ == spec_fourcc_bytes(data),
{
    let mut buffer: Vec<u8> = Vec::new();
    buffer.push((data >> 24) as u8);
    buffer.push(((data >> 16) & 0xFF) as u8);
    buffer.push(((data >> 8) & 0xFF) as u8);
    buffer.push((data & 0xFF) as u8);
    proof {
        assert(data >> 24 <= 0xFF) by (bit_vector);
        assert(buffer@ =~= spec_fourcc_bytes(data));
    }
    buffer
}

} // verus!
