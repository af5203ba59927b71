//! Device and system-device wrappers: default-device resolution, device
//! enumeration, and the per-device attribute getters. Each getter composes a
//! property address with one accessor call and converts the raw bytes into a
//! typed result; every contract states the exact reply the registry snapshot
//! determines.

use crate::audio_object::{
    spec_array_reply, spec_common_reply, spec_u32_query, spec_u64_query, AudioObject,
};
use crate::marshal::{
    parse_stream_configuration, ranges_from_bytes, spec_config_buffers, spec_ranges_of_bytes,
    spec_sum_channels, spec_u32s_of_bytes, spec_u64_le_at, sum_channels, u32s_from_bytes,
    u64_le_at, StreamBuffer,
};
use crate::property_address::{
    get_property_address, spec_property_address, Property, PropertyAddress, Scope,
};
use crate::status::STATUS_BAD_OBJECT;
use crate::store::{PropertyStore, OBJECT_UNKNOWN, SYSTEM_OBJECT_ID};
use vstd::prelude::*;

verus! {

/// Which signal direction a device query is about.
#[derive(Clone, Copy, PartialEq, Eq, Structural, Debug)]
pub enum Side {
    Input,
    Output,
}

/// The property scope a query direction maps to.
pub open spec fn spec_scope_of_side(side: Side) -> Scope {
    match side {
        Side::Input => Scope::Input,
        Side::Output => Scope::Output,
    }
}

/// Maps a query direction to its property scope.
pub fn scope_of_side(side: &Side) -> (r: Scope)
    ensures
        r == spec_scope_of_side(*side),
{
    match side {
        Side::Input => Scope::Input,
        Side::Output => Scope::Output,
    }
}

/// The default-device property of a direction.
pub open spec fn spec_default_property(side: Side) -> Property {
    match side {
        Side::Input => Property::DefaultInputDevice,
        Side::Output => Property::DefaultOutputDevice,
    }
}

/// The handle the registry reports as a direction's default device.
pub open spec fn spec_default_device(store: PropertyStore, system: u32, side: Side) -> Result<
    u32,
    i32,
> {
    spec_u32_query(
        store,
        system,
        spec_property_address(spec_default_property(side), Scope::Global),
    )
}

/// The handles of every device the registry reports on the system object.
pub open spec fn spec_all_device_ids(store: PropertyStore, system: u32) -> Result<Seq<u32>, i32> {
    match spec_array_reply(store, system, spec_property_address(Property::Devices, Scope::Global)) {
        Ok(d) => Ok(spec_u32s_of_bytes(d)),
        Err(e) => Err(e),
    }
}

/// The stream handles of a device in one direction.
pub open spec fn spec_streams(store: PropertyStore, device: u32, side: Side) -> Result<
    Seq<u32>,
    i32,
> {
    match spec_array_reply(
        store,
        device,
        spec_property_address(Property::DeviceStreams, spec_scope_of_side(side)),
    ) {
        Ok(d) => Ok(spec_u32s_of_bytes(d)),
        Err(e) => Err(e),
    }
}

/// Whether a device has any stream in one direction.
pub open spec fn spec_in_scope(store: PropertyStore, device: u32, side: Side) -> Result<bool, i32> {
    match spec_streams(store, device, side) {
        Ok(s) => Ok(s.len() > 0),
        Err(e) => Err(e),
    }
}

/// The sub-buffers of a device's stream-configuration record in one direction.
pub open spec fn spec_stream_configuration(store: PropertyStore, device: u32, side: Side) -> Result<
    Seq<StreamBuffer>,
    i32,
> {
    match spec_array_reply(
        store,
        device,
        spec_property_address(Property::DeviceStreamConfiguration, spec_scope_of_side(side)),
    ) {
        Ok(d) => Ok(spec_config_buffers(d)),
        Err(e) => Err(e),
    }
}

/// The channel count of a device in one direction: the sum of its
/// stream-configuration sub-buffers' channel counts.
pub open spec fn spec_channel_count(store: PropertyStore, device: u32, side: Side) -> Result<
    u32,
    i32,
> {
    match spec_stream_configuration(store, device, side) {
        Ok(bufs) => Ok(spec_sum_channels(bufs) as u32),
        Err(e) => Err(e),
    }
}

/// The current source's name: the registry serves it only after the source
/// code itself resolves, mirroring the translation query's input.
pub open spec fn spec_source_name(store: PropertyStore, device: u32, side: Side) -> Result<
    Seq<u8>,
    i32,
> {
    match spec_u32_query(
        store,
        device,
        spec_property_address(Property::DeviceSource, spec_scope_of_side(side)),
    ) {
        Ok(_) => spec_array_reply(
            store,
            device,
            spec_property_address(Property::DeviceSourceName, spec_scope_of_side(side)),
        ),
        Err(e) => Err(e),
    }
}

/// A device handle, comparable by value.
#[derive(Clone, Copy, PartialEq, Eq, Structural, Debug)]
pub struct DeviceId(pub u32);

/// The wrapper around the process-wide system object handle.
pub struct SystemDevice {
    object: AudioObject,
}

impl SystemDevice {
    /// The system object's handle.
    pub closed spec fn spec_id(&self) -> u32 {
        self.object.spec_id()
    }

    /// Resolves the default device of one direction: a single fixed-size query
    /// against the system object. A wrapper is returned even when the handle
    /// equals the unknown sentinel — callers must check validity explicitly.
    pub fn get_default_device(&self, store: &PropertyStore, side: &Side) -> (r: Result<Device, i32>)
        requires
            store.wf(),
        ensures
            ({
                let m = spec_default_device(*store, self.spec_id(), *side);
                match r {
                    Ok(d) => m is Ok && d.spec_id() == m->Ok_0,
                    Err(e) => m is Err && e == m->Err_0,
                }
            }),
    {
        let address = get_property_address(
            match side {
                Side::Input => Property::DefaultInputDevice,
                Side::Output => Property::DefaultOutputDevice,
            },
            Scope::Global,
        );
        match self.object.get_u32_property(store, &address) {
            Ok(id) => Ok(Device::new(id)),
            Err(e) => Err(e),
        }
    }

    /// Enumerates the registry's devices: sizes the device list, fetches it,
    /// and wraps each reported handle — including possibly-invalid ones.
    pub fn get_all_devices(&self, store: &PropertyStore) -> (r: Result<Vec<Device>, i32>)
        requires
            store.wf(),
        ensures
            ({
                let m = spec_all_device_ids(*store, self.spec_id());
                match r {
                    Ok(v) => m is Ok && v@.len() == m->Ok_0.len() && (forall|i: int|
                        0 <= i < v@.len() ==> (#[trigger] v@[i]).spec_id() == m->Ok_0[i]),
                    Err(e) => m is Err && e == m->Err_0,
                }
            }),
    {
        let address = get_property_address(Property::Devices, Scope::Global);
        let bytes = match self.object.get_property_array_common(store, &address) {
            Ok(b) => b,
            Err(e) => {
                return Err(e);
            },
        };
        let ids = u32s_from_bytes(&bytes);
        let mut devices: Vec<Device> = Vec::new();
        let mut i: usize = 0;
        while i < ids.len()
            invariant
                i <= ids@.len(),
                devices@.len() == i,
                forall|j: int| 0 <= j < i ==> (#[trigger] devices@[j]).spec_id() == ids@[j],
            decreases ids@.len() - i,
        {
            devices.push(Device::new(ids[i]));
            i = i + 1;
        }
        Ok(devices)
    }
}

impl Default for SystemDevice {
    /// The wrapper around the system object's well-known handle.
    fn default() -> (r: Self)
        ensures
            r.spec_id() == SYSTEM_OBJECT_ID,
    {
        SystemDevice { object: AudioObject::new(SYSTEM_OBJECT_ID) }
    }
}

/// The wrapper around one hardware device's handle.
pub struct Device {
    object: AudioObject,
}

impl Device {
    /// The device's handle.
    pub closed spec fn spec_id(&self) -> u32 {
        self.object.spec_id()
    }

    fn new(id: u32) -> (r: Self)
        ensures
            r.spec_id() == id,
    {
        Device { object: AudioObject::new(id) }
    }

    pub fn id(&self) -> (r: DeviceId)
        ensures
            r == DeviceId(self.spec_id()),
    {
        DeviceId(self.object.id())
    }

    /// Whether the handle names a real object rather than the reserved
    /// unknown sentinel.
    pub fn is_valid(&self) -> (r: bool)
        ensures
            r == (self.spec_id() != OBJECT_UNKNOWN),
    {
        let id = self.id();
        id != DeviceId(OBJECT_UNKNOWN)
    }

    /// Whether the device supports one direction: derived from whether its
    /// stream list for that direction is non-empty.
    pub fn in_scope(&self, store: &PropertyStore, side: &Side) -> (r: Result<bool, i32>)
        requires
            store.wf(),
        ensures
            r == spec_in_scope(*store, self.spec_id(), *side),
    {
        match self.streams(store, side) {
            Ok(s) => Ok(s.len() > 0),
            Err(e) => Err(e),
        }
    }

    /// The device's stream handles in one direction.
    fn streams(&self, store: &PropertyStore, side: &Side) -> (r: Result<Vec<u32>, i32>)
        requires
            store.wf(),
        ensures
            ({
                let m = spec_streams(*store, self.spec_id(), *side);
                match r {
                    Ok(v) => m is Ok && v@ == m->Ok_0,
                    Err(e) => m is Err && e == m->Err_0,
                }
            }),
    {
        let address = get_property_address(Property::DeviceStreams, scope_of_side(side));
        match self.object.get_property_array_common(store, &address) {
            Ok(b) => Ok(u32s_from_bytes(&b)),
            Err(e) => Err(e),
        }
    }

    /// The device's stream-configuration sub-buffers in one direction.
    pub fn stream_configuration(&self, store: &PropertyStore, side: &Side) -> (r: Result<
        Vec<StreamBuffer>,
        i32,
    >)
        requires
            store.wf(),
        ensures
            ({
                let m = spec_stream_configuration(*store, self.spec_id(), *side);
                match r {
                    Ok(v) => m is Ok && v@ == m->Ok_0,
                    Err(e) => m is Err && e == m->Err_0,
                }
            }),
    {
        let address = get_property_address(
            Property::DeviceStreamConfiguration,
            scope_of_side(side),
        );
        let bytes = match self.object.get_property_array_common(store, &address) {
            Ok(b) => b,
            Err(e) => {
                return Err(e);
            },
        };
        proof {
            store.lemma_lookup_wf(self.spec_id(), address);
        }
        Ok(parse_stream_configuration(&bytes))
    }

    /// The device's channel count in one direction: the sum of the per-sub-
    /// buffer channel counts of its stream configuration.
    pub fn channel_count(&self, store: &PropertyStore, side: &Side) -> (r: Result<u32, i32>)
        requires
            store.wf(),
        ensures
            r == spec_channel_count(*store, self.spec_id(), *side),
    {
        let buffers = match self.stream_configuration(store, side) {
            Ok(b) => b,
            Err(e) => {
                return Err(e);
            },
        };
        proof {
            store.lemma_lookup_wf(
                self.spec_id(),
                spec_property_address(
                    Property::DeviceStreamConfiguration,
                    spec_scope_of_side(*side),
                ),
            );
        }
        Ok(sum_channels(&buffers))
    }

    /// The device's clock domain.
    pub fn clock_domain(&self, store: &PropertyStore, side: &Side) -> (r: Result<u32, i32>)
        requires
            store.wf(),
        ensures
            r == spec_u32_query(
                *store,
                self.spec_id(),
                spec_property_address(Property::ClockDomain, spec_scope_of_side(*side)),
            ),
    {
        let address = get_property_address(Property::ClockDomain, scope_of_side(side));
        self.object.get_u32_property(store, &address)
    }

    /// The device's latency in frames.
    pub fn latency(&self, store: &PropertyStore, side: &Side) -> (r: Result<u32, i32>)
        requires
            store.wf(),
        ensures
            r == spec_u32_query(
                *store,
                self.spec_id(),
                spec_property_address(Property::DeviceLatency, spec_scope_of_side(*side)),
            ),
    {
        let address = get_property_address(Property::DeviceLatency, scope_of_side(side));
        self.object.get_u32_property(store, &address)
    }

    /// The device's current source, a four-character code.
    pub fn source(&self, store: &PropertyStore, side: &Side) -> (r: Result<u32, i32>)
        requires
            store.wf(),
        ensures
            r == spec_u32_query(
                *store,
                self.spec_id(),
                spec_property_address(Property::DeviceSource, spec_scope_of_side(*side)),
            ),
    {
        let address = get_property_address(Property::DeviceSource, scope_of_side(side));
        self.object.get_u32_property(store, &address)
    }

    /// The device's transport type, a four-character code.
    pub fn transport_type(&self, store: &PropertyStore, side: &Side) -> (r: Result<u32, i32>)
        requires
            store.wf(),
        ensures
            r == spec_u32_query(
                *store,
                self.spec_id(),
                spec_property_address(Property::TransportType, spec_scope_of_side(*side)),
            ),
    {
        let address = get_property_address(Property::TransportType, scope_of_side(side));
        self.object.get_u32_property(store, &address)
    }

    /// The device's nominal sample rate, as the raw bit pattern of the host's
    /// 8-byte floating-point value; interpreting the bits is presentation.
    pub fn sample_rate(&self, store: &PropertyStore, side: &Side) -> (r: Result<u64, i32>)
        requires
            store.wf(),
        ensures
            r == spec_u64_query(
                *store,
                self.spec_id(),
                spec_property_address(Property::DeviceSampleRate, spec_scope_of_side(*side)),
            ),
    {
        let address = get_property_address(Property::DeviceSampleRate, scope_of_side(side));
        self.object.get_u64_property(store, &address)
    }

    /// The device's buffer frame size range, as the raw bit patterns of the
    /// host's two 8-byte floating-point bounds.
    pub fn buffer_frame_size_range(&self, store: &PropertyStore, side: &Side) -> (r: Result<
        (u64, u64),
        i32,
    >)
        requires
            store.wf(),
        ensures
            ({
                let m = spec_common_reply(
                    *store,
                    self.spec_id(),
                    spec_property_address(
                        Property::DeviceBufferFrameSizeRange,
                        spec_scope_of_side(*side),
                    ),
                    16,
                );
                match r {
                    Ok(v) => m is Ok && v.0 == spec_u64_le_at(m->Ok_0, 0) && v.1 == spec_u64_le_at(
                        m->Ok_0,
                        8,
                    ),
                    Err(e) => m is Err && e == m->Err_0,
                }
            }),
    {
        let address = get_property_address(
            Property::DeviceBufferFrameSizeRange,
            scope_of_side(side),
        );
        match self.object.get_property_data_common(store, &address, 16) {
            Ok(d) => Ok((u64_le_at(&d, 0), u64_le_at(&d, 8))),
            Err(e) => Err(e),
        }
    }

    /// The device's available sample-rate ranges, as raw bit-pattern pairs.
    pub fn sample_rate_ranges(&self, store: &PropertyStore, side: &Side) -> (r: Result<
        Vec<(u64, u64)>,
        i32,
    >)
        requires
            store.wf(),
        ensures
            ({
                let m = spec_array_reply(
                    *store,
                    self.spec_id(),
                    spec_property_address(Property::DeviceSampleRates, spec_scope_of_side(*side)),
                );
                match r {
                    Ok(v) => m is Ok && v@ == spec_ranges_of_bytes(m->Ok_0),
                    Err(e) => m is Err && e == m->Err_0,
                }
            }),
    {
        let address = get_property_address(Property::DeviceSampleRates, scope_of_side(side));
        match self.object.get_property_array_common(store, &address) {
            Ok(b) => Ok(ranges_from_bytes(&b)),
            Err(e) => Err(e),
        }
    }

    /// The manufacturer's name, as the UTF-8 bytes of the host's string.
    pub fn manufacturer(&self, store: &PropertyStore, side: &Side) -> (r: Result<Vec<u8>, i32>)
        requires
            store.wf(),
        ensures
            ({
                let m = spec_array_reply(
                    *store,
                    self.spec_id(),
                    spec_property_address(
                        Property::DeviceManufacturer,
                        spec_scope_of_side(*side),
                    ),
                );
                match r {
                    Ok(v) => m is Ok && v@ == m->Ok_0,
                    Err(e) => m is Err && e == m->Err_0,
                }
            }),
    {
        let address = get_property_address(Property::DeviceManufacturer, scope_of_side(side));
        self.object.get_property_array_common(store, &address)
    }

    /// The device's model UID, as UTF-8 bytes; global scope when no direction
    /// is given.
    pub fn model_uid(&self, store: &PropertyStore, side: Option<&Side>) -> (r: Result<
        Vec<u8>,
        i32,
    >)
        requires
            store.wf(),
        ensures
            ({
                let scope = match side {
                    Some(s) => spec_scope_of_side(*s),
                    None => Scope::Global,
                };
                let m = spec_array_reply(
                    *store,
                    self.spec_id(),
                    spec_property_address(Property::DeviceModelUID, scope),
                );
                match r {
                    Ok(v) => m is Ok && v@ == m->Ok_0,
                    Err(e) => m is Err && e == m->Err_0,
                }
            }),
    {
        let scope = match side {
            Some(s) => scope_of_side(s),
            None => Scope::Global,
        };
        let address = get_property_address(Property::DeviceModelUID, scope);
        self.object.get_property_array_common(store, &address)
    }

    /// The device's name, as UTF-8 bytes; global scope when no direction is
    /// given.
    pub fn name(&self, store: &PropertyStore, side: Option<&Side>) -> (r: Result<Vec<u8>, i32>)
        requires
            store.wf(),
        ensures
            ({
                let scope = match side {
                    Some(s) => spec_scope_of_side(*s),
                    None => Scope::Global,
                };
                let m = spec_array_reply(
                    *store,
                    self.spec_id(),
                    spec_property_address(Property::DeviceName, scope),
                );
                match r {
                    Ok(v) => m is Ok && v@ == m->Ok_0,
                    Err(e) => m is Err && e == m->Err_0,
                }
            }),
    {
        let scope = match side {
            Some(s) => scope_of_side(s),
            None => Scope::Global,
        };
        let address = get_property_address(Property::DeviceName, scope);
        self.object.get_property_array_common(store, &address)
    }

    /// The device's UID, as UTF-8 bytes; global scope when no direction is
    /// given.
    pub fn uid(&self, store: &PropertyStore, side: Option<&Side>) -> (r: Result<Vec<u8>, i32>)
        requires
            store.wf(),
        ensures
            ({
                let scope = match side {
                    Some(s) => spec_scope_of_side(*s),
                    None => Scope::Global,
                };
                let m = spec_array_reply(
                    *store,
                    self.spec_id(),
                    spec_property_address(Property::DeviceUID, scope),
                );
                match r {
                    Ok(v) => m is Ok && v@ == m->Ok_0,
                    Err(e) => m is Err && e == m->Err_0,
                }
            }),
    {
        let scope = match side {
            Some(s) => scope_of_side(s),
            None => Scope::Global,
        };
        let address = get_property_address(Property::DeviceUID, scope);
        self.object.get_property_array_common(store, &address)
    }

    /// The name of the device's current source, as UTF-8 bytes. The source
    /// code is resolved first: it is the translation query's input, so its
    /// failure is the whole query's failure.
    pub fn source_name(&self, store: &PropertyStore, side: &Side) -> (r: Result<Vec<u8>, i32>)
        requires
            store.wf(),
        ensures
            ({
                let m = spec_source_name(*store, self.spec_id(), *side);
                match r {
                    Ok(v) => m is Ok && v@ == m->Ok_0,
                    Err(e) => m is Err && e == m->Err_0,
                }
            }),
    {
        if let Err(e) = self.source(store, side) {
            return Err(e);
        }
        let address = get_property_address(Property::DeviceSourceName, scope_of_side(side));
        self.object.get_property_array_common(store, &address)
    }
}

/// Law: a handle equal to the reserved unknown sentinel names no object in a
/// well-formed registry, so a scope-membership query on it fails with the
/// bad-object code rather than succeeding. (That such a handle reports itself
/// invalid is the contract of `Device::is_valid`.)
pub proof fn lemma_unknown_device_rejected(store: PropertyStore, side: Side)
    requires
        store.wf(),
    ensures
        spec_in_scope(store, OBJECT_UNKNOWN, side) == Err::<bool, i32>(STATUS_BAD_OBJECT),
        spec_channel_count(store, OBJECT_UNKNOWN, side) == Err::<u32, i32>(STATUS_BAD_OBJECT),
{
    if store.object_known(OBJECT_UNKNOWN) {
        let i = choose|i: int|
            0 <= i < store.records().len() && (#[trigger] store.records()[i]).object
                == OBJECT_UNKNOWN;
        assert(store.records()[i].wf());
    }
}

/// Whether one direction's default resolves to a valid device in the snapshot.
pub open spec fn spec_valid_default(store: PropertyStore, system: u32, side: Side) -> bool {
    &&& spec_default_device(store, system, side) is Ok
    &&& spec_default_device(store, system, side)->Ok_0 != OBJECT_UNKNOWN
}

/// The host behavior the device-list law rests on, stated of a snapshot: the
/// system object serves a device list; every valid default handle appears in
/// that list; and when the list is non-empty, at least one direction's
/// default resolves to a valid handle.
pub open spec fn spec_defaults_consistent(store: PropertyStore, system: u32) -> bool {
    &&& spec_all_device_ids(store, system) is Ok
    &&& spec_valid_default(store, system, Side::Input) ==> spec_all_device_ids(
        store,
        system,
    )->Ok_0.contains(spec_default_device(store, system, Side::Input)->Ok_0)
    &&& spec_valid_default(store, system, Side::Output) ==> spec_all_device_ids(
        store,
        system,
    )->Ok_0.contains(spec_default_device(store, system, Side::Output)->Ok_0)
    &&& spec_all_device_ids(store, system)->Ok_0.len() > 0 ==> spec_valid_default(
        store,
        system,
        Side::Input,
    ) || spec_valid_default(store, system, Side::Output)
}

/// Law: on a registry that keeps the host's guarantees, the device list is
/// empty exactly when neither the default input nor the default output
/// resolves to a valid device — each is either an error or the unknown
/// sentinel.
pub proof fn lemma_empty_list_iff_no_valid_defaults(store: PropertyStore, system: u32)
    requires
        store.wf(),
        spec_defaults_consistent(store, system),
    ensures
        (spec_all_device_ids(store, system)->Ok_0.len() == 0) <==> (!spec_valid_default(
            store,
            system,
            Side::Input,
        ) && !spec_valid_default(store, system, Side::Output)),
{
    let ids = spec_all_device_ids(store, system)->Ok_0;
    if ids.len() == 0 {
        if spec_valid_default(store, system, Side::Input) {
            assert(ids.contains(spec_default_device(store, system, Side::Input)->Ok_0));
        }
        if spec_valid_default(store, system, Side::Output) {
            assert(ids.contains(spec_default_device(store, system, Side::Output)->Ok_0));
        }
    }
}

/// Law: a device whose stream configuration lists no sub-buffers has channel
/// count zero in that direction.
pub proof fn lemma_zero_buffers_zero_channels(store: PropertyStore, device: u32, side: Side)
    requires
        store.wf(),
        spec_stream_configuration(store, device, side) is Ok,
        spec_stream_configuration(store, device, side)->Ok_0.len() == 0,
    ensures
        spec_channel_count(store, device, side) == Ok::<u32, i32>(0),
{
}

/// The host guarantee tying streams to the stream configuration: when both
/// records of a device and direction resolve, the configuration lists one
/// sub-buffer per stream.
pub open spec fn spec_streams_match_configuration(
    store: PropertyStore,
    device: u32,
    side: Side,
) -> bool {
    spec_streams(store, device, side) is Ok && spec_stream_configuration(store, device, side)
        is Ok ==> spec_stream_configuration(store, device, side)->Ok_0.len() == spec_streams(
        store,
        device,
        side,
    )->Ok_0.len()
}

/// Law: on a registry that keeps the host's guarantees, a device reporting
/// zero streams in a direction has channel count zero there.
pub proof fn lemma_zero_streams_zero_channels(store: PropertyStore, device: u32, side: Side)
    requires
        store.wf(),
        spec_streams_match_configuration(store, device, side),
        spec_in_scope(store, device, side) == Ok::<bool, i32>(false),
        spec_stream_configuration(store, device, side) is Ok,
    ensures
        spec_channel_count(store, device, side) == Ok::<u32, i32>(0),
{
    lemma_zero_buffers_zero_channels(store, device, side);
}

} // verus!
