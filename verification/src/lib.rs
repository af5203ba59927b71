//! Enumerates and queries audio hardware devices through the host's property
//! protocol. The host exposes a registry of opaque objects (the system object
//! and one object per device), each with a table of properties addressed by a
//! selector/scope/element triple. This crate models that registry as explicit
//! data (a [`store::PropertyStore`]), and verifies the whole query pipeline
//! against it: the two-phase size-then-fetch accessor, status-code mapping,
//! buffer marshaling, default-device resolution, device enumeration, and the
//! per-device attribute getters. The process that talks to the live host
//! performs the raw property calls itself and uses this crate to interpret
//! every reply.

pub mod audio_device;
pub mod audio_object;
pub mod marshal;
pub mod property_address;
pub mod status;
pub mod store;
pub mod string;
