//! Status codes of the host's property protocol. Zero means success; any other
//! value is an opaque signed 32-bit code defined by the host and surfaced
//! verbatim to callers.

use vstd::prelude::*;

verus! {

/// The host's success code.
pub const STATUS_OK: i32 = 0;

/// Host code for a query naming an object that is not in its registry
/// (the four-character code "!obj").
pub const STATUS_BAD_OBJECT: i32 = 0x216F626A;

/// Host code for a query naming a property the object does not have
/// (the four-character code "who?").
pub const STATUS_UNKNOWN_PROPERTY: i32 = 0x77686F3F;

} // verus!
