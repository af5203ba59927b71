//! The opaque-object accessor: raw and typed property queries against one
//! object handle, and the two-phase size-then-fetch pattern built from them.
//! Every query maps the host's status code the same way: zero means success,
//! anything else is surfaced verbatim.

use crate::marshal::{spec_u32_le_at, spec_u64_le_at, u32_le_at, u64_le_at};
use crate::property_address::PropertyAddress;
use crate::status::{STATUS_BAD_OBJECT, STATUS_OK, STATUS_UNKNOWN_PROPERTY};
use crate::store::PropertyStore;
use vstd::prelude::*;

verus! {

/// A wrapper around one opaque object handle of the host registry. The host
/// owns every handle; the wrapper never allocates or frees one, only reads
/// through it.
pub struct AudioObject {
    id: u32,
}

/// The reply of a size query: the host's status code, and the byte size of
/// the property's record when the status is success.
pub open spec fn spec_size_reply(
    store: PropertyStore,
    object: u32,
    address: PropertyAddress,
) -> (i32, u32) {
    if !store.object_known(object) {
        (STATUS_BAD_OBJECT, 0)
    } else {
        match store.lookup(object, address) {
            Some(d) => (STATUS_OK, d.len() as u32),
            None => (STATUS_UNKNOWN_PROPERTY, 0),
        }
    }
}

/// The reply of a data query issued with an io byte count: the status code,
/// and the bytes written — the record's prefix of at most that count.
pub open spec fn spec_data_reply(
    store: PropertyStore,
    object: u32,
    address: PropertyAddress,
    io_size: u32,
) -> (i32, Seq<u8>) {
    if !store.object_known(object) {
        (STATUS_BAD_OBJECT, Seq::empty())
    } else {
        match store.lookup(object, address) {
            Some(d) => (
                STATUS_OK,
                d.take(
                    if io_size <= d.len() {
                        io_size as int
                    } else {
                        d.len() as int
                    },
                ),
            ),
            None => (STATUS_UNKNOWN_PROPERTY, Seq::empty()),
        }
    }
}

/// A fixed-size query's result: the data fetch, mapped to a typed result by
/// the status code.
pub open spec fn spec_common_reply(
    store: PropertyStore,
    object: u32,
    address: PropertyAddress,
    size: u32,
) -> Result<Seq<u8>, i32> {
    let (status, data) = spec_data_reply(store, object, address, size);
    if status == STATUS_OK {
        Ok(data)
    } else {
        Err(status)
    }
}

/// A two-phase query's result: size first, then a fetch of exactly that size,
/// which hands back the whole record.
pub open spec fn spec_array_reply(
    store: PropertyStore,
    object: u32,
    address: PropertyAddress,
) -> Result<Seq<u8>, i32> {
    if !store.object_known(object) {
        Err(STATUS_BAD_OBJECT)
    } else {
        match store.lookup(object, address) {
            Some(d) => Ok(d),
            None => Err(STATUS_UNKNOWN_PROPERTY),
        }
    }
}

/// A 32-bit scalar query: a 4-byte fetch decoded little-endian. Bytes the
/// host did not write read as zero, as they would from a zeroed destination.
pub open spec fn spec_u32_query(
    store: PropertyStore,
    object: u32,
    address: PropertyAddress,
) -> Result<u32, i32> {
    match spec_common_reply(store, object, address, 4) {
        Ok(d) => Ok(spec_u32_le_at(d, 0)),
        Err(e) => Err(e),
    }
}

/// A 64-bit scalar query: an 8-byte fetch decoded little-endian.
pub open spec fn spec_u64_query(
    store: PropertyStore,
    object: u32,
    address: PropertyAddress,
) -> Result<u64, i32> {
    match spec_common_reply(store, object, address, 8) {
        Ok(d) => Ok(spec_u64_le_at(d, 0)),
        Err(e) => Err(e),
    }
}

impl AudioObject {
    /// The handle this wrapper reads through.
    pub closed spec fn spec_id(&self) -> u32 {
        self.id
    }

    pub fn new(id: u32) -> (r: Self)
        ensures
            r.spec_id() == id,
    {
        AudioObject { id }
    }

    pub fn id(&self) -> (r: u32)
        ensures
            r == self.spec_id(),
    {
        self.id
    }

    /// Issues the raw size query.
    pub fn get_property_data_size(&self, store: &PropertyStore, address: &PropertyAddress) -> (r:
        (i32, u32))
        requires
            store.wf(),
        ensures
            r == spec_size_reply(*store, self.spec_id(), *address),
    {
        if !store.knows_object(self.id) {
            return (STATUS_BAD_OBJECT, 0);
        }
        proof {
            store.lemma_lookup_wf(self.spec_id(), *address);
        }
        match store.find(self.id, address) {
            Some(d) => (STATUS_OK, d.len() as u32),
            None => (STATUS_UNKNOWN_PROPERTY, 0),
        }
    }

    /// Issues the raw data query with an io byte count, copying at most that
    /// many bytes into a fresh buffer.
    pub fn get_property_data(
        &self,
        store: &PropertyStore,
        address: &PropertyAddress,
        io_size: u32,
    ) -> (r: (i32, Vec<u8>))
        requires
            store.wf(),
        ensures
            r.0 == spec_data_reply(*store, self.spec_id(), *address, io_size).0,
            r.1@ == spec_data_reply(*store, self.spec_id(), *address, io_size).1,
    {
        if !store.knows_object(self.id) {
            return (STATUS_BAD_OBJECT, Vec::new());
        }
        match store.find(self.id, address) {
            Some(d) => {
                let n: usize = if (io_size as usize) <= d.len() {
                    io_size as usize
                } else {
                    d.len()
                };
                let mut out: Vec<u8> = Vec::new();
                let mut i: usize = 0;
                proof {
                    assert(out@ =~= d@.take(0));
                }
                while i < n
                    invariant
                        i <= n,
                        n <= d@.len(),
                        out@ == d@.take(i as int),
                    decreases n - i,
                {
                    out.push(d[i]);
                    proof {
                        assert(out@ =~= d@.take(i + 1));
                    }
                    i = i + 1;
                }
                (STATUS_OK, out)
            },
            None => (STATUS_UNKNOWN_PROPERTY, Vec::new()),
        }
    }

    /// A fixed-size query: fetches `size` bytes and maps the status code to a
    /// typed result. Fixed-size scalar results skip the size query and pass
    /// the type's known size directly.
    pub fn get_property_data_common(
        &self,
        store: &PropertyStore,
        address: &PropertyAddress,
        size: u32,
    ) -> (r: Result<Vec<u8>, i32>)
        requires
            store.wf(),
        ensures
            ({
                let m = spec_common_reply(*store, self.spec_id(), *address, size);
                match r {
                    Ok(v) => m matches Ok(d) && v@ == d,
                    Err(e) => m matches Err(c) && e == c,
                }
            }),
    {
        let (status, data) = self.get_property_data(store, address, size);
        if status == STATUS_OK {
            Ok(data)
        } else {
            Err(status)
        }
    }

    /// A two-phase variable-length query: sizes the property, allocates a
    /// buffer of exactly that size, and fetches into it. A success hands the
    /// whole record back.
    pub fn get_property_array_common(&self, store: &PropertyStore, address: &PropertyAddress) -> (r:
        Result<Vec<u8>, i32>)
        requires
            store.wf(),
        ensures
            ({
                let m = spec_array_reply(*store, self.spec_id(), *address);
                match r {
                    Ok(v) => m matches Ok(d) && v@ == d,
                    Err(e) => m matches Err(c) && e == c,
                }
            }),
    {
        let (status, size) = self.get_property_data_size(store, address);
        if status != STATUS_OK {
            return Err(status);
        }
        proof {
            store.lemma_lookup_wf(self.spec_id(), *address);
            let d = store.lookup(self.spec_id(), *address).unwrap();
            assert(d.take(d.len() as int) =~= d);
        }
        let (status2, data) = self.get_property_data(store, address, size);
        if status2 == STATUS_OK {
            Ok(data)
        } else {
            Err(status2)
        }
    }

    /// A 32-bit scalar query: 4 bytes fetched and decoded little-endian.
    pub fn get_u32_property(&self, store: &PropertyStore, address: &PropertyAddress) -> (r: Result<
        u32,
        i32,
    >)
        requires
            store.wf(),
        ensures
            r == spec_u32_query(*store, self.spec_id(), *address),
    {
        match self.get_property_data_common(store, address, 4) {
            Ok(d) => Ok(u32_le_at(&d, 0)),
            Err(e) => Err(e),
        }
    }

    /// A 64-bit scalar query: 8 bytes fetched and decoded little-endian.
    pub fn get_u64_property(&self, store: &PropertyStore, address: &PropertyAddress) -> (r: Result<
        u64,
        i32,
    >)
        requires
            store.wf(),
        ensures
            r == spec_u64_query(*store, self.spec_id(), *address),
    {
        match self.get_property_data_common(store, address, 8) {
            Ok(d) => Ok(u64_le_at(&d, 0)),
            Err(e) => Err(e),
        }
    }
}

/// Two-phase consistency law: when a size query succeeds, a data fetch issued
/// with exactly the reported size succeeds too and fills the buffer to that
/// size — the whole record comes back.
pub proof fn lemma_two_phase_consistent(
    store: PropertyStore,
    object: u32,
    address: PropertyAddress,
)
    requires
        store.wf(),
        spec_size_reply(store, object, address).0 == STATUS_OK,
    ensures
        ({
            let size = spec_size_reply(store, object, address).1;
            let (status, data) = spec_data_reply(store, object, address, size);
            &&& status == STATUS_OK
            &&& data.len() == size
            &&& spec_array_reply(store, object, address) == Ok::<Seq<u8>, i32>(data)
        }),
{
    store.lemma_lookup_wf(object, address);
    let d = store.lookup(object, address).unwrap();
    assert(d.take(d.len() as int) =~= d);
}

} // verus!
