//! The host registry model. The host owns a registry of opaque objects, each
//! with a table of properties; a query names an object handle and an address
//! triple and gets bytes back. A [`PropertyStore`] is a snapshot of that
//! registry: every pair the host would answer, with the bytes it would serve.
//! The process that talks to the live host builds one from raw replies; tests
//! build them directly.

use crate::marshal::{spec_config_buffers, spec_config_wf, spec_sum_channels};
use crate::property_address::{
    PropertyAddress, SELECTOR_AVAILABLE_SAMPLE_RATES, SELECTOR_DEVICES, SELECTOR_STREAMS,
    SELECTOR_STREAM_CONFIGURATION,
};
use vstd::prelude::*;

verus! {

/// The reserved handle that names no object.
pub const OBJECT_UNKNOWN: u32 = 0;

/// The process-wide handle of the system object itself.
pub const SYSTEM_OBJECT_ID: u32 = 1;

/// One record of the registry: the bytes the host holds for one property of
/// one object.
pub struct PropertyRecord {
    pub object: u32,
    pub address: PropertyAddress,
    pub data: Vec<u8>,
}

impl PropertyRecord {
    /// What the host protocol guarantees of every record it serves: the record
    /// belongs to a real object, its size fits the protocol's 32-bit byte
    /// counts, and records under the structured selectors are shaped as those
    /// selectors demand.
    pub open spec fn wf(&self) -> bool {
        &&& self.object != OBJECT_UNKNOWN
        &&& self.data@.len() <= u32::MAX
        &&& self.address.selector == SELECTOR_DEVICES ==> self.data@.len() % 4 == 0
        &&& self.address.selector == SELECTOR_STREAMS ==> self.data@.len() % 4 == 0
        &&& self.address.selector == SELECTOR_AVAILABLE_SAMPLE_RATES ==> self.data@.len() % 16
            == 0
        &&& self.address.selector == SELECTOR_STREAM_CONFIGURATION ==> spec_config_wf(self.data@)
            && spec_sum_channels(spec_config_buffers(self.data@)) <= u32::MAX
    }
}

/// First-match lookup over a record list.
pub open spec fn spec_lookup(
    records: Seq<PropertyRecord>,
    object: u32,
    address: PropertyAddress,
) -> Option<Seq<u8>>
    decreases records.len(),
{
    if records.len() == 0 {
        None
    } else if records[0].object == object && records[0].address == address {
        Some(records[0].data@)
    } else {
        spec_lookup(records.drop_first(), object, address)
    }
}

/// A successful lookup is served from some record of the list.
pub proof fn lemma_lookup_found(
    records: Seq<PropertyRecord>,
    object: u32,
    address: PropertyAddress,
)
    requires
        spec_lookup(records, object, address) is Some,
    ensures
        exists|i: int|
            0 <= i < records.len() && (#[trigger] records[i]).object == object
                && records[i].address == address && records[i].data@ == spec_lookup(
                records,
                object,
                address,
            ).unwrap(),
    decreases records.len(),
{
    if records[0].object == object && records[0].address == address {
        assert(records[0].object == object);
    } else {
        let rest = records.drop_first();
        lemma_lookup_found(rest, object, address);
        let j = choose|j: int|
            0 <= j < rest.len() && (#[trigger] rest[j]).object == object && rest[j].address
                == address && rest[j].data@ == spec_lookup(rest, object, address).unwrap();
        assert(records[j + 1] == rest[j]);
    }
}

/// A snapshot of the host's property registry.
pub struct PropertyStore {
    records: Vec<PropertyRecord>,
}

impl PropertyStore {
    /// The records of the snapshot, in insertion order.
    pub closed spec fn records(&self) -> Seq<PropertyRecord> {
        self.records@
    }

    /// A snapshot is well-formed when every record obeys the host protocol.
    pub open spec fn wf(&self) -> bool {
        forall|i: int| 0 <= i < self.records().len() ==> (#[trigger] self.records()[i]).wf()
    }

    /// Whether the registry has the object at all.
    pub open spec fn object_known(&self, object: u32) -> bool {
        exists|i: int|
            0 <= i < self.records().len() && (#[trigger] self.records()[i]).object == object
    }

    /// The data of the first record for (object, address), if any.
    pub open spec fn lookup(&self, object: u32, address: PropertyAddress) -> Option<Seq<u8>> {
        spec_lookup(self.records(), object, address)
    }

    /// Whether the registry holds the property on the object.
    pub open spec fn has_property(&self, object: u32, address: PropertyAddress) -> bool {
        self.lookup(object, address) is Some
    }

    /// An empty snapshot.
    pub fn new() -> (r: PropertyStore)
        ensures
            r.wf(),
            r.records() == Seq::<PropertyRecord>::empty(),
    {
        let r = PropertyStore { records: Vec::new() };
        proof {
            assert(r.records() =~= Seq::<PropertyRecord>::empty());
        }
        r
    }

    /// Adds one record. The first record for a pair wins lookups, so adding
    /// the same pair again does not change what queries see. The preconditions
    /// are the host protocol's own guarantees: a snapshot never claims more
    /// than a live host could serve.
    pub fn insert(&mut self, object: u32, address: PropertyAddress, data: Vec<u8>)
        requires
            old(self).wf(),
            object != OBJECT_UNKNOWN,
            data@.len() <= u32::MAX,
            address.selector == SELECTOR_DEVICES ==> data@.len() % 4 == 0,
            address.selector == SELECTOR_STREAMS ==> data@.len() % 4 == 0,
            address.selector == SELECTOR_AVAILABLE_SAMPLE_RATES ==> data@.len() % 16 == 0,
            address.selector == SELECTOR_STREAM_CONFIGURATION ==> spec_config_wf(data@)
                && spec_sum_channels(spec_config_buffers(data@)) <= u32::MAX,
        ensures
            final(self).wf(),
            final(self).records() == old(self).records().push(
                (PropertyRecord { object, address, data }),
            ),
    {
        self.records.push(PropertyRecord { object, address, data });
    }

    /// Finds the record a query on (object, address) is served from.
    pub fn find(&self, object: u32, address: &PropertyAddress) -> (r: Option<&Vec<u8>>)
        ensures
            match r {
                Some(d) => self.lookup(object, *address) == Some(d@),
                None => self.lookup(object, *address) is None,
            },
    {
        let mut i: usize = 0;
        proof {
            assert(self.records().skip(0) =~= self.records());
        }
        while i < self.records.len()
            invariant
                i <= self.records().len(),
                spec_lookup(self.records(), object, *address) == spec_lookup(
                    self.records().skip(i as int),
                    object,
                    *address,
                ),
            decreases self.records().len() - i,
        {
            let rec = &self.records[i];
            proof {
                let tail = self.records().skip(i as int);
                assert(tail[0] == self.records()[i as int]);
                assert(tail.drop_first() =~= self.records().skip(i + 1));
            }
            if rec.object == object && rec.address == *address {
                return Some(&rec.data);
            }
            i = i + 1;
        }
        proof {
            assert(self.records().skip(i as int) =~= Seq::<PropertyRecord>::empty());
        }
        None
    }

    /// Whether the registry has any record for the object.
    pub fn knows_object(&self, object: u32) -> (r: bool)
        ensures
            r == self.object_known(object),
    {
        let mut i: usize = 0;
        while i < self.records.len()
            invariant
                i <= self.records().len(),
                forall|j: int| 0 <= j < i ==> (#[trigger] self.records()[j]).object != object,
            decreases self.records().len() - i,
        {
            if self.records[i].object == object {
                return true;
            }
            i = i + 1;
        }
        false
    }

    /// What the registry's well-formedness gives of any record a lookup finds.
    pub proof fn lemma_lookup_wf(&self, object: u32, address: PropertyAddress)
        requires
            self.wf(),
        ensures
            self.lookup(object, address) matches Some(d) ==> ({
                &&& self.object_known(object)
                &&& object != OBJECT_UNKNOWN
                &&& d.len() <= u32::MAX
                &&& address.selector == SELECTOR_DEVICES ==> d.len() % 4 == 0
                &&& address.selector == SELECTOR_STREAMS ==> d.len() % 4 == 0
                &&& address.selector == SELECTOR_AVAILABLE_SAMPLE_RATES ==> d.len() % 16 == 0
                &&& address.selector == SELECTOR_STREAM_CONFIGURATION ==> spec_config_wf(d)
                    && spec_sum_channels(spec_config_buffers(d)) <= u32::MAX
            }),
    {
        if self.lookup(object, address) is Some {
            lemma_lookup_found(self.records(), object, address);
            let i = choose|i: int|
                0 <= i < self.records().len() && (#[trigger] self.records()[i]).object == object
                    && self.records()[i].address == address && self.records()[i].data@
                    == self.lookup(object, address).unwrap();
            assert(self.records()[i].wf());
        }
    }
}

} // verus!
