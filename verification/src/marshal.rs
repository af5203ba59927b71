//! Marshaling of raw property buffers. The host answers every query with a
//! byte buffer; this module gives those buffers their meaning: little-endian
//! scalars, packed arrays of 32-bit handles, packed arrays of value ranges,
//! and the stream-configuration record with its list of sub-buffers.

use vstd::prelude::*;

verus! {

/// The byte at index `i`, or zero past the end. A query fills a zeroed buffer,
/// so bytes the host did not write read as zero.
pub open spec fn spec_byte_at(b: Seq<u8>, i: int) -> u8 {
    if 0 <= i < b.len() {
        b[i]
    } else {
        0
    }
}

/// The 32-bit value whose little-endian bytes stand at offset `off`.
pub open spec fn spec_u32_le_at(b: Seq<u8>, off: int) -> u32 {
    (spec_byte_at(b, off) as u32) | ((spec_byte_at(b, off + 1) as u32) << 8) | ((spec_byte_at(
        b,
        off + 2,
    ) as u32) << 16) | ((spec_byte_at(b, off + 3) as u32) << 24)
}

/// The 64-bit value whose little-endian bytes stand at offset `off`.
pub open spec fn spec_u64_le_at(b: Seq<u8>, off: int) -> u64 {
    (spec_byte_at(b, off) as u64) | ((spec_byte_at(b, off + 1) as u64) << 8) | ((spec_byte_at(
        b,
        off + 2,
    ) as u64) << 16) | ((spec_byte_at(b, off + 3) as u64) << 24) | ((spec_byte_at(
        b,
        off + 4,
    ) as u64) << 32) | ((spec_byte_at(b, off + 5) as u64) << 40) | ((spec_byte_at(
        b,
        off + 6,
    ) as u64) << 48) | ((spec_byte_at(b, off + 7) as u64) << 56)
}

/// Reads the byte at `i`, or zero past the end.
pub fn byte_at(b: &Vec<u8>, i: usize) -> (r: u8)
    ensures
        r == spec_byte_at(b@, i as int),
{
    if i < b.len() {
        b[i]
    } else {
        0
    }
}

/// Reads the little-endian 32-bit value at offset `off`.
pub fn u32_le_at(b: &Vec<u8>, off: usize) -> (r: u32)
    requires
        off + 3 <= usize::MAX,
    ensures
        r == spec_u32_le_at(b@, off as int),
{
    (byte_at(b, off) as u32) | ((byte_at(b, off + 1) as u32) << 8) | ((byte_at(
        b,
        off + 2,
    ) as u32) << 16) | ((byte_at(b, off + 3) as u32) << 24)
}

/// Reads the little-endian 64-bit value at offset `off`.
pub fn u64_le_at(b: &Vec<u8>, off: usize) -> (r: u64)
    requires
        off + 7 <= usize::MAX,
    ensures
        r == spec_u64_le_at(b@, off as int),
{
    (byte_at(b, off) as u64) | ((byte_at(b, off + 1) as u64) << 8) | ((byte_at(
        b,
        off + 2,
    ) as u64) << 16) | ((byte_at(b, off + 3) as u64) << 24) | ((byte_at(
        b,
        off + 4,
    ) as u64) << 32) | ((byte_at(b, off + 5) as u64) << 40) | ((byte_at(
        b,
        off + 6,
    ) as u64) << 48) | ((byte_at(b, off + 7) as u64) << 56)
}

/// The 32-bit values of a buffer read in consecutive 4-byte little-endian
/// chunks; a trailing fragment shorter than one chunk is dropped.
pub open spec fn spec_u32s_of_bytes(b: Seq<u8>) -> Seq<u32>
    decreases b.len(),
{
    if b.len() < 4 {
        Seq::empty()
    } else {
        seq![spec_u32_le_at(b, 0)] + spec_u32s_of_bytes(b.skip(4))
    }
}

/// Splits a buffer into its consecutive little-endian 32-bit values.
pub fn u32s_from_bytes(b: &Vec<u8>) -> (r: Vec<u32>)
    ensures
        r@ == spec_u32s_of_bytes(b@),
{
    let mut out: Vec<u32> = Vec::new();
    if b.len() < 4 {
        proof {
            assert(out@ =~= spec_u32s_of_bytes(b@));
        }
        return out;
    }
    let len = b.len();
    let mut i: usize = 0;
    proof {
        assert(b@.skip(0) =~= b@);
        assert(out@ + spec_u32s_of_bytes(b@) =~= spec_u32s_of_bytes(b@));
    }
    while i <= len - 4
        invariant
            len == b@.len(),
            4 <= len,
            i <= len,
            spec_u32s_of_bytes(b@) == out@ + spec_u32s_of_bytes(b@.skip(i as int)),
        decreases len - i,
    {
        let v = u32_le_at(b, i);
        proof {
            let tail = b@.skip(i as int);
            assert(tail.len() >= 4);
            assert(spec_byte_at(tail, 0) == spec_byte_at(b@, i as int));
            assert(spec_byte_at(tail, 1) == spec_byte_at(b@, i + 1));
            assert(spec_byte_at(tail, 2) == spec_byte_at(b@, i + 2));
            assert(spec_byte_at(tail, 3) == spec_byte_at(b@, i + 3));
            assert(spec_u32_le_at(tail, 0) == spec_u32_le_at(b@, i as int));
            assert(tail.skip(4) =~= b@.skip(i + 4));
            assert(out@ + spec_u32s_of_bytes(tail) =~= out@.push(v) + spec_u32s_of_bytes(
                b@.skip(i + 4),
            ));
        }
        out.push(v);
        i = i + 4;
    }
    proof {
        assert(b@.skip(i as int).len() < 4);
        assert(spec_u32s_of_bytes(b@.skip(i as int)) =~= Seq::<u32>::empty());
        assert(out@ + Seq::<u32>::empty() =~= out@);
    }
    out
}

/// The value ranges of a buffer read in consecutive 16-byte chunks: each chunk
/// holds a minimum and a maximum, both 64-bit little-endian values.
pub open spec fn spec_ranges_of_bytes(b: Seq<u8>) -> Seq<(u64, u64)>
    decreases b.len(),
{
    if b.len() < 16 {
        Seq::empty()
    } else {
        seq![(spec_u64_le_at(b, 0), spec_u64_le_at(b, 8))] + spec_ranges_of_bytes(b.skip(16))
    }
}

/// Splits a buffer into its consecutive (minimum, maximum) range pairs.
pub fn ranges_from_bytes(b: &Vec<u8>) -> (r: Vec<(u64, u64)>)
    ensures
        r@ == spec_ranges_of_bytes(b@),
{
    let mut out: Vec<(u64, u64)> = Vec::new();
    if b.len() < 16 {
        proof {
            assert(out@ =~= spec_ranges_of_bytes(b@));
        }
        return out;
    }
    let len = b.len();
    let mut i: usize = 0;
    proof {
        assert(b@.skip(0) =~= b@);
        assert(out@ + spec_ranges_of_bytes(b@) =~= spec_ranges_of_bytes(b@));
    }
    while i <= len - 16
        invariant
            len == b@.len(),
            16 <= len,
            i <= len,
            spec_ranges_of_bytes(b@) == out@ + spec_ranges_of_bytes(b@.skip(i as int)),
        decreases len - i,
    {
        let lo = u64_le_at(b, i);
        let hi = u64_le_at(b, i + 8);
        proof {
            let tail = b@.skip(i as int);
            assert(tail.len() >= 16);
            assert forall|k: int| 0 <= k < 16 implies spec_byte_at(tail, k) == spec_byte_at(
                b@,
                i + k,
            ) by {}
            assert(spec_u64_le_at(tail, 0) == spec_u64_le_at(b@, i as int));
            assert(spec_u64_le_at(tail, 8) == spec_u64_le_at(b@, i + 8));
            assert(tail.skip(16) =~= b@.skip(i + 16));
            assert(out@ + spec_ranges_of_bytes(tail) =~= out@.push((lo, hi))
                + spec_ranges_of_bytes(b@.skip(i + 16)));
        }
        out.push((lo, hi));
        i = i + 16;
    }
    proof {
        assert(b@.skip(i as int).len() < 16);
        assert(spec_ranges_of_bytes(b@.skip(i as int)) =~= Seq::<(u64, u64)>::empty());
        assert(out@ + Seq::<(u64, u64)>::empty() =~= out@);
    }
    out
}

/// One sub-buffer of a stream-configuration record: its channel count and its
/// size in bytes.
#[derive(Clone, Copy, PartialEq, Eq, Structural, Debug)]
pub struct StreamBuffer {
    pub channels: u32,
    pub byte_size: u32,
}

/// Bytes before the first sub-buffer entry of a stream-configuration record:
/// a 4-byte count and 4 bytes of alignment padding.
pub const CONFIG_HEADER_BYTES: usize = 8;

/// Bytes of one sub-buffer entry: channel count, byte size, and an 8-byte
/// data pointer this crate never reads.
pub const CONFIG_ENTRY_BYTES: usize = 16;

/// Number of sub-buffers a stream-configuration record announces.
pub open spec fn spec_config_count(b: Seq<u8>) -> u32 {
    spec_u32_le_at(b, 0)
}

/// A stream-configuration record is well-formed when it is long enough for
/// the sub-buffer count it announces.
pub open spec fn spec_config_wf(b: Seq<u8>) -> bool {
    b.len() >= CONFIG_HEADER_BYTES + CONFIG_ENTRY_BYTES * (spec_config_count(b) as int)
}

/// The sub-buffers of a stream-configuration record.
pub open spec fn spec_config_buffers(b: Seq<u8>) -> Seq<StreamBuffer> {
    Seq::new(
        spec_config_count(b) as nat,
        |i: int|
            StreamBuffer {
                channels: spec_u32_le_at(b, CONFIG_HEADER_BYTES + CONFIG_ENTRY_BYTES * i),
                byte_size: spec_u32_le_at(b, CONFIG_HEADER_BYTES + CONFIG_ENTRY_BYTES * i + 4),
            },
    )
}

/// Reinterprets a stream-configuration record as its list of sub-buffers.
pub fn parse_stream_configuration(b: &Vec<u8>) -> (r: Vec<StreamBuffer>)
    requires
        spec_config_wf(b@),
    ensures
        r@ == spec_config_buffers(b@),
{
    let count = u32_le_at(b, 0);
    let n = count as usize;
    let total = b.len();
    let mut out: Vec<StreamBuffer> = Vec::new();
    let mut i: usize = 0;
    while i < n
        invariant
            spec_config_wf(b@),
            n == spec_config_count(b@),
            i <= n,
            total == b@.len(),
            total >= CONFIG_HEADER_BYTES + CONFIG_ENTRY_BYTES * (n as int),
            out@ == spec_config_buffers(b@).take(i as int),
        decreases n - i,
    {
        proof {
            assert(CONFIG_ENTRY_BYTES * (i as int) + CONFIG_ENTRY_BYTES == CONFIG_ENTRY_BYTES * (
            i + 1 as int));
            assert(CONFIG_ENTRY_BYTES * (i + 1 as int) <= CONFIG_ENTRY_BYTES * (n as int))
                by (nonlinear_arith)
                requires
                    i + 1 <= n,
            ;
        }
        let off = CONFIG_HEADER_BYTES + CONFIG_ENTRY_BYTES * i;
        let channels = u32_le_at(b, off);
        let byte_size = u32_le_at(b, off + 4);
        out.push(StreamBuffer { channels, byte_size });
        i = i + 1;
        proof {
            assert(out@ =~= spec_config_buffers(b@).take(i as int));
        }
    }
    proof {
        assert(spec_config_buffers(b@).take(n as int) =~= spec_config_buffers(b@));
    }
    out
}

/// Total of the per-sub-buffer channel counts.
pub open spec fn spec_sum_channels(s: Seq<StreamBuffer>) -> int
    decreases s.len(),
{
    if s.len() == 0 {
        0
    } else {
        spec_sum_channels(s.drop_last()) + s.last().channels
    }
}

/// Every prefix of a sub-buffer list totals at most what the whole list does.
pub proof fn lemma_sum_channels_prefix(s: Seq<StreamBuffer>, i: int)
    requires
        0 <= i <= s.len(),
    ensures
        spec_sum_channels(s.take(i)) <= spec_sum_channels(s),
    decreases s.len() - i,
{
    if i == s.len() {
        assert(s.take(i) =~= s);
    } else {
        lemma_sum_channels_prefix(s, i + 1);
        assert(s.take(i + 1).drop_last() =~= s.take(i));
        assert(s.take(i + 1).last() == s[i]);
    }
}

/// Sums the channel counts of a sub-buffer list.
pub fn sum_channels(buffers: &Vec<StreamBuffer>) -> (r: u32)
    requires
        spec_sum_channels(buffers@) <= u32::MAX,
    ensures
        r == spec_sum_channels(buffers@),
{
    let mut count: u32 = 0;
    let mut i: usize = 0;
    while i < buffers.len()
        invariant
            i <= buffers@.len(),
            spec_sum_channels(buffers@) <= u32::MAX,
            count == spec_sum_channels(buffers@.take(i as int)),
        decreases buffers@.len() - i,
    {
        proof {
            lemma_sum_channels_prefix(buffers@, i + 1);
            assert(buffers@.take(i + 1).drop_last() =~= buffers@.take(i as int));
            assert(buffers@.take(i + 1).last() == buffers@[i as int]);
        }
        count = count + buffers[i].channels;
        i = i + 1;
    }
    proof {
        assert(buffers@.take(i as int) =~= buffers@);
    }
    count
}

} // verus!
