//! The two fixed headers of a capture and the variable descriptors, with the
//! byte-level layout of each: all integers little-endian, text fields decoded
//! from the CP1252 single-byte code page and stripped of NUL padding.

use vstd::prelude::*;
use yore::code_pages::CP1252;

verus! {

/// Size in bytes of the capture header region.
pub const HEADER_BYTES_SIZE: usize = 112;

/// Absolute offset of the disk summary header (also the size of its meaningful prefix).
pub const DISK_HEADER_BYTES_SIZE: usize = 32;

/// Size in bytes of one variable descriptor record.
pub const VAR_HEADER_BYTES_SIZE: usize = 144;

/// The unsigned 32-bit little-endian integer at byte offset `off` of `d`.
pub open spec fn spec_u32_at(d: Seq<u8>, off: int) -> u32 {
    (d[off] + d[off + 1] * 0x100 + d[off + 2] * 0x1_0000 + d[off + 3] * 0x100_0000) as u32
}

/// The signed 32-bit little-endian integer at byte offset `off` of `d`
/// (the unsigned value reinterpreted as two's complement).
pub open spec fn spec_i32_at(d: Seq<u8>, off: int) -> i32 {
    spec_u32_at(d, off) as i32
}

/// The unsigned 64-bit little-endian integer at byte offset `off` of `d`.
pub open spec fn spec_u64_at(d: Seq<u8>, off: int) -> u64 {
    (d[off] + d[off + 1] * 0x100 + d[off + 2] * 0x1_0000 + d[off + 3] * 0x100_0000 + d[off + 4]
        * 0x1_0000_0000 + d[off + 5] * 0x100_0000_0000 + d[off + 6] * 0x1_0000_0000_0000 + d[off
        + 7] * 0x100_0000_0000_0000) as u64
}

pub fn read_u32_at(data: &[u8], off: usize) -> (r: u32)
    requires
        off + 4 <= data@.len(),
    ensures
        r == spec_u32_at(data@, off as int),
{
    (data[off] as u32) + (data[off + 1] as u32) * 0x100 + (data[off + 2] as u32) * 0x1_0000 + (
    data[off + 3] as u32) * 0x100_0000
}

pub fn read_i32_at(data: &[u8], off: usize) -> (r: i32)
    requires
        off + 4 <= data@.len(),
    ensures
        r == spec_i32_at(data@, off as int),
{
    let u = read_u32_at(data, off);
    #[verifier::truncate] (u as i32)
}

pub fn read_u64_at(data: &[u8], off: usize) -> (r: u64)
    requires
        off + 8 <= data@.len(),
    ensures
        r == spec_u64_at(data@, off as int),
{
    (data[off] as u64) + (data[off + 1] as u64) * 0x100 + (data[off + 2] as u64) * 0x1_0000 + (
    data[off + 3] as u64) * 0x100_0000 + (data[off + 4] as u64) * 0x1_0000_0000 + (data[off + 5]
        as u64) * 0x100_0000_0000 + (data[off + 6] as u64) * 0x1_0000_0000_0000 + (data[off + 7]
        as u64) * 0x100_0000_0000_0000
}

/// The character that the CP1252 code page assigns to one byte.
pub uninterp spec fn cp1252_char(b: u8) -> char;

/// CP1252 text decoding of a whole byte sequence, one character per byte.
pub open spec fn cp1252_seq(b: Seq<u8>) -> Seq<char> {
    b.map_values(|x: u8| cp1252_char(x))
}

/// Relies on yore's `CP1252::decode`: every byte maps to exactly one
/// character through the code page's 256-entry table; the first 128 entries
/// are the ASCII characters themselves, and only byte zero maps to NUL.
#[verifier::external_body]
pub(crate) fn cp1252_decode(bytes: &Vec<u8>) -> (r: String)
    ensures
        r@.len() == bytes@.len(),
        forall|i: int| 0 <= i < bytes@.len() ==> r@[i] == cp1252_char(bytes@[i]),
        forall|i: int| 0 <= i < bytes@.len() && bytes@[i] < 0x80 ==> r@[i] == bytes@[i] as char,
        forall|i: int| 0 <= i < bytes@.len() ==> ((r@[i] == '\0') <==> (bytes@[i] == 0)),
{
    CP1252.decode(bytes).into_owned()
}

/// One fixed-width text field of a descriptor: the bytes of `[start, end)`
/// with all NUL padding removed, decoded through the code page.
pub open spec fn spec_text_field(d: Seq<u8>, start: int, end: int) -> Seq<char> {
    cp1252_seq(d.subrange(start, end).filter(|b: u8| b != 0))
}

proof fn lemma_filter_non_nul_push(s: Seq<u8>, x: u8)
    ensures
        s.push(x).filter(|b: u8| b != 0) == if x != 0 {
            s.filter(|b: u8| b != 0).push(x)
        } else {
            s.filter(|b: u8| b != 0)
        },
{
    reveal(Seq::filter);
    assert(s.push(x).drop_last() =~= s);
}

/// The bytes of `data[start..end]` that are not NUL, in order.
fn non_nul_bytes(data: &[u8], start: usize, end: usize) -> (r: Vec<u8>)
    requires
        start <= end <= data@.len(),
    ensures
        r@ == data@.subrange(start as int, end as int).filter(|b: u8| b != 0),
{
    let mut out: Vec<u8> = Vec::new();
    let mut i: usize = start;
    proof {
        assert(data@.subrange(start as int, start as int) =~= Seq::<u8>::empty());
        reveal(Seq::filter);
    }
    while i < end
        invariant
            start <= i <= end <= data@.len(),
            out@ == data@.subrange(start as int, i as int).filter(|b: u8| b != 0),
        decreases end - i,
    {
        let b = data[i];
        proof {
            assert(data@.subrange(start as int, i + 1) =~= data@.subrange(
                start as int,
                i as int,
            ).push(data@[i as int]));
            lemma_filter_non_nul_push(data@.subrange(start as int, i as int), data@[i as int]);
        }
        if b != 0 {
            out.push(b);
        }
        i = i + 1;
    }
    out
}

/// Decode one fixed-width text field of `data` into a string.
fn decode_text_field(data: &[u8], start: usize, end: usize) -> (r: String)
    requires
        start <= end <= data@.len(),
    ensures
        r@ == spec_text_field(data@, start as int, end as int),
{
    let stripped = non_nul_bytes(data, start, end);
    let s = cp1252_decode(&stripped);
    proof {
        assert(s@ =~= cp1252_seq(stripped@));
    }
    s
}

/// The capture header: the fixed record at offset 0 that locates every other
/// region of the capture.
#[derive(Clone, Copy, Debug, PartialEq, Eq, Structural)]
pub struct Header {
    pub version: i32,
    pub status: i32,
    pub tick_rate: i32,
    pub sesion_info_update: i32,
    pub sesion_info_offset: i32,
    pub sesion_info_length: i32,
    pub num_vars: i32,
    pub var_header_offset: i32,
    pub num_buf: i32,
    pub buf_len: i32,
    pub buf_offset: i32,
}

impl Header {
    /// The header value laid out in the first 56 bytes of `d`.
    pub open spec fn spec_from_bytes(d: Seq<u8>) -> Header {
        Header {
            version: spec_i32_at(d, 0),
            status: spec_i32_at(d, 4),
            tick_rate: spec_i32_at(d, 8),
            sesion_info_update: spec_i32_at(d, 12),
            sesion_info_length: spec_i32_at(d, 16),
            sesion_info_offset: spec_i32_at(d, 20),
            num_vars: spec_i32_at(d, 24),
            var_header_offset: spec_i32_at(d, 28),
            num_buf: spec_i32_at(d, 32),
            buf_len: spec_i32_at(d, 36),
            buf_offset: spec_i32_at(d, 52),
        }
    }

    /// Decode the capture header from its byte region.
    pub fn from_bytes(data: &Vec<u8>) -> (h: Header)
        requires
            data@.len() >= 56,
        ensures
            h == Header::spec_from_bytes(data@),
    {
        let d = data.as_slice();
        Header {
            version: read_i32_at(d, 0),
            status: read_i32_at(d, 4),
            tick_rate: read_i32_at(d, 8),
            sesion_info_update: read_i32_at(d, 12),
            sesion_info_length: read_i32_at(d, 16),
            sesion_info_offset: read_i32_at(d, 20),
            num_vars: read_i32_at(d, 24),
            var_header_offset: read_i32_at(d, 28),
            num_buf: read_i32_at(d, 32),
            buf_len: read_i32_at(d, 36),
            buf_offset: read_i32_at(d, 52),
        }
    }
}

/// The disk summary header: informational times and counts recorded after the
/// capture ended. The wall-clock fields are IEEE-754 values kept as raw bits.
#[derive(Clone, Copy, Debug, PartialEq, Eq, Structural)]
pub struct DiskHeader {
    /// Bits of the IEEE-754 single holding the capture start date.
    pub start_date_bits: u32,
    /// Bits of the IEEE-754 double holding the capture start time.
    pub start_time_bits: u64,
    /// Bits of the IEEE-754 double holding the capture end time.
    pub end_time_bits: u64,
    pub lap_count: i32,
    pub record_count: i32,
}

impl DiskHeader {
    /// The disk summary header laid out in the first 32 bytes of `d`.
    pub open spec fn spec_from_bytes(d: Seq<u8>) -> DiskHeader {
        DiskHeader {
            start_date_bits: spec_u32_at(d, 0),
            start_time_bits: spec_u64_at(d, 8),
            end_time_bits: spec_u64_at(d, 16),
            lap_count: spec_i32_at(d, 24),
            record_count: spec_i32_at(d, 28),
        }
    }

    /// Decode the disk summary header from its byte region.
    pub fn from_bytes(data: &Vec<u8>) -> (h: DiskHeader)
        requires
            data@.len() >= 32,
        ensures
            h == DiskHeader::spec_from_bytes(data@),
    {
        let d = data.as_slice();
        DiskHeader {
            start_date_bits: read_u32_at(d, 0),
            start_time_bits: read_u64_at(d, 8),
            end_time_bits: read_u64_at(d, 16),
            lap_count: read_i32_at(d, 24),
            record_count: read_i32_at(d, 28),
        }
    }
}

/// One variable descriptor: the type tag, byte offset and element count of a
/// telemetry channel within a tick record, with its textual name, description
/// and unit.
#[derive(Debug)]
pub struct VarHeader {
    pub var_type: i32,
    pub offset: i32,
    pub count: i32,
    pub count_as_time: i8,
    pub name: String,
    pub description: String,
    pub unit: String,
}

impl VarHeader {
    /// Field-by-field agreement with the 144-byte descriptor layout of `d`.
    pub open spec fn matches_bytes(self, d: Seq<u8>) -> bool {
        &&& self.var_type == spec_i32_at(d, 0)
        &&& self.offset == spec_i32_at(d, 4)
        &&& self.count == spec_i32_at(d, 8)
        &&& self.count_as_time == d[12] as i8
        &&& self.name@ == spec_text_field(d, 16, 48)
        &&& self.description@ == spec_text_field(d, 48, 112)
        &&& self.unit@ == spec_text_field(d, 112, 144)
    }

    /// Decode one descriptor from its 144-byte record.
    pub fn from_bytes(data: &Vec<u8>) -> (v: VarHeader)
        requires
            data@.len() == VAR_HEADER_BYTES_SIZE,
        ensures
            v.matches_bytes(data@),
    {
        let d = data.as_slice();
        let b12 = d[12];
        VarHeader {
            var_type: read_i32_at(d, 0),
            offset: read_i32_at(d, 4),
            count: read_i32_at(d, 8),
            count_as_time: #[verifier::truncate] (b12 as i8),
            name: decode_text_field(d, 16, 48),
            description: decode_text_field(d, 48, 112),
            unit: decode_text_field(d, 112, 144),
        }
    }
}

impl Clone for VarHeader {
    /// An exact copy: every field of the clone equals the original's.
    fn clone(&self) -> (r: Self)
        ensures
            r == *self,
    {
        VarHeader {
            var_type: self.var_type,
            offset: self.offset,
            count: self.count,
            count_as_time: self.count_as_time,
            name: self.name.clone(),
            description: self.description.clone(),
            unit: self.unit.clone(),
        }
    }
}

} // verus!
