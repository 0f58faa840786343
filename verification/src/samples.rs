//! Tick records and their typed decoding: a `Sample` is one fixed-stride
//! block of the tick-record region, and `Samples` walks the region lazily,
//! one seek-and-read per record.

use vstd::prelude::*;
use crate::headers::{spec_i32_at, spec_u32_at, spec_u64_at, read_i32_at, read_u32_at, read_u64_at, VarHeader};
use crate::{DecodeError, ReadSeek};

verus! {

/// A value decoded from one channel of one tick record. The floating-point
/// variants keep the raw IEEE-754 bits.
#[derive(Clone, Copy, Debug, PartialEq, Eq, Structural)]
pub enum SampleValue {
    Char(char),
    Bool(bool),
    Int(i32),
    BitField(u32),
    /// Raw bits of an IEEE-754 single.
    Float32(u32),
    /// Raw bits of an IEEE-754 double.
    Float64(u64),
}

/// One tick record: a fixed-stride block of bytes.
#[derive(Debug)]
pub struct Sample {
    data: Vec<u8>,
}

impl View for Sample {
    type V = Seq<u8>;

    closed spec fn view(&self) -> Seq<u8> {
        self.data@
    }
}

impl SampleValue {
    /// The character value, or nothing if this is not a character.
    pub fn as_char(&self) -> (r: Option<char>)
        ensures
            r == match *self {
                SampleValue::Char(x) => Some(x),
                _ => None::<char>,
            },
    {
        if let SampleValue::Char(x) = self {
            Some(*x)
        } else {
            None
        }
    }

    /// The boolean value, or nothing if this is not a boolean.
    pub fn as_bool(&self) -> (r: Option<bool>)
        ensures
            r == match *self {
                SampleValue::Bool(x) => Some(x),
                _ => None::<bool>,
            },
    {
        if let SampleValue::Bool(x) = self {
            Some(*x)
        } else {
            None
        }
    }

    /// The signed integer value, or nothing if this is not an integer.
    pub fn as_int(&self) -> (r: Option<i32>)
        ensures
            r == match *self {
                SampleValue::Int(x) => Some(x),
                _ => None::<i32>,
            },
    {
        if let SampleValue::Int(x) = self {
            Some(*x)
        } else {
            None
        }
    }

    /// The bit-field mask, or nothing if this is not a bit field.
    pub fn as_bitfield(&self) -> (r: Option<u32>)
        ensures
            r == match *self {
                SampleValue::BitField(x) => Some(x),
                _ => None::<u32>,
            },
    {
        if let SampleValue::BitField(x) = self {
            Some(*x)
        } else {
            None
        }
    }

    /// The raw bits of the IEEE-754 single, or nothing if this is not one.
    pub fn as_float_32_bits(&self) -> (r: Option<u32>)
        ensures
            r == match *self {
                SampleValue::Float32(x) => Some(x),
                _ => None::<u32>,
            },
    {
        if let SampleValue::Float32(x) = self {
            Some(*x)
        } else {
            None
        }
    }

    /// The raw bits of the IEEE-754 double, or nothing if this is not one.
    pub fn as_float_64_bits(&self) -> (r: Option<u64>)
        ensures
            r == match *self {
                SampleValue::Float64(x) => Some(x),
                _ => None::<u64>,
            },
    {
        if let SampleValue::Float64(x) = self {
            Some(*x)
        } else {
            None
        }
    }
}

/// The value a descriptor extracts from one record's bytes: dispatch on the
/// type tag, bounds-check the access, then decode little-endian at the
/// descriptor's offset. Character and boolean live at `offset + 1`, a quirk
/// of the source format that is preserved deliberately.
pub open spec fn spec_decode(d: Seq<u8>, var_type: i32, offset: i32) -> Result<
    SampleValue,
    DecodeError,
> {
    let off = offset as int;
    if var_type == 0 {
        if 0 <= off && off + 2 <= d.len() {
            Ok(SampleValue::Char(d[off + 1] as char))
        } else {
            Err(DecodeError::OutOfBounds)
        }
    } else if var_type == 1 {
        if 0 <= off && off + 2 <= d.len() {
            Ok(SampleValue::Bool(d[off + 1] != 0))
        } else {
            Err(DecodeError::OutOfBounds)
        }
    } else if var_type == 2 {
        if 0 <= off && off + 4 <= d.len() {
            Ok(SampleValue::Int(spec_i32_at(d, off)))
        } else {
            Err(DecodeError::OutOfBounds)
        }
    } else if var_type == 3 {
        if 0 <= off && off + 4 <= d.len() {
            Ok(SampleValue::BitField(spec_u32_at(d, off)))
        } else {
            Err(DecodeError::OutOfBounds)
        }
    } else if var_type == 4 {
        if 0 <= off && off + 4 <= d.len() {
            Ok(SampleValue::Float32(spec_u32_at(d, off)))
        } else {
            Err(DecodeError::OutOfBounds)
        }
    } else if var_type == 5 {
        if 0 <= off && off + 8 <= d.len() {
            Ok(SampleValue::Float64(spec_u64_at(d, off)))
        } else {
            Err(DecodeError::OutOfBounds)
        }
    } else {
        Err(DecodeError::UnsupportedType)
    }
}

impl Sample {
    /// Wrap one record's bytes.
    pub fn new(data: Vec<u8>) -> (s: Sample)
        ensures
            s@ == data@,
    {
        Sample { data }
    }

    /// Extract the value of the channel `var` describes from this record.
    pub fn get_by_header(&self, var: &VarHeader) -> (r: Result<SampleValue, DecodeError>)
        ensures
            r == spec_decode(self@, var.var_type, var.offset),
    {
        if var.var_type < 0 || var.var_type > 5 {
            return Err(DecodeError::UnsupportedType);
        }
        if var.offset < 0 {
            return Err(DecodeError::OutOfBounds);
        }
        let off = var.offset as usize;
        let n = self.data.len();
        let d = self.data.as_slice();
        match var.var_type {
            0 => {
                if off + 2 <= n {
                    Ok(SampleValue::Char(d[off + 1] as char))
                } else {
                    Err(DecodeError::OutOfBounds)
                }
            },
            1 => {
                if off + 2 <= n {
                    Ok(SampleValue::Bool(d[off + 1] != 0))
                } else {
                    Err(DecodeError::OutOfBounds)
                }
            },
            2 => {
                if off + 4 <= n {
                    Ok(SampleValue::Int(read_i32_at(d, off)))
                } else {
                    Err(DecodeError::OutOfBounds)
                }
            },
            3 => {
                if off + 4 <= n {
                    Ok(SampleValue::BitField(read_u32_at(d, off)))
                } else {
                    Err(DecodeError::OutOfBounds)
                }
            },
            4 => {
                if off + 4 <= n {
                    Ok(SampleValue::Float32(read_u32_at(d, off)))
                } else {
                    Err(DecodeError::OutOfBounds)
                }
            },
            _ => {
                if off + 8 <= n {
                    Ok(SampleValue::Float64(read_u64_at(d, off)))
                } else {
                    Err(DecodeError::OutOfBounds)
                }
            },
        }
    }
}

/// Number of complete `stride`-sized blocks that fit in `[off, len)`:
/// the count of records a full walk of the region yields.
pub open spec fn spec_num_blocks(len: int, off: int, stride: int) -> int
    decreases len - off,
{
    if stride >= 1 && off + stride <= len {
        1 + spec_num_blocks(len, off + stride, stride)
    } else {
        0
    }
}

pub proof fn lemma_num_blocks_nonneg(len: int, off: int, stride: int)
    ensures
        spec_num_blocks(len, off, stride) >= 0,
    decreases len - off,
{
    if stride >= 1 && off + stride <= len {
        lemma_num_blocks_nonneg(len, off + stride, stride);
    }
}

/// A lazy walk of the tick-record region: holds the region offset and record
/// stride copied from the capture header, a zero-based cursor, and exclusive
/// access to the byte source for its lifetime.
pub struct Samples<'a, S: ReadSeek> {
    pub file: &'a mut S,
    pub length: i32,
    pub buf_offset: i32,
    pub current: i32,
}

impl<'a, S: ReadSeek> Samples<'a, S> {
    /// The content of the underlying byte source.
    pub open spec fn src(&self) -> Seq<u8> {
        (*self.file).data()
    }

    /// Whether reads within the source are guaranteed to succeed.
    pub open spec fn src_reliable(&self) -> bool {
        (*self.file).reliable()
    }

    /// The region parameters and cursor are in range.
    pub open spec fn spec_well_formed(&self) -> bool {
        self.length >= 0 && self.buf_offset >= 0 && 0 <= self.current < i32::MAX
    }

    /// Byte position of the block the cursor points at.
    pub open spec fn spec_pos(&self) -> int {
        self.buf_offset + self.current * self.length
    }

    /// A complete block lies at the cursor's position.
    pub open spec fn spec_has_block(&self) -> bool {
        self.spec_well_formed() && self.spec_pos() + self.length <= self.src().len()
    }

    /// Advance by one record: seek to the cursor's position, read one stride.
    /// The sequence ends, without error, on the first read that cannot return
    /// a complete block.
    pub fn next(&mut self) -> (r: Option<Sample>)
        ensures
            final(self).length == old(self).length,
            final(self).buf_offset == old(self).buf_offset,
            final(self).src() == old(self).src(),
            final(self).src_reliable() == old(self).src_reliable(),
            r matches Some(s) ==> old(self).spec_has_block() && final(self).current == old(
                self,
            ).current + 1 && s@ == old(self).src().subrange(
                old(self).spec_pos(),
                old(self).spec_pos() + old(self).length,
            ),
            r is None ==> final(self).current == old(self).current,
            old(self).src_reliable() ==> (r is Some <==> old(self).spec_has_block()),
    {
        if self.length < 0 || self.buf_offset < 0 || self.current < 0 || self.current
            == i32::MAX {
            return None;
        }
        proof {
            assert(self.current as i64 * self.length as i64 <= 0x7fff_ffffi64 * 0x7fff_ffffi64)
                by (nonlinear_arith)
                requires
                    0 <= self.current <= 0x7fff_ffff,
                    0 <= self.length <= 0x7fff_ffff,
            ;
        }
        let from: i64 = self.buf_offset as i64 + (self.current as i64) * (self.length as i64);
        match self.file.read_at(from as u64, self.length as usize) {
            Ok(data) => {
                self.current = self.current + 1;
                Some(Sample { data })
            },
            Err(_) => None,
        }
    }

    /// Walk the whole region from cursor zero and collect every record.
    /// On a reliable source this yields exactly one record per complete
    /// block that the region holds, in on-disk order.
    pub fn collect_vec(&mut self) -> (r: Vec<Sample>)
        requires
            old(self).length >= 1,
            old(self).buf_offset >= 0,
            old(self).current == 0,
        ensures
            final(self).src() == old(self).src(),
            final(self).src_reliable() == old(self).src_reliable(),
            final(self).length == old(self).length,
            final(self).buf_offset == old(self).buf_offset,
            final(self).current == r@.len(),
            r@.len() <= spec_num_blocks(
                old(self).src().len() as int,
                old(self).buf_offset as int,
                old(self).length as int,
            ),
            forall|k: int|
                0 <= k < r@.len() ==> r@[k]@ == old(self).src().subrange(
                    old(self).buf_offset + k * old(self).length,
                    old(self).buf_offset + k * old(self).length + old(self).length,
                ),
            old(self).src_reliable() && spec_num_blocks(
                old(self).src().len() as int,
                old(self).buf_offset as int,
                old(self).length as int,
            ) < i32::MAX ==> r@.len() == spec_num_blocks(
                old(self).src().len() as int,
                old(self).buf_offset as int,
                old(self).length as int,
            ),
    {
        let ghost len: int = self.src().len() as int;
        let ghost off: int = self.buf_offset as int;
        let ghost stride: int = self.length as int;
        let mut out: Vec<Sample> = Vec::new();
        proof {
            lemma_num_blocks_nonneg(len, off, stride);
        }
        loop
            invariant
                len == self.src().len(),
                off == self.buf_offset,
                stride == self.length,
                self.src() == old(self).src(),
                self.src_reliable() == old(self).src_reliable(),
                stride >= 1,
                off >= 0,
                0 <= self.current,
                out@.len() == self.current,
                self.current + spec_num_blocks(len, off + self.current * stride, stride)
                    == spec_num_blocks(len, off, stride),
                spec_num_blocks(len, off + self.current * stride, stride) >= 0,
                forall|k: int|
                    0 <= k < out@.len() ==> out@[k]@ == self.src().subrange(
                        off + k * stride,
                        off + k * stride + stride,
                    ),
            ensures
                self.src_reliable() ==> !self.spec_has_block(),
            decreases spec_num_blocks(len, off + self.current * stride, stride),
        {
            let ghost c: int = self.current as int;
            match self.next() {
                Some(s) => {
                    proof {
                        assert((c + 1) * stride == c * stride + stride) by (nonlinear_arith);
                        lemma_num_blocks_nonneg(len, off + (c + 1) * stride, stride);
                    }
                    out.push(s);
                },
                None => {
                    break;
                },
            }
        }
        proof {
            if self.src_reliable() && spec_num_blocks(len, off, stride) < i32::MAX {
                assert(self.current <= spec_num_blocks(len, off, stride));
                assert(self.spec_well_formed());
                assert(spec_num_blocks(len, off + self.current * stride, stride) == 0);
            }
        }
        out
    }
}

} // verus!
