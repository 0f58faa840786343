//! The event counterpart of the sample API: the same fixed-stride blocks and
//! the same typed decoding, under the names used by event consumers.

use vstd::prelude::*;
use crate::headers::{read_i32_at, read_u32_at, read_u64_at, VarHeader};
use crate::samples::{spec_decode, SampleValue};
use crate::{DecodeError, ReadSeek};

verus! {

/// A value decoded from one channel of one event record. The floating-point
/// variants keep the raw IEEE-754 bits.
#[derive(Clone, Copy, Debug, PartialEq, Eq, Structural)]
pub enum EventValue {
    Char(char),
    Bool(bool),
    Int(i32),
    BitField(u32),
    /// Raw bits of an IEEE-754 single.
    Float32(u32),
    /// Raw bits of an IEEE-754 double.
    Float64(u64),
}

/// The event value carrying the same payload as a sample value.
pub open spec fn spec_event_of_sample(v: SampleValue) -> EventValue {
    match v {
        SampleValue::Char(x) => EventValue::Char(x),
        SampleValue::Bool(x) => EventValue::Bool(x),
        SampleValue::Int(x) => EventValue::Int(x),
        SampleValue::BitField(x) => EventValue::BitField(x),
        SampleValue::Float32(x) => EventValue::Float32(x),
        SampleValue::Float64(x) => EventValue::Float64(x),
    }
}

impl EventValue {
    /// The character value, or nothing if this is not a character.
    pub fn as_char(&self) -> (r: Option<char>)
        ensures
            r == match *self {
                EventValue::Char(x) => Some(x),
                _ => None::<char>,
            },
    {
        if let EventValue::Char(x) = self {
            Some(*x)
        } else {
            None
        }
    }

    /// The boolean value, or nothing if this is not a boolean.
    pub fn as_bool(&self) -> (r: Option<bool>)
        ensures
            r == match *self {
                EventValue::Bool(x) => Some(x),
                _ => None::<bool>,
            },
    {
        if let EventValue::Bool(x) = self {
            Some(*x)
        } else {
            None
        }
    }

    /// The signed integer value, or nothing if this is not an integer.
    pub fn as_int(&self) -> (r: Option<i32>)
        ensures
            r == match *self {
                EventValue::Int(x) => Some(x),
                _ => None::<i32>,
            },
    {
        if let EventValue::Int(x) = self {
            Some(*x)
        } else {
            None
        }
    }

    /// The bit-field mask, or nothing if this is not a bit field.
    pub fn as_bitfield(&self) -> (r: Option<u32>)
        ensures
            r == match *self {
                EventValue::BitField(x) => Some(x),
                _ => None::<u32>,
            },
    {
        if let EventValue::BitField(x) = self {
            Some(*x)
        } else {
            None
        }
    }

    /// The raw bits of the IEEE-754 single, or nothing if this is not one.
    pub fn as_float_32_bits(&self) -> (r: Option<u32>)
        ensures
            r == match *self {
                EventValue::Float32(x) => Some(x),
                _ => None::<u32>,
            },
    {
        if let EventValue::Float32(x) = self {
            Some(*x)
        } else {
            None
        }
    }

    /// The raw bits of the IEEE-754 double, or nothing if this is not one.
    pub fn as_float_64_bits(&self) -> (r: Option<u64>)
        ensures
            r == match *self {
                EventValue::Float64(x) => Some(x),
                _ => None::<u64>,
            },
    {
        if let EventValue::Float64(x) = self {
            Some(*x)
        } else {
            None
        }
    }
}

/// One event record: a fixed-stride block of bytes.
#[derive(Debug)]
pub struct Event {
    data: Vec<u8>,
}

impl View for Event {
    type V = Seq<u8>;

    closed spec fn view(&self) -> Seq<u8> {
        self.data@
    }
}

impl Event {
    /// Wrap one record's bytes.
    pub fn new(data: Vec<u8>) -> (e: Event)
        ensures
            e@ == data@,
    {
        Event { data }
    }

    /// Extract the value of the channel `var` describes from this record,
    /// by the same decode rule that samples follow.
    pub fn get_by_header(&self, var: &VarHeader) -> (r: Result<EventValue, DecodeError>)
        ensures
            r == match spec_decode(self@, var.var_type, var.offset) {
                Ok(v) => Ok::<EventValue, DecodeError>(spec_event_of_sample(v)),
                Err(e) => Err::<EventValue, DecodeError>(e),
            },
    {
        if var.var_type < 0 || var.var_type > 5 {
            return Err(DecodeError::UnsupportedType);
        }
        if var.offset < 0 {
            return Err(DecodeError::OutOfBounds);
        }
        let off = var.offset as usize;
        let n = self.data.len();
        let d = self.data.as_slice();
        match var.var_type {
            0 => {
                if off + 2 <= n {
                    Ok(EventValue::Char(d[off + 1] as char))
                } else {
                    Err(DecodeError::OutOfBounds)
                }
            },
            1 => {
                if off + 2 <= n {
                    Ok(EventValue::Bool(d[off + 1] != 0))
                } else {
                    Err(DecodeError::OutOfBounds)
                }
            },
            2 => {
                if off + 4 <= n {
                    Ok(EventValue::Int(read_i32_at(d, off)))
                } else {
                    Err(DecodeError::OutOfBounds)
                }
            },
            3 => {
                if off + 4 <= n {
                    Ok(EventValue::BitField(read_u32_at(d, off)))
                } else {
                    Err(DecodeError::OutOfBounds)
                }
            },
            4 => {
                if off + 4 <= n {
                    Ok(EventValue::Float32(read_u32_at(d, off)))
                } else {
                    Err(DecodeError::OutOfBounds)
                }
            },
            _ => {
                if off + 8 <= n {
                    Ok(EventValue::Float64(read_u64_at(d, off)))
                } else {
                    Err(DecodeError::OutOfBounds)
                }
            },
        }
    }
}

/// A lazy walk of the tick-record region yielding events: the same protocol
/// as the sample walk, with exclusive access to the byte source.
pub struct Events<'a, S: ReadSeek> {
    pub file: &'a mut S,
    pub length: i32,
    pub buf_offset: i32,
    pub current: i32,
}

impl<'a, S: ReadSeek> Events<'a, S> {
    /// The content of the underlying byte source.
    pub open spec fn src(&self) -> Seq<u8> {
        (*self.file).data()
    }

    /// Whether reads within the source are guaranteed to succeed.
    pub open spec fn src_reliable(&self) -> bool {
        (*self.file).reliable()
    }

    /// The region parameters and cursor are in range.
    pub open spec fn spec_well_formed(&self) -> bool {
        self.length >= 0 && self.buf_offset >= 0 && 0 <= self.current < i32::MAX
    }

    /// Byte position of the block the cursor points at.
    pub open spec fn spec_pos(&self) -> int {
        self.buf_offset + self.current * self.length
    }

    /// A complete block lies at the cursor's position.
    pub open spec fn spec_has_block(&self) -> bool {
        self.spec_well_formed() && self.spec_pos() + self.length <= self.src().len()
    }

    /// Advance by one record: seek to the cursor's position, read one stride.
    /// The sequence ends, without error, on the first read that cannot return
    /// a complete block.
    pub fn next(&mut self) -> (r: Option<Event>)
        ensures
            final(self).length == old(self).length,
            final(self).buf_offset == old(self).buf_offset,
            final(self).src() == old(self).src(),
            final(self).src_reliable() == old(self).src_reliable(),
            r matches Some(e) ==> old(self).spec_has_block() && final(self).current == old(
                self,
            ).current + 1 && e@ == old(self).src().subrange(
                old(self).spec_pos(),
                old(self).spec_pos() + old(self).length,
            ),
            r is None ==> final(self).current == old(self).current,
            old(self).src_reliable() ==> (r is Some <==> old(self).spec_has_block()),
    {
        if self.length < 0 || self.buf_offset < 0 || self.current < 0 || self.current
            == i32::MAX {
            return None;
        }
        proof {
            assert(self.current as i64 * self.length as i64 <= 0x7fff_ffffi64 * 0x7fff_ffffi64)
                by (nonlinear_arith)
                requires
                    0 <= self.current <= 0x7fff_ffff,
                    0 <= self.length <= 0x7fff_ffff,
            ;
        }
        let from: i64 = self.buf_offset as i64 + (self.current as i64) * (self.length as i64);
        match self.file.read_at(from as u64, self.length as usize) {
            Ok(data) => {
                self.current = self.current + 1;
                Some(Event { data })
            },
            Err(_) => None,
        }
    }
}

} // verus!
