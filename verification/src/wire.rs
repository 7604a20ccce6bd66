//! The mathematical model of a decode in progress.
//!
//! A [`Wire`] is a datagram, a position in it and the first failure met so far.
//! Every read is a function from one such state to the next state and a value.
//! Once a state has failed it absorbs every later read unchanged, so the layout
//! of a record can be written as a plain sequence of reads: the state that comes
//! out at the end carries the first failure, and the place where it happened.

use vstd::prelude::*;
use crate::error::DecodeError;
use crate::error::FieldName;

verus! {

/// An IEEE-754 single precision number, kept as the 32 bits that encode it.
#[derive(Debug, Clone, Copy, PartialEq, Eq, Hash, Structural)]
pub struct F32Bits {
    pub bits: u32,
}

/// An IEEE-754 double precision number, kept as the 64 bits that encode it.
#[derive(Debug, Clone, Copy, PartialEq, Eq, Hash, Structural)]
pub struct F64Bits {
    pub bits: u64,
}

/// Bit pattern of `1.0`.
pub const F32_ONE: u32 = 0x3F80_0000;

/// Bit pattern of `-0.0`; patterns above it carry the sign bit.
pub const F32_NEGATIVE_ZERO: u32 = 0x8000_0000;

/// Bit pattern of `-1.0`.
pub const F32_MINUS_ONE: u32 = 0xBF80_0000;

impl F32Bits {
    /// The number lies in `0.0 ..= 1.0`.
    ///
    /// Among the patterns without the sign bit, numbers grow with their
    /// patterns, and infinity and the NaNs lie above `1.0`. Of the patterns
    /// with the sign bit only `-0.0` is not below zero.
    pub open spec fn in_unit_range(self) -> bool {
        self.bits <= F32_ONE || self.bits == F32_NEGATIVE_ZERO
    }

    /// The number lies in `0.0 .. 1.0`, the upper end left out.
    pub open spec fn below_one(self) -> bool {
        self.bits < F32_ONE || self.bits == F32_NEGATIVE_ZERO
    }

    /// The number lies in `-1.0 ..= 1.0`.
    ///
    /// With the sign bit set, magnitudes grow with the patterns, so the
    /// numbers from `-0.0` down to `-1.0` are the patterns from
    /// `F32_NEGATIVE_ZERO` up to `F32_MINUS_ONE`.
    pub open spec fn in_signed_unit_range(self) -> bool {
        self.bits <= F32_ONE || (F32_NEGATIVE_ZERO <= self.bits && self.bits <= F32_MINUS_ONE)
    }

    /// Whether the number lies in `0.0 ..= 1.0`.
    pub fn is_in_unit_range(&self) -> (yes: bool)
        ensures
            yes == self.in_unit_range(),
    {
        self.bits <= F32_ONE || self.bits == F32_NEGATIVE_ZERO
    }

    /// Whether the number lies in `0.0 .. 1.0`.
    pub fn is_below_one(&self) -> (yes: bool)
        ensures
            yes == self.below_one(),
    {
        self.bits < F32_ONE || self.bits == F32_NEGATIVE_ZERO
    }

    /// Whether the number lies in `-1.0 ..= 1.0`.
    pub fn is_in_signed_unit_range(&self) -> (yes: bool)
        ensures
            yes == self.in_signed_unit_range(),
    {
        self.bits <= F32_ONE || (F32_NEGATIVE_ZERO <= self.bits && self.bits <= F32_MINUS_ONE)
    }
}

/// The number that two bytes at `at` spell, least significant byte first.
pub open spec fn le_u16(s: Seq<u8>, at: int) -> u16 {
    (s[at] + 256 * s[at + 1]) as u16
}

/// The number that four bytes at `at` spell, least significant byte first.
pub open spec fn le_u32(s: Seq<u8>, at: int) -> u32 {
    (s[at] + 256 * s[at + 1] + 65536 * s[at + 2] + 16777216 * s[at + 3]) as u32
}

/// The number that eight bytes at `at` spell, least significant byte first.
pub open spec fn le_u64(s: Seq<u8>, at: int) -> u64 {
    (le_u32(s, at) + 4294967296 * le_u32(s, at + 4)) as u64
}

/// A byte read as a two's complement number.
pub open spec fn twos_i8(b: u8) -> i8 {
    if b < 128 {
        b as i8
    } else {
        (b - 256) as i8
    }
}

/// Sixteen bits read as a two's complement number.
pub open spec fn twos_i16(v: u16) -> i16 {
    if v < 32768 {
        v as i16
    } else {
        (v - 65536) as i16
    }
}

/// The state of a decode in progress.
pub struct Wire {
    /// The datagram.
    pub data: Seq<u8>,
    /// Offset of the next byte to read. It may lie behind the end of the
    /// datagram after padding was skipped; every read from there fails.
    pub pos: usize,
    /// The first failure, if there was one.
    pub err: Option<DecodeError>,
}

impl Wire {
    /// Nothing read yet.
    pub open spec fn start(data: Seq<u8>) -> Wire {
        Wire { data, pos: 0, err: None }
    }

    /// Something went wrong before this state.
    pub open spec fn failed(self) -> bool {
        self.err is Some
    }

    /// The datagram is one that a machine can hold: every offset into it is
    /// one that the machine can count to.
    pub open spec fn countable(self) -> bool {
        self.data.len() <= usize::MAX
    }

    /// At least `n` more bytes are there to be read.
    pub open spec fn has(self, n: nat) -> bool {
        self.pos + n <= self.data.len()
    }

    /// The same state, marked as failed with `e`.
    pub open spec fn fail(self, e: DecodeError) -> Wire {
        Wire { err: Some(e), ..self }
    }

    /// The state after running out of bytes here.
    pub open spec fn starved(self) -> Wire {
        self.fail(DecodeError::EndOfData { offset: self.pos })
    }

    /// Moves `n` bytes on without looking at them. The offset stops at the
    /// largest one the machine can hold.
    pub open spec fn skip(self, n: nat) -> Wire {
        if self.failed() {
            self
        } else if self.pos + n > usize::MAX {
            Wire { pos: usize::MAX, ..self }
        } else {
            Wire { pos: (self.pos + n) as usize, ..self }
        }
    }

    /// Fails with `e` unless `holds`.
    pub open spec fn demand(self, holds: bool, e: DecodeError) -> Wire {
        if self.failed() || holds {
            self
        } else {
            self.fail(e)
        }
    }

    /// Fails unless `value`, read for `field` of the record that starts at
    /// `record`, satisfies `holds`.
    pub open spec fn in_range(self, holds: bool, field: FieldName, value: int, record: usize) -> Wire {
        self.demand(holds, DecodeError::FieldOutOfRange { field, value: value as i64, offset: record })
    }

    /// Fails unless `count`, read for `field` of the record that starts at
    /// `record`, is at most `capacity`.
    pub open spec fn fits(self, field: FieldName, count: usize, capacity: usize, record: usize) -> Wire {
        self.demand(
            count <= capacity,
            DecodeError::CountExceedsCapacity { field, count, capacity, offset: record },
        )
    }

    /// One byte.
    pub open spec fn u8(self) -> (Wire, u8) {
        if self.failed() {
            (self, arbitrary())
        } else if self.has(1) {
            (self.skip(1), self.data[self.pos as int])
        } else {
            (self.starved(), arbitrary())
        }
    }

    /// Two bytes as a number.
    pub open spec fn u16(self) -> (Wire, u16) {
        if self.failed() {
            (self, arbitrary())
        } else if self.has(2) {
            (self.skip(2), le_u16(self.data, self.pos as int))
        } else {
            (self.starved(), arbitrary())
        }
    }

    /// Four bytes as a number.
    pub open spec fn u32(self) -> (Wire, u32) {
        if self.failed() {
            (self, arbitrary())
        } else if self.has(4) {
            (self.skip(4), le_u32(self.data, self.pos as int))
        } else {
            (self.starved(), arbitrary())
        }
    }

    /// Eight bytes as a number.
    pub open spec fn u64(self) -> (Wire, u64) {
        if self.failed() {
            (self, arbitrary())
        } else if self.has(8) {
            (self.skip(8), le_u64(self.data, self.pos as int))
        } else {
            (self.starved(), arbitrary())
        }
    }

    /// One byte as a two's complement number.
    pub open spec fn i8(self) -> (Wire, i8) {
        let (w, b) = self.u8();
        (w, twos_i8(b))
    }

    /// Two bytes as a two's complement number.
    pub open spec fn i16(self) -> (Wire, i16) {
        let (w, v) = self.u16();
        (w, twos_i16(v))
    }

    /// The four bytes of a single precision number.
    pub open spec fn single(self) -> (Wire, F32Bits) {
        let (w, bits) = self.u32();
        (w, F32Bits { bits })
    }

    /// The eight bytes of a double precision number.
    pub open spec fn double(self) -> (Wire, F64Bits) {
        let (w, bits) = self.u64();
        (w, F64Bits { bits })
    }

    /// A byte widened to an index.
    pub open spec fn index(self) -> (Wire, usize) {
        let (w, b) = self.u8();
        (w, b as usize)
    }

    /// A flag byte: 0 is `false`, 1 is `true`, anything else a failure.
    pub open spec fn boolean(self) -> (Wire, bool) {
        let (w, b) = self.u8();
        (w.demand(b <= 1, DecodeError::InvalidBool { byte: b, offset: self.pos }), b == 1)
    }

    /// The next `n` bytes. No bytes can be read anywhere, also behind the
    /// end.
    pub open spec fn bytes(self, n: nat) -> (Wire, Seq<u8>) {
        if self.failed() {
            (self, arbitrary())
        } else if n == 0 {
            (self, Seq::empty())
        } else if self.has(n) {
            (self.skip(n), self.data.subrange(self.pos as int, self.pos + n))
        } else {
            (self.starved(), arbitrary())
        }
    }

    /// The next `n` bytes, left unread.
    pub open spec fn peek(self, n: nat) -> (Wire, Seq<u8>) {
        if self.failed() {
            (self, arbitrary())
        } else if n == 0 {
            (self, Seq::empty())
        } else if self.has(n) {
            (self, self.data.subrange(self.pos as int, self.pos + n))
        } else {
            (self.starved(), arbitrary())
        }
    }

    /// Four numbers, one for each wheel.
    pub open spec fn singles4(self) -> (Wire, [F32Bits; 4]) {
        let (w, a) = self.single();
        let (w, b) = w.single();
        let (w, c) = w.single();
        let (w, d) = w.single();
        (w, [a, b, c, d])
    }

    /// Four 16-bit numbers, one for each wheel.
    pub open spec fn u16x4(self) -> (Wire, [u16; 4]) {
        let (w, a) = self.u16();
        let (w, b) = w.u16();
        let (w, c) = w.u16();
        let (w, d) = w.u16();
        (w, [a, b, c, d])
    }

    /// Four bytes, one for each wheel.
    pub open spec fn u8x4(self) -> (Wire, [u8; 4]) {
        let (w, a) = self.u8();
        let (w, b) = w.u8();
        let (w, c) = w.u8();
        let (w, d) = w.u8();
        (w, [a, b, c, d])
    }

    /// A byte that is on the wire only if `present`, and 0 otherwise.
    pub open spec fn u8_if(self, present: bool) -> (Wire, u8) {
        if present {
            self.u8()
        } else {
            (self, 0)
        }
    }

    /// A 16-bit number that is on the wire only if `present`, and 0 otherwise.
    pub open spec fn u16_if(self, present: bool) -> (Wire, u16) {
        if present {
            self.u16()
        } else {
            (self, 0)
        }
    }

    /// A 32-bit number that is on the wire only if `present`, and 0 otherwise.
    pub open spec fn u32_if(self, present: bool) -> (Wire, u32) {
        if present {
            self.u32()
        } else {
            (self, 0)
        }
    }

    /// A single precision number that is on the wire only if `present`, and
    /// zero otherwise.
    pub open spec fn single_if(self, present: bool) -> (Wire, F32Bits) {
        if present {
            self.single()
        } else {
            (self, F32Bits { bits: 0 })
        }
    }

    /// Four single precision numbers that are on the wire only if `present`,
    /// and zeros otherwise.
    pub open spec fn singles4_if(self, present: bool) -> (Wire, [F32Bits; 4]) {
        if present {
            self.singles4()
        } else {
            let zero = F32Bits { bits: 0 };
            (self, [zero, zero, zero, zero])
        }
    }

    /// A flag byte that is on the wire only if `present`, and `false`
    /// otherwise.
    pub open spec fn boolean_if(self, present: bool) -> (Wire, bool) {
        if present {
            self.boolean()
        } else {
            (self, false)
        }
    }

    /// An index that is on the wire only if `present`, and 0 otherwise.
    pub open spec fn index_if(self, present: bool) -> (Wire, usize) {
        if present {
            self.index()
        } else {
            (self, 0)
        }
    }

    /// Count-then-pad for bytes: `count` bytes that are read, then filler up
    /// to `capacity` bytes that is passed over.
    pub open spec fn padded_bytes(self, count: usize, capacity: usize) -> (Wire, Seq<u8>) {
        let (w, bytes) = self.bytes(count as nat);
        (w.skip((capacity - count) as nat), bytes)
    }

    /// Bytes with their filler that are on the wire only if `present`, and no
    /// bytes otherwise.
    pub open spec fn padded_bytes_if(self, present: bool, count: usize, capacity: usize) -> (Wire, Seq<u8>) {
        if present {
            self.padded_bytes(count, capacity)
        } else {
            (self, Seq::empty())
        }
    }
}

} // verus!
