//! Sequential little-endian reads over one datagram.

use vstd::prelude::*;
use vstd::slice::slice_subrange;
use vstd::slice::slice_to_vec;
use crate::error::DecodeError;
use crate::error::FieldName;
use crate::wire::F32Bits;
use crate::wire::F64Bits;
use crate::wire::Wire;
use crate::wire::le_u32;

verus! {

/// What an executable read returns and where it leaves its cursor, held
/// against what the format says of the same bytes.
///
/// On success the cursor stands where the format says and the value is the
/// one it names. On failure the error is the first one the format meets, and
/// the cursor stands where that happened.
pub open spec fn follows<T>(r: Result<T, DecodeError>, after: Wire, said: (Wire, T)) -> bool {
    match r {
        Ok(v) => said.0 == after && v == said.1,
        Err(e) => said.0 == after.fail(e),
    }
}

/// Reader over one datagram. It never changes the bytes and only moves
/// forward, except that a peek leaves it where it stands.
pub struct ByteCursor<'a> {
    pub data: &'a [u8],
    pub pos: usize,
}

impl<'a> View for ByteCursor<'a> {
    type V = Wire;

    open spec fn view(&self) -> Wire {
        Wire { data: self.data@, pos: self.pos, err: None }
    }
}

impl<'a> ByteCursor<'a> {
    /// A cursor at the start of `data`.
    pub fn new(data: &'a [u8]) -> (cursor: Self)
        ensures
            cursor@ == Wire::start(data@),
    {
        ByteCursor { data, pos: 0 }
    }

    /// Offset of the next byte to read.
    pub fn position(&self) -> (pos: usize)
        ensures
            pos == self@.pos,
    {
        self.pos
    }

    /// Whether `n` more bytes are there to be read.
    pub fn has(&self, n: usize) -> (yes: bool)
        ensures
            yes == self@.has(n as nat),
            yes ==> self@.pos + n <= usize::MAX,
    {
        let len: usize = self.data.len();
        self.pos <= len && n <= len - self.pos
    }

    /// Moves `n` bytes on without looking at them.
    pub fn skip(&mut self, n: usize)
        ensures
            final(self)@ == old(self)@.skip(n as nat),
    {
        if n > usize::MAX - self.pos {
            self.pos = usize::MAX;
        } else {
            self.pos = self.pos + n;
        }
    }

    /// Reads one byte.
    pub fn read_u8(&mut self) -> (r: Result<u8, DecodeError>)
        ensures
            follows(r, final(self)@, old(self)@.u8()),
    {
        if self.has(1) {
            let v: u8 = self.data[self.pos];
            self.pos = self.pos + 1;
            Ok(v)
        } else {
            Err(DecodeError::EndOfData { offset: self.pos })
        }
    }

    /// Reads two bytes as a number, least significant byte first.
    pub fn read_u16(&mut self) -> (r: Result<u16, DecodeError>)
        ensures
            follows(r, final(self)@, old(self)@.u16()),
    {
        if self.has(2) {
            let b0: u8 = self.data[self.pos];
            let b1: u8 = self.data[self.pos + 1];
            self.pos = self.pos + 2;
            Ok(b0 as u16 + 256 * (b1 as u16))
        } else {
            Err(DecodeError::EndOfData { offset: self.pos })
        }
    }

    /// Reads four bytes as a number, least significant byte first.
    pub fn read_u32(&mut self) -> (r: Result<u32, DecodeError>)
        ensures
            follows(r, final(self)@, old(self)@.u32()),
    {
        if self.has(4) {
            let b0: u8 = self.data[self.pos];
            let b1: u8 = self.data[self.pos + 1];
            let b2: u8 = self.data[self.pos + 2];
            let b3: u8 = self.data[self.pos + 3];
            self.pos = self.pos + 4;
            Ok(b0 as u32 + 256 * (b1 as u32) + 65536 * (b2 as u32) + 16777216 * (b3 as u32))
        } else {
            Err(DecodeError::EndOfData { offset: self.pos })
        }
    }

    /// Reads eight bytes as a number, least significant byte first.
    pub fn read_u64(&mut self) -> (r: Result<u64, DecodeError>)
        ensures
            follows(r, final(self)@, old(self)@.u64()),
    {
        if self.has(8) {
            let low: u32 = self.read_u32()?;
            let high: u32 = self.read_u32()?;
            assert(high == le_u32(old(self)@.data, old(self)@.pos + 4));
            Ok(low as u64 + 4294967296 * (high as u64))
        } else {
            Err(DecodeError::EndOfData { offset: self.pos })
        }
    }

    /// Reads one byte as a two's complement number.
    pub fn read_i8(&mut self) -> (r: Result<i8, DecodeError>)
        ensures
            follows(r, final(self)@, old(self)@.i8()),
    {
        let b: u8 = self.read_u8()?;
        if b < 128 {
            Ok(b as i8)
        } else {
            Ok((b as i16 - 256) as i8)
        }
    }

    /// Reads two bytes as a two's complement number, least significant byte
    /// first.
    pub fn read_i16(&mut self) -> (r: Result<i16, DecodeError>)
        ensures
            follows(r, final(self)@, old(self)@.i16()),
    {
        let v: u16 = self.read_u16()?;
        if v < 32768 {
            Ok(v as i16)
        } else {
            Ok((v as i32 - 65536) as i16)
        }
    }

    /// Reads the four bytes of a single precision number.
    pub fn read_f32(&mut self) -> (r: Result<F32Bits, DecodeError>)
        ensures
            follows(r, final(self)@, old(self)@.single()),
    {
        let bits: u32 = self.read_u32()?;
        Ok(F32Bits { bits })
    }

    /// Reads the eight bytes of a double precision number.
    pub fn read_f64(&mut self) -> (r: Result<F64Bits, DecodeError>)
        ensures
            follows(r, final(self)@, old(self)@.double()),
    {
        let bits: u64 = self.read_u64()?;
        Ok(F64Bits { bits })
    }

    /// Reads one byte as an index.
    pub fn read_index(&mut self) -> (r: Result<usize, DecodeError>)
        ensures
            follows(r, final(self)@, old(self)@.index()),
    {
        let b: u8 = self.read_u8()?;
        Ok(crate::packets::u8_to_usize(b))
    }

    /// Reads a flag byte, which must be 0 or 1.
    pub fn read_bool(&mut self) -> (r: Result<bool, DecodeError>)
        ensures
            follows(r, final(self)@, old(self)@.boolean()),
    {
        let at: usize = self.pos;
        let b: u8 = self.read_u8()?;
        match crate::packets::u8_to_bool(b) {
            Ok(flag) => Ok(flag),
            Err(bad) => Err(DecodeError::InvalidBool { byte: bad.value, offset: at }),
        }
    }

    /// Reads the next `n` bytes.
    pub fn read_bytes(&mut self, n: usize) -> (r: Result<Vec<u8>, DecodeError>)
        ensures
            ({
                let said = old(self)@.bytes(n as nat);
                match r {
                    Ok(v) => said.0 == final(self)@ && v@ == said.1,
                    Err(e) => said.0 == final(self)@.fail(e),
                }
            }),
    {
        if n == 0 {
            Ok(Vec::new())
        } else if self.has(n) {
            let v: Vec<u8> = slice_to_vec(slice_subrange(self.data, self.pos, self.pos + n));
            self.pos = self.pos + n;
            Ok(v)
        } else {
            Err(DecodeError::EndOfData { offset: self.pos })
        }
    }

    /// The next `n` bytes, without moving past them.
    pub fn peek_bytes(&self, n: usize) -> (r: Result<Vec<u8>, DecodeError>)
        ensures
            ({
                let said = self@.peek(n as nat);
                match r {
                    Ok(v) => said.0 == self@ && v@ == said.1,
                    Err(e) => said.0 == self@.fail(e),
                }
            }),
    {
        if n == 0 {
            Ok(Vec::new())
        } else if self.has(n) {
            Ok(slice_to_vec(slice_subrange(self.data, self.pos, self.pos + n)))
        } else {
            Err(DecodeError::EndOfData { offset: self.pos })
        }
    }

    /// Reads four single precision numbers, one for each wheel.
    pub fn read_f32x4(&mut self) -> (r: Result<[F32Bits; 4], DecodeError>)
        ensures
            follows(r, final(self)@, old(self)@.singles4()),
    {
        let a: F32Bits = self.read_f32()?;
        let b: F32Bits = self.read_f32()?;
        let c: F32Bits = self.read_f32()?;
        let d: F32Bits = self.read_f32()?;
        Ok([a, b, c, d])
    }

    /// Reads four 16-bit numbers, one for each wheel.
    pub fn read_u16x4(&mut self) -> (r: Result<[u16; 4], DecodeError>)
        ensures
            follows(r, final(self)@, old(self)@.u16x4()),
    {
        let a: u16 = self.read_u16()?;
        let b: u16 = self.read_u16()?;
        let c: u16 = self.read_u16()?;
        let d: u16 = self.read_u16()?;
        Ok([a, b, c, d])
    }

    /// Reads four bytes, one for each wheel.
    pub fn read_u8x4(&mut self) -> (r: Result<[u8; 4], DecodeError>)
        ensures
            follows(r, final(self)@, old(self)@.u8x4()),
    {
        let a: u8 = self.read_u8()?;
        let b: u8 = self.read_u8()?;
        let c: u8 = self.read_u8()?;
        let d: u8 = self.read_u8()?;
        Ok([a, b, c, d])
    }

    /// Reads one byte if it is `present` in the format, and takes 0 otherwise.
    pub fn read_u8_if(&mut self, present: bool) -> (r: Result<u8, DecodeError>)
        ensures
            follows(r, final(self)@, old(self)@.u8_if(present)),
    {
        if present {
            self.read_u8()
        } else {
            Ok(0)
        }
    }

    /// Reads a 16-bit number if it is `present` in the format, and takes 0
    /// otherwise.
    pub fn read_u16_if(&mut self, present: bool) -> (r: Result<u16, DecodeError>)
        ensures
            follows(r, final(self)@, old(self)@.u16_if(present)),
    {
        if present {
            self.read_u16()
        } else {
            Ok(0)
        }
    }

    /// Reads a 32-bit number if it is `present` in the format, and takes 0
    /// otherwise.
    pub fn read_u32_if(&mut self, present: bool) -> (r: Result<u32, DecodeError>)
        ensures
            follows(r, final(self)@, old(self)@.u32_if(present)),
    {
        if present {
            self.read_u32()
        } else {
            Ok(0)
        }
    }

    /// Reads a single precision number if it is `present` in the format, and
    /// takes zero otherwise.
    pub fn read_f32_if(&mut self, present: bool) -> (r: Result<F32Bits, DecodeError>)
        ensures
            follows(r, final(self)@, old(self)@.single_if(present)),
    {
        if present {
            self.read_f32()
        } else {
            Ok(F32Bits { bits: 0 })
        }
    }

    /// Reads four single precision numbers if they are `present` in the format,
    /// and takes zeros otherwise.
    pub fn read_f32x4_if(&mut self, present: bool) -> (r: Result<[F32Bits; 4], DecodeError>)
        ensures
            follows(r, final(self)@, old(self)@.singles4_if(present)),
    {
        if present {
            self.read_f32x4()
        } else {
            let zero: F32Bits = F32Bits { bits: 0 };
            Ok([zero, zero, zero, zero])
        }
    }

    /// Reads a flag byte if it is `present` in the format, and takes `false`
    /// otherwise.
    pub fn read_bool_if(&mut self, present: bool) -> (r: Result<bool, DecodeError>)
        ensures
            follows(r, final(self)@, old(self)@.boolean_if(present)),
    {
        if present {
            self.read_bool()
        } else {
            Ok(false)
        }
    }

    /// Reads an index if it is `present` in the format, and takes 0 otherwise.
    pub fn read_index_if(&mut self, present: bool) -> (r: Result<usize, DecodeError>)
        ensures
            follows(r, final(self)@, old(self)@.index_if(present)),
    {
        if present {
            self.read_index()
        } else {
            Ok(0)
        }
    }

    /// Reads `count` bytes and passes over the filler behind them, up to
    /// `capacity` bytes. The caller has made sure that `count` is no more
    /// than that.
    pub fn read_padded_bytes(&mut self, count: usize, capacity: usize) -> (r: Result<Vec<u8>, DecodeError>)
        requires
            count <= capacity,
        ensures
            ({
                let said = old(self)@.padded_bytes(count, capacity);
                match r {
                    Ok(v) => said.0 == final(self)@ && v@ == said.1,
                    Err(e) => said.0 == final(self)@.fail(e),
                }
            }),
    {
        let bytes: Vec<u8> = self.read_bytes(count)?;
        self.skip(capacity - count);
        Ok(bytes)
    }

    /// Reads `count` bytes and passes over their filler if the list is
    /// `present` in the format, and takes no bytes otherwise.
    pub fn read_padded_bytes_if(&mut self, present: bool, count: usize, capacity: usize) -> (r: Result<
        Vec<u8>,
        DecodeError,
    >)
        requires
            present ==> count <= capacity,
        ensures
            ({
                let said = old(self)@.padded_bytes_if(present, count, capacity);
                match r {
                    Ok(v) => said.0 == final(self)@ && v@ == said.1,
                    Err(e) => said.0 == final(self)@.fail(e),
                }
            }),
    {
        if present {
            self.read_padded_bytes(count, capacity)
        } else {
            Ok(Vec::new())
        }
    }

    /// Fails unless `holds`, naming the field and the value that broke its range.
    pub fn in_range(&self, holds: bool, field: FieldName, value: i64, record: usize) -> (r: Result<
        (),
        DecodeError,
    >)
        ensures
            follows(r, self@, (self@.in_range(holds, field, value as int, record), ())),
    {
        if holds {
            Ok(())
        } else {
            Err(DecodeError::FieldOutOfRange { field, value, offset: record })
        }
    }

    /// Fails unless `count` is at most `capacity`.
    pub fn fits(&self, field: FieldName, count: usize, capacity: usize, record: usize) -> (r: Result<
        (),
        DecodeError,
    >)
        ensures
            follows(r, self@, (self@.fits(field, count, capacity, record), ())),
    {
        if count <= capacity {
            Ok(())
        } else {
            Err(DecodeError::CountExceedsCapacity { field, count, capacity, offset: record })
        }
    }
}

} // verus!
