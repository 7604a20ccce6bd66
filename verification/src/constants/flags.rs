//! Sets of named bits.
//!
//! A set wraps the integer it travelled as and keeps every bit of it, named
//! or not: reading the integer back gives what was on the wire. The named
//! bits are masks of the integer's type.

use vstd::prelude::*;
use crate::cursor::ByteCursor;
use crate::cursor::follows;
use crate::error::DecodeError;
use crate::wire::Wire;

verus! {

/// Whether bit number `i`, counted from the least significant one, is set in `bits`.
pub open spec fn bit_set(bits: u32, i: u32) -> bool {
    (bits >> i) & 1 == 1
}

/// Where `a & b == b`, every bit of `b` is a bit of `a`.
pub proof fn lemma_contains_bit(a: u32, b: u32, i: u32)
    requires
        i < 32,
        a & b == b,
        bit_set(b, i),
    ensures
        bit_set(a, i),
{
    assert(bit_set(a, i)) by (bit_vector)
        requires
            i < 32,
            a & b == b,
            bit_set(b, i),
    ;
}

/// The bits of `a | b`, of `a & b` and of `a & !b` are those of the union,
/// of the intersection and of the difference of the two sets.
pub proof fn lemma_bitwise_is_setwise(a: u32, b: u32, i: u32)
    requires
        i < 32,
    ensures
        bit_set(a | b, i) == (bit_set(a, i) || bit_set(b, i)),
        bit_set(a & b, i) == (bit_set(a, i) && bit_set(b, i)),
        bit_set(a & !b, i) == (bit_set(a, i) && !bit_set(b, i)),
{
    assert(bit_set(a | b, i) == (bit_set(a, i) || bit_set(b, i))) by (bit_vector)
        requires
            i < 32,
    ;
    assert(bit_set(a & b, i) == (bit_set(a, i) && bit_set(b, i))) by (bit_vector)
        requires
            i < 32,
    ;
    assert(bit_set(a & !b, i) == (bit_set(a, i) && !bit_set(b, i))) by (bit_vector)
        requires
            i < 32,
    ;
}

/// The controller buttons that are pressed, as sent by a `Buttons` event.
#[derive(Debug, Clone, Copy, PartialEq, Eq, PartialOrd, Ord, Hash, Structural)]
pub struct ButtonStatus {
    pub bits: u32,
}

impl ButtonStatus {
    /// The "A" button on an Xbox controller or the cross button on a
    /// PlayStation controller.
    pub const A_OR_CROSS: u32 = 0x0000_0001;

    /// The "Y" button on an Xbox controller or the triangle button on a
    /// PlayStation controller.
    pub const Y_OR_TRIANGLE: u32 = 0x0000_0002;

    /// The "B" button on an Xbox controller or the circle button on a
    /// PlayStation controller.
    pub const B_OR_CIRCLE: u32 = 0x0000_0004;

    /// The "X" button on an Xbox controller or the square button on a
    /// PlayStation controller.
    pub const X_OR_SQUARE: u32 = 0x0000_0008;

    /// Left directional pad button.
    pub const DPAD_LEFT: u32 = 0x0000_0010;

    /// Right directional pad button.
    pub const DPAD_RIGHT: u32 = 0x0000_0020;

    /// Up directional pad button.
    pub const DPAD_UP: u32 = 0x0000_0040;

    /// Down directional pad button.
    pub const DPAD_DOWN: u32 = 0x0000_0080;

    /// The "Menu" button on an Xbox controller or the "Options" button on a
    /// PlayStation controller.
    pub const MENU_OR_OPTIONS: u32 = 0x0000_0100;

    /// Left bumper.
    pub const LEFT_BUMPER: u32 = 0x0000_0200;

    /// Right bumper.
    pub const RIGHT_BUMPER: u32 = 0x0000_0400;

    /// Left trigger.
    pub const LEFT_TRIGGER: u32 = 0x0000_0800;

    /// Right trigger.
    pub const RIGHT_TRIGGER: u32 = 0x0000_1000;

    /// Left analog stick click.
    pub const LEFT_STICK_CLICK: u32 = 0x0000_2000;

    /// Right analog stick click.
    pub const RIGHT_STICK_CLICK: u32 = 0x0000_4000;

    /// Right analog stick left.
    pub const RIGHT_STICK_LEFT: u32 = 0x0000_8000;

    /// Right analog stick right. Has a value of `0x0001_0000`
    pub const RIGHT_STICK_RIGHT: u32 = 0x0001_0000;

    /// Right analog stick up. Has a value of `0x0002_0000`
    pub const RIGHT_STICK_UP: u32 = 0x0002_0000;

    /// Right analog stick down. Has a value of `0x0004_0000`
    pub const RIGHT_STICK_DOWN: u32 = 0x0004_0000;

    /// Special button.
    pub const SPECIAL: u32 = 0x0008_0000;

    /// UDP Action 1.
    pub const UDP_ACTION_1: u32 = 0x0010_0000;

    /// UDP Action 2.
    pub const UDP_ACTION_2: u32 = 0x0020_0000;

    /// UDP Action 3.
    pub const UDP_ACTION_3: u32 = 0x0040_0000;

    /// UDP Action 4.
    pub const UDP_ACTION_4: u32 = 0x0080_0000;

    /// UDP Action 5.
    pub const UDP_ACTION_5: u32 = 0x0100_0000;

    /// UDP Action 6.
    pub const UDP_ACTION_6: u32 = 0x0200_0000;

    /// UDP Action 7.
    pub const UDP_ACTION_7: u32 = 0x0400_0000;

    /// UDP Action 8.
    pub const UDP_ACTION_8: u32 = 0x0800_0000;

    /// UDP Action 9.
    pub const UDP_ACTION_9: u32 = 0x1000_0000;

    /// UDP Action 10.
    pub const UDP_ACTION_10: u32 = 0x2000_0000;

    /// UDP Action 11.
    pub const UDP_ACTION_11: u32 = 0x4000_0000;

    /// UDP Action 12.
    pub const UDP_ACTION_12: u32 = 0x8000_0000;

    /// Every bit that has a name.
    pub const ALL_BITS: u32 = 0xFFFF_FFFF;

    /// The set with no bit in it.
    pub fn empty() -> (flags: Self)
        ensures
            flags.bits == 0,
    {
        ButtonStatus { bits: 0 }
    }

    /// The set of all the bits that have a name.
    pub fn all() -> (flags: Self)
        ensures
            flags.bits == Self::ALL_BITS,
    {
        ButtonStatus { bits: Self::ALL_BITS }
    }

    /// The integer that this set travels as.
    pub fn bits(&self) -> (bits: u32)
        ensures
            bits == self.bits,
    {
        self.bits
    }

    /// The set that `bits` spells, if every bit of it has a name.
    pub fn from_bits(bits: u32) -> (flags: Option<Self>)
        ensures
            flags == if bits & !Self::ALL_BITS == 0 {
                Some(ButtonStatus { bits })
            } else {
                None::<Self>
            },
    {
        if bits & !Self::ALL_BITS == 0 {
            Some(ButtonStatus { bits })
        } else {
            None
        }
    }

    /// The set that `bits` spells, without the bits that have no name.
    pub fn from_bits_truncate(bits: u32) -> (flags: Self)
        ensures
            flags.bits == bits & Self::ALL_BITS,
    {
        ButtonStatus { bits: bits & Self::ALL_BITS }
    }

    /// The set that `bits` spells, with every bit kept.
    pub fn from_bits_retain(bits: u32) -> (flags: Self)
        ensures
            flags.bits == bits,
    {
        ButtonStatus { bits }
    }

    /// Whether no bit is set.
    pub fn is_empty(&self) -> (yes: bool)
        ensures
            yes == (self.bits == 0),
    {
        self.bits == 0
    }

    /// Whether every bit of `mask` is set. A mask is one of the named
    /// constants, or several of them joined with `|`.
    pub fn has(&self, mask: u32) -> (yes: bool)
        ensures
            yes == (self.bits & mask == mask),
    {
        self.bits & mask == mask
    }

    /// Whether every bit of `other` is set in this set.
    pub fn contains(&self, other: Self) -> (yes: bool)
        ensures
            yes == (self.bits & other.bits == other.bits),
    {
        self.bits & other.bits == other.bits
    }

    /// Whether some bit of `other` is set in this set.
    pub fn intersects(&self, other: Self) -> (yes: bool)
        ensures
            yes == (self.bits & other.bits != 0),
    {
        self.bits & other.bits != 0
    }

    /// The bits of either set.
    pub fn union(self, other: Self) -> (flags: Self)
        ensures
            flags.bits == self.bits | other.bits,
    {
        ButtonStatus { bits: self.bits | other.bits }
    }

    /// The bits of both sets.
    pub fn intersection(self, other: Self) -> (flags: Self)
        ensures
            flags.bits == self.bits & other.bits,
    {
        ButtonStatus { bits: self.bits & other.bits }
    }

    /// The bits of this set that are not in `other`.
    pub fn difference(self, other: Self) -> (flags: Self)
        ensures
            flags.bits == self.bits & !other.bits,
    {
        ButtonStatus { bits: self.bits & !other.bits }
    }
}

impl Wire {
    /// The integer of a set of this kind, with every bit kept.
    pub open spec fn buttons(self) -> (Wire, ButtonStatus) {
        let (w, bits) = self.u32();
        (w, ButtonStatus { bits })
    }
}

impl<'a> ByteCursor<'a> {
    /// Reads a set of this kind and keeps every bit.
    pub fn read_buttons(&mut self) -> (r: Result<ButtonStatus, DecodeError>)
        ensures
            follows(r, final(self)@, old(self)@.buttons()),
    {
        let bits: u32 = self.read_u32()?;
        Ok(ButtonStatus::from_bits_retain(bits))
    }
}

/// The rev lights that are lit on a steering wheel.
#[derive(Debug, Clone, Copy, PartialEq, Eq, PartialOrd, Ord, Hash, Structural)]
pub struct RevLights {
    pub bits: u16,
}

impl RevLights {
    /// 1st left (1st leftmost) LED.
    pub const LEFT_1: u16 = 0x0001;

    /// 2nd left (2nd leftmost) LED.
    pub const LEFT_2: u16 = 0x0002;

    /// 3rd left (3rd leftmost) LED.
    pub const LEFT_3: u16 = 0x0004;

    /// 4th left (4th leftmost) LED.
    pub const LEFT_4: u16 = 0x0008;

    /// 5th left (5th leftmost) LED.
    pub const LEFT_5: u16 = 0x0010;

    /// 1st middle (6th leftmost)  LED.
    pub const MIDDLE_1: u16 = 0x0020;

    /// 2nd middle (7th leftmost) LED.
    pub const MIDDLE_2: u16 = 0x0040;

    /// 3rd middle (8th leftmost) LED.
    pub const MIDDLE_3: u16 = 0x0080;

    /// 4th middle (9th leftmost) LED .
    pub const MIDDLE_4: u16 = 0x0100;

    /// 5th middle (10th leftmost) LED .
    pub const MIDDLE_5: u16 = 0x0200;

    /// 1st right (11th leftmost) LED.
    pub const RIGHT_1: u16 = 0x0400;

    /// 2nd right (12th leftmost) LED.
    pub const RIGHT_2: u16 = 0x0800;

    /// 3rd right (13th leftmost) LED.
    pub const RIGHT_3: u16 = 0x1000;

    /// 4th right (14th leftmost) LED.
    pub const RIGHT_4: u16 = 0x2000;

    /// 5th right (15th leftmost) LED.
    pub const RIGHT_5: u16 = 0x4000;

    /// Every bit that has a name.
    pub const ALL_BITS: u16 = 0x7FFF;

    /// The set with no bit in it.
    pub fn empty() -> (flags: Self)
        ensures
            flags.bits == 0,
    {
        RevLights { bits: 0 }
    }

    /// The set of all the bits that have a name.
    pub fn all() -> (flags: Self)
        ensures
            flags.bits == Self::ALL_BITS,
    {
        RevLights { bits: Self::ALL_BITS }
    }

    /// The integer that this set travels as.
    pub fn bits(&self) -> (bits: u16)
        ensures
            bits == self.bits,
    {
        self.bits
    }

    /// The set that `bits` spells, if every bit of it has a name.
    pub fn from_bits(bits: u16) -> (flags: Option<Self>)
        ensures
            flags == if bits & !Self::ALL_BITS == 0 {
                Some(RevLights { bits })
            } else {
                None::<Self>
            },
    {
        if bits & !Self::ALL_BITS == 0 {
            Some(RevLights { bits })
        } else {
            None
        }
    }

    /// The set that `bits` spells, without the bits that have no name.
    pub fn from_bits_truncate(bits: u16) -> (flags: Self)
        ensures
            flags.bits == bits & Self::ALL_BITS,
    {
        RevLights { bits: bits & Self::ALL_BITS }
    }

    /// The set that `bits` spells, with every bit kept.
    pub fn from_bits_retain(bits: u16) -> (flags: Self)
        ensures
            flags.bits == bits,
    {
        RevLights { bits }
    }

    /// Whether no bit is set.
    pub fn is_empty(&self) -> (yes: bool)
        ensures
            yes == (self.bits == 0),
    {
        self.bits == 0
    }

    /// Whether every bit of `mask` is set. A mask is one of the named
    /// constants, or several of them joined with `|`.
    pub fn has(&self, mask: u16) -> (yes: bool)
        ensures
            yes == (self.bits & mask == mask),
    {
        self.bits & mask == mask
    }

    /// Whether every bit of `other` is set in this set.
    pub fn contains(&self, other: Self) -> (yes: bool)
        ensures
            yes == (self.bits & other.bits == other.bits),
    {
        self.bits & other.bits == other.bits
    }

    /// Whether some bit of `other` is set in this set.
    pub fn intersects(&self, other: Self) -> (yes: bool)
        ensures
            yes == (self.bits & other.bits != 0),
    {
        self.bits & other.bits != 0
    }

    /// The bits of either set.
    pub fn union(self, other: Self) -> (flags: Self)
        ensures
            flags.bits == self.bits | other.bits,
    {
        RevLights { bits: self.bits | other.bits }
    }

    /// The bits of both sets.
    pub fn intersection(self, other: Self) -> (flags: Self)
        ensures
            flags.bits == self.bits & other.bits,
    {
        RevLights { bits: self.bits & other.bits }
    }

    /// The bits of this set that are not in `other`.
    pub fn difference(self, other: Self) -> (flags: Self)
        ensures
            flags.bits == self.bits & !other.bits,
    {
        RevLights { bits: self.bits & !other.bits }
    }
}

impl Wire {
    /// The integer of a set of this kind, with every bit kept.
    pub open spec fn rev_lights(self) -> (Wire, RevLights) {
        let (w, bits) = self.u16();
        (w, RevLights { bits })
    }
}

impl<'a> ByteCursor<'a> {
    /// Reads a set of this kind and keeps every bit.
    pub fn read_rev_lights(&mut self) -> (r: Result<RevLights, DecodeError>)
        ensures
            follows(r, final(self)@, old(self)@.rev_lights()),
    {
        let bits: u16 = self.read_u16()?;
        Ok(RevLights::from_bits_retain(bits))
    }
}

/// Validity of a lap: of each of its three sectors, and overall.
#[derive(Debug, Clone, Copy, PartialEq, Eq, PartialOrd, Ord, Hash, Structural)]
pub struct LapValid {
    pub bits: u8,
}

impl LapValid {
    /// Whether the whole lap is valid.
    pub const OVERALL: u8 = 0x01;

    /// Whether the sector 1 run is valid.
    pub const SECTOR_1: u8 = 0x02;

    /// Whether the sector 2 run is valid.
    pub const SECTOR_2: u8 = 0x04;

    /// Whether the sector 3 run is valid.
    pub const SECTOR_3: u8 = 0x08;

    /// Every bit that has a name.
    pub const ALL_BITS: u8 = 0x0F;

    /// The set with no bit in it.
    pub fn empty() -> (flags: Self)
        ensures
            flags.bits == 0,
    {
        LapValid { bits: 0 }
    }

    /// The set of all the bits that have a name.
    pub fn all() -> (flags: Self)
        ensures
            flags.bits == Self::ALL_BITS,
    {
        LapValid { bits: Self::ALL_BITS }
    }

    /// The integer that this set travels as.
    pub fn bits(&self) -> (bits: u8)
        ensures
            bits == self.bits,
    {
        self.bits
    }

    /// The set that `bits` spells, if every bit of it has a name.
    pub fn from_bits(bits: u8) -> (flags: Option<Self>)
        ensures
            flags == if bits & !Self::ALL_BITS == 0 {
                Some(LapValid { bits })
            } else {
                None::<Self>
            },
    {
        if bits & !Self::ALL_BITS == 0 {
            Some(LapValid { bits })
        } else {
            None
        }
    }

    /// The set that `bits` spells, without the bits that have no name.
    pub fn from_bits_truncate(bits: u8) -> (flags: Self)
        ensures
            flags.bits == bits & Self::ALL_BITS,
    {
        LapValid { bits: bits & Self::ALL_BITS }
    }

    /// The set that `bits` spells, with every bit kept.
    pub fn from_bits_retain(bits: u8) -> (flags: Self)
        ensures
            flags.bits == bits,
    {
        LapValid { bits }
    }

    /// Whether no bit is set.
    pub fn is_empty(&self) -> (yes: bool)
        ensures
            yes == (self.bits == 0),
    {
        self.bits == 0
    }

    /// Whether every bit of `mask` is set. A mask is one of the named
    /// constants, or several of them joined with `|`.
    pub fn has(&self, mask: u8) -> (yes: bool)
        ensures
            yes == (self.bits & mask == mask),
    {
        self.bits & mask == mask
    }

    /// Whether every bit of `other` is set in this set.
    pub fn contains(&self, other: Self) -> (yes: bool)
        ensures
            yes == (self.bits & other.bits == other.bits),
    {
        self.bits & other.bits == other.bits
    }

    /// Whether some bit of `other` is set in this set.
    pub fn intersects(&self, other: Self) -> (yes: bool)
        ensures
            yes == (self.bits & other.bits != 0),
    {
        self.bits & other.bits != 0
    }

    /// The bits of either set.
    pub fn union(self, other: Self) -> (flags: Self)
        ensures
            flags.bits == self.bits | other.bits,
    {
        LapValid { bits: self.bits | other.bits }
    }

    /// The bits of both sets.
    pub fn intersection(self, other: Self) -> (flags: Self)
        ensures
            flags.bits == self.bits & other.bits,
    {
        LapValid { bits: self.bits & other.bits }
    }

    /// The bits of this set that are not in `other`.
    pub fn difference(self, other: Self) -> (flags: Self)
        ensures
            flags.bits == self.bits & !other.bits,
    {
        LapValid { bits: self.bits & !other.bits }
    }
}

impl Wire {
    /// The integer of a set of this kind, with every bit kept.
    pub open spec fn lap_valid(self) -> (Wire, LapValid) {
        let (w, bits) = self.u8();
        (w, LapValid { bits })
    }
}

impl<'a> ByteCursor<'a> {
    /// Reads a set of this kind and keeps every bit.
    pub fn read_lap_valid(&mut self) -> (r: Result<LapValid, DecodeError>)
        ensures
            follows(r, final(self)@, old(self)@.lap_valid()),
    {
        let bits: u8 = self.read_u8()?;
        Ok(LapValid::from_bits_retain(bits))
    }
}

} // verus!
