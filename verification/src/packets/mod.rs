//! The body of each packet type, and the small conversions they share.

pub mod car_damage;
pub mod car_setups;
pub mod car_status;
pub mod car_telemetry;
pub mod event;
pub mod final_classification;
pub mod laps;
pub mod lobby;
pub mod motion;
pub mod participants;
pub mod session;
pub mod session_history;
pub mod time_trial;
pub mod tyre_sets;

pub use crate::packets::car_damage::F1PacketCarDamage;
pub use crate::packets::car_setups::F1PacketCarSetups;
pub use crate::packets::car_status::F1PacketCarStatus;
pub use crate::packets::car_telemetry::F1PacketCarTelemetry;
pub use crate::packets::event::F1PacketEvent;
pub use crate::packets::final_classification::F1PacketFinalClassification;
pub use crate::packets::laps::F1PacketLaps;
pub use crate::packets::lobby::F1PacketLobby;
pub use crate::packets::motion::F1PacketMotion;
pub use crate::packets::motion::F1PacketMotionEx;
pub use crate::packets::participants::F1PacketParticipants;
pub use crate::packets::session::F1PacketSession;
pub use crate::packets::session_history::F1PacketSessionHistory;
pub use crate::packets::time_trial::F1PacketTimeTrial;
pub use crate::packets::tyre_sets::F1PacketTyreSets;

use std::string::FromUtf8Error;
use vstd::prelude::*;
use vstd::array::array_fill_for_copy_types;
use vstd::utf8::decode_utf8;
use vstd::utf8::valid_utf8;
use crate::cursor::ByteCursor;
use crate::error::DecodeError;
use crate::wire::Wire;

verus! {

/// Width of a name on the wire.
pub const NAME_WIDTH: usize = 48;

/// A byte that should have been 0 or 1.
#[derive(Debug, Clone, Copy, PartialEq, Eq, Structural)]
pub struct MapBoolError {
    pub value: u8,
}

/// Reads a flag byte: 0 is `false`, 1 is `true`, and no other byte is a flag.
pub fn u8_to_bool(value: u8) -> (r: Result<bool, MapBoolError>)
    ensures
        value <= 1 ==> r == Ok::<bool, MapBoolError>(value == 1),
        value > 1 ==> r == Err::<bool, MapBoolError>(MapBoolError { value }),
{
    match value {
        0 => Ok(false),
        1 => Ok(true),
        _ => Err(MapBoolError { value }),
    }
}

/// Widens a wire byte to an index.
pub fn u8_to_usize(value: u8) -> (index: usize)
    ensures
        index == value,
{
    value as usize
}

/// The error of `String::from_utf8`. Nothing is said of what it holds.
#[verifier::external_type_specification]
#[verifier::external_body]
pub struct ExFromUtf8Error(FromUtf8Error);

/// `String::from_utf8`: the bytes as a string if they are UTF-8, and an error
/// if they are not. The string holds the characters that the bytes encode.
#[verifier::external_body]
pub(crate) fn string_from_utf8(bytes: Vec<u8>) -> (r: Result<String, FromUtf8Error>)
    ensures
        r is Ok <==> valid_utf8(bytes@),
        r matches Ok(s) ==> s@ == decode_utf8(bytes@),
{
    String::from_utf8(bytes)
}

/// Number of bytes of `bytes` before its first NUL byte, or all of them if it has none.
pub open spec fn text_len(bytes: Seq<u8>) -> nat
    decreases bytes.len(),
{
    if bytes.len() == 0 || bytes[0] == 0 {
        0
    } else {
        1 + text_len(bytes.skip(1))
    }
}

/// The part of `bytes` that holds text: what stands before the first NUL byte.
pub open spec fn text_of(bytes: Seq<u8>) -> Seq<u8> {
    bytes.take(text_len(bytes) as int)
}

/// `text_len` is where the first NUL byte stands, or the length if there is none.
pub proof fn lemma_text_len(bytes: Seq<u8>)
    ensures
        text_len(bytes) <= bytes.len(),
        forall|i: int| 0 <= i < text_len(bytes) ==> bytes[i] != 0,
        text_len(bytes) < bytes.len() ==> bytes[text_len(bytes) as int] == 0,
    decreases bytes.len(),
{
    if bytes.len() == 0 || bytes[0] == 0 {
    } else {
        let rest = bytes.skip(1);
        lemma_text_len(rest);
        assert forall|i: int| 0 <= i < text_len(bytes) implies bytes[i] != 0 by {
            if i > 0 {
                assert(bytes[i] == rest[i - 1]);
            }
        }
        if text_len(bytes) < bytes.len() {
            assert(bytes[text_len(bytes) as int] == rest[text_len(rest) as int]);
        }
    }
}

/// A position before which no byte is NUL, and which holds a NUL byte or
/// is the end, is `text_len`.
pub proof fn lemma_text_len_is(bytes: Seq<u8>, n: int)
    requires
        0 <= n <= bytes.len(),
        forall|i: int| 0 <= i < n ==> bytes[i] != 0,
        n < bytes.len() ==> bytes[n] == 0,
    ensures
        text_len(bytes) == n,
{
    lemma_text_len(bytes);
    let m = text_len(bytes) as int;
    if m < n {
        assert(bytes[m] == 0);
    } else if n < m {
        assert(bytes[n] == 0);
    }
}

/// Reads the name in a fixed-width field: the text ends at the first NUL
/// byte, or fills the field if there is none, and must be UTF-8.
pub fn read_name(bytes: [u8; 48]) -> (r: Result<String, FromUtf8Error>)
    ensures
        r is Ok <==> valid_utf8(text_of(bytes@)),
        r matches Ok(s) ==> s@ == decode_utf8(text_of(bytes@)),
{
    let mut text: Vec<u8> = Vec::new();
    let mut i: usize = 0;
    while i < 48 && bytes[i] != 0
        invariant
            i <= 48,
            bytes@.len() == 48,
            text@ == bytes@.take(i as int),
            forall|j: int| 0 <= j < i ==> bytes@[j] != 0,
        decreases 48 - i,
    {
        text.push(bytes[i]);
        i = i + 1;
        assert(text@ =~= bytes@.take(i as int));
    }
    proof {
        lemma_text_len_is(bytes@, i as int);
    }
    string_from_utf8(text)
}

impl Wire {
    /// A name in a field of `NAME_WIDTH` bytes.
    pub open spec fn name(self) -> (Wire, Seq<char>) {
        let (w, raw) = self.bytes(NAME_WIDTH as nat);
        (
            w.demand(valid_utf8(text_of(raw)), DecodeError::MalformedText { offset: self.pos }),
            decode_utf8(text_of(raw)),
        )
    }
}

impl<'a> ByteCursor<'a> {
    /// Reads a name in a field of `NAME_WIDTH` bytes.
    pub fn read_name(&mut self) -> (r: Result<String, DecodeError>)
        ensures
            ({
                let said = old(self)@.name();
                match r {
                    Ok(s) => said.0 == final(self)@ && s@ == said.1,
                    Err(e) => said.0 == final(self)@.fail(e),
                }
            }),
    {
        let at: usize = self.position();
        let raw: Vec<u8> = self.read_bytes(NAME_WIDTH)?;
        let mut field: [u8; 48] = array_fill_for_copy_types(0u8);
        let mut i: usize = 0;
        while i < 48
            invariant
                i <= 48,
                raw@.len() == 48,
                field@.len() == 48,
                forall|j: int| 0 <= j < i ==> field@[j] == raw@[j],
            decreases 48 - i,
        {
            field[i] = raw[i];
            i = i + 1;
        }
        assert(field@ =~= raw@);
        match read_name(field) {
            Ok(s) => Ok(s),
            Err(_) => Err(DecodeError::MalformedText { offset: at }),
        }
    }
}

} // verus!
