//! Decoder for the UDP telemetry datagrams of the F1 22, F1 23 and F1 24 games.
//!
//! A datagram is a header and one body. The header names the format, which
//! is the year of the game, and the kind of the body. [`parse`] reads both and
//! returns an [`F1Packet`], or the first thing that is wrong with the bytes.
//!
//! What the bytes of a datagram mean is written down once, as functions on a
//! [`wire::Wire`]. The executable decoders are proved to return what those
//! functions say, for every sequence of bytes.
//!
//! A number with a fraction is kept as its bit pattern; pass the pattern to
//! `from_bits` of the number type to compute with it.

pub mod constants;
pub mod cursor;
pub mod decode;
pub mod error;
pub mod laws;
pub mod packets;
pub mod wire;

use vstd::prelude::*;
use crate::constants::MAX_NUM_CARS;
use crate::constants::PacketId;
use crate::cursor::ByteCursor;
use crate::cursor::follows;
use crate::decode::Decode;
use crate::decode::WireCode;
use crate::decode::decode_if;
use crate::decode::decoded_if;
use crate::decode::follows_view;
use crate::decode::lemma_of_code_inverts;
use crate::decode::of_code;
use crate::error::DecodeError;
use crate::error::FieldName;
use crate::packets::motion::F1PacketMotion;
use crate::packets::motion::F1PacketMotionView;
use crate::packets::session::F1PacketSession;
use crate::packets::session::F1PacketSessionView;
use crate::packets::laps::F1PacketLaps;
use crate::packets::laps::F1PacketLapsView;
use crate::packets::event::F1PacketEvent;
use crate::packets::event::F1PacketEventView;
use crate::packets::participants::F1PacketParticipants;
use crate::packets::participants::F1PacketParticipantsView;
use crate::packets::car_setups::F1PacketCarSetups;
use crate::packets::car_setups::F1PacketCarSetupsView;
use crate::packets::car_telemetry::F1PacketCarTelemetry;
use crate::packets::car_telemetry::F1PacketCarTelemetryView;
use crate::packets::car_status::F1PacketCarStatus;
use crate::packets::car_status::F1PacketCarStatusView;
use crate::packets::final_classification::F1PacketFinalClassification;
use crate::packets::final_classification::F1PacketFinalClassificationView;
use crate::packets::lobby::F1PacketLobby;
use crate::packets::lobby::F1PacketLobbyView;
use crate::packets::car_damage::F1PacketCarDamage;
use crate::packets::car_damage::F1PacketCarDamageView;
use crate::packets::session_history::F1PacketSessionHistory;
use crate::packets::session_history::F1PacketSessionHistoryView;
use crate::packets::tyre_sets::F1PacketTyreSets;
use crate::packets::tyre_sets::F1PacketTyreSetsView;
use crate::packets::motion::F1PacketMotionEx;
use crate::packets::time_trial::F1PacketTimeTrial;
use crate::wire::F32Bits;
use crate::wire::Wire;

verus! {

/// The oldest format this library reads.
pub const FIRST_FORMAT: u16 = 2022;

/// The newest format this library reads.
pub const LAST_FORMAT: u16 = 2024;

/// Whether this library reads the given format.
pub open spec fn supported(packet_format: u16) -> bool {
    FIRST_FORMAT <= packet_format && packet_format <= LAST_FORMAT
}

/// Length of the header: the game year and the overall frame identifier came
/// with the 2023 format.
pub open spec fn header_size(packet_format: u16) -> nat {
    if packet_format >= 2023 {
        29
    } else {
        24
    }
}

/// The header of every packet: the game and its format, the session, the
/// frame the packet was sent on, and the cars of the players.
#[non_exhaustive]
#[derive(Debug, Clone, Copy, PartialEq, Eq)]
pub struct F1PacketHeader {
    /// Value of the "UDP Format" option in the game's telemetry settings:
    /// 2022, 2023 or 2024.
    pub packet_format: u16,
    /// Game year (last two digits). Available from the 2023 format onwards.
    pub game_year: u8,
    /// Game's major version - "X.00".
    pub game_major_version: u8,
    /// Game's minor version - "1.XX".
    pub game_minor_version: u8,
    /// Version of this packet type, all start from 1.
    pub packet_version: u8,
    /// Unique identifier for the packet type.
    pub packet_id: PacketId,
    /// Unique identifier for the session.
    pub session_uid: u64,
    /// Session timestamp.
    pub session_time: F32Bits,
    /// Identifier for the frame the data was retrieved on. Goes back after a
    /// flashback is triggered.
    pub frame_identifier: u32,
    /// Overall identifier for the frame the data was retrieved on (it does
    /// not go back after flashbacks). Available from the 2023 format onwards.
    pub overall_frame_identifier: u32,
    /// Index of player 1's car.
    pub player_car_index: usize,
    /// Index of player 2's car in splitscreen mode. Set to 255 if not in
    /// splitscreen mode.
    pub secondary_player_car_index: usize,
}

impl Wire {
    /// The byte that names the kind of a packet.
    pub open spec fn packet_id(self) -> (Wire, PacketId) {
        let (w, raw) = self.u8();
        match of_code::<PacketId>(raw) {
            Some(id) => (w, id),
            None => (w.demand(false, DecodeError::UnknownPacketId { id: raw, offset: self.pos }), arbitrary()),
        }
    }
}

impl<'a> ByteCursor<'a> {
    /// Reads the byte that names the kind of a packet.
    pub fn read_packet_id(&mut self) -> (r: Result<PacketId, DecodeError>)
        ensures
            follows(r, final(self)@, old(self)@.packet_id()),
    {
        let at: usize = self.position();
        let raw: u8 = self.read_u8()?;
        match PacketId::from_code(raw) {
            Some(id) => {
                proof {
                    lemma_of_code_inverts(id);
                }
                Ok(id)
            },
            None => Err(DecodeError::UnknownPacketId { id: raw, offset: at }),
        }
    }
}

impl F1PacketHeader {
    /// What the bytes at `w` hold, read as a header.
    pub open spec fn decoded(w: Wire) -> (Wire, F1PacketHeader) {
        let start = w.pos;
        let (w, packet_format) = w.u16();
        let w = w.demand(
            supported(packet_format),
            DecodeError::UnsupportedFormat { format: packet_format, offset: start },
        );
        let (w, game_year) = w.u8_if(packet_format >= 2023);
        let (w, game_major_version) = w.u8();
        let (w, game_minor_version) = w.u8();
        let (w, packet_version) = w.u8();
        let (w, packet_id) = w.packet_id();
        let (w, session_uid) = w.u64();
        let (w, session_time) = w.single();
        let (w, frame_identifier) = w.u32();
        let (w, overall_frame_identifier) = w.u32_if(packet_format >= 2023);
        let (w, player_car_index) = w.index();
        let w = w.in_range(
            player_car_index < MAX_NUM_CARS,
            FieldName::PlayerCarIndex,
            player_car_index as int,
            start,
        );
        let (w, secondary_player_car_index) = w.index();
        (
            w,
            F1PacketHeader {
                packet_format,
                game_year,
                game_major_version,
                game_minor_version,
                packet_version,
                packet_id,
                session_uid,
                session_time,
                frame_identifier,
                overall_frame_identifier,
                player_car_index,
                secondary_player_car_index,
            },
        )
    }

    /// Reads a header.
    pub fn decode(cursor: &mut ByteCursor) -> (r: Result<F1PacketHeader, DecodeError>)
        ensures
            follows(r, final(cursor)@, Self::decoded(old(cursor)@)),
    {
        let start: usize = cursor.position();
        let packet_format: u16 = cursor.read_u16()?;
        if packet_format < FIRST_FORMAT || packet_format > LAST_FORMAT {
            return Err(DecodeError::UnsupportedFormat { format: packet_format, offset: start });
        }
        let game_year: u8 = cursor.read_u8_if(packet_format >= 2023)?;
        let game_major_version: u8 = cursor.read_u8()?;
        let game_minor_version: u8 = cursor.read_u8()?;
        let packet_version: u8 = cursor.read_u8()?;
        let packet_id: PacketId = cursor.read_packet_id()?;
        let session_uid: u64 = cursor.read_u64()?;
        let session_time: F32Bits = cursor.read_f32()?;
        let frame_identifier: u32 = cursor.read_u32()?;
        let overall_frame_identifier: u32 = cursor.read_u32_if(packet_format >= 2023)?;
        let player_car_index: usize = cursor.read_index()?;
        cursor.in_range(
            player_car_index < MAX_NUM_CARS,
            FieldName::PlayerCarIndex,
            player_car_index as i64,
            start,
        )?;
        let secondary_player_car_index: usize = cursor.read_index()?;
        Ok(
            F1PacketHeader {
                packet_format,
                game_year,
                game_major_version,
                game_minor_version,
                packet_version,
                packet_id,
                session_uid,
                session_time,
                frame_identifier,
                overall_frame_identifier,
                player_car_index,
                secondary_player_car_index,
            },
        )
    }
}

/// A decoded datagram: the header and one body. There is a slot for each
/// kind of body, and only the slot of the kind that the header names is
/// filled.
#[derive(Debug, Clone, PartialEq, Eq)]
pub struct F1Packet {
    /// Universal packet header.
    pub header: F1PacketHeader,
    /// Physics data for all cars in the ongoing session.
    pub motion: Option<F1PacketMotion>,
    /// Data about the ongoing session.
    pub session: Option<F1PacketSession>,
    /// Lap data for all cars on track.
    pub laps: Option<F1PacketLaps>,
    /// Details of events that happen during the course of the ongoing
    /// session.
    pub event: Option<F1PacketEvent>,
    /// List of participants in the session.
    pub participants: Option<F1PacketParticipants>,
    /// Setup data for all cars in the ongoing session.
    pub car_setups: Option<F1PacketCarSetups>,
    /// Telemetry data for all cars in the ongoing session.
    pub car_telemetry: Option<F1PacketCarTelemetry>,
    /// Status data for all cars in the ongoing session.
    pub car_status: Option<F1PacketCarStatus>,
    /// Final classification confirmation at the end of the session.
    pub final_classification: Option<F1PacketFinalClassification>,
    /// Details of players in a multiplayer lobby.
    pub lobby: Option<F1PacketLobby>,
    /// Car damage parameters for all cars in the ongoing session.
    pub car_damage: Option<F1PacketCarDamage>,
    /// Session history data for a specific car.
    pub session_history: Option<F1PacketSessionHistory>,
    /// In-depth details about tyre sets assigned to a vehicle during the
    /// session. Available from the 2023 format onwards.
    pub tyre_sets: Option<F1PacketTyreSets>,
    /// Extended player car only motion data. Available from the 2023 format
    /// onwards.
    pub motion_ex: Option<F1PacketMotionEx>,
    /// Extra information that is only relevant to time trial game mode.
    /// Available from the 2024 format onwards.
    pub time_trial: Option<F1PacketTimeTrial>,
}

/// An [`F1Packet`] as a mathematical value: each list a sequence, each text a
/// sequence of characters.
pub struct F1PacketView {
    pub header: F1PacketHeader,
    pub motion: Option<F1PacketMotionView>,
    pub session: Option<F1PacketSessionView>,
    pub laps: Option<F1PacketLapsView>,
    pub event: Option<F1PacketEventView>,
    pub participants: Option<F1PacketParticipantsView>,
    pub car_setups: Option<F1PacketCarSetupsView>,
    pub car_telemetry: Option<F1PacketCarTelemetryView>,
    pub car_status: Option<F1PacketCarStatusView>,
    pub final_classification: Option<F1PacketFinalClassificationView>,
    pub lobby: Option<F1PacketLobbyView>,
    pub car_damage: Option<F1PacketCarDamageView>,
    pub session_history: Option<F1PacketSessionHistoryView>,
    pub tyre_sets: Option<F1PacketTyreSetsView>,
    pub motion_ex: Option<F1PacketMotionEx>,
    pub time_trial: Option<F1PacketTimeTrial>,
}

impl F1PacketView {
    /// The slot of `id` is filled and every other slot is empty.
    pub open spec fn holds_only(self, id: PacketId) -> bool {
        &&& self.motion is Some <==> id == PacketId::Motion
        &&& self.session is Some <==> id == PacketId::Session
        &&& self.laps is Some <==> id == PacketId::Laps
        &&& self.event is Some <==> id == PacketId::Event
        &&& self.participants is Some <==> id == PacketId::Participants
        &&& self.car_setups is Some <==> id == PacketId::CarSetups
        &&& self.car_telemetry is Some <==> id == PacketId::CarTelemetry
        &&& self.car_status is Some <==> id == PacketId::CarStatus
        &&& self.final_classification is Some <==> id == PacketId::FinalClassification
        &&& self.lobby is Some <==> id == PacketId::LobbyInfo
        &&& self.car_damage is Some <==> id == PacketId::CarDamage
        &&& self.session_history is Some <==> id == PacketId::SessionHistory
        &&& self.tyre_sets is Some <==> id == PacketId::TyreSets
        &&& self.motion_ex is Some <==> id == PacketId::MotionEx
        &&& self.time_trial is Some <==> id == PacketId::TimeTrial
    }
}

impl DeepView for F1Packet {
    type V = F1PacketView;

    open spec fn deep_view(&self) -> F1PacketView {
        F1PacketView {
            header: self.header,
            motion: self.motion.deep_view(),
            session: self.session.deep_view(),
            laps: self.laps.deep_view(),
            event: self.event.deep_view(),
            participants: self.participants.deep_view(),
            car_setups: self.car_setups.deep_view(),
            car_telemetry: self.car_telemetry.deep_view(),
            car_status: self.car_status.deep_view(),
            final_classification: self.final_classification.deep_view(),
            lobby: self.lobby.deep_view(),
            car_damage: self.car_damage.deep_view(),
            session_history: self.session_history.deep_view(),
            tyre_sets: self.tyre_sets.deep_view(),
            motion_ex: self.motion_ex.deep_view(),
            time_trial: self.time_trial.deep_view(),
        }
    }
}

impl F1Packet {
    /// What the bytes at `w` hold, read as a datagram: the header, then the
    /// body of the kind that the header names, in the format it names.
    pub open spec fn decoded(w: Wire) -> (Wire, F1PacketView) {
        let (w, header) = F1PacketHeader::decoded(w);
        let id = header.packet_id;
        let format = header.packet_format;
        let (w, motion) = decoded_if::<F1PacketMotion>(w, id == PacketId::Motion, format);
        let (w, session) = decoded_if::<F1PacketSession>(w, id == PacketId::Session, format);
        let (w, laps) = decoded_if::<F1PacketLaps>(w, id == PacketId::Laps, format);
        let (w, event) = decoded_if::<F1PacketEvent>(w, id == PacketId::Event, format);
        let (w, participants) = decoded_if::<F1PacketParticipants>(w, id == PacketId::Participants, format);
        let (w, car_setups) = decoded_if::<F1PacketCarSetups>(w, id == PacketId::CarSetups, format);
        let (w, car_telemetry) = decoded_if::<F1PacketCarTelemetry>(w, id == PacketId::CarTelemetry, format);
        let (w, car_status) = decoded_if::<F1PacketCarStatus>(w, id == PacketId::CarStatus, format);
        let (w, final_classification) = decoded_if::<F1PacketFinalClassification>(w, id == PacketId::FinalClassification, format);
        let (w, lobby) = decoded_if::<F1PacketLobby>(w, id == PacketId::LobbyInfo, format);
        let (w, car_damage) = decoded_if::<F1PacketCarDamage>(w, id == PacketId::CarDamage, format);
        let (w, session_history) = decoded_if::<F1PacketSessionHistory>(w, id == PacketId::SessionHistory, format);
        let (w, tyre_sets) = decoded_if::<F1PacketTyreSets>(w, id == PacketId::TyreSets, format);
        let (w, motion_ex) = decoded_if::<F1PacketMotionEx>(w, id == PacketId::MotionEx, format);
        let (w, time_trial) = decoded_if::<F1PacketTimeTrial>(w, id == PacketId::TimeTrial, format);
        (
            w,
            F1PacketView {
                header,
                motion,
                session,
                laps,
                event,
                participants,
                car_setups,
                car_telemetry,
                car_status,
                final_classification,
                lobby,
                car_damage,
                session_history,
                tyre_sets,
                motion_ex,
                time_trial,
            },
        )
    }

    /// Reads a datagram.
    pub fn decode(cursor: &mut ByteCursor) -> (r: Result<F1Packet, DecodeError>)
        ensures
            follows_view(r, final(cursor)@, Self::decoded(old(cursor)@)),
    {
        let header: F1PacketHeader = F1PacketHeader::decode(cursor)?;
        let id: PacketId = header.packet_id;
        let format: u16 = header.packet_format;
        let motion: Option<F1PacketMotion> = decode_if(cursor, id == PacketId::Motion, format)?;
        let session: Option<F1PacketSession> = decode_if(cursor, id == PacketId::Session, format)?;
        let laps: Option<F1PacketLaps> = decode_if(cursor, id == PacketId::Laps, format)?;
        let event: Option<F1PacketEvent> = decode_if(cursor, id == PacketId::Event, format)?;
        let participants: Option<F1PacketParticipants> = decode_if(cursor, id == PacketId::Participants, format)?;
        let car_setups: Option<F1PacketCarSetups> = decode_if(cursor, id == PacketId::CarSetups, format)?;
        let car_telemetry: Option<F1PacketCarTelemetry> = decode_if(cursor, id == PacketId::CarTelemetry, format)?;
        let car_status: Option<F1PacketCarStatus> = decode_if(cursor, id == PacketId::CarStatus, format)?;
        let final_classification: Option<F1PacketFinalClassification> = decode_if(cursor, id == PacketId::FinalClassification, format)?;
        let lobby: Option<F1PacketLobby> = decode_if(cursor, id == PacketId::LobbyInfo, format)?;
        let car_damage: Option<F1PacketCarDamage> = decode_if(cursor, id == PacketId::CarDamage, format)?;
        let session_history: Option<F1PacketSessionHistory> = decode_if(cursor, id == PacketId::SessionHistory, format)?;
        let tyre_sets: Option<F1PacketTyreSets> = decode_if(cursor, id == PacketId::TyreSets, format)?;
        let motion_ex: Option<F1PacketMotionEx> = decode_if(cursor, id == PacketId::MotionEx, format)?;
        let time_trial: Option<F1PacketTimeTrial> = decode_if(cursor, id == PacketId::TimeTrial, format)?;
        Ok(
            F1Packet {
                header,
                motion,
                session,
                laps,
                event,
                participants,
                car_setups,
                car_telemetry,
                car_status,
                final_classification,
                lobby,
                car_damage,
                session_history,
                tyre_sets,
                motion_ex,
                time_trial,
            },
        )
    }
}

/// What a datagram holds: the packet, or the first thing that is wrong with
/// the bytes.
pub open spec fn parsed(data: Seq<u8>) -> Result<F1PacketView, DecodeError> {
    let (w, packet) = F1Packet::decoded(Wire::start(data));
    match w.err {
        Some(e) => Err(e),
        None => Ok(packet),
    }
}

/// What [`parse`] returns for a datagram, as a relation between the bytes and
/// the result.
pub open spec fn parse_returns(data: Seq<u8>, r: Result<F1Packet, DecodeError>) -> bool {
    match r {
        Ok(packet) => parsed(data) == Ok::<F1PacketView, DecodeError>(packet.deep_view()),
        Err(e) => parsed(data) == Err::<F1PacketView, DecodeError>(e),
    }
}

/// Decodes one datagram.
///
/// The result is a function of the bytes alone. Bytes behind the body are
/// not looked at.
pub fn parse(data: &[u8]) -> (r: Result<F1Packet, DecodeError>)
    ensures
        parse_returns(data@, r),
        r matches Ok(packet) ==> packet.deep_view().holds_only(packet.header.packet_id),
{
    let mut cursor = ByteCursor::new(data);
    let r = F1Packet::decode(&mut cursor);
    proof {
        laws::lemma_one_body(data@);
    }
    r
}

} // verus!
