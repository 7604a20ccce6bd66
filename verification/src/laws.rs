//! What holds of every datagram, and of every list on the wire.

use vstd::prelude::*;
use crate::F1Packet;
use crate::F1PacketHeader;
use crate::F1PacketView;
use crate::constants::MAX_NUM_CARS;
use crate::constants::PacketId;
use crate::decode::Decode;
use crate::decode::decoded_if;
use crate::decode::decoded_list;
use crate::decode::has_width;
use crate::decode::lemma_list_layout;
use crate::decode::lemma_padded_layout;
use crate::decode::decoded_padded;
use crate::decode::of_code;
use crate::decode::sealed;
use crate::error::DecodeError;
use crate::header_size;
use crate::packets::car_damage::F1PacketCarDamage;
use crate::packets::car_setups::F1PacketCarSetups;
use crate::packets::car_status::F1PacketCarStatus;
use crate::packets::car_telemetry::F1PacketCarTelemetry;
use crate::packets::event::CHQF;
use crate::packets::event::DRSD;
use crate::packets::event::DRSE;
use crate::packets::event::EventDetails;
use crate::packets::event::LGOT;
use crate::packets::event::RDFL;
use crate::packets::event::SEND;
use crate::packets::event::SSTA;
use crate::packets::laps::F1PacketLaps;
use crate::packets::motion::F1PacketMotion;
use crate::packets::motion::F1PacketMotionEx;
use crate::packets::session::FORECAST_SAMPLE_RAW_SIZE;
use crate::packets::session::MARSHAL_ZONE_RAW_SIZE;
use crate::packets::session::MarshalZone;
use crate::packets::session::WeatherForecastSample;
use crate::packets::session_history::F1PacketSessionHistory;
use crate::packets::session_history::LapHistoryData;
use crate::packets::session_history::MAX_NUM_LAPS;
use crate::packets::session_history::TyreStintHistoryData;
use crate::packets::session_history::lap_history_raw_size;
use crate::packets::time_trial::F1PacketTimeTrial;
use crate::packets::tyre_sets::F1PacketTyreSets;
use crate::parse_returns;
use crate::parsed;
use crate::supported;
use crate::wire::Wire;
use crate::wire::le_u16;
use crate::wire::le_u32;
use crate::wire::le_u64;

verus! {

/// A packet has exactly one body, and it is of the kind that its header
/// names.
pub proof fn lemma_one_body(data: Seq<u8>)
    ensures
        parsed(data) matches Ok(packet) ==> packet.holds_only(packet.header.packet_id),
{
}

/// The first failure is the one that is returned: a datagram whose header is
/// rejected is rejected for the same reason, whatever follows the header.
pub proof fn lemma_header_failure_is_returned(data: Seq<u8>)
    ensures
        F1PacketHeader::decoded(Wire::start(data)).0.err matches Some(e) ==> parsed(data) == Err::<
            F1PacketView,
            DecodeError,
        >(e),
{
}

/// What a slot of a packet holds: nothing, if the packet is of another kind
/// or has failed before; and otherwise what the bytes behind the header
/// hold, read as a body of the kind of the slot, whose failure is the
/// failure of the packet.
pub proof fn lemma_slot<T: Decode>(w: Wire, present: bool, packet_format: u16)
    ensures
        decoded_if::<T>(w, present, packet_format) == if present && !w.failed() {
            (T::decoded(w, packet_format).0, Some(T::decoded(w, packet_format).1))
        } else {
            (w, None)
        },
{
    reveal(sealed);
}

/// Decoding is a function of the bytes: whatever is returned twice for the
/// same bytes is the same, as a value and as an error.
pub proof fn lemma_same_bytes_same_result(
    data: Seq<u8>,
    first: Result<F1Packet, DecodeError>,
    second: Result<F1Packet, DecodeError>,
)
    requires
        parse_returns(data, first),
        parse_returns(data, second),
    ensures
        first matches Ok(a) ==> second matches Ok(b) && a.deep_view() == b.deep_view(),
        first matches Err(e) ==> second == Err::<F1Packet, DecodeError>(e),
{
}

/// A datagram whose first two bytes name a format other than 2022, 2023 and
/// 2024 is rejected for that, whatever follows.
pub proof fn lemma_unsupported_format(data: Seq<u8>)
    requires
        data.len() >= 2,
        !supported(le_u16(data, 0)),
    ensures
        parsed(data) == Err::<F1PacketView, DecodeError>(
            DecodeError::UnsupportedFormat { format: le_u16(data, 0), offset: 0 },
        ),
{
}

/// Where the byte that names the kind of packet stands in a header.
pub open spec fn packet_id_offset(packet_format: u16) -> int {
    if packet_format >= 2023 {
        6
    } else {
        5
    }
}

/// Where the index of the player's car stands in a header.
pub open spec fn player_car_index_offset(packet_format: u16) -> int {
    if packet_format >= 2023 {
        27
    } else {
        22
    }
}

/// Nothing is wrong with the part of the header that a datagram holds: the
/// format is one of the three, and the kind of packet and the index of the
/// player's car, as far as they are there, are ones that the format allows.
pub open spec fn header_start_is_sound(data: Seq<u8>) -> bool {
    data.len() >= 2 ==> {
        let format = le_u16(data, 0);
        &&& supported(format)
        &&& data.len() > packet_id_offset(format) ==> of_code::<PacketId>(
            data[packet_id_offset(format)],
        ) is Some
        &&& data.len() > player_car_index_offset(format) ==> data[player_car_index_offset(format)]
            < MAX_NUM_CARS
    }
}

/// A datagram that is shorter than the header of its format, and sound as
/// far as it goes, is rejected for running out of bytes.
pub proof fn lemma_short_header(data: Seq<u8>)
    requires
        data.len() < 2 || data.len() < header_size(le_u16(data, 0)),
        header_start_is_sound(data),
    ensures
        parsed(data) matches Err(e) && e is EndOfData,
{
    let (w, header) = F1PacketHeader::decoded(Wire::start(data));
    assert(w.err matches Some(e) && e is EndOfData);
}

/// Where each field of a header stands: every field of a decoded header is
/// the number that the bytes at its offset spell, and the header ends
/// `header_size` bytes behind its start.
pub proof fn lemma_header_layout(w: Wire)
    requires
        w.countable(),
        !F1PacketHeader::decoded(w).0.failed(),
    ensures
        ({
            let (end, header) = F1PacketHeader::decoded(w);
            let newer: int = if header.packet_format >= 2023 {
                1
            } else {
                0
            };
            let at = w.pos as int;
            &&& supported(header.packet_format)
            &&& end.pos == w.pos + header_size(header.packet_format)
            &&& end.data == w.data
            &&& end.has(0)
            &&& header.packet_format == le_u16(w.data, at)
            &&& header.game_year == if newer == 1 {
                w.data[at + 2]
            } else {
                0
            }
            &&& header.game_major_version == w.data[at + 2 + newer]
            &&& header.game_minor_version == w.data[at + 3 + newer]
            &&& header.packet_version == w.data[at + 4 + newer]
            &&& of_code::<PacketId>(w.data[at + 5 + newer]) == Some(header.packet_id)
            &&& header.session_uid == le_u64(w.data, at + 6 + newer)
            &&& header.session_time.bits == le_u32(w.data, at + 14 + newer)
            &&& header.frame_identifier == le_u32(w.data, at + 18 + newer)
            &&& header.overall_frame_identifier == if newer == 1 {
                le_u32(w.data, at + 23)
            } else {
                0
            }
            &&& header.player_car_index == w.data[at + 22 + 5 * newer]
            &&& header.player_car_index < MAX_NUM_CARS
            &&& header.secondary_player_car_index == w.data[at + 23 + 5 * newer]
        }),
{
}

/// Number of bytes of the body of a packet of the given kind, for the kinds
/// whose bodies are as long in every packet of one format.
pub open spec fn body_width(id: PacketId, packet_format: u16) -> Option<nat> {
    match id {
        PacketId::Motion => Some(F1PacketMotion::wire_width(packet_format)),
        PacketId::Laps => Some(F1PacketLaps::wire_width(packet_format)),
        PacketId::CarSetups => Some(F1PacketCarSetups::wire_width(packet_format)),
        PacketId::CarTelemetry => Some(F1PacketCarTelemetry::wire_width(packet_format)),
        PacketId::CarStatus => Some(F1PacketCarStatus::wire_width(packet_format)),
        PacketId::CarDamage => Some(F1PacketCarDamage::wire_width(packet_format)),
        PacketId::TyreSets => Some(F1PacketTyreSets::wire_width(packet_format)),
        PacketId::MotionEx => Some(F1PacketMotionEx::wire_width(packet_format)),
        PacketId::TimeTrial => Some(F1PacketTimeTrial::wire_width(packet_format)),
        _ => None,
    }
}

/// A datagram that decodes as a packet of one of these kinds is read up to
/// the end of a body of the width of its kind and format, which lies
/// `header_size` and that width behind the start, and no further.
pub proof fn lemma_datagram_width(data: Seq<u8>)
    requires
        data.len() <= usize::MAX,
    ensures
        parsed(data) matches Ok(packet) ==> (body_width(
            packet.header.packet_id,
            packet.header.packet_format,
        ) matches Some(width) ==> F1Packet::decoded(Wire::start(data)).0.pos == header_size(
            packet.header.packet_format,
        ) + width),
{
    let start = Wire::start(data);
    let (w, header) = F1PacketHeader::decoded(start);
    let format = header.packet_format;
    if parsed(data) is Ok {
        lemma_header_layout(start);
        reveal(sealed);
        F1PacketMotion::lemma_wire_width(format);
        F1PacketLaps::lemma_wire_width(format);
        F1PacketCarSetups::lemma_wire_width(format);
        F1PacketCarTelemetry::lemma_wire_width(format);
        F1PacketCarStatus::lemma_wire_width(format);
        F1PacketCarDamage::lemma_wire_width(format);
        F1PacketTyreSets::lemma_wire_width(format);
        F1PacketMotionEx::lemma_wire_width(format);
        F1PacketTimeTrial::lemma_wire_width(format);
    }
}

/// Four bytes that are the code of no event of the format are rejected for
/// that, with the bytes and their place.
pub proof fn lemma_unknown_event_code(w: Wire, packet_format: u16)
    requires
        !w.failed(),
        w.has(4),
        !EventDetails::known(le_u32(w.data, w.pos as int), packet_format),
    ensures
        EventDetails::decoded(w, packet_format).0.err == Some(
            DecodeError::UnknownEventCode { code: le_u32(w.data, w.pos as int), offset: w.pos },
        ),
{
}

/// The seven events that come without details take the four bytes of their
/// code and nothing more.
pub proof fn lemma_plain_event_takes_four_bytes(w: Wire, packet_format: u16)
    requires
        !w.failed(),
        w.has(4),
        ({
            let code = le_u32(w.data, w.pos as int);
            code == SSTA || code == SEND || code == DRSE || code == DRSD || code == CHQF || code == LGOT
                || code == RDFL
        }),
    ensures
        EventDetails::decoded(w, packet_format).0 == w.skip(4),
        le_u32(w.data, w.pos as int) == LGOT ==> EventDetails::decoded(w, packet_format).1
            == EventDetails::LightsOut,
{
}

/// A marshal zone is as wide as the filler behind the zones takes it to be.
pub proof fn lemma_marshal_zone_width(packet_format: u16)
    ensures
        has_width::<MarshalZone>(packet_format, MARSHAL_ZONE_RAW_SIZE as nat),
{
}

/// A weather forecast sample is as wide as the filler behind the samples
/// takes it to be.
pub proof fn lemma_forecast_sample_width(packet_format: u16)
    ensures
        has_width::<WeatherForecastSample>(packet_format, FORECAST_SAMPLE_RAW_SIZE as nat),
{
}

/// A lap history entry is as wide as the filler behind the laps takes it to
/// be, in each format.
pub proof fn lemma_lap_history_width(packet_format: u16)
    ensures
        has_width::<LapHistoryData>(packet_format, lap_history_raw_size(packet_format) as nat),
{
}

/// A session history holds as many laps and tyre stints as it announces, and
/// its tyre stints start behind room for a hundred laps: a history that
/// starts at `w` ends `7 + 100 * lap width + 3 * stints` bytes further on.
pub proof fn lemma_session_history_layout(w: Wire, packet_format: u16)
    requires
        w.countable(),
        !F1PacketSessionHistory::decoded(w, packet_format).0.failed(),
        w.pos + 7 + MAX_NUM_LAPS * 14 + 3 * 255 <= usize::MAX,
    ensures
        ({
            let (end, history) = F1PacketSessionHistory::decoded(w, packet_format);
            &&& history.lap_history_data.len() == history.num_laps
            &&& history.tyre_stint_history_data.len() == history.num_tyre_stints
            &&& end.pos == w.pos + 7 + MAX_NUM_LAPS * lap_history_raw_size(packet_format) + 3
                * history.num_tyre_stints
            &&& end.data == w.data
        }),
{
    lemma_lap_history_width(packet_format);
    TyreStintHistoryData::lemma_wire_width(packet_format);
    let start = w.pos;
    let (w1, vehicle_index) = w.index();
    let (w2, num_laps) = w1.index();
    let (w3, num_tyre_stints) = w2.index();
    let (w4, a) = w3.index();
    let (w5, b) = w4.index();
    let (w6, c) = w5.index();
    let (w7, d) = w6.index();
    let width = lap_history_raw_size(packet_format);
    let (w8, laps) = decoded_padded::<LapHistoryData>(w7, num_laps, MAX_NUM_LAPS, width, packet_format);
    let (w9, stints) = decoded_list::<TyreStintHistoryData>(w8, num_tyre_stints as nat, packet_format);
    assert(!w9.failed());
    if w8.failed() {
        assert(decoded_list::<TyreStintHistoryData>(w8, num_tyre_stints as nat, packet_format).0 == w8);
    }
    assert(!w8.failed());
    lemma_padded_layout::<LapHistoryData>(w7, num_laps, MAX_NUM_LAPS, width, packet_format);
    lemma_list_layout::<TyreStintHistoryData>(w8, num_tyre_stints as nat, packet_format, 3);
}

} // verus!
