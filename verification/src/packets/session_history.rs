//! The session history packet: the laps and tyre stints of one car.

use vstd::prelude::*;
use crate::constants::ActualTyreCompound;
use crate::constants::MAX_NUM_CARS;
use crate::constants::VisualTyreCompound;
use crate::constants::flags::LapValid;
use crate::cursor::ByteCursor;
use crate::decode::Decode;
use crate::decode::decode_list;
use crate::decode::decode_padded;
use crate::decode::decoded_list;
use crate::decode::decoded_padded;
use crate::decode::has_width;
use crate::error::DecodeError;
use crate::error::FieldName;
use crate::wire::Wire;

verus! {

/// Room for laps in a session history.
pub const MAX_NUM_LAPS: usize = 100;

/// Room for tyre stints in a session history.
pub const MAX_NUM_TYRE_STINTS: usize = 8;

/// Width of a lap history entry on the wire: the three minute parts came with
/// the 2023 format.
pub open spec fn lap_history_raw_size(packet_format: u16) -> usize {
    if packet_format >= 2023 {
        14
    } else {
        11
    }
}

/// Width of a lap history entry on the wire.
#[verifier::when_used_as_spec(lap_history_raw_size)]
pub fn get_lap_history_raw_size(packet_format: u16) -> (size: usize)
    ensures
        size == lap_history_raw_size(packet_format),
{
    if packet_format >= 2023 {
        14
    } else {
        11
    }
}

/// One lap of a session history: its time, its sectors and their validity.
#[non_exhaustive]
#[derive(Debug, Clone, Copy, PartialEq, Eq, PartialOrd, Ord)]
pub struct LapHistoryData {
    /// Lap time in milliseconds.
    pub lap_time_ms: u32,
    /// Sector 1 time milliseconds part.
    pub sector1_time_ms_part: u16,
    /// Sector 1 whole minute part. Available from the 2023 format onwards.
    pub sector1_time_minutes_part: u8,
    /// Sector 2 time milliseconds part.
    pub sector2_time_ms_part: u16,
    /// Sector 2 whole minute part. Available from the 2023 format onwards.
    pub sector2_time_minutes_part: u8,
    /// Sector 3 time milliseconds part.
    pub sector3_time_ms_part: u16,
    /// Sector 3 whole minute part. Available from the 2023 format onwards.
    pub sector3_time_minutes: u8,
    /// Bitmap of lap validity across all sectors and overall.
    pub lap_valid_bit_flags: LapValid,
}

impl DeepView for LapHistoryData {
    type V = LapHistoryData;

    open spec fn deep_view(&self) -> LapHistoryData {
        *self
    }
}

impl Decode for LapHistoryData {
    open spec fn decoded(w: Wire, packet_format: u16) -> (Wire, LapHistoryData) {
        let (w, lap_time_ms) = w.u32();
        let (w, sector1_time_ms_part) = w.u16();
        let (w, sector1_time_minutes_part) = w.u8_if(packet_format >= 2023);
        let (w, sector2_time_ms_part) = w.u16();
        let (w, sector2_time_minutes_part) = w.u8_if(packet_format >= 2023);
        let (w, sector3_time_ms_part) = w.u16();
        let (w, sector3_time_minutes) = w.u8_if(packet_format >= 2023);
        let (w, lap_valid_bit_flags) = w.lap_valid();
        (
            w,
            LapHistoryData {
                lap_time_ms,
                sector1_time_ms_part,
                sector1_time_minutes_part,
                sector2_time_ms_part,
                sector2_time_minutes_part,
                sector3_time_ms_part,
                sector3_time_minutes,
                lap_valid_bit_flags,
            },
        )
    }

    fn decode(cursor: &mut ByteCursor, packet_format: u16) -> (r: Result<
        LapHistoryData,
        DecodeError,
    >) {
        let lap_time_ms: u32 = cursor.read_u32()?;
        let sector1_time_ms_part: u16 = cursor.read_u16()?;
        let sector1_time_minutes_part: u8 = cursor.read_u8_if(packet_format >= 2023)?;
        let sector2_time_ms_part: u16 = cursor.read_u16()?;
        let sector2_time_minutes_part: u8 = cursor.read_u8_if(packet_format >= 2023)?;
        let sector3_time_ms_part: u16 = cursor.read_u16()?;
        let sector3_time_minutes: u8 = cursor.read_u8_if(packet_format >= 2023)?;
        let lap_valid_bit_flags: LapValid = cursor.read_lap_valid()?;
        Ok(
            LapHistoryData {
                lap_time_ms,
                sector1_time_ms_part,
                sector1_time_minutes_part,
                sector2_time_ms_part,
                sector2_time_minutes_part,
                sector3_time_ms_part,
                sector3_time_minutes,
                lap_valid_bit_flags,
            },
        )
    }
}

impl LapHistoryData {
    /// Number of bytes of this record on the wire.
    pub open spec fn wire_width(packet_format: u16) -> nat {
        if packet_format >= 2023 {
            14
        } else {
            11
        }
    }

    /// Every successful decode of this record takes `wire_width` bytes.
    pub proof fn lemma_wire_width(packet_format: u16)
        ensures
            has_width::<LapHistoryData>(packet_format, Self::wire_width(packet_format)),
    {
    }
}

/// One tyre stint of a session history.
#[non_exhaustive]
#[derive(Debug, Clone, Copy, PartialEq, Eq, PartialOrd, Ord)]
pub struct TyreStintHistoryData {
    /// Lap the tyre usage ends on (255 if current tyre).
    pub end_lap: usize,
    /// Actual tyre compound used.
    pub actual_tyre_compound: ActualTyreCompound,
    /// Visual tyre compound used.
    pub visual_tyre_compound: VisualTyreCompound,
}

impl DeepView for TyreStintHistoryData {
    type V = TyreStintHistoryData;

    open spec fn deep_view(&self) -> TyreStintHistoryData {
        *self
    }
}

impl Decode for TyreStintHistoryData {
    open spec fn decoded(w: Wire, packet_format: u16) -> (Wire, TyreStintHistoryData) {
        let (w, end_lap) = w.index();
        let (w, actual_tyre_compound) = w.code::<ActualTyreCompound>();
        let (w, visual_tyre_compound) = w.code::<VisualTyreCompound>();
        (w, TyreStintHistoryData { end_lap, actual_tyre_compound, visual_tyre_compound })
    }

    fn decode(cursor: &mut ByteCursor, packet_format: u16) -> (r: Result<
        TyreStintHistoryData,
        DecodeError,
    >) {
        let end_lap: usize = cursor.read_index()?;
        let actual_tyre_compound: ActualTyreCompound = cursor.read_code()?;
        let visual_tyre_compound: VisualTyreCompound = cursor.read_code()?;
        Ok(TyreStintHistoryData { end_lap, actual_tyre_compound, visual_tyre_compound })
    }
}

impl TyreStintHistoryData {
    /// Number of bytes of this record on the wire.
    pub open spec fn wire_width(packet_format: u16) -> nat {
        3
    }

    /// Every successful decode of this record takes `wire_width` bytes.
    pub proof fn lemma_wire_width(packet_format: u16)
        ensures
            has_width::<TyreStintHistoryData>(packet_format, Self::wire_width(packet_format)),
    {
    }
}

/// Packet detailing lap and tyre data history for a given driver in the
/// session.
#[non_exhaustive]
#[derive(Debug, Clone, PartialEq, Eq)]
pub struct F1PacketSessionHistory {
    /// Index of the car this packet refers to.
    pub vehicle_index: usize,
    /// Number of laps in the data (including the current one).
    pub num_laps: usize,
    /// Number of tyre stints in the data (including the current one).
    pub num_tyre_stints: usize,
    /// Number of the lap the best lap time was achieved on.
    pub best_lap_time_lap_num: usize,
    /// Number of the lap the best sector 1 time was achieved on.
    pub best_sector1_lap_num: usize,
    /// Number of the lap the best sector 2 time was achieved on.
    pub best_sector2_lap_num: usize,
    /// Number of the lap the best sector 3 time was achieved on.
    pub best_sector3_lap_num: usize,
    /// Lap history. Should have a size equal to `num_laps`.
    pub lap_history_data: Vec<LapHistoryData>,
    /// Tyre stint history. Should have a size equal to `num_tyre_stints`.
    pub tyre_stint_history_data: Vec<TyreStintHistoryData>,
}

/// A [`F1PacketSessionHistory`] as a mathematical value: each list a sequence, each text a
/// sequence of characters.
pub struct F1PacketSessionHistoryView {
    pub vehicle_index: usize,
    pub num_laps: usize,
    pub num_tyre_stints: usize,
    pub best_lap_time_lap_num: usize,
    pub best_sector1_lap_num: usize,
    pub best_sector2_lap_num: usize,
    pub best_sector3_lap_num: usize,
    pub lap_history_data: Seq<LapHistoryData>,
    pub tyre_stint_history_data: Seq<TyreStintHistoryData>,
}

impl DeepView for F1PacketSessionHistory {
    type V = F1PacketSessionHistoryView;

    open spec fn deep_view(&self) -> F1PacketSessionHistoryView {
        F1PacketSessionHistoryView {
            vehicle_index: self.vehicle_index,
            num_laps: self.num_laps,
            num_tyre_stints: self.num_tyre_stints,
            best_lap_time_lap_num: self.best_lap_time_lap_num,
            best_sector1_lap_num: self.best_sector1_lap_num,
            best_sector2_lap_num: self.best_sector2_lap_num,
            best_sector3_lap_num: self.best_sector3_lap_num,
            lap_history_data: self.lap_history_data.deep_view(),
            tyre_stint_history_data: self.tyre_stint_history_data.deep_view(),
        }
    }
}

impl Decode for F1PacketSessionHistory {
    open spec fn decoded(w: Wire, packet_format: u16) -> (Wire, F1PacketSessionHistoryView) {
        let start = w.pos;
        let (w, vehicle_index) = w.index();
        let w = w.in_range(
            vehicle_index < MAX_NUM_CARS,
            FieldName::HistoryVehicleIndex,
            vehicle_index as int,
            start,
        );
        let (w, num_laps) = w.index();
        let w = w.fits(FieldName::NumLaps, num_laps, MAX_NUM_LAPS, start);
        let (w, num_tyre_stints) = w.index();
        let w = w.fits(FieldName::NumTyreStints, num_tyre_stints, MAX_NUM_TYRE_STINTS, start);
        let (w, best_lap_time_lap_num) = w.index();
        let (w, best_sector1_lap_num) = w.index();
        let (w, best_sector2_lap_num) = w.index();
        let (w, best_sector3_lap_num) = w.index();
        let (w, lap_history_data) = decoded_padded::<LapHistoryData>(
            w,
            num_laps,
            MAX_NUM_LAPS,
            get_lap_history_raw_size(packet_format),
            packet_format,
        );
        let (w, tyre_stint_history_data) = decoded_list::<TyreStintHistoryData>(
            w,
            num_tyre_stints as nat,
            packet_format,
        );
        (
            w,
            F1PacketSessionHistoryView {
                vehicle_index,
                num_laps,
                num_tyre_stints,
                best_lap_time_lap_num,
                best_sector1_lap_num,
                best_sector2_lap_num,
                best_sector3_lap_num,
                lap_history_data,
                tyre_stint_history_data,
            },
        )
    }

    fn decode(cursor: &mut ByteCursor, packet_format: u16) -> (r: Result<
        F1PacketSessionHistory,
        DecodeError,
    >) {
        let start: usize = cursor.position();
        let vehicle_index: usize = cursor.read_index()?;
        cursor.in_range(
            vehicle_index < MAX_NUM_CARS,
            FieldName::HistoryVehicleIndex,
            vehicle_index as i64,
            start,
        )?;
        let num_laps: usize = cursor.read_index()?;
        cursor.fits(FieldName::NumLaps, num_laps, MAX_NUM_LAPS, start)?;
        let num_tyre_stints: usize = cursor.read_index()?;
        cursor.fits(FieldName::NumTyreStints, num_tyre_stints, MAX_NUM_TYRE_STINTS, start)?;
        let best_lap_time_lap_num: usize = cursor.read_index()?;
        let best_sector1_lap_num: usize = cursor.read_index()?;
        let best_sector2_lap_num: usize = cursor.read_index()?;
        let best_sector3_lap_num: usize = cursor.read_index()?;
        let lap_history_data: Vec<LapHistoryData> = decode_padded(
            cursor,
            num_laps,
            MAX_NUM_LAPS,
            get_lap_history_raw_size(packet_format),
            packet_format,
        )?;
        let tyre_stint_history_data: Vec<TyreStintHistoryData> = decode_list(
            cursor,
            num_tyre_stints,
            packet_format,
        )?;
        Ok(
            F1PacketSessionHistory {
                vehicle_index,
                num_laps,
                num_tyre_stints,
                best_lap_time_lap_num,
                best_sector1_lap_num,
                best_sector2_lap_num,
                best_sector3_lap_num,
                lap_history_data,
                tyre_stint_history_data,
            },
        )
    }
}

} // verus!
