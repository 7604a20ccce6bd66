//! The final classification packet, sent at the end of a race.

use vstd::prelude::*;
use crate::constants::ActualTyreCompound;
use crate::constants::MAX_NUM_CARS;
use crate::constants::ResultStatus;
use crate::constants::VisualTyreCompound;
use crate::cursor::ByteCursor;
use crate::decode::Decode;
use crate::decode::decode_list;
use crate::decode::decode_padded;
use crate::decode::decoded_list;
use crate::decode::decoded_padded;
use crate::error::DecodeError;
use crate::error::FieldName;
use crate::wire::F64Bits;
use crate::wire::Wire;

verus! {

/// Room for tyre stints in a classification entry.
pub const MAX_NUM_TYRE_STINTS: usize = 8;

/// Where one car finished, and on which tyres.
#[non_exhaustive]
#[derive(Debug, Clone, PartialEq, Eq)]
pub struct FinalClassificationData {
    /// Finishing position.
    pub position: u8,
    /// Number of laps completed.
    pub num_laps: u8,
    /// Grid position of the car.
    pub grid_position: u8,
    /// Number of points scored.
    pub points: u8,
    /// Number of pit stops made.
    pub num_pit_stops: u8,
    /// Result status.
    pub result_status: ResultStatus,
    /// Best lap time of the session in milliseconds.
    pub best_lap_time_ms: u32,
    /// Total race time in seconds (without penalties).
    pub total_race_time: F64Bits,
    /// Total penalties accumulated in seconds.
    pub penalties_time: u8,
    /// Number of penalties applied to this driver.
    pub num_penalties: u8,
    /// Number of tyre stints.
    pub num_tyre_stints: usize,
    /// Actual tyres used by the driver. Should have a size equal to
    /// `num_tyre_stints`.
    pub tyre_stints_actual: Vec<ActualTyreCompound>,
    /// Visual tyres used by the driver. Should have a size equal to
    /// `num_tyre_stints`.
    pub tyre_stints_visual: Vec<VisualTyreCompound>,
    /// The lap numbers the stints end on. Should have a size equal to
    /// `num_tyre_stints`.
    pub tyre_stints_end_laps: Vec<u8>,
}

/// A [`FinalClassificationData`] as a mathematical value: each list a sequence, each text a
/// sequence of characters.
pub struct FinalClassificationDataView {
    pub position: u8,
    pub num_laps: u8,
    pub grid_position: u8,
    pub points: u8,
    pub num_pit_stops: u8,
    pub result_status: ResultStatus,
    pub best_lap_time_ms: u32,
    pub total_race_time: F64Bits,
    pub penalties_time: u8,
    pub num_penalties: u8,
    pub num_tyre_stints: usize,
    pub tyre_stints_actual: Seq<ActualTyreCompound>,
    pub tyre_stints_visual: Seq<VisualTyreCompound>,
    pub tyre_stints_end_laps: Seq<u8>,
}

impl DeepView for FinalClassificationData {
    type V = FinalClassificationDataView;

    open spec fn deep_view(&self) -> FinalClassificationDataView {
        FinalClassificationDataView {
            position: self.position,
            num_laps: self.num_laps,
            grid_position: self.grid_position,
            points: self.points,
            num_pit_stops: self.num_pit_stops,
            result_status: self.result_status,
            best_lap_time_ms: self.best_lap_time_ms,
            total_race_time: self.total_race_time,
            penalties_time: self.penalties_time,
            num_penalties: self.num_penalties,
            num_tyre_stints: self.num_tyre_stints,
            tyre_stints_actual: self.tyre_stints_actual.deep_view(),
            tyre_stints_visual: self.tyre_stints_visual.deep_view(),
            tyre_stints_end_laps: self.tyre_stints_end_laps@,
        }
    }
}

impl Decode for FinalClassificationData {
    open spec fn decoded(w: Wire, packet_format: u16) -> (Wire, FinalClassificationDataView) {
        let start = w.pos;
        let (w, position) = w.u8();
        let (w, num_laps) = w.u8();
        let (w, grid_position) = w.u8();
        let (w, points) = w.u8();
        let (w, num_pit_stops) = w.u8();
        let (w, result_status) = w.code::<ResultStatus>();
        let (w, best_lap_time_ms) = w.u32();
        let (w, total_race_time) = w.double();
        let (w, penalties_time) = w.u8();
        let (w, num_penalties) = w.u8();
        let (w, num_tyre_stints) = w.index();
        let w = w.fits(
            FieldName::NumClassifiedTyreStints,
            num_tyre_stints,
            MAX_NUM_TYRE_STINTS,
            start,
        );
        let (w, tyre_stints_actual) = decoded_padded::<ActualTyreCompound>(
            w,
            num_tyre_stints,
            MAX_NUM_TYRE_STINTS,
            1,
            packet_format,
        );
        let (w, tyre_stints_visual) = decoded_padded::<VisualTyreCompound>(
            w,
            num_tyre_stints,
            MAX_NUM_TYRE_STINTS,
            1,
            packet_format,
        );
        let (w, tyre_stints_end_laps) = w.padded_bytes(num_tyre_stints, MAX_NUM_TYRE_STINTS);
        (
            w,
            FinalClassificationDataView {
                position,
                num_laps,
                grid_position,
                points,
                num_pit_stops,
                result_status,
                best_lap_time_ms,
                total_race_time,
                penalties_time,
                num_penalties,
                num_tyre_stints,
                tyre_stints_actual,
                tyre_stints_visual,
                tyre_stints_end_laps,
            },
        )
    }

    fn decode(cursor: &mut ByteCursor, packet_format: u16) -> (r: Result<
        FinalClassificationData,
        DecodeError,
    >) {
        let start: usize = cursor.position();
        let position: u8 = cursor.read_u8()?;
        let num_laps: u8 = cursor.read_u8()?;
        let grid_position: u8 = cursor.read_u8()?;
        let points: u8 = cursor.read_u8()?;
        let num_pit_stops: u8 = cursor.read_u8()?;
        let result_status: ResultStatus = cursor.read_code()?;
        let best_lap_time_ms: u32 = cursor.read_u32()?;
        let total_race_time: F64Bits = cursor.read_f64()?;
        let penalties_time: u8 = cursor.read_u8()?;
        let num_penalties: u8 = cursor.read_u8()?;
        let num_tyre_stints: usize = cursor.read_index()?;
        cursor.fits(
            FieldName::NumClassifiedTyreStints,
            num_tyre_stints,
            MAX_NUM_TYRE_STINTS,
            start,
        )?;
        let tyre_stints_actual: Vec<ActualTyreCompound> = decode_padded(
            cursor,
            num_tyre_stints,
            MAX_NUM_TYRE_STINTS,
            1,
            packet_format,
        )?;
        let tyre_stints_visual: Vec<VisualTyreCompound> = decode_padded(
            cursor,
            num_tyre_stints,
            MAX_NUM_TYRE_STINTS,
            1,
            packet_format,
        )?;
        let tyre_stints_end_laps: Vec<u8> = cursor.read_padded_bytes(
            num_tyre_stints,
            MAX_NUM_TYRE_STINTS,
        )?;
        Ok(
            FinalClassificationData {
                position,
                num_laps,
                grid_position,
                points,
                num_pit_stops,
                result_status,
                best_lap_time_ms,
                total_race_time,
                penalties_time,
                num_penalties,
                num_tyre_stints,
                tyre_stints_actual,
                tyre_stints_visual,
                tyre_stints_end_laps,
            },
        )
    }
}

/// Final classification confirmation at the end of a race.
#[non_exhaustive]
#[derive(Debug, Clone, PartialEq, Eq)]
pub struct F1PacketFinalClassification {
    /// Number of cars in the final classification.
    pub num_cars: usize,
    /// Final classification data for all cars. Should have a size equal to
    /// `num_cars`.
    pub data: Vec<FinalClassificationData>,
}

/// A [`F1PacketFinalClassification`] as a mathematical value: each list a sequence, each text a
/// sequence of characters.
pub struct F1PacketFinalClassificationView {
    pub num_cars: usize,
    pub data: Seq<FinalClassificationDataView>,
}

impl DeepView for F1PacketFinalClassification {
    type V = F1PacketFinalClassificationView;

    open spec fn deep_view(&self) -> F1PacketFinalClassificationView {
        F1PacketFinalClassificationView {
            num_cars: self.num_cars,
            data: self.data.deep_view(),
        }
    }
}

impl Decode for F1PacketFinalClassification {
    open spec fn decoded(w: Wire, packet_format: u16) -> (Wire, F1PacketFinalClassificationView) {
        let start = w.pos;
        let (w, num_cars) = w.index();
        let w = w.fits(FieldName::NumClassifiedCars, num_cars, MAX_NUM_CARS, start);
        let (w, data) = decoded_list::<FinalClassificationData>(w, num_cars as nat, packet_format);
        (w, F1PacketFinalClassificationView { num_cars, data })
    }

    fn decode(cursor: &mut ByteCursor, packet_format: u16) -> (r: Result<
        F1PacketFinalClassification,
        DecodeError,
    >) {
        let start: usize = cursor.position();
        let num_cars: usize = cursor.read_index()?;
        cursor.fits(FieldName::NumClassifiedCars, num_cars, MAX_NUM_CARS, start)?;
        let data: Vec<FinalClassificationData> = decode_list(cursor, num_cars, packet_format)?;
        Ok(F1PacketFinalClassification { num_cars, data })
    }
}

} // verus!
