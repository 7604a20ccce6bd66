//! The time trial packet.

use vstd::prelude::*;
use crate::constants::GearboxAssist;
use crate::constants::MAX_NUM_CARS;
use crate::constants::TractionControl;
use crate::cursor::ByteCursor;
use crate::decode::Decode;
use crate::decode::has_width;
use crate::error::DecodeError;
use crate::error::FieldName;
use crate::wire::Wire;

verus! {

/// One run in time trial: the car, the times and the assists.
#[non_exhaustive]
#[derive(Debug, Clone, Copy, PartialEq, Eq, PartialOrd, Ord)]
pub struct TimeTrialDataSet {
    /// Index of the car this data set relates to.
    pub vehicle_index: usize,
    /// Team's ID.
    pub team_id: u8,
    /// Lap time in milliseconds.
    pub lap_time_ms: u32,
    /// Sector 1 time in milliseconds.
    pub sector1_time_ms: u32,
    /// Sector 2 time in milliseconds.
    pub sector2_time_ms: u32,
    /// Sector 3 time in milliseconds.
    pub sector3_time_ms: u32,
    /// Type of traction control assist enabled.
    pub traction_control: TractionControl,
    /// Type of gearbox assist enabled.
    pub gearbox_assist: GearboxAssist,
    /// Whether ABS is enabled.
    pub anti_lock_brakes: bool,
    /// Whether equal car performance is enabled.
    pub equal_car_performance: bool,
    /// Whether custom setup is in use.
    pub custom_setup: bool,
    /// Whether this lap is valid.
    pub valid: bool,
}

impl DeepView for TimeTrialDataSet {
    type V = TimeTrialDataSet;

    open spec fn deep_view(&self) -> TimeTrialDataSet {
        *self
    }
}

impl Decode for TimeTrialDataSet {
    open spec fn decoded(w: Wire, packet_format: u16) -> (Wire, TimeTrialDataSet) {
        let start = w.pos;
        let (w, vehicle_index) = w.index();
        let w = w.in_range(
            vehicle_index < MAX_NUM_CARS,
            FieldName::TimeTrialVehicleIndex,
            vehicle_index as int,
            start,
        );
        let (w, team_id) = w.u8();
        let (w, lap_time_ms) = w.u32();
        let (w, sector1_time_ms) = w.u32();
        let (w, sector2_time_ms) = w.u32();
        let (w, sector3_time_ms) = w.u32();
        let (w, traction_control) = w.code::<TractionControl>();
        let (w, gearbox_assist) = w.code::<GearboxAssist>();
        let (w, anti_lock_brakes) = w.boolean();
        let (w, equal_car_performance) = w.boolean();
        let (w, custom_setup) = w.boolean();
        let (w, valid) = w.boolean();
        (
            w,
            TimeTrialDataSet {
                vehicle_index,
                team_id,
                lap_time_ms,
                sector1_time_ms,
                sector2_time_ms,
                sector3_time_ms,
                traction_control,
                gearbox_assist,
                anti_lock_brakes,
                equal_car_performance,
                custom_setup,
                valid,
            },
        )
    }

    fn decode(cursor: &mut ByteCursor, packet_format: u16) -> (r: Result<
        TimeTrialDataSet,
        DecodeError,
    >) {
        let start: usize = cursor.position();
        let vehicle_index: usize = cursor.read_index()?;
        cursor.in_range(
            vehicle_index < MAX_NUM_CARS,
            FieldName::TimeTrialVehicleIndex,
            vehicle_index as i64,
            start,
        )?;
        let team_id: u8 = cursor.read_u8()?;
        let lap_time_ms: u32 = cursor.read_u32()?;
        let sector1_time_ms: u32 = cursor.read_u32()?;
        let sector2_time_ms: u32 = cursor.read_u32()?;
        let sector3_time_ms: u32 = cursor.read_u32()?;
        let traction_control: TractionControl = cursor.read_code()?;
        let gearbox_assist: GearboxAssist = cursor.read_code()?;
        let anti_lock_brakes: bool = cursor.read_bool()?;
        let equal_car_performance: bool = cursor.read_bool()?;
        let custom_setup: bool = cursor.read_bool()?;
        let valid: bool = cursor.read_bool()?;
        Ok(
            TimeTrialDataSet {
                vehicle_index,
                team_id,
                lap_time_ms,
                sector1_time_ms,
                sector2_time_ms,
                sector3_time_ms,
                traction_control,
                gearbox_assist,
                anti_lock_brakes,
                equal_car_performance,
                custom_setup,
                valid,
            },
        )
    }
}

impl TimeTrialDataSet {
    /// Number of bytes of this record on the wire.
    pub open spec fn wire_width(packet_format: u16) -> nat {
        24
    }

    /// Every successful decode of this record takes `wire_width` bytes.
    pub proof fn lemma_wire_width(packet_format: u16)
        ensures
            has_width::<TimeTrialDataSet>(packet_format, Self::wire_width(packet_format)),
    {
    }
}

/// Extra information that's only relevant to time trial game mode. Available
/// from the 2024 format onwards.
#[non_exhaustive]
#[derive(Debug, Clone, PartialEq, Eq, PartialOrd, Ord)]
pub struct F1PacketTimeTrial {
    /// Data set of player's best run this session.
    pub player_session_best_data_set: TimeTrialDataSet,
    /// Data set of player's personal best run.
    pub personal_best_data_set: TimeTrialDataSet,
    /// Data set of rival's best run.
    pub rival_data_set: TimeTrialDataSet,
}

impl DeepView for F1PacketTimeTrial {
    type V = F1PacketTimeTrial;

    open spec fn deep_view(&self) -> F1PacketTimeTrial {
        *self
    }
}

impl Decode for F1PacketTimeTrial {
    open spec fn decoded(w: Wire, packet_format: u16) -> (Wire, F1PacketTimeTrial) {
        let (w, player_session_best_data_set) = TimeTrialDataSet::decoded(w, packet_format);
        let (w, personal_best_data_set) = TimeTrialDataSet::decoded(w, packet_format);
        let (w, rival_data_set) = TimeTrialDataSet::decoded(w, packet_format);
        (
            w,
            F1PacketTimeTrial {
                player_session_best_data_set,
                personal_best_data_set,
                rival_data_set,
            },
        )
    }

    fn decode(cursor: &mut ByteCursor, packet_format: u16) -> (r: Result<
        F1PacketTimeTrial,
        DecodeError,
    >) {
        let player_session_best_data_set: TimeTrialDataSet = TimeTrialDataSet::decode(
            cursor,
            packet_format,
        )?;
        let personal_best_data_set: TimeTrialDataSet = TimeTrialDataSet::decode(
            cursor,
            packet_format,
        )?;
        let rival_data_set: TimeTrialDataSet = TimeTrialDataSet::decode(cursor, packet_format)?;
        Ok(
            F1PacketTimeTrial {
                player_session_best_data_set,
                personal_best_data_set,
                rival_data_set,
            },
        )
    }
}

impl F1PacketTimeTrial {
    /// Number of bytes of this record on the wire.
    pub open spec fn wire_width(packet_format: u16) -> nat {
        72
    }

    /// Every successful decode of this record takes `wire_width` bytes.
    pub proof fn lemma_wire_width(packet_format: u16)
        ensures
            has_width::<F1PacketTimeTrial>(packet_format, Self::wire_width(packet_format)),
    {
        TimeTrialDataSet::lemma_wire_width(packet_format);
    }
}

} // verus!
