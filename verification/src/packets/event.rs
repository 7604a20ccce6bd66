//! The event packet: a four-letter code and the details that belong to it.

use vstd::prelude::*;
use vstd::utf8::decode_utf8;
use vstd::utf8::valid_utf8;
use crate::constants::InfringementType;
use crate::constants::MAX_NUM_CARS;
use crate::constants::PenaltyType;
use crate::constants::SafetyCarEventType;
use crate::constants::SafetyCarType;
use crate::constants::flags::ButtonStatus;
use crate::cursor::ByteCursor;
use crate::cursor::follows;
use crate::decode::Decode;
use crate::error::DecodeError;
use crate::error::FieldName;
use crate::packets::string_from_utf8;
use crate::wire::F32Bits;
use crate::wire::Wire;

verus! {

/// Width of an event code on the wire.
pub const EVENT_CODE_WIDTH: usize = 4;

/// The code `SSTA`, its four letters read as a little-endian number.
pub const SSTA: u32 = 0x53 + 0x53 * 0x100 + 0x54 * 0x1_0000 + 0x41 * 0x100_0000;

/// The code `SEND`, its four letters read as a little-endian number.
pub const SEND: u32 = 0x53 + 0x45 * 0x100 + 0x4E * 0x1_0000 + 0x44 * 0x100_0000;

/// The code `FTLP`, its four letters read as a little-endian number.
pub const FTLP: u32 = 0x46 + 0x54 * 0x100 + 0x4C * 0x1_0000 + 0x50 * 0x100_0000;

/// The code `RTMT`, its four letters read as a little-endian number.
pub const RTMT: u32 = 0x52 + 0x54 * 0x100 + 0x4D * 0x1_0000 + 0x54 * 0x100_0000;

/// The code `DRSE`, its four letters read as a little-endian number.
pub const DRSE: u32 = 0x44 + 0x52 * 0x100 + 0x53 * 0x1_0000 + 0x45 * 0x100_0000;

/// The code `DRSD`, its four letters read as a little-endian number.
pub const DRSD: u32 = 0x44 + 0x52 * 0x100 + 0x53 * 0x1_0000 + 0x44 * 0x100_0000;

/// The code `TMPT`, its four letters read as a little-endian number.
pub const TMPT: u32 = 0x54 + 0x4D * 0x100 + 0x50 * 0x1_0000 + 0x54 * 0x100_0000;

/// The code `CHQF`, its four letters read as a little-endian number.
pub const CHQF: u32 = 0x43 + 0x48 * 0x100 + 0x51 * 0x1_0000 + 0x46 * 0x100_0000;

/// The code `RCWN`, its four letters read as a little-endian number.
pub const RCWN: u32 = 0x52 + 0x43 * 0x100 + 0x57 * 0x1_0000 + 0x4E * 0x100_0000;

/// The code `PENA`, its four letters read as a little-endian number.
pub const PENA: u32 = 0x50 + 0x45 * 0x100 + 0x4E * 0x1_0000 + 0x41 * 0x100_0000;

/// The code `SPTP`, its four letters read as a little-endian number.
pub const SPTP: u32 = 0x53 + 0x50 * 0x100 + 0x54 * 0x1_0000 + 0x50 * 0x100_0000;

/// The code `STLG`, its four letters read as a little-endian number.
pub const STLG: u32 = 0x53 + 0x54 * 0x100 + 0x4C * 0x1_0000 + 0x47 * 0x100_0000;

/// The code `LGOT`, its four letters read as a little-endian number.
pub const LGOT: u32 = 0x4C + 0x47 * 0x100 + 0x4F * 0x1_0000 + 0x54 * 0x100_0000;

/// The code `DTSV`, its four letters read as a little-endian number.
pub const DTSV: u32 = 0x44 + 0x54 * 0x100 + 0x53 * 0x1_0000 + 0x56 * 0x100_0000;

/// The code `SGSV`, its four letters read as a little-endian number.
pub const SGSV: u32 = 0x53 + 0x47 * 0x100 + 0x53 * 0x1_0000 + 0x56 * 0x100_0000;

/// The code `FLBK`, its four letters read as a little-endian number.
pub const FLBK: u32 = 0x46 + 0x4C * 0x100 + 0x42 * 0x1_0000 + 0x4B * 0x100_0000;

/// The code `BUTN`, its four letters read as a little-endian number.
pub const BUTN: u32 = 0x42 + 0x55 * 0x100 + 0x54 * 0x1_0000 + 0x4E * 0x100_0000;

/// The code `RDFL`, its four letters read as a little-endian number.
pub const RDFL: u32 = 0x52 + 0x44 * 0x100 + 0x46 * 0x1_0000 + 0x4C * 0x100_0000;

/// The code `OVTK`, its four letters read as a little-endian number.
pub const OVTK: u32 = 0x4F + 0x56 * 0x100 + 0x54 * 0x1_0000 + 0x4B * 0x100_0000;

/// The code `SCAR`, its four letters read as a little-endian number.
pub const SCAR: u32 = 0x53 + 0x43 * 0x100 + 0x41 * 0x1_0000 + 0x52 * 0x100_0000;

/// The code `COLL`, its four letters read as a little-endian number.
pub const COLL: u32 = 0x43 + 0x4F * 0x100 + 0x4C * 0x1_0000 + 0x4C * 0x100_0000;

/// What happened, with the details that the game sends along.
#[non_exhaustive]
#[derive(Debug, Clone, Copy, PartialEq, Eq)]
pub enum EventDetails {
    /// Sent when the session starts.
    SessionStarted,
    /// Sent when the session ends.
    SessionEnded,
    /// Sent when a driver achieves the fastest lap.
    FastestLap {
        /// Index of the car that has achieved the fastest lap.
        vehicle_index: usize,
        /// Lap time in seconds.
        lap_time: F32Bits,
    },
    /// Sent when a driver retires.
    Retirement {
        /// Index of the retiring car.
        vehicle_index: usize,
    },
    /// Sent when race control enable DRS.
    DrsEnabled,
    /// Sent when race control disable DRS.
    DrsDisabled,
    /// Sent when your teammate enters the pit lane.
    TeamMateInPits {
        /// Index of the teammate's car.
        vehicle_index: usize,
    },
    /// Sent when the chequered flag has been waved.
    ChequeredFlag,
    /// Sent when the race winner has been announced.
    RaceWinner {
        /// Index of the race winner's car.
        vehicle_index: usize,
    },
    /// Sent when a penalty has been issued.
    Penalty {
        /// Penalty type.
        penalty_type: PenaltyType,
        /// Infringement type.
        infringement_type: InfringementType,
        /// Index of the car the penalty is applied to.
        vehicle_index: usize,
        /// Index of the other car involved. Set to 255 if only one driver is
        /// involved.
        other_vehicle_index: usize,
        /// Time gained or spent doing the action in seconds.
        time: u8,
        /// Number of the lap the infringement occurred on.
        lap_num: u8,
        /// Number of places gained by this infringement.
        places_gained: u8,
    },
    /// Sent when a speed trap is triggered.
    SpeedTrap {
        /// Index of the car that has triggered the speed trap.
        vehicle_index: usize,
        /// Top speed achieved in kilometres per hour.
        speed: F32Bits,
        /// Whether the driver is overall fastest in the session.
        is_overall_fastest_in_session: bool,
        /// Whether this speed is personal fastest in the session.
        is_driver_fastest_in_session: bool,
        /// Index of the vehicle that is the fastest in the session.
        fastest_vehicle_index: usize,
        /// Fastest speed in the session in kilometres per hour.
        fastest_speed_in_session: F32Bits,
    },
    /// Sent when a start light is lit.
    StartLights {
        /// Number of lights showing.
        num_lights: u8,
    },
    /// Sent when the lights go out.
    LightsOut,
    /// Sent when a driver has served a drive-through penalty.
    DriveThroughServed {
        /// Index of the vehicle serving the penalty.
        vehicle_index: usize,
    },
    /// Sent when a driver has served a stop-go penalty.
    StopGoServed {
        /// Index of the vehicle serving the penalty.
        vehicle_index: usize,
    },
    /// Sent when a flashback is activated.
    Flashback {
        /// Frame identifier that has been flashed back to.
        frame_identifier: u32,
        /// Session time that has been flashed back to.
        flashback_session_time: F32Bits,
    },
    /// Sent when the button status has changed.
    Buttons {
        /// Bitmap specifying which buttons are currently pressed.
        button_status: ButtonStatus,
    },
    /// Sent when the red flag is shown. Available from the 2023 format onwards.
    RedFlag,
    /// Sent when a car has overtaken another. Available from the 2023 format onwards.
    Overtake {
        /// Index of the overtaking vehicle.
        overtaking_vehicle_index: usize,
        /// Index of the overtaken vehicle.
        overtaken_vehicle_index: usize,
    },
    /// Sent when the safety car gets deployed. Only in the 2024 format.
    SafetyCar {
        /// Type of the safety car that has been deployed.
        safety_car_type: SafetyCarType,
        /// New safety car deployment status.
        event_type: SafetyCarEventType,
    },
    /// Sent when two vehicles collide. Only in the 2024 format.
    Collision {
        /// Index of the first vehicle involved in the collision.
        vehicle_index: usize,
        /// Index of the second vehicle involved in the collision.
        other_vehicle_index: usize,
    },
}

impl DeepView for EventDetails {
    type V = EventDetails;

    open spec fn deep_view(&self) -> EventDetails {
        *self
    }
}

impl EventDetails {
    /// The details behind the code `FTLP`, which stands at `start`.
    pub open spec fn decoded_fastest_lap(w: Wire, start: usize) -> (Wire, EventDetails) {
        let (w, vehicle_index) = w.index();
        let w = w.in_range(
            vehicle_index < MAX_NUM_CARS,
            FieldName::FastestLapVehicleIndex,
            vehicle_index as int,
            start,
        );
        let (w, lap_time) = w.single();
        (w, EventDetails::FastestLap { vehicle_index, lap_time })
    }

    /// Reads the details of this kind of event.
    pub fn decode_fastest_lap(cursor: &mut ByteCursor, start: usize) -> (r: Result<
        EventDetails,
        DecodeError,
    >)
        ensures
            follows(r, final(cursor)@, Self::decoded_fastest_lap(old(cursor)@, start)),
    {
        let vehicle_index: usize = cursor.read_index()?;
        cursor.in_range(
            vehicle_index < MAX_NUM_CARS,
            FieldName::FastestLapVehicleIndex,
            vehicle_index as i64,
            start,
        )?;
        let lap_time: F32Bits = cursor.read_f32()?;
        Ok(EventDetails::FastestLap { vehicle_index, lap_time })
    }

    /// The details behind the code `RTMT`, which stands at `start`.
    pub open spec fn decoded_retirement(w: Wire, start: usize) -> (Wire, EventDetails) {
        let (w, vehicle_index) = w.index();
        let w = w.in_range(
            vehicle_index < MAX_NUM_CARS,
            FieldName::RetirementVehicleIndex,
            vehicle_index as int,
            start,
        );
        (w, EventDetails::Retirement { vehicle_index })
    }

    /// Reads the details of this kind of event.
    pub fn decode_retirement(cursor: &mut ByteCursor, start: usize) -> (r: Result<
        EventDetails,
        DecodeError,
    >)
        ensures
            follows(r, final(cursor)@, Self::decoded_retirement(old(cursor)@, start)),
    {
        let vehicle_index: usize = cursor.read_index()?;
        cursor.in_range(
            vehicle_index < MAX_NUM_CARS,
            FieldName::RetirementVehicleIndex,
            vehicle_index as i64,
            start,
        )?;
        Ok(EventDetails::Retirement { vehicle_index })
    }

    /// The details behind the code `TMPT`, which stands at `start`.
    pub open spec fn decoded_team_mate_in_pits(w: Wire, start: usize) -> (Wire, EventDetails) {
        let (w, vehicle_index) = w.index();
        let w = w.in_range(
            vehicle_index < MAX_NUM_CARS,
            FieldName::TeamMateInPitsVehicleIndex,
            vehicle_index as int,
            start,
        );
        (w, EventDetails::TeamMateInPits { vehicle_index })
    }

    /// Reads the details of this kind of event.
    pub fn decode_team_mate_in_pits(cursor: &mut ByteCursor, start: usize) -> (r: Result<
        EventDetails,
        DecodeError,
    >)
        ensures
            follows(r, final(cursor)@, Self::decoded_team_mate_in_pits(old(cursor)@, start)),
    {
        let vehicle_index: usize = cursor.read_index()?;
        cursor.in_range(
            vehicle_index < MAX_NUM_CARS,
            FieldName::TeamMateInPitsVehicleIndex,
            vehicle_index as i64,
            start,
        )?;
        Ok(EventDetails::TeamMateInPits { vehicle_index })
    }

    /// The details behind the code `RCWN`, which stands at `start`.
    pub open spec fn decoded_race_winner(w: Wire, start: usize) -> (Wire, EventDetails) {
        let (w, vehicle_index) = w.index();
        let w = w.in_range(
            vehicle_index < MAX_NUM_CARS,
            FieldName::RaceWinnerVehicleIndex,
            vehicle_index as int,
            start,
        );
        (w, EventDetails::RaceWinner { vehicle_index })
    }

    /// Reads the details of this kind of event.
    pub fn decode_race_winner(cursor: &mut ByteCursor, start: usize) -> (r: Result<
        EventDetails,
        DecodeError,
    >)
        ensures
            follows(r, final(cursor)@, Self::decoded_race_winner(old(cursor)@, start)),
    {
        let vehicle_index: usize = cursor.read_index()?;
        cursor.in_range(
            vehicle_index < MAX_NUM_CARS,
            FieldName::RaceWinnerVehicleIndex,
            vehicle_index as i64,
            start,
        )?;
        Ok(EventDetails::RaceWinner { vehicle_index })
    }

    /// The details behind the code `PENA`, which stands at `start`.
    pub open spec fn decoded_penalty(w: Wire, start: usize) -> (Wire, EventDetails) {
        let (w, penalty_type) = w.code::<PenaltyType>();
        let (w, infringement_type) = w.code::<InfringementType>();
        let (w, vehicle_index) = w.index();
        let w = w.in_range(
            vehicle_index < MAX_NUM_CARS,
            FieldName::PenaltyVehicleIndex,
            vehicle_index as int,
            start,
        );
        let (w, other_vehicle_index) = w.index();
        let (w, time) = w.u8();
        let (w, lap_num) = w.u8();
        let (w, places_gained) = w.u8();
        (
            w,
            EventDetails::Penalty {
                penalty_type,
                infringement_type,
                vehicle_index,
                other_vehicle_index,
                time,
                lap_num,
                places_gained,
            },
        )
    }

    /// Reads the details of this kind of event.
    pub fn decode_penalty(cursor: &mut ByteCursor, start: usize) -> (r: Result<
        EventDetails,
        DecodeError,
    >)
        ensures
            follows(r, final(cursor)@, Self::decoded_penalty(old(cursor)@, start)),
    {
        let penalty_type: PenaltyType = cursor.read_code()?;
        let infringement_type: InfringementType = cursor.read_code()?;
        let vehicle_index: usize = cursor.read_index()?;
        cursor.in_range(
            vehicle_index < MAX_NUM_CARS,
            FieldName::PenaltyVehicleIndex,
            vehicle_index as i64,
            start,
        )?;
        let other_vehicle_index: usize = cursor.read_index()?;
        let time: u8 = cursor.read_u8()?;
        let lap_num: u8 = cursor.read_u8()?;
        let places_gained: u8 = cursor.read_u8()?;
        Ok(
            EventDetails::Penalty {
                penalty_type,
                infringement_type,
                vehicle_index,
                other_vehicle_index,
                time,
                lap_num,
                places_gained,
            },
        )
    }

    /// The details behind the code `SPTP`, which stands at `start`.
    pub open spec fn decoded_speed_trap(w: Wire, start: usize) -> (Wire, EventDetails) {
        let (w, vehicle_index) = w.index();
        let w = w.in_range(
            vehicle_index < MAX_NUM_CARS,
            FieldName::SpeedTrapVehicleIndex,
            vehicle_index as int,
            start,
        );
        let (w, speed) = w.single();
        let (w, is_overall_fastest_in_session) = w.boolean();
        let (w, is_driver_fastest_in_session) = w.boolean();
        let (w, fastest_vehicle_index) = w.index();
        let w = w.in_range(
            fastest_vehicle_index < MAX_NUM_CARS,
            FieldName::SpeedTrapFastestVehicleIndex,
            fastest_vehicle_index as int,
            start,
        );
        let (w, fastest_speed_in_session) = w.single();
        (
            w,
            EventDetails::SpeedTrap {
                vehicle_index,
                speed,
                is_overall_fastest_in_session,
                is_driver_fastest_in_session,
                fastest_vehicle_index,
                fastest_speed_in_session,
            },
        )
    }

    /// Reads the details of this kind of event.
    pub fn decode_speed_trap(cursor: &mut ByteCursor, start: usize) -> (r: Result<
        EventDetails,
        DecodeError,
    >)
        ensures
            follows(r, final(cursor)@, Self::decoded_speed_trap(old(cursor)@, start)),
    {
        let vehicle_index: usize = cursor.read_index()?;
        cursor.in_range(
            vehicle_index < MAX_NUM_CARS,
            FieldName::SpeedTrapVehicleIndex,
            vehicle_index as i64,
            start,
        )?;
        let speed: F32Bits = cursor.read_f32()?;
        let is_overall_fastest_in_session: bool = cursor.read_bool()?;
        let is_driver_fastest_in_session: bool = cursor.read_bool()?;
        let fastest_vehicle_index: usize = cursor.read_index()?;
        cursor.in_range(
            fastest_vehicle_index < MAX_NUM_CARS,
            FieldName::SpeedTrapFastestVehicleIndex,
            fastest_vehicle_index as i64,
            start,
        )?;
        let fastest_speed_in_session: F32Bits = cursor.read_f32()?;
        Ok(
            EventDetails::SpeedTrap {
                vehicle_index,
                speed,
                is_overall_fastest_in_session,
                is_driver_fastest_in_session,
                fastest_vehicle_index,
                fastest_speed_in_session,
            },
        )
    }

    /// The details behind the code `STLG`.
    pub open spec fn decoded_start_lights(w: Wire) -> (Wire, EventDetails) {
        let (w, num_lights) = w.u8();
        (w, EventDetails::StartLights { num_lights })
    }

    /// Reads the details of this kind of event.
    pub fn decode_start_lights(cursor: &mut ByteCursor) -> (r: Result<EventDetails, DecodeError>)
        ensures
            follows(r, final(cursor)@, Self::decoded_start_lights(old(cursor)@)),
    {
        let num_lights: u8 = cursor.read_u8()?;
        Ok(EventDetails::StartLights { num_lights })
    }

    /// The details behind the code `DTSV`, which stands at `start`.
    pub open spec fn decoded_drive_through_served(w: Wire, start: usize) -> (Wire, EventDetails) {
        let (w, vehicle_index) = w.index();
        let w = w.in_range(
            vehicle_index < MAX_NUM_CARS,
            FieldName::DriveThroughServedVehicleIndex,
            vehicle_index as int,
            start,
        );
        (w, EventDetails::DriveThroughServed { vehicle_index })
    }

    /// Reads the details of this kind of event.
    pub fn decode_drive_through_served(cursor: &mut ByteCursor, start: usize) -> (r: Result<
        EventDetails,
        DecodeError,
    >)
        ensures
            follows(r, final(cursor)@, Self::decoded_drive_through_served(old(cursor)@, start)),
    {
        let vehicle_index: usize = cursor.read_index()?;
        cursor.in_range(
            vehicle_index < MAX_NUM_CARS,
            FieldName::DriveThroughServedVehicleIndex,
            vehicle_index as i64,
            start,
        )?;
        Ok(EventDetails::DriveThroughServed { vehicle_index })
    }

    /// The details behind the code `SGSV`, which stands at `start`.
    pub open spec fn decoded_stop_go_served(w: Wire, start: usize) -> (Wire, EventDetails) {
        let (w, vehicle_index) = w.index();
        let w = w.in_range(
            vehicle_index < MAX_NUM_CARS,
            FieldName::StopGoServedVehicleIndex,
            vehicle_index as int,
            start,
        );
        (w, EventDetails::StopGoServed { vehicle_index })
    }

    /// Reads the details of this kind of event.
    pub fn decode_stop_go_served(cursor: &mut ByteCursor, start: usize) -> (r: Result<
        EventDetails,
        DecodeError,
    >)
        ensures
            follows(r, final(cursor)@, Self::decoded_stop_go_served(old(cursor)@, start)),
    {
        let vehicle_index: usize = cursor.read_index()?;
        cursor.in_range(
            vehicle_index < MAX_NUM_CARS,
            FieldName::StopGoServedVehicleIndex,
            vehicle_index as i64,
            start,
        )?;
        Ok(EventDetails::StopGoServed { vehicle_index })
    }

    /// The details behind the code `FLBK`.
    pub open spec fn decoded_flashback(w: Wire) -> (Wire, EventDetails) {
        let (w, frame_identifier) = w.u32();
        let (w, flashback_session_time) = w.single();
        (w, EventDetails::Flashback { frame_identifier, flashback_session_time })
    }

    /// Reads the details of this kind of event.
    pub fn decode_flashback(cursor: &mut ByteCursor) -> (r: Result<EventDetails, DecodeError>)
        ensures
            follows(r, final(cursor)@, Self::decoded_flashback(old(cursor)@)),
    {
        let frame_identifier: u32 = cursor.read_u32()?;
        let flashback_session_time: F32Bits = cursor.read_f32()?;
        Ok(EventDetails::Flashback { frame_identifier, flashback_session_time })
    }

    /// The details behind the code `BUTN`.
    pub open spec fn decoded_buttons(w: Wire) -> (Wire, EventDetails) {
        let (w, button_status) = w.buttons();
        (w, EventDetails::Buttons { button_status })
    }

    /// Reads the details of this kind of event.
    pub fn decode_buttons(cursor: &mut ByteCursor) -> (r: Result<EventDetails, DecodeError>)
        ensures
            follows(r, final(cursor)@, Self::decoded_buttons(old(cursor)@)),
    {
        let button_status: ButtonStatus = cursor.read_buttons()?;
        Ok(EventDetails::Buttons { button_status })
    }

    /// The details behind the code `OVTK`, which stands at `start`.
    pub open spec fn decoded_overtake(w: Wire, start: usize) -> (Wire, EventDetails) {
        let (w, overtaking_vehicle_index) = w.index();
        let w = w.in_range(
            overtaking_vehicle_index < MAX_NUM_CARS,
            FieldName::OvertakingVehicleIndex,
            overtaking_vehicle_index as int,
            start,
        );
        let (w, overtaken_vehicle_index) = w.index();
        let w = w.in_range(
            overtaken_vehicle_index < MAX_NUM_CARS,
            FieldName::OvertakenVehicleIndex,
            overtaken_vehicle_index as int,
            start,
        );
        (w, EventDetails::Overtake { overtaking_vehicle_index, overtaken_vehicle_index })
    }

    /// Reads the details of this kind of event.
    pub fn decode_overtake(cursor: &mut ByteCursor, start: usize) -> (r: Result<
        EventDetails,
        DecodeError,
    >)
        ensures
            follows(r, final(cursor)@, Self::decoded_overtake(old(cursor)@, start)),
    {
        let overtaking_vehicle_index: usize = cursor.read_index()?;
        cursor.in_range(
            overtaking_vehicle_index < MAX_NUM_CARS,
            FieldName::OvertakingVehicleIndex,
            overtaking_vehicle_index as i64,
            start,
        )?;
        let overtaken_vehicle_index: usize = cursor.read_index()?;
        cursor.in_range(
            overtaken_vehicle_index < MAX_NUM_CARS,
            FieldName::OvertakenVehicleIndex,
            overtaken_vehicle_index as i64,
            start,
        )?;
        Ok(EventDetails::Overtake { overtaking_vehicle_index, overtaken_vehicle_index })
    }

    /// The details behind the code `SCAR`.
    pub open spec fn decoded_safety_car(w: Wire) -> (Wire, EventDetails) {
        let (w, safety_car_type) = w.code::<SafetyCarType>();
        let (w, event_type) = w.code::<SafetyCarEventType>();
        (w, EventDetails::SafetyCar { safety_car_type, event_type })
    }

    /// Reads the details of this kind of event.
    pub fn decode_safety_car(cursor: &mut ByteCursor) -> (r: Result<EventDetails, DecodeError>)
        ensures
            follows(r, final(cursor)@, Self::decoded_safety_car(old(cursor)@)),
    {
        let safety_car_type: SafetyCarType = cursor.read_code()?;
        let event_type: SafetyCarEventType = cursor.read_code()?;
        Ok(EventDetails::SafetyCar { safety_car_type, event_type })
    }

    /// The details behind the code `COLL`, which stands at `start`.
    pub open spec fn decoded_collision(w: Wire, start: usize) -> (Wire, EventDetails) {
        let (w, vehicle_index) = w.index();
        let w = w.in_range(
            vehicle_index < MAX_NUM_CARS,
            FieldName::CollisionVehicleIndex,
            vehicle_index as int,
            start,
        );
        let (w, other_vehicle_index) = w.index();
        let w = w.in_range(
            other_vehicle_index < MAX_NUM_CARS,
            FieldName::CollisionOtherVehicleIndex,
            other_vehicle_index as int,
            start,
        );
        (w, EventDetails::Collision { vehicle_index, other_vehicle_index })
    }

    /// Reads the details of this kind of event.
    pub fn decode_collision(cursor: &mut ByteCursor, start: usize) -> (r: Result<
        EventDetails,
        DecodeError,
    >)
        ensures
            follows(r, final(cursor)@, Self::decoded_collision(old(cursor)@, start)),
    {
        let vehicle_index: usize = cursor.read_index()?;
        cursor.in_range(
            vehicle_index < MAX_NUM_CARS,
            FieldName::CollisionVehicleIndex,
            vehicle_index as i64,
            start,
        )?;
        let other_vehicle_index: usize = cursor.read_index()?;
        cursor.in_range(
            other_vehicle_index < MAX_NUM_CARS,
            FieldName::CollisionOtherVehicleIndex,
            other_vehicle_index as i64,
            start,
        )?;
        Ok(EventDetails::Collision { vehicle_index, other_vehicle_index })
    }

    /// Whether `code` names an event in the given format: the safety car and
    /// the collision events came with the 2024 format.
    pub open spec fn known(code: u32, packet_format: u16) -> bool {
        code == SSTA
            || code == SEND
            || code == FTLP
            || code == RTMT
            || code == DRSE
            || code == DRSD
            || code == TMPT
            || code == CHQF
            || code == RCWN
            || code == PENA
            || code == SPTP
            || code == STLG
            || code == LGOT
            || code == DTSV
            || code == SGSV
            || code == FLBK
            || code == BUTN
            || code == RDFL
            || code == OVTK
            || (code == SCAR && packet_format >= 2024)
            || (code == COLL && packet_format >= 2024)
    }
}

impl Decode for EventDetails {
    open spec fn decoded(w: Wire, packet_format: u16) -> (Wire, EventDetails) {
        let (w1, code) = w.u32();
        if code == SSTA {
            (w1, EventDetails::SessionStarted)
        } else if code == SEND {
            (w1, EventDetails::SessionEnded)
        } else if code == FTLP {
            Self::decoded_fastest_lap(w1, w.pos)
        } else if code == RTMT {
            Self::decoded_retirement(w1, w.pos)
        } else if code == DRSE {
            (w1, EventDetails::DrsEnabled)
        } else if code == DRSD {
            (w1, EventDetails::DrsDisabled)
        } else if code == TMPT {
            Self::decoded_team_mate_in_pits(w1, w.pos)
        } else if code == CHQF {
            (w1, EventDetails::ChequeredFlag)
        } else if code == RCWN {
            Self::decoded_race_winner(w1, w.pos)
        } else if code == PENA {
            Self::decoded_penalty(w1, w.pos)
        } else if code == SPTP {
            Self::decoded_speed_trap(w1, w.pos)
        } else if code == STLG {
            Self::decoded_start_lights(w1)
        } else if code == LGOT {
            (w1, EventDetails::LightsOut)
        } else if code == DTSV {
            Self::decoded_drive_through_served(w1, w.pos)
        } else if code == SGSV {
            Self::decoded_stop_go_served(w1, w.pos)
        } else if code == FLBK {
            Self::decoded_flashback(w1)
        } else if code == BUTN {
            Self::decoded_buttons(w1)
        } else if code == RDFL {
            (w1, EventDetails::RedFlag)
        } else if code == OVTK {
            Self::decoded_overtake(w1, w.pos)
        } else if code == SCAR && packet_format >= 2024 {
            Self::decoded_safety_car(w1)
        } else if code == COLL && packet_format >= 2024 {
            Self::decoded_collision(w1, w.pos)
        } else {
            (w1.demand(false, DecodeError::UnknownEventCode { code, offset: w.pos }), arbitrary())
        }
    }

    fn decode(cursor: &mut ByteCursor, packet_format: u16) -> (r: Result<
        EventDetails,
        DecodeError,
    >) {
        let at: usize = cursor.position();
        let code: u32 = cursor.read_u32()?;
        if code == SSTA {
            Ok(EventDetails::SessionStarted)
        } else if code == SEND {
            Ok(EventDetails::SessionEnded)
        } else if code == FTLP {
            Self::decode_fastest_lap(cursor, at)
        } else if code == RTMT {
            Self::decode_retirement(cursor, at)
        } else if code == DRSE {
            Ok(EventDetails::DrsEnabled)
        } else if code == DRSD {
            Ok(EventDetails::DrsDisabled)
        } else if code == TMPT {
            Self::decode_team_mate_in_pits(cursor, at)
        } else if code == CHQF {
            Ok(EventDetails::ChequeredFlag)
        } else if code == RCWN {
            Self::decode_race_winner(cursor, at)
        } else if code == PENA {
            Self::decode_penalty(cursor, at)
        } else if code == SPTP {
            Self::decode_speed_trap(cursor, at)
        } else if code == STLG {
            Self::decode_start_lights(cursor)
        } else if code == LGOT {
            Ok(EventDetails::LightsOut)
        } else if code == DTSV {
            Self::decode_drive_through_served(cursor, at)
        } else if code == SGSV {
            Self::decode_stop_go_served(cursor, at)
        } else if code == FLBK {
            Self::decode_flashback(cursor)
        } else if code == BUTN {
            Self::decode_buttons(cursor)
        } else if code == RDFL {
            Ok(EventDetails::RedFlag)
        } else if code == OVTK {
            Self::decode_overtake(cursor, at)
        } else if code == SCAR && packet_format >= 2024 {
            Self::decode_safety_car(cursor)
        } else if code == COLL && packet_format >= 2024 {
            Self::decode_collision(cursor, at)
        } else {
            Err(DecodeError::UnknownEventCode { code, offset: at })
        }
    }
}

/// Various notable events that happen during a session.
#[non_exhaustive]
#[derive(Debug, Clone, PartialEq, Eq)]
pub struct F1PacketEvent {
    /// 4-letter event code.
    pub code: String,
    /// Extra data for this event.
    pub details: EventDetails,
}

/// A [`F1PacketEvent`] as a mathematical value: the code a sequence of
/// characters.
pub struct F1PacketEventView {
    pub code: Seq<char>,
    pub details: EventDetails,
}

impl DeepView for F1PacketEvent {
    type V = F1PacketEventView;

    open spec fn deep_view(&self) -> F1PacketEventView {
        F1PacketEventView { code: self.code@, details: self.details }
    }
}

impl Decode for F1PacketEvent {
    /// The code is looked at twice: once as text, without moving on, and once
    /// as the key to the details.
    open spec fn decoded(w: Wire, packet_format: u16) -> (Wire, F1PacketEventView) {
        let (w1, letters) = w.peek(EVENT_CODE_WIDTH as nat);
        let w2 = w1.demand(valid_utf8(letters), DecodeError::MalformedText { offset: w.pos });
        let (w3, details) = EventDetails::decoded(w2, packet_format);
        (w3, F1PacketEventView { code: decode_utf8(letters), details })
    }

    fn decode(cursor: &mut ByteCursor, packet_format: u16) -> (r: Result<
        F1PacketEvent,
        DecodeError,
    >) {
        let at: usize = cursor.position();
        let letters: Vec<u8> = cursor.peek_bytes(EVENT_CODE_WIDTH)?;
        let code: String = match string_from_utf8(letters) {
            Ok(text) => text,
            Err(_) => {
                return Err(DecodeError::MalformedText { offset: at });
            },
        };
        let details: EventDetails = EventDetails::decode(cursor, packet_format)?;
        Ok(F1PacketEvent { code, details })
    }
}

} // verus!
