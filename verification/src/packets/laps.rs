//! The lap data packet: lap times and positions of every car.

use vstd::prelude::*;
use crate::constants::DriverStatus;
use crate::constants::MAX_NUM_CARS;
use crate::constants::PitStatus;
use crate::constants::ResultStatus;
use crate::constants::Sector;
use crate::cursor::ByteCursor;
use crate::decode::Decode;
use crate::decode::decode_list;
use crate::decode::decoded_list;
use crate::decode::has_width;
use crate::decode::lemma_list_layout;
use crate::error::DecodeError;
use crate::wire::F32Bits;
use crate::wire::Wire;

verus! {

/// Lap data for a car on track.
#[non_exhaustive]
#[derive(Debug, Clone, Copy, PartialEq, Eq)]
pub struct LapData {
    /// Last lap time in milliseconds.
    pub last_lap_time_ms: u32,
    /// Current lap time in milliseconds.
    pub current_lap_time_ms: u32,
    /// Current sector 1 time millisecond part.
    pub sector1_time_ms_part: u16,
    /// Sector 1 whole minute part. Available from the 2023 format onwards.
    pub sector1_time_minutes_part: u8,
    /// Current sector 2 time millisecond part.
    pub sector2_time_ms_part: u16,
    /// Sector 2 whole minute part. Available from the 2023 format onwards.
    pub sector2_time_minutes_part: u8,
    /// Time delta to car in front in milliseconds. Available from the 2023
    /// format onwards.
    pub delta_to_car_in_front_ms_part: u16,
    /// Time delta to car in front whole minute part. Available from the 2024
    /// format onwards.
    pub delta_to_car_in_front_minutes_part: u8,
    /// Time delta to race leader in milliseconds. Available from the 2023
    /// format onwards.
    pub delta_to_race_leader_ms: u16,
    /// Time delta to car in front whole minute part. Available from the 2024
    /// format onwards.
    pub delta_to_race_leader_minutes_part: u8,
    /// The distance the vehicle is around current lap in metres. It may be
    /// negative if the start/finish line hasn't been crossed yet.
    pub lap_distance: F32Bits,
    /// The total distance the vehicle has gone around in this session in
    /// metres. It may be negative if the start/finish line hasn't been
    /// crossed yet.
    pub total_distance: F32Bits,
    /// Delta for the safety car in seconds.
    pub safety_car_delta: F32Bits,
    /// Car's race position.
    pub car_position: u8,
    /// Current lap number.
    pub current_lap_num: u8,
    /// Car's pit status.
    pub pit_status: PitStatus,
    /// Number of pit stops taken in this race.
    pub num_pit_stops: u8,
    /// Zero-based number of the sector the driver is currently going through.
    pub sector: Sector,
    /// Whether the current lap is invalid.
    pub current_lap_invalid: bool,
    /// Accumulated time penalties to be added in seconds.
    pub penalties: u8,
    /// Accumulated number of warnings issued.
    pub total_warnings: u8,
    /// Accumulated number of corner cutting warnings issued. Available from
    /// the 2023 format onwards.
    pub corner_cutting_warnings: u8,
    /// Number of unserved drive through penalties left to serve.
    pub num_unserved_drive_through_pens: u8,
    /// Number of unserved stop-go penalties left to serve.
    pub num_unserved_stop_go_pens: u8,
    /// The grid position the vehicle started the race in.
    pub grid_position: u8,
    /// Status of the driver.
    pub driver_status: DriverStatus,
    /// Status of the driver's result.
    pub result_status: ResultStatus,
    /// Whether the pit lane timer is active.
    pub pit_lane_timer_active: bool,
    /// Current time spent in the pit lane in milliseconds.
    pub pit_lane_time_in_lane_ms: u16,
    /// Time of the actual pit stop in milliseconds.
    pub pit_stop_timer_ms: u16,
    /// Whether the car should serve a penalty at this stop.
    pub pit_stop_should_serve_pen: bool,
    /// Fastest speed through speed trap for this car in kilometres per hour.
    /// Available from the 2024 format onwards.
    pub speed_trap_fastest_speed: F32Bits,
    /// Number of the lap the fastest speed was achieved on (255 means "not
    /// set"). Available from the 2024 format onwards.
    pub speed_trap_fastest_lap: u8,
}

impl DeepView for LapData {
    type V = LapData;

    open spec fn deep_view(&self) -> LapData {
        *self
    }
}

impl Decode for LapData {
    open spec fn decoded(w: Wire, packet_format: u16) -> (Wire, LapData) {
        let (w, last_lap_time_ms) = w.u32();
        let (w, current_lap_time_ms) = w.u32();
        let (w, sector1_time_ms_part) = w.u16();
        let (w, sector1_time_minutes_part) = w.u8_if(packet_format >= 2023);
        let (w, sector2_time_ms_part) = w.u16();
        let (w, sector2_time_minutes_part) = w.u8_if(packet_format >= 2023);
        let (w, delta_to_car_in_front_ms_part) = w.u16_if(packet_format >= 2023);
        let (w, delta_to_car_in_front_minutes_part) = w.u8_if(packet_format >= 2024);
        let (w, delta_to_race_leader_ms) = w.u16_if(packet_format >= 2023);
        let (w, delta_to_race_leader_minutes_part) = w.u8_if(packet_format >= 2024);
        let (w, lap_distance) = w.single();
        let (w, total_distance) = w.single();
        let (w, safety_car_delta) = w.single();
        let (w, car_position) = w.u8();
        let (w, current_lap_num) = w.u8();
        let (w, pit_status) = w.code::<PitStatus>();
        let (w, num_pit_stops) = w.u8();
        let (w, sector) = w.code::<Sector>();
        let (w, current_lap_invalid) = w.boolean();
        let (w, penalties) = w.u8();
        let (w, total_warnings) = w.u8();
        let (w, corner_cutting_warnings) = w.u8_if(packet_format >= 2023);
        let (w, num_unserved_drive_through_pens) = w.u8();
        let (w, num_unserved_stop_go_pens) = w.u8();
        let (w, grid_position) = w.u8();
        let (w, driver_status) = w.code::<DriverStatus>();
        let (w, result_status) = w.code::<ResultStatus>();
        let (w, pit_lane_timer_active) = w.boolean();
        let (w, pit_lane_time_in_lane_ms) = w.u16();
        let (w, pit_stop_timer_ms) = w.u16();
        let (w, pit_stop_should_serve_pen) = w.boolean();
        let (w, speed_trap_fastest_speed) = w.single_if(packet_format >= 2024);
        let (w, speed_trap_fastest_lap) = w.u8_if(packet_format >= 2024);
        (
            w,
            LapData {
                last_lap_time_ms,
                current_lap_time_ms,
                sector1_time_ms_part,
                sector1_time_minutes_part,
                sector2_time_ms_part,
                sector2_time_minutes_part,
                delta_to_car_in_front_ms_part,
                delta_to_car_in_front_minutes_part,
                delta_to_race_leader_ms,
                delta_to_race_leader_minutes_part,
                lap_distance,
                total_distance,
                safety_car_delta,
                car_position,
                current_lap_num,
                pit_status,
                num_pit_stops,
                sector,
                current_lap_invalid,
                penalties,
                total_warnings,
                corner_cutting_warnings,
                num_unserved_drive_through_pens,
                num_unserved_stop_go_pens,
                grid_position,
                driver_status,
                result_status,
                pit_lane_timer_active,
                pit_lane_time_in_lane_ms,
                pit_stop_timer_ms,
                pit_stop_should_serve_pen,
                speed_trap_fastest_speed,
                speed_trap_fastest_lap,
            },
        )
    }

    fn decode(cursor: &mut ByteCursor, packet_format: u16) -> (r: Result<LapData, DecodeError>) {
        let last_lap_time_ms: u32 = cursor.read_u32()?;
        let current_lap_time_ms: u32 = cursor.read_u32()?;
        let sector1_time_ms_part: u16 = cursor.read_u16()?;
        let sector1_time_minutes_part: u8 = cursor.read_u8_if(packet_format >= 2023)?;
        let sector2_time_ms_part: u16 = cursor.read_u16()?;
        let sector2_time_minutes_part: u8 = cursor.read_u8_if(packet_format >= 2023)?;
        let delta_to_car_in_front_ms_part: u16 = cursor.read_u16_if(packet_format >= 2023)?;
        let delta_to_car_in_front_minutes_part: u8 = cursor.read_u8_if(packet_format >= 2024)?;
        let delta_to_race_leader_ms: u16 = cursor.read_u16_if(packet_format >= 2023)?;
        let delta_to_race_leader_minutes_part: u8 = cursor.read_u8_if(packet_format >= 2024)?;
        let lap_distance: F32Bits = cursor.read_f32()?;
        let total_distance: F32Bits = cursor.read_f32()?;
        let safety_car_delta: F32Bits = cursor.read_f32()?;
        let car_position: u8 = cursor.read_u8()?;
        let current_lap_num: u8 = cursor.read_u8()?;
        let pit_status: PitStatus = cursor.read_code()?;
        let num_pit_stops: u8 = cursor.read_u8()?;
        let sector: Sector = cursor.read_code()?;
        let current_lap_invalid: bool = cursor.read_bool()?;
        let penalties: u8 = cursor.read_u8()?;
        let total_warnings: u8 = cursor.read_u8()?;
        let corner_cutting_warnings: u8 = cursor.read_u8_if(packet_format >= 2023)?;
        let num_unserved_drive_through_pens: u8 = cursor.read_u8()?;
        let num_unserved_stop_go_pens: u8 = cursor.read_u8()?;
        let grid_position: u8 = cursor.read_u8()?;
        let driver_status: DriverStatus = cursor.read_code()?;
        let result_status: ResultStatus = cursor.read_code()?;
        let pit_lane_timer_active: bool = cursor.read_bool()?;
        let pit_lane_time_in_lane_ms: u16 = cursor.read_u16()?;
        let pit_stop_timer_ms: u16 = cursor.read_u16()?;
        let pit_stop_should_serve_pen: bool = cursor.read_bool()?;
        let speed_trap_fastest_speed: F32Bits = cursor.read_f32_if(packet_format >= 2024)?;
        let speed_trap_fastest_lap: u8 = cursor.read_u8_if(packet_format >= 2024)?;
        Ok(
            LapData {
                last_lap_time_ms,
                current_lap_time_ms,
                sector1_time_ms_part,
                sector1_time_minutes_part,
                sector2_time_ms_part,
                sector2_time_minutes_part,
                delta_to_car_in_front_ms_part,
                delta_to_car_in_front_minutes_part,
                delta_to_race_leader_ms,
                delta_to_race_leader_minutes_part,
                lap_distance,
                total_distance,
                safety_car_delta,
                car_position,
                current_lap_num,
                pit_status,
                num_pit_stops,
                sector,
                current_lap_invalid,
                penalties,
                total_warnings,
                corner_cutting_warnings,
                num_unserved_drive_through_pens,
                num_unserved_stop_go_pens,
                grid_position,
                driver_status,
                result_status,
                pit_lane_timer_active,
                pit_lane_time_in_lane_ms,
                pit_stop_timer_ms,
                pit_stop_should_serve_pen,
                speed_trap_fastest_speed,
                speed_trap_fastest_lap,
            },
        )
    }
}

impl LapData {
    /// Number of bytes of this record on the wire.
    pub open spec fn wire_width(packet_format: u16) -> nat {
        if packet_format >= 2024 {
            57
        } else if packet_format >= 2023 {
            50
        } else {
            43
        }
    }

    /// Every successful decode of this record takes `wire_width` bytes.
    pub proof fn lemma_wire_width(packet_format: u16)
        ensures
            has_width::<LapData>(packet_format, Self::wire_width(packet_format)),
    {
        assert forall|w: Wire|
            w.countable() && !w.failed() && !(#[trigger] LapData::decoded(w, packet_format)).0.failed() implies {
            &&& LapData::decoded(w, packet_format).0.pos == w.pos + Self::wire_width(packet_format)
            &&& LapData::decoded(w, packet_format).0.data == w.data
        } by {
            Self::lemma_progress(w, packet_format);
        }
    }

    /// A decode of this record fails, or takes `wire_width` bytes and leaves
    /// the datagram as it is.
    #[verifier::rlimit(100)]
    pub proof fn lemma_progress(w: Wire, packet_format: u16)
        requires
            w.countable(),
        ensures
            ({
                let end = LapData::decoded(w, packet_format).0;
                end.failed() || (end.pos == w.pos + Self::wire_width(packet_format) && end.data == w.data)
            }),
    {
        // Field by field: either the state has failed, or it stands `taken`
        // bytes behind the start.
        let first = w;
        let start = w.pos;
        let taken = 0int;
        let (w, last_lap_time_ms) = w.u32();
        let taken = taken + 4;
        assert(w.failed() || (w.pos == first.pos + taken && w.data == first.data));
        let (w, current_lap_time_ms) = w.u32();
        let taken = taken + 4;
        assert(w.failed() || (w.pos == first.pos + taken && w.data == first.data));
        let (w, sector1_time_ms_part) = w.u16();
        let taken = taken + 2;
        assert(w.failed() || (w.pos == first.pos + taken && w.data == first.data));
        let (w, sector1_time_minutes_part) = w.u8_if(packet_format >= 2023);
        let taken = taken + if packet_format >= 2023 {
            1int
        } else {
            0int
        };
        assert(w.failed() || (w.pos == first.pos + taken && w.data == first.data));
        let (w, sector2_time_ms_part) = w.u16();
        let taken = taken + 2;
        assert(w.failed() || (w.pos == first.pos + taken && w.data == first.data));
        let (w, sector2_time_minutes_part) = w.u8_if(packet_format >= 2023);
        let taken = taken + if packet_format >= 2023 {
            1int
        } else {
            0int
        };
        assert(w.failed() || (w.pos == first.pos + taken && w.data == first.data));
        let (w, delta_to_car_in_front_ms_part) = w.u16_if(packet_format >= 2023);
        let taken = taken + if packet_format >= 2023 {
            2int
        } else {
            0int
        };
        assert(w.failed() || (w.pos == first.pos + taken && w.data == first.data));
        let (w, delta_to_car_in_front_minutes_part) = w.u8_if(packet_format >= 2024);
        let taken = taken + if packet_format >= 2024 {
            1int
        } else {
            0int
        };
        assert(w.failed() || (w.pos == first.pos + taken && w.data == first.data));
        let (w, delta_to_race_leader_ms) = w.u16_if(packet_format >= 2023);
        let taken = taken + if packet_format >= 2023 {
            2int
        } else {
            0int
        };
        assert(w.failed() || (w.pos == first.pos + taken && w.data == first.data));
        let (w, delta_to_race_leader_minutes_part) = w.u8_if(packet_format >= 2024);
        let taken = taken + if packet_format >= 2024 {
            1int
        } else {
            0int
        };
        assert(w.failed() || (w.pos == first.pos + taken && w.data == first.data));
        let (w, lap_distance) = w.single();
        let taken = taken + 4;
        assert(w.failed() || (w.pos == first.pos + taken && w.data == first.data));
        let (w, total_distance) = w.single();
        let taken = taken + 4;
        assert(w.failed() || (w.pos == first.pos + taken && w.data == first.data));
        let (w, safety_car_delta) = w.single();
        let taken = taken + 4;
        assert(w.failed() || (w.pos == first.pos + taken && w.data == first.data));
        let (w, car_position) = w.u8();
        let taken = taken + 1;
        assert(w.failed() || (w.pos == first.pos + taken && w.data == first.data));
        let (w, current_lap_num) = w.u8();
        let taken = taken + 1;
        assert(w.failed() || (w.pos == first.pos + taken && w.data == first.data));
        let (w, pit_status) = w.code::<PitStatus>();
        let taken = taken + 1;
        assert(w.failed() || (w.pos == first.pos + taken && w.data == first.data));
        let (w, num_pit_stops) = w.u8();
        let taken = taken + 1;
        assert(w.failed() || (w.pos == first.pos + taken && w.data == first.data));
        let (w, sector) = w.code::<Sector>();
        let taken = taken + 1;
        assert(w.failed() || (w.pos == first.pos + taken && w.data == first.data));
        let (w, current_lap_invalid) = w.boolean();
        let taken = taken + 1;
        assert(w.failed() || (w.pos == first.pos + taken && w.data == first.data));
        let (w, penalties) = w.u8();
        let taken = taken + 1;
        assert(w.failed() || (w.pos == first.pos + taken && w.data == first.data));
        let (w, total_warnings) = w.u8();
        let taken = taken + 1;
        assert(w.failed() || (w.pos == first.pos + taken && w.data == first.data));
        let (w, corner_cutting_warnings) = w.u8_if(packet_format >= 2023);
        let taken = taken + if packet_format >= 2023 {
            1int
        } else {
            0int
        };
        assert(w.failed() || (w.pos == first.pos + taken && w.data == first.data));
        let (w, num_unserved_drive_through_pens) = w.u8();
        let taken = taken + 1;
        assert(w.failed() || (w.pos == first.pos + taken && w.data == first.data));
        let (w, num_unserved_stop_go_pens) = w.u8();
        let taken = taken + 1;
        assert(w.failed() || (w.pos == first.pos + taken && w.data == first.data));
        let (w, grid_position) = w.u8();
        let taken = taken + 1;
        assert(w.failed() || (w.pos == first.pos + taken && w.data == first.data));
        let (w, driver_status) = w.code::<DriverStatus>();
        let taken = taken + 1;
        assert(w.failed() || (w.pos == first.pos + taken && w.data == first.data));
        let (w, result_status) = w.code::<ResultStatus>();
        let taken = taken + 1;
        assert(w.failed() || (w.pos == first.pos + taken && w.data == first.data));
        let (w, pit_lane_timer_active) = w.boolean();
        let taken = taken + 1;
        assert(w.failed() || (w.pos == first.pos + taken && w.data == first.data));
        let (w, pit_lane_time_in_lane_ms) = w.u16();
        let taken = taken + 2;
        assert(w.failed() || (w.pos == first.pos + taken && w.data == first.data));
        let (w, pit_stop_timer_ms) = w.u16();
        let taken = taken + 2;
        assert(w.failed() || (w.pos == first.pos + taken && w.data == first.data));
        let (w, pit_stop_should_serve_pen) = w.boolean();
        let taken = taken + 1;
        assert(w.failed() || (w.pos == first.pos + taken && w.data == first.data));
        let (w, speed_trap_fastest_speed) = w.single_if(packet_format >= 2024);
        let taken = taken + if packet_format >= 2024 {
            4int
        } else {
            0int
        };
        assert(w.failed() || (w.pos == first.pos + taken && w.data == first.data));
        let (w, speed_trap_fastest_lap) = w.u8_if(packet_format >= 2024);
        let taken = taken + if packet_format >= 2024 {
            1int
        } else {
            0int
        };
        assert(w.failed() || (w.pos == first.pos + taken && w.data == first.data));
    }
}

/// Data about all the lap times of cars in the session.
#[non_exhaustive]
#[derive(Debug, Clone, PartialEq, Eq)]
pub struct F1PacketLaps {
    /// Lap data for all cars on track. Should have a size of 22.
    pub data: Vec<LapData>,
    /// Index of personal best car in time trial mode (255 if invalid).
    pub time_trial_pb_car_index: usize,
    /// Index of rival's car in time trial mode (255 if invalid).
    pub time_trial_rival_car_index: usize,
}

/// A [`F1PacketLaps`] as a mathematical value: each list a sequence, each text a
/// sequence of characters.
pub struct F1PacketLapsView {
    pub data: Seq<LapData>,
    pub time_trial_pb_car_index: usize,
    pub time_trial_rival_car_index: usize,
}

impl DeepView for F1PacketLaps {
    type V = F1PacketLapsView;

    open spec fn deep_view(&self) -> F1PacketLapsView {
        F1PacketLapsView {
            data: self.data.deep_view(),
            time_trial_pb_car_index: self.time_trial_pb_car_index,
            time_trial_rival_car_index: self.time_trial_rival_car_index,
        }
    }
}

impl Decode for F1PacketLaps {
    open spec fn decoded(w: Wire, packet_format: u16) -> (Wire, F1PacketLapsView) {
        let (w, data) = decoded_list::<LapData>(w, MAX_NUM_CARS as nat, packet_format);
        let (w, time_trial_pb_car_index) = w.index();
        let (w, time_trial_rival_car_index) = w.index();
        (w, F1PacketLapsView { data, time_trial_pb_car_index, time_trial_rival_car_index })
    }

    fn decode(cursor: &mut ByteCursor, packet_format: u16) -> (r: Result<
        F1PacketLaps,
        DecodeError,
    >) {
        let data: Vec<LapData> = decode_list(cursor, MAX_NUM_CARS, packet_format)?;
        let time_trial_pb_car_index: usize = cursor.read_index()?;
        let time_trial_rival_car_index: usize = cursor.read_index()?;
        Ok(F1PacketLaps { data, time_trial_pb_car_index, time_trial_rival_car_index })
    }
}

impl F1PacketLaps {
    /// Number of bytes of this body on the wire.
    pub open spec fn wire_width(packet_format: u16) -> nat {
        let entries = MAX_NUM_CARS * LapData::wire_width(packet_format);
        let rest = 2nat;
        (entries + rest) as nat
    }

    /// Every successful decode of this body takes `wire_width` bytes.
    pub proof fn lemma_wire_width(packet_format: u16)
        ensures
            has_width::<F1PacketLaps>(packet_format, Self::wire_width(packet_format)),
    {
        LapData::lemma_wire_width(packet_format);
        assert forall|w: Wire|
            w.countable() && !w.failed() && !(#[trigger] F1PacketLaps::decoded(w, packet_format)).0.failed() implies {
            &&& F1PacketLaps::decoded(w, packet_format).0.pos == w.pos + Self::wire_width(packet_format)
            &&& F1PacketLaps::decoded(w, packet_format).0.data == w.data
        } by {
            let w_start = w;
            let listed = decoded_list::<LapData>(w, MAX_NUM_CARS as nat, packet_format).0;
            if listed.failed() {
                assert(F1PacketLaps::decoded(w_start, packet_format).0.failed());
            }
            lemma_list_layout::<LapData>(
                w,
                MAX_NUM_CARS as nat,
                packet_format,
                LapData::wire_width(packet_format),
            );
        }
    }
}

} // verus!
