//! The car status packet: fuel, tyres, ERS, assists.

use vstd::prelude::*;
use crate::constants::ActualTyreCompound;
use crate::constants::DrsAllowed;
use crate::constants::ErsDeployMode;
use crate::constants::FuelMix;
use crate::constants::MAX_NUM_CARS;
use crate::constants::TractionControl;
use crate::constants::VehicleFiaFlag;
use crate::constants::VisualTyreCompound;
use crate::cursor::ByteCursor;
use crate::decode::Decode;
use crate::decode::decode_list;
use crate::decode::decoded_list;
use crate::decode::has_width;
use crate::decode::lemma_list_layout;
use crate::error::DecodeError;
use crate::error::FieldName;
use crate::wire::F32Bits;
use crate::wire::Wire;

verus! {

/// Status of one car: fuel, tyres, ERS and the assists of its driver.
#[derive(Debug, Clone, Copy, PartialEq, Eq)]
pub struct CarStatusData {
    /// How much traction control is enabled.
    pub traction_control: TractionControl,
    /// Whether ABS is enabled.
    pub anti_lock_brakes: bool,
    /// Fuel mix currently in use.
    pub fuel_mix: FuelMix,
    /// Front brake bias (percentage).
    pub front_brake_bias: u8,
    /// Whether the pit limiter is enabled.
    pub pit_limiter_enabled: bool,
    /// Current fuel mass.
    pub fuel_in_tank: F32Bits,
    /// Fuel capacity.
    pub fuel_capacity: F32Bits,
    /// Fuel remaining in terms of laps.
    pub fuel_remaining_laps: F32Bits,
    /// Car's max RPM, point of rev limiter.
    pub max_rpm: u16,
    /// Car's idle RPM.
    pub idle_rpm: u16,
    /// Maximum number of gears.
    pub max_gears: u8,
    /// Whether DRS can be used (might be unknown).
    pub drs_allowed: DrsAllowed,
    /// 0 = DRS is unavailable, Non-zero = DRS will be available in X metres.
    pub drs_activation_distance: u16,
    /// Actual tyre compound currently in use.
    pub actual_tyre_compound: ActualTyreCompound,
    /// Visible tyre compound currently in use.
    pub visual_tyre_compound: VisualTyreCompound,
    /// Age of the current set of tyres in laps.
    pub tyres_age_laps: u8,
    /// Flag the driver is currently being shown.
    pub vehicle_fia_flag: VehicleFiaFlag,
    /// Engine power output of ICE in watts. Available from the 2023 format
    /// onwards.
    pub engine_power_ice: F32Bits,
    /// Engine power output of MGU-K in watts. Available from the 2023 format
    /// onwards.
    pub engine_power_mguk: F32Bits,
    /// ERS energy store in Joules.
    pub ers_store_energy: F32Bits,
    /// ERS deployment mode.
    pub ers_deploy_mode: ErsDeployMode,
    /// ERS energy harvested this lap by the MGU-K.
    pub ers_harvested_this_lap_mguk: F32Bits,
    /// ERS energy harvested this lap by the MGU-H.
    pub ers_harvested_this_lap_mguh: F32Bits,
    /// ERS energy deployed this lap.
    pub ers_deployed_this_lap: F32Bits,
    /// Whether the car has paused in a network game.
    pub network_paused: bool,
}

impl DeepView for CarStatusData {
    type V = CarStatusData;

    open spec fn deep_view(&self) -> CarStatusData {
        *self
    }
}

impl Decode for CarStatusData {
    open spec fn decoded(w: Wire, packet_format: u16) -> (Wire, CarStatusData) {
        let start = w.pos;
        let (w, traction_control) = w.code::<TractionControl>();
        let (w, anti_lock_brakes) = w.boolean();
        let (w, fuel_mix) = w.code::<FuelMix>();
        let (w, front_brake_bias) = w.u8();
        let (w, pit_limiter_enabled) = w.boolean();
        let (w, fuel_in_tank) = w.single();
        let (w, fuel_capacity) = w.single();
        let (w, fuel_remaining_laps) = w.single();
        let (w, max_rpm) = w.u16();
        let (w, idle_rpm) = w.u16();
        let (w, max_gears) = w.u8();
        let (w, drs_allowed) = w.code::<DrsAllowed>();
        let (w, drs_activation_distance) = w.u16();
        let (w, actual_tyre_compound) = w.code::<ActualTyreCompound>();
        let (w, visual_tyre_compound) = w.code::<VisualTyreCompound>();
        let (w, tyres_age_laps) = w.u8();
        let (w, vehicle_fia_flag) = w.code::<VehicleFiaFlag>();
        let (w, engine_power_ice) = w.single_if(packet_format >= 2023);
        let (w, engine_power_mguk) = w.single_if(packet_format >= 2023);
        let (w, ers_store_energy) = w.single();
        let (w, ers_deploy_mode) = w.code::<ErsDeployMode>();
        let (w, ers_harvested_this_lap_mguk) = w.single();
        let (w, ers_harvested_this_lap_mguh) = w.single();
        let (w, ers_deployed_this_lap) = w.single();
        let (w, network_paused) = w.boolean();
        let w = w.in_range(max_gears <= 9, FieldName::MaxGears, max_gears as int, start);
        (
            w,
            CarStatusData {
                traction_control,
                anti_lock_brakes,
                fuel_mix,
                front_brake_bias,
                pit_limiter_enabled,
                fuel_in_tank,
                fuel_capacity,
                fuel_remaining_laps,
                max_rpm,
                idle_rpm,
                max_gears,
                drs_allowed,
                drs_activation_distance,
                actual_tyre_compound,
                visual_tyre_compound,
                tyres_age_laps,
                vehicle_fia_flag,
                engine_power_ice,
                engine_power_mguk,
                ers_store_energy,
                ers_deploy_mode,
                ers_harvested_this_lap_mguk,
                ers_harvested_this_lap_mguh,
                ers_deployed_this_lap,
                network_paused,
            },
        )
    }

    fn decode(cursor: &mut ByteCursor, packet_format: u16) -> (r: Result<
        CarStatusData,
        DecodeError,
    >) {
        let start: usize = cursor.position();
        let traction_control: TractionControl = cursor.read_code()?;
        let anti_lock_brakes: bool = cursor.read_bool()?;
        let fuel_mix: FuelMix = cursor.read_code()?;
        let front_brake_bias: u8 = cursor.read_u8()?;
        let pit_limiter_enabled: bool = cursor.read_bool()?;
        let fuel_in_tank: F32Bits = cursor.read_f32()?;
        let fuel_capacity: F32Bits = cursor.read_f32()?;
        let fuel_remaining_laps: F32Bits = cursor.read_f32()?;
        let max_rpm: u16 = cursor.read_u16()?;
        let idle_rpm: u16 = cursor.read_u16()?;
        let max_gears: u8 = cursor.read_u8()?;
        let drs_allowed: DrsAllowed = cursor.read_code()?;
        let drs_activation_distance: u16 = cursor.read_u16()?;
        let actual_tyre_compound: ActualTyreCompound = cursor.read_code()?;
        let visual_tyre_compound: VisualTyreCompound = cursor.read_code()?;
        let tyres_age_laps: u8 = cursor.read_u8()?;
        let vehicle_fia_flag: VehicleFiaFlag = cursor.read_code()?;
        let engine_power_ice: F32Bits = cursor.read_f32_if(packet_format >= 2023)?;
        let engine_power_mguk: F32Bits = cursor.read_f32_if(packet_format >= 2023)?;
        let ers_store_energy: F32Bits = cursor.read_f32()?;
        let ers_deploy_mode: ErsDeployMode = cursor.read_code()?;
        let ers_harvested_this_lap_mguk: F32Bits = cursor.read_f32()?;
        let ers_harvested_this_lap_mguh: F32Bits = cursor.read_f32()?;
        let ers_deployed_this_lap: F32Bits = cursor.read_f32()?;
        let network_paused: bool = cursor.read_bool()?;
        cursor.in_range(max_gears <= 9, FieldName::MaxGears, max_gears as i64, start)?;
        Ok(
            CarStatusData {
                traction_control,
                anti_lock_brakes,
                fuel_mix,
                front_brake_bias,
                pit_limiter_enabled,
                fuel_in_tank,
                fuel_capacity,
                fuel_remaining_laps,
                max_rpm,
                idle_rpm,
                max_gears,
                drs_allowed,
                drs_activation_distance,
                actual_tyre_compound,
                visual_tyre_compound,
                tyres_age_laps,
                vehicle_fia_flag,
                engine_power_ice,
                engine_power_mguk,
                ers_store_energy,
                ers_deploy_mode,
                ers_harvested_this_lap_mguk,
                ers_harvested_this_lap_mguh,
                ers_deployed_this_lap,
                network_paused,
            },
        )
    }
}

impl CarStatusData {
    /// Number of bytes of this record on the wire.
    pub open spec fn wire_width(packet_format: u16) -> nat {
        if packet_format >= 2023 {
            55
        } else {
            47
        }
    }

    /// Every successful decode of this record takes `wire_width` bytes.
    pub proof fn lemma_wire_width(packet_format: u16)
        ensures
            has_width::<CarStatusData>(packet_format, Self::wire_width(packet_format)),
    {
        assert forall|w: Wire|
            w.countable() && !w.failed() && !(#[trigger] CarStatusData::decoded(w, packet_format)).0.failed() implies {
            &&& CarStatusData::decoded(w, packet_format).0.pos == w.pos + Self::wire_width(packet_format)
            &&& CarStatusData::decoded(w, packet_format).0.data == w.data
        } by {
            Self::lemma_progress(w, packet_format);
        }
    }

    /// A decode of this record fails, or takes `wire_width` bytes and leaves
    /// the datagram as it is.
    #[verifier::rlimit(100)]
    pub proof fn lemma_progress(w: Wire, packet_format: u16)
        requires
            w.countable(),
        ensures
            ({
                let end = CarStatusData::decoded(w, packet_format).0;
                end.failed() || (end.pos == w.pos + Self::wire_width(packet_format) && end.data == w.data)
            }),
    {
        // Field by field: either the state has failed, or it stands `taken`
        // bytes behind the start.
        let first = w;
        let start = w.pos;
        let taken = 0int;
        let (w, traction_control) = w.code::<TractionControl>();
        let taken = taken + 1;
        assert(w.failed() || (w.pos == first.pos + taken && w.data == first.data));
        let (w, anti_lock_brakes) = w.boolean();
        let taken = taken + 1;
        assert(w.failed() || (w.pos == first.pos + taken && w.data == first.data));
        let (w, fuel_mix) = w.code::<FuelMix>();
        let taken = taken + 1;
        assert(w.failed() || (w.pos == first.pos + taken && w.data == first.data));
        let (w, front_brake_bias) = w.u8();
        let taken = taken + 1;
        assert(w.failed() || (w.pos == first.pos + taken && w.data == first.data));
        let (w, pit_limiter_enabled) = w.boolean();
        let taken = taken + 1;
        assert(w.failed() || (w.pos == first.pos + taken && w.data == first.data));
        let (w, fuel_in_tank) = w.single();
        let taken = taken + 4;
        assert(w.failed() || (w.pos == first.pos + taken && w.data == first.data));
        let (w, fuel_capacity) = w.single();
        let taken = taken + 4;
        assert(w.failed() || (w.pos == first.pos + taken && w.data == first.data));
        let (w, fuel_remaining_laps) = w.single();
        let taken = taken + 4;
        assert(w.failed() || (w.pos == first.pos + taken && w.data == first.data));
        let (w, max_rpm) = w.u16();
        let taken = taken + 2;
        assert(w.failed() || (w.pos == first.pos + taken && w.data == first.data));
        let (w, idle_rpm) = w.u16();
        let taken = taken + 2;
        assert(w.failed() || (w.pos == first.pos + taken && w.data == first.data));
        let (w, max_gears) = w.u8();
        let taken = taken + 1;
        assert(w.failed() || (w.pos == first.pos + taken && w.data == first.data));
        let (w, drs_allowed) = w.code::<DrsAllowed>();
        let taken = taken + 1;
        assert(w.failed() || (w.pos == first.pos + taken && w.data == first.data));
        let (w, drs_activation_distance) = w.u16();
        let taken = taken + 2;
        assert(w.failed() || (w.pos == first.pos + taken && w.data == first.data));
        let (w, actual_tyre_compound) = w.code::<ActualTyreCompound>();
        let taken = taken + 1;
        assert(w.failed() || (w.pos == first.pos + taken && w.data == first.data));
        let (w, visual_tyre_compound) = w.code::<VisualTyreCompound>();
        let taken = taken + 1;
        assert(w.failed() || (w.pos == first.pos + taken && w.data == first.data));
        let (w, tyres_age_laps) = w.u8();
        let taken = taken + 1;
        assert(w.failed() || (w.pos == first.pos + taken && w.data == first.data));
        let (w, vehicle_fia_flag) = w.code::<VehicleFiaFlag>();
        let taken = taken + 1;
        assert(w.failed() || (w.pos == first.pos + taken && w.data == first.data));
        let (w, engine_power_ice) = w.single_if(packet_format >= 2023);
        let taken = taken + if packet_format >= 2023 {
            4int
        } else {
            0int
        };
        assert(w.failed() || (w.pos == first.pos + taken && w.data == first.data));
        let (w, engine_power_mguk) = w.single_if(packet_format >= 2023);
        let taken = taken + if packet_format >= 2023 {
            4int
        } else {
            0int
        };
        assert(w.failed() || (w.pos == first.pos + taken && w.data == first.data));
        let (w, ers_store_energy) = w.single();
        let taken = taken + 4;
        assert(w.failed() || (w.pos == first.pos + taken && w.data == first.data));
        let (w, ers_deploy_mode) = w.code::<ErsDeployMode>();
        let taken = taken + 1;
        assert(w.failed() || (w.pos == first.pos + taken && w.data == first.data));
        let (w, ers_harvested_this_lap_mguk) = w.single();
        let taken = taken + 4;
        assert(w.failed() || (w.pos == first.pos + taken && w.data == first.data));
        let (w, ers_harvested_this_lap_mguh) = w.single();
        let taken = taken + 4;
        assert(w.failed() || (w.pos == first.pos + taken && w.data == first.data));
        let (w, ers_deployed_this_lap) = w.single();
        let taken = taken + 4;
        assert(w.failed() || (w.pos == first.pos + taken && w.data == first.data));
        let (w, network_paused) = w.boolean();
        let taken = taken + 1;
        assert(w.failed() || (w.pos == first.pos + taken && w.data == first.data));
    }
}

/// Car status data for each car in the race.
#[non_exhaustive]
#[derive(Debug, Clone, PartialEq, Eq)]
pub struct F1PacketCarStatus {
    /// Car status data for all cars. Should have a size of 22.
    pub data: Vec<CarStatusData>,
}

/// A [`F1PacketCarStatus`] as a mathematical value: each list a sequence, each text a
/// sequence of characters.
pub struct F1PacketCarStatusView {
    pub data: Seq<CarStatusData>,
}

impl DeepView for F1PacketCarStatus {
    type V = F1PacketCarStatusView;

    open spec fn deep_view(&self) -> F1PacketCarStatusView {
        F1PacketCarStatusView {
            data: self.data.deep_view(),
        }
    }
}

impl Decode for F1PacketCarStatus {
    open spec fn decoded(w: Wire, packet_format: u16) -> (Wire, F1PacketCarStatusView) {
        let (w, data) = decoded_list::<CarStatusData>(w, MAX_NUM_CARS as nat, packet_format);
        (w, F1PacketCarStatusView { data })
    }

    fn decode(cursor: &mut ByteCursor, packet_format: u16) -> (r: Result<
        F1PacketCarStatus,
        DecodeError,
    >) {
        let data: Vec<CarStatusData> = decode_list(cursor, MAX_NUM_CARS, packet_format)?;
        Ok(F1PacketCarStatus { data })
    }
}

impl F1PacketCarStatus {
    /// Number of bytes of this body on the wire.
    pub open spec fn wire_width(packet_format: u16) -> nat {
        let entries = MAX_NUM_CARS * CarStatusData::wire_width(packet_format);
        let rest = 0nat;
        (entries + rest) as nat
    }

    /// Every successful decode of this body takes `wire_width` bytes.
    pub proof fn lemma_wire_width(packet_format: u16)
        ensures
            has_width::<F1PacketCarStatus>(packet_format, Self::wire_width(packet_format)),
    {
        CarStatusData::lemma_wire_width(packet_format);
        assert forall|w: Wire|
            w.countable() && !w.failed() && !(#[trigger] F1PacketCarStatus::decoded(w, packet_format)).0.failed() implies {
            &&& F1PacketCarStatus::decoded(w, packet_format).0.pos == w.pos + Self::wire_width(packet_format)
            &&& F1PacketCarStatus::decoded(w, packet_format).0.data == w.data
        } by {
            let w_start = w;
            let listed = decoded_list::<CarStatusData>(w, MAX_NUM_CARS as nat, packet_format).0;
            if listed.failed() {
                assert(F1PacketCarStatus::decoded(w_start, packet_format).0.failed());
            }
            lemma_list_layout::<CarStatusData>(
                w,
                MAX_NUM_CARS as nat,
                packet_format,
                CarStatusData::wire_width(packet_format),
            );
        }
    }
}

} // verus!
