//! The car telemetry packet: speed, pedals, gear, temperatures.

use vstd::prelude::*;
use crate::constants::MAX_NUM_CARS;
use crate::constants::MfdPanelIndex;
use crate::constants::Surface;
use crate::constants::flags::RevLights;
use crate::cursor::ByteCursor;
use crate::decode::Decode;
use crate::decode::decode_list;
use crate::decode::decoded_list;
use crate::decode::has_width;
use crate::decode::lemma_list_layout;
use crate::error::DecodeError;
use crate::error::FieldName;
use crate::wire::F32Bits;
use crate::wire::Wire;

verus! {

/// Telemetry of one car: speed, pedals, gear, lights and temperatures.
#[non_exhaustive]
#[derive(Debug, Clone, Copy, PartialEq, Eq)]
pub struct CarTelemetryData {
    /// Speed of the car in kilometres per hour.
    pub speed: u16,
    /// Amount of throttle applied. Value in range `(0.0..=1.0)`.
    pub throttle: F32Bits,
    /// Steering lock. Value in range `(-1.0..=1.0)`.
    pub steer: F32Bits,
    /// Amount of brake applied. Value in range `(0.0..=1.0)`.
    pub brake: F32Bits,
    /// Amount of clutch applied (percentage).
    pub clutch: u8,
    /// Selected gear. Neutral = 0, reverse = -1.
    pub gear: i8,
    /// Engine RPM.
    pub engine_rpm: u16,
    /// Whether DRS is enabled.
    pub drs_enabled: bool,
    /// Rev lights indicator (percentage).
    pub rev_lights_percent: u8,
    /// Bitmap of active rev lights.
    pub rev_lights_bit_value: RevLights,
    /// Brakes' temperature values in degrees Celsius. The order is rear left,
    /// rear right, front left, front right.
    pub brakes_temperature: [u16; 4],
    /// Tyres' surface temperature values in degrees Celsius. The order is
    /// rear left, rear right, front left, front right.
    pub tyres_surface_temperature: [u8; 4],
    /// Tyres' inner temperature values in degrees Celsius. The order is rear
    /// left, rear right, front left, front right.
    pub tyres_inner_temperature: [u8; 4],
    /// Engine's temperature in degrees Celsius
    pub engine_temperature: u16,
    /// Tyre pressure values in PSI. The order is rear left, rear right, front
    /// left, front right.
    pub tyres_pressure: [F32Bits; 4],
    /// Driving surface of each tyre. The order is rear left, rear right,
    /// front left, front right.
    pub surface_type: Option<[Surface; 4]>,
}

impl DeepView for CarTelemetryData {
    type V = CarTelemetryData;

    open spec fn deep_view(&self) -> CarTelemetryData {
        *self
    }
}

impl Decode for CarTelemetryData {
    open spec fn decoded(w: Wire, packet_format: u16) -> (Wire, CarTelemetryData) {
        let start = w.pos;
        let (w, speed) = w.u16();
        let (w, throttle) = w.single();
        let (w, steer) = w.single();
        let (w, brake) = w.single();
        let (w, clutch) = w.u8();
        let (w, gear) = w.i8();
        let (w, engine_rpm) = w.u16();
        let (w, drs_enabled) = w.boolean();
        let (w, rev_lights_percent) = w.u8();
        let (w, rev_lights_bit_value) = w.rev_lights();
        let (w, brakes_temperature) = w.u16x4();
        let (w, tyres_surface_temperature) = w.u8x4();
        let (w, tyres_inner_temperature) = w.u8x4();
        let (w, engine_temperature) = w.u16();
        let (w, tyres_pressure) = w.singles4();
        let (w, surface_type) = w.codes4::<Surface>();
        let w = w.in_range(
            throttle.in_unit_range(),
            FieldName::Throttle,
            throttle.bits as int,
            start,
        );
        let w = w.in_range(
            steer.in_signed_unit_range(),
            FieldName::Steer,
            steer.bits as int,
            start,
        );
        let w = w.in_range(brake.in_unit_range(), FieldName::Brake, brake.bits as int, start);
        let w = w.in_range(clutch <= 100, FieldName::Clutch, clutch as int, start);
        let w = w.in_range(-1 <= gear && gear <= 8, FieldName::Gear, gear as int, start);
        let w = w.in_range(
            rev_lights_percent <= 100,
            FieldName::RevLightsPercent,
            rev_lights_percent as int,
            start,
        );
        (
            w,
            CarTelemetryData {
                speed,
                throttle,
                steer,
                brake,
                clutch,
                gear,
                engine_rpm,
                drs_enabled,
                rev_lights_percent,
                rev_lights_bit_value,
                brakes_temperature,
                tyres_surface_temperature,
                tyres_inner_temperature,
                engine_temperature,
                tyres_pressure,
                surface_type,
            },
        )
    }

    fn decode(cursor: &mut ByteCursor, packet_format: u16) -> (r: Result<
        CarTelemetryData,
        DecodeError,
    >) {
        let start: usize = cursor.position();
        let speed: u16 = cursor.read_u16()?;
        let throttle: F32Bits = cursor.read_f32()?;
        let steer: F32Bits = cursor.read_f32()?;
        let brake: F32Bits = cursor.read_f32()?;
        let clutch: u8 = cursor.read_u8()?;
        let gear: i8 = cursor.read_i8()?;
        let engine_rpm: u16 = cursor.read_u16()?;
        let drs_enabled: bool = cursor.read_bool()?;
        let rev_lights_percent: u8 = cursor.read_u8()?;
        let rev_lights_bit_value: RevLights = cursor.read_rev_lights()?;
        let brakes_temperature: [u16; 4] = cursor.read_u16x4()?;
        let tyres_surface_temperature: [u8; 4] = cursor.read_u8x4()?;
        let tyres_inner_temperature: [u8; 4] = cursor.read_u8x4()?;
        let engine_temperature: u16 = cursor.read_u16()?;
        let tyres_pressure: [F32Bits; 4] = cursor.read_f32x4()?;
        let surface_type: Option<[Surface; 4]> = cursor.read_codes4()?;
        cursor.in_range(
            throttle.is_in_unit_range(),
            FieldName::Throttle,
            throttle.bits as i64,
            start,
        )?;
        cursor.in_range(
            steer.is_in_signed_unit_range(),
            FieldName::Steer,
            steer.bits as i64,
            start,
        )?;
        cursor.in_range(brake.is_in_unit_range(), FieldName::Brake, brake.bits as i64, start)?;
        cursor.in_range(clutch <= 100, FieldName::Clutch, clutch as i64, start)?;
        cursor.in_range(-1 <= gear && gear <= 8, FieldName::Gear, gear as i64, start)?;
        cursor.in_range(
            rev_lights_percent <= 100,
            FieldName::RevLightsPercent,
            rev_lights_percent as i64,
            start,
        )?;
        Ok(
            CarTelemetryData {
                speed,
                throttle,
                steer,
                brake,
                clutch,
                gear,
                engine_rpm,
                drs_enabled,
                rev_lights_percent,
                rev_lights_bit_value,
                brakes_temperature,
                tyres_surface_temperature,
                tyres_inner_temperature,
                engine_temperature,
                tyres_pressure,
                surface_type,
            },
        )
    }
}

impl CarTelemetryData {
    /// Number of bytes of this record on the wire.
    pub open spec fn wire_width(packet_format: u16) -> nat {
        60
    }

    /// Every successful decode of this record takes `wire_width` bytes.
    pub proof fn lemma_wire_width(packet_format: u16)
        ensures
            has_width::<CarTelemetryData>(packet_format, Self::wire_width(packet_format)),
    {
    }
}

/// Telemetry (such as speed, DRS, throttle application, etc.) for all cars in
/// the race.
#[derive(Debug, Clone, PartialEq, Eq)]
pub struct F1PacketCarTelemetry {
    /// Telemetry data for all cars on track. Should have a size of 22.
    pub data: Vec<CarTelemetryData>,
    /// Index of currently open MFD panel for player 1.
    pub mfd_panel_index: MfdPanelIndex,
    /// Index of currently open MFD panel for player 2.
    pub mfd_panel_index_secondary_player: MfdPanelIndex,
    /// Suggested gear (0 if no gear suggested).
    pub suggested_gear: i8,
}

/// A [`F1PacketCarTelemetry`] as a mathematical value: each list a sequence, each text a
/// sequence of characters.
pub struct F1PacketCarTelemetryView {
    pub data: Seq<CarTelemetryData>,
    pub mfd_panel_index: MfdPanelIndex,
    pub mfd_panel_index_secondary_player: MfdPanelIndex,
    pub suggested_gear: i8,
}

impl DeepView for F1PacketCarTelemetry {
    type V = F1PacketCarTelemetryView;

    open spec fn deep_view(&self) -> F1PacketCarTelemetryView {
        F1PacketCarTelemetryView {
            data: self.data.deep_view(),
            mfd_panel_index: self.mfd_panel_index,
            mfd_panel_index_secondary_player: self.mfd_panel_index_secondary_player,
            suggested_gear: self.suggested_gear,
        }
    }
}

impl Decode for F1PacketCarTelemetry {
    open spec fn decoded(w: Wire, packet_format: u16) -> (Wire, F1PacketCarTelemetryView) {
        let start = w.pos;
        let (w, data) = decoded_list::<CarTelemetryData>(w, MAX_NUM_CARS as nat, packet_format);
        let (w, mfd_panel_index) = w.code::<MfdPanelIndex>();
        let (w, mfd_panel_index_secondary_player) = w.code::<MfdPanelIndex>();
        let (w, suggested_gear) = w.i8();
        let w = w.in_range(
            -1 <= suggested_gear && suggested_gear <= 8,
            FieldName::SuggestedGear,
            suggested_gear as int,
            start,
        );
        (
            w,
            F1PacketCarTelemetryView {
                data,
                mfd_panel_index,
                mfd_panel_index_secondary_player,
                suggested_gear,
            },
        )
    }

    fn decode(cursor: &mut ByteCursor, packet_format: u16) -> (r: Result<
        F1PacketCarTelemetry,
        DecodeError,
    >) {
        let start: usize = cursor.position();
        let data: Vec<CarTelemetryData> = decode_list(cursor, MAX_NUM_CARS, packet_format)?;
        let mfd_panel_index: MfdPanelIndex = cursor.read_code()?;
        let mfd_panel_index_secondary_player: MfdPanelIndex = cursor.read_code()?;
        let suggested_gear: i8 = cursor.read_i8()?;
        cursor.in_range(
            -1 <= suggested_gear && suggested_gear <= 8,
            FieldName::SuggestedGear,
            suggested_gear as i64,
            start,
        )?;
        Ok(
            F1PacketCarTelemetry {
                data,
                mfd_panel_index,
                mfd_panel_index_secondary_player,
                suggested_gear,
            },
        )
    }
}

impl F1PacketCarTelemetry {
    /// Number of bytes of this body on the wire.
    pub open spec fn wire_width(packet_format: u16) -> nat {
        let entries = MAX_NUM_CARS * CarTelemetryData::wire_width(packet_format);
        let rest = 3nat;
        (entries + rest) as nat
    }

    /// Every successful decode of this body takes `wire_width` bytes.
    pub proof fn lemma_wire_width(packet_format: u16)
        ensures
            has_width::<F1PacketCarTelemetry>(packet_format, Self::wire_width(packet_format)),
    {
        CarTelemetryData::lemma_wire_width(packet_format);
        assert forall|w: Wire|
            w.countable() && !w.failed() && !(#[trigger] F1PacketCarTelemetry::decoded(w, packet_format)).0.failed() implies {
            &&& F1PacketCarTelemetry::decoded(w, packet_format).0.pos == w.pos + Self::wire_width(packet_format)
            &&& F1PacketCarTelemetry::decoded(w, packet_format).0.data == w.data
        } by {
            let w_start = w;
            let listed = decoded_list::<CarTelemetryData>(w, MAX_NUM_CARS as nat, packet_format).0;
            if listed.failed() {
                assert(F1PacketCarTelemetry::decoded(w_start, packet_format).0.failed());
            }
            lemma_list_layout::<CarTelemetryData>(
                w,
                MAX_NUM_CARS as nat,
                packet_format,
                CarTelemetryData::wire_width(packet_format),
            );
        }
    }
}

} // verus!
