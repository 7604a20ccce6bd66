//! The car setups packet.

use vstd::prelude::*;
use crate::constants::MAX_NUM_CARS;
use crate::cursor::ByteCursor;
use crate::decode::Decode;
use crate::decode::decode_list;
use crate::decode::decoded_list;
use crate::decode::has_width;
use crate::decode::lemma_list_layout;
use crate::error::DecodeError;
use crate::error::FieldName;
use crate::wire::F32Bits;
use crate::wire::Wire;

verus! {

/// The setup of one car.
#[non_exhaustive]
#[derive(Debug, Clone, Copy, PartialEq, Eq)]
pub struct CarSetupData {
    /// Front wing aero.
    pub front_wing: u8,
    /// Rear wing aero.
    pub rear_wing: u8,
    /// Differential adjustment on throttle (percentage).
    pub on_throttle: u8,
    /// Differential adjustment off throttle (percentage).
    pub off_throttle: u8,
    /// Front camber angle (suspension geometry).
    pub front_camber: F32Bits,
    /// Rear camber angle (suspension geometry).
    pub rear_camber: F32Bits,
    /// Front toe angle (suspension geometry).
    pub front_toe: F32Bits,
    /// Rear toe angle (suspension geometry).
    pub rear_toe: F32Bits,
    /// Front suspension.
    pub front_suspension: u8,
    /// Rear suspension.
    pub rear_suspension: u8,
    /// Front anti-roll bar.
    pub front_anti_roll_bar: u8,
    /// Rear anti-roll bar.
    pub rear_anti_roll_bar: u8,
    /// Front ride height.
    pub front_suspension_height: u8,
    /// Rear ride height.
    pub rear_suspension_height: u8,
    /// Brake pressure (percentage).
    pub brake_pressure: u8,
    /// Brake bias.
    pub brake_bias: u8,
    /// Rear left tyre pressure.
    pub rear_left_tyre_pressure: F32Bits,
    /// Rear right tyre pressure.
    pub rear_right_tyre_pressure: F32Bits,
    /// Front left tyre pressure.
    pub front_left_tyre_pressure: F32Bits,
    /// Front right tyre pressure.
    pub front_right_tyre_pressure: F32Bits,
    /// Ballast.
    pub ballast: u8,
    /// Fuel load.
    pub fuel_load: F32Bits,
}

impl DeepView for CarSetupData {
    type V = CarSetupData;

    open spec fn deep_view(&self) -> CarSetupData {
        *self
    }
}

impl Decode for CarSetupData {
    open spec fn decoded(w: Wire, packet_format: u16) -> (Wire, CarSetupData) {
        let start = w.pos;
        let (w, front_wing) = w.u8();
        let (w, rear_wing) = w.u8();
        let (w, on_throttle) = w.u8();
        let w = w.in_range(on_throttle <= 100, FieldName::OnThrottle, on_throttle as int, start);
        let (w, off_throttle) = w.u8();
        let w = w.in_range(off_throttle <= 100, FieldName::OffThrottle, off_throttle as int, start);
        let (w, front_camber) = w.single();
        let (w, rear_camber) = w.single();
        let (w, front_toe) = w.single();
        let (w, rear_toe) = w.single();
        let (w, front_suspension) = w.u8();
        let (w, rear_suspension) = w.u8();
        let (w, front_anti_roll_bar) = w.u8();
        let (w, rear_anti_roll_bar) = w.u8();
        let (w, front_suspension_height) = w.u8();
        let (w, rear_suspension_height) = w.u8();
        let (w, brake_pressure) = w.u8();
        let w = w.in_range(
            brake_pressure <= 100,
            FieldName::BrakePressure,
            brake_pressure as int,
            start,
        );
        let (w, brake_bias) = w.u8();
        let (w, rear_left_tyre_pressure) = w.single();
        let (w, rear_right_tyre_pressure) = w.single();
        let (w, front_left_tyre_pressure) = w.single();
        let (w, front_right_tyre_pressure) = w.single();
        let (w, ballast) = w.u8();
        let (w, fuel_load) = w.single();
        (
            w,
            CarSetupData {
                front_wing,
                rear_wing,
                on_throttle,
                off_throttle,
                front_camber,
                rear_camber,
                front_toe,
                rear_toe,
                front_suspension,
                rear_suspension,
                front_anti_roll_bar,
                rear_anti_roll_bar,
                front_suspension_height,
                rear_suspension_height,
                brake_pressure,
                brake_bias,
                rear_left_tyre_pressure,
                rear_right_tyre_pressure,
                front_left_tyre_pressure,
                front_right_tyre_pressure,
                ballast,
                fuel_load,
            },
        )
    }

    fn decode(cursor: &mut ByteCursor, packet_format: u16) -> (r: Result<
        CarSetupData,
        DecodeError,
    >) {
        let start: usize = cursor.position();
        let front_wing: u8 = cursor.read_u8()?;
        let rear_wing: u8 = cursor.read_u8()?;
        let on_throttle: u8 = cursor.read_u8()?;
        cursor.in_range(on_throttle <= 100, FieldName::OnThrottle, on_throttle as i64, start)?;
        let off_throttle: u8 = cursor.read_u8()?;
        cursor.in_range(off_throttle <= 100, FieldName::OffThrottle, off_throttle as i64, start)?;
        let front_camber: F32Bits = cursor.read_f32()?;
        let rear_camber: F32Bits = cursor.read_f32()?;
        let front_toe: F32Bits = cursor.read_f32()?;
        let rear_toe: F32Bits = cursor.read_f32()?;
        let front_suspension: u8 = cursor.read_u8()?;
        let rear_suspension: u8 = cursor.read_u8()?;
        let front_anti_roll_bar: u8 = cursor.read_u8()?;
        let rear_anti_roll_bar: u8 = cursor.read_u8()?;
        let front_suspension_height: u8 = cursor.read_u8()?;
        let rear_suspension_height: u8 = cursor.read_u8()?;
        let brake_pressure: u8 = cursor.read_u8()?;
        cursor.in_range(
            brake_pressure <= 100,
            FieldName::BrakePressure,
            brake_pressure as i64,
            start,
        )?;
        let brake_bias: u8 = cursor.read_u8()?;
        let rear_left_tyre_pressure: F32Bits = cursor.read_f32()?;
        let rear_right_tyre_pressure: F32Bits = cursor.read_f32()?;
        let front_left_tyre_pressure: F32Bits = cursor.read_f32()?;
        let front_right_tyre_pressure: F32Bits = cursor.read_f32()?;
        let ballast: u8 = cursor.read_u8()?;
        let fuel_load: F32Bits = cursor.read_f32()?;
        Ok(
            CarSetupData {
                front_wing,
                rear_wing,
                on_throttle,
                off_throttle,
                front_camber,
                rear_camber,
                front_toe,
                rear_toe,
                front_suspension,
                rear_suspension,
                front_anti_roll_bar,
                rear_anti_roll_bar,
                front_suspension_height,
                rear_suspension_height,
                brake_pressure,
                brake_bias,
                rear_left_tyre_pressure,
                rear_right_tyre_pressure,
                front_left_tyre_pressure,
                front_right_tyre_pressure,
                ballast,
                fuel_load,
            },
        )
    }
}

impl CarSetupData {
    /// Number of bytes of this record on the wire.
    pub open spec fn wire_width(packet_format: u16) -> nat {
        49
    }

    /// Every successful decode of this record takes `wire_width` bytes.
    pub proof fn lemma_wire_width(packet_format: u16)
        ensures
            has_width::<CarSetupData>(packet_format, Self::wire_width(packet_format)),
    {
        assert forall|w: Wire|
            w.countable() && !w.failed() && !(#[trigger] CarSetupData::decoded(w, packet_format)).0.failed() implies {
            &&& CarSetupData::decoded(w, packet_format).0.pos == w.pos + Self::wire_width(packet_format)
            &&& CarSetupData::decoded(w, packet_format).0.data == w.data
        } by {
            Self::lemma_progress(w, packet_format);
        }
    }

    /// A decode of this record fails, or takes `wire_width` bytes and leaves
    /// the datagram as it is.
    #[verifier::rlimit(100)]
    pub proof fn lemma_progress(w: Wire, packet_format: u16)
        requires
            w.countable(),
        ensures
            ({
                let end = CarSetupData::decoded(w, packet_format).0;
                end.failed() || (end.pos == w.pos + Self::wire_width(packet_format) && end.data == w.data)
            }),
    {
        // Field by field: either the state has failed, or it stands `taken`
        // bytes behind the start.
        let first = w;
        let start = w.pos;
        let taken = 0int;
        let (w, front_wing) = w.u8();
        let taken = taken + 1;
        assert(w.failed() || (w.pos == first.pos + taken && w.data == first.data));
        let (w, rear_wing) = w.u8();
        let taken = taken + 1;
        assert(w.failed() || (w.pos == first.pos + taken && w.data == first.data));
        let (w, on_throttle) = w.u8();
        let w = w.in_range(on_throttle <= 100, FieldName::OnThrottle, on_throttle as int, start);
        let taken = taken + 1;
        assert(w.failed() || (w.pos == first.pos + taken && w.data == first.data));
        let (w, off_throttle) = w.u8();
        let w = w.in_range(off_throttle <= 100, FieldName::OffThrottle, off_throttle as int, start);
        let taken = taken + 1;
        assert(w.failed() || (w.pos == first.pos + taken && w.data == first.data));
        let (w, front_camber) = w.single();
        let taken = taken + 4;
        assert(w.failed() || (w.pos == first.pos + taken && w.data == first.data));
        let (w, rear_camber) = w.single();
        let taken = taken + 4;
        assert(w.failed() || (w.pos == first.pos + taken && w.data == first.data));
        let (w, front_toe) = w.single();
        let taken = taken + 4;
        assert(w.failed() || (w.pos == first.pos + taken && w.data == first.data));
        let (w, rear_toe) = w.single();
        let taken = taken + 4;
        assert(w.failed() || (w.pos == first.pos + taken && w.data == first.data));
        let (w, front_suspension) = w.u8();
        let taken = taken + 1;
        assert(w.failed() || (w.pos == first.pos + taken && w.data == first.data));
        let (w, rear_suspension) = w.u8();
        let taken = taken + 1;
        assert(w.failed() || (w.pos == first.pos + taken && w.data == first.data));
        let (w, front_anti_roll_bar) = w.u8();
        let taken = taken + 1;
        assert(w.failed() || (w.pos == first.pos + taken && w.data == first.data));
        let (w, rear_anti_roll_bar) = w.u8();
        let taken = taken + 1;
        assert(w.failed() || (w.pos == first.pos + taken && w.data == first.data));
        let (w, front_suspension_height) = w.u8();
        let taken = taken + 1;
        assert(w.failed() || (w.pos == first.pos + taken && w.data == first.data));
        let (w, rear_suspension_height) = w.u8();
        let taken = taken + 1;
        assert(w.failed() || (w.pos == first.pos + taken && w.data == first.data));
        let (w, brake_pressure) = w.u8();
        let w = w.in_range(
            brake_pressure <= 100,
            FieldName::BrakePressure,
            brake_pressure as int,
            start,
        );
        let taken = taken + 1;
        assert(w.failed() || (w.pos == first.pos + taken && w.data == first.data));
        let (w, brake_bias) = w.u8();
        let taken = taken + 1;
        assert(w.failed() || (w.pos == first.pos + taken && w.data == first.data));
        let (w, rear_left_tyre_pressure) = w.single();
        let taken = taken + 4;
        assert(w.failed() || (w.pos == first.pos + taken && w.data == first.data));
        let (w, rear_right_tyre_pressure) = w.single();
        let taken = taken + 4;
        assert(w.failed() || (w.pos == first.pos + taken && w.data == first.data));
        let (w, front_left_tyre_pressure) = w.single();
        let taken = taken + 4;
        assert(w.failed() || (w.pos == first.pos + taken && w.data == first.data));
        let (w, front_right_tyre_pressure) = w.single();
        let taken = taken + 4;
        assert(w.failed() || (w.pos == first.pos + taken && w.data == first.data));
        let (w, ballast) = w.u8();
        let taken = taken + 1;
        assert(w.failed() || (w.pos == first.pos + taken && w.data == first.data));
        let (w, fuel_load) = w.single();
        let taken = taken + 4;
        assert(w.failed() || (w.pos == first.pos + taken && w.data == first.data));
    }
}

/// Car setups for all cars in the race. In multiplayer games, other player
/// cars will appear as blank. You will only be able to see your car setup and
/// AI cars.
#[non_exhaustive]
#[derive(Debug, Clone, PartialEq, Eq)]
pub struct F1PacketCarSetups {
    /// Setup data for all cars on track. Should have a size of 22.
    pub data: Vec<CarSetupData>,
    /// Value of front wing after next pit stop - player only. Available from
    /// the 2024 format onwards
    pub next_front_wing_value: F32Bits,
}

/// A [`F1PacketCarSetups`] as a mathematical value: each list a sequence, each text a
/// sequence of characters.
pub struct F1PacketCarSetupsView {
    pub data: Seq<CarSetupData>,
    pub next_front_wing_value: F32Bits,
}

impl DeepView for F1PacketCarSetups {
    type V = F1PacketCarSetupsView;

    open spec fn deep_view(&self) -> F1PacketCarSetupsView {
        F1PacketCarSetupsView {
            data: self.data.deep_view(),
            next_front_wing_value: self.next_front_wing_value,
        }
    }
}

impl Decode for F1PacketCarSetups {
    open spec fn decoded(w: Wire, packet_format: u16) -> (Wire, F1PacketCarSetupsView) {
        let (w, data) = decoded_list::<CarSetupData>(w, MAX_NUM_CARS as nat, packet_format);
        let (w, next_front_wing_value) = w.single_if(packet_format >= 2024);
        (w, F1PacketCarSetupsView { data, next_front_wing_value })
    }

    fn decode(cursor: &mut ByteCursor, packet_format: u16) -> (r: Result<
        F1PacketCarSetups,
        DecodeError,
    >) {
        let data: Vec<CarSetupData> = decode_list(cursor, MAX_NUM_CARS, packet_format)?;
        let next_front_wing_value: F32Bits = cursor.read_f32_if(packet_format >= 2024)?;
        Ok(F1PacketCarSetups { data, next_front_wing_value })
    }
}

impl F1PacketCarSetups {
    /// Number of bytes of this body on the wire.
    pub open spec fn wire_width(packet_format: u16) -> nat {
        let entries = MAX_NUM_CARS * CarSetupData::wire_width(packet_format);
        let rest = if packet_format >= 2024 {
            4nat
        } else {
            0nat
        };
        (entries + rest) as nat
    }

    /// Every successful decode of this body takes `wire_width` bytes.
    pub proof fn lemma_wire_width(packet_format: u16)
        ensures
            has_width::<F1PacketCarSetups>(packet_format, Self::wire_width(packet_format)),
    {
        CarSetupData::lemma_wire_width(packet_format);
        assert forall|w: Wire|
            w.countable() && !w.failed() && !(#[trigger] F1PacketCarSetups::decoded(w, packet_format)).0.failed() implies {
            &&& F1PacketCarSetups::decoded(w, packet_format).0.pos == w.pos + Self::wire_width(packet_format)
            &&& F1PacketCarSetups::decoded(w, packet_format).0.data == w.data
        } by {
            let w_start = w;
            let listed = decoded_list::<CarSetupData>(w, MAX_NUM_CARS as nat, packet_format).0;
            if listed.failed() {
                assert(F1PacketCarSetups::decoded(w_start, packet_format).0.failed());
            }
            lemma_list_layout::<CarSetupData>(
                w,
                MAX_NUM_CARS as nat,
                packet_format,
                CarSetupData::wire_width(packet_format),
            );
        }
    }
}

} // verus!
