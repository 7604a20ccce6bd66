//! The car damage packet.

use vstd::prelude::*;
use crate::constants::MAX_NUM_CARS;
use crate::cursor::ByteCursor;
use crate::decode::Decode;
use crate::decode::decode_list;
use crate::decode::decoded_list;
use crate::decode::has_width;
use crate::decode::lemma_list_layout;
use crate::error::DecodeError;
use crate::wire::F32Bits;
use crate::wire::Wire;

verus! {

/// Damage and wear of one car.
#[non_exhaustive]
#[derive(Debug, Clone, Copy, PartialEq, Eq)]
pub struct CarDamageData {
    /// Tyre wear percentage for all wheels. The order is rear left, rear
    /// right, front left, front right.
    pub tyres_wear: [F32Bits; 4],
    /// Tyre damage percentage for all wheels. The order is rear left, rear
    /// right, front left, front right.
    pub tyres_damage: [u8; 4],
    /// Brake damage percentage for all wheels. The order is rear left, rear
    /// right, front left, front right.
    pub brakes_damage: [u8; 4],
    /// Front left wing damage (percentage)
    pub front_left_wing_damage: u8,
    /// Front right wing damage (percentage)
    pub front_right_wing_damage: u8,
    /// Rear wing damage (percentage)
    pub rear_wing_damage: u8,
    /// Floor damage (percentage)
    pub floor_damage: u8,
    /// Diffuser damage (percentage)
    pub diffuser_damage: u8,
    /// Sidepod damage (percentage)
    pub sidepod_damage: u8,
    /// Whether DRS has failed
    pub drs_fault: bool,
    /// Whether ERS has failed
    pub ers_fault: bool,
    /// Gearbox damage (percentage)
    pub gearbox_damage: u8,
    /// Engine damage (percentage)
    pub engine_damage: u8,
    /// Engine MGU-H wear (percentage)
    pub engine_mguh_wear: u8,
    /// Engine ES wear (percentage)
    pub engine_es_wear: u8,
    /// Engine CE wear (percentage)
    pub engine_ce_wear: u8,
    /// Engine ICE wear (percentage)
    pub engine_ice_wear: u8,
    /// Engine MGU-K wear (percentage)
    pub engine_mguk_wear: u8,
    /// Engine TC wear (percentage)
    pub engine_tc_wear: u8,
    /// Whether the engine has blown
    pub engine_blown: bool,
    /// Whether the engine has seized
    pub engine_seized: bool,
}

impl DeepView for CarDamageData {
    type V = CarDamageData;

    open spec fn deep_view(&self) -> CarDamageData {
        *self
    }
}

impl Decode for CarDamageData {
    open spec fn decoded(w: Wire, packet_format: u16) -> (Wire, CarDamageData) {
        let (w, tyres_wear) = w.singles4();
        let (w, tyres_damage) = w.u8x4();
        let (w, brakes_damage) = w.u8x4();
        let (w, front_left_wing_damage) = w.u8();
        let (w, front_right_wing_damage) = w.u8();
        let (w, rear_wing_damage) = w.u8();
        let (w, floor_damage) = w.u8();
        let (w, diffuser_damage) = w.u8();
        let (w, sidepod_damage) = w.u8();
        let (w, drs_fault) = w.boolean();
        let (w, ers_fault) = w.boolean();
        let (w, gearbox_damage) = w.u8();
        let (w, engine_damage) = w.u8();
        let (w, engine_mguh_wear) = w.u8();
        let (w, engine_es_wear) = w.u8();
        let (w, engine_ce_wear) = w.u8();
        let (w, engine_ice_wear) = w.u8();
        let (w, engine_mguk_wear) = w.u8();
        let (w, engine_tc_wear) = w.u8();
        let (w, engine_blown) = w.boolean();
        let (w, engine_seized) = w.boolean();
        (
            w,
            CarDamageData {
                tyres_wear,
                tyres_damage,
                brakes_damage,
                front_left_wing_damage,
                front_right_wing_damage,
                rear_wing_damage,
                floor_damage,
                diffuser_damage,
                sidepod_damage,
                drs_fault,
                ers_fault,
                gearbox_damage,
                engine_damage,
                engine_mguh_wear,
                engine_es_wear,
                engine_ce_wear,
                engine_ice_wear,
                engine_mguk_wear,
                engine_tc_wear,
                engine_blown,
                engine_seized,
            },
        )
    }

    fn decode(cursor: &mut ByteCursor, packet_format: u16) -> (r: Result<
        CarDamageData,
        DecodeError,
    >) {
        let tyres_wear: [F32Bits; 4] = cursor.read_f32x4()?;
        let tyres_damage: [u8; 4] = cursor.read_u8x4()?;
        let brakes_damage: [u8; 4] = cursor.read_u8x4()?;
        let front_left_wing_damage: u8 = cursor.read_u8()?;
        let front_right_wing_damage: u8 = cursor.read_u8()?;
        let rear_wing_damage: u8 = cursor.read_u8()?;
        let floor_damage: u8 = cursor.read_u8()?;
        let diffuser_damage: u8 = cursor.read_u8()?;
        let sidepod_damage: u8 = cursor.read_u8()?;
        let drs_fault: bool = cursor.read_bool()?;
        let ers_fault: bool = cursor.read_bool()?;
        let gearbox_damage: u8 = cursor.read_u8()?;
        let engine_damage: u8 = cursor.read_u8()?;
        let engine_mguh_wear: u8 = cursor.read_u8()?;
        let engine_es_wear: u8 = cursor.read_u8()?;
        let engine_ce_wear: u8 = cursor.read_u8()?;
        let engine_ice_wear: u8 = cursor.read_u8()?;
        let engine_mguk_wear: u8 = cursor.read_u8()?;
        let engine_tc_wear: u8 = cursor.read_u8()?;
        let engine_blown: bool = cursor.read_bool()?;
        let engine_seized: bool = cursor.read_bool()?;
        Ok(
            CarDamageData {
                tyres_wear,
                tyres_damage,
                brakes_damage,
                front_left_wing_damage,
                front_right_wing_damage,
                rear_wing_damage,
                floor_damage,
                diffuser_damage,
                sidepod_damage,
                drs_fault,
                ers_fault,
                gearbox_damage,
                engine_damage,
                engine_mguh_wear,
                engine_es_wear,
                engine_ce_wear,
                engine_ice_wear,
                engine_mguk_wear,
                engine_tc_wear,
                engine_blown,
                engine_seized,
            },
        )
    }
}

impl CarDamageData {
    /// Number of bytes of this record on the wire.
    pub open spec fn wire_width(packet_format: u16) -> nat {
        42
    }

    /// Every successful decode of this record takes `wire_width` bytes.
    pub proof fn lemma_wire_width(packet_format: u16)
        ensures
            has_width::<CarDamageData>(packet_format, Self::wire_width(packet_format)),
    {
        assert forall|w: Wire|
            w.countable() && !w.failed() && !(#[trigger] CarDamageData::decoded(w, packet_format)).0.failed() implies {
            &&& CarDamageData::decoded(w, packet_format).0.pos == w.pos + Self::wire_width(packet_format)
            &&& CarDamageData::decoded(w, packet_format).0.data == w.data
        } by {
            Self::lemma_progress(w, packet_format);
        }
    }

    /// A decode of this record fails, or takes `wire_width` bytes and leaves
    /// the datagram as it is.
    #[verifier::rlimit(100)]
    pub proof fn lemma_progress(w: Wire, packet_format: u16)
        requires
            w.countable(),
        ensures
            ({
                let end = CarDamageData::decoded(w, packet_format).0;
                end.failed() || (end.pos == w.pos + Self::wire_width(packet_format) && end.data == w.data)
            }),
    {
        // Field by field: either the state has failed, or it stands `taken`
        // bytes behind the start.
        let first = w;
        let start = w.pos;
        let taken = 0int;
        let (w, tyres_wear) = w.singles4();
        let taken = taken + 16;
        assert(w.failed() || (w.pos == first.pos + taken && w.data == first.data));
        let (w, tyres_damage) = w.u8x4();
        let taken = taken + 4;
        assert(w.failed() || (w.pos == first.pos + taken && w.data == first.data));
        let (w, brakes_damage) = w.u8x4();
        let taken = taken + 4;
        assert(w.failed() || (w.pos == first.pos + taken && w.data == first.data));
        let (w, front_left_wing_damage) = w.u8();
        let taken = taken + 1;
        assert(w.failed() || (w.pos == first.pos + taken && w.data == first.data));
        let (w, front_right_wing_damage) = w.u8();
        let taken = taken + 1;
        assert(w.failed() || (w.pos == first.pos + taken && w.data == first.data));
        let (w, rear_wing_damage) = w.u8();
        let taken = taken + 1;
        assert(w.failed() || (w.pos == first.pos + taken && w.data == first.data));
        let (w, floor_damage) = w.u8();
        let taken = taken + 1;
        assert(w.failed() || (w.pos == first.pos + taken && w.data == first.data));
        let (w, diffuser_damage) = w.u8();
        let taken = taken + 1;
        assert(w.failed() || (w.pos == first.pos + taken && w.data == first.data));
        let (w, sidepod_damage) = w.u8();
        let taken = taken + 1;
        assert(w.failed() || (w.pos == first.pos + taken && w.data == first.data));
        let (w, drs_fault) = w.boolean();
        let taken = taken + 1;
        assert(w.failed() || (w.pos == first.pos + taken && w.data == first.data));
        let (w, ers_fault) = w.boolean();
        let taken = taken + 1;
        assert(w.failed() || (w.pos == first.pos + taken && w.data == first.data));
        let (w, gearbox_damage) = w.u8();
        let taken = taken + 1;
        assert(w.failed() || (w.pos == first.pos + taken && w.data == first.data));
        let (w, engine_damage) = w.u8();
        let taken = taken + 1;
        assert(w.failed() || (w.pos == first.pos + taken && w.data == first.data));
        let (w, engine_mguh_wear) = w.u8();
        let taken = taken + 1;
        assert(w.failed() || (w.pos == first.pos + taken && w.data == first.data));
        let (w, engine_es_wear) = w.u8();
        let taken = taken + 1;
        assert(w.failed() || (w.pos == first.pos + taken && w.data == first.data));
        let (w, engine_ce_wear) = w.u8();
        let taken = taken + 1;
        assert(w.failed() || (w.pos == first.pos + taken && w.data == first.data));
        let (w, engine_ice_wear) = w.u8();
        let taken = taken + 1;
        assert(w.failed() || (w.pos == first.pos + taken && w.data == first.data));
        let (w, engine_mguk_wear) = w.u8();
        let taken = taken + 1;
        assert(w.failed() || (w.pos == first.pos + taken && w.data == first.data));
        let (w, engine_tc_wear) = w.u8();
        let taken = taken + 1;
        assert(w.failed() || (w.pos == first.pos + taken && w.data == first.data));
        let (w, engine_blown) = w.boolean();
        let taken = taken + 1;
        assert(w.failed() || (w.pos == first.pos + taken && w.data == first.data));
        let (w, engine_seized) = w.boolean();
        let taken = taken + 1;
        assert(w.failed() || (w.pos == first.pos + taken && w.data == first.data));
    }
}

/// Car damage parameters for all cars in the session.
#[non_exhaustive]
#[derive(Debug, Clone, PartialEq, Eq)]
pub struct F1PacketCarDamage {
    /// Car damage data. Should have a size of 22.
    pub data: Vec<CarDamageData>,
}

/// A [`F1PacketCarDamage`] as a mathematical value: each list a sequence, each text a
/// sequence of characters.
pub struct F1PacketCarDamageView {
    pub data: Seq<CarDamageData>,
}

impl DeepView for F1PacketCarDamage {
    type V = F1PacketCarDamageView;

    open spec fn deep_view(&self) -> F1PacketCarDamageView {
        F1PacketCarDamageView {
            data: self.data.deep_view(),
        }
    }
}

impl Decode for F1PacketCarDamage {
    open spec fn decoded(w: Wire, packet_format: u16) -> (Wire, F1PacketCarDamageView) {
        let (w, data) = decoded_list::<CarDamageData>(w, MAX_NUM_CARS as nat, packet_format);
        (w, F1PacketCarDamageView { data })
    }

    fn decode(cursor: &mut ByteCursor, packet_format: u16) -> (r: Result<
        F1PacketCarDamage,
        DecodeError,
    >) {
        let data: Vec<CarDamageData> = decode_list(cursor, MAX_NUM_CARS, packet_format)?;
        Ok(F1PacketCarDamage { data })
    }
}

impl F1PacketCarDamage {
    /// Number of bytes of this body on the wire.
    pub open spec fn wire_width(packet_format: u16) -> nat {
        let entries = MAX_NUM_CARS * CarDamageData::wire_width(packet_format);
        let rest = 0nat;
        (entries + rest) as nat
    }

    /// Every successful decode of this body takes `wire_width` bytes.
    pub proof fn lemma_wire_width(packet_format: u16)
        ensures
            has_width::<F1PacketCarDamage>(packet_format, Self::wire_width(packet_format)),
    {
        CarDamageData::lemma_wire_width(packet_format);
        assert forall|w: Wire|
            w.countable() && !w.failed() && !(#[trigger] F1PacketCarDamage::decoded(w, packet_format)).0.failed() implies {
            &&& F1PacketCarDamage::decoded(w, packet_format).0.pos == w.pos + Self::wire_width(packet_format)
            &&& F1PacketCarDamage::decoded(w, packet_format).0.data == w.data
        } by {
            let w_start = w;
            let listed = decoded_list::<CarDamageData>(w, MAX_NUM_CARS as nat, packet_format).0;
            if listed.failed() {
                assert(F1PacketCarDamage::decoded(w_start, packet_format).0.failed());
            }
            lemma_list_layout::<CarDamageData>(
                w,
                MAX_NUM_CARS as nat,
                packet_format,
                CarDamageData::wire_width(packet_format),
            );
        }
    }
}

} // verus!
