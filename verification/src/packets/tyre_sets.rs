//! The tyre sets packet: the tyre sets of one car.

use vstd::prelude::*;
use crate::constants::ActualTyreCompound;
use crate::constants::VisualTyreCompound;
use crate::cursor::ByteCursor;
use crate::decode::Decode;
use crate::decode::decode_list;
use crate::decode::decoded_list;
use crate::decode::has_width;
use crate::decode::lemma_list_layout;
use crate::error::DecodeError;
use crate::error::FieldName;
use crate::wire::Wire;

verus! {

/// Number of tyre sets of a car: 13 dry and 7 wet ones.
pub const NUM_TYRE_SETS: usize = 20;

/// One set of tyres.
#[non_exhaustive]
#[derive(Debug, Clone, Copy, PartialEq, Eq, PartialOrd, Ord)]
pub struct TyreSetData {
    /// Actual tyre compound.
    pub actual_tyre_compound: ActualTyreCompound,
    /// Visual tyre compound.
    pub visual_tyre_compound: VisualTyreCompound,
    /// Tyre wear (percentage).
    pub wear: u8,
    /// Whether this set is currently available.
    pub available: bool,
    /// Recommended session for this tyre set.
    pub recommended_session: u8,
    /// Laps left in this set.
    pub life_span: u8,
    /// Max number of laps recommended for this compound.
    pub usable_life: u8,
    /// Lap time delta in milliseconds compared to fitted set.
    pub lap_delta_time: i16,
    /// Whether this set is fitted or not.
    pub fitted: bool,
}

impl DeepView for TyreSetData {
    type V = TyreSetData;

    open spec fn deep_view(&self) -> TyreSetData {
        *self
    }
}

impl Decode for TyreSetData {
    open spec fn decoded(w: Wire, packet_format: u16) -> (Wire, TyreSetData) {
        let start = w.pos;
        let (w, actual_tyre_compound) = w.code::<ActualTyreCompound>();
        let (w, visual_tyre_compound) = w.code::<VisualTyreCompound>();
        let (w, wear) = w.u8();
        let (w, available) = w.boolean();
        let (w, recommended_session) = w.u8();
        let (w, life_span) = w.u8();
        let (w, usable_life) = w.u8();
        let (w, lap_delta_time) = w.i16();
        let (w, fitted) = w.boolean();
        let w = w.in_range(wear <= 100, FieldName::Wear, wear as int, start);
        (
            w,
            TyreSetData {
                actual_tyre_compound,
                visual_tyre_compound,
                wear,
                available,
                recommended_session,
                life_span,
                usable_life,
                lap_delta_time,
                fitted,
            },
        )
    }

    fn decode(cursor: &mut ByteCursor, packet_format: u16) -> (r: Result<
        TyreSetData,
        DecodeError,
    >) {
        let start: usize = cursor.position();
        let actual_tyre_compound: ActualTyreCompound = cursor.read_code()?;
        let visual_tyre_compound: VisualTyreCompound = cursor.read_code()?;
        let wear: u8 = cursor.read_u8()?;
        let available: bool = cursor.read_bool()?;
        let recommended_session: u8 = cursor.read_u8()?;
        let life_span: u8 = cursor.read_u8()?;
        let usable_life: u8 = cursor.read_u8()?;
        let lap_delta_time: i16 = cursor.read_i16()?;
        let fitted: bool = cursor.read_bool()?;
        cursor.in_range(wear <= 100, FieldName::Wear, wear as i64, start)?;
        Ok(
            TyreSetData {
                actual_tyre_compound,
                visual_tyre_compound,
                wear,
                available,
                recommended_session,
                life_span,
                usable_life,
                lap_delta_time,
                fitted,
            },
        )
    }
}

impl TyreSetData {
    /// Number of bytes of this record on the wire.
    pub open spec fn wire_width(packet_format: u16) -> nat {
        10
    }

    /// Every successful decode of this record takes `wire_width` bytes.
    pub proof fn lemma_wire_width(packet_format: u16)
        ensures
            has_width::<TyreSetData>(packet_format, Self::wire_width(packet_format)),
    {
    }
}

/// In-depth details about tyre sets assigned to a vehicle during the session.
/// Available from the 2023 format onwards.
#[non_exhaustive]
#[derive(Debug, Clone, PartialEq, Eq)]
pub struct F1PacketTyreSets {
    /// Index of the car this packet relates to.
    pub vehicle_index: usize,
    /// 13 dry + 7 wet tyre sets.
    pub data: Vec<TyreSetData>,
    /// Index of fitted tyre set.
    pub fitted_index: usize,
}

/// A [`F1PacketTyreSets`] as a mathematical value: each list a sequence, each text a
/// sequence of characters.
pub struct F1PacketTyreSetsView {
    pub vehicle_index: usize,
    pub data: Seq<TyreSetData>,
    pub fitted_index: usize,
}

impl DeepView for F1PacketTyreSets {
    type V = F1PacketTyreSetsView;

    open spec fn deep_view(&self) -> F1PacketTyreSetsView {
        F1PacketTyreSetsView {
            vehicle_index: self.vehicle_index,
            data: self.data.deep_view(),
            fitted_index: self.fitted_index,
        }
    }
}

impl Decode for F1PacketTyreSets {
    open spec fn decoded(w: Wire, packet_format: u16) -> (Wire, F1PacketTyreSetsView) {
        let start = w.pos;
        let (w, vehicle_index) = w.index();
        let (w, data) = decoded_list::<TyreSetData>(w, NUM_TYRE_SETS as nat, packet_format);
        let (w, fitted_index) = w.index();
        let w = w.in_range(
            fitted_index < NUM_TYRE_SETS,
            FieldName::FittedIndex,
            fitted_index as int,
            start,
        );
        (w, F1PacketTyreSetsView { vehicle_index, data, fitted_index })
    }

    fn decode(cursor: &mut ByteCursor, packet_format: u16) -> (r: Result<
        F1PacketTyreSets,
        DecodeError,
    >) {
        let start: usize = cursor.position();
        let vehicle_index: usize = cursor.read_index()?;
        let data: Vec<TyreSetData> = decode_list(cursor, NUM_TYRE_SETS, packet_format)?;
        let fitted_index: usize = cursor.read_index()?;
        cursor.in_range(
            fitted_index < NUM_TYRE_SETS,
            FieldName::FittedIndex,
            fitted_index as i64,
            start,
        )?;
        Ok(F1PacketTyreSets { vehicle_index, data, fitted_index })
    }
}

impl F1PacketTyreSets {
    /// Number of bytes of this body on the wire.
    pub open spec fn wire_width(packet_format: u16) -> nat {
        let entries = NUM_TYRE_SETS * TyreSetData::wire_width(packet_format);
        let rest = 2nat;
        (entries + rest) as nat
    }

    /// Every successful decode of this body takes `wire_width` bytes.
    pub proof fn lemma_wire_width(packet_format: u16)
        ensures
            has_width::<F1PacketTyreSets>(packet_format, Self::wire_width(packet_format)),
    {
        TyreSetData::lemma_wire_width(packet_format);
        assert forall|w: Wire|
            w.countable() && !w.failed() && !(#[trigger] F1PacketTyreSets::decoded(w, packet_format)).0.failed() implies {
            &&& F1PacketTyreSets::decoded(w, packet_format).0.pos == w.pos + Self::wire_width(packet_format)
            &&& F1PacketTyreSets::decoded(w, packet_format).0.data == w.data
        } by {
            let w_start = w;
            let (w, vehicle_index) = w.index();
            let listed = decoded_list::<TyreSetData>(w, NUM_TYRE_SETS as nat, packet_format).0;
            if listed.failed() {
                assert(F1PacketTyreSets::decoded(w_start, packet_format).0.failed());
            }
            lemma_list_layout::<TyreSetData>(
                w,
                NUM_TYRE_SETS as nat,
                packet_format,
                TyreSetData::wire_width(packet_format),
            );
        }
    }
}

} // verus!
