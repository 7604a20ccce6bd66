//! The participants packet: who drives which car.

use vstd::prelude::*;
use crate::constants::MAX_NUM_CARS;
use crate::constants::Nationality;
use crate::constants::Platform;
use crate::constants::YourTelemetry;
use crate::cursor::ByteCursor;
use crate::decode::Decode;
use crate::decode::decode_list;
use crate::decode::decoded_list;
use crate::decode::has_width;
use crate::error::DecodeError;
use crate::error::FieldName;
use crate::wire::Wire;

verus! {

/// Who drives one car.
#[non_exhaustive]
#[derive(Debug, Clone, PartialEq, Eq, PartialOrd, Ord)]
pub struct ParticipantsData {
    /// Whether the vehicle is controlled by AI.
    pub ai_controlled: bool,
    /// Driver's ID.
    pub driver_id: u8,
    /// Unique ID for network players.
    pub network_id: u8,
    /// Team's ID.
    pub team_id: u8,
    /// Whether my team is being used.
    pub my_team: bool,
    /// Race number of the car.
    pub race_number: u8,
    /// Driver's nationality.
    pub nationality: Nationality,
    /// Driver's name.
    pub name: String,
    /// Player's UDP visibility setting.
    pub your_telemetry: Option<YourTelemetry>,
    /// Whether this player's "show online names" setting is on. Available
    /// from the 2023 format onwards.
    pub show_online_names: bool,
    /// F1 World tech level. Available from the 2024 format onwards.
    pub tech_level: u16,
    /// Player's platform. Available from the 2023 format onwards.
    pub platform: Option<Platform>,
}

/// A [`ParticipantsData`] as a mathematical value: each list a sequence, each text a
/// sequence of characters.
pub struct ParticipantsDataView {
    pub ai_controlled: bool,
    pub driver_id: u8,
    pub network_id: u8,
    pub team_id: u8,
    pub my_team: bool,
    pub race_number: u8,
    pub nationality: Nationality,
    pub name: Seq<char>,
    pub your_telemetry: Option<YourTelemetry>,
    pub show_online_names: bool,
    pub tech_level: u16,
    pub platform: Option<Platform>,
}

impl DeepView for ParticipantsData {
    type V = ParticipantsDataView;

    open spec fn deep_view(&self) -> ParticipantsDataView {
        ParticipantsDataView {
            ai_controlled: self.ai_controlled,
            driver_id: self.driver_id,
            network_id: self.network_id,
            team_id: self.team_id,
            my_team: self.my_team,
            race_number: self.race_number,
            nationality: self.nationality,
            name: self.name@,
            your_telemetry: self.your_telemetry,
            show_online_names: self.show_online_names,
            tech_level: self.tech_level,
            platform: self.platform,
        }
    }
}

impl Decode for ParticipantsData {
    open spec fn decoded(w: Wire, packet_format: u16) -> (Wire, ParticipantsDataView) {
        let (w, ai_controlled) = w.boolean();
        let (w, driver_id) = w.u8();
        let (w, network_id) = w.u8();
        let (w, team_id) = w.u8();
        let (w, my_team) = w.boolean();
        let (w, race_number) = w.u8();
        let (w, nationality) = w.code::<Nationality>();
        let (w, name) = w.name();
        let (w, your_telemetry) = w.some_code::<YourTelemetry>();
        let (w, show_online_names) = w.boolean_if(packet_format >= 2023);
        let (w, tech_level) = w.u16_if(packet_format >= 2024);
        let (w, platform) = w.code_if::<Platform>(packet_format >= 2023);
        (
            w,
            ParticipantsDataView {
                ai_controlled,
                driver_id,
                network_id,
                team_id,
                my_team,
                race_number,
                nationality,
                name,
                your_telemetry,
                show_online_names,
                tech_level,
                platform,
            },
        )
    }

    fn decode(cursor: &mut ByteCursor, packet_format: u16) -> (r: Result<
        ParticipantsData,
        DecodeError,
    >) {
        let ai_controlled: bool = cursor.read_bool()?;
        let driver_id: u8 = cursor.read_u8()?;
        let network_id: u8 = cursor.read_u8()?;
        let team_id: u8 = cursor.read_u8()?;
        let my_team: bool = cursor.read_bool()?;
        let race_number: u8 = cursor.read_u8()?;
        let nationality: Nationality = cursor.read_code()?;
        let name: String = cursor.read_name()?;
        let your_telemetry: Option<YourTelemetry> = cursor.read_some_code()?;
        let show_online_names: bool = cursor.read_bool_if(packet_format >= 2023)?;
        let tech_level: u16 = cursor.read_u16_if(packet_format >= 2024)?;
        let platform: Option<Platform> = cursor.read_code_if(packet_format >= 2023)?;
        Ok(
            ParticipantsData {
                ai_controlled,
                driver_id,
                network_id,
                team_id,
                my_team,
                race_number,
                nationality,
                name,
                your_telemetry,
                show_online_names,
                tech_level,
                platform,
            },
        )
    }
}

impl ParticipantsData {
    /// Number of bytes of this record on the wire.
    pub open spec fn wire_width(packet_format: u16) -> nat {
        if packet_format >= 2024 {
            60
        } else if packet_format >= 2023 {
            58
        } else {
            56
        }
    }

    /// Every successful decode of this record takes `wire_width` bytes.
    pub proof fn lemma_wire_width(packet_format: u16)
        ensures
            has_width::<ParticipantsData>(packet_format, Self::wire_width(packet_format)),
    {
    }
}

/// Data of participants in the session, mostly relevant for multiplayer.
#[non_exhaustive]
#[derive(Debug, Clone, PartialEq, Eq)]
pub struct F1PacketParticipants {
    /// Number of active cars in the session.
    pub num_active_cars: usize,
    /// Data for all participants. Should have a size equal to
    /// `num_active_cars`.
    pub data: Vec<ParticipantsData>,
}

/// A [`F1PacketParticipants`] as a mathematical value: each list a sequence, each text a
/// sequence of characters.
pub struct F1PacketParticipantsView {
    pub num_active_cars: usize,
    pub data: Seq<ParticipantsDataView>,
}

impl DeepView for F1PacketParticipants {
    type V = F1PacketParticipantsView;

    open spec fn deep_view(&self) -> F1PacketParticipantsView {
        F1PacketParticipantsView {
            num_active_cars: self.num_active_cars,
            data: self.data.deep_view(),
        }
    }
}

impl Decode for F1PacketParticipants {
    open spec fn decoded(w: Wire, packet_format: u16) -> (Wire, F1PacketParticipantsView) {
        let start = w.pos;
        let (w, num_active_cars) = w.index();
        let (w, data) = decoded_list::<ParticipantsData>(w, num_active_cars as nat, packet_format);
        let w = w.fits(FieldName::NumActiveCars, num_active_cars, MAX_NUM_CARS, start);
        (w, F1PacketParticipantsView { num_active_cars, data })
    }

    fn decode(cursor: &mut ByteCursor, packet_format: u16) -> (r: Result<
        F1PacketParticipants,
        DecodeError,
    >) {
        let start: usize = cursor.position();
        let num_active_cars: usize = cursor.read_index()?;
        let data: Vec<ParticipantsData> = decode_list(cursor, num_active_cars, packet_format)?;
        cursor.fits(FieldName::NumActiveCars, num_active_cars, MAX_NUM_CARS, start)?;
        Ok(F1PacketParticipants { num_active_cars, data })
    }
}

} // verus!
