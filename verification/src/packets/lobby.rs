//! The lobby info packet: the players in a multiplayer lobby.

use vstd::prelude::*;
use crate::constants::MAX_NUM_CARS;
use crate::constants::Nationality;
use crate::constants::Platform;
use crate::constants::ReadyStatus;
use crate::constants::YourTelemetry;
use crate::cursor::ByteCursor;
use crate::decode::Decode;
use crate::decode::decode_list;
use crate::decode::decoded_list;
use crate::decode::has_width;
use crate::error::DecodeError;
use crate::error::FieldName;
use crate::wire::Wire;

verus! {

/// One player in a multiplayer lobby.
#[non_exhaustive]
#[derive(Debug, Clone, PartialEq, Eq, PartialOrd, Ord)]
pub struct LobbyInfoData {
    /// Whether the vehicle is controlled by AI.
    pub ai_controlled: bool,
    /// Team's ID.
    pub team_id: u8,
    /// Driver's nationality.
    pub nationality: Nationality,
    /// Player's platform. Available from the 2023 format onwards.
    pub platform: Option<Platform>,
    /// Driver's name.
    pub name: String,
    /// Player's car number.
    pub car_number: u8,
    /// The player's "Your Telemetry" visibility setting. Available from the
    /// 2024 format onwards.
    pub your_telemetry: Option<YourTelemetry>,
    /// Whether the player has enabled the "Show online names" setting.
    /// Available from the 2024 format onwards.
    pub show_online_names: bool,
    /// F1 World tech level. Available from the 2024 format onwards.
    pub tech_level: u16,
    /// Readiness status.
    pub ready_status: ReadyStatus,
}

/// A [`LobbyInfoData`] as a mathematical value: each list a sequence, each text a
/// sequence of characters.
pub struct LobbyInfoDataView {
    pub ai_controlled: bool,
    pub team_id: u8,
    pub nationality: Nationality,
    pub platform: Option<Platform>,
    pub name: Seq<char>,
    pub car_number: u8,
    pub your_telemetry: Option<YourTelemetry>,
    pub show_online_names: bool,
    pub tech_level: u16,
    pub ready_status: ReadyStatus,
}

impl DeepView for LobbyInfoData {
    type V = LobbyInfoDataView;

    open spec fn deep_view(&self) -> LobbyInfoDataView {
        LobbyInfoDataView {
            ai_controlled: self.ai_controlled,
            team_id: self.team_id,
            nationality: self.nationality,
            platform: self.platform,
            name: self.name@,
            car_number: self.car_number,
            your_telemetry: self.your_telemetry,
            show_online_names: self.show_online_names,
            tech_level: self.tech_level,
            ready_status: self.ready_status,
        }
    }
}

impl Decode for LobbyInfoData {
    open spec fn decoded(w: Wire, packet_format: u16) -> (Wire, LobbyInfoDataView) {
        let (w, ai_controlled) = w.boolean();
        let (w, team_id) = w.u8();
        let (w, nationality) = w.code::<Nationality>();
        let (w, platform) = w.code_if::<Platform>(packet_format >= 2023);
        let (w, name) = w.name();
        let (w, car_number) = w.u8();
        let (w, your_telemetry) = w.code_if::<YourTelemetry>(packet_format >= 2024);
        let (w, show_online_names) = w.boolean_if(packet_format >= 2024);
        let (w, tech_level) = w.u16_if(packet_format >= 2024);
        let (w, ready_status) = w.code::<ReadyStatus>();
        (
            w,
            LobbyInfoDataView {
                ai_controlled,
                team_id,
                nationality,
                platform,
                name,
                car_number,
                your_telemetry,
                show_online_names,
                tech_level,
                ready_status,
            },
        )
    }

    fn decode(cursor: &mut ByteCursor, packet_format: u16) -> (r: Result<
        LobbyInfoData,
        DecodeError,
    >) {
        let ai_controlled: bool = cursor.read_bool()?;
        let team_id: u8 = cursor.read_u8()?;
        let nationality: Nationality = cursor.read_code()?;
        let platform: Option<Platform> = cursor.read_code_if(packet_format >= 2023)?;
        let name: String = cursor.read_name()?;
        let car_number: u8 = cursor.read_u8()?;
        let your_telemetry: Option<YourTelemetry> = cursor.read_code_if(packet_format >= 2024)?;
        let show_online_names: bool = cursor.read_bool_if(packet_format >= 2024)?;
        let tech_level: u16 = cursor.read_u16_if(packet_format >= 2024)?;
        let ready_status: ReadyStatus = cursor.read_code()?;
        Ok(
            LobbyInfoData {
                ai_controlled,
                team_id,
                nationality,
                platform,
                name,
                car_number,
                your_telemetry,
                show_online_names,
                tech_level,
                ready_status,
            },
        )
    }
}

impl LobbyInfoData {
    /// Number of bytes of this record on the wire.
    pub open spec fn wire_width(packet_format: u16) -> nat {
        if packet_format >= 2024 {
            58
        } else if packet_format >= 2023 {
            54
        } else {
            53
        }
    }

    /// Every successful decode of this record takes `wire_width` bytes.
    pub proof fn lemma_wire_width(packet_format: u16)
        ensures
            has_width::<LobbyInfoData>(packet_format, Self::wire_width(packet_format)),
    {
    }
}

/// Packet detailing all the players that are currently in a multiplayer
/// lobby.
#[non_exhaustive]
#[derive(Debug, Clone, PartialEq, Eq)]
pub struct F1PacketLobby {
    /// Number of players in the lobby.
    pub num_players: usize,
    /// Lobby info data for all players. Should have a size equal to
    /// `num_players`.
    pub data: Vec<LobbyInfoData>,
}

/// A [`F1PacketLobby`] as a mathematical value: each list a sequence, each text a
/// sequence of characters.
pub struct F1PacketLobbyView {
    pub num_players: usize,
    pub data: Seq<LobbyInfoDataView>,
}

impl DeepView for F1PacketLobby {
    type V = F1PacketLobbyView;

    open spec fn deep_view(&self) -> F1PacketLobbyView {
        F1PacketLobbyView {
            num_players: self.num_players,
            data: self.data.deep_view(),
        }
    }
}

impl Decode for F1PacketLobby {
    open spec fn decoded(w: Wire, packet_format: u16) -> (Wire, F1PacketLobbyView) {
        let start = w.pos;
        let (w, num_players) = w.index();
        let w = w.fits(FieldName::NumPlayers, num_players, MAX_NUM_CARS, start);
        let (w, data) = decoded_list::<LobbyInfoData>(w, num_players as nat, packet_format);
        (w, F1PacketLobbyView { num_players, data })
    }

    fn decode(cursor: &mut ByteCursor, packet_format: u16) -> (r: Result<
        F1PacketLobby,
        DecodeError,
    >) {
        let start: usize = cursor.position();
        let num_players: usize = cursor.read_index()?;
        cursor.fits(FieldName::NumPlayers, num_players, MAX_NUM_CARS, start)?;
        let data: Vec<LobbyInfoData> = decode_list(cursor, num_players, packet_format)?;
        Ok(F1PacketLobby { num_players, data })
    }
}

} // verus!
