//! The enumerated values that the packets carry, and the number of cars.
//!
//! Each enumeration travels as one byte. Its `code` is the table from variant
//! to byte; reading a byte that the table does not hold is a failure.

pub mod flags;

use vstd::prelude::*;
use crate::decode::WireCode;
use crate::error::FieldName;

verus! {

/// Number of cars a session can hold: the length of every per-car list, and
/// the bound of every index of a car.
pub const MAX_NUM_CARS: usize = 22;

/// Unique identifier of the type of this packet.
#[non_exhaustive]
#[derive(Debug, Clone, Copy, PartialEq, Eq, PartialOrd, Ord, Hash, Structural)]
pub enum PacketId {
    Motion,
    Session,
    Laps,
    Event,
    Participants,
    CarSetups,
    CarTelemetry,
    CarStatus,
    FinalClassification,
    LobbyInfo,
    CarDamage,
    SessionHistory,
    TyreSets,
    MotionEx,
    TimeTrial,
}

impl WireCode for PacketId {
    open spec fn code(self) -> u8 {
        match self {
            PacketId::Motion => 0,
            PacketId::Session => 1,
            PacketId::Laps => 2,
            PacketId::Event => 3,
            PacketId::Participants => 4,
            PacketId::CarSetups => 5,
            PacketId::CarTelemetry => 6,
            PacketId::CarStatus => 7,
            PacketId::FinalClassification => 8,
            PacketId::LobbyInfo => 9,
            PacketId::CarDamage => 10,
            PacketId::SessionHistory => 11,
            PacketId::TyreSets => 12,
            PacketId::MotionEx => 13,
            PacketId::TimeTrial => 14,
        }
    }

    open spec fn field() -> FieldName {
        FieldName::PacketId
    }

    fn field_name() -> FieldName {
        FieldName::PacketId
    }

    fn from_code(raw: u8) -> Option<Self> {
        match raw {
            0 => Some(PacketId::Motion),
            1 => Some(PacketId::Session),
            2 => Some(PacketId::Laps),
            3 => Some(PacketId::Event),
            4 => Some(PacketId::Participants),
            5 => Some(PacketId::CarSetups),
            6 => Some(PacketId::CarTelemetry),
            7 => Some(PacketId::CarStatus),
            8 => Some(PacketId::FinalClassification),
            9 => Some(PacketId::LobbyInfo),
            10 => Some(PacketId::CarDamage),
            11 => Some(PacketId::SessionHistory),
            12 => Some(PacketId::TyreSets),
            13 => Some(PacketId::MotionEx),
            14 => Some(PacketId::TimeTrial),
            _ => None,
        }
    }

    fn to_code(self) -> u8 {
        match self {
            PacketId::Motion => 0,
            PacketId::Session => 1,
            PacketId::Laps => 2,
            PacketId::Event => 3,
            PacketId::Participants => 4,
            PacketId::CarSetups => 5,
            PacketId::CarTelemetry => 6,
            PacketId::CarStatus => 7,
            PacketId::FinalClassification => 8,
            PacketId::LobbyInfo => 9,
            PacketId::CarDamage => 10,
            PacketId::SessionHistory => 11,
            PacketId::TyreSets => 12,
            PacketId::MotionEx => 13,
            PacketId::TimeTrial => 14,
        }
    }

    proof fn lemma_codes_differ(a: Self, b: Self) {
    }
}

/// Flag that's currently being waved in a `MarshalZone`. A negative code
/// travels as the byte that spells it in two's complement.
#[non_exhaustive]
#[derive(Debug, Clone, Copy, PartialEq, Eq, PartialOrd, Ord, Hash, Structural)]
pub enum MarshalZoneFlag {
    Unknown,
    NoFlag,
    Green,
    Blue,
    Yellow,
    Red,
}

impl WireCode for MarshalZoneFlag {
    open spec fn code(self) -> u8 {
        match self {
            MarshalZoneFlag::Unknown => 255,
            MarshalZoneFlag::NoFlag => 0,
            MarshalZoneFlag::Green => 1,
            MarshalZoneFlag::Blue => 2,
            MarshalZoneFlag::Yellow => 3,
            MarshalZoneFlag::Red => 4,
        }
    }

    open spec fn field() -> FieldName {
        FieldName::MarshalZoneFlag
    }

    fn field_name() -> FieldName {
        FieldName::MarshalZoneFlag
    }

    fn from_code(raw: u8) -> Option<Self> {
        match raw {
            0 => Some(MarshalZoneFlag::NoFlag),
            1 => Some(MarshalZoneFlag::Green),
            2 => Some(MarshalZoneFlag::Blue),
            3 => Some(MarshalZoneFlag::Yellow),
            4 => Some(MarshalZoneFlag::Red),
            255 => Some(MarshalZoneFlag::Unknown),
            _ => None,
        }
    }

    fn to_code(self) -> u8 {
        match self {
            MarshalZoneFlag::Unknown => 255,
            MarshalZoneFlag::NoFlag => 0,
            MarshalZoneFlag::Green => 1,
            MarshalZoneFlag::Blue => 2,
            MarshalZoneFlag::Yellow => 3,
            MarshalZoneFlag::Red => 4,
        }
    }

    proof fn lemma_codes_differ(a: Self, b: Self) {
    }
}

/// Session/forecast weather type.
#[non_exhaustive]
#[derive(Debug, Clone, Copy, PartialEq, Eq, PartialOrd, Ord, Hash, Structural)]
pub enum Weather {
    Clear,
    LightCloud,
    Overcast,
    LightRain,
    HeavyRain,
    Storm,
}

impl WireCode for Weather {
    open spec fn code(self) -> u8 {
        match self {
            Weather::Clear => 0,
            Weather::LightCloud => 1,
            Weather::Overcast => 2,
            Weather::LightRain => 3,
            Weather::HeavyRain => 4,
            Weather::Storm => 5,
        }
    }

    open spec fn field() -> FieldName {
        FieldName::Weather
    }

    fn field_name() -> FieldName {
        FieldName::Weather
    }

    fn from_code(raw: u8) -> Option<Self> {
        match raw {
            0 => Some(Weather::Clear),
            1 => Some(Weather::LightCloud),
            2 => Some(Weather::Overcast),
            3 => Some(Weather::LightRain),
            4 => Some(Weather::HeavyRain),
            5 => Some(Weather::Storm),
            _ => None,
        }
    }

    fn to_code(self) -> u8 {
        match self {
            Weather::Clear => 0,
            Weather::LightCloud => 1,
            Weather::Overcast => 2,
            Weather::LightRain => 3,
            Weather::HeavyRain => 4,
            Weather::Storm => 5,
        }
    }

    proof fn lemma_codes_differ(a: Self, b: Self) {
    }
}

/// Temperature change direction. A negative code travels as the byte that
/// spells it in two's complement.
#[non_exhaustive]
#[derive(Debug, Clone, Copy, PartialEq, Eq, PartialOrd, Ord, Hash, Structural)]
pub enum TemperatureChange {
    Up,
    Down,
    NoChange,
}

impl WireCode for TemperatureChange {
    open spec fn code(self) -> u8 {
        match self {
            TemperatureChange::Up => 0,
            TemperatureChange::Down => 1,
            TemperatureChange::NoChange => 2,
        }
    }

    open spec fn field() -> FieldName {
        FieldName::TemperatureChange
    }

    fn field_name() -> FieldName {
        FieldName::TemperatureChange
    }

    fn from_code(raw: u8) -> Option<Self> {
        match raw {
            0 => Some(TemperatureChange::Up),
            1 => Some(TemperatureChange::Down),
            2 => Some(TemperatureChange::NoChange),
            _ => None,
        }
    }

    fn to_code(self) -> u8 {
        match self {
            TemperatureChange::Up => 0,
            TemperatureChange::Down => 1,
            TemperatureChange::NoChange => 2,
        }
    }

    proof fn lemma_codes_differ(a: Self, b: Self) {
    }
}

/// Unique circuit ID. A negative code travels as the byte that spells it in
/// two's complement.
#[non_exhaustive]
#[derive(Debug, Clone, Copy, PartialEq, Eq, PartialOrd, Ord, Hash, Structural)]
pub enum TrackId {
    /// Unknown circuit.
    Unknown,
    /// Australian Grand Prix.
    AlbertPark,
    /// French Grand Prix.
    PaulRicard,
    /// Chinese Grand Prix.
    Shanghai,
    /// Bahrain Grand Prix.
    Sakhir,
    /// Spanish Grand Prix.
    Catalunya,
    /// Monaco Grand Prix.
    MonteCarlo,
    /// Canadian Grand Prix.
    Montreal,
    /// British Grand Prix.
    Silverstone,
    /// German Grand Prix.
    Hockenheim,
    /// Hungarian Grand Prix.
    Hungaroring,
    /// Belgian Grand Prix.
    Spa,
    /// Italian Grand Prix.
    Monza,
    /// Singapore Grand Prix.
    MarinaBay,
    /// Japanese Grand Prix.
    Suzuka,
    /// Abu Dhabi Grand Prix.
    YasMarina,
    /// Circuit of the Americas. United States (Texas) Grand Prix.
    Cota,
    /// Brazilian (Sao Paulo) Grand Prix.
    Interlagos,
    /// Austrian Grand Prix.
    RedBullRing,
    /// Russian Grand Prix.
    Sochi,
    /// Mexican Grand Prix.
    MexicoCity,
    /// Azerbaijan Grand Prix.
    Baku,
    /// Short variant of the `Sakhir` circuit.
    SakhirShort,
    /// Short variant of the `Silverstone` circuit.
    SilverstoneShort,
    /// Short variant of the `Cota` circuit.
    CotaShort,
    /// Short variant of the `Suzuka` circuit.
    SuzukaShort,
    /// Vietnamese Grand Prix.
    Hanoi,
    /// Dutch Grand Prix.
    Zandvoort,
    /// ~~San Marino~~ Emilia-Romagna Grand Prix.
    Imola,
    /// Portuguese Grand Prix.
    Portimao,
    /// Saudi Arabian Grand Prix.
    Jeddah,
    /// Miami Grand Prix.
    Miami,
    /// Las Vegas Grand Prix.
    LasVegas,
    /// Qatar Grand Prix.
    Losail,
}

impl WireCode for TrackId {
    open spec fn code(self) -> u8 {
        match self {
            TrackId::Unknown => 255,
            TrackId::AlbertPark => 0,
            TrackId::PaulRicard => 1,
            TrackId::Shanghai => 2,
            TrackId::Sakhir => 3,
            TrackId::Catalunya => 4,
            TrackId::MonteCarlo => 5,
            TrackId::Montreal => 6,
            TrackId::Silverstone => 7,
            TrackId::Hockenheim => 8,
            TrackId::Hungaroring => 9,
            TrackId::Spa => 10,
            TrackId::Monza => 11,
            TrackId::MarinaBay => 12,
            TrackId::Suzuka => 13,
            TrackId::YasMarina => 14,
            TrackId::Cota => 15,
            TrackId::Interlagos => 16,
            TrackId::RedBullRing => 17,
            TrackId::Sochi => 18,
            TrackId::MexicoCity => 19,
            TrackId::Baku => 20,
            TrackId::SakhirShort => 21,
            TrackId::SilverstoneShort => 22,
            TrackId::CotaShort => 23,
            TrackId::SuzukaShort => 24,
            TrackId::Hanoi => 25,
            TrackId::Zandvoort => 26,
            TrackId::Imola => 27,
            TrackId::Portimao => 28,
            TrackId::Jeddah => 29,
            TrackId::Miami => 30,
            TrackId::LasVegas => 31,
            TrackId::Losail => 32,
        }
    }

    open spec fn field() -> FieldName {
        FieldName::TrackId
    }

    fn field_name() -> FieldName {
        FieldName::TrackId
    }

    fn from_code(raw: u8) -> Option<Self> {
        match raw {
            0 => Some(TrackId::AlbertPark),
            1 => Some(TrackId::PaulRicard),
            2 => Some(TrackId::Shanghai),
            3 => Some(TrackId::Sakhir),
            4 => Some(TrackId::Catalunya),
            5 => Some(TrackId::MonteCarlo),
            6 => Some(TrackId::Montreal),
            7 => Some(TrackId::Silverstone),
            8 => Some(TrackId::Hockenheim),
            9 => Some(TrackId::Hungaroring),
            10 => Some(TrackId::Spa),
            11 => Some(TrackId::Monza),
            12 => Some(TrackId::MarinaBay),
            13 => Some(TrackId::Suzuka),
            14 => Some(TrackId::YasMarina),
            15 => Some(TrackId::Cota),
            16 => Some(TrackId::Interlagos),
            17 => Some(TrackId::RedBullRing),
            18 => Some(TrackId::Sochi),
            19 => Some(TrackId::MexicoCity),
            20 => Some(TrackId::Baku),
            21 => Some(TrackId::SakhirShort),
            22 => Some(TrackId::SilverstoneShort),
            23 => Some(TrackId::CotaShort),
            24 => Some(TrackId::SuzukaShort),
            25 => Some(TrackId::Hanoi),
            26 => Some(TrackId::Zandvoort),
            27 => Some(TrackId::Imola),
            28 => Some(TrackId::Portimao),
            29 => Some(TrackId::Jeddah),
            30 => Some(TrackId::Miami),
            31 => Some(TrackId::LasVegas),
            32 => Some(TrackId::Losail),
            255 => Some(TrackId::Unknown),
            _ => None,
        }
    }

    fn to_code(self) -> u8 {
        match self {
            TrackId::Unknown => 255,
            TrackId::AlbertPark => 0,
            TrackId::PaulRicard => 1,
            TrackId::Shanghai => 2,
            TrackId::Sakhir => 3,
            TrackId::Catalunya => 4,
            TrackId::MonteCarlo => 5,
            TrackId::Montreal => 6,
            TrackId::Silverstone => 7,
            TrackId::Hockenheim => 8,
            TrackId::Hungaroring => 9,
            TrackId::Spa => 10,
            TrackId::Monza => 11,
            TrackId::MarinaBay => 12,
            TrackId::Suzuka => 13,
            TrackId::YasMarina => 14,
            TrackId::Cota => 15,
            TrackId::Interlagos => 16,
            TrackId::RedBullRing => 17,
            TrackId::Sochi => 18,
            TrackId::MexicoCity => 19,
            TrackId::Baku => 20,
            TrackId::SakhirShort => 21,
            TrackId::SilverstoneShort => 22,
            TrackId::CotaShort => 23,
            TrackId::SuzukaShort => 24,
            TrackId::Hanoi => 25,
            TrackId::Zandvoort => 26,
            TrackId::Imola => 27,
            TrackId::Portimao => 28,
            TrackId::Jeddah => 29,
            TrackId::Miami => 30,
            TrackId::LasVegas => 31,
            TrackId::Losail => 32,
        }
    }

    proof fn lemma_codes_differ(a: Self, b: Self) {
    }
}

/// Type of cars being raced in `F1PacketSession`.
#[non_exhaustive]
#[derive(Debug, Clone, Copy, PartialEq, Eq, PartialOrd, Ord, Hash, Structural)]
pub enum Formula {
    F1Modern,
    F1Classic,
    F2,
    F1Generic,
    Beta,
    Supercars,
    Esports,
    F22021,
    F1World,
    F1Elimination,
}

impl WireCode for Formula {
    open spec fn code(self) -> u8 {
        match self {
            Formula::F1Modern => 0,
            Formula::F1Classic => 1,
            Formula::F2 => 2,
            Formula::F1Generic => 3,
            Formula::Beta => 4,
            Formula::Supercars => 5,
            Formula::Esports => 6,
            Formula::F22021 => 7,
            Formula::F1World => 8,
            Formula::F1Elimination => 9,
        }
    }

    open spec fn field() -> FieldName {
        FieldName::Formula
    }

    fn field_name() -> FieldName {
        FieldName::Formula
    }

    fn from_code(raw: u8) -> Option<Self> {
        match raw {
            0 => Some(Formula::F1Modern),
            1 => Some(Formula::F1Classic),
            2 => Some(Formula::F2),
            3 => Some(Formula::F1Generic),
            4 => Some(Formula::Beta),
            5 => Some(Formula::Supercars),
            6 => Some(Formula::Esports),
            7 => Some(Formula::F22021),
            8 => Some(Formula::F1World),
            9 => Some(Formula::F1Elimination),
            _ => None,
        }
    }

    fn to_code(self) -> u8 {
        match self {
            Formula::F1Modern => 0,
            Formula::F1Classic => 1,
            Formula::F2 => 2,
            Formula::F1Generic => 3,
            Formula::Beta => 4,
            Formula::Supercars => 5,
            Formula::Esports => 6,
            Formula::F22021 => 7,
            Formula::F1World => 8,
            Formula::F1Elimination => 9,
        }
    }

    proof fn lemma_codes_differ(a: Self, b: Self) {
    }
}

/// Safety car deployment status in `F1PacketSession`.
#[non_exhaustive]
#[derive(Debug, Clone, Copy, PartialEq, Eq, PartialOrd, Ord, Hash, Structural)]
pub enum SafetyCarStatus {
    NoSafetyCar,
    Virtual,
    Full,
    FormationLap,
}

impl WireCode for SafetyCarStatus {
    open spec fn code(self) -> u8 {
        match self {
            SafetyCarStatus::NoSafetyCar => 0,
            SafetyCarStatus::Virtual => 1,
            SafetyCarStatus::Full => 2,
            SafetyCarStatus::FormationLap => 3,
        }
    }

    open spec fn field() -> FieldName {
        FieldName::SafetyCarStatus
    }

    fn field_name() -> FieldName {
        FieldName::SafetyCarStatus
    }

    fn from_code(raw: u8) -> Option<Self> {
        match raw {
            0 => Some(SafetyCarStatus::NoSafetyCar),
            1 => Some(SafetyCarStatus::Virtual),
            2 => Some(SafetyCarStatus::Full),
            3 => Some(SafetyCarStatus::FormationLap),
            _ => None,
        }
    }

    fn to_code(self) -> u8 {
        match self {
            SafetyCarStatus::NoSafetyCar => 0,
            SafetyCarStatus::Virtual => 1,
            SafetyCarStatus::Full => 2,
            SafetyCarStatus::FormationLap => 3,
        }
    }

    proof fn lemma_codes_differ(a: Self, b: Self) {
    }
}

/// Accuracy of a `WeatherForecastSample`.
#[non_exhaustive]
#[derive(Debug, Clone, Copy, PartialEq, Eq, PartialOrd, Ord, Hash, Structural)]
pub enum ForecastAccuracy {
    Perfect,
    Approximate,
}

impl WireCode for ForecastAccuracy {
    open spec fn code(self) -> u8 {
        match self {
            ForecastAccuracy::Perfect => 0,
            ForecastAccuracy::Approximate => 1,
        }
    }

    open spec fn field() -> FieldName {
        FieldName::ForecastAccuracy
    }

    fn field_name() -> FieldName {
        FieldName::ForecastAccuracy
    }

    fn from_code(raw: u8) -> Option<Self> {
        match raw {
            0 => Some(ForecastAccuracy::Perfect),
            1 => Some(ForecastAccuracy::Approximate),
            _ => None,
        }
    }

    fn to_code(self) -> u8 {
        match self {
            ForecastAccuracy::Perfect => 0,
            ForecastAccuracy::Approximate => 1,
        }
    }

    proof fn lemma_codes_differ(a: Self, b: Self) {
    }
}

/// Type of enabled braking assist.
#[non_exhaustive]
#[derive(Debug, Clone, Copy, PartialEq, Eq, PartialOrd, Ord, Hash, Structural)]
pub enum BrakingAssist {
    Off,
    Low,
    Medium,
    High,
}

impl WireCode for BrakingAssist {
    open spec fn code(self) -> u8 {
        match self {
            BrakingAssist::Off => 0,
            BrakingAssist::Low => 1,
            BrakingAssist::Medium => 2,
            BrakingAssist::High => 3,
        }
    }

    open spec fn field() -> FieldName {
        FieldName::BrakingAssist
    }

    fn field_name() -> FieldName {
        FieldName::BrakingAssist
    }

    fn from_code(raw: u8) -> Option<Self> {
        match raw {
            0 => Some(BrakingAssist::Off),
            1 => Some(BrakingAssist::Low),
            2 => Some(BrakingAssist::Medium),
            3 => Some(BrakingAssist::High),
            _ => None,
        }
    }

    fn to_code(self) -> u8 {
        match self {
            BrakingAssist::Off => 0,
            BrakingAssist::Low => 1,
            BrakingAssist::Medium => 2,
            BrakingAssist::High => 3,
        }
    }

    proof fn lemma_codes_differ(a: Self, b: Self) {
    }
}

/// Type of enabled gearbox assist.
#[non_exhaustive]
#[derive(Debug, Clone, Copy, PartialEq, Eq, PartialOrd, Ord, Hash, Structural)]
pub enum GearboxAssist {
    Unknown,
    Manual,
    ManualWithSuggestedGear,
    Automatic,
}

impl WireCode for GearboxAssist {
    open spec fn code(self) -> u8 {
        match self {
            GearboxAssist::Unknown => 0,
            GearboxAssist::Manual => 1,
            GearboxAssist::ManualWithSuggestedGear => 2,
            GearboxAssist::Automatic => 3,
        }
    }

    open spec fn field() -> FieldName {
        FieldName::GearboxAssist
    }

    fn field_name() -> FieldName {
        FieldName::GearboxAssist
    }

    fn from_code(raw: u8) -> Option<Self> {
        match raw {
            0 => Some(GearboxAssist::Unknown),
            1 => Some(GearboxAssist::Manual),
            2 => Some(GearboxAssist::ManualWithSuggestedGear),
            3 => Some(GearboxAssist::Automatic),
            _ => None,
        }
    }

    fn to_code(self) -> u8 {
        match self {
            GearboxAssist::Unknown => 0,
            GearboxAssist::Manual => 1,
            GearboxAssist::ManualWithSuggestedGear => 2,
            GearboxAssist::Automatic => 3,
        }
    }

    proof fn lemma_codes_differ(a: Self, b: Self) {
    }
}

/// Type of enabled racing line assist.
#[non_exhaustive]
#[derive(Debug, Clone, Copy, PartialEq, Eq, PartialOrd, Ord, Hash, Structural)]
pub enum DynamicRacingLine {
    Off,
    CornersOnly,
    Full,
}

impl WireCode for DynamicRacingLine {
    open spec fn code(self) -> u8 {
        match self {
            DynamicRacingLine::Off => 0,
            DynamicRacingLine::CornersOnly => 1,
            DynamicRacingLine::Full => 2,
        }
    }

    open spec fn field() -> FieldName {
        FieldName::DynamicRacingLine
    }

    fn field_name() -> FieldName {
        FieldName::DynamicRacingLine
    }

    fn from_code(raw: u8) -> Option<Self> {
        match raw {
            0 => Some(DynamicRacingLine::Off),
            1 => Some(DynamicRacingLine::CornersOnly),
            2 => Some(DynamicRacingLine::Full),
            _ => None,
        }
    }

    fn to_code(self) -> u8 {
        match self {
            DynamicRacingLine::Off => 0,
            DynamicRacingLine::CornersOnly => 1,
            DynamicRacingLine::Full => 2,
        }
    }

    proof fn lemma_codes_differ(a: Self, b: Self) {
    }
}

/// Shape of the racing line.
#[non_exhaustive]
#[derive(Debug, Clone, Copy, PartialEq, Eq, PartialOrd, Ord, Hash, Structural)]
pub enum DynamicRacingLineType {
    TwoDimensional,
    ThreeDimensional,
}

impl WireCode for DynamicRacingLineType {
    open spec fn code(self) -> u8 {
        match self {
            DynamicRacingLineType::TwoDimensional => 0,
            DynamicRacingLineType::ThreeDimensional => 1,
        }
    }

    open spec fn field() -> FieldName {
        FieldName::DynamicRacingLineType
    }

    fn field_name() -> FieldName {
        FieldName::DynamicRacingLineType
    }

    fn from_code(raw: u8) -> Option<Self> {
        match raw {
            0 => Some(DynamicRacingLineType::TwoDimensional),
            1 => Some(DynamicRacingLineType::ThreeDimensional),
            _ => None,
        }
    }

    fn to_code(self) -> u8 {
        match self {
            DynamicRacingLineType::TwoDimensional => 0,
            DynamicRacingLineType::ThreeDimensional => 1,
        }
    }

    proof fn lemma_codes_differ(a: Self, b: Self) {
    }
}

/// Game mode that's currently in use.
#[non_exhaustive]
#[derive(Debug, Clone, Copy, PartialEq, Eq, PartialOrd, Ord, Hash, Structural)]
pub enum GameMode {
    EventMode,
    GrandPrix,
    GrandPrix2023,
    TimeTrial,
    Splitscreen,
    OnlineCustom,
    OnlineLeague,
    CareerInvitational,
    ChampionshipInvitational,
    Championship,
    OnlineChampionship,
    OnlineWeeklyEvent,
    BrakingPoint2023,
    Career2022,
    OnlineCareer2022,
    Career2023,
    OnlineCareer2023,
    DriverCareer2024,
    OnlineCareer2024,
    MyTeamCareer2024,
    CuratedCareer2024,
    Benchmark,
}

impl WireCode for GameMode {
    open spec fn code(self) -> u8 {
        match self {
            GameMode::EventMode => 0,
            GameMode::GrandPrix => 3,
            GameMode::GrandPrix2023 => 4,
            GameMode::TimeTrial => 5,
            GameMode::Splitscreen => 6,
            GameMode::OnlineCustom => 7,
            GameMode::OnlineLeague => 8,
            GameMode::CareerInvitational => 11,
            GameMode::ChampionshipInvitational => 12,
            GameMode::Championship => 13,
            GameMode::OnlineChampionship => 14,
            GameMode::OnlineWeeklyEvent => 15,
            GameMode::BrakingPoint2023 => 17,
            GameMode::Career2022 => 19,
            GameMode::OnlineCareer2022 => 20,
            GameMode::Career2023 => 21,
            GameMode::OnlineCareer2023 => 22,
            GameMode::DriverCareer2024 => 23,
            GameMode::OnlineCareer2024 => 24,
            GameMode::MyTeamCareer2024 => 25,
            GameMode::CuratedCareer2024 => 26,
            GameMode::Benchmark => 127,
        }
    }

    open spec fn field() -> FieldName {
        FieldName::GameMode
    }

    fn field_name() -> FieldName {
        FieldName::GameMode
    }

    fn from_code(raw: u8) -> Option<Self> {
        match raw {
            0 => Some(GameMode::EventMode),
            3 => Some(GameMode::GrandPrix),
            4 => Some(GameMode::GrandPrix2023),
            5 => Some(GameMode::TimeTrial),
            6 => Some(GameMode::Splitscreen),
            7 => Some(GameMode::OnlineCustom),
            8 => Some(GameMode::OnlineLeague),
            11 => Some(GameMode::CareerInvitational),
            12 => Some(GameMode::ChampionshipInvitational),
            13 => Some(GameMode::Championship),
            14 => Some(GameMode::OnlineChampionship),
            15 => Some(GameMode::OnlineWeeklyEvent),
            17 => Some(GameMode::BrakingPoint2023),
            19 => Some(GameMode::Career2022),
            20 => Some(GameMode::OnlineCareer2022),
            21 => Some(GameMode::Career2023),
            22 => Some(GameMode::OnlineCareer2023),
            23 => Some(GameMode::DriverCareer2024),
            24 => Some(GameMode::OnlineCareer2024),
            25 => Some(GameMode::MyTeamCareer2024),
            26 => Some(GameMode::CuratedCareer2024),
            127 => Some(GameMode::Benchmark),
            _ => None,
        }
    }

    fn to_code(self) -> u8 {
        match self {
            GameMode::EventMode => 0,
            GameMode::GrandPrix => 3,
            GameMode::GrandPrix2023 => 4,
            GameMode::TimeTrial => 5,
            GameMode::Splitscreen => 6,
            GameMode::OnlineCustom => 7,
            GameMode::OnlineLeague => 8,
            GameMode::CareerInvitational => 11,
            GameMode::ChampionshipInvitational => 12,
            GameMode::Championship => 13,
            GameMode::OnlineChampionship => 14,
            GameMode::OnlineWeeklyEvent => 15,
            GameMode::BrakingPoint2023 => 17,
            GameMode::Career2022 => 19,
            GameMode::OnlineCareer2022 => 20,
            GameMode::Career2023 => 21,
            GameMode::OnlineCareer2023 => 22,
            GameMode::DriverCareer2024 => 23,
            GameMode::OnlineCareer2024 => 24,
            GameMode::MyTeamCareer2024 => 25,
            GameMode::CuratedCareer2024 => 26,
            GameMode::Benchmark => 127,
        }
    }

    proof fn lemma_codes_differ(a: Self, b: Self) {
    }
}

/// Set of rules that's in use for this session.
#[non_exhaustive]
#[derive(Debug, Clone, Copy, PartialEq, Eq, PartialOrd, Ord, Hash, Structural)]
pub enum RuleSet {
    PracticeAndQualifying,
    Race,
    TimeTrial,
    TimeAttack,
    CheckpointChallenge,
    Autocross,
    Drift,
    AverageSpeedZone,
    RivalDuel,
}

impl WireCode for RuleSet {
    open spec fn code(self) -> u8 {
        match self {
            RuleSet::PracticeAndQualifying => 0,
            RuleSet::Race => 1,
            RuleSet::TimeTrial => 2,
            RuleSet::TimeAttack => 4,
            RuleSet::CheckpointChallenge => 6,
            RuleSet::Autocross => 8,
            RuleSet::Drift => 9,
            RuleSet::AverageSpeedZone => 10,
            RuleSet::RivalDuel => 11,
        }
    }

    open spec fn field() -> FieldName {
        FieldName::RuleSet
    }

    fn field_name() -> FieldName {
        FieldName::RuleSet
    }

    fn from_code(raw: u8) -> Option<Self> {
        match raw {
            0 => Some(RuleSet::PracticeAndQualifying),
            1 => Some(RuleSet::Race),
            2 => Some(RuleSet::TimeTrial),
            4 => Some(RuleSet::TimeAttack),
            6 => Some(RuleSet::CheckpointChallenge),
            8 => Some(RuleSet::Autocross),
            9 => Some(RuleSet::Drift),
            10 => Some(RuleSet::AverageSpeedZone),
            11 => Some(RuleSet::RivalDuel),
            _ => None,
        }
    }

    fn to_code(self) -> u8 {
        match self {
            RuleSet::PracticeAndQualifying => 0,
            RuleSet::Race => 1,
            RuleSet::TimeTrial => 2,
            RuleSet::TimeAttack => 4,
            RuleSet::CheckpointChallenge => 6,
            RuleSet::Autocross => 8,
            RuleSet::Drift => 9,
            RuleSet::AverageSpeedZone => 10,
            RuleSet::RivalDuel => 11,
        }
    }

    proof fn lemma_codes_differ(a: Self, b: Self) {
    }
}

/// Length of the ongoing session.
#[non_exhaustive]
#[derive(Debug, Clone, Copy, PartialEq, Eq, PartialOrd, Ord, Hash, Structural)]
pub enum SessionLength {
    Unset,
    VeryShort,
    Short,
    Medium,
    MediumLong,
    Long,
    Full,
}

impl WireCode for SessionLength {
    open spec fn code(self) -> u8 {
        match self {
            SessionLength::Unset => 0,
            SessionLength::VeryShort => 2,
            SessionLength::Short => 3,
            SessionLength::Medium => 4,
            SessionLength::MediumLong => 5,
            SessionLength::Long => 6,
            SessionLength::Full => 7,
        }
    }

    open spec fn field() -> FieldName {
        FieldName::SessionLength
    }

    fn field_name() -> FieldName {
        FieldName::SessionLength
    }

    fn from_code(raw: u8) -> Option<Self> {
        match raw {
            0 => Some(SessionLength::Unset),
            2 => Some(SessionLength::VeryShort),
            3 => Some(SessionLength::Short),
            4 => Some(SessionLength::Medium),
            5 => Some(SessionLength::MediumLong),
            6 => Some(SessionLength::Long),
            7 => Some(SessionLength::Full),
            _ => None,
        }
    }

    fn to_code(self) -> u8 {
        match self {
            SessionLength::Unset => 0,
            SessionLength::VeryShort => 2,
            SessionLength::Short => 3,
            SessionLength::Medium => 4,
            SessionLength::MediumLong => 5,
            SessionLength::Long => 6,
            SessionLength::Full => 7,
        }
    }

    proof fn lemma_codes_differ(a: Self, b: Self) {
    }
}

/// Whether the car is outside/entering/in the pit lane.
#[non_exhaustive]
#[derive(Debug, Clone, Copy, PartialEq, Eq, PartialOrd, Ord, Hash, Structural)]
pub enum PitStatus {
    NotInPits,
    Pitting,
    InPitArea,
}

impl WireCode for PitStatus {
    open spec fn code(self) -> u8 {
        match self {
            PitStatus::NotInPits => 0,
            PitStatus::Pitting => 1,
            PitStatus::InPitArea => 2,
        }
    }

    open spec fn field() -> FieldName {
        FieldName::PitStatus
    }

    fn field_name() -> FieldName {
        FieldName::PitStatus
    }

    fn from_code(raw: u8) -> Option<Self> {
        match raw {
            0 => Some(PitStatus::NotInPits),
            1 => Some(PitStatus::Pitting),
            2 => Some(PitStatus::InPitArea),
            _ => None,
        }
    }

    fn to_code(self) -> u8 {
        match self {
            PitStatus::NotInPits => 0,
            PitStatus::Pitting => 1,
            PitStatus::InPitArea => 2,
        }
    }

    proof fn lemma_codes_differ(a: Self, b: Self) {
    }
}

/// Zero-based sector number.
#[non_exhaustive]
#[derive(Debug, Clone, Copy, PartialEq, Eq, PartialOrd, Ord, Hash, Structural)]
pub enum Sector {
    First,
    Second,
    Third,
}

impl WireCode for Sector {
    open spec fn code(self) -> u8 {
        match self {
            Sector::First => 0,
            Sector::Second => 1,
            Sector::Third => 2,
        }
    }

    open spec fn field() -> FieldName {
        FieldName::Sector
    }

    fn field_name() -> FieldName {
        FieldName::Sector
    }

    fn from_code(raw: u8) -> Option<Self> {
        match raw {
            0 => Some(Sector::First),
            1 => Some(Sector::Second),
            2 => Some(Sector::Third),
            _ => None,
        }
    }

    fn to_code(self) -> u8 {
        match self {
            Sector::First => 0,
            Sector::Second => 1,
            Sector::Third => 2,
        }
    }

    proof fn lemma_codes_differ(a: Self, b: Self) {
    }
}

/// Status of a driver in the current session.
#[non_exhaustive]
#[derive(Debug, Clone, Copy, PartialEq, Eq, PartialOrd, Ord, Hash, Structural)]
pub enum DriverStatus {
    InGarage,
    FlyingLap,
    InLap,
    OutLap,
    OnTrack,
}

impl WireCode for DriverStatus {
    open spec fn code(self) -> u8 {
        match self {
            DriverStatus::InGarage => 0,
            DriverStatus::FlyingLap => 1,
            DriverStatus::InLap => 2,
            DriverStatus::OutLap => 3,
            DriverStatus::OnTrack => 4,
        }
    }

    open spec fn field() -> FieldName {
        FieldName::DriverStatus
    }

    fn field_name() -> FieldName {
        FieldName::DriverStatus
    }

    fn from_code(raw: u8) -> Option<Self> {
        match raw {
            0 => Some(DriverStatus::InGarage),
            1 => Some(DriverStatus::FlyingLap),
            2 => Some(DriverStatus::InLap),
            3 => Some(DriverStatus::OutLap),
            4 => Some(DriverStatus::OnTrack),
            _ => None,
        }
    }

    fn to_code(self) -> u8 {
        match self {
            DriverStatus::InGarage => 0,
            DriverStatus::FlyingLap => 1,
            DriverStatus::InLap => 2,
            DriverStatus::OutLap => 3,
            DriverStatus::OnTrack => 4,
        }
    }

    proof fn lemma_codes_differ(a: Self, b: Self) {
    }
}

/// Status of a driver's result in the current session and final classification.
#[non_exhaustive]
#[derive(Debug, Clone, Copy, PartialEq, Eq, PartialOrd, Ord, Hash, Structural)]
pub enum ResultStatus {
    Unknown,
    Inactive,
    Active,
    Finished,
    DidNotFinish,
    Disqualified,
    NotClassified,
    Retired,
}

impl WireCode for ResultStatus {
    open spec fn code(self) -> u8 {
        match self {
            ResultStatus::Unknown => 0,
            ResultStatus::Inactive => 1,
            ResultStatus::Active => 2,
            ResultStatus::Finished => 3,
            ResultStatus::DidNotFinish => 4,
            ResultStatus::Disqualified => 5,
            ResultStatus::NotClassified => 6,
            ResultStatus::Retired => 7,
        }
    }

    open spec fn field() -> FieldName {
        FieldName::ResultStatus
    }

    fn field_name() -> FieldName {
        FieldName::ResultStatus
    }

    fn from_code(raw: u8) -> Option<Self> {
        match raw {
            0 => Some(ResultStatus::Unknown),
            1 => Some(ResultStatus::Inactive),
            2 => Some(ResultStatus::Active),
            3 => Some(ResultStatus::Finished),
            4 => Some(ResultStatus::DidNotFinish),
            5 => Some(ResultStatus::Disqualified),
            6 => Some(ResultStatus::NotClassified),
            7 => Some(ResultStatus::Retired),
            _ => None,
        }
    }

    fn to_code(self) -> u8 {
        match self {
            ResultStatus::Unknown => 0,
            ResultStatus::Inactive => 1,
            ResultStatus::Active => 2,
            ResultStatus::Finished => 3,
            ResultStatus::DidNotFinish => 4,
            ResultStatus::Disqualified => 5,
            ResultStatus::NotClassified => 6,
            ResultStatus::Retired => 7,
        }
    }

    proof fn lemma_codes_differ(a: Self, b: Self) {
    }
}

/// Type of penalty awarded to a driver.
#[non_exhaustive]
#[derive(Debug, Clone, Copy, PartialEq, Eq, PartialOrd, Ord, Hash, Structural)]
pub enum PenaltyType {
    DriveThrough,
    StopGo,
    GridPenalty,
    PenaltyReminder,
    TimePenalty,
    Warning,
    Disqualified,
    RemovedFromFormationLap,
    ParkedTooLongTimer,
    TyreRegulations,
    ThisLapInvalidated,
    ThisAndNextLapInvalidated,
    ThisLapInvalidatedWithoutReason,
    ThisAndNextLapInvalidatedWithoutReason,
    ThisAndPreviousLapInvalidated,
    ThisAndPreviousLapInvalidatedWithoutReason,
    Retired,
    BlackFlagTimer,
}

impl WireCode for PenaltyType {
    open spec fn code(self) -> u8 {
        match self {
            PenaltyType::DriveThrough => 0,
            PenaltyType::StopGo => 1,
            PenaltyType::GridPenalty => 2,
            PenaltyType::PenaltyReminder => 3,
            PenaltyType::TimePenalty => 4,
            PenaltyType::Warning => 5,
            PenaltyType::Disqualified => 6,
            PenaltyType::RemovedFromFormationLap => 7,
            PenaltyType::ParkedTooLongTimer => 8,
            PenaltyType::TyreRegulations => 9,
            PenaltyType::ThisLapInvalidated => 10,
            PenaltyType::ThisAndNextLapInvalidated => 11,
            PenaltyType::ThisLapInvalidatedWithoutReason => 12,
            PenaltyType::ThisAndNextLapInvalidatedWithoutReason => 13,
            PenaltyType::ThisAndPreviousLapInvalidated => 14,
            PenaltyType::ThisAndPreviousLapInvalidatedWithoutReason => 15,
            PenaltyType::Retired => 16,
            PenaltyType::BlackFlagTimer => 17,
        }
    }

    open spec fn field() -> FieldName {
        FieldName::PenaltyType
    }

    fn field_name() -> FieldName {
        FieldName::PenaltyType
    }

    fn from_code(raw: u8) -> Option<Self> {
        match raw {
            0 => Some(PenaltyType::DriveThrough),
            1 => Some(PenaltyType::StopGo),
            2 => Some(PenaltyType::GridPenalty),
            3 => Some(PenaltyType::PenaltyReminder),
            4 => Some(PenaltyType::TimePenalty),
            5 => Some(PenaltyType::Warning),
            6 => Some(PenaltyType::Disqualified),
            7 => Some(PenaltyType::RemovedFromFormationLap),
            8 => Some(PenaltyType::ParkedTooLongTimer),
            9 => Some(PenaltyType::TyreRegulations),
            10 => Some(PenaltyType::ThisLapInvalidated),
            11 => Some(PenaltyType::ThisAndNextLapInvalidated),
            12 => Some(PenaltyType::ThisLapInvalidatedWithoutReason),
            13 => Some(PenaltyType::ThisAndNextLapInvalidatedWithoutReason),
            14 => Some(PenaltyType::ThisAndPreviousLapInvalidated),
            15 => Some(PenaltyType::ThisAndPreviousLapInvalidatedWithoutReason),
            16 => Some(PenaltyType::Retired),
            17 => Some(PenaltyType::BlackFlagTimer),
            _ => None,
        }
    }

    fn to_code(self) -> u8 {
        match self {
            PenaltyType::DriveThrough => 0,
            PenaltyType::StopGo => 1,
            PenaltyType::GridPenalty => 2,
            PenaltyType::PenaltyReminder => 3,
            PenaltyType::TimePenalty => 4,
            PenaltyType::Warning => 5,
            PenaltyType::Disqualified => 6,
            PenaltyType::RemovedFromFormationLap => 7,
            PenaltyType::ParkedTooLongTimer => 8,
            PenaltyType::TyreRegulations => 9,
            PenaltyType::ThisLapInvalidated => 10,
            PenaltyType::ThisAndNextLapInvalidated => 11,
            PenaltyType::ThisLapInvalidatedWithoutReason => 12,
            PenaltyType::ThisAndNextLapInvalidatedWithoutReason => 13,
            PenaltyType::ThisAndPreviousLapInvalidated => 14,
            PenaltyType::ThisAndPreviousLapInvalidatedWithoutReason => 15,
            PenaltyType::Retired => 16,
            PenaltyType::BlackFlagTimer => 17,
        }
    }

    proof fn lemma_codes_differ(a: Self, b: Self) {
    }
}

/// Type of offence commited by a driver.
#[non_exhaustive]
#[derive(Debug, Clone, Copy, PartialEq, Eq, PartialOrd, Ord, Hash, Structural)]
pub enum InfringementType {
    BlockingBySlowDriving,
    BlockingByWrongWayDriving,
    ReversingOffTheStartLine,
    BigCollision,
    SmallCollision,
    CollisionFailedToHandBackPositionSingle,
    CollisionFailedToHandBackPositionMultiple,
    CornerCuttingGainedTime,
    CornerCuttingOvertakeSingle,
    CornerCuttingOvertakeMultiple,
    CrossedPitExitLane,
    IgnoringBlueFlags,
    IgnoringYellowFlags,
    IgnoringDriveThrough,
    TooManyDriveThroughs,
    DriveThroughReminderServeWithinNLaps,
    DriveThroughReminderServeThisLap,
    PitLaneSpeeding,
    ParkedForTooLong,
    IgnoringTyreRegulations,
    TooManyPenalties,
    MultipleWarnings,
    ApproachingDisqualification,
    TyreRegulationsSelectSingle,
    TyreRegulationsSelectMultiple,
    LapInvalidatedCornerCutting,
    LapInvalidatedRunningWide,
    CornerCuttingRanWideMinorTimeGain,
    CornerCuttingRanWideSignificantTimeGain,
    CornerCuttingRanWideExtremeTimeGain,
    LapInvalidatedWallRiding,
    LapInvalidatedFlashbackUsed,
    LapInvalidatedResetToTrack,
    BlockingThePitLane,
    JumpStart,
    SafetyCarCollision,
    SafetyCarIllegalOvertake,
    SafetyCarExceedingAllowedPace,
    VirtualSafetyCarExceedingAllowedPace,
    FormationLapBelowAllowedSpeed,
    FormationLapParking,
    RetiredMechanicalFailure,
    RetiredTerminallyDamaged,
    SafetyCarFallingTooFarBack,
    BlackFlagTimer,
    UnservedStopGoPenalty,
    UnservedDriveThroughPenalty,
    EngineComponentChange,
    GearboxChange,
    ParcFermeChange,
    LeagueGridPenalty,
    RetryPenalty,
    IllegalTimeGain,
    MandatoryPitStop,
    AttributeAssigned,
}

impl WireCode for InfringementType {
    open spec fn code(self) -> u8 {
        match self {
            InfringementType::BlockingBySlowDriving => 0,
            InfringementType::BlockingByWrongWayDriving => 1,
            InfringementType::ReversingOffTheStartLine => 2,
            InfringementType::BigCollision => 3,
            InfringementType::SmallCollision => 4,
            InfringementType::CollisionFailedToHandBackPositionSingle => 5,
            InfringementType::CollisionFailedToHandBackPositionMultiple => 6,
            InfringementType::CornerCuttingGainedTime => 7,
            InfringementType::CornerCuttingOvertakeSingle => 8,
            InfringementType::CornerCuttingOvertakeMultiple => 9,
            InfringementType::CrossedPitExitLane => 10,
            InfringementType::IgnoringBlueFlags => 11,
            InfringementType::IgnoringYellowFlags => 12,
            InfringementType::IgnoringDriveThrough => 13,
            InfringementType::TooManyDriveThroughs => 14,
            InfringementType::DriveThroughReminderServeWithinNLaps => 15,
            InfringementType::DriveThroughReminderServeThisLap => 16,
            InfringementType::PitLaneSpeeding => 17,
            InfringementType::ParkedForTooLong => 18,
            InfringementType::IgnoringTyreRegulations => 19,
            InfringementType::TooManyPenalties => 20,
            InfringementType::MultipleWarnings => 21,
            InfringementType::ApproachingDisqualification => 22,
            InfringementType::TyreRegulationsSelectSingle => 23,
            InfringementType::TyreRegulationsSelectMultiple => 24,
            InfringementType::LapInvalidatedCornerCutting => 25,
            InfringementType::LapInvalidatedRunningWide => 26,
            InfringementType::CornerCuttingRanWideMinorTimeGain => 27,
            InfringementType::CornerCuttingRanWideSignificantTimeGain => 28,
            InfringementType::CornerCuttingRanWideExtremeTimeGain => 29,
            InfringementType::LapInvalidatedWallRiding => 30,
            InfringementType::LapInvalidatedFlashbackUsed => 31,
            InfringementType::LapInvalidatedResetToTrack => 32,
            InfringementType::BlockingThePitLane => 33,
            InfringementType::JumpStart => 34,
            InfringementType::SafetyCarCollision => 35,
            InfringementType::SafetyCarIllegalOvertake => 36,
            InfringementType::SafetyCarExceedingAllowedPace => 37,
            InfringementType::VirtualSafetyCarExceedingAllowedPace => 38,
            InfringementType::FormationLapBelowAllowedSpeed => 39,
            InfringementType::FormationLapParking => 40,
            InfringementType::RetiredMechanicalFailure => 41,
            InfringementType::RetiredTerminallyDamaged => 42,
            InfringementType::SafetyCarFallingTooFarBack => 43,
            InfringementType::BlackFlagTimer => 44,
            InfringementType::UnservedStopGoPenalty => 45,
            InfringementType::UnservedDriveThroughPenalty => 46,
            InfringementType::EngineComponentChange => 47,
            InfringementType::GearboxChange => 48,
            InfringementType::ParcFermeChange => 49,
            InfringementType::LeagueGridPenalty => 50,
            InfringementType::RetryPenalty => 51,
            InfringementType::IllegalTimeGain => 52,
            InfringementType::MandatoryPitStop => 53,
            InfringementType::AttributeAssigned => 54,
        }
    }

    open spec fn field() -> FieldName {
        FieldName::InfringementType
    }

    fn field_name() -> FieldName {
        FieldName::InfringementType
    }

    fn from_code(raw: u8) -> Option<Self> {
        match raw {
            0 => Some(InfringementType::BlockingBySlowDriving),
            1 => Some(InfringementType::BlockingByWrongWayDriving),
            2 => Some(InfringementType::ReversingOffTheStartLine),
            3 => Some(InfringementType::BigCollision),
            4 => Some(InfringementType::SmallCollision),
            5 => Some(InfringementType::CollisionFailedToHandBackPositionSingle),
            6 => Some(InfringementType::CollisionFailedToHandBackPositionMultiple),
            7 => Some(InfringementType::CornerCuttingGainedTime),
            8 => Some(InfringementType::CornerCuttingOvertakeSingle),
            9 => Some(InfringementType::CornerCuttingOvertakeMultiple),
            10 => Some(InfringementType::CrossedPitExitLane),
            11 => Some(InfringementType::IgnoringBlueFlags),
            12 => Some(InfringementType::IgnoringYellowFlags),
            13 => Some(InfringementType::IgnoringDriveThrough),
            14 => Some(InfringementType::TooManyDriveThroughs),
            15 => Some(InfringementType::DriveThroughReminderServeWithinNLaps),
            16 => Some(InfringementType::DriveThroughReminderServeThisLap),
            17 => Some(InfringementType::PitLaneSpeeding),
            18 => Some(InfringementType::ParkedForTooLong),
            19 => Some(InfringementType::IgnoringTyreRegulations),
            20 => Some(InfringementType::TooManyPenalties),
            21 => Some(InfringementType::MultipleWarnings),
            22 => Some(InfringementType::ApproachingDisqualification),
            23 => Some(InfringementType::TyreRegulationsSelectSingle),
            24 => Some(InfringementType::TyreRegulationsSelectMultiple),
            25 => Some(InfringementType::LapInvalidatedCornerCutting),
            26 => Some(InfringementType::LapInvalidatedRunningWide),
            27 => Some(InfringementType::CornerCuttingRanWideMinorTimeGain),
            28 => Some(InfringementType::CornerCuttingRanWideSignificantTimeGain),
            29 => Some(InfringementType::CornerCuttingRanWideExtremeTimeGain),
            30 => Some(InfringementType::LapInvalidatedWallRiding),
            31 => Some(InfringementType::LapInvalidatedFlashbackUsed),
            32 => Some(InfringementType::LapInvalidatedResetToTrack),
            33 => Some(InfringementType::BlockingThePitLane),
            34 => Some(InfringementType::JumpStart),
            35 => Some(InfringementType::SafetyCarCollision),
            36 => Some(InfringementType::SafetyCarIllegalOvertake),
            37 => Some(InfringementType::SafetyCarExceedingAllowedPace),
            38 => Some(InfringementType::VirtualSafetyCarExceedingAllowedPace),
            39 => Some(InfringementType::FormationLapBelowAllowedSpeed),
            40 => Some(InfringementType::FormationLapParking),
            41 => Some(InfringementType::RetiredMechanicalFailure),
            42 => Some(InfringementType::RetiredTerminallyDamaged),
            43 => Some(InfringementType::SafetyCarFallingTooFarBack),
            44 => Some(InfringementType::BlackFlagTimer),
            45 => Some(InfringementType::UnservedStopGoPenalty),
            46 => Some(InfringementType::UnservedDriveThroughPenalty),
            47 => Some(InfringementType::EngineComponentChange),
            48 => Some(InfringementType::GearboxChange),
            49 => Some(InfringementType::ParcFermeChange),
            50 => Some(InfringementType::LeagueGridPenalty),
            51 => Some(InfringementType::RetryPenalty),
            52 => Some(InfringementType::IllegalTimeGain),
            53 => Some(InfringementType::MandatoryPitStop),
            54 => Some(InfringementType::AttributeAssigned),
            _ => None,
        }
    }

    fn to_code(self) -> u8 {
        match self {
            InfringementType::BlockingBySlowDriving => 0,
            InfringementType::BlockingByWrongWayDriving => 1,
            InfringementType::ReversingOffTheStartLine => 2,
            InfringementType::BigCollision => 3,
            InfringementType::SmallCollision => 4,
            InfringementType::CollisionFailedToHandBackPositionSingle => 5,
            InfringementType::CollisionFailedToHandBackPositionMultiple => 6,
            InfringementType::CornerCuttingGainedTime => 7,
            InfringementType::CornerCuttingOvertakeSingle => 8,
            InfringementType::CornerCuttingOvertakeMultiple => 9,
            InfringementType::CrossedPitExitLane => 10,
            InfringementType::IgnoringBlueFlags => 11,
            InfringementType::IgnoringYellowFlags => 12,
            InfringementType::IgnoringDriveThrough => 13,
            InfringementType::TooManyDriveThroughs => 14,
            InfringementType::DriveThroughReminderServeWithinNLaps => 15,
            InfringementType::DriveThroughReminderServeThisLap => 16,
            InfringementType::PitLaneSpeeding => 17,
            InfringementType::ParkedForTooLong => 18,
            InfringementType::IgnoringTyreRegulations => 19,
            InfringementType::TooManyPenalties => 20,
            InfringementType::MultipleWarnings => 21,
            InfringementType::ApproachingDisqualification => 22,
            InfringementType::TyreRegulationsSelectSingle => 23,
            InfringementType::TyreRegulationsSelectMultiple => 24,
            InfringementType::LapInvalidatedCornerCutting => 25,
            InfringementType::LapInvalidatedRunningWide => 26,
            InfringementType::CornerCuttingRanWideMinorTimeGain => 27,
            InfringementType::CornerCuttingRanWideSignificantTimeGain => 28,
            InfringementType::CornerCuttingRanWideExtremeTimeGain => 29,
            InfringementType::LapInvalidatedWallRiding => 30,
            InfringementType::LapInvalidatedFlashbackUsed => 31,
            InfringementType::LapInvalidatedResetToTrack => 32,
            InfringementType::BlockingThePitLane => 33,
            InfringementType::JumpStart => 34,
            InfringementType::SafetyCarCollision => 35,
            InfringementType::SafetyCarIllegalOvertake => 36,
            InfringementType::SafetyCarExceedingAllowedPace => 37,
            InfringementType::VirtualSafetyCarExceedingAllowedPace => 38,
            InfringementType::FormationLapBelowAllowedSpeed => 39,
            InfringementType::FormationLapParking => 40,
            InfringementType::RetiredMechanicalFailure => 41,
            InfringementType::RetiredTerminallyDamaged => 42,
            InfringementType::SafetyCarFallingTooFarBack => 43,
            InfringementType::BlackFlagTimer => 44,
            InfringementType::UnservedStopGoPenalty => 45,
            InfringementType::UnservedDriveThroughPenalty => 46,
            InfringementType::EngineComponentChange => 47,
            InfringementType::GearboxChange => 48,
            InfringementType::ParcFermeChange => 49,
            InfringementType::LeagueGridPenalty => 50,
            InfringementType::RetryPenalty => 51,
            InfringementType::IllegalTimeGain => 52,
            InfringementType::MandatoryPitStop => 53,
            InfringementType::AttributeAssigned => 54,
        }
    }

    proof fn lemma_codes_differ(a: Self, b: Self) {
    }
}

/// Unique identifier of a driver's nationality.
#[non_exhaustive]
#[derive(Debug, Clone, Copy, PartialEq, Eq, PartialOrd, Ord, Hash, Structural)]
pub enum Nationality {
    Unknown,
    American,
    Argentinian,
    Australian,
    Austrian,
    Azerbaijani,
    Bahraini,
    Belgian,
    Bolivian,
    Brazilian,
    British,
    Bulgarian,
    Cameroonian,
    Canadian,
    Chilean,
    Chinese,
    Colombian,
    CostaRican,
    Croatian,
    Cypriot,
    Czech,
    Danish,
    Dutch,
    Ecuadorian,
    English,
    Emirian,
    Estonian,
    Finnish,
    French,
    German,
    Ghanaian,
    Greek,
    Guatemalan,
    Honduran,
    HongKonger,
    Hungarian,
    Icelander,
    Indian,
    Indonesian,
    Irish,
    Israeli,
    Italian,
    Jamaican,
    Japanese,
    Jordanian,
    Kuwaiti,
    Latvian,
    Lebanese,
    Lithuanian,
    Luxembourger,
    Malaysian,
    Maltese,
    Mexican,
    Monegasque,
    NewZealander,
    Nicaraguan,
    NorthernIrish,
    Norwegian,
    Omani,
    Pakistani,
    Panamanian,
    Paraguayan,
    Peruvian,
    Polish,
    Portuguese,
    Qatari,
    Romanian,
    Russian,
    Salvadoran,
    Saudi,
    Scottish,
    Serbian,
    Singaporean,
    Slovakian,
    Slovenian,
    SouthKorean,
    SouthAfrican,
    Spanish,
    Swedish,
    Swiss,
    Thai,
    Turkish,
    Uruguayan,
    Ukrainian,
    Venezuelan,
    Welsh,
    Barbadian,
    Vietnamese,
    Algerian,
    Bosnian,
    Filipino,
}

impl WireCode for Nationality {
    open spec fn code(self) -> u8 {
        match self {
            Nationality::Unknown => 0,
            Nationality::American => 1,
            Nationality::Argentinian => 2,
            Nationality::Australian => 3,
            Nationality::Austrian => 4,
            Nationality::Azerbaijani => 5,
            Nationality::Bahraini => 6,
            Nationality::Belgian => 7,
            Nationality::Bolivian => 8,
            Nationality::Brazilian => 9,
            Nationality::British => 10,
            Nationality::Bulgarian => 11,
            Nationality::Cameroonian => 12,
            Nationality::Canadian => 13,
            Nationality::Chilean => 14,
            Nationality::Chinese => 15,
            Nationality::Colombian => 16,
            Nationality::CostaRican => 17,
            Nationality::Croatian => 18,
            Nationality::Cypriot => 19,
            Nationality::Czech => 20,
            Nationality::Danish => 21,
            Nationality::Dutch => 22,
            Nationality::Ecuadorian => 23,
            Nationality::English => 24,
            Nationality::Emirian => 25,
            Nationality::Estonian => 26,
            Nationality::Finnish => 27,
            Nationality::French => 28,
            Nationality::German => 29,
            Nationality::Ghanaian => 30,
            Nationality::Greek => 31,
            Nationality::Guatemalan => 32,
            Nationality::Honduran => 33,
            Nationality::HongKonger => 34,
            Nationality::Hungarian => 35,
            Nationality::Icelander => 36,
            Nationality::Indian => 37,
            Nationality::Indonesian => 38,
            Nationality::Irish => 39,
            Nationality::Israeli => 40,
            Nationality::Italian => 41,
            Nationality::Jamaican => 42,
            Nationality::Japanese => 43,
            Nationality::Jordanian => 44,
            Nationality::Kuwaiti => 45,
            Nationality::Latvian => 46,
            Nationality::Lebanese => 47,
            Nationality::Lithuanian => 48,
            Nationality::Luxembourger => 49,
            Nationality::Malaysian => 50,
            Nationality::Maltese => 51,
            Nationality::Mexican => 52,
            Nationality::Monegasque => 53,
            Nationality::NewZealander => 54,
            Nationality::Nicaraguan => 55,
            Nationality::NorthernIrish => 56,
            Nationality::Norwegian => 57,
            Nationality::Omani => 58,
            Nationality::Pakistani => 59,
            Nationality::Panamanian => 60,
            Nationality::Paraguayan => 61,
            Nationality::Peruvian => 62,
            Nationality::Polish => 63,
            Nationality::Portuguese => 64,
            Nationality::Qatari => 65,
            Nationality::Romanian => 66,
            Nationality::Russian => 67,
            Nationality::Salvadoran => 68,
            Nationality::Saudi => 69,
            Nationality::Scottish => 70,
            Nationality::Serbian => 71,
            Nationality::Singaporean => 72,
            Nationality::Slovakian => 73,
            Nationality::Slovenian => 74,
            Nationality::SouthKorean => 75,
            Nationality::SouthAfrican => 76,
            Nationality::Spanish => 77,
            Nationality::Swedish => 78,
            Nationality::Swiss => 79,
            Nationality::Thai => 80,
            Nationality::Turkish => 81,
            Nationality::Uruguayan => 82,
            Nationality::Ukrainian => 83,
            Nationality::Venezuelan => 84,
            Nationality::Welsh => 85,
            Nationality::Barbadian => 86,
            Nationality::Vietnamese => 87,
            Nationality::Algerian => 88,
            Nationality::Bosnian => 89,
            Nationality::Filipino => 90,
        }
    }

    open spec fn field() -> FieldName {
        FieldName::Nationality
    }

    fn field_name() -> FieldName {
        FieldName::Nationality
    }

    fn from_code(raw: u8) -> Option<Self> {
        match raw {
            0 => Some(Nationality::Unknown),
            1 => Some(Nationality::American),
            2 => Some(Nationality::Argentinian),
            3 => Some(Nationality::Australian),
            4 => Some(Nationality::Austrian),
            5 => Some(Nationality::Azerbaijani),
            6 => Some(Nationality::Bahraini),
            7 => Some(Nationality::Belgian),
            8 => Some(Nationality::Bolivian),
            9 => Some(Nationality::Brazilian),
            10 => Some(Nationality::British),
            11 => Some(Nationality::Bulgarian),
            12 => Some(Nationality::Cameroonian),
            13 => Some(Nationality::Canadian),
            14 => Some(Nationality::Chilean),
            15 => Some(Nationality::Chinese),
            16 => Some(Nationality::Colombian),
            17 => Some(Nationality::CostaRican),
            18 => Some(Nationality::Croatian),
            19 => Some(Nationality::Cypriot),
            20 => Some(Nationality::Czech),
            21 => Some(Nationality::Danish),
            22 => Some(Nationality::Dutch),
            23 => Some(Nationality::Ecuadorian),
            24 => Some(Nationality::English),
            25 => Some(Nationality::Emirian),
            26 => Some(Nationality::Estonian),
            27 => Some(Nationality::Finnish),
            28 => Some(Nationality::French),
            29 => Some(Nationality::German),
            30 => Some(Nationality::Ghanaian),
            31 => Some(Nationality::Greek),
            32 => Some(Nationality::Guatemalan),
            33 => Some(Nationality::Honduran),
            34 => Some(Nationality::HongKonger),
            35 => Some(Nationality::Hungarian),
            36 => Some(Nationality::Icelander),
            37 => Some(Nationality::Indian),
            38 => Some(Nationality::Indonesian),
            39 => Some(Nationality::Irish),
            40 => Some(Nationality::Israeli),
            41 => Some(Nationality::Italian),
            42 => Some(Nationality::Jamaican),
            43 => Some(Nationality::Japanese),
            44 => Some(Nationality::Jordanian),
            45 => Some(Nationality::Kuwaiti),
            46 => Some(Nationality::Latvian),
            47 => Some(Nationality::Lebanese),
            48 => Some(Nationality::Lithuanian),
            49 => Some(Nationality::Luxembourger),
            50 => Some(Nationality::Malaysian),
            51 => Some(Nationality::Maltese),
            52 => Some(Nationality::Mexican),
            53 => Some(Nationality::Monegasque),
            54 => Some(Nationality::NewZealander),
            55 => Some(Nationality::Nicaraguan),
            56 => Some(Nationality::NorthernIrish),
            57 => Some(Nationality::Norwegian),
            58 => Some(Nationality::Omani),
            59 => Some(Nationality::Pakistani),
            60 => Some(Nationality::Panamanian),
            61 => Some(Nationality::Paraguayan),
            62 => Some(Nationality::Peruvian),
            63 => Some(Nationality::Polish),
            64 => Some(Nationality::Portuguese),
            65 => Some(Nationality::Qatari),
            66 => Some(Nationality::Romanian),
            67 => Some(Nationality::Russian),
            68 => Some(Nationality::Salvadoran),
            69 => Some(Nationality::Saudi),
            70 => Some(Nationality::Scottish),
            71 => Some(Nationality::Serbian),
            72 => Some(Nationality::Singaporean),
            73 => Some(Nationality::Slovakian),
            74 => Some(Nationality::Slovenian),
            75 => Some(Nationality::SouthKorean),
            76 => Some(Nationality::SouthAfrican),
            77 => Some(Nationality::Spanish),
            78 => Some(Nationality::Swedish),
            79 => Some(Nationality::Swiss),
            80 => Some(Nationality::Thai),
            81 => Some(Nationality::Turkish),
            82 => Some(Nationality::Uruguayan),
            83 => Some(Nationality::Ukrainian),
            84 => Some(Nationality::Venezuelan),
            85 => Some(Nationality::Welsh),
            86 => Some(Nationality::Barbadian),
            87 => Some(Nationality::Vietnamese),
            88 => Some(Nationality::Algerian),
            89 => Some(Nationality::Bosnian),
            90 => Some(Nationality::Filipino),
            _ => None,
        }
    }

    fn to_code(self) -> u8 {
        match self {
            Nationality::Unknown => 0,
            Nationality::American => 1,
            Nationality::Argentinian => 2,
            Nationality::Australian => 3,
            Nationality::Austrian => 4,
            Nationality::Azerbaijani => 5,
            Nationality::Bahraini => 6,
            Nationality::Belgian => 7,
            Nationality::Bolivian => 8,
            Nationality::Brazilian => 9,
            Nationality::British => 10,
            Nationality::Bulgarian => 11,
            Nationality::Cameroonian => 12,
            Nationality::Canadian => 13,
            Nationality::Chilean => 14,
            Nationality::Chinese => 15,
            Nationality::Colombian => 16,
            Nationality::CostaRican => 17,
            Nationality::Croatian => 18,
            Nationality::Cypriot => 19,
            Nationality::Czech => 20,
            Nationality::Danish => 21,
            Nationality::Dutch => 22,
            Nationality::Ecuadorian => 23,
            Nationality::English => 24,
            Nationality::Emirian => 25,
            Nationality::Estonian => 26,
            Nationality::Finnish => 27,
            Nationality::French => 28,
            Nationality::German => 29,
            Nationality::Ghanaian => 30,
            Nationality::Greek => 31,
            Nationality::Guatemalan => 32,
            Nationality::Honduran => 33,
            Nationality::HongKonger => 34,
            Nationality::Hungarian => 35,
            Nationality::Icelander => 36,
            Nationality::Indian => 37,
            Nationality::Indonesian => 38,
            Nationality::Irish => 39,
            Nationality::Israeli => 40,
            Nationality::Italian => 41,
            Nationality::Jamaican => 42,
            Nationality::Japanese => 43,
            Nationality::Jordanian => 44,
            Nationality::Kuwaiti => 45,
            Nationality::Latvian => 46,
            Nationality::Lebanese => 47,
            Nationality::Lithuanian => 48,
            Nationality::Luxembourger => 49,
            Nationality::Malaysian => 50,
            Nationality::Maltese => 51,
            Nationality::Mexican => 52,
            Nationality::Monegasque => 53,
            Nationality::NewZealander => 54,
            Nationality::Nicaraguan => 55,
            Nationality::NorthernIrish => 56,
            Nationality::Norwegian => 57,
            Nationality::Omani => 58,
            Nationality::Pakistani => 59,
            Nationality::Panamanian => 60,
            Nationality::Paraguayan => 61,
            Nationality::Peruvian => 62,
            Nationality::Polish => 63,
            Nationality::Portuguese => 64,
            Nationality::Qatari => 65,
            Nationality::Romanian => 66,
            Nationality::Russian => 67,
            Nationality::Salvadoran => 68,
            Nationality::Saudi => 69,
            Nationality::Scottish => 70,
            Nationality::Serbian => 71,
            Nationality::Singaporean => 72,
            Nationality::Slovakian => 73,
            Nationality::Slovenian => 74,
            Nationality::SouthKorean => 75,
            Nationality::SouthAfrican => 76,
            Nationality::Spanish => 77,
            Nationality::Swedish => 78,
            Nationality::Swiss => 79,
            Nationality::Thai => 80,
            Nationality::Turkish => 81,
            Nationality::Uruguayan => 82,
            Nationality::Ukrainian => 83,
            Nationality::Venezuelan => 84,
            Nationality::Welsh => 85,
            Nationality::Barbadian => 86,
            Nationality::Vietnamese => 87,
            Nationality::Algerian => 88,
            Nationality::Bosnian => 89,
            Nationality::Filipino => 90,
        }
    }

    proof fn lemma_codes_differ(a: Self, b: Self) {
    }
}

/// "Your telemetry" UDP setting value.
#[non_exhaustive]
#[derive(Debug, Clone, Copy, PartialEq, Eq, PartialOrd, Ord, Hash, Structural)]
pub enum YourTelemetry {
    Restricted,
    Public,
}

impl WireCode for YourTelemetry {
    open spec fn code(self) -> u8 {
        match self {
            YourTelemetry::Restricted => 0,
            YourTelemetry::Public => 1,
        }
    }

    open spec fn field() -> FieldName {
        FieldName::YourTelemetry
    }

    fn field_name() -> FieldName {
        FieldName::YourTelemetry
    }

    fn from_code(raw: u8) -> Option<Self> {
        match raw {
            0 => Some(YourTelemetry::Restricted),
            1 => Some(YourTelemetry::Public),
            _ => None,
        }
    }

    fn to_code(self) -> u8 {
        match self {
            YourTelemetry::Restricted => 0,
            YourTelemetry::Public => 1,
        }
    }

    proof fn lemma_codes_differ(a: Self, b: Self) {
    }
}

/// Type of surface a tyre is on.
#[non_exhaustive]
#[derive(Debug, Clone, Copy, PartialEq, Eq, PartialOrd, Ord, Hash, Structural)]
pub enum Surface {
    Tarmac,
    RumbleStrip,
    Concrete,
    Rock,
    Gravel,
    Mud,
    Sand,
    Grass,
    Water,
    Cobblestone,
    Metal,
    Ridged,
}

impl WireCode for Surface {
    open spec fn code(self) -> u8 {
        match self {
            Surface::Tarmac => 0,
            Surface::RumbleStrip => 1,
            Surface::Concrete => 2,
            Surface::Rock => 3,
            Surface::Gravel => 4,
            Surface::Mud => 5,
            Surface::Sand => 6,
            Surface::Grass => 7,
            Surface::Water => 8,
            Surface::Cobblestone => 9,
            Surface::Metal => 10,
            Surface::Ridged => 11,
        }
    }

    open spec fn field() -> FieldName {
        FieldName::Surface
    }

    fn field_name() -> FieldName {
        FieldName::Surface
    }

    fn from_code(raw: u8) -> Option<Self> {
        match raw {
            0 => Some(Surface::Tarmac),
            1 => Some(Surface::RumbleStrip),
            2 => Some(Surface::Concrete),
            3 => Some(Surface::Rock),
            4 => Some(Surface::Gravel),
            5 => Some(Surface::Mud),
            6 => Some(Surface::Sand),
            7 => Some(Surface::Grass),
            8 => Some(Surface::Water),
            9 => Some(Surface::Cobblestone),
            10 => Some(Surface::Metal),
            11 => Some(Surface::Ridged),
            _ => None,
        }
    }

    fn to_code(self) -> u8 {
        match self {
            Surface::Tarmac => 0,
            Surface::RumbleStrip => 1,
            Surface::Concrete => 2,
            Surface::Rock => 3,
            Surface::Gravel => 4,
            Surface::Mud => 5,
            Surface::Sand => 6,
            Surface::Grass => 7,
            Surface::Water => 8,
            Surface::Cobblestone => 9,
            Surface::Metal => 10,
            Surface::Ridged => 11,
        }
    }

    proof fn lemma_codes_differ(a: Self, b: Self) {
    }
}

/// Index of currently open multi-function display panel.
#[non_exhaustive]
#[derive(Debug, Clone, Copy, PartialEq, Eq, PartialOrd, Ord, Hash, Structural)]
pub enum MfdPanelIndex {
    CarSetup,
    Pits,
    Damage,
    Engine,
    Temperatures,
    Closed,
}

impl WireCode for MfdPanelIndex {
    open spec fn code(self) -> u8 {
        match self {
            MfdPanelIndex::CarSetup => 0,
            MfdPanelIndex::Pits => 1,
            MfdPanelIndex::Damage => 2,
            MfdPanelIndex::Engine => 3,
            MfdPanelIndex::Temperatures => 4,
            MfdPanelIndex::Closed => 255,
        }
    }

    open spec fn field() -> FieldName {
        FieldName::MfdPanelIndex
    }

    fn field_name() -> FieldName {
        FieldName::MfdPanelIndex
    }

    fn from_code(raw: u8) -> Option<Self> {
        match raw {
            0 => Some(MfdPanelIndex::CarSetup),
            1 => Some(MfdPanelIndex::Pits),
            2 => Some(MfdPanelIndex::Damage),
            3 => Some(MfdPanelIndex::Engine),
            4 => Some(MfdPanelIndex::Temperatures),
            255 => Some(MfdPanelIndex::Closed),
            _ => None,
        }
    }

    fn to_code(self) -> u8 {
        match self {
            MfdPanelIndex::CarSetup => 0,
            MfdPanelIndex::Pits => 1,
            MfdPanelIndex::Damage => 2,
            MfdPanelIndex::Engine => 3,
            MfdPanelIndex::Temperatures => 4,
            MfdPanelIndex::Closed => 255,
        }
    }

    proof fn lemma_codes_differ(a: Self, b: Self) {
    }
}

/// Type of enabled traction control assist.
#[non_exhaustive]
#[derive(Debug, Clone, Copy, PartialEq, Eq, PartialOrd, Ord, Hash, Structural)]
pub enum TractionControl {
    Off,
    Medium,
    Full,
}

impl WireCode for TractionControl {
    open spec fn code(self) -> u8 {
        match self {
            TractionControl::Off => 0,
            TractionControl::Medium => 1,
            TractionControl::Full => 2,
        }
    }

    open spec fn field() -> FieldName {
        FieldName::TractionControl
    }

    fn field_name() -> FieldName {
        FieldName::TractionControl
    }

    fn from_code(raw: u8) -> Option<Self> {
        match raw {
            0 => Some(TractionControl::Off),
            1 => Some(TractionControl::Medium),
            2 => Some(TractionControl::Full),
            _ => None,
        }
    }

    fn to_code(self) -> u8 {
        match self {
            TractionControl::Off => 0,
            TractionControl::Medium => 1,
            TractionControl::Full => 2,
        }
    }

    proof fn lemma_codes_differ(a: Self, b: Self) {
    }
}

/// Type of fuel mix that's currently in use.
#[non_exhaustive]
#[derive(Debug, Clone, Copy, PartialEq, Eq, PartialOrd, Ord, Hash, Structural)]
pub enum FuelMix {
    Lean,
    Standard,
    Rich,
    Max,
}

impl WireCode for FuelMix {
    open spec fn code(self) -> u8 {
        match self {
            FuelMix::Lean => 0,
            FuelMix::Standard => 1,
            FuelMix::Rich => 2,
            FuelMix::Max => 3,
        }
    }

    open spec fn field() -> FieldName {
        FieldName::FuelMix
    }

    fn field_name() -> FieldName {
        FieldName::FuelMix
    }

    fn from_code(raw: u8) -> Option<Self> {
        match raw {
            0 => Some(FuelMix::Lean),
            1 => Some(FuelMix::Standard),
            2 => Some(FuelMix::Rich),
            3 => Some(FuelMix::Max),
            _ => None,
        }
    }

    fn to_code(self) -> u8 {
        match self {
            FuelMix::Lean => 0,
            FuelMix::Standard => 1,
            FuelMix::Rich => 2,
            FuelMix::Max => 3,
        }
    }

    proof fn lemma_codes_differ(a: Self, b: Self) {
    }
}

/// ERS deployment mode that's currently in use.
#[non_exhaustive]
#[derive(Debug, Clone, Copy, PartialEq, Eq, PartialOrd, Ord, Hash, Structural)]
pub enum ErsDeployMode {
    NoDeploy,
    Medium,
    Overtake,
    Hotlap,
}

impl WireCode for ErsDeployMode {
    open spec fn code(self) -> u8 {
        match self {
            ErsDeployMode::NoDeploy => 0,
            ErsDeployMode::Medium => 1,
            ErsDeployMode::Overtake => 2,
            ErsDeployMode::Hotlap => 3,
        }
    }

    open spec fn field() -> FieldName {
        FieldName::ErsDeployMode
    }

    fn field_name() -> FieldName {
        FieldName::ErsDeployMode
    }

    fn from_code(raw: u8) -> Option<Self> {
        match raw {
            0 => Some(ErsDeployMode::NoDeploy),
            1 => Some(ErsDeployMode::Medium),
            2 => Some(ErsDeployMode::Overtake),
            3 => Some(ErsDeployMode::Hotlap),
            _ => None,
        }
    }

    fn to_code(self) -> u8 {
        match self {
            ErsDeployMode::NoDeploy => 0,
            ErsDeployMode::Medium => 1,
            ErsDeployMode::Overtake => 2,
            ErsDeployMode::Hotlap => 3,
        }
    }

    proof fn lemma_codes_differ(a: Self, b: Self) {
    }
}

/// Flag the driver is currently being shown. A negative code travels as the
/// byte that spells it in two's complement.
#[non_exhaustive]
#[derive(Debug, Clone, Copy, PartialEq, Eq, PartialOrd, Ord, Hash, Structural)]
pub enum VehicleFiaFlag {
    Unknown,
    NoFlag,
    Green,
    Blue,
    Yellow,
    Red,
}

impl WireCode for VehicleFiaFlag {
    open spec fn code(self) -> u8 {
        match self {
            VehicleFiaFlag::Unknown => 255,
            VehicleFiaFlag::NoFlag => 0,
            VehicleFiaFlag::Green => 1,
            VehicleFiaFlag::Blue => 2,
            VehicleFiaFlag::Yellow => 3,
            VehicleFiaFlag::Red => 4,
        }
    }

    open spec fn field() -> FieldName {
        FieldName::VehicleFiaFlag
    }

    fn field_name() -> FieldName {
        FieldName::VehicleFiaFlag
    }

    fn from_code(raw: u8) -> Option<Self> {
        match raw {
            0 => Some(VehicleFiaFlag::NoFlag),
            1 => Some(VehicleFiaFlag::Green),
            2 => Some(VehicleFiaFlag::Blue),
            3 => Some(VehicleFiaFlag::Yellow),
            4 => Some(VehicleFiaFlag::Red),
            255 => Some(VehicleFiaFlag::Unknown),
            _ => None,
        }
    }

    fn to_code(self) -> u8 {
        match self {
            VehicleFiaFlag::Unknown => 255,
            VehicleFiaFlag::NoFlag => 0,
            VehicleFiaFlag::Green => 1,
            VehicleFiaFlag::Blue => 2,
            VehicleFiaFlag::Yellow => 3,
            VehicleFiaFlag::Red => 4,
        }
    }

    proof fn lemma_codes_differ(a: Self, b: Self) {
    }
}

/// Global DRS activation permission status. A negative code travels as the byte
/// that spells it in two's complement.
#[non_exhaustive]
#[derive(Debug, Clone, Copy, PartialEq, Eq, PartialOrd, Ord, Hash, Structural)]
pub enum DrsAllowed {
    Unknown,
    NotAllowed,
    Allowed,
}

impl WireCode for DrsAllowed {
    open spec fn code(self) -> u8 {
        match self {
            DrsAllowed::Unknown => 255,
            DrsAllowed::NotAllowed => 0,
            DrsAllowed::Allowed => 1,
        }
    }

    open spec fn field() -> FieldName {
        FieldName::DrsAllowed
    }

    fn field_name() -> FieldName {
        FieldName::DrsAllowed
    }

    fn from_code(raw: u8) -> Option<Self> {
        match raw {
            0 => Some(DrsAllowed::NotAllowed),
            1 => Some(DrsAllowed::Allowed),
            255 => Some(DrsAllowed::Unknown),
            _ => None,
        }
    }

    fn to_code(self) -> u8 {
        match self {
            DrsAllowed::Unknown => 255,
            DrsAllowed::NotAllowed => 0,
            DrsAllowed::Allowed => 1,
        }
    }

    proof fn lemma_codes_differ(a: Self, b: Self) {
    }
}

/// Session-independent tyre compound type.
#[non_exhaustive]
#[derive(Debug, Clone, Copy, PartialEq, Eq, PartialOrd, Ord, Hash, Structural)]
pub enum ActualTyreCompound {
    Unknown,
    Inter,
    Wet,
    ClassicDry,
    ClassicWet,
    F2SuperSoft,
    F2Soft,
    F2Medium,
    F2Hard,
    F2Wet,
    C5,
    C4,
    C3,
    C2,
    C1,
    C0,
}

impl WireCode for ActualTyreCompound {
    open spec fn code(self) -> u8 {
        match self {
            ActualTyreCompound::Unknown => 0,
            ActualTyreCompound::Inter => 7,
            ActualTyreCompound::Wet => 8,
            ActualTyreCompound::ClassicDry => 9,
            ActualTyreCompound::ClassicWet => 10,
            ActualTyreCompound::F2SuperSoft => 11,
            ActualTyreCompound::F2Soft => 12,
            ActualTyreCompound::F2Medium => 13,
            ActualTyreCompound::F2Hard => 14,
            ActualTyreCompound::F2Wet => 15,
            ActualTyreCompound::C5 => 16,
            ActualTyreCompound::C4 => 17,
            ActualTyreCompound::C3 => 18,
            ActualTyreCompound::C2 => 19,
            ActualTyreCompound::C1 => 20,
            ActualTyreCompound::C0 => 21,
        }
    }

    open spec fn field() -> FieldName {
        FieldName::ActualTyreCompound
    }

    fn field_name() -> FieldName {
        FieldName::ActualTyreCompound
    }

    fn from_code(raw: u8) -> Option<Self> {
        match raw {
            0 => Some(ActualTyreCompound::Unknown),
            7 => Some(ActualTyreCompound::Inter),
            8 => Some(ActualTyreCompound::Wet),
            9 => Some(ActualTyreCompound::ClassicDry),
            10 => Some(ActualTyreCompound::ClassicWet),
            11 => Some(ActualTyreCompound::F2SuperSoft),
            12 => Some(ActualTyreCompound::F2Soft),
            13 => Some(ActualTyreCompound::F2Medium),
            14 => Some(ActualTyreCompound::F2Hard),
            15 => Some(ActualTyreCompound::F2Wet),
            16 => Some(ActualTyreCompound::C5),
            17 => Some(ActualTyreCompound::C4),
            18 => Some(ActualTyreCompound::C3),
            19 => Some(ActualTyreCompound::C2),
            20 => Some(ActualTyreCompound::C1),
            21 => Some(ActualTyreCompound::C0),
            _ => None,
        }
    }

    fn to_code(self) -> u8 {
        match self {
            ActualTyreCompound::Unknown => 0,
            ActualTyreCompound::Inter => 7,
            ActualTyreCompound::Wet => 8,
            ActualTyreCompound::ClassicDry => 9,
            ActualTyreCompound::ClassicWet => 10,
            ActualTyreCompound::F2SuperSoft => 11,
            ActualTyreCompound::F2Soft => 12,
            ActualTyreCompound::F2Medium => 13,
            ActualTyreCompound::F2Hard => 14,
            ActualTyreCompound::F2Wet => 15,
            ActualTyreCompound::C5 => 16,
            ActualTyreCompound::C4 => 17,
            ActualTyreCompound::C3 => 18,
            ActualTyreCompound::C2 => 19,
            ActualTyreCompound::C1 => 20,
            ActualTyreCompound::C0 => 21,
        }
    }

    proof fn lemma_codes_differ(a: Self, b: Self) {
    }
}

/// Visual indicator of a tyre compound's type in a given session.
#[non_exhaustive]
#[derive(Debug, Clone, Copy, PartialEq, Eq, PartialOrd, Ord, Hash, Structural)]
pub enum VisualTyreCompound {
    Unknown,
    F1Inter,
    F1Wet,
    ClassicDry,
    ClassicWet,
    F2Wet,
    F1Soft,
    F1Medium,
    F1Hard,
    F2SuperSoft,
    F2Soft,
    F2Medium,
    F2Hard,
}

impl WireCode for VisualTyreCompound {
    open spec fn code(self) -> u8 {
        match self {
            VisualTyreCompound::Unknown => 0,
            VisualTyreCompound::F1Inter => 7,
            VisualTyreCompound::F1Wet => 8,
            VisualTyreCompound::ClassicDry => 9,
            VisualTyreCompound::ClassicWet => 10,
            VisualTyreCompound::F2Wet => 15,
            VisualTyreCompound::F1Soft => 16,
            VisualTyreCompound::F1Medium => 17,
            VisualTyreCompound::F1Hard => 18,
            VisualTyreCompound::F2SuperSoft => 19,
            VisualTyreCompound::F2Soft => 20,
            VisualTyreCompound::F2Medium => 21,
            VisualTyreCompound::F2Hard => 22,
        }
    }

    open spec fn field() -> FieldName {
        FieldName::VisualTyreCompound
    }

    fn field_name() -> FieldName {
        FieldName::VisualTyreCompound
    }

    fn from_code(raw: u8) -> Option<Self> {
        match raw {
            0 => Some(VisualTyreCompound::Unknown),
            7 => Some(VisualTyreCompound::F1Inter),
            8 => Some(VisualTyreCompound::F1Wet),
            9 => Some(VisualTyreCompound::ClassicDry),
            10 => Some(VisualTyreCompound::ClassicWet),
            15 => Some(VisualTyreCompound::F2Wet),
            16 => Some(VisualTyreCompound::F1Soft),
            17 => Some(VisualTyreCompound::F1Medium),
            18 => Some(VisualTyreCompound::F1Hard),
            19 => Some(VisualTyreCompound::F2SuperSoft),
            20 => Some(VisualTyreCompound::F2Soft),
            21 => Some(VisualTyreCompound::F2Medium),
            22 => Some(VisualTyreCompound::F2Hard),
            _ => None,
        }
    }

    fn to_code(self) -> u8 {
        match self {
            VisualTyreCompound::Unknown => 0,
            VisualTyreCompound::F1Inter => 7,
            VisualTyreCompound::F1Wet => 8,
            VisualTyreCompound::ClassicDry => 9,
            VisualTyreCompound::ClassicWet => 10,
            VisualTyreCompound::F2Wet => 15,
            VisualTyreCompound::F1Soft => 16,
            VisualTyreCompound::F1Medium => 17,
            VisualTyreCompound::F1Hard => 18,
            VisualTyreCompound::F2SuperSoft => 19,
            VisualTyreCompound::F2Soft => 20,
            VisualTyreCompound::F2Medium => 21,
            VisualTyreCompound::F2Hard => 22,
        }
    }

    proof fn lemma_codes_differ(a: Self, b: Self) {
    }
}

/// Readiness of a player in an online lobby.
#[non_exhaustive]
#[derive(Debug, Clone, Copy, PartialEq, Eq, PartialOrd, Ord, Hash, Structural)]
pub enum ReadyStatus {
    NotReady,
    Ready,
    Spectating,
}

impl WireCode for ReadyStatus {
    open spec fn code(self) -> u8 {
        match self {
            ReadyStatus::NotReady => 0,
            ReadyStatus::Ready => 1,
            ReadyStatus::Spectating => 2,
        }
    }

    open spec fn field() -> FieldName {
        FieldName::ReadyStatus
    }

    fn field_name() -> FieldName {
        FieldName::ReadyStatus
    }

    fn from_code(raw: u8) -> Option<Self> {
        match raw {
            0 => Some(ReadyStatus::NotReady),
            1 => Some(ReadyStatus::Ready),
            2 => Some(ReadyStatus::Spectating),
            _ => None,
        }
    }

    fn to_code(self) -> u8 {
        match self {
            ReadyStatus::NotReady => 0,
            ReadyStatus::Ready => 1,
            ReadyStatus::Spectating => 2,
        }
    }

    proof fn lemma_codes_differ(a: Self, b: Self) {
    }
}

/// Speed unit used by a player.
#[non_exhaustive]
#[derive(Debug, Clone, Copy, PartialEq, Eq, PartialOrd, Ord, Hash, Structural)]
pub enum SpeedUnit {
    MilesPerHour,
    KilometresPerHour,
}

impl WireCode for SpeedUnit {
    open spec fn code(self) -> u8 {
        match self {
            SpeedUnit::MilesPerHour => 0,
            SpeedUnit::KilometresPerHour => 1,
        }
    }

    open spec fn field() -> FieldName {
        FieldName::SpeedUnit
    }

    fn field_name() -> FieldName {
        FieldName::SpeedUnit
    }

    fn from_code(raw: u8) -> Option<Self> {
        match raw {
            0 => Some(SpeedUnit::MilesPerHour),
            1 => Some(SpeedUnit::KilometresPerHour),
            _ => None,
        }
    }

    fn to_code(self) -> u8 {
        match self {
            SpeedUnit::MilesPerHour => 0,
            SpeedUnit::KilometresPerHour => 1,
        }
    }

    proof fn lemma_codes_differ(a: Self, b: Self) {
    }
}

/// Temperature unit used by a player.
#[non_exhaustive]
#[derive(Debug, Clone, Copy, PartialEq, Eq, PartialOrd, Ord, Hash, Structural)]
pub enum TemperatureUnit {
    Celsius,
    Fahrenheit,
}

impl WireCode for TemperatureUnit {
    open spec fn code(self) -> u8 {
        match self {
            TemperatureUnit::Celsius => 0,
            TemperatureUnit::Fahrenheit => 1,
        }
    }

    open spec fn field() -> FieldName {
        FieldName::TemperatureUnit
    }

    fn field_name() -> FieldName {
        FieldName::TemperatureUnit
    }

    fn from_code(raw: u8) -> Option<Self> {
        match raw {
            0 => Some(TemperatureUnit::Celsius),
            1 => Some(TemperatureUnit::Fahrenheit),
            _ => None,
        }
    }

    fn to_code(self) -> u8 {
        match self {
            TemperatureUnit::Celsius => 0,
            TemperatureUnit::Fahrenheit => 1,
        }
    }

    proof fn lemma_codes_differ(a: Self, b: Self) {
    }
}

/// Console or PC game distribution platform used by a player.
#[non_exhaustive]
#[derive(Debug, Clone, Copy, PartialEq, Eq, PartialOrd, Ord, Hash, Structural)]
pub enum Platform {
    Invalid,
    Steam,
    PlayStation,
    Xbox,
    Origin,
    Unknown,
}

impl WireCode for Platform {
    open spec fn code(self) -> u8 {
        match self {
            Platform::Invalid => 0,
            Platform::Steam => 1,
            Platform::PlayStation => 3,
            Platform::Xbox => 4,
            Platform::Origin => 6,
            Platform::Unknown => 255,
        }
    }

    open spec fn field() -> FieldName {
        FieldName::Platform
    }

    fn field_name() -> FieldName {
        FieldName::Platform
    }

    fn from_code(raw: u8) -> Option<Self> {
        match raw {
            0 => Some(Platform::Invalid),
            1 => Some(Platform::Steam),
            3 => Some(Platform::PlayStation),
            4 => Some(Platform::Xbox),
            6 => Some(Platform::Origin),
            255 => Some(Platform::Unknown),
            _ => None,
        }
    }

    fn to_code(self) -> u8 {
        match self {
            Platform::Invalid => 0,
            Platform::Steam => 1,
            Platform::PlayStation => 3,
            Platform::Xbox => 4,
            Platform::Origin => 6,
            Platform::Unknown => 255,
        }
    }

    proof fn lemma_codes_differ(a: Self, b: Self) {
    }
}

/// Recovery mode assist that's currently enabled.
#[non_exhaustive]
#[derive(Debug, Clone, Copy, PartialEq, Eq, PartialOrd, Ord, Hash, Structural)]
pub enum RecoveryMode {
    NoRecovery,
    Flashbacks,
    AutoRecovery,
}

impl WireCode for RecoveryMode {
    open spec fn code(self) -> u8 {
        match self {
            RecoveryMode::NoRecovery => 0,
            RecoveryMode::Flashbacks => 1,
            RecoveryMode::AutoRecovery => 2,
        }
    }

    open spec fn field() -> FieldName {
        FieldName::RecoveryMode
    }

    fn field_name() -> FieldName {
        FieldName::RecoveryMode
    }

    fn from_code(raw: u8) -> Option<Self> {
        match raw {
            0 => Some(RecoveryMode::NoRecovery),
            1 => Some(RecoveryMode::Flashbacks),
            2 => Some(RecoveryMode::AutoRecovery),
            _ => None,
        }
    }

    fn to_code(self) -> u8 {
        match self {
            RecoveryMode::NoRecovery => 0,
            RecoveryMode::Flashbacks => 1,
            RecoveryMode::AutoRecovery => 2,
        }
    }

    proof fn lemma_codes_differ(a: Self, b: Self) {
    }
}

/// Flashback usage limit that's currently enabled.
#[non_exhaustive]
#[derive(Debug, Clone, Copy, PartialEq, Eq, PartialOrd, Ord, Hash, Structural)]
pub enum FlashbackLimit {
    Low,
    Medium,
    High,
    Unlimited,
}

impl WireCode for FlashbackLimit {
    open spec fn code(self) -> u8 {
        match self {
            FlashbackLimit::Low => 0,
            FlashbackLimit::Medium => 1,
            FlashbackLimit::High => 2,
            FlashbackLimit::Unlimited => 3,
        }
    }

    open spec fn field() -> FieldName {
        FieldName::FlashbackLimit
    }

    fn field_name() -> FieldName {
        FieldName::FlashbackLimit
    }

    fn from_code(raw: u8) -> Option<Self> {
        match raw {
            0 => Some(FlashbackLimit::Low),
            1 => Some(FlashbackLimit::Medium),
            2 => Some(FlashbackLimit::High),
            3 => Some(FlashbackLimit::Unlimited),
            _ => None,
        }
    }

    fn to_code(self) -> u8 {
        match self {
            FlashbackLimit::Low => 0,
            FlashbackLimit::Medium => 1,
            FlashbackLimit::High => 2,
            FlashbackLimit::Unlimited => 3,
        }
    }

    proof fn lemma_codes_differ(a: Self, b: Self) {
    }
}

/// Type of surface simulation that's currently enabled.
#[non_exhaustive]
#[derive(Debug, Clone, Copy, PartialEq, Eq, PartialOrd, Ord, Hash, Structural)]
pub enum SurfaceSimType {
    Simplified,
    Realistic,
}

impl WireCode for SurfaceSimType {
    open spec fn code(self) -> u8 {
        match self {
            SurfaceSimType::Simplified => 0,
            SurfaceSimType::Realistic => 1,
        }
    }

    open spec fn field() -> FieldName {
        FieldName::SurfaceSimType
    }

    fn field_name() -> FieldName {
        FieldName::SurfaceSimType
    }

    fn from_code(raw: u8) -> Option<Self> {
        match raw {
            0 => Some(SurfaceSimType::Simplified),
            1 => Some(SurfaceSimType::Realistic),
            _ => None,
        }
    }

    fn to_code(self) -> u8 {
        match self {
            SurfaceSimType::Simplified => 0,
            SurfaceSimType::Realistic => 1,
        }
    }

    proof fn lemma_codes_differ(a: Self, b: Self) {
    }
}

/// Difficulty of driving with low fuel.
#[non_exhaustive]
#[derive(Debug, Clone, Copy, PartialEq, Eq, PartialOrd, Ord, Hash, Structural)]
pub enum LowFuelMode {
    Easy,
    Hard,
}

impl WireCode for LowFuelMode {
    open spec fn code(self) -> u8 {
        match self {
            LowFuelMode::Easy => 0,
            LowFuelMode::Hard => 1,
        }
    }

    open spec fn field() -> FieldName {
        FieldName::LowFuelMode
    }

    fn field_name() -> FieldName {
        FieldName::LowFuelMode
    }

    fn from_code(raw: u8) -> Option<Self> {
        match raw {
            0 => Some(LowFuelMode::Easy),
            1 => Some(LowFuelMode::Hard),
            _ => None,
        }
    }

    fn to_code(self) -> u8 {
        match self {
            LowFuelMode::Easy => 0,
            LowFuelMode::Hard => 1,
        }
    }

    proof fn lemma_codes_differ(a: Self, b: Self) {
    }
}

/// Race starts assist that's currently in use.
#[non_exhaustive]
#[derive(Debug, Clone, Copy, PartialEq, Eq, PartialOrd, Ord, Hash, Structural)]
pub enum RaceStarts {
    Manual,
    Assisted,
}

impl WireCode for RaceStarts {
    open spec fn code(self) -> u8 {
        match self {
            RaceStarts::Manual => 0,
            RaceStarts::Assisted => 1,
        }
    }

    open spec fn field() -> FieldName {
        FieldName::RaceStarts
    }

    fn field_name() -> FieldName {
        FieldName::RaceStarts
    }

    fn from_code(raw: u8) -> Option<Self> {
        match raw {
            0 => Some(RaceStarts::Manual),
            1 => Some(RaceStarts::Assisted),
            _ => None,
        }
    }

    fn to_code(self) -> u8 {
        match self {
            RaceStarts::Manual => 0,
            RaceStarts::Assisted => 1,
        }
    }

    proof fn lemma_codes_differ(a: Self, b: Self) {
    }
}

/// Type of tyre temperature simulation that's currently in use.
#[non_exhaustive]
#[derive(Debug, Clone, Copy, PartialEq, Eq, PartialOrd, Ord, Hash, Structural)]
pub enum TyreTemperature {
    SurfaceOnly,
    SurfaceAndCarcass,
}

impl WireCode for TyreTemperature {
    open spec fn code(self) -> u8 {
        match self {
            TyreTemperature::SurfaceOnly => 0,
            TyreTemperature::SurfaceAndCarcass => 1,
        }
    }

    open spec fn field() -> FieldName {
        FieldName::TyreTemperature
    }

    fn field_name() -> FieldName {
        FieldName::TyreTemperature
    }

    fn from_code(raw: u8) -> Option<Self> {
        match raw {
            0 => Some(TyreTemperature::SurfaceOnly),
            1 => Some(TyreTemperature::SurfaceAndCarcass),
            _ => None,
        }
    }

    fn to_code(self) -> u8 {
        match self {
            TyreTemperature::SurfaceOnly => 0,
            TyreTemperature::SurfaceAndCarcass => 1,
        }
    }

    proof fn lemma_codes_differ(a: Self, b: Self) {
    }
}

/// Type of car damage simulation that's currently in use.
#[non_exhaustive]
#[derive(Debug, Clone, Copy, PartialEq, Eq, PartialOrd, Ord, Hash, Structural)]
pub enum CarDamage {
    Off,
    Reduced,
    Standard,
    Simulation,
}

impl WireCode for CarDamage {
    open spec fn code(self) -> u8 {
        match self {
            CarDamage::Off => 0,
            CarDamage::Reduced => 1,
            CarDamage::Standard => 2,
            CarDamage::Simulation => 3,
        }
    }

    open spec fn field() -> FieldName {
        FieldName::CarDamage
    }

    fn field_name() -> FieldName {
        FieldName::CarDamage
    }

    fn from_code(raw: u8) -> Option<Self> {
        match raw {
            0 => Some(CarDamage::Off),
            1 => Some(CarDamage::Reduced),
            2 => Some(CarDamage::Standard),
            3 => Some(CarDamage::Simulation),
            _ => None,
        }
    }

    fn to_code(self) -> u8 {
        match self {
            CarDamage::Off => 0,
            CarDamage::Reduced => 1,
            CarDamage::Standard => 2,
            CarDamage::Simulation => 3,
        }
    }

    proof fn lemma_codes_differ(a: Self, b: Self) {
    }
}

/// Car damage severity.
#[non_exhaustive]
#[derive(Debug, Clone, Copy, PartialEq, Eq, PartialOrd, Ord, Hash, Structural)]
pub enum CarDamageRate {
    Reduced,
    Standard,
    Simulation,
}

impl WireCode for CarDamageRate {
    open spec fn code(self) -> u8 {
        match self {
            CarDamageRate::Reduced => 0,
            CarDamageRate::Standard => 1,
            CarDamageRate::Simulation => 2,
        }
    }

    open spec fn field() -> FieldName {
        FieldName::CarDamageRate
    }

    fn field_name() -> FieldName {
        FieldName::CarDamageRate
    }

    fn from_code(raw: u8) -> Option<Self> {
        match raw {
            0 => Some(CarDamageRate::Reduced),
            1 => Some(CarDamageRate::Standard),
            2 => Some(CarDamageRate::Simulation),
            _ => None,
        }
    }

    fn to_code(self) -> u8 {
        match self {
            CarDamageRate::Reduced => 0,
            CarDamageRate::Standard => 1,
            CarDamageRate::Simulation => 2,
        }
    }

    proof fn lemma_codes_differ(a: Self, b: Self) {
    }
}

/// Type of collision simulation that's currently enabled.
#[non_exhaustive]
#[derive(Debug, Clone, Copy, PartialEq, Eq, PartialOrd, Ord, Hash, Structural)]
pub enum Collisions {
    Off,
    PlayerToPlayerOff,
    On,
}

impl WireCode for Collisions {
    open spec fn code(self) -> u8 {
        match self {
            Collisions::Off => 0,
            Collisions::PlayerToPlayerOff => 1,
            Collisions::On => 2,
        }
    }

    open spec fn field() -> FieldName {
        FieldName::Collisions
    }

    fn field_name() -> FieldName {
        FieldName::Collisions
    }

    fn from_code(raw: u8) -> Option<Self> {
        match raw {
            0 => Some(Collisions::Off),
            1 => Some(Collisions::PlayerToPlayerOff),
            2 => Some(Collisions::On),
            _ => None,
        }
    }

    fn to_code(self) -> u8 {
        match self {
            Collisions::Off => 0,
            Collisions::PlayerToPlayerOff => 1,
            Collisions::On => 2,
        }
    }

    proof fn lemma_codes_differ(a: Self, b: Self) {
    }
}

/// Type of corner cutting and track limits punishability.
#[non_exhaustive]
#[derive(Debug, Clone, Copy, PartialEq, Eq, PartialOrd, Ord, Hash, Structural)]
pub enum CornerCuttingStringency {
    Regular,
    Strict,
}

impl WireCode for CornerCuttingStringency {
    open spec fn code(self) -> u8 {
        match self {
            CornerCuttingStringency::Regular => 0,
            CornerCuttingStringency::Strict => 1,
        }
    }

    open spec fn field() -> FieldName {
        FieldName::CornerCuttingStringency
    }

    fn field_name() -> FieldName {
        FieldName::CornerCuttingStringency
    }

    fn from_code(raw: u8) -> Option<Self> {
        match raw {
            0 => Some(CornerCuttingStringency::Regular),
            1 => Some(CornerCuttingStringency::Strict),
            _ => None,
        }
    }

    fn to_code(self) -> u8 {
        match self {
            CornerCuttingStringency::Regular => 0,
            CornerCuttingStringency::Strict => 1,
        }
    }

    proof fn lemma_codes_differ(a: Self, b: Self) {
    }
}

/// The way the game handles pit stops.
#[non_exhaustive]
#[derive(Debug, Clone, Copy, PartialEq, Eq, PartialOrd, Ord, Hash, Structural)]
pub enum PitStopExperience {
    Automatic,
    Broadcast,
    Immersive,
}

impl WireCode for PitStopExperience {
    open spec fn code(self) -> u8 {
        match self {
            PitStopExperience::Automatic => 0,
            PitStopExperience::Broadcast => 1,
            PitStopExperience::Immersive => 2,
        }
    }

    open spec fn field() -> FieldName {
        FieldName::PitStopExperience
    }

    fn field_name() -> FieldName {
        FieldName::PitStopExperience
    }

    fn from_code(raw: u8) -> Option<Self> {
        match raw {
            0 => Some(PitStopExperience::Automatic),
            1 => Some(PitStopExperience::Broadcast),
            2 => Some(PitStopExperience::Immersive),
            _ => None,
        }
    }

    fn to_code(self) -> u8 {
        match self {
            PitStopExperience::Automatic => 0,
            PitStopExperience::Broadcast => 1,
            PitStopExperience::Immersive => 2,
        }
    }

    proof fn lemma_codes_differ(a: Self, b: Self) {
    }
}

/// The likelihood of safety car getting deployed with hazard on track.
#[non_exhaustive]
#[derive(Debug, Clone, Copy, PartialEq, Eq, PartialOrd, Ord, Hash, Structural)]
pub enum SafetyCarIntensity {
    Off,
    Reduced,
    Standard,
    Increased,
}

impl WireCode for SafetyCarIntensity {
    open spec fn code(self) -> u8 {
        match self {
            SafetyCarIntensity::Off => 0,
            SafetyCarIntensity::Reduced => 1,
            SafetyCarIntensity::Standard => 2,
            SafetyCarIntensity::Increased => 3,
        }
    }

    open spec fn field() -> FieldName {
        FieldName::SafetyCarIntensity
    }

    fn field_name() -> FieldName {
        FieldName::SafetyCarIntensity
    }

    fn from_code(raw: u8) -> Option<Self> {
        match raw {
            0 => Some(SafetyCarIntensity::Off),
            1 => Some(SafetyCarIntensity::Reduced),
            2 => Some(SafetyCarIntensity::Standard),
            3 => Some(SafetyCarIntensity::Increased),
            _ => None,
        }
    }

    fn to_code(self) -> u8 {
        match self {
            SafetyCarIntensity::Off => 0,
            SafetyCarIntensity::Reduced => 1,
            SafetyCarIntensity::Standard => 2,
            SafetyCarIntensity::Increased => 3,
        }
    }

    proof fn lemma_codes_differ(a: Self, b: Self) {
    }
}

/// The way the game handles safety car periods.
#[non_exhaustive]
#[derive(Debug, Clone, Copy, PartialEq, Eq, PartialOrd, Ord, Hash, Structural)]
pub enum SafetyCarExperience {
    Broadcast,
    Immersive,
    Unknown,
}

impl WireCode for SafetyCarExperience {
    open spec fn code(self) -> u8 {
        match self {
            SafetyCarExperience::Broadcast => 0,
            SafetyCarExperience::Immersive => 1,
            SafetyCarExperience::Unknown => 255,
        }
    }

    open spec fn field() -> FieldName {
        FieldName::SafetyCarExperience
    }

    fn field_name() -> FieldName {
        FieldName::SafetyCarExperience
    }

    fn from_code(raw: u8) -> Option<Self> {
        match raw {
            0 => Some(SafetyCarExperience::Broadcast),
            1 => Some(SafetyCarExperience::Immersive),
            255 => Some(SafetyCarExperience::Unknown),
            _ => None,
        }
    }

    fn to_code(self) -> u8 {
        match self {
            SafetyCarExperience::Broadcast => 0,
            SafetyCarExperience::Immersive => 1,
            SafetyCarExperience::Unknown => 255,
        }
    }

    proof fn lemma_codes_differ(a: Self, b: Self) {
    }
}

/// The way the game handles formation laps.
#[non_exhaustive]
#[derive(Debug, Clone, Copy, PartialEq, Eq, PartialOrd, Ord, Hash, Structural)]
pub enum FormationLapExperience {
    Broadcast,
    Immersive,
    Unknown,
}

impl WireCode for FormationLapExperience {
    open spec fn code(self) -> u8 {
        match self {
            FormationLapExperience::Broadcast => 0,
            FormationLapExperience::Immersive => 1,
            FormationLapExperience::Unknown => 255,
        }
    }

    open spec fn field() -> FieldName {
        FieldName::FormationLapExperience
    }

    fn field_name() -> FieldName {
        FieldName::FormationLapExperience
    }

    fn from_code(raw: u8) -> Option<Self> {
        match raw {
            0 => Some(FormationLapExperience::Broadcast),
            1 => Some(FormationLapExperience::Immersive),
            255 => Some(FormationLapExperience::Unknown),
            _ => None,
        }
    }

    fn to_code(self) -> u8 {
        match self {
            FormationLapExperience::Broadcast => 0,
            FormationLapExperience::Immersive => 1,
            FormationLapExperience::Unknown => 255,
        }
    }

    proof fn lemma_codes_differ(a: Self, b: Self) {
    }
}

/// The likelihood of the game using a red flag after a serious incident.
#[non_exhaustive]
#[derive(Debug, Clone, Copy, PartialEq, Eq, PartialOrd, Ord, Hash, Structural)]
pub enum RedFlagIntensity {
    Off,
    Reduced,
    Standard,
    Increased,
}

impl WireCode for RedFlagIntensity {
    open spec fn code(self) -> u8 {
        match self {
            RedFlagIntensity::Off => 0,
            RedFlagIntensity::Reduced => 1,
            RedFlagIntensity::Standard => 2,
            RedFlagIntensity::Increased => 3,
        }
    }

    open spec fn field() -> FieldName {
        FieldName::RedFlagIntensity
    }

    fn field_name() -> FieldName {
        FieldName::RedFlagIntensity
    }

    fn from_code(raw: u8) -> Option<Self> {
        match raw {
            0 => Some(RedFlagIntensity::Off),
            1 => Some(RedFlagIntensity::Reduced),
            2 => Some(RedFlagIntensity::Standard),
            3 => Some(RedFlagIntensity::Increased),
            _ => None,
        }
    }

    fn to_code(self) -> u8 {
        match self {
            RedFlagIntensity::Off => 0,
            RedFlagIntensity::Reduced => 1,
            RedFlagIntensity::Standard => 2,
            RedFlagIntensity::Increased => 3,
        }
    }

    proof fn lemma_codes_differ(a: Self, b: Self) {
    }
}

/// Type of safety car being deployed in a `SafetyCar` event.
#[non_exhaustive]
#[derive(Debug, Clone, Copy, PartialEq, Eq, PartialOrd, Ord, Hash, Structural)]
pub enum SafetyCarType {
    NoSafetyCar,
    Full,
    Virtual,
    FormationLap,
}

impl WireCode for SafetyCarType {
    open spec fn code(self) -> u8 {
        match self {
            SafetyCarType::NoSafetyCar => 0,
            SafetyCarType::Full => 1,
            SafetyCarType::Virtual => 2,
            SafetyCarType::FormationLap => 3,
        }
    }

    open spec fn field() -> FieldName {
        FieldName::SafetyCarType
    }

    fn field_name() -> FieldName {
        FieldName::SafetyCarType
    }

    fn from_code(raw: u8) -> Option<Self> {
        match raw {
            0 => Some(SafetyCarType::NoSafetyCar),
            1 => Some(SafetyCarType::Full),
            2 => Some(SafetyCarType::Virtual),
            3 => Some(SafetyCarType::FormationLap),
            _ => None,
        }
    }

    fn to_code(self) -> u8 {
        match self {
            SafetyCarType::NoSafetyCar => 0,
            SafetyCarType::Full => 1,
            SafetyCarType::Virtual => 2,
            SafetyCarType::FormationLap => 3,
        }
    }

    proof fn lemma_codes_differ(a: Self, b: Self) {
    }
}

/// Type of `SafetyCar` event.
#[non_exhaustive]
#[derive(Debug, Clone, Copy, PartialEq, Eq, PartialOrd, Ord, Hash, Structural)]
pub enum SafetyCarEventType {
    Deployed,
    Returning,
    Returned,
    ResumeRace,
}

impl WireCode for SafetyCarEventType {
    open spec fn code(self) -> u8 {
        match self {
            SafetyCarEventType::Deployed => 0,
            SafetyCarEventType::Returning => 1,
            SafetyCarEventType::Returned => 2,
            SafetyCarEventType::ResumeRace => 3,
        }
    }

    open spec fn field() -> FieldName {
        FieldName::SafetyCarEventType
    }

    fn field_name() -> FieldName {
        FieldName::SafetyCarEventType
    }

    fn from_code(raw: u8) -> Option<Self> {
        match raw {
            0 => Some(SafetyCarEventType::Deployed),
            1 => Some(SafetyCarEventType::Returning),
            2 => Some(SafetyCarEventType::Returned),
            3 => Some(SafetyCarEventType::ResumeRace),
            _ => None,
        }
    }

    fn to_code(self) -> u8 {
        match self {
            SafetyCarEventType::Deployed => 0,
            SafetyCarEventType::Returning => 1,
            SafetyCarEventType::Returned => 2,
            SafetyCarEventType::ResumeRace => 3,
        }
    }

    proof fn lemma_codes_differ(a: Self, b: Self) {
    }
}

} // verus!
