//! What can be wrong with a datagram.

use vstd::prelude::*;

verus! {

/// A field, or a table of codes, whose value a decoder tests.
#[derive(Debug, Clone, Copy, PartialEq, Eq, Hash, Structural)]
pub enum FieldName {
    /// Index of the player's car in the header.
    PlayerCarIndex,
    /// Number of marshal zones of a session.
    NumMarshalZones,
    /// Start of a marshal zone, as a fraction of the lap.
    ZoneStart,
    /// Number of weather forecast samples of a session.
    NumWeatherForecastSamples,
    /// Chance of rain in a forecast sample.
    RainPercentage,
    /// AI difficulty of a session.
    AiDifficulty,
    /// Number of sessions in a race weekend.
    NumSessionsInWeekend,
    /// Number of active cars among the participants.
    NumActiveCars,
    /// Differential adjustment on throttle in a car setup.
    OnThrottle,
    /// Differential adjustment off throttle in a car setup.
    OffThrottle,
    /// Brake pressure in a car setup.
    BrakePressure,
    /// Amount of throttle applied.
    Throttle,
    /// Steering lock.
    Steer,
    /// Amount of brake applied.
    Brake,
    /// Amount of clutch applied.
    Clutch,
    /// Selected gear.
    Gear,
    /// Rev lights indicator.
    RevLightsPercent,
    /// Suggested gear.
    SuggestedGear,
    /// Number of gears of a car.
    MaxGears,
    /// Number of cars in the final classification.
    NumClassifiedCars,
    /// Number of tyre stints of a classified car.
    NumClassifiedTyreStints,
    /// Number of players in a lobby.
    NumPlayers,
    /// Car that a session history is about.
    HistoryVehicleIndex,
    /// Number of laps in a session history.
    NumLaps,
    /// Number of tyre stints in a session history.
    NumTyreStints,
    /// Wear of a tyre set.
    Wear,
    /// Index of the fitted tyre set.
    FittedIndex,
    /// Car that a time trial data set is about.
    TimeTrialVehicleIndex,
    /// Car in a fastest lap event.
    FastestLapVehicleIndex,
    /// Car in a retirement event.
    RetirementVehicleIndex,
    /// Car in a teammate in pits event.
    TeamMateInPitsVehicleIndex,
    /// Car in a race winner event.
    RaceWinnerVehicleIndex,
    /// Penalised car in a penalty event.
    PenaltyVehicleIndex,
    /// Car that triggered a speed trap.
    SpeedTrapVehicleIndex,
    /// Fastest car of the session in a speed trap event.
    SpeedTrapFastestVehicleIndex,
    /// Car in a drive-through served event.
    DriveThroughServedVehicleIndex,
    /// Car in a stop-go served event.
    StopGoServedVehicleIndex,
    /// Overtaking car in an overtake event.
    OvertakingVehicleIndex,
    /// Overtaken car in an overtake event.
    OvertakenVehicleIndex,
    /// First car in a collision event.
    CollisionVehicleIndex,
    /// Second car in a collision event.
    CollisionOtherVehicleIndex,
    /// A byte that stands for a [`PacketId`](crate::constants::PacketId).
    PacketId,
    /// A byte that stands for a [`MarshalZoneFlag`](crate::constants::MarshalZoneFlag).
    MarshalZoneFlag,
    /// A byte that stands for a [`Weather`](crate::constants::Weather).
    Weather,
    /// A byte that stands for a [`TemperatureChange`](crate::constants::TemperatureChange).
    TemperatureChange,
    /// A byte that stands for a [`TrackId`](crate::constants::TrackId).
    TrackId,
    /// A byte that stands for a [`Formula`](crate::constants::Formula).
    Formula,
    /// A byte that stands for a [`SafetyCarStatus`](crate::constants::SafetyCarStatus).
    SafetyCarStatus,
    /// A byte that stands for a [`ForecastAccuracy`](crate::constants::ForecastAccuracy).
    ForecastAccuracy,
    /// A byte that stands for a [`BrakingAssist`](crate::constants::BrakingAssist).
    BrakingAssist,
    /// A byte that stands for a [`GearboxAssist`](crate::constants::GearboxAssist).
    GearboxAssist,
    /// A byte that stands for a [`DynamicRacingLine`](crate::constants::DynamicRacingLine).
    DynamicRacingLine,
    /// A byte that stands for a [`DynamicRacingLineType`](crate::constants::DynamicRacingLineType).
    DynamicRacingLineType,
    /// A byte that stands for a [`GameMode`](crate::constants::GameMode).
    GameMode,
    /// A byte that stands for a [`RuleSet`](crate::constants::RuleSet).
    RuleSet,
    /// A byte that stands for a [`SessionLength`](crate::constants::SessionLength).
    SessionLength,
    /// A byte that stands for a [`PitStatus`](crate::constants::PitStatus).
    PitStatus,
    /// A byte that stands for a [`Sector`](crate::constants::Sector).
    Sector,
    /// A byte that stands for a [`DriverStatus`](crate::constants::DriverStatus).
    DriverStatus,
    /// A byte that stands for a [`ResultStatus`](crate::constants::ResultStatus).
    ResultStatus,
    /// A byte that stands for a [`PenaltyType`](crate::constants::PenaltyType).
    PenaltyType,
    /// A byte that stands for a [`InfringementType`](crate::constants::InfringementType).
    InfringementType,
    /// A byte that stands for a [`Nationality`](crate::constants::Nationality).
    Nationality,
    /// A byte that stands for a [`YourTelemetry`](crate::constants::YourTelemetry).
    YourTelemetry,
    /// A byte that stands for a [`Surface`](crate::constants::Surface).
    Surface,
    /// A byte that stands for a [`MfdPanelIndex`](crate::constants::MfdPanelIndex).
    MfdPanelIndex,
    /// A byte that stands for a [`TractionControl`](crate::constants::TractionControl).
    TractionControl,
    /// A byte that stands for a [`FuelMix`](crate::constants::FuelMix).
    FuelMix,
    /// A byte that stands for a [`ErsDeployMode`](crate::constants::ErsDeployMode).
    ErsDeployMode,
    /// A byte that stands for a [`VehicleFiaFlag`](crate::constants::VehicleFiaFlag).
    VehicleFiaFlag,
    /// A byte that stands for a [`DrsAllowed`](crate::constants::DrsAllowed).
    DrsAllowed,
    /// A byte that stands for a [`ActualTyreCompound`](crate::constants::ActualTyreCompound).
    ActualTyreCompound,
    /// A byte that stands for a [`VisualTyreCompound`](crate::constants::VisualTyreCompound).
    VisualTyreCompound,
    /// A byte that stands for a [`ReadyStatus`](crate::constants::ReadyStatus).
    ReadyStatus,
    /// A byte that stands for a [`SpeedUnit`](crate::constants::SpeedUnit).
    SpeedUnit,
    /// A byte that stands for a [`TemperatureUnit`](crate::constants::TemperatureUnit).
    TemperatureUnit,
    /// A byte that stands for a [`Platform`](crate::constants::Platform).
    Platform,
    /// A byte that stands for a [`RecoveryMode`](crate::constants::RecoveryMode).
    RecoveryMode,
    /// A byte that stands for a [`FlashbackLimit`](crate::constants::FlashbackLimit).
    FlashbackLimit,
    /// A byte that stands for a [`SurfaceSimType`](crate::constants::SurfaceSimType).
    SurfaceSimType,
    /// A byte that stands for a [`LowFuelMode`](crate::constants::LowFuelMode).
    LowFuelMode,
    /// A byte that stands for a [`RaceStarts`](crate::constants::RaceStarts).
    RaceStarts,
    /// A byte that stands for a [`TyreTemperature`](crate::constants::TyreTemperature).
    TyreTemperature,
    /// A byte that stands for a [`CarDamage`](crate::constants::CarDamage).
    CarDamage,
    /// A byte that stands for a [`CarDamageRate`](crate::constants::CarDamageRate).
    CarDamageRate,
    /// A byte that stands for a [`Collisions`](crate::constants::Collisions).
    Collisions,
    /// A byte that stands for a [`CornerCuttingStringency`](crate::constants::CornerCuttingStringency).
    CornerCuttingStringency,
    /// A byte that stands for a [`PitStopExperience`](crate::constants::PitStopExperience).
    PitStopExperience,
    /// A byte that stands for a [`SafetyCarIntensity`](crate::constants::SafetyCarIntensity).
    SafetyCarIntensity,
    /// A byte that stands for a [`SafetyCarExperience`](crate::constants::SafetyCarExperience).
    SafetyCarExperience,
    /// A byte that stands for a [`FormationLapExperience`](crate::constants::FormationLapExperience).
    FormationLapExperience,
    /// A byte that stands for a [`RedFlagIntensity`](crate::constants::RedFlagIntensity).
    RedFlagIntensity,
    /// A byte that stands for a [`SafetyCarType`](crate::constants::SafetyCarType).
    SafetyCarType,
    /// A byte that stands for a [`SafetyCarEventType`](crate::constants::SafetyCarEventType).
    SafetyCarEventType,
}

/// Why a datagram was rejected. Every offset counts bytes from the start of
/// the datagram.
#[derive(Debug, Clone, Copy, PartialEq, Eq, Hash, Structural)]
pub enum DecodeError {
    /// Fewer bytes remain at `offset` than the next read needs.
    EndOfData { offset: usize },
    /// The header that starts at `offset` names a format other than 2022,
    /// 2023 and 2024.
    UnsupportedFormat { format: u16, offset: usize },
    /// The byte at `offset` is the identifier of no packet type.
    UnknownPacketId { id: u8, offset: usize },
    /// The four bytes at `offset`, taken as a little-endian number, are the
    /// code of no event.
    UnknownEventCode { code: u32, offset: usize },
    /// `value` lies outside the range of `field`. For a table of codes,
    /// `offset` is where the byte stands; for any other field it is where the
    /// record that holds the field starts, or where the code of the event
    /// stands. A number with a fraction is reported by its bit pattern.
    FieldOutOfRange { field: FieldName, value: i64, offset: usize },
    /// The byte at `offset` should be 0 or 1.
    InvalidBool { byte: u8, offset: usize },
    /// The text that starts at `offset` is not UTF-8.
    MalformedText { offset: usize },
    /// The record that starts at `offset` announces more entries in `field`
    /// than the format has room for.
    CountExceedsCapacity { field: FieldName, count: usize, capacity: usize, offset: usize },
}

impl FieldName {
    /// What is wrong when this field is out of range, in words.
    pub open spec fn complaint(self) -> Seq<char> {
        match self {
            FieldName::PlayerCarIndex => "Header has an invalid player 1 car index"@,
            FieldName::NumMarshalZones => "Session packet has an invalid number of marshal zones"@,
            FieldName::ZoneStart => "Marshal zone has an invalid zone start value"@,
            FieldName::NumWeatherForecastSamples => "Session packet has an invalid number of weather forecast samples"@,
            FieldName::RainPercentage => "Weather forecast sample has an invalid rain percentage value"@,
            FieldName::AiDifficulty => "Session packet has an invalid AI difficulty value"@,
            FieldName::NumSessionsInWeekend => "Session packet has an invalid number of sessions in a weekend"@,
            FieldName::NumActiveCars => "Participants packet has an invalid number of cars"@,
            FieldName::OnThrottle => "Car setup entry has an invalid on-throttle percentage value"@,
            FieldName::OffThrottle => "Car setup entry has an invalid off-throttle percentage value"@,
            FieldName::BrakePressure => "Car setup entry has an invalid brake pressure percentage value"@,
            FieldName::Throttle => "Car telemetry entry has an invalid throttle value"@,
            FieldName::Steer => "Car telemetry entry has an invalid steering lock value"@,
            FieldName::Brake => "Car telemetry entry has an invalid brake value"@,
            FieldName::Clutch => "Car telemetry entry has an invalid clutch value"@,
            FieldName::Gear => "Car telemetry entry has an invalid gear value"@,
            FieldName::RevLightsPercent => "Car telemetry entry has an invalid rev lights percentage"@,
            FieldName::SuggestedGear => "Car telemetry entry has an invalid suggested gear value"@,
            FieldName::MaxGears => "Car status entry has an invalid max number of gears"@,
            FieldName::NumClassifiedCars => "Final classification packet has an invalid number of cars"@,
            FieldName::NumClassifiedTyreStints => "Final classification entry has an invalid number of tyre stints"@,
            FieldName::NumPlayers => "Lobby packet has an invalid number of players"@,
            FieldName::HistoryVehicleIndex => "Session history packet has an invalid vehicle index"@,
            FieldName::NumLaps => "Session history packet has an invalid number of laps"@,
            FieldName::NumTyreStints => "Session history packet has an invalid number of tyre stints"@,
            FieldName::Wear => "Tyre set entry has an invalid wear percentage"@,
            FieldName::FittedIndex => "Tyre sets packet has an invalid fitted set index"@,
            FieldName::TimeTrialVehicleIndex => "Time trial data set has an invalid vehicle index"@,
            FieldName::FastestLapVehicleIndex => "Fastest lap event has an invalid vehicle index"@,
            FieldName::RetirementVehicleIndex => "Retirement event has an invalid vehicle index"@,
            FieldName::TeamMateInPitsVehicleIndex => "Teammate in pits event has an invalid vehicle index"@,
            FieldName::RaceWinnerVehicleIndex => "Race winner event has an invalid vehicle index"@,
            FieldName::PenaltyVehicleIndex => "Penalty event has an invalid vehicle index"@,
            FieldName::SpeedTrapVehicleIndex => "Speed trap event has an invalid vehicle index"@,
            FieldName::SpeedTrapFastestVehicleIndex => "Speed trap event has an invalid fastest vehicle index"@,
            FieldName::DriveThroughServedVehicleIndex => "Drive-through served event has an invalid vehicle index"@,
            FieldName::StopGoServedVehicleIndex => "Stop-go served event has an invalid vehicle index"@,
            FieldName::OvertakingVehicleIndex => "Overtake event has an invalid overtaking vehicle index"@,
            FieldName::OvertakenVehicleIndex => "Overtake event has an invalid overtaken vehicle index"@,
            FieldName::CollisionVehicleIndex => "Collision event has an invalid vehicle index"@,
            FieldName::CollisionOtherVehicleIndex => "Collision event has an invalid other vehicle index"@,
            FieldName::PacketId => "Invalid packet id value"@,
            FieldName::MarshalZoneFlag => "Invalid marshal zone flag value"@,
            FieldName::Weather => "Invalid weather value"@,
            FieldName::TemperatureChange => "Invalid temperature change value"@,
            FieldName::TrackId => "Invalid track id value"@,
            FieldName::Formula => "Invalid formula value"@,
            FieldName::SafetyCarStatus => "Invalid safety car status value"@,
            FieldName::ForecastAccuracy => "Invalid forecast accuracy value"@,
            FieldName::BrakingAssist => "Invalid braking assist value"@,
            FieldName::GearboxAssist => "Invalid gearbox assist value"@,
            FieldName::DynamicRacingLine => "Invalid dynamic racing line value"@,
            FieldName::DynamicRacingLineType => "Invalid dynamic racing line type value"@,
            FieldName::GameMode => "Invalid game mode value"@,
            FieldName::RuleSet => "Invalid rule set value"@,
            FieldName::SessionLength => "Invalid session length value"@,
            FieldName::PitStatus => "Invalid pit status value"@,
            FieldName::Sector => "Invalid sector value"@,
            FieldName::DriverStatus => "Invalid driver status value"@,
            FieldName::ResultStatus => "Invalid result status value"@,
            FieldName::PenaltyType => "Invalid penalty type value"@,
            FieldName::InfringementType => "Invalid infringement type value"@,
            FieldName::Nationality => "Invalid nationality value"@,
            FieldName::YourTelemetry => "Invalid your telemetry value"@,
            FieldName::Surface => "Invalid surface value"@,
            FieldName::MfdPanelIndex => "Invalid mfd panel index value"@,
            FieldName::TractionControl => "Invalid traction control value"@,
            FieldName::FuelMix => "Invalid fuel mix value"@,
            FieldName::ErsDeployMode => "Invalid ers deploy mode value"@,
            FieldName::VehicleFiaFlag => "Invalid vehicle fia flag value"@,
            FieldName::DrsAllowed => "Invalid drs allowed value"@,
            FieldName::ActualTyreCompound => "Invalid actual tyre compound value"@,
            FieldName::VisualTyreCompound => "Invalid visual tyre compound value"@,
            FieldName::ReadyStatus => "Invalid ready status value"@,
            FieldName::SpeedUnit => "Invalid speed unit value"@,
            FieldName::TemperatureUnit => "Invalid temperature unit value"@,
            FieldName::Platform => "Invalid platform value"@,
            FieldName::RecoveryMode => "Invalid recovery mode value"@,
            FieldName::FlashbackLimit => "Invalid flashback limit value"@,
            FieldName::SurfaceSimType => "Invalid surface sim type value"@,
            FieldName::LowFuelMode => "Invalid low fuel mode value"@,
            FieldName::RaceStarts => "Invalid race starts value"@,
            FieldName::TyreTemperature => "Invalid tyre temperature value"@,
            FieldName::CarDamage => "Invalid car damage value"@,
            FieldName::CarDamageRate => "Invalid car damage rate value"@,
            FieldName::Collisions => "Invalid collisions value"@,
            FieldName::CornerCuttingStringency => "Invalid corner cutting stringency value"@,
            FieldName::PitStopExperience => "Invalid pit stop experience value"@,
            FieldName::SafetyCarIntensity => "Invalid safety car intensity value"@,
            FieldName::SafetyCarExperience => "Invalid safety car experience value"@,
            FieldName::FormationLapExperience => "Invalid formation lap experience value"@,
            FieldName::RedFlagIntensity => "Invalid red flag intensity value"@,
            FieldName::SafetyCarType => "Invalid safety car type value"@,
            FieldName::SafetyCarEventType => "Invalid safety car event type value"@,
        }
    }

    /// What is wrong when this field is out of range, in words.
    pub fn complain(self) -> (text: String)
        ensures
            text@ == self.complaint(),
    {
        match self {
            FieldName::PlayerCarIndex => String::from_str("Header has an invalid player 1 car index"),
            FieldName::NumMarshalZones => String::from_str("Session packet has an invalid number of marshal zones"),
            FieldName::ZoneStart => String::from_str("Marshal zone has an invalid zone start value"),
            FieldName::NumWeatherForecastSamples => String::from_str("Session packet has an invalid number of weather forecast samples"),
            FieldName::RainPercentage => String::from_str("Weather forecast sample has an invalid rain percentage value"),
            FieldName::AiDifficulty => String::from_str("Session packet has an invalid AI difficulty value"),
            FieldName::NumSessionsInWeekend => String::from_str("Session packet has an invalid number of sessions in a weekend"),
            FieldName::NumActiveCars => String::from_str("Participants packet has an invalid number of cars"),
            FieldName::OnThrottle => String::from_str("Car setup entry has an invalid on-throttle percentage value"),
            FieldName::OffThrottle => String::from_str("Car setup entry has an invalid off-throttle percentage value"),
            FieldName::BrakePressure => String::from_str("Car setup entry has an invalid brake pressure percentage value"),
            FieldName::Throttle => String::from_str("Car telemetry entry has an invalid throttle value"),
            FieldName::Steer => String::from_str("Car telemetry entry has an invalid steering lock value"),
            FieldName::Brake => String::from_str("Car telemetry entry has an invalid brake value"),
            FieldName::Clutch => String::from_str("Car telemetry entry has an invalid clutch value"),
            FieldName::Gear => String::from_str("Car telemetry entry has an invalid gear value"),
            FieldName::RevLightsPercent => String::from_str("Car telemetry entry has an invalid rev lights percentage"),
            FieldName::SuggestedGear => String::from_str("Car telemetry entry has an invalid suggested gear value"),
            FieldName::MaxGears => String::from_str("Car status entry has an invalid max number of gears"),
            FieldName::NumClassifiedCars => String::from_str("Final classification packet has an invalid number of cars"),
            FieldName::NumClassifiedTyreStints => String::from_str("Final classification entry has an invalid number of tyre stints"),
            FieldName::NumPlayers => String::from_str("Lobby packet has an invalid number of players"),
            FieldName::HistoryVehicleIndex => String::from_str("Session history packet has an invalid vehicle index"),
            FieldName::NumLaps => String::from_str("Session history packet has an invalid number of laps"),
            FieldName::NumTyreStints => String::from_str("Session history packet has an invalid number of tyre stints"),
            FieldName::Wear => String::from_str("Tyre set entry has an invalid wear percentage"),
            FieldName::FittedIndex => String::from_str("Tyre sets packet has an invalid fitted set index"),
            FieldName::TimeTrialVehicleIndex => String::from_str("Time trial data set has an invalid vehicle index"),
            FieldName::FastestLapVehicleIndex => String::from_str("Fastest lap event has an invalid vehicle index"),
            FieldName::RetirementVehicleIndex => String::from_str("Retirement event has an invalid vehicle index"),
            FieldName::TeamMateInPitsVehicleIndex => String::from_str("Teammate in pits event has an invalid vehicle index"),
            FieldName::RaceWinnerVehicleIndex => String::from_str("Race winner event has an invalid vehicle index"),
            FieldName::PenaltyVehicleIndex => String::from_str("Penalty event has an invalid vehicle index"),
            FieldName::SpeedTrapVehicleIndex => String::from_str("Speed trap event has an invalid vehicle index"),
            FieldName::SpeedTrapFastestVehicleIndex => String::from_str("Speed trap event has an invalid fastest vehicle index"),
            FieldName::DriveThroughServedVehicleIndex => String::from_str("Drive-through served event has an invalid vehicle index"),
            FieldName::StopGoServedVehicleIndex => String::from_str("Stop-go served event has an invalid vehicle index"),
            FieldName::OvertakingVehicleIndex => String::from_str("Overtake event has an invalid overtaking vehicle index"),
            FieldName::OvertakenVehicleIndex => String::from_str("Overtake event has an invalid overtaken vehicle index"),
            FieldName::CollisionVehicleIndex => String::from_str("Collision event has an invalid vehicle index"),
            FieldName::CollisionOtherVehicleIndex => String::from_str("Collision event has an invalid other vehicle index"),
            FieldName::PacketId => String::from_str("Invalid packet id value"),
            FieldName::MarshalZoneFlag => String::from_str("Invalid marshal zone flag value"),
            FieldName::Weather => String::from_str("Invalid weather value"),
            FieldName::TemperatureChange => String::from_str("Invalid temperature change value"),
            FieldName::TrackId => String::from_str("Invalid track id value"),
            FieldName::Formula => String::from_str("Invalid formula value"),
            FieldName::SafetyCarStatus => String::from_str("Invalid safety car status value"),
            FieldName::ForecastAccuracy => String::from_str("Invalid forecast accuracy value"),
            FieldName::BrakingAssist => String::from_str("Invalid braking assist value"),
            FieldName::GearboxAssist => String::from_str("Invalid gearbox assist value"),
            FieldName::DynamicRacingLine => String::from_str("Invalid dynamic racing line value"),
            FieldName::DynamicRacingLineType => String::from_str("Invalid dynamic racing line type value"),
            FieldName::GameMode => String::from_str("Invalid game mode value"),
            FieldName::RuleSet => String::from_str("Invalid rule set value"),
            FieldName::SessionLength => String::from_str("Invalid session length value"),
            FieldName::PitStatus => String::from_str("Invalid pit status value"),
            FieldName::Sector => String::from_str("Invalid sector value"),
            FieldName::DriverStatus => String::from_str("Invalid driver status value"),
            FieldName::ResultStatus => String::from_str("Invalid result status value"),
            FieldName::PenaltyType => String::from_str("Invalid penalty type value"),
            FieldName::InfringementType => String::from_str("Invalid infringement type value"),
            FieldName::Nationality => String::from_str("Invalid nationality value"),
            FieldName::YourTelemetry => String::from_str("Invalid your telemetry value"),
            FieldName::Surface => String::from_str("Invalid surface value"),
            FieldName::MfdPanelIndex => String::from_str("Invalid mfd panel index value"),
            FieldName::TractionControl => String::from_str("Invalid traction control value"),
            FieldName::FuelMix => String::from_str("Invalid fuel mix value"),
            FieldName::ErsDeployMode => String::from_str("Invalid ers deploy mode value"),
            FieldName::VehicleFiaFlag => String::from_str("Invalid vehicle fia flag value"),
            FieldName::DrsAllowed => String::from_str("Invalid drs allowed value"),
            FieldName::ActualTyreCompound => String::from_str("Invalid actual tyre compound value"),
            FieldName::VisualTyreCompound => String::from_str("Invalid visual tyre compound value"),
            FieldName::ReadyStatus => String::from_str("Invalid ready status value"),
            FieldName::SpeedUnit => String::from_str("Invalid speed unit value"),
            FieldName::TemperatureUnit => String::from_str("Invalid temperature unit value"),
            FieldName::Platform => String::from_str("Invalid platform value"),
            FieldName::RecoveryMode => String::from_str("Invalid recovery mode value"),
            FieldName::FlashbackLimit => String::from_str("Invalid flashback limit value"),
            FieldName::SurfaceSimType => String::from_str("Invalid surface sim type value"),
            FieldName::LowFuelMode => String::from_str("Invalid low fuel mode value"),
            FieldName::RaceStarts => String::from_str("Invalid race starts value"),
            FieldName::TyreTemperature => String::from_str("Invalid tyre temperature value"),
            FieldName::CarDamage => String::from_str("Invalid car damage value"),
            FieldName::CarDamageRate => String::from_str("Invalid car damage rate value"),
            FieldName::Collisions => String::from_str("Invalid collisions value"),
            FieldName::CornerCuttingStringency => String::from_str("Invalid corner cutting stringency value"),
            FieldName::PitStopExperience => String::from_str("Invalid pit stop experience value"),
            FieldName::SafetyCarIntensity => String::from_str("Invalid safety car intensity value"),
            FieldName::SafetyCarExperience => String::from_str("Invalid safety car experience value"),
            FieldName::FormationLapExperience => String::from_str("Invalid formation lap experience value"),
            FieldName::RedFlagIntensity => String::from_str("Invalid red flag intensity value"),
            FieldName::SafetyCarType => String::from_str("Invalid safety car type value"),
            FieldName::SafetyCarEventType => String::from_str("Invalid safety car event type value"),
        }
    }
}

/// The character for a digit below sixteen.
pub open spec fn digit(d: nat) -> char {
    if d < 10 {
        (48 + d) as u8 as char
    } else {
        (87 + d) as u8 as char
    }
}

/// The decimal digits of `n`, the most significant one first.
pub open spec fn decimal_digits(n: nat) -> Seq<char>
    decreases n,
{
    if n < 10 {
        seq![digit(n)]
    } else {
        decimal_digits(n / 10).push(digit(n % 10))
    }
}

/// `value` in decimal, with a minus sign if it is negative.
pub open spec fn decimal(value: int) -> Seq<char> {
    if value < 0 {
        seq!['-'] + decimal_digits((-value) as nat)
    } else {
        decimal_digits(value as nat)
    }
}

/// `value` in hexadecimal, with small letters, the most significant digit
/// first.
pub open spec fn hexadecimal(value: nat) -> Seq<char>
    decreases value,
{
    if value < 16 {
        seq![digit(value)]
    } else {
        hexadecimal(value / 16).push(digit(value % 16))
    }
}

/// Formatting with `{}`: a number in decimal, without padding, with a minus
/// sign if it is negative.
#[verifier::external_body]
fn format_decimal(value: i128) -> (text: String)
    ensures
        text@ == decimal(value as int),
{
    format!("{}", value)
}

/// Formatting with `{:x}`: a number in hexadecimal, without padding or
/// prefix, with small letters.
#[verifier::external_body]
fn format_hexadecimal(value: usize) -> (text: String)
    ensures
        text@ == hexadecimal(value as nat),
{
    format!("{:x}", value)
}

impl DecodeError {
    /// Where the error was found.
    pub open spec fn place(self) -> usize {
        match self {
            DecodeError::EndOfData { offset } => offset,
            DecodeError::UnsupportedFormat { offset, .. } => offset,
            DecodeError::UnknownPacketId { offset, .. } => offset,
            DecodeError::UnknownEventCode { offset, .. } => offset,
            DecodeError::FieldOutOfRange { offset, .. } => offset,
            DecodeError::InvalidBool { offset, .. } => offset,
            DecodeError::MalformedText { offset } => offset,
            DecodeError::CountExceedsCapacity { offset, .. } => offset,
        }
    }

    /// Where the error was found.
    pub fn offset(&self) -> (offset: usize)
        ensures
            offset == self.place(),
    {
        match self {
            DecodeError::EndOfData { offset } => *offset,
            DecodeError::UnsupportedFormat { offset, .. } => *offset,
            DecodeError::UnknownPacketId { offset, .. } => *offset,
            DecodeError::UnknownEventCode { offset, .. } => *offset,
            DecodeError::FieldOutOfRange { offset, .. } => *offset,
            DecodeError::InvalidBool { offset, .. } => *offset,
            DecodeError::MalformedText { offset } => *offset,
            DecodeError::CountExceedsCapacity { offset, .. } => *offset,
        }
    }

    /// What is wrong, without the place: words, and the value that was found.
    pub open spec fn complaint(self) -> Seq<char> {
        match self {
            DecodeError::EndOfData { .. } => "Unexpected end of data"@,
            DecodeError::UnsupportedFormat { format, .. } => "Invalid or unsupported packet format: "@
                + decimal(format as int),
            DecodeError::UnknownPacketId { id, .. } => "Unknown packet ID: "@ + decimal(id as int),
            DecodeError::UnknownEventCode { code, .. } => "Unknown event code: 0x"@ + hexadecimal(
                code as nat,
            ),
            DecodeError::FieldOutOfRange { field, value, .. } => field.complaint() + ": "@ + decimal(
                value as int,
            ),
            DecodeError::InvalidBool { byte, .. } => "Invalid bool value: "@ + decimal(byte as int),
            DecodeError::MalformedText { .. } => "Text is not valid UTF-8"@,
            DecodeError::CountExceedsCapacity { field, count, .. } => field.complaint() + ": "@ + decimal(
                count as int,
            ),
        }
    }

    /// The text of the error: what is wrong, then ` at 0x` and the offset in
    /// hexadecimal.
    pub open spec fn text(self) -> Seq<char> {
        self.complaint() + " at 0x"@ + hexadecimal(self.place() as nat)
    }

    /// The text of the error, for a reader.
    pub fn message(&self) -> (text: String)
        ensures
            text@ == self.text(),
    {
        let complaint: String = match self {
            DecodeError::EndOfData { .. } => String::from_str("Unexpected end of data"),
            DecodeError::UnsupportedFormat { format, .. } => {
                let number: String = format_decimal(*format as i128);
                String::from_str("Invalid or unsupported packet format: ").concat(number.as_str())
            },
            DecodeError::UnknownPacketId { id, .. } => {
                let number: String = format_decimal(*id as i128);
                String::from_str("Unknown packet ID: ").concat(number.as_str())
            },
            DecodeError::UnknownEventCode { code, .. } => {
                let number: String = format_hexadecimal(*code as usize);
                String::from_str("Unknown event code: 0x").concat(number.as_str())
            },
            DecodeError::FieldOutOfRange { field, value, .. } => {
                let number: String = format_decimal(*value as i128);
                field.complain().concat(": ").concat(number.as_str())
            },
            DecodeError::InvalidBool { byte, .. } => {
                let number: String = format_decimal(*byte as i128);
                String::from_str("Invalid bool value: ").concat(number.as_str())
            },
            DecodeError::MalformedText { .. } => String::from_str("Text is not valid UTF-8"),
            DecodeError::CountExceedsCapacity { field, count, .. } => {
                let number: String = format_decimal(*count as i128);
                field.complain().concat(": ").concat(number.as_str())
            },
        };
        let place: String = format_hexadecimal(self.offset());
        complaint.concat(" at 0x").concat(place.as_str())
    }
}

} // verus!
