//! The session packet: weather, track, rules and assists of the session in progress.

use vstd::prelude::*;
use crate::constants::BrakingAssist;
use crate::constants::CarDamage;
use crate::constants::CarDamageRate;
use crate::constants::Collisions;
use crate::constants::CornerCuttingStringency;
use crate::constants::DynamicRacingLine;
use crate::constants::DynamicRacingLineType;
use crate::constants::FlashbackLimit;
use crate::constants::ForecastAccuracy;
use crate::constants::FormationLapExperience;
use crate::constants::Formula;
use crate::constants::GameMode;
use crate::constants::GearboxAssist;
use crate::constants::LowFuelMode;
use crate::constants::MarshalZoneFlag;
use crate::constants::PitStopExperience;
use crate::constants::RaceStarts;
use crate::constants::RecoveryMode;
use crate::constants::RedFlagIntensity;
use crate::constants::RuleSet;
use crate::constants::SafetyCarExperience;
use crate::constants::SafetyCarIntensity;
use crate::constants::SafetyCarStatus;
use crate::constants::SessionLength;
use crate::constants::SpeedUnit;
use crate::constants::SurfaceSimType;
use crate::constants::TemperatureChange;
use crate::constants::TemperatureUnit;
use crate::constants::TrackId;
use crate::constants::TyreTemperature;
use crate::constants::Weather;
use crate::cursor::ByteCursor;
use crate::decode::Decode;
use crate::decode::decode_list;
use crate::decode::decode_padded;
use crate::decode::decoded_padded;
use crate::decode::follows_view;
use crate::decode::has_width;
use crate::error::DecodeError;
use crate::error::FieldName;
use crate::wire::F32Bits;
use crate::wire::Wire;

verus! {

/// Room for marshal zones in a session packet.
pub const MAX_NUM_MARSHAL_ZONES: usize = 21;

/// Width of a marshal zone on the wire, in every format.
pub const MARSHAL_ZONE_RAW_SIZE: usize = 5;

/// Width of a weather forecast sample on the wire, in every format.
pub const FORECAST_SAMPLE_RAW_SIZE: usize = 8;

/// Highest AI difficulty.
pub const MAX_AI_DIFFICULTY: u8 = 110;

/// Room for sessions in the structure of a race weekend.
pub const MAX_NUM_SESSIONS: usize = 12;

/// Room for weather forecast samples in a session packet of the given format.
pub open spec fn max_num_samples(packet_format: u16) -> usize {
    if packet_format == 2024 {
        64
    } else {
        56
    }
}

/// Room for weather forecast samples in a session packet of the given format.
#[verifier::when_used_as_spec(max_num_samples)]
pub fn get_max_num_samples(packet_format: u16) -> (max: usize)
    ensures
        max == max_num_samples(packet_format),
{
    if packet_format == 2024 {
        64
    } else {
        56
    }
}

/// Whether a session packet of the given format has room for `num_samples`
/// weather forecast samples.
pub fn check_num_forecast_samples(packet_format: u16, num_samples: usize) -> (fits: bool)
    ensures
        fits == (num_samples <= max_num_samples(packet_format)),
{
    num_samples <= get_max_num_samples(packet_format)
}

/// Number of filler bytes behind `num_samples` weather forecast samples, of
/// which there are no more than the format has room for.
pub fn get_forecast_samples_padding(packet_format: u16, num_samples: usize) -> (padding: usize)
    requires
        num_samples <= max_num_samples(packet_format),
    ensures
        padding == (max_num_samples(packet_format) - num_samples) * FORECAST_SAMPLE_RAW_SIZE,
{
    (get_max_num_samples(packet_format) - num_samples) * FORECAST_SAMPLE_RAW_SIZE
}

/// Section of the track supervised by marshals.
#[non_exhaustive]
#[derive(Debug, Clone, Copy, PartialEq, Eq)]
pub struct MarshalZone {
    /// Fraction (in range `(0.0..1.0)`) of way through the lap the marshal
    /// zone starts.
    pub zone_start: F32Bits,
    /// Flag that's currently being waved in the marshal zone.
    pub zone_flag: MarshalZoneFlag,
}

impl DeepView for MarshalZone {
    type V = MarshalZone;

    open spec fn deep_view(&self) -> MarshalZone {
        *self
    }
}

impl Decode for MarshalZone {
    open spec fn decoded(w: Wire, packet_format: u16) -> (Wire, MarshalZone) {
        let start = w.pos;
        let (w, zone_start) = w.single();
        let (w, zone_flag) = w.code::<MarshalZoneFlag>();
        let w = w.in_range(
            zone_start.below_one(),
            FieldName::ZoneStart,
            zone_start.bits as int,
            start,
        );
        (w, MarshalZone { zone_start, zone_flag })
    }

    fn decode(cursor: &mut ByteCursor, packet_format: u16) -> (r: Result<
        MarshalZone,
        DecodeError,
    >) {
        let start: usize = cursor.position();
        let zone_start: F32Bits = cursor.read_f32()?;
        let zone_flag: MarshalZoneFlag = cursor.read_code()?;
        cursor.in_range(
            zone_start.is_below_one(),
            FieldName::ZoneStart,
            zone_start.bits as i64,
            start,
        )?;
        Ok(MarshalZone { zone_start, zone_flag })
    }
}

impl MarshalZone {
    /// Number of bytes of this record on the wire.
    pub open spec fn wire_width(packet_format: u16) -> nat {
        5
    }

    /// Every successful decode of this record takes `wire_width` bytes.
    pub proof fn lemma_wire_width(packet_format: u16)
        ensures
            has_width::<MarshalZone>(packet_format, Self::wire_width(packet_format)),
    {
    }
}

/// Weather forecast sample for a given session.
#[non_exhaustive]
#[derive(Debug, Clone, Copy, PartialEq, Eq, PartialOrd, Ord)]
pub struct WeatherForecastSample {
    /// Session's type.
    pub session_type: u8,
    /// Time in minutes the forecast is for.
    pub time_offset: u8,
    /// Forecasted weather.
    pub weather: Weather,
    /// Track temperature in degrees Celsius.
    pub track_temperature: i8,
    /// Track temperature change.
    pub track_temperature_change: TemperatureChange,
    /// Air temperature in degrees Celsius.
    pub air_temperature: i8,
    /// Air temperature change.
    pub air_temperature_change: TemperatureChange,
    /// Chance of rain.
    pub rain_percentage: u8,
}

impl DeepView for WeatherForecastSample {
    type V = WeatherForecastSample;

    open spec fn deep_view(&self) -> WeatherForecastSample {
        *self
    }
}

impl Decode for WeatherForecastSample {
    open spec fn decoded(w: Wire, packet_format: u16) -> (Wire, WeatherForecastSample) {
        let start = w.pos;
        let (w, session_type) = w.u8();
        let (w, time_offset) = w.u8();
        let (w, weather) = w.code::<Weather>();
        let (w, track_temperature) = w.i8();
        let (w, track_temperature_change) = w.code::<TemperatureChange>();
        let (w, air_temperature) = w.i8();
        let (w, air_temperature_change) = w.code::<TemperatureChange>();
        let (w, rain_percentage) = w.u8();
        let w = w.in_range(
            rain_percentage <= 100,
            FieldName::RainPercentage,
            rain_percentage as int,
            start,
        );
        (
            w,
            WeatherForecastSample {
                session_type,
                time_offset,
                weather,
                track_temperature,
                track_temperature_change,
                air_temperature,
                air_temperature_change,
                rain_percentage,
            },
        )
    }

    fn decode(cursor: &mut ByteCursor, packet_format: u16) -> (r: Result<
        WeatherForecastSample,
        DecodeError,
    >) {
        let start: usize = cursor.position();
        let session_type: u8 = cursor.read_u8()?;
        let time_offset: u8 = cursor.read_u8()?;
        let weather: Weather = cursor.read_code()?;
        let track_temperature: i8 = cursor.read_i8()?;
        let track_temperature_change: TemperatureChange = cursor.read_code()?;
        let air_temperature: i8 = cursor.read_i8()?;
        let air_temperature_change: TemperatureChange = cursor.read_code()?;
        let rain_percentage: u8 = cursor.read_u8()?;
        cursor.in_range(
            rain_percentage <= 100,
            FieldName::RainPercentage,
            rain_percentage as i64,
            start,
        )?;
        Ok(
            WeatherForecastSample {
                session_type,
                time_offset,
                weather,
                track_temperature,
                track_temperature_change,
                air_temperature,
                air_temperature_change,
                rain_percentage,
            },
        )
    }
}

impl WeatherForecastSample {
    /// Number of bytes of this record on the wire.
    pub open spec fn wire_width(packet_format: u16) -> nat {
        8
    }

    /// Every successful decode of this record takes `wire_width` bytes.
    pub proof fn lemma_wire_width(packet_format: u16)
        ensures
            has_width::<WeatherForecastSample>(packet_format, Self::wire_width(packet_format)),
    {
    }
}

/// The opening of a session packet: weather, track, time left, spectating.
#[derive(Debug, Clone, PartialEq, Eq)]
pub struct SessionOverview {
    /// Current weather.
    pub weather: Weather,
    /// Track temperature in degrees Celsius.
    pub track_temperature: i8,
    /// Air temperature in degrees Celsius.
    pub air_temperature: i8,
    /// Total number of laps in this session.
    pub total_laps: u8,
    /// Track's length in metres.
    pub track_length: u16,
    /// Session's type.
    pub session_type: u8,
    /// Unique identifier of the track.
    pub track_id: TrackId,
    /// Formula of cars being raced.
    pub formula: Formula,
    /// Time left in the session in seconds.
    pub session_time_left: u16,
    /// Session's duration in seconds.
    pub session_duration: u16,
    /// Pit lane's speed limit in kilometres per hour.
    pub pit_speed_limit: u8,
    /// Whether the game is paused.
    pub game_paused: bool,
    /// Whether the player is spectating.
    pub is_spectating: bool,
    /// Index of the car being spectated.
    pub spectator_car_index: usize,
    /// Whether SLI Pro support is active.
    pub sli_pro_native_support: bool,
}

impl DeepView for SessionOverview {
    type V = SessionOverview;

    open spec fn deep_view(&self) -> SessionOverview {
        *self
    }
}

impl SessionOverview {
    /// What the bytes at `w` hold, read as this part of a session packet that
    /// starts at `start`. A state that has failed stays as it is.
    pub open spec fn decoded(w: Wire, packet_format: u16, start: usize) -> (Wire, SessionOverview) {
        if w.failed() {
            (w, arbitrary())
        } else {
            Self::layout(w, packet_format, start)
        }
    }

    /// The fields of this part, in the order of the wire.
    #[verifier::opaque]
    pub open spec fn layout(w: Wire, packet_format: u16, start: usize) -> (Wire, SessionOverview) {
        let (w, weather) = w.code::<Weather>();
        let (w, track_temperature) = w.i8();
        let (w, air_temperature) = w.i8();
        let (w, total_laps) = w.u8();
        let (w, track_length) = w.u16();
        let (w, session_type) = w.u8();
        let (w, track_id) = w.code::<TrackId>();
        let (w, formula) = w.code::<Formula>();
        let (w, session_time_left) = w.u16();
        let (w, session_duration) = w.u16();
        let (w, pit_speed_limit) = w.u8();
        let (w, game_paused) = w.boolean();
        let (w, is_spectating) = w.boolean();
        let (w, spectator_car_index) = w.index();
        let (w, sli_pro_native_support) = w.boolean();
        (
            w,
            SessionOverview {
                weather,
                track_temperature,
                air_temperature,
                total_laps,
                track_length,
                session_type,
                track_id,
                formula,
                session_time_left,
                session_duration,
                pit_speed_limit,
                game_paused,
                is_spectating,
                spectator_car_index,
                sli_pro_native_support,
            },
        )
    }

    /// Reads this part of a session packet that starts at `start`.
    pub fn decode(cursor: &mut ByteCursor, packet_format: u16, start: usize) -> (r: Result<SessionOverview, DecodeError>)
        ensures
            follows_view(r, final(cursor)@, Self::decoded(old(cursor)@, packet_format, start)),
    {
        proof {
            reveal(SessionOverview::layout);
        }
        let weather: Weather = cursor.read_code()?;
        let track_temperature: i8 = cursor.read_i8()?;
        let air_temperature: i8 = cursor.read_i8()?;
        let total_laps: u8 = cursor.read_u8()?;
        let track_length: u16 = cursor.read_u16()?;
        let session_type: u8 = cursor.read_u8()?;
        let track_id: TrackId = cursor.read_code()?;
        let formula: Formula = cursor.read_code()?;
        let session_time_left: u16 = cursor.read_u16()?;
        let session_duration: u16 = cursor.read_u16()?;
        let pit_speed_limit: u8 = cursor.read_u8()?;
        let game_paused: bool = cursor.read_bool()?;
        let is_spectating: bool = cursor.read_bool()?;
        let spectator_car_index: usize = cursor.read_index()?;
        let sli_pro_native_support: bool = cursor.read_bool()?;
        Ok(
            SessionOverview {
                weather,
                track_temperature,
                air_temperature,
                total_laps,
                track_length,
                session_type,
                track_id,
                formula,
                session_time_left,
                session_duration,
                pit_speed_limit,
                game_paused,
                is_spectating,
                spectator_car_index,
                sli_pro_native_support,
            },
        )
    }
}

/// The part of a session packet with its two lists, the marshal zones and the
/// weather forecast.
#[derive(Debug, Clone, PartialEq, Eq)]
pub struct SessionZones {
    /// Number of marshal zones to follow.
    pub num_marshal_zones: usize,
    /// List of marshal zones. Should have a size equal to
    /// `num_marshal_zones`.
    pub marshal_zones: Vec<MarshalZone>,
    /// Safety car deployment status.
    pub safety_car_status: SafetyCarStatus,
    /// Whether this game is online.
    pub network_game: bool,
    /// Number of weather samples to follow.
    pub num_weather_forecast_samples: usize,
    /// List of up to weather forecast samples. Should have a size equal to
    /// `num_weather_forecast_samples`.
    pub weather_forecast_samples: Vec<WeatherForecastSample>,
    /// Weather forecast accuracy.
    pub forecast_accuracy: ForecastAccuracy,
    /// AI difficulty rating in range `(0..=110)`.
    pub ai_difficulty: u8,
}

/// A [`SessionZones`] as a mathematical value.
pub struct SessionZonesView {
    pub num_marshal_zones: usize,
    pub marshal_zones: Seq<MarshalZone>,
    pub safety_car_status: SafetyCarStatus,
    pub network_game: bool,
    pub num_weather_forecast_samples: usize,
    pub weather_forecast_samples: Seq<WeatherForecastSample>,
    pub forecast_accuracy: ForecastAccuracy,
    pub ai_difficulty: u8,
}

impl DeepView for SessionZones {
    type V = SessionZonesView;

    open spec fn deep_view(&self) -> SessionZonesView {
        SessionZonesView {
            num_marshal_zones: self.num_marshal_zones,
            marshal_zones: self.marshal_zones.deep_view(),
            safety_car_status: self.safety_car_status,
            network_game: self.network_game,
            num_weather_forecast_samples: self.num_weather_forecast_samples,
            weather_forecast_samples: self.weather_forecast_samples.deep_view(),
            forecast_accuracy: self.forecast_accuracy,
            ai_difficulty: self.ai_difficulty,
        }
    }
}

impl SessionZones {
    /// What the bytes at `w` hold, read as this part of a session packet that
    /// starts at `start`. A state that has failed stays as it is.
    pub open spec fn decoded(w: Wire, packet_format: u16, start: usize) -> (Wire, SessionZonesView) {
        if w.failed() {
            (w, arbitrary())
        } else {
            Self::layout(w, packet_format, start)
        }
    }

    /// The fields of this part, in the order of the wire.
    #[verifier::opaque]
    pub open spec fn layout(w: Wire, packet_format: u16, start: usize) -> (Wire, SessionZonesView) {
        let (w, num_marshal_zones) = w.index();
        let w = w.fits(FieldName::NumMarshalZones, num_marshal_zones, MAX_NUM_MARSHAL_ZONES, start);
        let (w, marshal_zones) = decoded_padded::<MarshalZone>(
            w,
            num_marshal_zones,
            MAX_NUM_MARSHAL_ZONES,
            MARSHAL_ZONE_RAW_SIZE,
            packet_format,
        );
        let (w, safety_car_status) = w.code::<SafetyCarStatus>();
        let (w, network_game) = w.boolean();
        let (w, num_weather_forecast_samples) = w.index();
        let w = w.fits(
            FieldName::NumWeatherForecastSamples,
            num_weather_forecast_samples,
            get_max_num_samples(packet_format),
            start,
        );
        let (w, weather_forecast_samples) = decoded_padded::<WeatherForecastSample>(
            w,
            num_weather_forecast_samples,
            get_max_num_samples(packet_format),
            FORECAST_SAMPLE_RAW_SIZE,
            packet_format,
        );
        let (w, forecast_accuracy) = w.code::<ForecastAccuracy>();
        let (w, ai_difficulty) = w.u8();
        let w = w.in_range(
            ai_difficulty <= MAX_AI_DIFFICULTY,
            FieldName::AiDifficulty,
            ai_difficulty as int,
            start,
        );
        (
            w,
            SessionZonesView {
                num_marshal_zones,
                marshal_zones,
                safety_car_status,
                network_game,
                num_weather_forecast_samples,
                weather_forecast_samples,
                forecast_accuracy,
                ai_difficulty,
            },
        )
    }

    /// Reads this part of a session packet that starts at `start`.
    pub fn decode(cursor: &mut ByteCursor, packet_format: u16, start: usize) -> (r: Result<SessionZones, DecodeError>)
        ensures
            follows_view(r, final(cursor)@, Self::decoded(old(cursor)@, packet_format, start)),
    {
        proof {
            reveal(SessionZones::layout);
        }
        let num_marshal_zones: usize = cursor.read_index()?;
        cursor.fits(FieldName::NumMarshalZones, num_marshal_zones, MAX_NUM_MARSHAL_ZONES, start)?;
        let marshal_zones: Vec<MarshalZone> = decode_padded(
            cursor,
            num_marshal_zones,
            MAX_NUM_MARSHAL_ZONES,
            MARSHAL_ZONE_RAW_SIZE,
            packet_format,
        )?;
        let safety_car_status: SafetyCarStatus = cursor.read_code()?;
        let network_game: bool = cursor.read_bool()?;
        let num_weather_forecast_samples: usize = cursor.read_index()?;
        if !check_num_forecast_samples(packet_format, num_weather_forecast_samples) {
            return Err(
                DecodeError::CountExceedsCapacity {
                    field: FieldName::NumWeatherForecastSamples,
                    count: num_weather_forecast_samples,
                    capacity: get_max_num_samples(packet_format),
                    offset: start,
                },
            );
        }
        let weather_forecast_samples: Vec<WeatherForecastSample> = decode_list(
            cursor,
            num_weather_forecast_samples,
            packet_format,
        )?;
        cursor.skip(get_forecast_samples_padding(packet_format, num_weather_forecast_samples));
        let forecast_accuracy: ForecastAccuracy = cursor.read_code()?;
        let ai_difficulty: u8 = cursor.read_u8()?;
        cursor.in_range(
            ai_difficulty <= MAX_AI_DIFFICULTY,
            FieldName::AiDifficulty,
            ai_difficulty as i64,
            start,
        )?;
        Ok(
            SessionZones {
                num_marshal_zones,
                marshal_zones,
                safety_car_status,
                network_game,
                num_weather_forecast_samples,
                weather_forecast_samples,
                forecast_accuracy,
                ai_difficulty,
            },
        )
    }
}

/// The part of a session packet with the identifiers, the pit stop window,
/// the assists and the game mode.
#[derive(Debug, Clone, PartialEq, Eq)]
pub struct SessionAssists {
    /// Identifier for season - persists across saves.
    pub season_link_identifier: u32,
    /// Identifier for weekend - persists across saves.
    pub weekend_link_identifier: u32,
    /// Identifier for session - persists across saves.
    pub session_link_identifier: u32,
    /// Ideal lap for the player to pit on for current strategy.
    pub pit_stop_window_ideal_lap: u8,
    /// The latest lap for the player to pit on for current strategy.
    pub pit_stop_window_latest_lap: u8,
    /// Predicted position for the player to rejoin at.
    pub pit_stop_rejoin_position: u8,
    /// Whether the steering assist is enabled.
    pub steering_assist: bool,
    /// Type of braking assist enabled.
    pub braking_assist: BrakingAssist,
    /// Type of gearbox assist enabled.
    pub gearbox_assist: GearboxAssist,
    /// Whether the pit assist is enabled.
    pub pit_assist: bool,
    /// Whether the pit release assist is enabled.
    pub pit_release_assist: bool,
    /// Whether the ERS assist is enabled.
    pub ers_assist: bool,
    /// Whether the DRS assist is enabled.
    pub drs_assist: bool,
    /// Type of the dynamic racing line assist.
    pub dynamic_racing_line: DynamicRacingLine,
    /// Type of the dynamic racing line (2D/3D).
    pub dynamic_racing_line_type: DynamicRacingLineType,
    /// Game mode's identifier.
    pub game_mode: GameMode,
    /// Rule set's identifier.
    pub rule_set: RuleSet,
    /// Local time of day as minutes since midnight.
    pub time_of_day: u32,
    /// Session's length.
    pub session_length: SessionLength,
}

impl DeepView for SessionAssists {
    type V = SessionAssists;

    open spec fn deep_view(&self) -> SessionAssists {
        *self
    }
}

impl SessionAssists {
    /// What the bytes at `w` hold, read as this part of a session packet that
    /// starts at `start`. A state that has failed stays as it is.
    pub open spec fn decoded(w: Wire, packet_format: u16, start: usize) -> (Wire, SessionAssists) {
        if w.failed() {
            (w, arbitrary())
        } else {
            Self::layout(w, packet_format, start)
        }
    }

    /// The fields of this part, in the order of the wire.
    #[verifier::opaque]
    pub open spec fn layout(w: Wire, packet_format: u16, start: usize) -> (Wire, SessionAssists) {
        let (w, season_link_identifier) = w.u32();
        let (w, weekend_link_identifier) = w.u32();
        let (w, session_link_identifier) = w.u32();
        let (w, pit_stop_window_ideal_lap) = w.u8();
        let (w, pit_stop_window_latest_lap) = w.u8();
        let (w, pit_stop_rejoin_position) = w.u8();
        let (w, steering_assist) = w.boolean();
        let (w, braking_assist) = w.code::<BrakingAssist>();
        let (w, gearbox_assist) = w.code::<GearboxAssist>();
        let (w, pit_assist) = w.boolean();
        let (w, pit_release_assist) = w.boolean();
        let (w, ers_assist) = w.boolean();
        let (w, drs_assist) = w.boolean();
        let (w, dynamic_racing_line) = w.code::<DynamicRacingLine>();
        let (w, dynamic_racing_line_type) = w.code::<DynamicRacingLineType>();
        let (w, game_mode) = w.code::<GameMode>();
        let (w, rule_set) = w.code::<RuleSet>();
        let (w, time_of_day) = w.u32();
        let (w, session_length) = w.code::<SessionLength>();
        (
            w,
            SessionAssists {
                season_link_identifier,
                weekend_link_identifier,
                session_link_identifier,
                pit_stop_window_ideal_lap,
                pit_stop_window_latest_lap,
                pit_stop_rejoin_position,
                steering_assist,
                braking_assist,
                gearbox_assist,
                pit_assist,
                pit_release_assist,
                ers_assist,
                drs_assist,
                dynamic_racing_line,
                dynamic_racing_line_type,
                game_mode,
                rule_set,
                time_of_day,
                session_length,
            },
        )
    }

    /// Reads this part of a session packet that starts at `start`.
    pub fn decode(cursor: &mut ByteCursor, packet_format: u16, start: usize) -> (r: Result<SessionAssists, DecodeError>)
        ensures
            follows_view(r, final(cursor)@, Self::decoded(old(cursor)@, packet_format, start)),
    {
        proof {
            reveal(SessionAssists::layout);
        }
        let season_link_identifier: u32 = cursor.read_u32()?;
        let weekend_link_identifier: u32 = cursor.read_u32()?;
        let session_link_identifier: u32 = cursor.read_u32()?;
        let pit_stop_window_ideal_lap: u8 = cursor.read_u8()?;
        let pit_stop_window_latest_lap: u8 = cursor.read_u8()?;
        let pit_stop_rejoin_position: u8 = cursor.read_u8()?;
        let steering_assist: bool = cursor.read_bool()?;
        let braking_assist: BrakingAssist = cursor.read_code()?;
        let gearbox_assist: GearboxAssist = cursor.read_code()?;
        let pit_assist: bool = cursor.read_bool()?;
        let pit_release_assist: bool = cursor.read_bool()?;
        let ers_assist: bool = cursor.read_bool()?;
        let drs_assist: bool = cursor.read_bool()?;
        let dynamic_racing_line: DynamicRacingLine = cursor.read_code()?;
        let dynamic_racing_line_type: DynamicRacingLineType = cursor.read_code()?;
        let game_mode: GameMode = cursor.read_code()?;
        let rule_set: RuleSet = cursor.read_code()?;
        let time_of_day: u32 = cursor.read_u32()?;
        let session_length: SessionLength = cursor.read_code()?;
        Ok(
            SessionAssists {
                season_link_identifier,
                weekend_link_identifier,
                session_link_identifier,
                pit_stop_window_ideal_lap,
                pit_stop_window_latest_lap,
                pit_stop_rejoin_position,
                steering_assist,
                braking_assist,
                gearbox_assist,
                pit_assist,
                pit_release_assist,
                ers_assist,
                drs_assist,
                dynamic_racing_line,
                dynamic_racing_line_type,
                game_mode,
                rule_set,
                time_of_day,
                session_length,
            },
        )
    }
}

/// The part of a session packet that came with the 2023 format: units, and
/// numbers of safety car and red flag periods.
#[derive(Debug, Clone, PartialEq, Eq)]
pub struct SessionUnits {
    /// Speed unit used by player 1. Available from the 2023 format onwards.
    pub speed_unit_lead_player: Option<SpeedUnit>,
    /// Temperature unit used by player 1. Available from the 2023 format
    /// onwards.
    pub temperature_unit_lead_player: Option<TemperatureUnit>,
    /// Speed unit used by player 2. Available from the 2023 format onwards.
    pub speed_unit_secondary_player: Option<SpeedUnit>,
    /// Temperature unit used by player 2. Available from the 2023 format
    /// onwards.
    pub temperature_unit_secondary_player: Option<TemperatureUnit>,
    /// Number of full safety cars called during the session. Available from
    /// the 2023 format onwards.
    pub num_safety_car_periods: u8,
    /// Number of virtual safety cars called during the session. Available
    /// from the 2023 format onwards.
    pub num_virtual_safety_car_periods: u8,
    /// Number of red flags called during the session. Available from the 2023
    /// format onwards.
    pub num_red_flag_periods: u8,
}

impl DeepView for SessionUnits {
    type V = SessionUnits;

    open spec fn deep_view(&self) -> SessionUnits {
        *self
    }
}

impl SessionUnits {
    /// What the bytes at `w` hold, read as this part of a session packet that
    /// starts at `start`. A state that has failed stays as it is.
    pub open spec fn decoded(w: Wire, packet_format: u16, start: usize) -> (Wire, SessionUnits) {
        if w.failed() {
            (w, arbitrary())
        } else {
            Self::layout(w, packet_format, start)
        }
    }

    /// The fields of this part, in the order of the wire.
    #[verifier::opaque]
    pub open spec fn layout(w: Wire, packet_format: u16, start: usize) -> (Wire, SessionUnits) {
        let (w, speed_unit_lead_player) = w.code_if::<SpeedUnit>(packet_format >= 2023);
        let (w, temperature_unit_lead_player) = w.code_if::<TemperatureUnit>(packet_format >= 2023);
        let (w, speed_unit_secondary_player) = w.code_if::<SpeedUnit>(packet_format >= 2023);
        let (w, temperature_unit_secondary_player) = w.code_if::<TemperatureUnit>(
            packet_format >= 2023,
        );
        let (w, num_safety_car_periods) = w.u8_if(packet_format >= 2023);
        let (w, num_virtual_safety_car_periods) = w.u8_if(packet_format >= 2023);
        let (w, num_red_flag_periods) = w.u8_if(packet_format >= 2023);
        (
            w,
            SessionUnits {
                speed_unit_lead_player,
                temperature_unit_lead_player,
                speed_unit_secondary_player,
                temperature_unit_secondary_player,
                num_safety_car_periods,
                num_virtual_safety_car_periods,
                num_red_flag_periods,
            },
        )
    }

    /// Reads this part of a session packet that starts at `start`.
    pub fn decode(cursor: &mut ByteCursor, packet_format: u16, start: usize) -> (r: Result<SessionUnits, DecodeError>)
        ensures
            follows_view(r, final(cursor)@, Self::decoded(old(cursor)@, packet_format, start)),
    {
        proof {
            reveal(SessionUnits::layout);
        }
        let speed_unit_lead_player: Option<SpeedUnit> = cursor.read_code_if(packet_format >= 2023)?;
        let temperature_unit_lead_player: Option<TemperatureUnit> = cursor.read_code_if(
            packet_format >= 2023,
        )?;
        let speed_unit_secondary_player: Option<SpeedUnit> = cursor.read_code_if(
            packet_format >= 2023,
        )?;
        let temperature_unit_secondary_player: Option<TemperatureUnit> = cursor.read_code_if(
            packet_format >= 2023,
        )?;
        let num_safety_car_periods: u8 = cursor.read_u8_if(packet_format >= 2023)?;
        let num_virtual_safety_car_periods: u8 = cursor.read_u8_if(packet_format >= 2023)?;
        let num_red_flag_periods: u8 = cursor.read_u8_if(packet_format >= 2023)?;
        Ok(
            SessionUnits {
                speed_unit_lead_player,
                temperature_unit_lead_player,
                speed_unit_secondary_player,
                temperature_unit_secondary_player,
                num_safety_car_periods,
                num_virtual_safety_car_periods,
                num_red_flag_periods,
            },
        )
    }
}

/// The first part of what came to the session packet with the 2024 format:
/// how the car and its damage are simulated.
#[derive(Debug, Clone, PartialEq, Eq)]
pub struct SessionSimulation {
    /// Whether equal car performance is enabled. Available from the 2024
    /// format onwards.
    pub equal_car_performance: bool,
    /// Recovery mode assist. Available from the 2024 format onwards.
    pub recovery_mode: Option<RecoveryMode>,
    /// Flashback limit type. Available from the 2024 format onwards.
    pub flashback_limit: Option<FlashbackLimit>,
    /// Surface simulation type. Available from the 2024 format onwards.
    pub surface_sim_type: Option<SurfaceSimType>,
    /// Low fuel driving difficulty. Available from the 2024 format onwards.
    pub low_fuel_mode: Option<LowFuelMode>,
    /// Race starts assist. Available from the 2024 format onwards.
    pub race_starts: Option<RaceStarts>,
    /// Tyre temperature simulation type. Available from the 2024 format
    /// onwards.
    pub tyre_temperature: Option<TyreTemperature>,
    /// Whether the pit lane tyre simulation (cold tyres and low grip right
    /// after a stop) is enabled. Available from the 2024 format onwards.
    pub pit_lane_tyre_sim: bool,
    /// Car damage simulation type. Available from the 2024 format onwards.
    pub car_damage: Option<CarDamage>,
    /// Car damage rate. Available from the 2024 format onwards.
    pub car_damage_rate: Option<CarDamageRate>,
    /// Collision simulation type. Available from the 2024 format onwards.
    pub collisions: Option<Collisions>,
    /// Whether collisions are disabled only for lap 1. Available from the
    /// 2024 format onwards.
    pub collisions_off_for_first_lap_only: bool,
    /// Whether unsafe pit release is disabled in a multiplayer game.
    /// Available from the 2024 format onwards.
    pub mp_unsafe_pit_release_disabled: bool,
    /// Whether collisions get disabled for griefing in a multiplayer game.
    /// Available from the 2024 format onwards.
    pub mp_collisions_off_for_griefing: bool,
}

impl DeepView for SessionSimulation {
    type V = SessionSimulation;

    open spec fn deep_view(&self) -> SessionSimulation {
        *self
    }
}

impl SessionSimulation {
    /// What the bytes at `w` hold, read as this part of a session packet that
    /// starts at `start`. A state that has failed stays as it is.
    pub open spec fn decoded(w: Wire, packet_format: u16, start: usize) -> (Wire, SessionSimulation) {
        if w.failed() {
            (w, arbitrary())
        } else {
            Self::layout(w, packet_format, start)
        }
    }

    /// The fields of this part, in the order of the wire.
    #[verifier::opaque]
    pub open spec fn layout(w: Wire, packet_format: u16, start: usize) -> (Wire, SessionSimulation) {
        let (w, equal_car_performance) = w.boolean_if(packet_format >= 2024);
        let (w, recovery_mode) = w.code_if::<RecoveryMode>(packet_format >= 2024);
        let (w, flashback_limit) = w.code_if::<FlashbackLimit>(packet_format >= 2024);
        let (w, surface_sim_type) = w.code_if::<SurfaceSimType>(packet_format >= 2024);
        let (w, low_fuel_mode) = w.code_if::<LowFuelMode>(packet_format >= 2024);
        let (w, race_starts) = w.code_if::<RaceStarts>(packet_format >= 2024);
        let (w, tyre_temperature) = w.code_if::<TyreTemperature>(packet_format >= 2024);
        let (w, pit_lane_tyre_sim) = w.boolean_if(packet_format >= 2024);
        let (w, car_damage) = w.code_if::<CarDamage>(packet_format >= 2024);
        let (w, car_damage_rate) = w.code_if::<CarDamageRate>(packet_format >= 2024);
        let (w, collisions) = w.code_if::<Collisions>(packet_format >= 2024);
        let (w, collisions_off_for_first_lap_only) = w.boolean_if(packet_format >= 2024);
        let (w, mp_unsafe_pit_release_disabled) = w.boolean_if(packet_format >= 2024);
        let (w, mp_collisions_off_for_griefing) = w.boolean_if(packet_format >= 2024);
        (
            w,
            SessionSimulation {
                equal_car_performance,
                recovery_mode,
                flashback_limit,
                surface_sim_type,
                low_fuel_mode,
                race_starts,
                tyre_temperature,
                pit_lane_tyre_sim,
                car_damage,
                car_damage_rate,
                collisions,
                collisions_off_for_first_lap_only,
                mp_unsafe_pit_release_disabled,
                mp_collisions_off_for_griefing,
            },
        )
    }

    /// Reads this part of a session packet that starts at `start`.
    pub fn decode(cursor: &mut ByteCursor, packet_format: u16, start: usize) -> (r: Result<SessionSimulation, DecodeError>)
        ensures
            follows_view(r, final(cursor)@, Self::decoded(old(cursor)@, packet_format, start)),
    {
        proof {
            reveal(SessionSimulation::layout);
        }
        let equal_car_performance: bool = cursor.read_bool_if(packet_format >= 2024)?;
        let recovery_mode: Option<RecoveryMode> = cursor.read_code_if(packet_format >= 2024)?;
        let flashback_limit: Option<FlashbackLimit> = cursor.read_code_if(packet_format >= 2024)?;
        let surface_sim_type: Option<SurfaceSimType> = cursor.read_code_if(packet_format >= 2024)?;
        let low_fuel_mode: Option<LowFuelMode> = cursor.read_code_if(packet_format >= 2024)?;
        let race_starts: Option<RaceStarts> = cursor.read_code_if(packet_format >= 2024)?;
        let tyre_temperature: Option<TyreTemperature> = cursor.read_code_if(packet_format >= 2024)?;
        let pit_lane_tyre_sim: bool = cursor.read_bool_if(packet_format >= 2024)?;
        let car_damage: Option<CarDamage> = cursor.read_code_if(packet_format >= 2024)?;
        let car_damage_rate: Option<CarDamageRate> = cursor.read_code_if(packet_format >= 2024)?;
        let collisions: Option<Collisions> = cursor.read_code_if(packet_format >= 2024)?;
        let collisions_off_for_first_lap_only: bool = cursor.read_bool_if(packet_format >= 2024)?;
        let mp_unsafe_pit_release_disabled: bool = cursor.read_bool_if(packet_format >= 2024)?;
        let mp_collisions_off_for_griefing: bool = cursor.read_bool_if(packet_format >= 2024)?;
        Ok(
            SessionSimulation {
                equal_car_performance,
                recovery_mode,
                flashback_limit,
                surface_sim_type,
                low_fuel_mode,
                race_starts,
                tyre_temperature,
                pit_lane_tyre_sim,
                car_damage,
                car_damage_rate,
                collisions,
                collisions_off_for_first_lap_only,
                mp_unsafe_pit_release_disabled,
                mp_collisions_off_for_griefing,
            },
        )
    }
}

/// The second part of what came to the session packet with the 2024 format:
/// rules, safety car, and the structure of the weekend.
#[derive(Debug, Clone, PartialEq, Eq)]
pub struct SessionWeekend {
    /// Corner cutting stringency. Available from the 2024 format onwards.
    pub corner_cutting_stringency: Option<CornerCuttingStringency>,
    /// Whether parc fermé rules are enabled. Available from the 2024 format
    /// onwards.
    pub parc_ferme_rules: bool,
    /// Pit stop experience. Available from the 2024 format onwards.
    pub pit_stop_experience: Option<PitStopExperience>,
    /// Safety car intensity. Available from the 2024 format onwards.
    pub safety_car_intensity: Option<SafetyCarIntensity>,
    /// Safety car experience. Available from the 2024 format onwards.
    pub safety_car_experience: Option<SafetyCarExperience>,
    /// Whether formation lap is enabled. Available from the 2024 format
    /// onwards.
    pub formation_lap: bool,
    /// Formation lap experience. Available from the 2024 format onwards.
    pub formation_lap_experience: Option<FormationLapExperience>,
    /// Red flag intensity. Available from the 2024 format onwards.
    pub red_flag_intensity: Option<RedFlagIntensity>,
    /// Whether this single player game affects the license level. Available
    /// from the 2024 format onwards.
    pub affects_license_level_solo: bool,
    /// Whether this multiplayer game affects the license level. Available
    /// from the 2024 format onwards.
    pub affects_license_level_mp: bool,
    /// Number of sessions in the ongoing race weekend.
    pub num_sessions_in_weekend: usize,
    /// List of sessions that shows this weekend's structure. Should have a
    /// size equal to `num_sessions_in_weekend`. Available from the 2024
    /// format onwards.
    pub weekend_structure: Vec<u8>,
    /// Distance (in metres) around the track where sector 2 starts. Available
    /// from the 2024 format onwards.
    pub sector2_lap_distance_start: F32Bits,
    /// Distance (in metres) around the track where sector 3 starts. Available
    /// from the 2024 format onwards.
    pub sector3_lap_distance_start: F32Bits,
}

/// A [`SessionWeekend`] as a mathematical value.
pub struct SessionWeekendView {
    pub corner_cutting_stringency: Option<CornerCuttingStringency>,
    pub parc_ferme_rules: bool,
    pub pit_stop_experience: Option<PitStopExperience>,
    pub safety_car_intensity: Option<SafetyCarIntensity>,
    pub safety_car_experience: Option<SafetyCarExperience>,
    pub formation_lap: bool,
    pub formation_lap_experience: Option<FormationLapExperience>,
    pub red_flag_intensity: Option<RedFlagIntensity>,
    pub affects_license_level_solo: bool,
    pub affects_license_level_mp: bool,
    pub num_sessions_in_weekend: usize,
    pub weekend_structure: Seq<u8>,
    pub sector2_lap_distance_start: F32Bits,
    pub sector3_lap_distance_start: F32Bits,
}

impl DeepView for SessionWeekend {
    type V = SessionWeekendView;

    open spec fn deep_view(&self) -> SessionWeekendView {
        SessionWeekendView {
            corner_cutting_stringency: self.corner_cutting_stringency,
            parc_ferme_rules: self.parc_ferme_rules,
            pit_stop_experience: self.pit_stop_experience,
            safety_car_intensity: self.safety_car_intensity,
            safety_car_experience: self.safety_car_experience,
            formation_lap: self.formation_lap,
            formation_lap_experience: self.formation_lap_experience,
            red_flag_intensity: self.red_flag_intensity,
            affects_license_level_solo: self.affects_license_level_solo,
            affects_license_level_mp: self.affects_license_level_mp,
            num_sessions_in_weekend: self.num_sessions_in_weekend,
            weekend_structure: self.weekend_structure@,
            sector2_lap_distance_start: self.sector2_lap_distance_start,
            sector3_lap_distance_start: self.sector3_lap_distance_start,
        }
    }
}

impl SessionWeekend {
    /// What the bytes at `w` hold, read as this part of a session packet that
    /// starts at `start`. A state that has failed stays as it is.
    pub open spec fn decoded(w: Wire, packet_format: u16, start: usize) -> (Wire, SessionWeekendView) {
        if w.failed() {
            (w, arbitrary())
        } else {
            Self::layout(w, packet_format, start)
        }
    }

    /// The fields of this part, in the order of the wire.
    #[verifier::opaque]
    pub open spec fn layout(w: Wire, packet_format: u16, start: usize) -> (Wire, SessionWeekendView) {
        let (w, corner_cutting_stringency) = w.code_if::<CornerCuttingStringency>(
            packet_format >= 2024,
        );
        let (w, parc_ferme_rules) = w.boolean_if(packet_format >= 2024);
        let (w, pit_stop_experience) = w.code_if::<PitStopExperience>(packet_format >= 2024);
        let (w, safety_car_intensity) = w.code_if::<SafetyCarIntensity>(packet_format >= 2024);
        let (w, safety_car_experience) = w.code_if::<SafetyCarExperience>(packet_format >= 2024);
        let (w, formation_lap) = w.boolean_if(packet_format >= 2024);
        let (w, formation_lap_experience) = w.code_if::<FormationLapExperience>(
            packet_format >= 2024,
        );
        let (w, red_flag_intensity) = w.code_if::<RedFlagIntensity>(packet_format >= 2024);
        let (w, affects_license_level_solo) = w.boolean_if(packet_format >= 2024);
        let (w, affects_license_level_mp) = w.boolean_if(packet_format >= 2024);
        let (w, num_sessions_in_weekend) = w.index_if(packet_format >= 2024);
        let w = w.fits(
            FieldName::NumSessionsInWeekend,
            num_sessions_in_weekend,
            MAX_NUM_SESSIONS,
            start,
        );
        let (w, weekend_structure) = w.padded_bytes_if(
            packet_format >= 2024,
            num_sessions_in_weekend,
            MAX_NUM_SESSIONS,
        );
        let (w, sector2_lap_distance_start) = w.single_if(packet_format >= 2024);
        let (w, sector3_lap_distance_start) = w.single_if(packet_format >= 2024);
        (
            w,
            SessionWeekendView {
                corner_cutting_stringency,
                parc_ferme_rules,
                pit_stop_experience,
                safety_car_intensity,
                safety_car_experience,
                formation_lap,
                formation_lap_experience,
                red_flag_intensity,
                affects_license_level_solo,
                affects_license_level_mp,
                num_sessions_in_weekend,
                weekend_structure,
                sector2_lap_distance_start,
                sector3_lap_distance_start,
            },
        )
    }

    /// Reads this part of a session packet that starts at `start`.
    pub fn decode(cursor: &mut ByteCursor, packet_format: u16, start: usize) -> (r: Result<SessionWeekend, DecodeError>)
        ensures
            follows_view(r, final(cursor)@, Self::decoded(old(cursor)@, packet_format, start)),
    {
        proof {
            reveal(SessionWeekend::layout);
        }
        let corner_cutting_stringency: Option<CornerCuttingStringency> = cursor.read_code_if(
            packet_format >= 2024,
        )?;
        let parc_ferme_rules: bool = cursor.read_bool_if(packet_format >= 2024)?;
        let pit_stop_experience: Option<PitStopExperience> = cursor.read_code_if(
            packet_format >= 2024,
        )?;
        let safety_car_intensity: Option<SafetyCarIntensity> = cursor.read_code_if(
            packet_format >= 2024,
        )?;
        let safety_car_experience: Option<SafetyCarExperience> = cursor.read_code_if(
            packet_format >= 2024,
        )?;
        let formation_lap: bool = cursor.read_bool_if(packet_format >= 2024)?;
        let formation_lap_experience: Option<FormationLapExperience> = cursor.read_code_if(
            packet_format >= 2024,
        )?;
        let red_flag_intensity: Option<RedFlagIntensity> = cursor.read_code_if(
            packet_format >= 2024,
        )?;
        let affects_license_level_solo: bool = cursor.read_bool_if(packet_format >= 2024)?;
        let affects_license_level_mp: bool = cursor.read_bool_if(packet_format >= 2024)?;
        let num_sessions_in_weekend: usize = cursor.read_index_if(packet_format >= 2024)?;
        cursor.fits(
            FieldName::NumSessionsInWeekend,
            num_sessions_in_weekend,
            MAX_NUM_SESSIONS,
            start,
        )?;
        let weekend_structure: Vec<u8> = cursor.read_padded_bytes_if(
            packet_format >= 2024,
            num_sessions_in_weekend,
            MAX_NUM_SESSIONS,
        )?;
        let sector2_lap_distance_start: F32Bits = cursor.read_f32_if(packet_format >= 2024)?;
        let sector3_lap_distance_start: F32Bits = cursor.read_f32_if(packet_format >= 2024)?;
        Ok(
            SessionWeekend {
                corner_cutting_stringency,
                parc_ferme_rules,
                pit_stop_experience,
                safety_car_intensity,
                safety_car_experience,
                formation_lap,
                formation_lap_experience,
                red_flag_intensity,
                affects_license_level_solo,
                affects_license_level_mp,
                num_sessions_in_weekend,
                weekend_structure,
                sector2_lap_distance_start,
                sector3_lap_distance_start,
            },
        )
    }
}

/// The session packet includes details about the current session in progress.
#[non_exhaustive]
#[derive(Debug, Clone, PartialEq, Eq)]
pub struct F1PacketSession {
    /// The opening of a session packet: weather, track, time left,
    /// spectating.
    pub overview: SessionOverview,
    /// The part of a session packet with its two lists, the marshal zones and
    /// the weather forecast.
    pub zones: SessionZones,
    /// The part of a session packet with the identifiers, the pit stop
    /// window, the assists and the game mode.
    pub assists: SessionAssists,
    /// The part of a session packet that came with the 2023 format: units,
    /// and numbers of safety car and red flag periods.
    pub units: SessionUnits,
    /// The first part of what came to the session packet with the 2024
    /// format: how the car and its damage are simulated.
    pub simulation: SessionSimulation,
    /// The second part of what came to the session packet with the 2024
    /// format: rules, safety car, and the structure of the weekend.
    pub weekend: SessionWeekend,
}

/// A [`F1PacketSession`] as a mathematical value: each list a sequence, each text a
/// sequence of characters.
pub struct F1PacketSessionView {
    pub overview: SessionOverview,
    pub zones: SessionZonesView,
    pub assists: SessionAssists,
    pub units: SessionUnits,
    pub simulation: SessionSimulation,
    pub weekend: SessionWeekendView,
}

impl DeepView for F1PacketSession {
    type V = F1PacketSessionView;

    open spec fn deep_view(&self) -> F1PacketSessionView {
        F1PacketSessionView {
            overview: self.overview.deep_view(),
            zones: self.zones.deep_view(),
            assists: self.assists.deep_view(),
            units: self.units.deep_view(),
            simulation: self.simulation.deep_view(),
            weekend: self.weekend.deep_view(),
        }
    }
}

impl Decode for F1PacketSession {
    open spec fn decoded(w: Wire, packet_format: u16) -> (Wire, F1PacketSessionView) {
        let start = w.pos;
        let (w, overview) = SessionOverview::decoded(w, packet_format, start);
        let (w, zones) = SessionZones::decoded(w, packet_format, start);
        let (w, assists) = SessionAssists::decoded(w, packet_format, start);
        let (w, units) = SessionUnits::decoded(w, packet_format, start);
        let (w, simulation) = SessionSimulation::decoded(w, packet_format, start);
        let (w, weekend) = SessionWeekend::decoded(w, packet_format, start);
        (w, F1PacketSessionView { overview, zones, assists, units, simulation, weekend })
    }

    fn decode(cursor: &mut ByteCursor, packet_format: u16) -> (r: Result<
        F1PacketSession,
        DecodeError,
    >) {
        let start: usize = cursor.position();
        let overview: SessionOverview = SessionOverview::decode(cursor, packet_format, start)?;
        let zones: SessionZones = SessionZones::decode(cursor, packet_format, start)?;
        let assists: SessionAssists = SessionAssists::decode(cursor, packet_format, start)?;
        let units: SessionUnits = SessionUnits::decode(cursor, packet_format, start)?;
        let simulation: SessionSimulation = SessionSimulation::decode(
            cursor,
            packet_format,
            start,
        )?;
        let weekend: SessionWeekend = SessionWeekend::decode(cursor, packet_format, start)?;
        Ok(F1PacketSession { overview, zones, assists, units, simulation, weekend })
    }
}

} // verus!
