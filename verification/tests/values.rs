use binrw::io::Cursor;
use binrw::BinReaderExt;
use f1_game_packet_parser::constants::flags::ButtonStatus;
use f1_game_packet_parser::constants::flags::LapValid;
use f1_game_packet_parser::constants::flags::RevLights;
use f1_game_packet_parser::constants::ActualTyreCompound;
use f1_game_packet_parser::constants::MarshalZoneFlag;
use f1_game_packet_parser::constants::Nationality;
use f1_game_packet_parser::constants::PacketId;
use f1_game_packet_parser::constants::TrackId;
use f1_game_packet_parser::constants::VisualTyreCompound;
use f1_game_packet_parser::constants::Weather;
use f1_game_packet_parser::cursor::ByteCursor;
use f1_game_packet_parser::decode::Decode;
use f1_game_packet_parser::decode::WireCode;
use f1_game_packet_parser::error::DecodeError;
use f1_game_packet_parser::error::FieldName;
use f1_game_packet_parser::packets::event::EventDetails;
use f1_game_packet_parser::packets::read_name;
use f1_game_packet_parser::packets::session::check_num_forecast_samples;
use f1_game_packet_parser::packets::session::get_forecast_samples_padding;
use f1_game_packet_parser::packets::session::get_max_num_samples;
use f1_game_packet_parser::packets::session_history::get_lap_history_raw_size;
use f1_game_packet_parser::packets::u8_to_bool;
use f1_game_packet_parser::packets::u8_to_usize;
use f1_game_packet_parser::packets::F1PacketSessionHistory;
use f1_game_packet_parser::packets::MapBoolError;
use f1_game_packet_parser::parse;
use f1_game_packet_parser::wire::F32Bits;
use f1_game_packet_parser::F1PacketHeader;

/// Little-endian bytes of a header for the given format and kind of packet.
fn header(format: u16, id: u8) -> Vec<u8> {
    let mut bytes: Vec<u8> = Vec::new();
    bytes.extend_from_slice(&format.to_le_bytes());
    if format >= 2023 {
        bytes.push((format - 2000) as u8);
    }
    bytes.push(1);
    bytes.push(2);
    bytes.push(1);
    bytes.push(id);
    bytes.extend_from_slice(&0x0123_4567_89AB_CDEFu64.to_le_bytes());
    bytes.extend_from_slice(&12.5f32.to_le_bytes());
    bytes.extend_from_slice(&77u32.to_le_bytes());
    if format >= 2023 {
        bytes.extend_from_slice(&99u32.to_le_bytes());
    }
    bytes.push(19);
    bytes.push(255);
    bytes
}

/// A header followed by `body`.
fn with_body(format: u16, id: u8, body: &[u8]) -> Vec<u8> {
    let mut bytes = header(format, id);
    bytes.extend_from_slice(body);
    bytes
}

#[test]
fn header_of_2024_holds_every_field() {
    let bytes = header(2024, 1);
    assert_eq!(bytes.len(), 29);
    let mut cursor = ByteCursor::new(&bytes);
    let header = F1PacketHeader::decode(&mut cursor).unwrap();
    assert_eq!(cursor.position(), 29);
    assert_eq!(header.packet_format, 2024);
    assert_eq!(header.game_year, 24);
    assert_eq!(header.game_major_version, 1);
    assert_eq!(header.game_minor_version, 2);
    assert_eq!(header.packet_version, 1);
    assert_eq!(header.packet_id, PacketId::Session);
    assert_eq!(header.session_uid, 0x0123_4567_89AB_CDEF);
    assert_eq!(f32::from_bits(header.session_time.bits), 12.5);
    assert_eq!(header.frame_identifier, 77);
    assert_eq!(header.overall_frame_identifier, 99);
    assert_eq!(header.player_car_index, 19);
    assert_eq!(header.secondary_player_car_index, 255);
}

#[test]
fn header_of_2022_lacks_year_and_overall_frame() {
    let bytes = header(2022, 11);
    assert_eq!(bytes.len(), 24);
    let mut cursor = ByteCursor::new(&bytes);
    let header = F1PacketHeader::decode(&mut cursor).unwrap();
    assert_eq!(cursor.position(), 24);
    assert_eq!(header.packet_format, 2022);
    assert_eq!(header.game_year, 0);
    assert_eq!(header.packet_id, PacketId::SessionHistory);
    assert_eq!(header.frame_identifier, 77);
    assert_eq!(header.overall_frame_identifier, 0);
    assert_eq!(header.player_car_index, 19);
}

#[test]
fn format_2137_is_unsupported_and_named_in_the_message() {
    let data: [u8; 2] = [0x59, 0x08];
    let error = parse(&data).unwrap_err();
    assert_eq!(error, DecodeError::UnsupportedFormat { format: 2137, offset: 0 });
    assert_eq!(error.message(), "Invalid or unsupported packet format: 2137 at 0x0");
    assert!(error.message().contains("2137"));
}

#[test]
fn formats_next_to_the_supported_ones_are_unsupported() {
    let low = header(2021, 0);
    let high = header(2025, 0);
    assert_eq!(parse(&low), Err(DecodeError::UnsupportedFormat { format: 2021, offset: 0 }));
    assert_eq!(parse(&high), Err(DecodeError::UnsupportedFormat { format: 2025, offset: 0 }));
}

#[test]
fn short_header_runs_out_of_bytes() {
    assert_eq!(parse(&[]), Err(DecodeError::EndOfData { offset: 0 }));
    assert_eq!(parse(&[0xE8]), Err(DecodeError::EndOfData { offset: 0 }));
    let full = header(2024, 0);
    // The session identifier starts at 7 and is read in two halves.
    assert_eq!(parse(&full[..10]), Err(DecodeError::EndOfData { offset: 7 }));
    assert_eq!(parse(&full[..27]), Err(DecodeError::EndOfData { offset: 27 }));
    assert_eq!(parse(&full[..28]), Err(DecodeError::EndOfData { offset: 28 }));
    let old = header(2022, 0);
    assert_eq!(parse(&old[..23]), Err(DecodeError::EndOfData { offset: 23 }));
    assert_eq!(parse(&old[..2]), Err(DecodeError::EndOfData { offset: 2 }));
}

#[test]
fn every_prefix_of_a_header_runs_out_of_bytes() {
    for format in [2022u16, 2023, 2024] {
        let full = header(format, 4);
        for len in 0..full.len() {
            match parse(&full[..len]) {
                Err(DecodeError::EndOfData { offset }) => assert!(offset <= len),
                other => panic!("{:?}", other),
            }
        }
    }
}

#[test]
fn unknown_packet_id_is_reported_with_its_place() {
    let new = header(2023, 15);
    assert_eq!(parse(&new), Err(DecodeError::UnknownPacketId { id: 15, offset: 6 }));
    let old = header(2022, 200);
    let error = parse(&old).unwrap_err();
    assert_eq!(error, DecodeError::UnknownPacketId { id: 200, offset: 5 });
    assert_eq!(error.message(), "Unknown packet ID: 200 at 0x5");
}

#[test]
fn vehicle_index_255_is_out_of_range() {
    // The index of the player's car, in a participants packet.
    let mut bytes = with_body(2024, 4, &[0]);
    bytes[27] = 255;
    let error = parse(&bytes).unwrap_err();
    assert_eq!(
        error,
        DecodeError::FieldOutOfRange { field: FieldName::PlayerCarIndex, value: 255, offset: 0 }
    );
    assert_eq!(error.message(), "Header has an invalid player 1 car index: 255 at 0x0");
    // The index of the car of a session history.
    let mut body = vec![0u8; 1436];
    body[0] = 255;
    let history = with_body(2024, 11, &body);
    let error = parse(&history).unwrap_err();
    assert_eq!(
        error,
        DecodeError::FieldOutOfRange { field: FieldName::HistoryVehicleIndex, value: 255, offset: 29 }
    );
    assert_eq!(error.message(), "Session history packet has an invalid vehicle index: 255 at 0x1d");
}

#[test]
fn player_car_index_is_bounded_and_the_second_is_not() {
    let mut bytes = with_body(2022, 4, &[0]);
    bytes[22] = 21;
    bytes[23] = 200;
    let packet = parse(&bytes).unwrap();
    assert_eq!(packet.header.player_car_index, 21);
    assert_eq!(packet.header.secondary_player_car_index, 200);
    bytes[22] = 22;
    assert_eq!(
        parse(&bytes),
        Err(DecodeError::FieldOutOfRange { field: FieldName::PlayerCarIndex, value: 22, offset: 0 })
    );
}

#[test]
fn decoding_twice_gives_the_same() {
    let mut body = vec![0u8; 1436];
    body[1] = 3;
    body[2] = 2;
    let good = with_body(2024, 11, &body);
    assert_eq!(parse(&good), parse(&good));
    assert!(parse(&good).is_ok());
    let bad = header(2024, 77);
    assert_eq!(parse(&bad), parse(&bad));
    assert!(parse(&bad).is_err());
}

#[test]
fn lights_out_takes_four_bytes_and_has_no_details() {
    for format in [2022u16, 2023, 2024] {
        let bytes = with_body(format, 3, b"LGOT");
        let start = bytes.len() - 4;
        let mut cursor = ByteCursor::new(&bytes);
        let packet = f1_game_packet_parser::F1Packet::decode(&mut cursor).unwrap();
        assert_eq!(cursor.position(), start + 4);
        let event = packet.event.unwrap();
        assert_eq!(event.code, "LGOT");
        assert_eq!(event.details, EventDetails::LightsOut);
    }
}

#[test]
fn events_without_details() {
    let cases: [(&[u8; 4], EventDetails); 7] = [
        (b"SSTA", EventDetails::SessionStarted),
        (b"SEND", EventDetails::SessionEnded),
        (b"DRSE", EventDetails::DrsEnabled),
        (b"DRSD", EventDetails::DrsDisabled),
        (b"CHQF", EventDetails::ChequeredFlag),
        (b"LGOT", EventDetails::LightsOut),
        (b"RDFL", EventDetails::RedFlag),
    ];
    for (code, details) in cases {
        let packet = parse(&with_body(2023, 3, code)).unwrap();
        assert_eq!(packet.event.unwrap().details, details);
    }
}

#[test]
fn buttons_event_with_value_three_holds_the_first_two_buttons() {
    let mut body = b"BUTN".to_vec();
    body.extend_from_slice(&0x0000_0003u32.to_le_bytes());
    let packet = parse(&with_body(2024, 3, &body)).unwrap();
    let event = packet.event.unwrap();
    assert_eq!(event.code, "BUTN");
    let status = match event.details {
        EventDetails::Buttons { button_status } => button_status,
        other => panic!("{:?}", other),
    };
    assert_eq!(status.bits(), 3);
    assert!(status.has(ButtonStatus::A_OR_CROSS));
    assert!(status.has(ButtonStatus::Y_OR_TRIANGLE));
    assert!(!status.has(ButtonStatus::B_OR_CIRCLE));
    assert_eq!(status.bits(), ButtonStatus::A_OR_CROSS | ButtonStatus::Y_OR_TRIANGLE);
    assert!(status.contains(ButtonStatus::from_bits_retain(ButtonStatus::A_OR_CROSS)));
    assert_eq!(status.difference(ButtonStatus::from_bits_retain(3)), ButtonStatus::empty());
}

#[test]
fn buttons_event_keeps_every_bit() {
    let mut body = b"BUTN".to_vec();
    body.extend_from_slice(&0x8000_0400u32.to_le_bytes());
    let packet = parse(&with_body(2022, 3, &body)).unwrap();
    match packet.event.unwrap().details {
        EventDetails::Buttons { button_status } => {
            assert_eq!(button_status.bits(), 0x8000_0400);
            assert!(button_status.has(ButtonStatus::UDP_ACTION_12));
            assert!(button_status.has(ButtonStatus::RIGHT_BUMPER));
        },
        other => panic!("{:?}", other),
    }
}

#[test]
fn penalty_event_holds_its_seven_fields() {
    let mut body = b"PENA".to_vec();
    body.extend_from_slice(&[4, 7, 21, 255, 5, 12, 2]);
    let bytes = with_body(2023, 3, &body);
    let mut cursor = ByteCursor::new(&bytes);
    let packet = f1_game_packet_parser::F1Packet::decode(&mut cursor).unwrap();
    assert_eq!(cursor.position(), 29 + 4 + 7);
    match packet.event.unwrap().details {
        EventDetails::Penalty {
            penalty_type,
            infringement_type,
            vehicle_index,
            other_vehicle_index,
            time,
            lap_num,
            places_gained,
        } => {
            assert_eq!(penalty_type, f1_game_packet_parser::constants::PenaltyType::TimePenalty);
            assert_eq!(
                infringement_type,
                f1_game_packet_parser::constants::InfringementType::CornerCuttingGainedTime
            );
            assert_eq!(vehicle_index, 21);
            assert_eq!(other_vehicle_index, 255);
            assert_eq!(time, 5);
            assert_eq!(lap_num, 12);
            assert_eq!(places_gained, 2);
        },
        other => panic!("{:?}", other),
    }
}

#[test]
fn speed_trap_event_holds_both_speeds() {
    let mut body = b"SPTP".to_vec();
    body.push(3);
    body.extend_from_slice(&312.5f32.to_le_bytes());
    body.push(1);
    body.push(0);
    body.push(7);
    body.extend_from_slice(&330.25f32.to_le_bytes());
    let packet = parse(&with_body(2022, 3, &body)).unwrap();
    match packet.event.unwrap().details {
        EventDetails::SpeedTrap {
            vehicle_index,
            speed,
            is_overall_fastest_in_session,
            is_driver_fastest_in_session,
            fastest_vehicle_index,
            fastest_speed_in_session,
        } => {
            assert_eq!(vehicle_index, 3);
            assert_eq!(f32::from_bits(speed.bits), 312.5);
            assert!(is_overall_fastest_in_session);
            assert!(!is_driver_fastest_in_session);
            assert_eq!(fastest_vehicle_index, 7);
            assert_eq!(f32::from_bits(fastest_speed_in_session.bits), 330.25);
        },
        other => panic!("{:?}", other),
    }
}

#[test]
fn event_vehicle_index_is_bounded() {
    let mut body = b"RTMT".to_vec();
    body.push(22);
    assert_eq!(
        parse(&with_body(2024, 3, &body)),
        Err(DecodeError::FieldOutOfRange { field: FieldName::RetirementVehicleIndex, value: 22, offset: 29 })
    );
    let mut overtake = b"OVTK".to_vec();
    overtake.extend_from_slice(&[5, 40]);
    assert_eq!(
        parse(&with_body(2023, 3, &overtake)),
        Err(DecodeError::FieldOutOfRange { field: FieldName::OvertakenVehicleIndex, value: 40, offset: 29 })
    );
}

#[test]
fn unknown_event_code_is_reported_with_its_bytes() {
    let error = parse(&with_body(2024, 3, b"ABCD")).unwrap_err();
    assert_eq!(error, DecodeError::UnknownEventCode { code: 0x4443_4241, offset: 29 });
    assert_eq!(error.message(), "Unknown event code: 0x44434241 at 0x1d");
}

#[test]
fn safety_car_and_collision_events_came_with_2024() {
    let mut safety_car = b"SCAR".to_vec();
    safety_car.extend_from_slice(&[2, 1]);
    let mut collision = b"COLL".to_vec();
    collision.extend_from_slice(&[4, 9]);
    let packet = parse(&with_body(2024, 3, &safety_car)).unwrap();
    assert_eq!(
        packet.event.unwrap().details,
        EventDetails::SafetyCar {
            safety_car_type: f1_game_packet_parser::constants::SafetyCarType::Virtual,
            event_type: f1_game_packet_parser::constants::SafetyCarEventType::Returning,
        }
    );
    let packet = parse(&with_body(2024, 3, &collision)).unwrap();
    assert_eq!(
        packet.event.unwrap().details,
        EventDetails::Collision { vehicle_index: 4, other_vehicle_index: 9 }
    );
    assert_eq!(
        parse(&with_body(2023, 3, &safety_car)),
        Err(DecodeError::UnknownEventCode { code: 0x5241_4353, offset: 29 })
    );
    assert_eq!(
        parse(&with_body(2022, 3, &collision)),
        Err(DecodeError::UnknownEventCode { code: 0x4C4C_4F43, offset: 24 })
    );
}

#[test]
fn event_code_must_be_text() {
    let error = parse(&with_body(2024, 3, &[0xFF, 0xFE, 0x41, 0x42])).unwrap_err();
    assert_eq!(error, DecodeError::MalformedText { offset: 29 });
    assert_eq!(error.message(), "Text is not valid UTF-8 at 0x1d");
}

#[test]
fn session_history_with_five_laps() {
    let mut body = vec![0u8; 7];
    body[0] = 3;
    body[1] = 5;
    body[2] = 2;
    body[3] = 4;
    for lap in 0..5u32 {
        body.extend_from_slice(&(90_000 + lap).to_le_bytes());
        body.extend_from_slice(&30_000u16.to_le_bytes());
        body.push(0);
        body.extend_from_slice(&29_000u16.to_le_bytes());
        body.push(1);
        body.extend_from_slice(&31_000u16.to_le_bytes());
        body.push(2);
        body.push(0x0F);
    }
    // Room for 95 more laps, filled with bytes that are no lap at all.
    body.extend_from_slice(&vec![0xEEu8; 95 * 14]);
    body.extend_from_slice(&[20, 16, 16]);
    body.extend_from_slice(&[255, 18, 18]);
    let mut cursor = ByteCursor::new(&body);
    let history = F1PacketSessionHistory::decode(&mut cursor, 2024).unwrap();
    assert_eq!(cursor.position(), 7 + 100 * 14 + 2 * 3);
    assert_eq!(history.vehicle_index, 3);
    assert_eq!(history.num_laps, 5);
    assert_eq!(history.num_tyre_stints, 2);
    assert_eq!(history.best_lap_time_lap_num, 4);
    assert_eq!(history.lap_history_data.len(), 5);
    assert_eq!(history.lap_history_data[4].lap_time_ms, 90_004);
    assert_eq!(history.lap_history_data[0].sector1_time_ms_part, 30_000);
    assert_eq!(history.lap_history_data[0].sector2_time_minutes_part, 1);
    assert_eq!(history.lap_history_data[0].sector3_time_minutes, 2);
    assert_eq!(history.lap_history_data[0].lap_valid_bit_flags.bits(), 0x0F);
    assert!(history.lap_history_data[0].lap_valid_bit_flags.has(LapValid::SECTOR_3));
    assert_eq!(history.tyre_stint_history_data.len(), 2);
    assert_eq!(history.tyre_stint_history_data[0].end_lap, 20);
    assert_eq!(history.tyre_stint_history_data[0].actual_tyre_compound, ActualTyreCompound::C5);
    assert_eq!(history.tyre_stint_history_data[1].end_lap, 255);
    assert_eq!(history.tyre_stint_history_data[1].visual_tyre_compound, VisualTyreCompound::F1Hard);
}

#[test]
fn session_history_of_2022_has_narrower_laps() {
    let mut body = vec![0u8; 7];
    body[1] = 1;
    body[2] = 1;
    body.extend_from_slice(&81_234u32.to_le_bytes());
    body.extend_from_slice(&25_000u16.to_le_bytes());
    body.extend_from_slice(&26_000u16.to_le_bytes());
    body.extend_from_slice(&27_000u16.to_le_bytes());
    body.push(0x01);
    body.extend_from_slice(&vec![0xEEu8; 99 * 11]);
    body.extend_from_slice(&[9, 7, 7]);
    let mut cursor = ByteCursor::new(&body);
    let history = F1PacketSessionHistory::decode(&mut cursor, 2022).unwrap();
    assert_eq!(cursor.position(), 7 + 100 * 11 + 3);
    assert_eq!(history.lap_history_data.len(), 1);
    assert_eq!(history.lap_history_data[0].lap_time_ms, 81_234);
    assert_eq!(history.lap_history_data[0].sector2_time_ms_part, 26_000);
    assert_eq!(history.lap_history_data[0].sector1_time_minutes_part, 0);
    assert_eq!(history.lap_history_data[0].lap_valid_bit_flags.bits(), 1);
    assert_eq!(history.tyre_stint_history_data[0].end_lap, 9);
    assert_eq!(history.tyre_stint_history_data[0].actual_tyre_compound, ActualTyreCompound::Inter);
}

#[test]
fn session_history_counts_are_bounded() {
    let mut body = vec![0u8; 1436];
    body[1] = 101;
    let mut cursor = ByteCursor::new(&body);
    assert_eq!(
        F1PacketSessionHistory::decode(&mut cursor, 2024),
        Err(DecodeError::CountExceedsCapacity { field: FieldName::NumLaps, count: 101, capacity: 100, offset: 0 })
    );
    body[1] = 100;
    body[2] = 9;
    let mut cursor = ByteCursor::new(&body);
    let error = F1PacketSessionHistory::decode(&mut cursor, 2024).unwrap_err();
    assert_eq!(
        error,
        DecodeError::CountExceedsCapacity { field: FieldName::NumTyreStints, count: 9, capacity: 8, offset: 0 }
    );
    assert_eq!(error.message(), "Session history packet has an invalid number of tyre stints: 9 at 0x0");
}

#[test]
fn session_of_2024_holds_zones_forecast_and_weekend() {
    let mut body = vec![0u8; 724];
    body[0] = 3;
    body[1] = 0xFB;
    body[2] = 25;
    body[4..6].copy_from_slice(&5_891u16.to_le_bytes());
    body[7] = 0xFF;
    body[14] = 1;
    body[16] = 255;
    body[18] = 2;
    body[19..23].copy_from_slice(&0.25f32.to_le_bytes());
    body[23] = 0xFF;
    body[24..28].copy_from_slice(&0.75f32.to_le_bytes());
    body[28] = 3;
    body[126] = 1;
    body[127] = 10;
    body[128] = 30;
    body[129] = 4;
    body[130] = 0xF6;
    body[131] = 1;
    body[132] = 12;
    body[133] = 2;
    body[134] = 100;
    body[640] = 110;
    body[703] = 3;
    body[704] = 5;
    body[705] = 6;
    body[706] = 10;
    body[716..720].copy_from_slice(&1200.5f32.to_le_bytes());
    let bytes = with_body(2024, 1, &body);
    let session = parse(&bytes).unwrap().session.unwrap();
    assert_eq!(session.overview.weather, Weather::LightRain);
    assert_eq!(session.overview.track_temperature, -5);
    assert_eq!(session.overview.air_temperature, 25);
    assert_eq!(session.overview.track_length, 5_891);
    assert_eq!(session.overview.track_id, TrackId::Unknown);
    assert!(session.overview.game_paused);
    assert!(!session.overview.is_spectating);
    assert_eq!(session.overview.spectator_car_index, 255);
    assert_eq!(session.zones.num_marshal_zones, 2);
    assert_eq!(session.zones.marshal_zones.len(), 2);
    assert_eq!(f32::from_bits(session.zones.marshal_zones[0].zone_start.bits), 0.25);
    assert_eq!(session.zones.marshal_zones[0].zone_flag, MarshalZoneFlag::Unknown);
    assert_eq!(f32::from_bits(session.zones.marshal_zones[1].zone_start.bits), 0.75);
    assert_eq!(session.zones.marshal_zones[1].zone_flag, MarshalZoneFlag::Yellow);
    assert_eq!(session.zones.weather_forecast_samples.len(), 1);
    assert_eq!(session.zones.weather_forecast_samples[0].session_type, 10);
    assert_eq!(session.zones.weather_forecast_samples[0].time_offset, 30);
    assert_eq!(session.zones.weather_forecast_samples[0].weather, Weather::HeavyRain);
    assert_eq!(session.zones.weather_forecast_samples[0].track_temperature, -10);
    assert_eq!(session.zones.weather_forecast_samples[0].air_temperature, 12);
    assert_eq!(session.zones.weather_forecast_samples[0].rain_percentage, 100);
    assert_eq!(session.zones.ai_difficulty, 110);
    assert_eq!(session.weekend.num_sessions_in_weekend, 3);
    assert_eq!(session.weekend.weekend_structure, vec![5, 6, 10]);
    assert_eq!(f32::from_bits(session.weekend.sector2_lap_distance_start.bits), 1200.5);
    assert_eq!(f32::from_bits(session.weekend.sector3_lap_distance_start.bits), 0.0);
}

#[test]
fn session_of_2022_ends_before_the_newer_parts() {
    let mut body = vec![0u8; 608];
    body[576] = 110;
    let bytes = with_body(2022, 1, &body);
    let session = parse(&bytes).unwrap().session.unwrap();
    assert_eq!(session.zones.ai_difficulty, 110);
    assert_eq!(session.units.speed_unit_lead_player, None);
    assert_eq!(session.units.num_red_flag_periods, 0);
    assert_eq!(session.simulation.recovery_mode, None);
    assert!(!session.simulation.equal_car_performance);
    assert_eq!(session.weekend.weekend_structure, Vec::<u8>::new());
    assert_eq!(session.weekend.num_sessions_in_weekend, 0);
}

#[test]
fn session_rejects_what_is_out_of_range() {
    let start = 29;
    let mut body = vec![0u8; 724];
    body[18] = 22;
    assert_eq!(
        parse(&with_body(2024, 1, &body)),
        Err(DecodeError::CountExceedsCapacity {
            field: FieldName::NumMarshalZones,
            count: 22,
            capacity: 21,
            offset: start,
        })
    );
    body[18] = 1;
    body[19..23].copy_from_slice(&1.0f32.to_le_bytes());
    assert_eq!(
        parse(&with_body(2024, 1, &body)),
        Err(DecodeError::FieldOutOfRange {
            field: FieldName::ZoneStart,
            value: 0x3F80_0000,
            offset: start + 19,
        })
    );
    body[19..23].copy_from_slice(&0.5f32.to_le_bytes());
    body[126] = 65;
    assert_eq!(
        parse(&with_body(2024, 1, &body)),
        Err(DecodeError::CountExceedsCapacity {
            field: FieldName::NumWeatherForecastSamples,
            count: 65,
            capacity: 64,
            offset: start,
        })
    );
    body[126] = 1;
    body[134] = 101;
    assert_eq!(
        parse(&with_body(2024, 1, &body)),
        Err(DecodeError::FieldOutOfRange { field: FieldName::RainPercentage, value: 101, offset: start + 127 })
    );
    body[134] = 0;
    body[640] = 111;
    assert_eq!(
        parse(&with_body(2024, 1, &body)),
        Err(DecodeError::FieldOutOfRange { field: FieldName::AiDifficulty, value: 111, offset: start })
    );
    body[640] = 0;
    body[703] = 13;
    assert_eq!(
        parse(&with_body(2024, 1, &body)),
        Err(DecodeError::CountExceedsCapacity {
            field: FieldName::NumSessionsInWeekend,
            count: 13,
            capacity: 12,
            offset: start,
        })
    );
    body[703] = 12;
    assert!(parse(&with_body(2024, 1, &body)).is_ok());
}

#[test]
fn forecast_of_older_formats_has_room_for_56_samples() {
    let mut body = vec![0u8; 615];
    body[126] = 57;
    assert_eq!(
        parse(&with_body(2023, 1, &body)),
        Err(DecodeError::CountExceedsCapacity {
            field: FieldName::NumWeatherForecastSamples,
            count: 57,
            capacity: 56,
            offset: 29,
        })
    );
    body[126] = 56;
    assert_eq!(parse(&with_body(2023, 1, &body)).unwrap().session.unwrap().zones.weather_forecast_samples.len(), 56);
}

#[test]
fn flag_byte_must_be_zero_or_one() {
    let mut body = vec![0u8; 724];
    body[14] = 2;
    let error = parse(&with_body(2024, 1, &body)).unwrap_err();
    assert_eq!(error, DecodeError::InvalidBool { byte: 2, offset: 29 + 14 });
    assert_eq!(error.message(), "Invalid bool value: 2 at 0x2b");
}

#[test]
fn byte_outside_a_table_is_out_of_range() {
    let mut body = vec![0u8; 724];
    body[0] = 6;
    let error = parse(&with_body(2024, 1, &body)).unwrap_err();
    assert_eq!(error, DecodeError::FieldOutOfRange { field: FieldName::Weather, value: 6, offset: 29 });
    assert_eq!(error.message(), "Invalid weather value: 6 at 0x1d");
    body[0] = 0;
    body[7] = 33;
    assert_eq!(
        parse(&with_body(2024, 1, &body)),
        Err(DecodeError::FieldOutOfRange { field: FieldName::TrackId, value: 33, offset: 29 + 7 })
    );
}

#[test]
fn tables_of_codes() {
    assert_eq!(Nationality::from_code(90), Some(Nationality::Filipino));
    assert_eq!(Nationality::from_code(91), None);
    assert_eq!(MarshalZoneFlag::from_code(255), Some(MarshalZoneFlag::Unknown));
    assert_eq!(MarshalZoneFlag::from_code(0), Some(MarshalZoneFlag::NoFlag));
    assert_eq!(MarshalZoneFlag::from_code(5), None);
    assert_eq!(TrackId::from_code(255), Some(TrackId::Unknown));
    assert_eq!(TrackId::from_code(32), Some(TrackId::Losail));
    assert_eq!(ActualTyreCompound::from_code(16), Some(ActualTyreCompound::C5));
    assert_eq!(ActualTyreCompound::from_code(21), Some(ActualTyreCompound::C0));
    assert_eq!(ActualTyreCompound::from_code(7), Some(ActualTyreCompound::Inter));
    assert_eq!(ActualTyreCompound::from_code(1), None);
    assert_eq!(VisualTyreCompound::from_code(22), Some(VisualTyreCompound::F2Hard));
    assert_eq!(Weather::field_name(), FieldName::Weather);
    for raw in 0..=255u8 {
        match PacketId::from_code(raw) {
            Some(id) => assert_eq!(id.to_code(), raw),
            None => assert!(raw > 14),
        }
    }
    for raw in 0..=255u8 {
        assert_eq!(TrackId::from_code(raw).map(|track| track.to_code()).unwrap_or(raw), raw);
        assert_eq!(Nationality::from_code(raw).map(|nation| nation.to_code()).unwrap_or(raw), raw);
        assert_eq!(ActualTyreCompound::from_code(raw).map(|tyre| tyre.to_code()).unwrap_or(raw), raw);
    }
    assert_eq!(MarshalZoneFlag::Unknown.to_code(), 255);
    assert_eq!(VisualTyreCompound::F1Wet.to_code(), 8);
    assert!(ActualTyreCompound::Inter < ActualTyreCompound::C5);
    assert!(MarshalZoneFlag::Unknown < MarshalZoneFlag::NoFlag);
}

#[test]
fn participant_names_end_at_the_first_nul() {
    let mut body = vec![0u8; 1 + 2 * 60];
    body[0] = 2;
    body[1] = 1;
    body[2] = 9;
    body[7] = 22;
    body[8..11].copy_from_slice(b"MAX");
    body[12] = b'!';
    body[56] = 1;
    body[58..60].copy_from_slice(&1_234u16.to_le_bytes());
    body[60] = 1;
    let second = 61;
    let name = "Zoë Müller";
    body[second + 7..second + 7 + name.len()].copy_from_slice(name.as_bytes());
    body[second + 59] = 255;
    let packet = parse(&with_body(2024, 4, &body)).unwrap();
    let participants = packet.participants.unwrap();
    assert_eq!(participants.num_active_cars, 2);
    assert_eq!(participants.data.len(), 2);
    assert!(participants.data[0].ai_controlled);
    assert_eq!(participants.data[0].driver_id, 9);
    assert_eq!(participants.data[0].nationality, Nationality::Dutch);
    assert_eq!(participants.data[0].name, "MAX");
    assert_eq!(
        participants.data[0].your_telemetry,
        Some(f1_game_packet_parser::constants::YourTelemetry::Public)
    );
    assert_eq!(participants.data[0].tech_level, 1_234);
    assert_eq!(participants.data[0].platform, Some(f1_game_packet_parser::constants::Platform::Steam));
    assert_eq!(participants.data[1].name, "Zoë Müller");
    assert_eq!(participants.data[1].platform, Some(f1_game_packet_parser::constants::Platform::Unknown));
}

#[test]
fn participant_name_must_be_text() {
    let mut body = vec![0u8; 61];
    body[0] = 1;
    body[8] = 0xC3;
    body[9] = 0x28;
    assert_eq!(parse(&with_body(2024, 4, &body)), Err(DecodeError::MalformedText { offset: 29 + 8 }));
    // Behind the first NUL anything goes.
    body[8] = 0;
    let packet = parse(&with_body(2024, 4, &body)).unwrap();
    assert_eq!(packet.participants.unwrap().data[0].name, "");
}

#[test]
fn participants_are_counted_after_they_are_read() {
    let mut body = vec![0u8; 1 + 23 * 56];
    body[0] = 23;
    assert_eq!(
        parse(&with_body(2022, 4, &body)),
        Err(DecodeError::CountExceedsCapacity {
            field: FieldName::NumActiveCars,
            count: 23,
            capacity: 22,
            offset: 24,
        })
    );
    assert_eq!(parse(&with_body(2022, 4, &body[..100])), Err(DecodeError::EndOfData { offset: 24 + 1 + 56 + 7 }));
}

#[test]
fn name_in_a_full_field() {
    let field = [b'x'; 48];
    assert_eq!(read_name(field).unwrap(), "x".repeat(48));
    let mut field = [0u8; 48];
    field[..5].copy_from_slice(b"Lando");
    field[6] = 0xFF;
    assert_eq!(read_name(field).unwrap(), "Lando");
    field[2] = 0xFF;
    assert!(read_name(field).is_err());
    assert_eq!(read_name([0u8; 48]).unwrap(), "");
}

#[test]
fn small_conversions() {
    assert_eq!(u8_to_bool(0), Ok(false));
    assert_eq!(u8_to_bool(1), Ok(true));
    assert_eq!(u8_to_bool(2), Err(MapBoolError { value: 2 }));
    assert_eq!(u8_to_bool(255), Err(MapBoolError { value: 255 }));
    assert_eq!(u8_to_usize(0), 0);
    assert_eq!(u8_to_usize(255), 255);
    assert_eq!(get_max_num_samples(2022), 56);
    assert_eq!(get_max_num_samples(2023), 56);
    assert_eq!(get_max_num_samples(2024), 64);
    assert!(check_num_forecast_samples(2023, 56));
    assert!(!check_num_forecast_samples(2023, 57));
    assert!(check_num_forecast_samples(2024, 64));
    assert!(!check_num_forecast_samples(2024, 65));
    assert_eq!(get_forecast_samples_padding(2024, 0), 512);
    assert_eq!(get_forecast_samples_padding(2024, 64), 0);
    assert_eq!(get_forecast_samples_padding(2022, 20), 288);
    assert_eq!(get_lap_history_raw_size(2022), 11);
    assert_eq!(get_lap_history_raw_size(2023), 14);
    assert_eq!(get_lap_history_raw_size(2024), 14);
}

#[test]
fn cursor_reads_little_endian_numbers() {
    let bytes: [u8; 24] = [
        0x12, 0x34, 0x12, 0x78, 0x56, 0x34, 0x12, 0xEF, 0xCD, 0xAB, 0x89, 0x67, 0x45, 0x23, 0x01, 0x80, 0xFF, 0xFE, 0xFF,
        0x00, 0x00, 0x80, 0xBF, 0x01,
    ];
    let mut cursor = ByteCursor::new(&bytes);
    assert_eq!(cursor.read_u8(), Ok(0x12));
    assert_eq!(cursor.read_u16(), Ok(0x1234));
    assert_eq!(cursor.read_u32(), Ok(0x1234_5678));
    assert_eq!(cursor.read_u64(), Ok(0x0123_4567_89AB_CDEF));
    assert_eq!(cursor.read_i8(), Ok(-128));
    assert_eq!(cursor.read_i8(), Ok(-1));
    assert_eq!(cursor.read_i16(), Ok(-2));
    assert_eq!(cursor.position(), 19);
    assert_eq!(cursor.read_f32().map(|x| f32::from_bits(x.bits)), Ok(-1.0));
    assert_eq!(cursor.read_bool(), Ok(true));
    assert_eq!(cursor.position(), 24);
    assert_eq!(cursor.read_u8(), Err(DecodeError::EndOfData { offset: 24 }));
    assert_eq!(cursor.position(), 24);
}

#[test]
fn cursor_reads_as_binrw_does() {
    let bytes: Vec<u8> = (0..64u32).map(|i| (i * 37 + 11) as u8).collect();
    let mut ours = ByteCursor::new(&bytes);
    let mut theirs = Cursor::new(&bytes);
    assert_eq!(ours.read_u8().unwrap(), theirs.read_le::<u8>().unwrap());
    assert_eq!(ours.read_u16().unwrap(), theirs.read_le::<u16>().unwrap());
    assert_eq!(ours.read_u32().unwrap(), theirs.read_le::<u32>().unwrap());
    assert_eq!(ours.read_u64().unwrap(), theirs.read_le::<u64>().unwrap());
    assert_eq!(ours.read_i8().unwrap(), theirs.read_le::<i8>().unwrap());
    assert_eq!(ours.read_i16().unwrap(), theirs.read_le::<i16>().unwrap());
    assert_eq!(ours.read_f32().unwrap().bits, theirs.read_le::<f32>().unwrap().to_bits());
    assert_eq!(ours.read_f64().unwrap().bits, theirs.read_le::<f64>().unwrap().to_bits());
    assert_eq!(ours.read_i16().unwrap(), theirs.read_le::<i16>().unwrap());
    assert_eq!(ours.read_i8().unwrap(), theirs.read_le::<i8>().unwrap());
    assert_eq!(ours.position() as u64, theirs.position());
}

#[test]
fn cursor_peeks_skips_and_reads_bytes() {
    let bytes: [u8; 6] = [1, 2, 3, 4, 5, 6];
    let mut cursor = ByteCursor::new(&bytes);
    assert_eq!(cursor.peek_bytes(4), Ok(vec![1, 2, 3, 4]));
    assert_eq!(cursor.position(), 0);
    assert_eq!(cursor.read_bytes(2), Ok(vec![1, 2]));
    assert_eq!(cursor.position(), 2);
    assert_eq!(cursor.peek_bytes(5), Err(DecodeError::EndOfData { offset: 2 }));
    assert_eq!(cursor.read_bytes(5), Err(DecodeError::EndOfData { offset: 2 }));
    assert_eq!(cursor.position(), 2);
    cursor.skip(3);
    assert_eq!(cursor.position(), 5);
    assert!(cursor.has(1));
    assert!(!cursor.has(2));
    assert_eq!(cursor.read_padded_bytes(1, 4), Ok(vec![6]));
    assert_eq!(cursor.position(), 9);
    assert_eq!(cursor.read_u8(), Err(DecodeError::EndOfData { offset: 9 }));
    assert_eq!(cursor.read_bytes(0), Ok(vec![]));
    cursor.skip(usize::MAX);
    assert_eq!(cursor.position(), usize::MAX);
    assert_eq!(cursor.read_u16(), Err(DecodeError::EndOfData { offset: usize::MAX }));
}

#[test]
fn flag_sets_keep_their_bits() {
    assert_eq!(RevLights::from_bits_retain(0xFFFF).bits(), 0xFFFF);
    assert_eq!(RevLights::from_bits_truncate(0xFFFF).bits(), 0x7FFF);
    assert_eq!(RevLights::from_bits(0x8001), None);
    assert_eq!(RevLights::from_bits(0x4001).map(|lights| lights.bits()), Some(0x4001));
    assert_eq!(RevLights::all().bits(), 0x7FFF);
    assert!(RevLights::empty().is_empty());
    let low = RevLights::from_bits_retain(RevLights::LEFT_1 | RevLights::LEFT_2);
    let mid = RevLights::from_bits_retain(RevLights::LEFT_2 | RevLights::MIDDLE_1);
    assert_eq!(low.union(mid).bits(), 0x0023);
    assert_eq!(low.intersection(mid).bits(), 0x0002);
    assert_eq!(low.difference(mid).bits(), 0x0001);
    assert!(low.intersects(mid));
    assert!(!low.contains(mid));
    assert!(low.union(mid).contains(mid));
    assert!(!low.has(RevLights::RIGHT_5));
    assert_eq!(LapValid::all().bits(), 0x0F);
    assert_eq!(LapValid::from_bits_truncate(0xF5).bits(), 0x05);
    assert_eq!(ButtonStatus::all().bits(), 0xFFFF_FFFF);
}

#[test]
fn telemetry_keeps_rev_light_bits_and_tests_ranges() {
    let entry = 60;
    let mut body = vec![0u8; 22 * entry + 3];
    body[2..6].copy_from_slice(&1.0f32.to_le_bytes());
    body[6..10].copy_from_slice(&(-1.0f32).to_le_bytes());
    body[10..14].copy_from_slice(&0.5f32.to_le_bytes());
    body[14] = 100;
    body[15] = 0xFF;
    body[19] = 100;
    body[20..22].copy_from_slice(&0x8421u16.to_le_bytes());
    body[22 * entry + 2] = 8;
    let packet = parse(&with_body(2024, 6, &body)).unwrap();
    let telemetry = packet.car_telemetry.unwrap();
    assert_eq!(f32::from_bits(telemetry.data[0].throttle.bits), 1.0);
    assert_eq!(f32::from_bits(telemetry.data[0].steer.bits), -1.0);
    assert_eq!(telemetry.data[0].gear, -1);
    assert_eq!(telemetry.data[0].rev_lights_bit_value.bits(), 0x8421);
    assert_eq!(telemetry.data[0].surface_type.map(|s| s.len()), Some(4));
    assert_eq!(telemetry.suggested_gear, 8);
    let at = 29;
    body[2..6].copy_from_slice(&1.5f32.to_le_bytes());
    assert_eq!(
        parse(&with_body(2024, 6, &body)),
        Err(DecodeError::FieldOutOfRange { field: FieldName::Throttle, value: 0x3FC0_0000, offset: at })
    );
    body[2..6].copy_from_slice(&0.0f32.to_le_bytes());
    body[6..10].copy_from_slice(&(-1.25f32).to_le_bytes());
    assert_eq!(
        parse(&with_body(2024, 6, &body)),
        Err(DecodeError::FieldOutOfRange { field: FieldName::Steer, value: 0xBFA0_0000, offset: at })
    );
    body[6..10].copy_from_slice(&0.0f32.to_le_bytes());
    body[15] = 9;
    assert_eq!(
        parse(&with_body(2024, 6, &body)),
        Err(DecodeError::FieldOutOfRange { field: FieldName::Gear, value: 9, offset: at })
    );
    body[15] = 0xFE;
    let error = parse(&with_body(2024, 6, &body)).unwrap_err();
    assert_eq!(error, DecodeError::FieldOutOfRange { field: FieldName::Gear, value: -2, offset: at });
    assert_eq!(error.message(), "Car telemetry entry has an invalid gear value: -2 at 0x1d");
    body[15] = 0;
    body[22 * entry + 2] = 9;
    assert_eq!(
        parse(&with_body(2024, 6, &body)),
        Err(DecodeError::FieldOutOfRange { field: FieldName::SuggestedGear, value: 9, offset: at })
    );
}

#[test]
fn ranges_of_numbers_with_a_fraction() {
    let samples: [f32; 22] = [
        0.0,
        -0.0,
        1.0,
        -1.0,
        0.5,
        -0.5,
        0.999_999_94,
        1.000_000_1,
        -0.999_999_94,
        -1.000_000_1,
        f32::MIN_POSITIVE,
        -f32::MIN_POSITIVE,
        1.0e-45,
        -1.0e-45,
        2.0,
        -2.0,
        f32::MAX,
        f32::MIN,
        f32::INFINITY,
        f32::NEG_INFINITY,
        f32::NAN,
        -f32::NAN,
    ];
    for x in samples {
        let bits = F32Bits { bits: x.to_bits() };
        assert_eq!(bits.is_in_unit_range(), (0.0..=1.0).contains(&x), "{}", x);
        assert_eq!(bits.is_below_one(), (0.0..1.0).contains(&x), "{}", x);
        assert_eq!(bits.is_in_signed_unit_range(), (-1.0..=1.0).contains(&x), "{}", x);
    }
    let mut pattern: u32 = 0;
    loop {
        let x = f32::from_bits(pattern);
        let bits = F32Bits { bits: pattern };
        assert_eq!(bits.is_in_unit_range(), (0.0..=1.0).contains(&x));
        assert_eq!(bits.is_below_one(), (0.0..1.0).contains(&x));
        assert_eq!(bits.is_in_signed_unit_range(), (-1.0..=1.0).contains(&x));
        match pattern.checked_add(0x0001_0001) {
            Some(next) => pattern = next,
            None => break,
        }
    }
}

#[test]
fn final_classification_passes_over_the_unused_stints() {
    let mut entry = vec![0u8; 45];
    entry[0] = 1;
    entry[5] = 3;
    entry[6..10].copy_from_slice(&83_456u32.to_le_bytes());
    entry[10..18].copy_from_slice(&5_400.25f64.to_le_bytes());
    entry[20] = 2;
    entry[21] = 16;
    entry[22] = 18;
    entry[23] = 0xEE;
    entry[29] = 16;
    entry[30] = 18;
    entry[37] = 20;
    entry[38] = 57;
    let mut body = vec![1u8];
    body.extend_from_slice(&entry);
    let bytes = with_body(2023, 8, &body);
    let mut cursor = ByteCursor::new(&bytes);
    let packet = f1_game_packet_parser::F1Packet::decode(&mut cursor).unwrap();
    assert_eq!(cursor.position(), 29 + 1 + 45);
    let classification = packet.final_classification.unwrap();
    assert_eq!(classification.num_cars, 1);
    let car = &classification.data[0];
    assert_eq!(car.position, 1);
    assert_eq!(car.result_status, f1_game_packet_parser::constants::ResultStatus::Finished);
    assert_eq!(car.best_lap_time_ms, 83_456);
    assert_eq!(f64::from_bits(car.total_race_time.bits), 5_400.25);
    assert_eq!(car.num_tyre_stints, 2);
    assert_eq!(car.tyre_stints_actual, vec![ActualTyreCompound::C5, ActualTyreCompound::C3]);
    assert_eq!(car.tyre_stints_visual, vec![VisualTyreCompound::F1Soft, VisualTyreCompound::F1Hard]);
    assert_eq!(car.tyre_stints_end_laps, vec![20, 57]);
    body[1 + 20] = 9;
    assert_eq!(
        parse(&with_body(2023, 8, &body)),
        Err(DecodeError::CountExceedsCapacity {
            field: FieldName::NumClassifiedTyreStints,
            count: 9,
            capacity: 8,
            offset: 30,
        })
    );
}

#[test]
fn laps_of_2022_and_2024_differ_in_width() {
    let mut old = vec![0u8; 22 * 43 + 2];
    old[0..4].copy_from_slice(&91_000u32.to_le_bytes());
    old[8..10].copy_from_slice(&28_500u16.to_le_bytes());
    old[10..12].copy_from_slice(&29_500u16.to_le_bytes());
    old[24] = 4;
    old[28] = 2;
    old[22 * 43] = 255;
    old[22 * 43 + 1] = 7;
    let laps = parse(&with_body(2022, 2, &old)).unwrap().laps.unwrap();
    assert_eq!(laps.data.len(), 22);
    assert_eq!(laps.data[0].last_lap_time_ms, 91_000);
    assert_eq!(laps.data[0].sector1_time_ms_part, 28_500);
    assert_eq!(laps.data[0].sector1_time_minutes_part, 0);
    assert_eq!(laps.data[0].sector2_time_ms_part, 29_500);
    assert_eq!(laps.data[0].car_position, 4);
    assert_eq!(laps.data[0].sector, f1_game_packet_parser::constants::Sector::Third);
    assert_eq!(laps.time_trial_pb_car_index, 255);
    assert_eq!(laps.time_trial_rival_car_index, 7);
    let mut new = vec![0u8; 22 * 57 + 2];
    new[8..10].copy_from_slice(&28_500u16.to_le_bytes());
    new[10] = 1;
    new[11..13].copy_from_slice(&29_500u16.to_le_bytes());
    new[13] = 2;
    new[14..16].copy_from_slice(&700u16.to_le_bytes());
    new[16] = 3;
    new[32] = 4;
    new[52..56].copy_from_slice(&321.5f32.to_le_bytes());
    new[56] = 12;
    let laps = parse(&with_body(2024, 2, &new)).unwrap().laps.unwrap();
    assert_eq!(laps.data[0].sector1_time_minutes_part, 1);
    assert_eq!(laps.data[0].sector2_time_ms_part, 29_500);
    assert_eq!(laps.data[0].sector2_time_minutes_part, 2);
    assert_eq!(laps.data[0].delta_to_car_in_front_ms_part, 700);
    assert_eq!(laps.data[0].delta_to_car_in_front_minutes_part, 3);
    assert_eq!(laps.data[0].car_position, 4);
    assert_eq!(f32::from_bits(laps.data[0].speed_trap_fastest_speed.bits), 321.5);
    assert_eq!(laps.data[0].speed_trap_fastest_lap, 12);
    assert_eq!(
        parse(&with_body(2024, 2, &{
            let mut bad = new.clone();
            bad[36] = 3;
            bad
        })),
        Err(DecodeError::FieldOutOfRange { field: FieldName::Sector, value: 3, offset: 29 + 36 })
    );
}

#[test]
fn motion_of_2022_ends_with_the_data_of_the_player() {
    let mut body = vec![0u8; 22 * 60 + 120];
    body[24..26].copy_from_slice(&(-32767i16).to_le_bytes());
    body[22 * 60 + 16..22 * 60 + 20].copy_from_slice(&0.125f32.to_le_bytes());
    body[22 * 60 + 12..22 * 60 + 16].copy_from_slice(&(-3.5f32).to_le_bytes());
    let motion = parse(&with_body(2022, 0, &body)).unwrap().motion.unwrap();
    assert_eq!(motion.data.len(), 22);
    assert_eq!(motion.data[0].world_forward_dir_x, -32767);
    let player = motion.motion_ex.unwrap();
    assert_eq!(f32::from_bits(player.suspension_position[3].bits), -3.5);
    assert_eq!(f32::from_bits(player.suspension_velocity[0].bits), 0.125);
    let newer = parse(&with_body(2023, 0, &body)).unwrap().motion.unwrap();
    assert_eq!(newer.motion_ex, None);
}

#[test]
fn tyre_sets_and_time_trial_hold_their_checks() {
    let mut sets = vec![0u8; 202];
    sets[0] = 5;
    sets[1] = 16;
    sets[2] = 16;
    sets[3] = 100;
    sets[4] = 1;
    sets[8..10].copy_from_slice(&(-250i16).to_le_bytes());
    sets[201] = 19;
    let packet = parse(&with_body(2023, 12, &sets)).unwrap().tyre_sets.unwrap();
    assert_eq!(packet.vehicle_index, 5);
    assert_eq!(packet.data.len(), 20);
    assert_eq!(packet.data[0].wear, 100);
    assert!(packet.data[0].available);
    assert_eq!(packet.data[0].lap_delta_time, -250);
    assert_eq!(packet.fitted_index, 19);
    sets[201] = 20;
    assert_eq!(
        parse(&with_body(2023, 12, &sets)),
        Err(DecodeError::FieldOutOfRange { field: FieldName::FittedIndex, value: 20, offset: 29 })
    );
    sets[201] = 0;
    sets[13] = 101;
    assert_eq!(
        parse(&with_body(2023, 12, &sets)),
        Err(DecodeError::FieldOutOfRange { field: FieldName::Wear, value: 101, offset: 29 + 11 })
    );
    let mut trial = vec![0u8; 72];
    trial[24] = 21;
    trial[26..30].copy_from_slice(&95_123u32.to_le_bytes());
    trial[47] = 1;
    let packet = parse(&with_body(2024, 14, &trial)).unwrap().time_trial.unwrap();
    assert_eq!(packet.personal_best_data_set.vehicle_index, 21);
    assert_eq!(packet.personal_best_data_set.lap_time_ms, 95_123);
    assert!(packet.personal_best_data_set.valid);
    trial[48] = 22;
    assert_eq!(
        parse(&with_body(2024, 14, &trial)),
        Err(DecodeError::FieldOutOfRange { field: FieldName::TimeTrialVehicleIndex, value: 22, offset: 29 + 48 })
    );
}

#[test]
fn end_of_data_message_names_the_place() {
    let error = parse(&header(2024, 0)).unwrap_err();
    assert_eq!(error, DecodeError::EndOfData { offset: 29 });
    assert_eq!(error.offset(), 29);
    assert_eq!(error.message(), "Unexpected end of data at 0x1d");
    let far = DecodeError::EndOfData { offset: 0xABCDEF };
    assert_eq!(far.message(), "Unexpected end of data at 0xabcdef");
    let negative = DecodeError::FieldOutOfRange { field: FieldName::Gear, value: -128, offset: 255 };
    assert_eq!(negative.message(), "Car telemetry entry has an invalid gear value: -128 at 0xff");
}

#[test]
fn car_status_of_2022_lacks_the_engine_power() {
    let mut new = vec![0u8; 22 * 55];
    new[0] = 2;
    new[1] = 1;
    new[17..19].copy_from_slice(&13_000u16.to_le_bytes());
    new[21] = 9;
    new[22] = 0xFF;
    new[28] = 0xFF;
    new[29..33].copy_from_slice(&550_000.0f32.to_le_bytes());
    new[41] = 3;
    new[54] = 1;
    let status = parse(&with_body(2024, 7, &new)).unwrap().car_status.unwrap();
    assert_eq!(status.data.len(), 22);
    assert_eq!(status.data[0].traction_control, f1_game_packet_parser::constants::TractionControl::Full);
    assert!(status.data[0].anti_lock_brakes);
    assert_eq!(status.data[0].max_rpm, 13_000);
    assert_eq!(status.data[0].max_gears, 9);
    assert_eq!(status.data[0].drs_allowed, f1_game_packet_parser::constants::DrsAllowed::Unknown);
    assert_eq!(status.data[0].vehicle_fia_flag, f1_game_packet_parser::constants::VehicleFiaFlag::Unknown);
    assert_eq!(f32::from_bits(status.data[0].engine_power_ice.bits), 550_000.0);
    assert_eq!(status.data[0].ers_deploy_mode, f1_game_packet_parser::constants::ErsDeployMode::Hotlap);
    assert!(status.data[0].network_paused);
    let mut old = vec![0u8; 22 * 47];
    old[33] = 2;
    old[46] = 1;
    let status = parse(&with_body(2022, 7, &old)).unwrap().car_status.unwrap();
    assert_eq!(status.data[0].engine_power_ice.bits, 0);
    assert_eq!(status.data[0].ers_deploy_mode, f1_game_packet_parser::constants::ErsDeployMode::Overtake);
    assert!(status.data[0].network_paused);
    old[21] = 10;
    assert_eq!(
        parse(&with_body(2022, 7, &old)),
        Err(DecodeError::FieldOutOfRange { field: FieldName::MaxGears, value: 10, offset: 24 })
    );
    old[21] = 0;
    old[1] = 7;
    assert_eq!(parse(&with_body(2022, 7, &old)), Err(DecodeError::InvalidBool { byte: 7, offset: 25 }));
}

#[test]
fn car_damage_and_car_setups_hold_their_fields() {
    let mut damage = vec![0u8; 22 * 42];
    damage[12..16].copy_from_slice(&37.5f32.to_le_bytes());
    damage[16..20].copy_from_slice(&[1, 2, 3, 4]);
    damage[23] = 90;
    damage[31] = 1;
    damage[41] = 1;
    damage[42 + 24] = 55;
    let packet = parse(&with_body(2023, 10, &damage)).unwrap().car_damage.unwrap();
    assert_eq!(f32::from_bits(packet.data[0].tyres_wear[3].bits), 37.5);
    assert_eq!(packet.data[0].tyres_damage, [1, 2, 3, 4]);
    assert_eq!(packet.data[0].brakes_damage, [0, 0, 0, 90]);
    assert!(!packet.data[0].drs_fault);
    assert!(packet.data[0].ers_fault);
    assert!(packet.data[0].engine_seized);
    assert_eq!(packet.data[1].front_left_wing_damage, 55);
    let mut setups = vec![0u8; 22 * 49 + 4];
    setups[2] = 100;
    setups[4..8].copy_from_slice(&(-2.5f32).to_le_bytes());
    setups[26] = 100;
    setups[45..49].copy_from_slice(&10.5f32.to_le_bytes());
    setups[22 * 49..].copy_from_slice(&7.0f32.to_le_bytes());
    let packet = parse(&with_body(2024, 5, &setups)).unwrap().car_setups.unwrap();
    assert_eq!(packet.data[0].on_throttle, 100);
    assert_eq!(f32::from_bits(packet.data[0].front_camber.bits), -2.5);
    assert_eq!(packet.data[0].brake_pressure, 100);
    assert_eq!(f32::from_bits(packet.data[0].fuel_load.bits), 10.5);
    assert_eq!(f32::from_bits(packet.next_front_wing_value.bits), 7.0);
    let older = parse(&with_body(2023, 5, &setups)).unwrap().car_setups.unwrap();
    assert_eq!(older.next_front_wing_value.bits, 0);
    setups[3] = 101;
    assert_eq!(
        parse(&with_body(2024, 5, &setups)),
        Err(DecodeError::FieldOutOfRange { field: FieldName::OffThrottle, value: 101, offset: 29 })
    );
    setups[3] = 0;
    setups[49 + 26] = 101;
    assert_eq!(
        parse(&with_body(2024, 5, &setups)),
        Err(DecodeError::FieldOutOfRange { field: FieldName::BrakePressure, value: 101, offset: 29 + 49 })
    );
}

#[test]
fn lobby_players_differ_between_formats() {
    let mut new = vec![0u8; 1 + 58];
    new[0] = 1;
    new[2] = 3;
    new[3] = 10;
    new[4] = 4;
    new[5..10].copy_from_slice(b"Oscar");
    new[53] = 81;
    new[54] = 1;
    new[55] = 1;
    new[56..58].copy_from_slice(&300u16.to_le_bytes());
    new[58] = 2;
    let lobby = parse(&with_body(2024, 9, &new)).unwrap().lobby.unwrap();
    assert_eq!(lobby.num_players, 1);
    assert_eq!(lobby.data[0].team_id, 3);
    assert_eq!(lobby.data[0].nationality, Nationality::British);
    assert_eq!(lobby.data[0].platform, Some(f1_game_packet_parser::constants::Platform::Xbox));
    assert_eq!(lobby.data[0].name, "Oscar");
    assert_eq!(lobby.data[0].car_number, 81);
    assert_eq!(lobby.data[0].your_telemetry, Some(f1_game_packet_parser::constants::YourTelemetry::Public));
    assert!(lobby.data[0].show_online_names);
    assert_eq!(lobby.data[0].tech_level, 300);
    assert_eq!(lobby.data[0].ready_status, f1_game_packet_parser::constants::ReadyStatus::Spectating);
    let mut old = vec![0u8; 1 + 53];
    old[0] = 1;
    old[4..9].copy_from_slice(b"Lewis");
    old[52] = 44;
    old[53] = 1;
    let lobby = parse(&with_body(2022, 9, &old)).unwrap().lobby.unwrap();
    assert_eq!(lobby.data[0].platform, None);
    assert_eq!(lobby.data[0].name, "Lewis");
    assert_eq!(lobby.data[0].car_number, 44);
    assert_eq!(lobby.data[0].your_telemetry, None);
    assert_eq!(lobby.data[0].ready_status, f1_game_packet_parser::constants::ReadyStatus::Ready);
    old[0] = 23;
    assert_eq!(
        parse(&with_body(2022, 9, &old)),
        Err(DecodeError::CountExceedsCapacity { field: FieldName::NumPlayers, count: 23, capacity: 22, offset: 24 })
    );
}
