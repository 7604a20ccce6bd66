use f1_game_packet_parser::cursor::ByteCursor;
use f1_game_packet_parser::error::DecodeError;
use f1_game_packet_parser::F1Packet;


/// Little-endian bytes of a header for the given format and kind of packet.
fn header(format: u16, id: u8) -> Vec<u8> {
    let mut bytes: Vec<u8> = Vec::new();
    bytes.extend_from_slice(&format.to_le_bytes());
    if format >= 2023 {
        bytes.push((format - 2000) as u8);
    }
    bytes.push(1);
    bytes.push(2);
    bytes.push(1);
    bytes.push(id);
    bytes.extend_from_slice(&0x0123_4567_89AB_CDEFu64.to_le_bytes());
    bytes.extend_from_slice(&12.5f32.to_le_bytes());
    bytes.extend_from_slice(&77u32.to_le_bytes());
    if format >= 2023 {
        bytes.extend_from_slice(&99u32.to_le_bytes());
    }
    bytes.push(19);
    bytes.push(255);
    bytes
}


/// Which slots of a packet are filled, in the order of the kinds of packet.
fn filled(packet: &F1Packet) -> Vec<bool> {
    vec![
        packet.motion.is_some(),
        packet.session.is_some(),
        packet.laps.is_some(),
        packet.event.is_some(),
        packet.participants.is_some(),
        packet.car_setups.is_some(),
        packet.car_telemetry.is_some(),
        packet.car_status.is_some(),
        packet.final_classification.is_some(),
        packet.lobby.is_some(),
        packet.car_damage.is_some(),
        packet.session_history.is_some(),
        packet.tyre_sets.is_some(),
        packet.motion_ex.is_some(),
        packet.time_trial.is_some(),
    ]
}

/// Decodes a header of the given format and kind followed by `body`, and
/// returns which slots are filled and where the cursor stands at the end.
fn decode(format: u16, id: u8, body: &[u8]) -> Result<(Vec<bool>, usize), DecodeError> {
    let mut bytes = header(format, id);
    bytes.extend_from_slice(body);
    let mut cursor = ByteCursor::new(&bytes);
    let packet = F1Packet::decode(&mut cursor)?;
    Ok((filled(&packet), cursor.position()))
}

/// The slots of a packet of which only the one of kind `id` is filled.
fn only(id: usize) -> Vec<bool> {
    let mut slots = vec![false; 15];
    slots[id] = true;
    slots
}

#[test]
fn body_of_zeros_2022_motion() {
    let body = vec![0u8; 1440];
    assert_eq!(decode(2022, 0, &body), Ok((only(0), 1464)));
}

#[test]
fn body_one_byte_short_2022_motion() {
    let body = vec![0u8; 1439];
    assert_eq!(decode(2022, 0, &body), Err(DecodeError::EndOfData { offset: 1460 }));
}

#[test]
fn body_of_zeros_2022_session() {
    let body = vec![0u8; 608];
    assert_eq!(decode(2022, 1, &body), Ok((only(1), 632)));
}

#[test]
fn body_one_byte_short_2022_session() {
    let body = vec![0u8; 607];
    assert_eq!(decode(2022, 1, &body), Err(DecodeError::EndOfData { offset: 631 }));
}

#[test]
fn body_of_zeros_2022_laps() {
    let body = vec![0u8; 948];
    assert_eq!(decode(2022, 2, &body), Ok((only(2), 972)));
}

#[test]
fn body_one_byte_short_2022_laps() {
    let body = vec![0u8; 947];
    assert_eq!(decode(2022, 2, &body), Err(DecodeError::EndOfData { offset: 971 }));
}

#[test]
fn body_of_zeros_2022_participants() {
    let body = vec![0u8; 1];
    assert_eq!(decode(2022, 4, &body), Ok((only(4), 25)));
}

#[test]
fn body_one_byte_short_2022_participants() {
    let body = vec![0u8; 0];
    assert_eq!(decode(2022, 4, &body), Err(DecodeError::EndOfData { offset: 24 }));
}

#[test]
fn body_of_zeros_2022_car_setups() {
    let body = vec![0u8; 1078];
    assert_eq!(decode(2022, 5, &body), Ok((only(5), 1102)));
}

#[test]
fn body_one_byte_short_2022_car_setups() {
    let body = vec![0u8; 1077];
    assert_eq!(decode(2022, 5, &body), Err(DecodeError::EndOfData { offset: 1098 }));
}

#[test]
fn body_of_zeros_2022_car_telemetry() {
    let body = vec![0u8; 1323];
    assert_eq!(decode(2022, 6, &body), Ok((only(6), 1347)));
}

#[test]
fn body_one_byte_short_2022_car_telemetry() {
    let body = vec![0u8; 1322];
    assert_eq!(decode(2022, 6, &body), Err(DecodeError::EndOfData { offset: 1346 }));
}

#[test]
fn body_of_zeros_2022_car_status() {
    let body = vec![0u8; 1034];
    assert_eq!(decode(2022, 7, &body), Ok((only(7), 1058)));
}

#[test]
fn body_one_byte_short_2022_car_status() {
    let body = vec![0u8; 1033];
    assert_eq!(decode(2022, 7, &body), Err(DecodeError::EndOfData { offset: 1057 }));
}

#[test]
fn body_of_zeros_2022_final_classification() {
    let body = vec![0u8; 1];
    assert_eq!(decode(2022, 8, &body), Ok((only(8), 25)));
}

#[test]
fn body_one_byte_short_2022_final_classification() {
    let body = vec![0u8; 0];
    assert_eq!(decode(2022, 8, &body), Err(DecodeError::EndOfData { offset: 24 }));
}

#[test]
fn body_of_zeros_2022_lobby() {
    let body = vec![0u8; 1];
    assert_eq!(decode(2022, 9, &body), Ok((only(9), 25)));
}

#[test]
fn body_one_byte_short_2022_lobby() {
    let body = vec![0u8; 0];
    assert_eq!(decode(2022, 9, &body), Err(DecodeError::EndOfData { offset: 24 }));
}

#[test]
fn body_of_zeros_2022_car_damage() {
    let body = vec![0u8; 924];
    assert_eq!(decode(2022, 10, &body), Ok((only(10), 948)));
}

#[test]
fn body_one_byte_short_2022_car_damage() {
    let body = vec![0u8; 923];
    assert_eq!(decode(2022, 10, &body), Err(DecodeError::EndOfData { offset: 947 }));
}

#[test]
fn body_of_zeros_2022_session_history() {
    let body = vec![0u8; 1107];
    assert_eq!(decode(2022, 11, &body), Ok((only(11), 1131)));
}

#[test]
fn body_one_byte_short_2022_session_history() {
    let body = vec![0u8; 1106];
    // The body ends in filler, which is passed over without being read.
    assert_eq!(decode(2022, 11, &body), Ok((only(11), 1131)));
}

#[test]
fn body_of_zeros_2022_tyre_sets() {
    let body = vec![0u8; 202];
    assert_eq!(decode(2022, 12, &body), Ok((only(12), 226)));
}

#[test]
fn body_one_byte_short_2022_tyre_sets() {
    let body = vec![0u8; 201];
    assert_eq!(decode(2022, 12, &body), Err(DecodeError::EndOfData { offset: 225 }));
}

#[test]
fn body_of_zeros_2022_motion_ex() {
    let body = vec![0u8; 120];
    assert_eq!(decode(2022, 13, &body), Ok((only(13), 144)));
}

#[test]
fn body_one_byte_short_2022_motion_ex() {
    let body = vec![0u8; 119];
    assert_eq!(decode(2022, 13, &body), Err(DecodeError::EndOfData { offset: 140 }));
}

#[test]
fn body_of_zeros_2022_time_trial() {
    let body = vec![0u8; 72];
    assert_eq!(decode(2022, 14, &body), Ok((only(14), 96)));
}

#[test]
fn body_one_byte_short_2022_time_trial() {
    let body = vec![0u8; 71];
    assert_eq!(decode(2022, 14, &body), Err(DecodeError::EndOfData { offset: 95 }));
}

#[test]
fn full_list_2022_participants() {
    let mut body = vec![0u8; 1233];
    body[0] = 22;
    assert_eq!(decode(2022, 4, &body), Ok((only(4), 1257)));
}

#[test]
fn full_list_2022_lobby() {
    let mut body = vec![0u8; 1167];
    body[0] = 22;
    assert_eq!(decode(2022, 9, &body), Ok((only(9), 1191)));
}

#[test]
fn full_list_2022_final_classification() {
    let mut body = vec![0u8; 991];
    body[0] = 22;
    assert_eq!(decode(2022, 8, &body), Ok((only(8), 1015)));
}

#[test]
fn body_of_zeros_2023_motion() {
    let body = vec![0u8; 1320];
    assert_eq!(decode(2023, 0, &body), Ok((only(0), 1349)));
}

#[test]
fn body_one_byte_short_2023_motion() {
    let body = vec![0u8; 1319];
    assert_eq!(decode(2023, 0, &body), Err(DecodeError::EndOfData { offset: 1345 }));
}

#[test]
fn body_of_zeros_2023_session() {
    let body = vec![0u8; 615];
    assert_eq!(decode(2023, 1, &body), Ok((only(1), 644)));
}

#[test]
fn body_one_byte_short_2023_session() {
    let body = vec![0u8; 614];
    assert_eq!(decode(2023, 1, &body), Err(DecodeError::EndOfData { offset: 643 }));
}

#[test]
fn body_of_zeros_2023_laps() {
    let body = vec![0u8; 1102];
    assert_eq!(decode(2023, 2, &body), Ok((only(2), 1131)));
}

#[test]
fn body_one_byte_short_2023_laps() {
    let body = vec![0u8; 1101];
    assert_eq!(decode(2023, 2, &body), Err(DecodeError::EndOfData { offset: 1130 }));
}

#[test]
fn body_of_zeros_2023_participants() {
    let body = vec![0u8; 1];
    assert_eq!(decode(2023, 4, &body), Ok((only(4), 30)));
}

#[test]
fn body_one_byte_short_2023_participants() {
    let body = vec![0u8; 0];
    assert_eq!(decode(2023, 4, &body), Err(DecodeError::EndOfData { offset: 29 }));
}

#[test]
fn body_of_zeros_2023_car_setups() {
    let body = vec![0u8; 1078];
    assert_eq!(decode(2023, 5, &body), Ok((only(5), 1107)));
}

#[test]
fn body_one_byte_short_2023_car_setups() {
    let body = vec![0u8; 1077];
    assert_eq!(decode(2023, 5, &body), Err(DecodeError::EndOfData { offset: 1103 }));
}

#[test]
fn body_of_zeros_2023_car_telemetry() {
    let body = vec![0u8; 1323];
    assert_eq!(decode(2023, 6, &body), Ok((only(6), 1352)));
}

#[test]
fn body_one_byte_short_2023_car_telemetry() {
    let body = vec![0u8; 1322];
    assert_eq!(decode(2023, 6, &body), Err(DecodeError::EndOfData { offset: 1351 }));
}

#[test]
fn body_of_zeros_2023_car_status() {
    let body = vec![0u8; 1210];
    assert_eq!(decode(2023, 7, &body), Ok((only(7), 1239)));
}

#[test]
fn body_one_byte_short_2023_car_status() {
    let body = vec![0u8; 1209];
    assert_eq!(decode(2023, 7, &body), Err(DecodeError::EndOfData { offset: 1238 }));
}

#[test]
fn body_of_zeros_2023_final_classification() {
    let body = vec![0u8; 1];
    assert_eq!(decode(2023, 8, &body), Ok((only(8), 30)));
}

#[test]
fn body_one_byte_short_2023_final_classification() {
    let body = vec![0u8; 0];
    assert_eq!(decode(2023, 8, &body), Err(DecodeError::EndOfData { offset: 29 }));
}

#[test]
fn body_of_zeros_2023_lobby() {
    let body = vec![0u8; 1];
    assert_eq!(decode(2023, 9, &body), Ok((only(9), 30)));
}

#[test]
fn body_one_byte_short_2023_lobby() {
    let body = vec![0u8; 0];
    assert_eq!(decode(2023, 9, &body), Err(DecodeError::EndOfData { offset: 29 }));
}

#[test]
fn body_of_zeros_2023_car_damage() {
    let body = vec![0u8; 924];
    assert_eq!(decode(2023, 10, &body), Ok((only(10), 953)));
}

#[test]
fn body_one_byte_short_2023_car_damage() {
    let body = vec![0u8; 923];
    assert_eq!(decode(2023, 10, &body), Err(DecodeError::EndOfData { offset: 952 }));
}

#[test]
fn body_of_zeros_2023_session_history() {
    let body = vec![0u8; 1407];
    assert_eq!(decode(2023, 11, &body), Ok((only(11), 1436)));
}

#[test]
fn body_one_byte_short_2023_session_history() {
    let body = vec![0u8; 1406];
    // The body ends in filler, which is passed over without being read.
    assert_eq!(decode(2023, 11, &body), Ok((only(11), 1436)));
}

#[test]
fn body_of_zeros_2023_tyre_sets() {
    let body = vec![0u8; 202];
    assert_eq!(decode(2023, 12, &body), Ok((only(12), 231)));
}

#[test]
fn body_one_byte_short_2023_tyre_sets() {
    let body = vec![0u8; 201];
    assert_eq!(decode(2023, 12, &body), Err(DecodeError::EndOfData { offset: 230 }));
}

#[test]
fn body_of_zeros_2023_motion_ex() {
    let body = vec![0u8; 136];
    assert_eq!(decode(2023, 13, &body), Ok((only(13), 165)));
}

#[test]
fn body_one_byte_short_2023_motion_ex() {
    let body = vec![0u8; 135];
    assert_eq!(decode(2023, 13, &body), Err(DecodeError::EndOfData { offset: 161 }));
}

#[test]
fn body_of_zeros_2023_time_trial() {
    let body = vec![0u8; 72];
    assert_eq!(decode(2023, 14, &body), Ok((only(14), 101)));
}

#[test]
fn body_one_byte_short_2023_time_trial() {
    let body = vec![0u8; 71];
    assert_eq!(decode(2023, 14, &body), Err(DecodeError::EndOfData { offset: 100 }));
}

#[test]
fn full_list_2023_participants() {
    let mut body = vec![0u8; 1277];
    body[0] = 22;
    assert_eq!(decode(2023, 4, &body), Ok((only(4), 1306)));
}

#[test]
fn full_list_2023_lobby() {
    let mut body = vec![0u8; 1189];
    body[0] = 22;
    assert_eq!(decode(2023, 9, &body), Ok((only(9), 1218)));
}

#[test]
fn full_list_2023_final_classification() {
    let mut body = vec![0u8; 991];
    body[0] = 22;
    assert_eq!(decode(2023, 8, &body), Ok((only(8), 1020)));
}

#[test]
fn body_of_zeros_2024_motion() {
    let body = vec![0u8; 1320];
    assert_eq!(decode(2024, 0, &body), Ok((only(0), 1349)));
}

#[test]
fn body_one_byte_short_2024_motion() {
    let body = vec![0u8; 1319];
    assert_eq!(decode(2024, 0, &body), Err(DecodeError::EndOfData { offset: 1345 }));
}

#[test]
fn body_of_zeros_2024_session() {
    let body = vec![0u8; 724];
    assert_eq!(decode(2024, 1, &body), Ok((only(1), 753)));
}

#[test]
fn body_one_byte_short_2024_session() {
    let body = vec![0u8; 723];
    assert_eq!(decode(2024, 1, &body), Err(DecodeError::EndOfData { offset: 749 }));
}

#[test]
fn body_of_zeros_2024_laps() {
    let body = vec![0u8; 1256];
    assert_eq!(decode(2024, 2, &body), Ok((only(2), 1285)));
}

#[test]
fn body_one_byte_short_2024_laps() {
    let body = vec![0u8; 1255];
    assert_eq!(decode(2024, 2, &body), Err(DecodeError::EndOfData { offset: 1284 }));
}

#[test]
fn body_of_zeros_2024_participants() {
    let body = vec![0u8; 1];
    assert_eq!(decode(2024, 4, &body), Ok((only(4), 30)));
}

#[test]
fn body_one_byte_short_2024_participants() {
    let body = vec![0u8; 0];
    assert_eq!(decode(2024, 4, &body), Err(DecodeError::EndOfData { offset: 29 }));
}

#[test]
fn body_of_zeros_2024_car_setups() {
    let body = vec![0u8; 1082];
    assert_eq!(decode(2024, 5, &body), Ok((only(5), 1111)));
}

#[test]
fn body_one_byte_short_2024_car_setups() {
    let body = vec![0u8; 1081];
    assert_eq!(decode(2024, 5, &body), Err(DecodeError::EndOfData { offset: 1107 }));
}

#[test]
fn body_of_zeros_2024_car_telemetry() {
    let body = vec![0u8; 1323];
    assert_eq!(decode(2024, 6, &body), Ok((only(6), 1352)));
}

#[test]
fn body_one_byte_short_2024_car_telemetry() {
    let body = vec![0u8; 1322];
    assert_eq!(decode(2024, 6, &body), Err(DecodeError::EndOfData { offset: 1351 }));
}

#[test]
fn body_of_zeros_2024_car_status() {
    let body = vec![0u8; 1210];
    assert_eq!(decode(2024, 7, &body), Ok((only(7), 1239)));
}

#[test]
fn body_one_byte_short_2024_car_status() {
    let body = vec![0u8; 1209];
    assert_eq!(decode(2024, 7, &body), Err(DecodeError::EndOfData { offset: 1238 }));
}

#[test]
fn body_of_zeros_2024_final_classification() {
    let body = vec![0u8; 1];
    assert_eq!(decode(2024, 8, &body), Ok((only(8), 30)));
}

#[test]
fn body_one_byte_short_2024_final_classification() {
    let body = vec![0u8; 0];
    assert_eq!(decode(2024, 8, &body), Err(DecodeError::EndOfData { offset: 29 }));
}

#[test]
fn body_of_zeros_2024_lobby() {
    let body = vec![0u8; 1];
    assert_eq!(decode(2024, 9, &body), Ok((only(9), 30)));
}

#[test]
fn body_one_byte_short_2024_lobby() {
    let body = vec![0u8; 0];
    assert_eq!(decode(2024, 9, &body), Err(DecodeError::EndOfData { offset: 29 }));
}

#[test]
fn body_of_zeros_2024_car_damage() {
    let body = vec![0u8; 924];
    assert_eq!(decode(2024, 10, &body), Ok((only(10), 953)));
}

#[test]
fn body_one_byte_short_2024_car_damage() {
    let body = vec![0u8; 923];
    assert_eq!(decode(2024, 10, &body), Err(DecodeError::EndOfData { offset: 952 }));
}

#[test]
fn body_of_zeros_2024_session_history() {
    let body = vec![0u8; 1407];
    assert_eq!(decode(2024, 11, &body), Ok((only(11), 1436)));
}

#[test]
fn body_one_byte_short_2024_session_history() {
    let body = vec![0u8; 1406];
    // The body ends in filler, which is passed over without being read.
    assert_eq!(decode(2024, 11, &body), Ok((only(11), 1436)));
}

#[test]
fn body_of_zeros_2024_tyre_sets() {
    let body = vec![0u8; 202];
    assert_eq!(decode(2024, 12, &body), Ok((only(12), 231)));
}

#[test]
fn body_one_byte_short_2024_tyre_sets() {
    let body = vec![0u8; 201];
    assert_eq!(decode(2024, 12, &body), Err(DecodeError::EndOfData { offset: 230 }));
}

#[test]
fn body_of_zeros_2024_motion_ex() {
    let body = vec![0u8; 208];
    assert_eq!(decode(2024, 13, &body), Ok((only(13), 237)));
}

#[test]
fn body_one_byte_short_2024_motion_ex() {
    let body = vec![0u8; 207];
    assert_eq!(decode(2024, 13, &body), Err(DecodeError::EndOfData { offset: 233 }));
}

#[test]
fn body_of_zeros_2024_time_trial() {
    let body = vec![0u8; 72];
    assert_eq!(decode(2024, 14, &body), Ok((only(14), 101)));
}

#[test]
fn body_one_byte_short_2024_time_trial() {
    let body = vec![0u8; 71];
    assert_eq!(decode(2024, 14, &body), Err(DecodeError::EndOfData { offset: 100 }));
}

#[test]
fn full_list_2024_participants() {
    let mut body = vec![0u8; 1321];
    body[0] = 22;
    assert_eq!(decode(2024, 4, &body), Ok((only(4), 1350)));
}

#[test]
fn full_list_2024_lobby() {
    let mut body = vec![0u8; 1277];
    body[0] = 22;
    assert_eq!(decode(2024, 9, &body), Ok((only(9), 1306)));
}

#[test]
fn full_list_2024_final_classification() {
    let mut body = vec![0u8; 991];
    body[0] = 22;
    assert_eq!(decode(2024, 8, &body), Ok((only(8), 1020)));
}
