use f1_game_packet_parser::parse;

/// Little-endian bytes of a header for the given format and kind of packet.
fn header(format: u16, id: u8) -> Vec<u8> {
    let mut bytes: Vec<u8> = Vec::new();
    bytes.extend_from_slice(&format.to_le_bytes());
    if format >= 2023 {
        bytes.push((format - 2000) as u8);
    }
    bytes.push(1);
    bytes.push(2);
    bytes.push(1);
    bytes.push(id);
    bytes.extend_from_slice(&0x0123_4567_89AB_CDEFu64.to_le_bytes());
    bytes.extend_from_slice(&12.5f32.to_le_bytes());
    bytes.extend_from_slice(&77u32.to_le_bytes());
    if format >= 2023 {
        bytes.extend_from_slice(&99u32.to_le_bytes());
    }
    bytes.push(19);
    bytes.push(255);
    bytes
}

/// Length of a whole datagram of the given format and kind, as the game sends it.
fn length(format: u16, id: u8) -> usize {
    match (format, id) {
        (2022, 0) => 1464,
        (2022, 1) => 632,
        (2022, 2) => 972,
        (2022, 3) => 40,
        (2022, 4) => 1257,
        (2022, 5) => 1102,
        (2022, 6) => 1347,
        (2022, 7) => 1058,
        (2022, 8) => 1015,
        (2022, 9) => 1191,
        (2022, 10) => 948,
        (2022, 11) => 1155,
        (2023, 0) => 1349,
        (2023, 1) => 644,
        (2023, 2) => 1131,
        (2023, 3) => 45,
        (2023, 4) => 1306,
        (2023, 5) => 1107,
        (2023, 6) => 1352,
        (2023, 7) => 1239,
        (2023, 8) => 1020,
        (2023, 9) => 1218,
        (2023, 10) => 953,
        (2023, 11) => 1460,
        (2023, 12) => 231,
        (2023, 13) => 217,
        (2024, 0) => 1349,
        (2024, 1) => 753,
        (2024, 2) => 1285,
        (2024, 3) => 45,
        (2024, 4) => 1350,
        (2024, 5) => 1133,
        (2024, 6) => 1352,
        (2024, 7) => 1239,
        (2024, 8) => 1020,
        (2024, 9) => 1306,
        (2024, 10) => 953,
        (2024, 11) => 1460,
        (2024, 12) => 231,
        (2024, 13) => 237,
        (2024, 14) => 101,
        _ => panic!("the game sends no such datagram"),
    }
}

/// A datagram of the length the game sends, with a body of zeros: no cars in
/// the lists that count them, every car at rest, every setting at its first
/// value.
fn datagram(format: u16, id: u8) -> Vec<u8> {
    let mut bytes = header(format, id);
    bytes.resize(length(format, id), 0);
    bytes
}

/// An event datagram with the given code and no car involved but the first.
fn event(format: u16, code: &[u8; 4]) -> Vec<u8> {
    let mut bytes = header(format, 3);
    bytes.extend_from_slice(code);
    bytes.resize(length(format, 3), 0);
    bytes
}

#[test]
fn parse_2022_0() {
    let data = datagram(2022, 0);
    assert!(parse(&data).is_ok());
}

#[test]
fn parse_2022_1() {
    let data = datagram(2022, 1);
    assert!(parse(&data).is_ok());
}

#[test]
fn parse_2022_2() {
    let data = datagram(2022, 2);
    assert!(parse(&data).is_ok());
}

#[test]
fn parse_2022_3_butn() {
    let data = event(2022, b"BUTN");
    assert!(parse(&data).is_ok());
}

#[test]
fn parse_2022_3_chqf() {
    let data = event(2022, b"CHQF");
    assert!(parse(&data).is_ok());
}

#[test]
fn parse_2022_3_drsd() {
    let data = event(2022, b"DRSD");
    assert!(parse(&data).is_ok());
}

#[test]
fn parse_2022_3_drse() {
    let data = event(2022, b"DRSE");
    assert!(parse(&data).is_ok());
}

#[test]
fn parse_2022_3_dtsv() {
    let data = event(2022, b"DTSV");
    assert!(parse(&data).is_ok());
}

#[test]
fn parse_2022_3_flbk() {
    let data = event(2022, b"FLBK");
    assert!(parse(&data).is_ok());
}

#[test]
fn parse_2022_3_ftlp() {
    let data = event(2022, b"FTLP");
    assert!(parse(&data).is_ok());
}

#[test]
fn parse_2022_3_lgot() {
    let data = event(2022, b"LGOT");
    assert!(parse(&data).is_ok());
}

#[test]
fn parse_2022_3_pena() {
    let data = event(2022, b"PENA");
    assert!(parse(&data).is_ok());
}

#[test]
fn parse_2022_3_rcwn() {
    let data = event(2022, b"RCWN");
    assert!(parse(&data).is_ok());
}

#[test]
fn parse_2022_3_rtmt() {
    let data = event(2022, b"RTMT");
    assert!(parse(&data).is_ok());
}

#[test]
fn parse_2022_3_send() {
    let data = event(2022, b"SEND");
    assert!(parse(&data).is_ok());
}

#[test]
fn parse_2022_3_sgsv() {
    let data = event(2022, b"SGSV");
    assert!(parse(&data).is_ok());
}

#[test]
fn parse_2022_3_sptp() {
    let data = event(2022, b"SPTP");
    assert!(parse(&data).is_ok());
}

#[test]
fn parse_2022_3_ssta() {
    let data = event(2022, b"SSTA");
    assert!(parse(&data).is_ok());
}

#[test]
fn parse_2022_3_stlg() {
    let data = event(2022, b"STLG");
    assert!(parse(&data).is_ok());
}

#[test]
fn parse_2022_3_tmpt() {
    let data = event(2022, b"TMPT");
    assert!(parse(&data).is_ok());
}

#[test]
fn parse_2022_4() {
    let data = datagram(2022, 4);
    assert!(parse(&data).is_ok());
}

#[test]
fn parse_2022_5() {
    let data = datagram(2022, 5);
    assert!(parse(&data).is_ok());
}

#[test]
fn parse_2022_6() {
    let data = datagram(2022, 6);
    assert!(parse(&data).is_ok());
}

#[test]
fn parse_2022_7() {
    let data = datagram(2022, 7);
    assert!(parse(&data).is_ok());
}

#[test]
fn parse_2022_8() {
    let data = datagram(2022, 8);
    assert!(parse(&data).is_ok());
}

#[test]
fn parse_2022_9() {
    let data = datagram(2022, 9);
    assert!(parse(&data).is_ok());
}

#[test]
fn parse_2022_10() {
    let data = datagram(2022, 10);
    assert!(parse(&data).is_ok());
}

#[test]
fn parse_2022_11() {
    let data = datagram(2022, 11);
    assert!(parse(&data).is_ok());
}

#[test]
fn parse_2023_0() {
    let data = datagram(2022, 0);
    assert!(parse(&data).is_ok());
}

#[test]
fn parse_2023_1() {
    let data = datagram(2022, 1);
    assert!(parse(&data).is_ok());
}

#[test]
fn parse_2023_2() {
    let data = datagram(2022, 2);
    assert!(parse(&data).is_ok());
}

#[test]
fn parse_2023_3_butn() {
    let data = event(2023, b"BUTN");
    assert!(parse(&data).is_ok());
}

#[test]
fn parse_2023_3_chqf() {
    let data = event(2023, b"CHQF");
    assert!(parse(&data).is_ok());
}

#[test]
fn parse_2023_3_drsd() {
    let data = event(2023, b"DRSD");
    assert!(parse(&data).is_ok());
}

#[test]
fn parse_2023_3_drse() {
    let data = event(2023, b"DRSE");
    assert!(parse(&data).is_ok());
}

#[test]
fn parse_2023_3_dtsv() {
    let data = event(2023, b"DTSV");
    assert!(parse(&data).is_ok());
}

#[test]
fn parse_2023_3_flbk() {
    let data = event(2023, b"FLBK");
    assert!(parse(&data).is_ok());
}

#[test]
fn parse_2023_3_ftlp() {
    let data = event(2023, b"FTLP");
    assert!(parse(&data).is_ok());
}

#[test]
fn parse_2023_3_lgot() {
    let data = event(2023, b"LGOT");
    assert!(parse(&data).is_ok());
}

#[test]
fn parse_2023_3_ovtk() {
    let data = event(2023, b"OVTK");
    assert!(parse(&data).is_ok());
}

#[test]
fn parse_2023_3_pena() {
    let data = event(2023, b"PENA");
    assert!(parse(&data).is_ok());
}

#[test]
fn parse_2023_3_rcwn() {
    let data = event(2023, b"RCWN");
    assert!(parse(&data).is_ok());
}

#[test]
fn parse_2023_3_rdfl() {
    let data = event(2023, b"RDFL");
    assert!(parse(&data).is_ok());
}

#[test]
fn parse_2023_3_rtmt() {
    let data = event(2023, b"RTMT");
    assert!(parse(&data).is_ok());
}

#[test]
fn parse_2023_3_send() {
    let data = event(2023, b"SEND");
    assert!(parse(&data).is_ok());
}

#[test]
fn parse_2023_3_sgsv() {
    let data = event(2023, b"SGSV");
    assert!(parse(&data).is_ok());
}

#[test]
fn parse_2023_3_sptp() {
    let data = event(2023, b"SPTP");
    assert!(parse(&data).is_ok());
}

#[test]
fn parse_2023_3_ssta() {
    let data = event(2023, b"SSTA");
    assert!(parse(&data).is_ok());
}

#[test]
fn parse_2023_3_stlg() {
    let data = event(2023, b"STLG");
    assert!(parse(&data).is_ok());
}

#[test]
fn parse_2023_3_tmpt() {
    let data = event(2023, b"TMPT");
    assert!(parse(&data).is_ok());
}

#[test]
fn parse_2023_4() {
    let data = datagram(2023, 4);
    assert!(parse(&data).is_ok());
}

#[test]
fn parse_2023_5() {
    let data = datagram(2023, 5);
    assert!(parse(&data).is_ok());
}

#[test]
fn parse_2023_6() {
    let data = datagram(2023, 6);
    assert!(parse(&data).is_ok());
}

#[test]
fn parse_2023_7() {
    let data = datagram(2023, 7);
    assert!(parse(&data).is_ok());
}

#[test]
fn parse_2023_8() {
    let data = datagram(2023, 8);
    assert!(parse(&data).is_ok());
}

#[test]
fn parse_2023_9() {
    let data = datagram(2023, 9);
    assert!(parse(&data).is_ok());
}

#[test]
fn parse_2023_10() {
    let data = datagram(2023, 10);
    assert!(parse(&data).is_ok());
}

#[test]
fn parse_2023_11() {
    let data = datagram(2023, 11);
    assert!(parse(&data).is_ok());
}

#[test]
fn parse_2023_12() {
    let data = datagram(2023, 12);
    assert!(parse(&data).is_ok());
}

#[test]
fn parse_2023_13() {
    let data = datagram(2023, 13);
    assert!(parse(&data).is_ok());
}

#[test]
fn parse_2024_0() {
    let data = datagram(2022, 0);
    assert!(parse(&data).is_ok());
}

#[test]
fn parse_2024_1() {
    let data = datagram(2022, 1);
    assert!(parse(&data).is_ok());
}

#[test]
fn parse_2024_2() {
    let data = datagram(2022, 2);
    assert!(parse(&data).is_ok());
}

#[test]
fn parse_2024_3_butn() {
    let data = event(2024, b"BUTN");
    assert!(parse(&data).is_ok());
}

#[test]
fn parse_2024_3_chqf() {
    let data = event(2024, b"CHQF");
    assert!(parse(&data).is_ok());
}

#[test]
fn parse_2024_3_coll() {
    let data = event(2024, b"COLL");
    assert!(parse(&data).is_ok());
}

#[test]
fn parse_2024_3_drsd() {
    let data = event(2024, b"DRSD");
    assert!(parse(&data).is_ok());
}

#[test]
fn parse_2024_3_drse() {
    let data = event(2024, b"DRSE");
    assert!(parse(&data).is_ok());
}

#[test]
fn parse_2024_3_dtsv() {
    let data = event(2024, b"DTSV");
    assert!(parse(&data).is_ok());
}

#[test]
fn parse_2024_3_flbk() {
    let data = event(2024, b"FLBK");
    assert!(parse(&data).is_ok());
}

#[test]
fn parse_2024_3_ftlp() {
    let data = event(2024, b"FTLP");
    assert!(parse(&data).is_ok());
}

#[test]
fn parse_2024_3_lgot() {
    let data = event(2024, b"LGOT");
    assert!(parse(&data).is_ok());
}

#[test]
fn parse_2024_3_ovtk() {
    let data = event(2024, b"OVTK");
    assert!(parse(&data).is_ok());
}

#[test]
fn parse_2024_3_pena() {
    let data = event(2024, b"PENA");
    assert!(parse(&data).is_ok());
}

#[test]
fn parse_2024_3_rcwn() {
    let data = event(2024, b"RCWN");
    assert!(parse(&data).is_ok());
}

#[test]
fn parse_2024_3_rdfl() {
    let data = event(2024, b"RDFL");
    assert!(parse(&data).is_ok());
}

#[test]
fn parse_2024_3_rtmt() {
    let data = event(2024, b"RTMT");
    assert!(parse(&data).is_ok());
}

#[test]
fn parse_2024_3_scar() {
    let data = event(2024, b"SCAR");
    assert!(parse(&data).is_ok());
}

#[test]
fn parse_2024_3_send() {
    let data = event(2024, b"SEND");
    assert!(parse(&data).is_ok());
}

#[test]
fn parse_2024_3_sgsv() {
    let data = event(2024, b"SGSV");
    assert!(parse(&data).is_ok());
}

#[test]
fn parse_2024_3_sptp() {
    let data = event(2024, b"SPTP");
    assert!(parse(&data).is_ok());
}

#[test]
fn parse_2024_3_ssta() {
    let data = event(2024, b"SSTA");
    assert!(parse(&data).is_ok());
}

#[test]
fn parse_2024_3_stlg() {
    let data = event(2024, b"STLG");
    assert!(parse(&data).is_ok());
}

#[test]
fn parse_2024_3_tmpt() {
    let data = event(2024, b"TMPT");
    assert!(parse(&data).is_ok());
}

#[test]
fn parse_2024_4() {
    let data = datagram(2024, 4);
    assert!(parse(&data).is_ok());
}

#[test]
fn parse_2024_5() {
    let data = datagram(2024, 5);
    assert!(parse(&data).is_ok());
}

#[test]
fn parse_2024_6() {
    let data = datagram(2024, 6);
    assert!(parse(&data).is_ok());
}

#[test]
fn parse_2024_7() {
    let data = datagram(2024, 7);
    assert!(parse(&data).is_ok());
}

#[test]
fn parse_2024_8() {
    let data = datagram(2024, 8);
    assert!(parse(&data).is_ok());
}

#[test]
fn parse_2024_9() {
    let data = datagram(2024, 9);
    assert!(parse(&data).is_ok());
}

#[test]
fn parse_2024_10() {
    let data = datagram(2024, 10);
    assert!(parse(&data).is_ok());
}

#[test]
fn parse_2024_11() {
    let data = datagram(2024, 11);
    assert!(parse(&data).is_ok());
}

#[test]
fn parse_2024_12() {
    let data = datagram(2024, 12);
    assert!(parse(&data).is_ok());
}

#[test]
fn parse_2024_13() {
    let data = datagram(2024, 13);
    assert!(parse(&data).is_ok());
}

#[test]
fn parse_2024_14() {
    let data = datagram(2024, 14);
    assert!(parse(&data).is_ok());
}
