use air_sensors::listener::{parse_data, LineBuffer, ParseDataError};
use air_sensors::radio::{open_frame, seal_frame};

const KEY: [u8; 32] = [7u8; 32];

#[test]
fn frame_round_trip() {
    let msg: Vec<u8> = (0..56u8).collect();
    let frame = seal_frame(&msg, 0x01020304, &KEY);
    assert_eq!(frame.len(), 4 + 56 + 16);
    assert_eq!(&frame[..4], &[0x04, 0x03, 0x02, 0x01]);
    assert_eq!(open_frame(&frame, &KEY, 56), Some((0x01020304, msg)));
}

#[test]
fn frame_is_encrypted() {
    let msg = vec![0u8; 56];
    let frame = seal_frame(&msg, 1, &KEY);
    assert_ne!(&frame[4..60], &msg[..]);
}

#[test]
fn tampered_or_misfit_frames_are_refused() {
    let msg = vec![9u8; 56];
    let mut frame = seal_frame(&msg, 5, &KEY);
    assert_eq!(open_frame(&frame, &KEY, 55), None);
    assert_eq!(open_frame(&frame, &[8u8; 32], 56), None);
    frame[10] ^= 1;
    assert_eq!(open_frame(&frame, &KEY, 56), None);
    assert_eq!(open_frame(&[], &KEY, 0), None);
}

#[test]
fn parse_packet_report() {
    assert_eq!(parse_data("+TEST: RX \"0A1Bff\""), Ok(vec![0x0a, 0x1b, 0xff]));
    assert_eq!(parse_data("+TEST: RX \"\""), Ok(vec![]));
    assert_eq!(parse_data("+TEST: RX \"+5\""), Ok(vec![5]));
    assert_eq!(parse_data("+TEST: RX \"123\""), Ok(vec![0x12]));
}

#[test]
fn parse_packet_report_errors() {
    assert_eq!(parse_data("+TEST: TX \"00\""), Err(ParseDataError::BadPrefix));
    assert_eq!(parse_data("short"), Err(ParseDataError::BadPrefix));
    assert_eq!(parse_data("+TEST: RX \"00"), Err(ParseDataError::BadSuffix));
    assert_eq!(parse_data("+TEST: RX \""), Err(ParseDataError::BadSuffix));
    assert_eq!(parse_data("+TEST: RX \"0g\""), Err(ParseDataError::InvalidDigit));
    assert_eq!(parse_data("+TEST: RX \"-5\""), Err(ParseDataError::InvalidDigit));
    assert_eq!(parse_data("+TEST: RX \"é\""), Err(ParseDataError::InvalidDigit));
    assert_eq!(parse_data("+TEST: RX \"0é\""), Err(ParseDataError::InvalidUtf8));
}

#[test]
fn packet_of_sealed_frame_round_trip() {
    let msg = vec![3u8; 56];
    let frame = seal_frame(&msg, 42, &KEY);
    let hex: String = frame.iter().map(|b| format!("{b:02X}")).collect();
    let line = format!("+TEST: RX \"{hex}\"");
    let data = parse_data(&line).unwrap();
    assert_eq!(open_frame(&data, &KEY, 56), Some((42, msg)));
}

#[test]
fn line_buffer_splits_lines() {
    let mut buf = LineBuffer::new();
    assert_eq!(buf.free_space(), 1000);
    buf.append(b"+TEST: RXLRPKT\r\n+TEST: RX");
    assert_eq!(buf.take_line(), Some(b"+TEST: RXLRPKT\r\n".to_vec()));
    assert_eq!(buf.take_line(), None);
    assert_eq!(buf.len(), 9);
    buf.append(b" \"00\"\r\n");
    assert_eq!(buf.take_line(), Some(b"+TEST: RX \"00\"\r\n".to_vec()));
    assert_eq!(buf.len(), 0);
}

#[test]
fn line_buffer_waits_for_lf() {
    let mut buf = LineBuffer::new();
    buf.append(b"abc\r");
    assert_eq!(buf.take_line(), None);
    buf.append(b"\n");
    assert_eq!(buf.take_line(), Some(b"abc\r\n".to_vec()));
}
