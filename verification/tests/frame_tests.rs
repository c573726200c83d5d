use tw_ctrl::crc16::crc16;
use tw_ctrl::frame::{
    make_control_frame, make_data_frame, parse_control_frame, parse_data_frame, ControlType,
    FrameError,
};

// The CRC-16/XMODEM test vector: "ABCD" checksums to 0x3B3A.
#[test]
fn test_crc16_abcd_vector() {
    assert_eq!(crc16(&[0x41, 0x42, 0x43, 0x44]), 0x3B3A);
}

#[test]
fn test_crc16_empty_is_zero() {
    assert_eq!(crc16(&[]), 0);
}

// The exact wire bytes of a data frame, CRC computed over the payload.
#[test]
fn test_data_frame_exact_bytes() {
    let frame = make_data_frame(&[0x01, 0x41, 0x42, 0x43, 0x44]);
    assert_eq!(
        frame,
        vec![0x7F, 0x44, 0x05, 0x01, 0x41, 0x42, 0x43, 0x44, 0x6B, 0x91, 0xFE]
    );
}

// Round trip: parsing a built frame yields the payload, at every length
// up to the 80-byte ceiling.
#[test]
fn test_round_trip_all_lengths() {
    for len in 0..=80usize {
        let payload: Vec<u8> = (0..len).map(|i| (i * 7 + 3) as u8).collect();
        let frame = make_data_frame(&payload);
        assert_eq!(frame.len(), len + 6);
        let parsed = parse_data_frame(&frame).expect("built frame must parse");
        assert_eq!(parsed, payload);
    }
}

// Idempotence: parsing the same unmodified frame repeatedly always
// yields the original payload.
#[test]
fn test_parse_idempotent() {
    let payload: Vec<u8> = vec![0xDE, 0xAD, 0xBE, 0xEF];
    let frame = make_data_frame(&payload);
    for _ in 0..5 {
        assert_eq!(parse_data_frame(&frame).unwrap(), payload);
    }
}

#[test]
fn test_parse_rejects_oversize_length() {
    // Declared length 0xFF exceeds the 80-byte ceiling: rejected before
    // anything else is looked at.
    let frame = vec![0x7F, 0x44, 0xFF];
    assert_eq!(parse_data_frame(&frame), Err(FrameError::Oversize));
    let frame81 = vec![0x00, 0x00, 81];
    assert_eq!(parse_data_frame(&frame81), Err(FrameError::Oversize));
}

#[test]
fn test_parse_rejects_bad_sentinels() {
    let good = make_data_frame(&[0x01, 0x02]);

    let mut bad_start = good.clone();
    bad_start[0] = 0x00;
    assert_eq!(parse_data_frame(&bad_start), Err(FrameError::InvalidFrame));

    let mut bad_type = good.clone();
    bad_type[1] = 0x99;
    assert_eq!(parse_data_frame(&bad_type), Err(FrameError::InvalidFrame));

    let mut bad_end = good.clone();
    let last = bad_end.len() - 1;
    bad_end[last] = 0x00;
    assert_eq!(parse_data_frame(&bad_end), Err(FrameError::InvalidFrame));

    let truncated = &good[..good.len() - 1];
    assert_eq!(parse_data_frame(truncated), Err(FrameError::InvalidFrame));
}

// Any single bit flipped in the payload, with the stored CRC untouched,
// is caught by the checksum comparison.
#[test]
fn test_parse_rejects_flipped_payload_bits() {
    let payload: Vec<u8> = vec![0x10, 0x20, 0x30, 0x40];
    let good = make_data_frame(&payload);
    for byte in 0..payload.len() {
        for bit in 0..8 {
            let mut corrupt = good.clone();
            corrupt[3 + byte] ^= 1u8 << bit;
            assert_eq!(
                parse_data_frame(&corrupt),
                Err(FrameError::CRCFail),
                "flip of bit {bit} in payload byte {byte} went undetected"
            );
        }
    }
}

#[test]
fn test_control_frame_layout() {
    let frame = make_control_frame(ControlType::Ack);
    assert_eq!(frame.len(), 7);
    assert_eq!(frame[0], 0x7F);
    assert_eq!(frame[1], 0x43);
    assert_eq!(frame[2], 0x01);
    assert_eq!(frame[3], 0x01);
    assert_eq!(frame[6], 0xFE);
    let crc = crc16(&[0x01]);
    assert_eq!(frame[4], (crc & 0xFF) as u8);
    assert_eq!(frame[5], (crc >> 8) as u8);
}

#[test]
fn test_control_frame_round_trip() {
    for ct in [
        ControlType::Ack,
        ControlType::CRCFail,
        ControlType::Oversize,
        ControlType::InvalidFrame,
        ControlType::Heartbeat,
    ] {
        let frame = make_control_frame(ct);
        assert_eq!(parse_control_frame(&frame), Ok(ct));
    }
}

#[test]
fn test_control_frame_rejects_unknown_discriminant() {
    let mut frame = make_control_frame(ControlType::Ack);
    // A discriminant no control frame may carry, with a matching CRC so
    // only the discriminant check can reject it.
    frame[3] = 0x09;
    let crc = crc16(&[0x09]);
    frame[4] = (crc & 0xFF) as u8;
    frame[5] = (crc >> 8) as u8;
    assert_eq!(parse_control_frame(&frame), Err(FrameError::InvalidFrame));
}

#[test]
fn test_control_frame_rejects_corrupt_crc() {
    let mut frame = make_control_frame(ControlType::Heartbeat);
    frame[4] ^= 0x01;
    assert_eq!(parse_control_frame(&frame), Err(FrameError::CRCFail));
}

#[test]
fn test_control_frame_rejects_wrong_shape() {
    assert_eq!(parse_control_frame(&[0x7F, 0x43, 0x01]), Err(FrameError::InvalidFrame));
    let mut frame = make_control_frame(ControlType::Ack);
    frame[2] = 0x02;
    assert_eq!(parse_control_frame(&frame), Err(FrameError::InvalidFrame));
}
