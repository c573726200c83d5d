use tw_ctrl::message::{decode_tph, Message, MessageId};

fn check_id(n: &u8, exp: MessageId) {
    let id = match MessageId::from_value(n) {
        Ok(t) => t,
        Err(_) => panic!("Failed to convert value to id"),
    };
    assert_eq!(id, exp, "Converted to wrong id");
}

// New messages are empty
#[test]
fn test_new_size() {
    let msg = Message::new(MessageId::CmdTph);

    assert_eq!(1, msg.len());
}

#[test]
fn test_get_msgid() {
    let msg = Message::new(MessageId::CmdTph);
    let r = match msg.id() {
        MessageId::CmdTph => true,
        _ => false,
    };

    assert!(r);
}

#[test]
#[should_panic]
fn test_msgid_bad_value() {
    let n = 0x45;
    let _id = {
        let this = MessageId::from_value(&n);
        match this {
            Ok(t) => t,
            Err(_) => panic!("Failed to convert value to id"),
        }
    };
}

#[test]
fn test_msgid_from_value() {
    let mut n = 0x01;
    check_id(&n, MessageId::CmdReset);
    n = 0x02;
    check_id(&n, MessageId::CmdTph);
    n = 0x03;
    check_id(&n, MessageId::CmdTemp);
    n = 0x04;
    check_id(&n, MessageId::CmdPress);
    n = 0x05;
    check_id(&n, MessageId::CmdHum);
    n = 0x06;
    check_id(&n, MessageId::RspTph);
    n = 0x07;
    check_id(&n, MessageId::RspTemp);
    n = 0x08;
    check_id(&n, MessageId::RspPress);
    n = 0x09;
    check_id(&n, MessageId::RspHum);
}

#[test]
fn test_deserialize() {
    let v: Vec<u8> = vec![0x06, 0x02];
    let msg = match Message::deserialize(&v) {
        Ok(m) => m,
        Err(_) => panic!("Failed to deserialize"),
    };
    assert_eq!(0x06, msg.id().value());
    assert_eq!(0x02, *msg.payload().get(0).unwrap());
}

#[test]
fn test_serialize() {
    let msg = Message::new(MessageId::CmdTph);
    let v = msg.serialize();
    assert_eq!(0x02, *v.get(0).unwrap());
    assert_eq!(0x02, msg.id().value());
}

#[test]
fn test_deserialize_empty_fails() {
    let v: Vec<u8> = Vec::new();
    assert!(Message::deserialize(&v).is_err());
}

#[test]
fn test_set_payload_replaces_body() {
    let mut msg = Message::new(MessageId::CmdReset);
    msg.set_payload(&[0xAA, 0xBB]);
    assert_eq!(msg.payload().as_slice(), &[0xAA, 0xBB]);
    assert_eq!(3, msg.len());
    msg.set_payload(&[0x01]);
    assert_eq!(msg.payload().as_slice(), &[0x01]);
}

#[test]
fn test_serialize_deserialize_round_trip() {
    let mut msg = Message::new(MessageId::RspHum);
    msg.set_payload(&[0x10, 0x20, 0x30]);
    let bytes = msg.serialize();
    assert_eq!(bytes, vec![0x09, 0x10, 0x20, 0x30]);
    let back = Message::deserialize(&bytes).unwrap();
    assert_eq!(back.id().value(), 0x09);
    assert_eq!(back.payload().as_slice(), &[0x10, 0x20, 0x30]);
}

#[test]
fn test_decode_tph_reads_little_endian() {
    let data: Vec<u8> = vec![
        0x01, 0x00, 0x00, 0x00, // 1
        0x00, 0x01, 0x00, 0x00, // 256
        0x78, 0x56, 0x34, 0x12, // 0x12345678
    ];
    let (t, p, h) = decode_tph(&data).unwrap();
    assert_eq!(t, 1);
    assert_eq!(p, 256);
    assert_eq!(h, 0x12345678);
}

#[test]
fn test_decode_tph_short_body() {
    let data: Vec<u8> = vec![0x01; 11];
    assert!(decode_tph(&data).is_none());
}
