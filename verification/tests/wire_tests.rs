use clipsynk::errors::AppErr;
use clipsynk::wire::{
    announced_length, decode_outcome, encode_message, length_header, prepare_write, write_outcome,
    MessageKind, MessageReader, ReadAction, ReadState,
};

fn read_err_text(a: ReadAction) -> String {
    match a {
        ReadAction::Fail(AppErr::ReadErr(s)) => s,
        other => panic!("expected a read error, got {:?}", other),
    }
}

#[test]
fn header_is_big_endian_length() {
    assert_eq!(length_header(0), [0, 0, 0, 0]);
    assert_eq!(length_header(5), [0, 0, 0, 5]);
    assert_eq!(length_header(0x0102_0304), [1, 2, 3, 4]);
    assert_eq!(length_header(0xffff_ffff), [0xff, 0xff, 0xff, 0xff]);
}

#[test]
fn header_length_wraps_past_u32() {
    if usize::BITS > 32 {
        let n: usize = (1usize << 32) + 7;
        assert_eq!(length_header(n), [0, 0, 0, 7]);
    }
}

#[test]
fn announced_length_reads_big_endian() {
    assert_eq!(announced_length([0, 0, 0, 5]), 5);
    assert_eq!(announced_length([1, 2, 3, 4]), 0x0102_0304);
    assert_eq!(announced_length([0xff, 0xff, 0xff, 0xff]), 0xffff_ffff);
    assert_eq!(announced_length(length_header(300)), 300);
}

#[test]
fn encode_message_prefixes_the_length() {
    assert_eq!(encode_message(b"abc"), vec![0, 0, 0, 3, b'a', b'b', b'c']);
    assert_eq!(encode_message(b""), vec![0, 0, 0, 0]);
    let payload: Vec<u8> = (0..300u32).map(|i| (i % 256) as u8).collect();
    let m = encode_message(&payload);
    assert_eq!(&m[..4], &[0, 0, 1, 44]);
    assert_eq!(&m[4..], &payload[..]);
}

#[test]
fn reader_gives_back_what_was_written() {
    let payload = b"{\"device_id\":1}".to_vec();
    let message = encode_message(&payload);
    let (mut reader, first) = MessageReader::new(MessageKind::HandShake);
    let n = match first {
        ReadAction::ReadExact(n) => n,
        other => panic!("{:?}", other),
    };
    assert_eq!(n, 4);
    let next = reader.on_read(Some(message[..4].to_vec()));
    let body_len = match next {
        ReadAction::ReadExact(n) => n,
        other => panic!("{:?}", other),
    };
    assert_eq!(body_len, payload.len());
    assert_eq!(reader.state, ReadState::Body(payload.len()));
    match reader.on_read(Some(message[4..4 + body_len].to_vec())) {
        ReadAction::Decode(p) => assert_eq!(p, payload),
        other => panic!("{:?}", other),
    }
    assert_eq!(reader.state, ReadState::Finished);
}

#[test]
fn reader_of_empty_payload_asks_for_nothing() {
    let (mut reader, _) = MessageReader::new(MessageKind::Frame);
    match reader.on_read(Some(vec![0, 0, 0, 0])) {
        ReadAction::ReadExact(0) => {}
        other => panic!("{:?}", other),
    }
    match reader.on_read(Some(vec![])) {
        ReadAction::Decode(p) => assert!(p.is_empty()),
        other => panic!("{:?}", other),
    }
}

#[test]
fn reader_header_failure_texts() {
    let (mut r, _) = MessageReader::new(MessageKind::Frame);
    assert_eq!(read_err_text(r.on_read(None)), "Frame lenght reading error");
    assert_eq!(r.state, ReadState::Finished);
    let (mut r, _) = MessageReader::new(MessageKind::HandShake);
    assert_eq!(read_err_text(r.on_read(None)), "HandShake lenght reading error");
}

#[test]
fn reader_body_failure_texts() {
    let (mut r, _) = MessageReader::new(MessageKind::Frame);
    r.on_read(Some(vec![0, 0, 0, 9]));
    assert_eq!(read_err_text(r.on_read(None)), "Reading exact Frame");
    let (mut r, _) = MessageReader::new(MessageKind::HandShake);
    r.on_read(Some(vec![0, 0, 0, 9]));
    assert_eq!(read_err_text(r.on_read(None)), "Reading exact handshake");
}

#[test]
fn decode_outcome_maps_failure() {
    match decode_outcome(MessageKind::Frame, Some(7u8)) {
        Ok(v) => assert_eq!(v, 7),
        Err(e) => panic!("{:?}", e),
    }
    match decode_outcome::<u8>(MessageKind::Frame, None) {
        Err(AppErr::Deserialize(s)) => assert_eq!(s, "Frame decode err"),
        other => panic!("{:?}", other),
    }
    match decode_outcome::<u8>(MessageKind::HandShake, None) {
        Err(AppErr::Deserialize(s)) => assert_eq!(s, "Handshake decode err"),
        other => panic!("{:?}", other),
    }
}

#[test]
fn prepare_write_frames_or_fails() {
    match prepare_write(MessageKind::Frame, Some(vec![9, 8])) {
        Ok(m) => assert_eq!(m, vec![0, 0, 0, 2, 9, 8]),
        Err(e) => panic!("{:?}", e),
    }
    match prepare_write(MessageKind::Frame, None) {
        Err(AppErr::SerializeErr(s)) => assert_eq!(s, "Frame serialize err"),
        other => panic!("{:?}", other),
    }
    match prepare_write(MessageKind::HandShake, None) {
        Err(AppErr::SerializeErr(s)) => assert_eq!(s, "Handshake serialize err"),
        other => panic!("{:?}", other),
    }
}

#[test]
fn write_outcome_maps_failure() {
    assert!(write_outcome(MessageKind::Frame, true).is_ok());
    match write_outcome(MessageKind::Frame, false) {
        Err(AppErr::WriteErr(s)) => assert_eq!(s, "Frame Writting Err"),
        other => panic!("{:?}", other),
    }
    match write_outcome(MessageKind::HandShake, false) {
        Err(AppErr::WriteErr(s)) => assert_eq!(s, "HandShake Writting Err"),
        other => panic!("{:?}", other),
    }
}

#[test]
fn app_err_messages() {
    assert_eq!(AppErr::ReadErr("x".to_string()).to_string(), "ReadErr: x");
    assert_eq!(AppErr::WriteErr("y".to_string()).to_string(), "WrieErr: y");
    assert_eq!(AppErr::Deserialize("z".to_string()).to_string(), "Deserialize: z");
    assert_eq!(AppErr::SerializeErr("w".to_string()).to_string(), "Serialize: w");
    assert_eq!(AppErr::AddressErr.to_string(), "AddressErr");
    assert_eq!(AppErr::AlreadyExistErr("v".to_string()).to_string(), "AlreadyExistErr: v");
}
