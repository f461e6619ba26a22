use web_socket_io::codec::{decode, encode_call, encode_notify, encode_response, DecodeError,
    Decoded};
use web_socket_io::error::NotifyError;
use web_socket_io::wire::{u32_from_be, u32_to_be};

#[test]
fn u32_big_endian_round_trip() {
    assert_eq!(u32_to_be(0x0102_0304), [1, 2, 3, 4]);
    assert_eq!(u32_from_be(1, 2, 3, 4), 0x0102_0304);
    assert_eq!(u32_to_be(42), [0, 0, 0, 42]);
    assert_eq!(u32_from_be(0xFF, 0xFF, 0xFF, 0xFF), u32::MAX);
}

#[test]
fn decode_notify_scenario() {
    // frame-type 1, name_len 4, "ping", payload "Hi"
    let bytes = vec![0x01, 0x04, 0x70, 0x69, 0x6E, 0x67, 0x48, 0x69];
    match decode(bytes).unwrap() {
        Decoded::Notify(req) => {
            assert_eq!(req.method(), "ping");
            assert_eq!(req.data(), &[0x48, 0x69]);
        }
        _ => panic!("expected a notification"),
    }
}

#[test]
fn decode_call_scenario() {
    // frame-type 2, name "echo", id 42, payload "hello"
    let mut bytes = vec![0x02, 0x04, 0x65, 0x63, 0x68, 0x6F, 0x00, 0x00, 0x00, 0x2A];
    bytes.extend_from_slice(b"hello");
    match decode(bytes).unwrap() {
        Decoded::Call(req, id) => {
            assert_eq!(req.method(), "echo");
            assert_eq!(id, 42);
            assert_eq!(req.data(), b"hello");
        }
        _ => panic!("expected a call"),
    }
    let reply = encode_response(42, b"hello");
    assert_eq!(reply, vec![0x04, 0x00, 0x00, 0x00, 0x2A, 0x68, 0x65, 0x6C, 0x6C, 0x6F]);
}

#[test]
fn notify_round_trip() {
    let frame = encode_notify("greet", &[1, 2, 3]).unwrap();
    assert_eq!(frame[0], 1);
    assert_eq!(frame[1], 5);
    match decode(frame).unwrap() {
        Decoded::Notify(req) => {
            assert_eq!(req.method(), "greet");
            assert_eq!(req.data(), &[1, 2, 3]);
        }
        _ => panic!("expected a notification"),
    }
}

#[test]
fn notify_round_trip_multibyte_name() {
    let name = "caf\u{e9}";
    let frame = encode_notify(name, &[0xFF]).unwrap();
    match decode(frame).unwrap() {
        Decoded::Notify(req) => {
            assert_eq!(req.method(), name);
            assert_eq!(req.data(), &[0xFF]);
        }
        _ => panic!("expected a notification"),
    }
}

#[test]
fn call_round_trip() {
    let frame = encode_call("sum", 0xDEAD_BEEF, &[7, 8]).unwrap();
    match decode(frame).unwrap() {
        Decoded::Call(req, id) => {
            assert_eq!(req.method(), "sum");
            assert_eq!(id, 0xDEAD_BEEF);
            assert_eq!(req.data(), &[7, 8]);
        }
        _ => panic!("expected a call"),
    }
}

#[test]
fn decode_reset_frame() {
    match decode(vec![0x03, 0x00, 0x00, 0x00, 0x2A]).unwrap() {
        Decoded::Reset(id) => assert_eq!(id, 42),
        _ => panic!("expected a reset"),
    }
}

#[test]
fn name_length_boundary() {
    let name_255 = "x".repeat(255);
    let frame = encode_notify(&name_255, &[]).unwrap();
    assert_eq!(frame.len(), 2 + 255);
    match decode(frame).unwrap() {
        Decoded::Notify(req) => assert_eq!(req.method(), name_255),
        _ => panic!("expected a notification"),
    }

    let name_256 = "x".repeat(256);
    assert_eq!(encode_notify(&name_256, &[]), Err(NotifyError::EventNameTooBig));
    assert_eq!(encode_call(&name_256, 1, &[]), Err(NotifyError::EventNameTooBig));
}

#[test]
fn decode_rejects_invalid_utf8_name() {
    let bytes = vec![0x01, 0x02, 0xFF, 0xFE];
    assert_eq!(decode(bytes).unwrap_err(), DecodeError::InvalidUtf8);
    let bytes = vec![0x02, 0x02, 0xFF, 0xFE, 0, 0, 0, 1];
    assert_eq!(decode(bytes).unwrap_err(), DecodeError::InvalidUtf8);
}

#[test]
fn decode_rejects_bad_tag_and_short_frames() {
    assert_eq!(decode(vec![]).unwrap_err(), DecodeError::InsufficientBytes);
    assert_eq!(decode(vec![9]).unwrap_err(), DecodeError::InvalidFrameTag);
    // a response frame is not accepted inbound
    assert_eq!(decode(vec![4, 0, 0, 0, 1]).unwrap_err(), DecodeError::InvalidFrameTag);
    // notify frame cut inside the name
    assert_eq!(decode(vec![1, 5, 0x61]).unwrap_err(), DecodeError::InsufficientBytes);
    // call frame cut inside the id
    assert_eq!(decode(vec![2, 1, 0x61, 0, 0]).unwrap_err(), DecodeError::InsufficientBytes);
    // reset frame cut inside the id
    assert_eq!(decode(vec![3, 0, 0]).unwrap_err(), DecodeError::InsufficientBytes);
}

#[test]
fn empty_payloads_decode() {
    let frame = encode_notify("e", &[]).unwrap();
    match decode(frame).unwrap() {
        Decoded::Notify(req) => {
            assert_eq!(req.method(), "e");
            assert_eq!(req.data(), &[] as &[u8]);
        }
        _ => panic!("expected a notification"),
    }
    let reply = encode_response(0, &[]);
    assert_eq!(reply, vec![4, 0, 0, 0, 0]);
}
