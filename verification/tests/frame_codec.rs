use web_socket_io::frame::{Argument, Frame, Request};

#[test]
fn encode_frame() {
    let req = Frame {
        method: &"1".repeat(256),
        arg: Argument { id: 42, data: &[1, 2] },
    };

    // Error Reason: method name too long
    assert!(req.to_bytes().is_err());

    let req: Frame<'_> = Frame {
        method: "foo",
        arg: Argument { id: 42, data: &[1, 2] },
    };
    let bytes = req.to_bytes().unwrap();
    let frame = Request::parse(bytes).unwrap();

    assert_eq!(frame.method(), "foo");
    assert_eq!(frame.id(), 42);
    assert_eq!(frame.data(), &[1, 2]);
}

#[test]
fn frame_wire_layout() {
    let frame = Frame {
        method: "ab",
        arg: Argument { id: 0x01020304, data: &[9] },
    };
    let bytes = frame.to_bytes().unwrap();
    assert_eq!(bytes, vec![2, 0x61, 0x62, 0x01, 0x02, 0x03, 0x04, 9]);
}

#[test]
fn frame_encode_appends() {
    let frame = Frame {
        method: "x",
        arg: Argument { id: 7, data: &[] },
    };
    let mut buf = vec![0xAA];
    frame.encode(&mut buf).unwrap();
    assert_eq!(buf, vec![0xAA, 1, 0x78, 0, 0, 0, 7]);
}

#[test]
fn frame_parse_insufficient() {
    assert!(Request::parse(vec![]).is_err());
    // name length says 4 bytes but only 2 follow
    assert!(Request::parse(vec![4, 0x61, 0x62]).is_err());
    // name fits but the id does not
    assert!(Request::parse(vec![1, 0x61, 0, 0]).is_err());
}

#[test]
fn frame_parse_invalid_utf8() {
    assert!(Request::parse(vec![2, 0xFF, 0xFE, 0, 0, 0, 1]).is_err());
}

#[test]
fn notify_view_keeps_method_and_data() {
    let frame = Frame {
        method: "evt",
        arg: Argument { id: 3, data: &[10, 11] },
    };
    let parsed = Request::parse(frame.to_bytes().unwrap()).unwrap();
    let notify: web_socket_io::frame::Notify = parsed.into();
    assert_eq!(notify.method(), "evt");
    assert_eq!(notify.data(), &[10, 11]);
}
