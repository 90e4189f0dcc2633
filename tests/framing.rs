use speednet::error::SpeedError;
use speednet::message::{encode_frame, frame_len, frame_payload, SENTINEL, WINDOW_LEN};

#[test]
fn frame_appends_sentinel() {
    let f = encode_frame(b"abc");
    assert_eq!(f, vec![b'a', b'b', b'c', SENTINEL]);
}

#[test]
fn frame_round_trip() {
    let payload = br#"{"ServerHello":0}"#;
    let f = encode_frame(payload);
    let n = frame_len(&f).unwrap();
    assert_eq!(n, payload.len() + 1);
    assert_eq!(frame_payload(&f[..n]), payload.to_vec());
}

#[test]
fn frame_round_trip_with_following_bytes() {
    let mut bytes = encode_frame(b"first");
    bytes.extend_from_slice(&encode_frame(b"second"));
    let n = frame_len(&bytes).unwrap();
    assert_eq!(n, 6);
    assert_eq!(frame_payload(&bytes[..n]), b"first".to_vec());
    let m = frame_len(&bytes[n..]).unwrap();
    assert_eq!(frame_payload(&bytes[n..n + m]), b"second".to_vec());
}

#[test]
fn empty_peek_is_connection_closed() {
    assert_eq!(frame_len(&[]), Err(SpeedError::ConnectionClosed));
}

#[test]
fn missing_sentinel_is_framing_error() {
    assert_eq!(frame_len(b"no end here"), Err(SpeedError::Framing));
}

#[test]
fn oversized_frame_is_framing_error() {
    let payload = vec![b'x'; 5000];
    let f = encode_frame(&payload);
    assert_eq!(f.len(), 5001);
    assert_eq!(frame_len(&f[..WINDOW_LEN]), Err(SpeedError::Framing));
}

#[test]
fn frame_filling_window_exactly() {
    let payload = vec![b'y'; WINDOW_LEN - 1];
    let f = encode_frame(&payload);
    assert_eq!(frame_len(&f[..WINDOW_LEN]), Ok(WINDOW_LEN));
}

#[test]
fn empty_payload_frame() {
    let f = encode_frame(b"");
    assert_eq!(frame_len(&f), Ok(1));
    assert_eq!(frame_payload(&f), Vec::<u8>::new());
}
