use bytes::BytesMut;
use wolfusb::error::WolfUsbError;
use wolfusb::protocol::codec::{WolfUsbCodec, MAX_FRAME_SIZE};

#[test]
fn frame_roundtrip_keeps_following_bytes() {
    let mut codec = WolfUsbCodec;
    let mut buf = BytesMut::new();
    codec.encode_frame(&[1, 2, 3], &mut buf).unwrap();
    assert_eq!(&buf[..], &[0, 0, 0, 3, 1, 2, 3][..]);
    buf.extend_from_slice(&[0xde, 0xad]);
    let payload = codec.decode_frame(&mut buf).unwrap().unwrap();
    assert_eq!(&payload[..], &[1, 2, 3][..]);
    assert_eq!(&buf[..], &[0xde, 0xad][..]);
}

#[test]
fn empty_payload_frame() {
    let mut codec = WolfUsbCodec;
    let mut buf = BytesMut::new();
    codec.encode_frame(&[], &mut buf).unwrap();
    assert_eq!(&buf[..], &[0, 0, 0, 0][..]);
    let payload = codec.decode_frame(&mut buf).unwrap().unwrap();
    assert!(payload.is_empty());
    assert!(buf.is_empty());
}

#[test]
fn incomplete_frame_waits_and_keeps_bytes() {
    let mut codec = WolfUsbCodec;
    let mut buf = BytesMut::from(&[0u8, 0, 0][..]);
    assert!(codec.decode_frame(&mut buf).unwrap().is_none());
    assert_eq!(&buf[..], &[0, 0, 0][..]);
    let mut buf = BytesMut::from(&[0u8, 0, 0, 5, 1, 2][..]);
    assert!(codec.decode_frame(&mut buf).unwrap().is_none());
    assert_eq!(&buf[..], &[0, 0, 0, 5, 1, 2][..]);
}

#[test]
fn oversized_length_prefix_is_refused() {
    let mut codec = WolfUsbCodec;
    let len = MAX_FRAME_SIZE + 1;
    let mut buf = BytesMut::from(&len.to_be_bytes()[..]);
    match codec.decode_frame(&mut buf) {
        Err(WolfUsbError::FrameTooLarge { size, max }) => {
            assert_eq!(size, 16 * 1024 * 1024 + 1);
            assert_eq!(max, 16 * 1024 * 1024);
        }
        _ => panic!("expected FrameTooLarge"),
    }
    assert_eq!(buf.len(), 4);
}

#[test]
fn frame_of_exactly_max_size_is_accepted_prefix() {
    let mut codec = WolfUsbCodec;
    let mut buf = BytesMut::from(&MAX_FRAME_SIZE.to_be_bytes()[..]);
    assert!(codec.decode_frame(&mut buf).unwrap().is_none());
}

#[test]
fn oversized_payload_is_not_framed() {
    let mut codec = WolfUsbCodec;
    let mut buf = BytesMut::from(&[9u8][..]);
    let payload = vec![0u8; 17 * 1024 * 1024];
    match codec.encode_frame(&payload, &mut buf) {
        Err(WolfUsbError::FrameTooLarge { size, max }) => {
            assert_eq!(size, 17 * 1024 * 1024);
            assert_eq!(max, MAX_FRAME_SIZE);
        }
        _ => panic!("expected FrameTooLarge"),
    }
    assert_eq!(&buf[..], &[9u8][..]);
    let exact = vec![1u8; MAX_FRAME_SIZE as usize];
    let mut out = BytesMut::new();
    codec.encode_frame(&exact, &mut out).unwrap();
    assert_eq!(out.len(), 4 + MAX_FRAME_SIZE as usize);
    assert_eq!(&out[..4], &MAX_FRAME_SIZE.to_be_bytes()[..]);
}
