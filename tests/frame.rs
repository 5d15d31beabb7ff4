use rabc::{native_byte_order, ByteOrder, ErrorKind, FrameCodec};

fn little() -> FrameCodec {
    FrameCodec::with_byte_order(ByteOrder::Little)
}

#[test]
fn encode_little_endian_prefix() {
    let bytes = little().encode("hello").unwrap();
    assert_eq!(bytes, vec![5, 0, 0, 0, 0, 0, 0, 0, b'h', b'e', b'l', b'l', b'o']);
}

#[test]
fn encode_big_endian_prefix() {
    let codec = FrameCodec::with_byte_order(ByteOrder::Big);
    let bytes = codec.encode("hi").unwrap();
    assert_eq!(bytes, vec![0, 0, 0, 0, 0, 0, 0, 2, b'h', b'i']);
}

#[test]
fn encode_prefix_is_native_by_default() {
    let codec = FrameCodec::new();
    let bytes = codec.encode("abc").unwrap();
    assert_eq!(&bytes[..8], &3u64.to_ne_bytes()[..]);
    assert_eq!(codec.get_ipc_max_size(), 1024 * 1024);
    let expected = if 1u16.to_ne_bytes()[0] == 1 { ByteOrder::Little } else { ByteOrder::Big };
    assert_eq!(native_byte_order(), expected);
}

#[test]
fn encode_empty_text() {
    let bytes = little().encode("").unwrap();
    assert_eq!(bytes, vec![0u8; 8]);
}

#[test]
fn send_guard_refuses_only_longer_payloads() {
    let mut codec = little();
    codec.set_ipc_max_size(4);
    assert_eq!(codec.get_ipc_max_size(), 4);
    assert!(codec.encode("four").is_ok());
    let e = codec.encode("fives").unwrap_err();
    assert_eq!(e.kind(), ErrorKind::ExceededIpcMaxSize);
    assert_eq!(
        e.msg(),
        "Specified data exceeded the max size 4 bytes, please change the limitation by set_ipc_max_size()"
    );
}

#[test]
fn send_guard_counts_utf8_bytes() {
    let mut codec = little();
    codec.set_ipc_max_size(2);
    // one character, three bytes
    assert_eq!(codec.encode("\u{2713}").unwrap_err().kind(), ErrorKind::ExceededIpcMaxSize);
}

#[test]
fn round_trip_keeps_utf8() {
    for order in [ByteOrder::Little, ByteOrder::Big] {
        let codec = FrameCodec::with_byte_order(order);
        let text = "h\u{e9}llo \u{2713} \u{1f600}";
        let bytes = codec.encode(text).unwrap();
        assert_eq!(bytes.len(), 8 + text.len());
        assert_eq!(codec.decode_frame(&bytes).unwrap(), text);
    }
}

#[test]
fn prefix_at_guard_is_refused() {
    let mut codec = little();
    codec.set_ipc_max_size(5);
    let mut prefix = [0u8; 8];
    prefix[0] = 5;
    let e = codec.payload_len(&prefix).unwrap_err();
    assert_eq!(e.kind(), ErrorKind::ExceededIpcMaxSize);
    assert_eq!(
        e.msg(),
        "Received data exceeded the max size 5 bytes, please change the limitation by set_ipc_max_size()"
    );
    prefix[0] = 4;
    assert_eq!(codec.payload_len(&prefix).unwrap(), 4);
}

#[test]
fn huge_prefix_is_refused_before_payload() {
    let codec = little();
    let stream = [0xffu8; 8];
    let e = codec.decode_frame(&stream).unwrap_err();
    assert_eq!(e.kind(), ErrorKind::ExceededIpcMaxSize);
}

#[test]
fn frame_of_guard_length_is_sent_but_not_received() {
    let mut codec = little();
    codec.set_ipc_max_size(3);
    let bytes = codec.encode("abc").unwrap();
    assert_eq!(codec.decode_frame(&bytes).unwrap_err().kind(), ErrorKind::ExceededIpcMaxSize);
}

#[test]
fn closed_stream_is_connection_error() {
    let codec = little();
    let e = codec.decode_frame(&[]).unwrap_err();
    assert_eq!(e.kind(), ErrorKind::IpcConnectionError);
    assert_eq!(e.msg(), "Failed to receive data size: end of stream");
    let e = codec.decode_frame(&[1, 0, 0]).unwrap_err();
    assert_eq!(e.kind(), ErrorKind::IpcConnectionError);
}

#[test]
fn truncated_payload_is_bug() {
    let codec = little();
    let e = codec.decode_frame(&[3, 0, 0, 0, 0, 0, 0, 0, b'a']).unwrap_err();
    assert_eq!(e.kind(), ErrorKind::Bug);
}

#[test]
fn invalid_utf8_payload_is_bug() {
    let codec = little();
    let e = codec.decode_frame(&[2, 0, 0, 0, 0, 0, 0, 0, 0xc3, 0x28]).unwrap_err();
    assert_eq!(e.kind(), ErrorKind::Bug);
    assert!(e.msg().starts_with("std::string::FromUtf8Error: "));
    assert_eq!(codec.decode_payload(vec![0xc3, 0xa9]).unwrap(), "\u{e9}");
}

#[test]
fn decode_prefix_both_orders() {
    let b = [1u8, 2, 0, 0, 0, 0, 0, 0];
    assert_eq!(rabc::decode_prefix(&b, ByteOrder::Little), 0x0201);
    assert_eq!(rabc::decode_prefix(&b, ByteOrder::Big), 0x0102_0000_0000_0000);
    assert_eq!(rabc::encode_prefix(0x0201, ByteOrder::Big), vec![0, 0, 0, 0, 0, 0, 2, 1]);
}

#[test]
fn failure_errors_keep_their_reason() {
    let e = rabc::prefix_lost("broken pipe");
    assert_eq!(e.kind(), ErrorKind::IpcConnectionError);
    assert_eq!(e.msg(), "Failed to receive data size: broken pipe");
    let e = rabc::io_failure("broken pipe");
    assert_eq!(e.kind(), ErrorKind::Bug);
    assert_eq!(e.msg(), "std::io::Error: broken pipe");
}

#[test]
fn byte_order_from_bytes_of_one() {
    assert_eq!(rabc::byte_order_of([1, 0]), ByteOrder::Little);
    assert_eq!(rabc::byte_order_of([0, 1]), ByteOrder::Big);
    assert_eq!(rabc::byte_order_of(1u16.to_ne_bytes()), native_byte_order());
}

#[test]
fn peers_with_one_order_round_trip_below_guard() {
    let mut sender = FrameCodec::new();
    let mut receiver = FrameCodec::new();
    sender.set_ipc_max_size(8);
    receiver.set_ipc_max_size(8);
    let bytes = sender.encode("\u{e9}t\u{e9}").unwrap();
    assert_eq!(receiver.decode_frame(&bytes).unwrap(), "\u{e9}t\u{e9}");
    let at_guard = sender.encode("12345678").unwrap();
    assert_eq!(receiver.decode_frame(&at_guard).unwrap_err().kind(), ErrorKind::ExceededIpcMaxSize);
}
