use barrier_kvm::barrier::packet_stream::PacketStream;
use barrier_kvm::{Packet, PacketError, PacketReader, PacketWriter, Take};

fn frame(tag: &[u8; 4], payload: &[u8]) -> Vec<u8> {
    let mut out = Vec::new();
    out.extend_from_slice(&((4 + payload.len()) as u32).to_be_bytes());
    out.extend_from_slice(tag);
    out.extend_from_slice(payload);
    out
}

fn decode_all(bytes: &[u8]) -> Vec<Result<Packet, PacketError>> {
    let mut stream = PacketStream::new();
    let mut out = Vec::new();
    let mut rest = bytes;
    while !rest.is_empty() {
        let (n, r) = stream.read(rest);
        rest = &rest[n..];
        match r {
            Some(p) => out.push(p),
            None => break,
        }
    }
    out
}

#[test]
fn decodes_each_variant() {
    let mut bytes = Vec::new();
    bytes.extend(frame(b"QINF", &[]));
    bytes.extend(frame(b"CIAK", &[]));
    bytes.extend(frame(b"CALV", &[]));
    bytes.extend(frame(b"CROP", &[0, 0, 0, 1]));
    bytes.extend(frame(b"CNOP", &[]));
    bytes.extend(frame(b"EUNK", &[]));
    bytes.extend(frame(b"COUT", &[]));
    bytes.extend(frame(b"DMMV", &[0x01, 0x02, 0x03, 0x04]));
    bytes.extend(frame(b"DMRM", &[0xFF, 0xFE, 0x00, 0x05]));
    bytes.extend(frame(b"CINN", &[0, 1, 0, 2, 1, 2, 3, 4, 0, 5]));
    bytes.extend(frame(b"DMUP", &[0x01]));
    bytes.extend(frame(b"DMDN", &[0xFF]));
    bytes.extend(frame(b"DKUP", &[0, 0x61, 0, 2, 0, 7]));
    bytes.extend(frame(b"DKDN", &[0, 0x61, 0, 2, 0, 7]));
    bytes.extend(frame(b"DKRP", &[0, 0x61, 0, 2, 0, 3, 0, 7]));
    bytes.extend(frame(b"DMWM", &[0xFF, 0x88, 0x01, 0x68]));
    bytes.extend(frame(b"DINF", &[0, 1, 0, 2, 0, 3, 0, 4, 0, 5, 0, 6, 0, 7]));
    let expected = vec![
        Packet::QueryInfo,
        Packet::InfoAck,
        Packet::KeepAlive,
        Packet::ResetOptions,
        Packet::ClientNoOp,
        Packet::ErrorUnknownDevice,
        Packet::CursorLeave,
        Packet::MouseMoveAbs { x: 0x0102, y: 0x0304 },
        Packet::MouseMove { x: -2, y: 5 },
        Packet::CursorEnter { x: 1, y: 2, seq_num: 0x01020304, mask: 5 },
        Packet::MouseUp { id: 1 },
        Packet::MouseDown { id: -1 },
        Packet::KeyUp { id: 0x61, mask: 2, button: 7 },
        Packet::KeyDown { id: 0x61, mask: 2, button: 7 },
        Packet::KeyRepeat { id: 0x61, mask: 2, button: 7, count: 3 },
        Packet::MouseWheel { x_delta: -120, y_delta: 360 },
        Packet::DeviceInfo { x: 1, y: 2, w: 3, h: 4, _dummy: 5, mx: 6, my: 7 },
    ];
    let got = decode_all(&bytes);
    assert_eq!(got.len(), expected.len());
    for (g, e) in got.into_iter().zip(expected) {
        assert_eq!(g, Ok(e));
    }
}

#[test]
fn unknown_tag_keeps_its_bytes() {
    assert_eq!(decode_all(&frame(b"XYZW", &[1, 2, 3])), vec![Ok(Packet::Unknown(*b"XYZW"))]);
}

#[test]
fn trailing_fields_are_drained() {
    let mut bytes = frame(b"DKDN", &[0, 0x62, 0, 0, 0, 1, 9, 9, 9]);
    bytes.extend(frame(b"CALV", &[]));
    assert_eq!(
        decode_all(&bytes),
        vec![Ok(Packet::KeyDown { id: 0x62, mask: 0, button: 1 }), Ok(Packet::KeepAlive)]
    );
}

#[test]
fn oversized_packet_is_skipped_as_unknown() {
    let payload = vec![0xAAu8; 3000];
    let mut bytes = frame(b"DMMV", &payload);
    bytes.extend(frame(b"QINF", &[]));
    assert_eq!(
        decode_all(&bytes),
        vec![Ok(Packet::Unknown(*b"DMMV")), Ok(Packet::QueryInfo)]
    );
}

#[test]
fn largest_readable_packet_is_decoded() {
    let mut payload = vec![0u8; 2044];
    payload[1] = 9;
    assert_eq!(
        decode_all(&frame(b"DMMV", &payload)),
        vec![Ok(Packet::MouseMoveAbs { x: 9, y: 0 })]
    );
}

#[test]
fn length_below_four_is_too_small() {
    assert_eq!(decode_all(&[0, 0, 0, 3, 1, 2, 3]), vec![Err(PacketError::PacketTooSmall)]);
}

#[test]
fn short_payload_is_an_io_error() {
    assert_eq!(decode_all(&frame(b"DMMV", &[0, 1])), vec![Err(PacketError::IoError)]);
}

#[test]
fn bytes_may_arrive_one_at_a_time() {
    let bytes = frame(b"DMMV", &[0, 100, 0, 200]);
    let mut stream = PacketStream::new();
    for (i, b) in bytes.iter().enumerate() {
        let r = stream.push(*b);
        if i + 1 < bytes.len() {
            assert_eq!(r, None);
        } else {
            assert_eq!(r, Some(Ok(Packet::MouseMoveAbs { x: 100, y: 200 })));
        }
    }
}

#[test]
fn read_stops_at_end_of_frame() {
    let mut bytes = frame(b"CALV", &[]);
    bytes.extend(frame(b"QINF", &[]));
    let mut stream = PacketStream::new();
    let (n, r) = stream.read(&bytes);
    assert_eq!((n, r), (8, Some(Ok(Packet::KeepAlive))));
    let (n, r) = stream.read(&bytes[8..10]);
    assert_eq!((n, r), (2, None));
    let (n, r) = stream.read(&bytes[10..]);
    assert_eq!((n, r), (6, Some(Ok(Packet::QueryInfo))));
}

#[test]
fn writes_client_packets() {
    let mut out: Vec<u8> = Vec::new();
    Packet::QueryInfo.write_wire(&mut out);
    assert_eq!(out, b"\x00\x00\x00\x04QINF".to_vec());

    let mut out: Vec<u8> = Vec::new();
    Packet::KeepAlive.write_wire(&mut out);
    assert_eq!(out, b"\x00\x00\x00\x04CALV".to_vec());

    let mut out: Vec<u8> = Vec::new();
    Packet::ResetOptions.write_wire(&mut out);
    Packet::ClientNoOp.write_wire(&mut out);
    Packet::InfoAck.write_wire(&mut out);
    Packet::ErrorUnknownDevice.write_wire(&mut out);
    assert_eq!(
        out,
        b"\x00\x00\x00\x04CROP\x00\x00\x00\x04CNOP\x00\x00\x00\x04CIAK\x00\x00\x00\x04EUNK".to_vec()
    );

    let mut out: Vec<u8> = Vec::new();
    Packet::MouseMoveAbs { x: 0x0102, y: 0x0304 }.write_wire(&mut out);
    assert_eq!(out, b"\x00\x00\x00\x08DMMV\x01\x02\x03\x04".to_vec());
}

#[test]
fn writes_device_info() {
    let mut out: Vec<u8> = Vec::new();
    Packet::DeviceInfo { x: 100, y: 200, w: 1920, h: 1080, _dummy: 9, mx: 0, my: 0 }
        .write_wire(&mut out);
    let mut expected = vec![0x00, 0x00, 0x00, 0x12];
    expected.extend_from_slice(b"DINF");
    expected.extend_from_slice(&[0x00, 0x64, 0x00, 0xC8, 0x07, 0x80, 0x04, 0x38, 0, 0, 0, 0, 0, 0]);
    assert_eq!(out, expected);
}

#[test]
fn written_round_trips_through_the_decoder() {
    let mut out: Vec<u8> = Vec::new();
    Packet::MouseMoveAbs { x: 7, y: 65535 }.write_wire(&mut out);
    Packet::DeviceInfo { x: 1, y: 2, w: 3, h: 4, _dummy: 0, mx: 5, my: 6 }.write_wire(&mut out);
    assert_eq!(
        decode_all(&out),
        vec![
            Ok(Packet::MouseMoveAbs { x: 7, y: 65535 }),
            Ok(Packet::DeviceInfo { x: 1, y: 2, w: 3, h: 4, _dummy: 0, mx: 5, my: 6 }),
        ]
    );
}

#[test]
fn take_truncates_reads_to_its_limit() {
    let data = [1u8, 2, 3, 4, 5, 6];
    let mut take = Take::new(&data, 4);
    assert_eq!(take.limit(), 4);
    let mut buf = [0u8; 3];
    assert_eq!(take.read(&mut buf), 3);
    assert_eq!(buf, [1, 2, 3]);
    assert_eq!(take.read(&mut buf), 1);
    assert_eq!(buf[0], 4);
    assert_eq!(take.limit(), 0);
    assert_eq!(take.read(&mut buf), 0);
}

#[test]
fn take_discard_all_reaches_the_limit() {
    let data = [0u8; 100];
    let mut take = Take::new(&data, 70);
    assert_eq!(take.discard_all(), Ok(()));
    assert_eq!(take.limit(), 0);
}

#[test]
fn reader_primitives() {
    let data = [0x12u8, 0x34, 0x56, 0x78, 0xFF, 0xFE, 0x80, b'B', b'a', b'd', 1, 2, 3];
    let mut take = Take::new(&data, data.len() as u64);
    assert_eq!(take.read_u32(), Ok(0x12345678));
    assert_eq!(take.read_i16(), Ok(-2));
    assert_eq!(take.read_i8(), Ok(-128));
    assert_eq!(take.read_str_lit("Bar"), Err(PacketError::FormatError));
    assert_eq!(take.discard_exact(2), Ok(()));
    assert_eq!(take.read_u8(), Ok(3));
    assert_eq!(take.read_u16(), Err(PacketError::IoError));
}

#[test]
fn reader_literal_and_skip() {
    let data = *b"Barrier-tail";
    let mut take = Take::new(&data, data.len() as u64);
    assert_eq!(take.read_str_lit("Barrier"), Ok(()));
    assert_eq!(take.consume_bytes(5), Ok(()));
    assert_eq!(take.consume_bytes(1), Err(PacketError::IoError));
}

#[test]
fn writer_primitives() {
    let mut out: Vec<u8> = Vec::new();
    out.write_u16(0xABCD);
    out.write_u32(0x01020304);
    out.write_str("pico");
    assert_eq!(out, vec![0xAB, 0xCD, 1, 2, 3, 4, 0, 0, 0, 4, b'p', b'i', b'c', b'o']);
}

#[test]
fn reader_fixed_bytes() {
    let data = *b"DKDNxy";
    let mut take = Take::new(&data, 5);
    assert_eq!(take.read_bytes_fixed::<4>(), Ok(*b"DKDN"));
    assert_eq!(take.read_bytes_fixed::<2>(), Err(PacketError::IoError));
}

#[test]
fn stream_writes_packets() {
    let stream = PacketStream::new();
    let mut out: Vec<u8> = Vec::new();
    stream.write(Packet::KeepAlive, &mut out);
    stream.write(Packet::MouseMoveAbs { x: 1, y: 2 }, &mut out);
    assert_eq!(out, b"\x00\x00\x00\x04CALV\x00\x00\x00\x08DMMV\x00\x01\x00\x02".to_vec());
}
