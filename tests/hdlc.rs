use bytes::{Buf, BufMut, BytesMut};
use maestro::hdlc::consts;
use maestro::hdlc::decoder::{find_frame_start, Decoder, EscState, Error, State};
use maestro::hdlc::encoder::{encode_bytes, put_escaped};
use maestro::hdlc::varint::{decode, encode_vec, num_bytes, DecodeError};
use maestro::hdlc::Frame;
use maestro::hdlc::crc::crc32;

#[test]
fn test_find_frame_start() {
    let buf = [0x7E, 0x01, 0x02, 0x03];
    assert_eq!(find_frame_start(&buf), Some(0));

    let buf = [0x03, 0x02, 0x01, 0x00, 0x7E, 0x00, 0x01, 0x02, 0x03];
    assert_eq!(find_frame_start(&buf), Some(4));

    let buf = [0x03, 0x02, 0x01, 0x00, 0x7E, 0x7E, 0x00, 0x01, 0x02, 0x03];
    assert_eq!(find_frame_start(&buf), Some(5));

    let buf = [0x03, 0x02, 0x01, 0x00, 0x7E];
    assert_eq!(find_frame_start(&buf), None);

    let buf = [0x03, 0x02, 0x01, 0x00, 0x7E, 0x00];
    assert_eq!(find_frame_start(&buf), Some(4));

    let buf = [0x7E];
    assert_eq!(find_frame_start(&buf), None);

    let buf: [u8; 0] = [];
    assert_eq!(find_frame_start(&buf), None);
}

#[test]
fn test_frame_decode() {
    let data = [
        // message
        0x7e, 0x06, 0x08, 0x09, 0x03, 0x05, 0x06, 0x07, 0x7d, 0x5d,
        0x7d, 0x5e, 0x7f, 0xff, 0xe6, 0x2d, 0x17, 0xc6, 0x7e,
        // and trailing bytes
        0x02, 0x01
    ];

    let expect = Frame {
        address: 0x010203,
        control: 0x03,
        data: vec![0x05, 0x06, 0x07, 0x7D, 0x7E, 0x7F, 0xFF],
    };

    let mut dec = Decoder::new();

    // test standard decoding
    let mut buf = BytesMut::from(&data[..data.len()-2]);
    assert_eq!(dec.process(&mut buf), Ok(Some(expect.clone())));
    assert_eq!(buf.remaining(), 0);

    // test decoding with trailing bytes
    let mut buf = BytesMut::from(&data[..data.len()]);
    assert_eq!(dec.process(&mut buf), Ok(Some(expect.clone())));
    assert_eq!(buf.remaining(), 2);

    assert_eq!(dec.process(&mut buf), Err(Error::UnexpectedData));
    assert_eq!(buf.remaining(), 0);

    // test partial decoding / re-entrancy
    let mut buf = BytesMut::from(&data[..9]);
    assert_eq!(dec.process(&mut buf), Ok(None));
    assert_eq!(buf.remaining(), 0);

    assert_eq!(dec.state(), (State::Frame, EscState::Escape));

    let mut buf = BytesMut::from(&data[9..data.len()-2]);
    assert_eq!(dec.process(&mut buf), Ok(Some(expect.clone())));
    assert_eq!(buf.remaining(), 0);

    // test decoding of subsequent frames
    let mut buf = BytesMut::new();
    buf.put_slice(&data[..data.len()-2]);
    buf.put_slice(&data[..]);

    assert_eq!(dec.process(&mut buf), Ok(Some(expect.clone())));
    assert_eq!(buf.remaining(), data.len());

    assert_eq!(dec.process(&mut buf), Ok(Some(expect.clone())));
    assert_eq!(buf.remaining(), 2);

    // test decoding of cut-off frame / data loss (with frame being too small)
    let mut buf = BytesMut::new();
    buf.put_slice(&data[..5]);
    buf.put_slice(&data[..]);

    assert_eq!(dec.process(&mut buf), Err(Error::InvalidFrame));
    assert_eq!(dec.process(&mut buf), Ok(Some(expect.clone())));
    assert_eq!(buf.remaining(), 2);

    // test decoding of cut-off frame / data loss (with data being cut off)
    let mut buf = BytesMut::new();
    buf.put_slice(&data[..10]);
    buf.put_slice(&data[..]);

    assert_eq!(dec.process(&mut buf), Err(Error::InvalidChecksum));
    assert_eq!(dec.process(&mut buf), Ok(Some(expect.clone())));
    assert_eq!(buf.remaining(), 2);

    // test frame flag as escaped byte
    let mut buf = BytesMut::from(&data[..10]);
    buf.put_slice(&data[..]);
    buf[9] = consts::FRAME;

    assert_eq!(dec.process(&mut buf), Err(Error::UnexpectedEndOfFrame));
    assert_eq!(dec.process(&mut buf), Err(Error::UnexpectedData));
    assert_eq!(dec.process(&mut buf), Ok(Some(expect.clone())));
    assert_eq!(buf.remaining(), 2);
}

fn escaped(src: &[u8]) -> Vec<u8> {
    let mut dst = BytesMut::new();
    for byte in src {
        put_escaped(&mut dst, *byte);
    }
    dst.to_vec()
}

#[test]
fn test_escape_bytes() {
    assert_eq!(escaped(&[0x00, 0x00]), [0x00, 0x00]);
    assert_eq!(escaped(&[0x7D]), [0x7D, 0x5D]);
    assert_eq!(escaped(&[0x7E]), [0x7D, 0x5E]);
    assert_eq!(escaped(&[0x01, 0x7D, 0x02]), [0x01, 0x7D, 0x5D, 0x02]);
    assert_eq!(escaped(&[0x01, 0x7E, 0x02]), [0x01, 0x7D, 0x5E, 0x02]);
    assert_eq!(escaped(&[0x7D, 0x7E]), [0x7D, 0x5D, 0x7D, 0x5E]);
    assert_eq!(escaped(&[0x7F, 0x5D, 0x7E]), [0x7F, 0x5D, 0x7D, 0x5E]);
}

#[test]
fn encoder_test_encode() {
    assert_eq!([
        0x7e, 0x06, 0x08, 0x09, 0x03, 0x8b, 0x3b, 0xf7, 0x42, 0x7e,
    ], &encode_bytes(&Frame {
        address: 0x010203,
        control: 0x03,
        data: vec![],
    })[..]);

    assert_eq!([
        0x7e, 0x06, 0x08, 0x09, 0x03, 0x05, 0x06, 0x07, 0x7d, 0x5d,
        0x7d, 0x5e, 0x7f, 0xff, 0xe6, 0x2d, 0x17, 0xc6, 0x7e,
    ], &encode_bytes(&Frame {
        address: 0x010203,
        control: 0x03,
        data: vec![0x05, 0x06, 0x07, 0x7d, 0x7e, 0x7f, 0xff],
    })[..]);
}

#[test]
fn varint_test_decode() {
    assert_eq!(decode(&[0x01]).unwrap(), (0x00, 1));
    assert_eq!(decode(&[0x00, 0x00, 0x00, 0x01]).unwrap(), (0x00, 4));
    assert_eq!(decode(&[0x11, 0x00]).unwrap(), (0x0008, 1));
    assert_eq!(decode(&[0x10, 0x21]).unwrap(), (0x0808, 2));

    assert_eq!(decode(&[0x01]).unwrap(), (0x00, 1));
    assert_eq!(decode(&[0x03]).unwrap(), (0x01, 1));

    assert_eq!(decode(&[0xff]).unwrap(), (0x7f, 1));
    assert_eq!(decode(&[0x00, 0x03]).unwrap(), (0x80, 2));

    assert_eq!(decode(&[0xfe, 0xff]).unwrap(), (0x3fff, 2));
    assert_eq!(decode(&[0x00, 0x00, 0x03]).unwrap(), (0x4000, 3));

    assert_eq!(decode(&[0xfe, 0xfe, 0xff]).unwrap(), (0x1f_ffff, 3));
    assert_eq!(decode(&[0x00, 0x00, 0x00, 0x03]).unwrap(), (0x20_0000, 4));

    assert_eq!(decode(&[0xfe, 0xfe, 0xfe, 0xff]).unwrap(), (0x0fff_ffff, 4));
    assert_eq!(decode(&[0x00, 0x00, 0x00, 0x00, 0x03]).unwrap(), (0x1000_0000, 5));

    assert_eq!(decode(&[0xfe, 0x03]).unwrap(), (u8::MAX as _, 2));
    assert_eq!(decode(&[0xfe, 0xfe, 0x07]).unwrap(), (u16::MAX as _, 3));
    assert_eq!(decode(&[0xfe, 0xfe, 0xfe, 0xfe, 0x1f]).unwrap(), (u32::MAX, 5));

    assert_eq!(decode(&[0xFE]), Err(DecodeError::Incomplete));
    assert_eq!(decode(&[0xFE, 0xFE, 0xFE, 0xFE, 0xFF]), Err(DecodeError::Overflow));
}

#[test]
fn varint_test_encode() {
    assert_eq!(encode_vec(0x01234)[..], [0x68, 0x49]);
    assert_eq!(encode_vec(0x87654)[..], [0xa8, 0xd8, 0x43]);

    assert_eq!(encode_vec(0x00)[..], [0x01]);
    assert_eq!(encode_vec(0x01)[..], [0x03]);

    assert_eq!(encode_vec(0x7f)[..], [0xff]);
    assert_eq!(encode_vec(0x80)[..], [0x00, 0x03]);

    assert_eq!(encode_vec(0x3fff)[..], [0xfe, 0xff]);
    assert_eq!(encode_vec(0x4000)[..], [0x00, 0x00, 0x03]);

    assert_eq!(encode_vec(0x1f_ffff)[..], [0xfe, 0xfe, 0xff]);
    assert_eq!(encode_vec(0x20_0000)[..], [0x00, 0x00, 0x00, 0x03]);

    assert_eq!(encode_vec(0x0fff_ffff)[..], [0xfe, 0xfe, 0xfe, 0xff]);
    assert_eq!(encode_vec(0x1000_0000)[..], [0x00, 0x00, 0x00, 0x00, 0x03]);

    assert_eq!(encode_vec(u8::MAX as _)[..], [0xfe, 0x03]);
    assert_eq!(encode_vec(u16::MAX as _)[..], [0xfe, 0xfe, 0x07]);
    assert_eq!(encode_vec(u32::MAX)[..], [0xfe, 0xfe, 0xfe, 0xfe, 0x1f]);
}

#[test]
fn test_num_bytes() {
    assert_eq!(num_bytes(0x00), 1);
    assert_eq!(num_bytes(0x01), 1);

    assert_eq!(num_bytes(0x7f), 1);
    assert_eq!(num_bytes(0x80), 2);

    assert_eq!(num_bytes(0x3fff), 2);
    assert_eq!(num_bytes(0x4000), 3);

    assert_eq!(num_bytes(0x1f_ffff), 3);
    assert_eq!(num_bytes(0x20_0000), 4);

    assert_eq!(num_bytes(0x0fff_ffff), 4);
    assert_eq!(num_bytes(0x1000_0000), 5);

    assert_eq!(num_bytes(u8::MAX as _), 2);
    assert_eq!(num_bytes(u16::MAX as _), 3);
    assert_eq!(num_bytes(u32::MAX), 5);
}

#[test]
fn varint_round_trip_sample() {
    for v in [0u32, 1, 0x7f, 0x80, 0x3fff, 0x4000, 0x1234_5678, u32::MAX] {
        let bytes = encode_vec(v);
        assert_eq!(bytes.len(), num_bytes(v));
        let mut with_tail = bytes.to_vec();
        with_tail.push(0x42);
        assert_eq!(decode(&with_tail), Ok((v, bytes.len())));
    }
}

#[test]
fn varint_decode_scenario() {
    assert_eq!(decode(&[0x00, 0x03]), Ok((0x80, 2)));
    assert_eq!(decode(&[0xFE, 0xFE, 0xFE, 0xFE, 0x1F]), Ok((0xFFFF_FFFF, 5)));
    assert_eq!(decode(&[0xFE, 0xFE, 0xFE, 0xFE, 0xFF]), Err(DecodeError::Overflow));
    assert_eq!(decode(&[]), Err(DecodeError::Incomplete));
}

#[test]
fn crc32_known_values() {
    assert_eq!(crc32(b"123456789"), 0xCBF4_3926);
    assert_eq!(crc32(&[]), 0);
}

#[test]
fn frame_round_trip_scenario() {
    let frame = Frame {
        address: 0x010203,
        control: 0x03,
        data: vec![0x05, 0x06, 0x07, 0x7D, 0x7E, 0x7F, 0xFF],
    };
    let mut buf = frame.encode_bytes();
    assert_eq!(&buf[..], &[
        0x7E, 0x06, 0x08, 0x09, 0x03, 0x05, 0x06, 0x07, 0x7D, 0x5D, 0x7D, 0x5E, 0x7F, 0xFF,
        0xE6, 0x2D, 0x17, 0xC6, 0x7E,
    ]);
    assert_eq!(Frame::decode(&mut buf), Ok(Some(frame)));
    assert_eq!(buf.len(), 0);
}

#[test]
fn frame_with_noise_around() {
    let frame = Frame { address: 0x0123, control: 0x03, data: vec![0x7e, 0x7d, 0x00, 0x7e] };
    let mut buf = BytesMut::new();
    buf.put_slice(&[0x01, 0x02, 0x03]);
    frame.encode(&mut buf);
    buf.put_slice(&[0x04, 0x05]);

    let mut dec = Decoder::new();
    assert_eq!(dec.process(&mut buf), Err(Error::UnexpectedData));
    assert_eq!(dec.process(&mut buf), Ok(Some(frame)));
    assert_eq!(dec.process(&mut buf), Err(Error::UnexpectedData));
    assert_eq!(buf.len(), 0);
}

#[test]
fn flipped_payload_bit_is_detected() {
    let frame = Frame { address: 0x0480, control: 0x03, data: vec![0x10, 0x20, 0x30, 0x40] };
    let good = frame.encode_bytes();
    // the payload starts after the flag, two address bytes and the control byte
    for bit in 0..8 {
        let mut bad = BytesMut::from(&good[..]);
        bad[5] ^= 1 << bit;
        if bad[5] == 0x7e || bad[5] == 0x7d {
            continue;
        }
        let mut dec = Decoder::new();
        assert_eq!(dec.process(&mut bad), Err(Error::InvalidChecksum));
        assert_eq!(dec.state(), (State::Frame, EscState::Normal));
        assert_eq!(bad.len(), 0);
    }
}

#[test]
fn stuffed_payload_round_trip() {
    let payload = vec![0x7d, 0x7e, 0x7d, 0x7d, 0x7e, 0x7e, 0x00, 0x5d, 0x5e];
    let frame = Frame { address: 7, control: 0x03, data: payload.clone() };
    let mut buf = frame.encode_bytes();
    let decoded = Frame::decode(&mut buf).unwrap().unwrap();
    assert_eq!(decoded.data, payload);
}

#[test]
fn decoder_errors() {
    // escape followed by escape
    let mut dec = Decoder::new();
    let mut buf = BytesMut::from(&[0x7e, 0x01, 0x7d, 0x7d, 0x01][..]);
    assert_eq!(dec.process(&mut buf), Err(Error::InvalidEncoding));

    // a body longer than the decoder's capacity, whose first bytes happen
    // to carry a valid checksum
    let head = [0x01u8, 0x03, 0xaa, 0xbb];
    let sum = crc32(&head).to_le_bytes();
    let mut buf = BytesMut::new();
    buf.put_u8(0x7e);
    for b in head.iter().chain(sum.iter()).chain([0x11u8, 0x22].iter()) {
        put_escaped(&mut buf, *b);
    }
    buf.put_u8(0x7e);
    let mut dec = Decoder::with_capacity(8);
    assert_eq!(dec.process(&mut buf), Err(Error::BufferOverflow));
    assert_eq!(dec.state(), (State::Discard, EscState::Normal));

    // an address without terminator in a body with a valid checksum
    let body = [0x00u8, 0x00, 0x00, 0x00, 0x00, 0x00];
    let sum = crc32(&body).to_le_bytes();
    let mut buf = BytesMut::new();
    buf.put_u8(0x7e);
    for b in body.iter().chain(sum.iter()) {
        put_escaped(&mut buf, *b);
    }
    buf.put_u8(0x7e);
    let mut dec = Decoder::new();
    // the scan for the address runs on into the checksum and overflows
    assert_eq!(dec.process(&mut buf), Err(Error::InvalidAddress));
    assert_eq!(dec.state(), (State::Discard, EscState::Normal));
}

#[test]
fn varint_longer_than_five_bytes_overflows() {
    assert_eq!(decode(&[0x00, 0x00, 0x00, 0x00, 0x00, 0x01]), Err(DecodeError::Overflow));
    assert_eq!(decode(&[0x00, 0x00, 0x00, 0x00, 0x00]), Err(DecodeError::Incomplete));
    assert_eq!(decode(&[0x00, 0x00, 0x00, 0x00, 0x01, 0x00]), Ok((0, 5)));
}

#[test]
fn oversized_frame_is_refused() {
    let big = Frame { address: 0x0480, control: 0x03, data: vec![0x42; 4200] };
    let small = Frame { address: 0x0480, control: 0x03, data: vec![1, 2, 3] };
    let mut buf = big.encode_bytes();
    small.encode(&mut buf);

    let mut dec = Decoder::new();
    assert_eq!(dec.process(&mut buf), Err(Error::BufferOverflow));
    assert_eq!(dec.state(), (State::Discard, EscState::Normal));
    assert_eq!(dec.process(&mut buf), Ok(Some(small)));
    assert_eq!(buf.len(), 0);
}
