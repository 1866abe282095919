use bytes::BytesMut;
use maestro::buffer::MessageData;
use maestro::gfps::{BatteryInfo, Codec, DeviceEventCode, EventGroup, Message, MessageError};

#[test]
fn codec_test_encode() {
    let mut buf = BytesMut::new();
    let mut codec = Codec::new();

    let msg = Message {
        group: EventGroup::Device.into(),
        code: DeviceEventCode::ModelId.into(),
        data: MessageData::from_slice(&[0x00, 0x01, 0x02, 0x04, 0x05]),
    };

    // try to encode the message
    codec.encode(&msg, &mut buf)
        .expect("error encode message");

    let raw = [0x03, 0x01, 0x00, 0x05, 0x00, 0x01, 0x02, 0x04, 0x05];
    assert_eq!(&buf[..], &raw[..]);
}

#[test]
fn codec_test_decode() {
    let mut codec = Codec::new();

    let raw = [0x03, 0x01, 0x00, 0x03, 0x00, 0x01, 0x02];
    let mut buf = BytesMut::from(&raw[..]);

    let msg = Message {
        group: EventGroup::Device.into(),
        code: DeviceEventCode::ModelId.into(),
        data: MessageData::from_slice(&[0x00, 0x01, 0x02]),
    };

    // try to encode the message
    let decoded = codec.decode(&mut buf)
        .expect("error decoding message")
        .expect("message incomplete");

    assert_eq!(decoded, msg);
}

#[test]
fn test_decode_incomplete() {
    let mut codec = Codec::new();

    let raw = [0x03, 0x01, 0x00, 0x03, 0x00];
    let mut buf = BytesMut::from(&raw[..]);

    // try to encode the message
    let decoded = codec.decode(&mut buf)
        .expect("error decoding message");

    assert_eq!(decoded, None);
}

#[test]
fn test_encode_decode() {
    let mut buf = BytesMut::new();
    let mut codec = Codec::new();

    let msg = Message {
        group: 0,
        code: 0,
        data: MessageData::from_slice(&[0x00, 0x01, 0x02]),
    };

    // try to encode the message
    codec.encode(&msg, &mut buf)
        .expect("error encode message");

    // try to decode the message we just encoded
    let decoded = codec.decode(&mut buf)
        .expect("error decoding message")
        .expect("message incomplete");

    assert_eq!(decoded, msg);
}

#[test]
fn gfps_too_large() {
    let mut codec = Codec::new();
    let mut buf = BytesMut::from(&[0x03, 0x01, 0x10, 0x01][..]);
    assert_eq!(codec.decode(&mut buf), Err(MessageError::TooLarge { length: 0x1001 }));
    let msg = Message { group: 1, code: 1, data: MessageData::from_slice(&[0; 4093]) };
    let mut out = BytesMut::new();
    assert_eq!(codec.encode(&msg, &mut out), Err(MessageError::TooLarge { length: 4097 }));
    assert_eq!(out.len(), 0);
}

#[test]
fn battery_bytes() {
    assert_eq!(BatteryInfo::from_byte(0xff), BatteryInfo::Unknown);
    assert_eq!(BatteryInfo::from_byte(0x7f), BatteryInfo::Unknown);
    assert_eq!(BatteryInfo::from_byte(0x85), BatteryInfo::Known { is_charging: true, percent: 5 });
    assert_eq!(BatteryInfo::Known { is_charging: false, percent: 64 }.to_byte(), 64);
    assert_eq!(BatteryInfo::Known { is_charging: true, percent: 64 }.to_byte(), 0xc0);
    assert_eq!(BatteryInfo::Unknown.to_byte(), 0xff);
    assert_eq!(EventGroup::from(0xfe), EventGroup::Unknown(0xfe));
    assert_eq!(u8::from(EventGroup::Acknowledgement), 0xff);
}

#[test]
fn message_data_access() {
    let mut codec = Codec::new();
    let mut buf = BytesMut::from(&[0x03, 0x03, 0x00, 0x02, 0x55, 0x66, 0x77][..]);
    let msg = codec.decode(&mut buf).unwrap().unwrap();
    assert_eq!(msg.data.len(), 2);
    assert_eq!(msg.data.get(1), 0x66);
    assert_eq!(&buf[..], &[0x77]);
    assert_eq!(msg.clone(), msg);
}
