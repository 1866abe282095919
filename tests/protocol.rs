use bytes::BytesMut;
use maestro::hdlc::Frame;
use maestro::protocol::addr::{address_for_channel, channel_id, Address, Peer};
use maestro::protocol::codec::Codec;
use maestro::protocol::resolve::{candidate_channels, resolve_requests, resolve_result, RESOLVE_CALL_ID};
use maestro::pwrpc::client::{Action, CallRequest, CallUpdate, Dispatcher};
use maestro::pwrpc::status::Status;
use maestro::pwrpc::types::{PacketType, RpcPacket};

#[test]
fn channel_address_bijection() {
    for c in 18..=27u32 {
        let a = address_for_channel(c).unwrap();
        assert_eq!(a.channel_id(), Some(c));
        assert_eq!(Address::from_value(a.value()).swap().channel_id(), Some(c));
    }
    assert!(address_for_channel(17).is_none());
    assert!(address_for_channel(28).is_none());
    assert_eq!(channel_id(Peer::Host, Peer::Case), None);
    assert_eq!(channel_id(Peer::Case, Peer::MaestroA), None);
    assert_eq!(channel_id(Peer::MaestroB, Peer::RightSensorHub), Some(27));
}

#[test]
fn address_fields() {
    let a = Address::from_peers(Peer::MaestroA, Peer::LeftBtCore);
    assert_eq!(a.value(), (10 << 6) | (3 << 10));
    assert_eq!(a.source(), Peer::MaestroA);
    assert_eq!(a.target(), Peer::LeftBtCore);
    assert_eq!(a.swap().source(), Peer::LeftBtCore);
    assert_eq!(Peer::from(14u8), Peer::Unrecognized(14));
    assert_eq!(u8::from(Peer::MaestroB), 13);
    assert_eq!(Address::from(0u32).channel_id(), None);
}

#[test]
fn wire_codec_round_trip() {
    let mut codec = Codec::new();
    let mut buf = BytesMut::new();
    codec.encode_packet(19, vec![0x08, 0x01, 0x7e], &mut buf).unwrap();
    assert_eq!(codec.decode_frame(&mut buf), Some(vec![0x08, 0x01, 0x7e]));
    assert_eq!(buf.len(), 0);

    let mut buf = BytesMut::new();
    assert_eq!(codec.encode_packet(5, vec![1], &mut buf).unwrap_err().code(), Status::InvalidArgument);
    assert_eq!(buf.len(), 0);

    let other = Frame { address: 0x0480, control: 0x01, data: vec![1, 2] };
    let mut buf = other.encode_bytes();
    assert_eq!(codec.decode_frame(&mut buf), None);
    assert_eq!(buf.len(), 0);
}

#[test]
fn channel_resolution_scenario() {
    assert_eq!(candidate_channels(), vec![18, 19, 21, 23, 24, 26]);
    let mut d = Dispatcher::new();
    for req in resolve_requests(100) {
        match &req {
            CallRequest::New { uid, tx, .. } => {
                assert_eq!(uid.call, RESOLVE_CALL_ID);
                assert_eq!(uid.service, 0x7EDE71EA);
                assert_eq!(uid.method, 0x7199FA44);
                assert!(!*tx);
            },
            _ => panic!("expected a new call"),
        }
        assert!(d.process_request(req).is_empty());
    }
    assert_eq!(d.len(), 6);
    let rsp = RpcPacket {
        packet_type: PacketType::Response.to_i32(),
        channel_id: 19,
        service_id: 0x7EDE71EA,
        method_id: 0x7199FA44,
        payload: vec![],
        status: 0,
        call_id: 0xFFFF_FFFF,
    };
    let out = d.process_packet(rsp);
    assert_eq!(d.len(), 5);
    match &out[..] {
        [Action::Update { caller: 101, update }] => {
            assert_eq!(resolve_result(19, Some(update.clone())).unwrap(), 19);
        },
        _ => panic!("expected one update for the second channel"),
    }
    assert_eq!(resolve_result(18, Some(CallUpdate::Error { status: Status::Aborted })).unwrap_err().code(), Status::Aborted);
}
