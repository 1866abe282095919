use maestro::pwrpc::client::{
    cancel_request, cancel_wait_step, stream_step, unary_result, Action, CallRequest, CallUid,
    CallUpdate, Dispatcher, StreamStep, UnaryRpc,
};
use maestro::pwrpc::id::{hash_65599, IdRef, Path, PathRef};
use maestro::pwrpc::status::{Error, Status};
use maestro::pwrpc::types::{PacketType, RpcPacket, RpcType};

#[test]
fn test_known_id_hashes() {
    assert_eq!(IdRef::new("maestro_pw.Maestro").hash(), 0x7ede71ea);
    assert_eq!(IdRef::new("GetSoftwareInfo").hash(), 0x7199fa44);
    assert_eq!(IdRef::new("SubscribeToSettingsChanges").hash(), 0x2821adf5);
}

#[test]
fn test_path() {
    let pref = PathRef::new("maestro_pw.Maestro/GetSoftwareInfo");
    assert_eq!(pref.service().name(), "maestro_pw.Maestro");
    assert_eq!(pref.service().hash(), 0x7ede71ea);
    assert_eq!(pref.method().name(), "GetSoftwareInfo");
    assert_eq!(pref.method().hash(), 0x7199fa44);

    let pref = PathRef::new("maestro_pw.Maestro/SubscribeToSettingsChanges");
    assert_eq!(pref.service().name(), "maestro_pw.Maestro");
    assert_eq!(pref.service().hash(), 0x7ede71ea);
    assert_eq!(pref.method().name(), "SubscribeToSettingsChanges");
    assert_eq!(pref.method().hash(), 0x2821adf5);
}

#[test]
fn owned_path_and_id() {
    let path = Path::new("a/b/c");
    assert_eq!(path.service().name(), "a/b");
    assert_eq!(path.method().name(), "c");
    assert_eq!(path.as_ref().method().name(), "c");
    let no_slash = Path::new("abc");
    assert_eq!(no_slash.service().name(), "");
    assert_eq!(no_slash.method().name(), "bc");
    assert_eq!(hash_65599(""), 0);
    assert_eq!(hash_65599("a"), 1u32.wrapping_add(65599u32.wrapping_mul(97)));
    let id = maestro::pwrpc::id::Id::new("GetSoftwareInfo");
    assert_eq!(id.hash(), 0x7199fa44);
    assert_eq!(id.as_ref().name(), "GetSoftwareInfo");
}

#[test]
fn status_codes() {
    assert_eq!(Status::from(10u32), Status::Aborted);
    assert_eq!(Status::from(99u32), Status::Unknown);
    assert_eq!(u32::from(Status::Unauthenticated), 16);
    assert_eq!(Status::Okay.description(), "The operation completed successfully");
    let e = Error::aborted("gone");
    assert_eq!(e.code(), Status::Aborted);
    assert_eq!(e.message(), "gone");
    assert!(e.source().is_none());
    assert_eq!(Error::extend(Status::Internal, "m", "why").source(), Some("why"));
    assert_eq!(Error::from_status(Status::DataLoss).message(), "Unrecoverable data loss or corruption");
    assert!(RpcType::ServerStream.has_server_stream());
    assert!(!RpcType::Unary.has_server_stream());
    assert!(RpcType::BidirectionalStream.has_client_stream());
    assert_eq!(PacketType::from_i32(7), Some(PacketType::ServerStream));
    assert_eq!(PacketType::from_i32(9), None);
}

fn uid(call: u32) -> CallUid {
    CallUid { channel: 19, service: 0x7ede71ea, method: 0x7199fa44, call }
}

fn packet(ty: PacketType, uid: CallUid, payload: Vec<u8>, status: u32) -> RpcPacket {
    RpcPacket {
        packet_type: ty.to_i32(),
        channel_id: uid.channel,
        service_id: uid.service,
        method_id: uid.method,
        payload,
        status,
        call_id: uid.call,
    }
}

fn client_error(uid: CallUid, status: Status) -> Action {
    Action::Send { packet: packet(PacketType::ClientError, uid, vec![], status.into()) }
}

#[test]
fn unary_call_completes_once() {
    let mut d = Dispatcher::new();
    let start = CallRequest::New { ty: RpcType::Unary, uid: uid(42), payload: vec![], caller: 7, tx: true };
    let sent = d.process_request(start);
    assert_eq!(sent, vec![Action::Send { packet: packet(PacketType::Request, uid(42), vec![], 0) }]);
    assert_eq!(d.len(), 1);

    let rsp = packet(PacketType::Response, uid(42), vec![1, 2, 3], 0);
    let out = d.process_packet(rsp.clone());
    assert_eq!(out, vec![Action::Update {
        caller: 7,
        update: CallUpdate::Complete { data: vec![1, 2, 3], status: Status::Okay },
    }]);
    assert_eq!(d.len(), 0);
    assert_eq!(d.process_packet(rsp), vec![]);

    assert_eq!(unary_result(Some(CallUpdate::Complete { data: vec![1, 2, 3], status: Status::Okay })).unwrap(), vec![1, 2, 3]);
    assert_eq!(unary_result(None).unwrap_err().code(), Status::ResourceExhausted);
    assert_eq!(unary_result(Some(CallUpdate::Complete { data: vec![], status: Status::NotFound })).unwrap_err().code(), Status::NotFound);
}

#[test]
fn server_error_ends_call() {
    let mut d = Dispatcher::new();
    d.process_request(CallRequest::New { ty: RpcType::Unary, uid: uid(1), payload: vec![], caller: 1, tx: false });
    let out = d.process_packet(packet(PacketType::ServerError, uid(1), vec![], 5));
    assert_eq!(out, vec![Action::Update { caller: 1, update: CallUpdate::Error { status: Status::NotFound } }]);
    assert_eq!(d.len(), 0);
}

#[test]
fn stream_items_in_order() {
    let mut d = Dispatcher::new();
    d.process_request(CallRequest::New { ty: RpcType::ServerStream, uid: uid(3), payload: vec![9], caller: 5, tx: true });
    let mut got = Vec::new();
    for i in 0..4u8 {
        let out = d.process_packet(packet(PacketType::ServerStream, uid(3), vec![i], 0));
        assert_eq!(out.len(), 1);
        match &out[0] {
            Action::Update { caller: 5, update } => match stream_step(Some(update.clone())) {
                StreamStep::Item(data) => got.push(data[0]),
                _ => panic!("expected an item"),
            },
            _ => panic!("expected an update"),
        }
    }
    assert_eq!(got, vec![0, 1, 2, 3]);
    let end = d.process_packet(packet(PacketType::Response, uid(3), vec![], 0));
    match &end[0] {
        Action::Update { update, .. } => assert!(matches!(stream_step(Some(update.clone())), StreamStep::End)),
        _ => panic!("expected an update"),
    }
    assert!(matches!(stream_step(None), StreamStep::End));
}

#[test]
fn cancel_sends_one_client_error() {
    let mut d = Dispatcher::new();
    d.process_request(CallRequest::New { ty: RpcType::ServerStream, uid: uid(4), payload: vec![], caller: 2, tx: true });
    let out = d.process_request(cancel_request(uid(4), true));
    assert_eq!(out, vec![
        Action::Update { caller: 2, update: CallUpdate::Error { status: Status::Cancelled } },
        client_error(uid(4), Status::Cancelled),
    ]);
    let later = d.process_packet(packet(PacketType::ServerStream, uid(4), vec![1], 0));
    assert_eq!(later, vec![client_error(uid(4), Status::FailedPrecondition)]);

    assert!(matches!(cancel_wait_step(Some(CallUpdate::StreamItem { data: vec![] })), None));
    assert!(matches!(cancel_wait_step(Some(CallUpdate::Error { status: Status::Cancelled })), Some(Ok(()))));
    assert_eq!(cancel_wait_step(Some(CallUpdate::Error { status: Status::Aborted })).unwrap().unwrap_err().code(), Status::Aborted);
}

#[test]
fn abandon_sends_nothing() {
    let mut d = Dispatcher::new();
    d.process_request(CallRequest::New { ty: RpcType::Unary, uid: uid(8), payload: vec![], caller: 3, tx: false });
    let out = d.process_request(cancel_request(uid(8), false));
    assert_eq!(out, vec![Action::Update { caller: 3, update: CallUpdate::Error { status: Status::Cancelled } }]);
}

#[test]
fn terminate_aborts_everything() {
    let mut d = Dispatcher::new();
    d.process_request(CallRequest::New { ty: RpcType::Unary, uid: uid(1), payload: vec![], caller: 1, tx: true });
    d.process_request(CallRequest::New { ty: RpcType::ServerStream, uid: uid(2), payload: vec![], caller: 2, tx: true });
    d.process_request(CallRequest::New { ty: RpcType::Unary, uid: uid(3), payload: vec![], caller: 3, tx: true });
    let queued = vec![
        CallRequest::New { ty: RpcType::Unary, uid: uid(9), payload: vec![], caller: 9, tx: true },
        CallRequest::Error { uid: uid(3), code: Status::Cancelled, tx: true },
    ];
    let out = d.terminate(queued);
    assert_eq!(d.len(), 0);
    assert_eq!(out, vec![
        Action::Update { caller: 9, update: CallUpdate::Error { status: Status::Aborted } },
        Action::Update { caller: 3, update: CallUpdate::Error { status: Status::Cancelled } },
        Action::Update { caller: 1, update: CallUpdate::Error { status: Status::Aborted } },
        Action::Update { caller: 2, update: CallUpdate::Error { status: Status::Aborted } },
        client_error(uid(3), Status::Cancelled),
        client_error(uid(1), Status::Cancelled),
        client_error(uid(2), Status::Cancelled),
    ]);
}

#[test]
fn abort_all_sends_nothing() {
    let mut d = Dispatcher::new();
    d.process_request(CallRequest::New { ty: RpcType::Unary, uid: uid(1), payload: vec![], caller: 1, tx: true });
    let out = d.abort_all();
    assert_eq!(out, vec![Action::Update { caller: 1, update: CallUpdate::Error { status: Status::Aborted } }]);
    assert_eq!(d.len(), 0);
}

#[test]
fn stream_on_unary_is_rejected() {
    let mut d = Dispatcher::new();
    d.process_request(CallRequest::New { ty: RpcType::Unary, uid: uid(6), payload: vec![], caller: 4, tx: false });
    let out = d.process_packet(packet(PacketType::ServerStream, uid(6), vec![1], 0));
    assert_eq!(out, vec![
        Action::Update { caller: 4, update: CallUpdate::Error { status: Status::InvalidArgument } },
        client_error(uid(6), Status::InvalidArgument),
    ]);
    assert_eq!(d.len(), 0);
    assert_eq!(unary_result(Some(CallUpdate::Error { status: Status::InvalidArgument })).unwrap_err().code(), Status::InvalidArgument);
}

#[test]
fn unary_call_scenario() {
    let rpc = UnaryRpc::new("maestro_pw.Maestro/GetSoftwareInfo");
    let req = rpc.call(19, 42, vec![], 11);
    match &req {
        CallRequest::New { uid, tx, .. } => {
            assert_eq!(*uid, CallUid { channel: 19, service: 0x7EDE71EA, method: 0x7199FA44, call: 42 });
            assert!(*tx);
        },
        _ => panic!("expected a new call"),
    }
    let mut d = Dispatcher::new();
    d.process_request(req);
    let out = d.process_packet(packet(PacketType::Response, uid(42), vec![0x0a, 0x00], 0));
    match &out[0] {
        Action::Update { caller: 11, update } => assert_eq!(unary_result(Some(update.clone())).unwrap(), vec![0x0a, 0x00]),
        _ => panic!("expected the caller's update"),
    }
}

#[test]
fn other_packet_types_are_dropped() {
    let mut d = Dispatcher::new();
    d.process_request(CallRequest::New { ty: RpcType::Unary, uid: uid(1), payload: vec![], caller: 1, tx: false });
    assert_eq!(d.process_packet(packet(PacketType::ClientStream, uid(1), vec![], 0)), vec![]);
    let mut unknown = packet(PacketType::Response, uid(1), vec![], 0);
    unknown.packet_type = 42;
    assert_eq!(d.process_packet(unknown), vec![]);
    assert_eq!(d.len(), 1);
    assert_eq!(d.find(uid(1)), Some(0));
    assert_eq!(d.get(0).caller, 1);
}

#[test]
fn call_ends_once() {
    let mut end = maestro::pwrpc::client::CallEnd::new(uid(5));
    assert!(!end.is_complete());
    assert_eq!(end.end(true), Some(CallRequest::Error { uid: uid(5), code: Status::Cancelled, tx: true }));
    assert!(end.is_complete());
    assert_eq!(end.end(true), None);
    assert_eq!(end.end(false), None);
}
