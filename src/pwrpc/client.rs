//! Call dispatch of the RPC client.
//!
//! The client owns one transport and a table of pending calls. Everything it
//! decides is made here, as steps from the table and one event (an inbound
//! packet, a request from a caller, termination) to the new table and a list
//! of actions: updates to hand to callers and packets to send. Running the
//! transport and the queues around these steps is left to the caller of the
//! library.

use vstd::prelude::*;
use super::id::{Path, id_hash, service_of, method_of};
use super::status::{Error, Status, status_code, status_of};
use super::types::{PacketType, PacketView, RpcPacket, RpcType, packet_type_of, packet_type_value, server_streams};

verus! {

/// The identity of a call: channel, service, method and call id.
#[derive(Debug, Clone, Copy, PartialEq, Eq, Structural)]
pub struct CallUid {
    pub channel: u32,
    pub service: u32,
    pub method: u32,
    pub call: u32,
}

pub open spec fn uid_of(p: PacketView) -> CallUid {
    CallUid { channel: p.channel_id, service: p.service_id, method: p.method_id, call: p.call_id }
}

impl CallUid {
    pub fn from_packet(packet: &RpcPacket) -> (r: Self)
        ensures
            r == uid_of(packet@),
    {
        CallUid {
            channel: packet.channel_id,
            service: packet.service_id,
            method: packet.method_id,
            call: packet.call_id,
        }
    }
}

/// A pending call: its kind, its identity, and the caller that waits on it.
#[derive(Debug, Clone, Copy, PartialEq, Eq, Structural)]
pub struct Call {
    pub ty: RpcType,
    pub uid: CallUid,
    pub caller: u64,
}

/// What a caller is told about its call.
#[derive(Debug, Clone, PartialEq, Eq)]
pub enum CallUpdate {
    Complete { data: Vec<u8>, status: Status },
    StreamItem { data: Vec<u8> },
    Error { status: Status },
}

pub enum UpdateView {
    Complete { data: Seq<u8>, status: Status },
    StreamItem { data: Seq<u8> },
    Error { status: Status },
}

impl View for CallUpdate {
    type V = UpdateView;

    open spec fn view(&self) -> UpdateView {
        match self {
            CallUpdate::Complete { data, status } => UpdateView::Complete { data: data@, status: *status },
            CallUpdate::StreamItem { data } => UpdateView::StreamItem { data: data@ },
            CallUpdate::Error { status } => UpdateView::Error { status: *status },
        }
    }
}

/// A request from a caller to the client.
#[derive(Debug, Clone, PartialEq, Eq)]
pub enum CallRequest {
    /// Start a call; with `tx`, send its request packet, else only wait for
    /// an answer.
    New { ty: RpcType, uid: CallUid, payload: Vec<u8>, caller: u64, tx: bool },
    /// End a call with `code`; with `tx`, tell the peer too.
    Error { uid: CallUid, code: Status, tx: bool },
}

pub enum RequestView {
    New { ty: RpcType, uid: CallUid, payload: Seq<u8>, caller: u64, tx: bool },
    Error { uid: CallUid, code: Status, tx: bool },
}

impl View for CallRequest {
    type V = RequestView;

    open spec fn view(&self) -> RequestView {
        match self {
            CallRequest::New { ty, uid, payload, caller, tx } => RequestView::New {
                ty: *ty,
                uid: *uid,
                payload: payload@,
                caller: *caller,
                tx: *tx,
            },
            CallRequest::Error { uid, code, tx } => RequestView::Error { uid: *uid, code: *code, tx: *tx },
        }
    }
}

/// What the client does after a step: hand an update to a caller (a
/// `Complete` or `Error` update is the caller's last), or send a packet.
#[derive(Debug, Clone, PartialEq, Eq)]
pub enum Action {
    Update { caller: u64, update: CallUpdate },
    Send { packet: RpcPacket },
}

pub enum ActionView {
    Update { caller: u64, update: UpdateView },
    Send { packet: PacketView },
}

impl View for Action {
    type V = ActionView;

    open spec fn view(&self) -> ActionView {
        match self {
            Action::Update { caller, update } => ActionView::Update { caller: *caller, update: update@ },
            Action::Send { packet } => ActionView::Send { packet: packet@ },
        }
    }
}

pub open spec fn actions_view(a: Seq<Action>) -> Seq<ActionView> {
    a.map_values(|x: Action| x@)
}

/// The first pending call with identity `uid`, from index `i` on.
pub open spec fn find_from(p: Seq<Call>, uid: CallUid, i: nat) -> Option<nat>
    decreases p.len() - i,
{
    if i >= p.len() {
        None
    } else if p[i as int].uid == uid {
        Some(i)
    } else {
        find_from(p, uid, i + 1)
    }
}

/// What `find_from` finds lies in range and has the identity sought, and no
/// call before it from `i` on has.
pub proof fn lemma_find_from(p: Seq<Call>, uid: CallUid, i: nat)
    ensures
        find_from(p, uid, i) matches Some(k) ==> i <= k < p.len() && p[k as int].uid == uid
            && forall|j: int| i <= j < k ==> p[j].uid != uid,
        find_from(p, uid, i) is None ==> forall|j: int| i <= j < p.len() ==> p[j].uid != uid,
    decreases p.len() - i,
{
    if i < p.len() {
        lemma_find_from(p, uid, i + 1);
    }
}

/// The first pending call with identity `uid`.
pub open spec fn find_call(p: Seq<Call>, uid: CallUid) -> Option<nat> {
    find_from(p, uid, 0)
}

/// The packet that tells the peer that the call `uid` ended with `status`.
pub open spec fn client_error_packet(uid: CallUid, status: Status) -> PacketView {
    PacketView {
        packet_type: packet_type_value(PacketType::ClientError),
        channel_id: uid.channel,
        service_id: uid.service,
        method_id: uid.method,
        payload: Seq::empty(),
        status: status_code(status),
        call_id: uid.call,
    }
}

/// The packet that starts the call `uid` with `payload`.
pub open spec fn request_packet(uid: CallUid, payload: Seq<u8>) -> PacketView {
    PacketView {
        packet_type: packet_type_value(PacketType::Request),
        channel_id: uid.channel,
        service_id: uid.service,
        method_id: uid.method,
        payload,
        status: status_code(Status::Okay),
        call_id: uid.call,
    }
}

pub open spec fn update_to(caller: u64, u: UpdateView) -> ActionView {
    ActionView::Update { caller, update: u }
}

pub open spec fn send(p: PacketView) -> ActionView {
    ActionView::Send { packet: p }
}

/// Dispatch of one inbound packet: the new table and the actions.
pub open spec fn packet_step(p: Seq<Call>, pkt: PacketView) -> (Seq<Call>, Seq<ActionView>) {
    let uid = uid_of(pkt);
    match packet_type_of(pkt.packet_type) {
        Some(PacketType::Response) => match find_call(p, uid) {
            Some(i) => (
                p.remove(i as int),
                seq![update_to(p[i as int].caller, UpdateView::Complete { data: pkt.payload, status: status_of(pkt.status) })],
            ),
            None => (p, Seq::empty()),
        },
        Some(PacketType::ServerError) => match find_call(p, uid) {
            Some(i) => (p.remove(i as int), seq![update_to(p[i as int].caller, UpdateView::Error { status: status_of(pkt.status) })]),
            None => (p, Seq::empty()),
        },
        Some(PacketType::ServerStream) => match find_call(p, uid) {
            Some(i) => if server_streams(p[i as int].ty) {
                (p, seq![update_to(p[i as int].caller, UpdateView::StreamItem { data: pkt.payload })])
            } else {
                (
                    p.remove(i as int),
                    seq![
                        update_to(p[i as int].caller, UpdateView::Error { status: Status::InvalidArgument }),
                        send(client_error_packet(uid, Status::InvalidArgument)),
                    ],
                )
            },
            None => (p, seq![send(client_error_packet(uid, Status::FailedPrecondition))]),
        },
        _ => (p, Seq::empty()),
    }
}

/// Handling of one caller request: the new table and the actions.
pub open spec fn request_step(p: Seq<Call>, r: RequestView) -> (Seq<Call>, Seq<ActionView>) {
    match r {
        RequestView::New { ty, uid, payload, caller, tx } => (
            p.push(Call { ty, uid, caller }),
            if tx { seq![send(request_packet(uid, payload))] } else { Seq::empty() },
        ),
        RequestView::Error { uid, code, tx } => match find_call(p, uid) {
            Some(i) => (
                p.remove(i as int),
                seq![update_to(p[i as int].caller, UpdateView::Error { status: code })] + if tx {
                    seq![send(client_error_packet(uid, code))]
                } else {
                    Seq::empty()
                },
            ),
            None => (p, Seq::empty()),
        },
    }
}

/// Draining the queued requests at termination: new calls are refused with
/// `Aborted`, error requests are handled as usual but their packets are held
/// back. Gives the table, the updates, and the held-back packets.
pub open spec fn drain_step(p: Seq<Call>, q: Seq<RequestView>) -> (Seq<Call>, Seq<ActionView>, Seq<ActionView>)
    decreases q.len(),
{
    if q.len() == 0 {
        (p, Seq::empty(), Seq::empty())
    } else {
        let (t1, u1, s1) = drain_step(p, q.drop_last());
        match q.last() {
            RequestView::New { caller, .. } => (t1, u1.push(update_to(caller, UpdateView::Error { status: Status::Aborted })), s1),
            RequestView::Error { uid, code, tx } => match find_call(t1, uid) {
                Some(i) => (
                    t1.remove(i as int),
                    u1.push(update_to(t1[i as int].caller, UpdateView::Error { status: code })),
                    if tx { s1.push(send(client_error_packet(uid, code))) } else { s1 },
                ),
                None => (t1, u1, s1),
            },
        }
    }
}

/// Each pending call ends with `Aborted` for its caller.
pub open spec fn abort_updates(p: Seq<Call>) -> Seq<ActionView> {
    p.map_values(|c: Call| update_to(c.caller, UpdateView::Error { status: Status::Aborted }))
}

/// Each pending call is cancelled on the wire.
pub open spec fn cancel_sends(p: Seq<Call>) -> Seq<ActionView> {
    p.map_values(|c: Call| send(client_error_packet(c.uid, Status::Cancelled)))
}

/// Termination: the table empties; first the local updates, then the
/// packets, in order.
pub open spec fn terminate_step(p: Seq<Call>, q: Seq<RequestView>) -> (Seq<Call>, Seq<ActionView>) {
    let (t1, u1, s1) = drain_step(p, q);
    (Seq::empty(), u1 + abort_updates(t1) + s1 + cancel_sends(t1))
}

proof fn lemma_abort_push(p: Seq<Call>, c: Call)
    ensures
        abort_updates(p.push(c)) == abort_updates(p).push(update_to(c.caller, UpdateView::Error { status: Status::Aborted })),
        cancel_sends(p.push(c)) == cancel_sends(p).push(send(client_error_packet(c.uid, Status::Cancelled))),
{
    assert(abort_updates(p.push(c)) =~= abort_updates(p).push(update_to(c.caller, UpdateView::Error { status: Status::Aborted })));
    assert(cancel_sends(p.push(c)) =~= cancel_sends(p).push(send(client_error_packet(c.uid, Status::Cancelled))));
}

proof fn lemma_actions_push(a: Seq<Action>, x: Action)
    ensures
        actions_view(a.push(x)) == actions_view(a).push(x@),
{
    assert(actions_view(a.push(x)) =~= actions_view(a).push(x@));
}

/// The table of pending calls.
pub struct Dispatcher {
    pending: Vec<Call>,
}

impl View for Dispatcher {
    type V = Seq<Call>;

    closed spec fn view(&self) -> Seq<Call> {
        self.pending@
    }
}

fn client_error(uid: CallUid, status: Status) -> (r: RpcPacket)
    ensures
        r@ == client_error_packet(uid, status),
{
    let r = RpcPacket {
        packet_type: PacketType::ClientError.to_i32(),
        channel_id: uid.channel,
        service_id: uid.service,
        method_id: uid.method,
        payload: Vec::new(),
        status: status.code(),
        call_id: uid.call,
    };
    assert(r@.payload =~= Seq::<u8>::empty());
    r
}

impl Dispatcher {
    pub fn new() -> (r: Self)
        ensures
            r@ == Seq::<Call>::empty(),
    {
        Dispatcher { pending: Vec::new() }
    }

    /// The number of pending calls.
    pub fn len(&self) -> (r: usize)
        ensures
            r == self@.len(),
    {
        self.pending.len()
    }

    /// The pending call at position `i`.
    pub fn get(&self, i: usize) -> (r: Call)
        requires
            i < self@.len(),
        ensures
            r == self@[i as int],
    {
        self.pending[i]
    }

    /// Position of the first pending call with identity `uid`.
    pub fn find(&self, uid: CallUid) -> (r: Option<usize>)
        ensures
            r is None <==> find_call(self@, uid) is None,
            r matches Some(i) ==> find_call(self@, uid) == Some(i as nat) && i < self@.len(),
    {
        proof {
            lemma_find_from(self@, uid, 0);
        }
        let mut i: usize = 0;
        while i < self.pending.len()
            invariant
                i <= self.pending@.len(),
                find_call(self@, uid) == find_from(self@, uid, i as nat),
            decreases self.pending@.len() - i,
        {
            if self.pending[i].uid == uid {
                return Some(i);
            }
            i = i + 1;
        }
        None
    }

    /// Removes and returns the first pending call with identity `uid`.
    pub fn find_and_remove_call(&mut self, uid: CallUid) -> (r: Option<Call>)
        ensures
            match find_call(old(self)@, uid) {
                Some(i) => r == Some(old(self)@[i as int]) && final(self)@ == old(self)@.remove(i as int),
                None => r is None && final(self)@ == old(self)@,
            },
    {
        proof {
            lemma_find_from(self@, uid, 0);
        }
        match self.find(uid) {
            Some(i) => Some(self.pending.remove(i)),
            None => None,
        }
    }

    /// Dispatches one inbound packet.
    pub fn process_packet(&mut self, packet: RpcPacket) -> (r: Vec<Action>)
        ensures
            (final(self)@, actions_view(r@)) == packet_step(old(self)@, packet@),
    {
        let ghost pkt = packet@;
        proof {
            lemma_find_from(self@, uid_of(pkt), 0);
        }
        let uid = CallUid::from_packet(&packet);
        let mut actions: Vec<Action> = Vec::new();
        match PacketType::from_i32(packet.packet_type) {
            Some(PacketType::Response) => {
                match self.find_and_remove_call(uid) {
                    Some(call) => {
                        let status = Status::from_code(packet.status);
                        actions.push(Action::Update { caller: call.caller, update: CallUpdate::Complete { data: packet.payload, status } });
                    },
                    None => {},
                }
            },
            Some(PacketType::ServerError) => {
                match self.find_and_remove_call(uid) {
                    Some(call) => {
                        let status = Status::from_code(packet.status);
                        actions.push(Action::Update { caller: call.caller, update: CallUpdate::Error { status } });
                    },
                    None => {},
                }
            },
            Some(PacketType::ServerStream) => {
                match self.find(uid) {
                    Some(i) => {
                        let call = self.pending[i];
                        if call.ty.has_server_stream() {
                            actions.push(Action::Update { caller: call.caller, update: CallUpdate::StreamItem { data: packet.payload } });
                        } else {
                            self.pending.remove(i);
                            actions.push(Action::Update { caller: call.caller, update: CallUpdate::Error { status: Status::InvalidArgument } });
                            actions.push(Action::Send { packet: client_error(uid, Status::InvalidArgument) });
                        }
                    },
                    None => {
                        actions.push(Action::Send { packet: client_error(uid, Status::FailedPrecondition) });
                    },
                }
            },
            _ => {},
        }
        proof {
            assert(actions_view(actions@) =~= packet_step(old(self)@, pkt).1);
        }
        actions
    }

    /// Handles one request of a caller.
    pub fn process_request(&mut self, request: CallRequest) -> (r: Vec<Action>)
        ensures
            (final(self)@, actions_view(r@)) == request_step(old(self)@, request@),
    {
        let ghost req = request@;
        let mut actions: Vec<Action> = Vec::new();
        match request {
            CallRequest::New { ty, uid, payload, caller, tx } => {
                self.pending.push(Call { ty, uid, caller });
                if tx {
                    let packet = RpcPacket {
                        packet_type: PacketType::Request.to_i32(),
                        channel_id: uid.channel,
                        service_id: uid.service,
                        method_id: uid.method,
                        payload,
                        status: Status::Okay.code(),
                        call_id: uid.call,
                    };
                    actions.push(Action::Send { packet });
                }
            },
            CallRequest::Error { uid, code, tx } => {
                match self.find_and_remove_call(uid) {
                    Some(call) => {
                        actions.push(Action::Update { caller: call.caller, update: CallUpdate::Error { status: code } });
                        if tx {
                            actions.push(Action::Send { packet: client_error(uid, code) });
                        }
                    },
                    None => {},
                }
            },
        }
        proof {
            assert(actions_view(actions@) =~= request_step(old(self)@, req).1);
        }
        actions
    }

    /// Ends every pending call locally with `Aborted`, sending nothing: what
    /// happens when the transport is gone or the client is dropped.
    pub fn abort_all(&mut self) -> (r: Vec<Action>)
        ensures
            final(self)@ == Seq::<Call>::empty(),
            actions_view(r@) == abort_updates(old(self)@),
    {
        let mut updates: Vec<Action> = Vec::new();
        let mut j: usize = 0;
        while j < self.pending.len()
            invariant
                j <= self.pending@.len(),
                self@ == old(self)@,
                actions_view(updates@) == abort_updates(self@.take(j as int)),
            decreases self.pending@.len() - j,
        {
            let call = self.pending[j];
            let ghost before = updates@;
            updates.push(Action::Update { caller: call.caller, update: CallUpdate::Error { status: Status::Aborted } });
            proof {
                assert(self@.take(j + 1) =~= self@.take(j as int).push(call));
                lemma_abort_push(self@.take(j as int), call);
                lemma_actions_push(before, updates@.last());
                assert(updates@ == before.push(updates@.last()));
                assert(actions_view(updates@) =~= abort_updates(self@.take(j + 1)));
            }
            j = j + 1;
        }
        proof {
            assert(self@.take(j as int) =~= self@);
        }
        self.pending.clear();
        assert(self@ =~= Seq::<Call>::empty());
        updates
    }

    /// Terminates the client: the requests still queued are drained (new
    /// calls are refused with `Aborted`, error requests are handled), every
    /// call still pending ends with `Aborted` and is cancelled on the wire.
    /// The local updates come first, then the packets to send.
    pub fn terminate(&mut self, queued: Vec<CallRequest>) -> (r: Vec<Action>)
        ensures
            (final(self)@, actions_view(r@)) == terminate_step(old(self)@, queued@.map_values(|x: CallRequest| x@)),
    {
        let ghost q = queued@.map_values(|x: CallRequest| x@);
        let mut updates: Vec<Action> = Vec::new();
        let mut sends: Vec<Action> = Vec::new();
        let mut i: usize = 0;
        proof {
            assert(q.take(0) =~= Seq::<RequestView>::empty());
            assert(actions_view(updates@) =~= Seq::<ActionView>::empty());
            assert(actions_view(sends@) =~= Seq::<ActionView>::empty());
        }
        while i < queued.len()
            invariant
                i <= queued@.len(),
                q == queued@.map_values(|x: CallRequest| x@),
                (self@, actions_view(updates@), actions_view(sends@)) == drain_step(old(self)@, q.take(i as int)),
            decreases queued@.len() - i,
        {
            proof {
                assert(q.take(i + 1).drop_last() =~= q.take(i as int));
                assert(q.take(i + 1).last() == queued@[i as int]@);
                lemma_find_from(self@, match queued@[i as int] {
                    CallRequest::New { uid, .. } => uid,
                    CallRequest::Error { uid, .. } => uid,
                }, 0);
            }
            match &queued[i] {
                CallRequest::New { caller, .. } => {
                    updates.push(Action::Update { caller: *caller, update: CallUpdate::Error { status: Status::Aborted } });
                },
                CallRequest::Error { uid, code, tx } => {
                    match self.find_and_remove_call(*uid) {
                        Some(call) => {
                            updates.push(Action::Update { caller: call.caller, update: CallUpdate::Error { status: *code } });
                            if *tx {
                                sends.push(Action::Send { packet: client_error(*uid, *code) });
                            }
                        },
                        None => {},
                    }
                },
            }
            proof {
                assert(actions_view(updates@) =~= drain_step(old(self)@, q.take(i + 1)).1);
                assert(actions_view(sends@) =~= drain_step(old(self)@, q.take(i + 1)).2);
            }
            i = i + 1;
        }
        proof {
            assert(q.take(i as int) =~= q);
        }
        let ghost t1 = self@;
        let mut cancels: Vec<Action> = Vec::new();
        let mut j: usize = 0;
        proof {
            assert(actions_view(cancels@) =~= cancel_sends(t1.take(0)));
        }
        while j < self.pending.len()
            invariant
                j <= self.pending@.len(),
                self@ == t1,
                actions_view(updates@) == drain_step(old(self)@, q).1 + abort_updates(t1.take(j as int)),
                actions_view(sends@) == drain_step(old(self)@, q).2,
                actions_view(cancels@) == cancel_sends(t1.take(j as int)),
            decreases self.pending@.len() - j,
        {
            let call = self.pending[j];
            let ghost before_u = updates@;
            let ghost before_c = cancels@;
            updates.push(Action::Update { caller: call.caller, update: CallUpdate::Error { status: Status::Aborted } });
            cancels.push(Action::Send { packet: client_error(call.uid, Status::Cancelled) });
            proof {
                assert(t1.take(j + 1) =~= t1.take(j as int).push(call));
                lemma_abort_push(t1.take(j as int), call);
                lemma_actions_push(before_u, updates@.last());
                lemma_actions_push(before_c, cancels@.last());
                assert(updates@ == before_u.push(updates@.last()));
                assert(cancels@ == before_c.push(cancels@.last()));
                assert(actions_view(updates@) =~= drain_step(old(self)@, q).1 + abort_updates(t1.take(j + 1)));
                assert(actions_view(cancels@) =~= cancel_sends(t1.take(j + 1)));
            }
            j = j + 1;
        }
        proof {
            assert(t1.take(j as int) =~= t1);
        }
        self.pending.clear();
        updates.append(&mut sends);
        updates.append(&mut cancels);
        proof {
            assert(self@ =~= Seq::<Call>::empty());
            assert(actions_view(updates@) =~= terminate_step(old(self)@, q).1);
        }
        updates
    }
}


/// What `result()` of a unary call gives for the next update of the call;
/// `None` stands for a queue already closed, that is, a second `result()`.
pub fn unary_result(update: Option<CallUpdate>) -> (r: Result<Vec<u8>, Error>)
    requires
        !(update matches Some(CallUpdate::StreamItem { .. })),
    ensures
        match update {
            None => r matches Err(e) && e.spec_code() == Status::ResourceExhausted,
            Some(CallUpdate::Complete { data, status }) => if status == Status::Okay {
                r == Ok::<Vec<u8>, Error>(data)
            } else {
                r matches Err(e) && e.spec_code() == status
            },
            Some(CallUpdate::Error { status }) => r matches Err(e) && e.spec_code() == status,
            Some(CallUpdate::StreamItem { .. }) => false,
        },
{
    match update {
        None => Err(Error::resource_exhausted("cannot fetch result() multiple times")),
        Some(CallUpdate::Complete { data, status }) => {
            if status == Status::Okay {
                Ok(data)
            } else {
                Err(Error::from_status(status))
            }
        },
        Some(CallUpdate::Error { status }) => Err(Error::from_status(status)),
        Some(CallUpdate::StreamItem { .. }) => Err(Error::from_status(Status::Internal)),
    }
}

/// One step of a server stream as the caller sees it.
#[derive(Debug, Clone)]
pub enum StreamStep {
    /// An item, still encoded.
    Item(Vec<u8>),
    /// The call failed; the stream ends after this.
    Failed(Error),
    /// The stream is over.
    End,
}

/// A step of a server stream as a value.
pub enum StepView {
    Item(Seq<u8>),
    Failed(Status),
    End,
}

/// The step that a poll of a server stream takes for update `u` (`None`: a
/// closed queue).
pub open spec fn stream_step_spec(u: Option<UpdateView>) -> StepView {
    match u {
        Some(UpdateView::StreamItem { data }) => StepView::Item(data),
        Some(UpdateView::Error { status }) => StepView::Failed(status),
        _ => StepView::End,
    }
}

pub open spec fn update_opt_view(u: Option<CallUpdate>) -> Option<UpdateView> {
    match u {
        Some(x) => Some(x@),
        None => None,
    }
}

/// The steps that a caller's stream takes for the actions `a` of the client,
/// the updates to `caller` among them, in order.
pub open spec fn caller_steps(a: Seq<ActionView>, caller: u64) -> Seq<StepView>
    decreases a.len(),
{
    if a.len() == 0 {
        Seq::empty()
    } else {
        let rest = caller_steps(a.drop_last(), caller);
        match a.last() {
            ActionView::Update { caller: c, update } => if c == caller {
                rest.push(stream_step_spec(Some(update)))
            } else {
                rest
            },
            ActionView::Send { .. } => rest,
        }
    }
}

/// What the next poll of a server stream gives for the next update of the
/// call; `None` stands for a closed queue.
pub fn stream_step(update: Option<CallUpdate>) -> (r: StreamStep)
    ensures
        match r {
            StreamStep::Item(d) => stream_step_spec(update_opt_view(update)) == StepView::Item(d@),
            StreamStep::Failed(e) => stream_step_spec(update_opt_view(update)) == StepView::Failed(e.spec_code()),
            StreamStep::End => stream_step_spec(update_opt_view(update)) == StepView::End,
        },
        match update {
            None => r is End,
            Some(CallUpdate::Complete { .. }) => r is End,
            Some(CallUpdate::StreamItem { data }) => r matches StreamStep::Item(d) && d == data,
            Some(CallUpdate::Error { status }) => r matches StreamStep::Failed(e) && e.spec_code() == status,
        },
{
    match update {
        None => StreamStep::End,
        Some(CallUpdate::Complete { .. }) => StreamStep::End,
        Some(CallUpdate::StreamItem { data }) => StreamStep::Item(data),
        Some(CallUpdate::Error { status }) => StreamStep::Failed(Error::from_status(status)),
    }
}

/// What `cancel_and_wait()` does with the next update after its cancel
/// request: `None` to keep waiting (a stream item), else its result. A
/// completion, a cancellation, or a closed queue end it well; another error
/// ends it with that error.
pub fn cancel_wait_step(update: Option<CallUpdate>) -> (r: Option<Result<(), Error>>)
    ensures
        match update {
            Some(CallUpdate::StreamItem { .. }) => r is None,
            Some(CallUpdate::Error { status }) => if status == Status::Cancelled {
                r == Some(Ok::<(), Error>(()))
            } else {
                r matches Some(Err(e)) && e.spec_code() == status
            },
            _ => r == Some(Ok::<(), Error>(())),
        },
{
    match update {
        Some(CallUpdate::StreamItem { .. }) => None,
        Some(CallUpdate::Complete { .. }) => Some(Ok(())),
        Some(CallUpdate::Error { status }) => {
            if status == Status::Cancelled {
                Some(Ok(()))
            } else {
                Some(Err(Error::from_status(status)))
            }
        },
        None => Some(Ok(())),
    }
}

/// The call request that ends the call `uid` from the caller's side: an
/// abandon (`tx` false) or a cancel (`tx` true), both with `Cancelled`.
pub fn cancel_request(uid: CallUid, tx: bool) -> (r: CallRequest)
    ensures
        r@ == (RequestView::Error { uid, code: Status::Cancelled, tx }),
{
    CallRequest::Error { uid, code: Status::Cancelled, tx }
}

/// The caller's side of a call: its identity and whether it may still end
/// the call. Ending it (cancel or abandon) is possible once.
pub struct CallEnd {
    uid: CallUid,
    open: bool,
}

impl CallEnd {
    pub closed spec fn spec_uid(&self) -> CallUid {
        self.uid
    }

    pub closed spec fn is_open(&self) -> bool {
        self.open
    }

    pub fn new(uid: CallUid) -> (r: Self)
        ensures
            r.spec_uid() == uid,
            r.is_open(),
    {
        CallEnd { uid, open: true }
    }

    /// The request that ends the call with `Cancelled`, sent to the peer
    /// too when `tx` is set; `None` once the call was ended already.
    pub fn end(&mut self, tx: bool) -> (r: Option<CallRequest>)
        ensures
            final(self).spec_uid() == old(self).spec_uid(),
            !final(self).is_open(),
            old(self).is_open() ==> (r matches Some(q) && q@ == (RequestView::Error {
                uid: old(self).spec_uid(),
                code: Status::Cancelled,
                tx,
            })),
            !old(self).is_open() ==> r is None,
    {
        if self.open {
            self.open = false;
            Some(cancel_request(self.uid, tx))
        } else {
            None
        }
    }

    /// Marks the call as over, as when its result was taken.
    pub fn close(&mut self)
        ensures
            final(self).spec_uid() == old(self).spec_uid(),
            !final(self).is_open(),
    {
        self.open = false;
    }

    /// Whether the call was ended or is over.
    pub fn is_complete(&self) -> (r: bool)
        ensures
            r == !self.is_open(),
    {
        !self.open
    }
}

/// A request for a call: where it goes, and its message.
pub struct Request<M> {
    pub channel_id: u32,
    pub service_id: u32,
    pub method_id: u32,
    pub call_id: u32,
    pub message: M,
}

/// The call request that starts (`tx`) or opens (no `tx`) a call of kind
/// `ty` for `request`, with the encoded message `payload`.
pub fn new_call<M>(ty: RpcType, request: &Request<M>, payload: Vec<u8>, caller: u64, tx: bool) -> (r: CallRequest)
    ensures
        r@ == (RequestView::New {
            ty,
            uid: CallUid {
                channel: request.channel_id,
                service: request.service_id,
                method: request.method_id,
                call: request.call_id,
            },
            payload: payload@,
            caller,
            tx,
        }),
{
    let uid = CallUid {
        channel: request.channel_id,
        service: request.service_id,
        method: request.method_id,
        call: request.call_id,
    };
    CallRequest::New { ty, uid, payload, caller, tx }
}

/// The identity of a call of the RPC at `path` on `channel_id`.
pub open spec fn path_uid(path: Seq<char>, channel_id: u32, call_id: u32) -> CallUid {
    CallUid {
        channel: channel_id,
        service: id_hash(service_of(path)),
        method: id_hash(method_of(path)),
        call: call_id,
    }
}

/// A unary RPC, named by its "Service/Method" path.
#[derive(Debug, Clone)]
pub struct UnaryRpc {
    path: Path,
}

impl UnaryRpc {
    pub closed spec fn spec_path(&self) -> Seq<char> {
        self.path.spec_path()
    }

    pub closed spec fn wf(&self) -> bool {
        self.path.wf()
    }

    pub fn new(path: &str) -> (r: Self)
        ensures
            r.spec_path() == path@,
            r.wf(),
    {
        UnaryRpc { path: Path::new(path) }
    }

    /// Starts a call: the request sends `payload` and waits for the answer.
    pub fn call(&self, channel_id: u32, call_id: u32, payload: Vec<u8>, caller: u64) -> (r: CallRequest)
        requires
            self.wf(),
        ensures
            r@ == (RequestView::New {
                ty: RpcType::Unary,
                uid: path_uid(self.spec_path(), channel_id, call_id),
                payload: payload@,
                caller,
                tx: true,
            }),
    {
        let uid = CallUid {
            channel: channel_id,
            service: self.path.service().hash(),
            method: self.path.method().hash(),
            call: call_id,
        };
        CallRequest::New { ty: RpcType::Unary, uid, payload, caller, tx: true }
    }

    /// Opens a call: nothing is sent, an answer is waited for.
    pub fn open(&self, channel_id: u32, call_id: u32, caller: u64) -> (r: CallRequest)
        requires
            self.wf(),
        ensures
            r@ == (RequestView::New {
                ty: RpcType::Unary,
                uid: path_uid(self.spec_path(), channel_id, call_id),
                payload: Seq::empty(),
                caller,
                tx: false,
            }),
    {
        let uid = CallUid {
            channel: channel_id,
            service: self.path.service().hash(),
            method: self.path.method().hash(),
            call: call_id,
        };
        let r = CallRequest::New { ty: RpcType::Unary, uid, payload: Vec::new(), caller, tx: false };
        assert(r@ == (RequestView::New {
            ty: RpcType::Unary,
            uid: path_uid(self.spec_path(), channel_id, call_id),
            payload: Seq::empty(),
            caller,
            tx: false,
        }));
        r
    }
}

/// A server-streaming RPC, named by its "Service/Method" path.
#[derive(Debug, Clone)]
pub struct ServerStreamRpc {
    path: Path,
}

impl ServerStreamRpc {
    pub closed spec fn spec_path(&self) -> Seq<char> {
        self.path.spec_path()
    }

    pub closed spec fn wf(&self) -> bool {
        self.path.wf()
    }

    pub fn new(path: &str) -> (r: Self)
        ensures
            r.spec_path() == path@,
            r.wf(),
    {
        ServerStreamRpc { path: Path::new(path) }
    }

    /// Starts a call: the request sends `payload` and waits for the stream.
    pub fn call(&self, channel_id: u32, call_id: u32, payload: Vec<u8>, caller: u64) -> (r: CallRequest)
        requires
            self.wf(),
        ensures
            r@ == (RequestView::New {
                ty: RpcType::ServerStream,
                uid: path_uid(self.spec_path(), channel_id, call_id),
                payload: payload@,
                caller,
                tx: true,
            }),
    {
        let uid = CallUid {
            channel: channel_id,
            service: self.path.service().hash(),
            method: self.path.method().hash(),
            call: call_id,
        };
        CallRequest::New { ty: RpcType::ServerStream, uid, payload, caller, tx: true }
    }

    /// Opens a call: nothing is sent, the stream is waited for.
    pub fn open(&self, channel_id: u32, call_id: u32, caller: u64) -> (r: CallRequest)
        requires
            self.wf(),
        ensures
            r@ == (RequestView::New {
                ty: RpcType::ServerStream,
                uid: path_uid(self.spec_path(), channel_id, call_id),
                payload: Seq::empty(),
                caller,
                tx: false,
            }),
    {
        let uid = CallUid {
            channel: channel_id,
            service: self.path.service().hash(),
            method: self.path.method().hash(),
            call: call_id,
        };
        let r = CallRequest::New { ty: RpcType::ServerStream, uid, payload: Vec::new(), caller, tx: false };
        assert(r@ == (RequestView::New {
            ty: RpcType::ServerStream,
            uid: path_uid(self.spec_path(), channel_id, call_id),
            payload: Seq::empty(),
            caller,
            tx: false,
        }));
        r
    }
}

/// A call added behind a table without its identity is the one found.
proof fn lemma_find_pushed(p: Seq<Call>, c: Call, i: nat)
    requires
        i <= p.len(),
        find_from(p, c.uid, i) is None,
    ensures
        find_from(p.push(c), c.uid, i) == Some(p.len()),
    decreases p.len() - i,
{
    if i < p.len() {
        assert(p.push(c)[i as int] == p[i as int]);
        lemma_find_pushed(p, c, i + 1);
    }
}

/// Inbound packets, one after the other: the final table and all actions.
pub open spec fn run_packets(p: Seq<Call>, pkts: Seq<PacketView>) -> (Seq<Call>, Seq<ActionView>)
    decreases pkts.len(),
{
    if pkts.len() == 0 {
        (p, Seq::empty())
    } else {
        let (t1, a1) = run_packets(p, pkts.drop_last());
        let (t2, a2) = packet_step(t1, pkts.last());
        (t2, a1 + a2)
    }
}

/// A started call is completed by the first matching response, once, with
/// the response's payload and status; a second such response does nothing.
/// This holds when no other pending call has the same identity, which the
/// caller of the client is to ensure.
pub proof fn lemma_response_completes_once(
    p: Seq<Call>,
    ty: RpcType,
    uid: CallUid,
    payload: Seq<u8>,
    caller: u64,
    response: PacketView,
)
    requires
        find_call(p, uid) is None,
        packet_type_of(response.packet_type) == Some(PacketType::Response),
        uid_of(response) == uid,
    ensures
        ({
            let (t1, a1) = request_step(p, RequestView::New { ty, uid, payload, caller, tx: true });
            let (t2, a2) = packet_step(t1, response);
            &&& a1 == seq![send(request_packet(uid, payload))]
            &&& a2 == seq![update_to(caller, UpdateView::Complete { data: response.payload, status: status_of(response.status) })]
            &&& t2 == p
            &&& packet_step(t2, response) == (t2, Seq::<ActionView>::empty())
        }),
{
    let c = Call { ty, uid, caller };
    lemma_find_pushed(p, c, 0);
    assert(p.push(c).remove(p.len() as int) =~= p);
}

/// Server-stream items for a streaming call reach its caller in the order
/// they came, one update each, and the call stays pending; a response then
/// ends the stream with a completion.
pub proof fn lemma_stream_order(p: Seq<Call>, i: nat, pkts: Seq<PacketView>, response: PacketView)
    requires
        i < p.len(),
        find_call(p, p[i as int].uid) == Some(i),
        server_streams(p[i as int].ty),
        forall|k: int| 0 <= k < pkts.len() ==> packet_type_of(#[trigger] pkts[k].packet_type) == Some(PacketType::ServerStream)
            && uid_of(pkts[k]) == p[i as int].uid,
        packet_type_of(response.packet_type) == Some(PacketType::Response),
        uid_of(response) == p[i as int].uid,
    ensures
        run_packets(p, pkts) == (p, pkts.map_values(|k: PacketView| update_to(p[i as int].caller, UpdateView::StreamItem { data: k.payload }))),
        packet_step(p, response) == (
            p.remove(i as int),
            seq![update_to(p[i as int].caller, UpdateView::Complete { data: response.payload, status: status_of(response.status) })],
        ),
    decreases pkts.len(),
{
    let f = |k: PacketView| update_to(p[i as int].caller, UpdateView::StreamItem { data: k.payload });
    if pkts.len() > 0 {
        let q = pkts.drop_last();
        lemma_stream_order(p, i, q, response);
        assert(pkts.map_values(f) =~= q.map_values(f) + seq![f(pkts.last())]);
    } else {
        assert(pkts.map_values(f) =~= Seq::<ActionView>::empty());
    }
}

/// Cancelling a pending call ends it for its caller with `Cancelled` and
/// sends exactly one packet, a client error with `Cancelled`. When no other
/// pending call has its identity, later packets for it reach no caller.
pub proof fn lemma_cancel(p: Seq<Call>, uid: CallUid, later: PacketView)
    requires
        find_call(p, uid) is Some,
        uid_of(later) == uid,
    ensures
        ({
            let i = find_call(p, uid).unwrap();
            let (t1, a1) = request_step(p, RequestView::Error { uid, code: Status::Cancelled, tx: true });
            &&& t1 == p.remove(i as int)
            &&& a1 == seq![
                update_to(p[i as int].caller, UpdateView::Error { status: Status::Cancelled }),
                send(client_error_packet(uid, Status::Cancelled)),
            ]
            &&& find_call(t1, uid) is None ==> packet_step(t1, later).0 == t1 && forall|k: int|
                0 <= k < packet_step(t1, later).1.len() ==> !(#[trigger] packet_step(t1, later).1[k] is Update)
        }),
{
    lemma_find_from(p, uid, 0);
}

/// After termination no call is pending, every call that was still pending
/// ends with `Aborted` for its caller and gets one client error with
/// `Cancelled` on the wire, and each refused new call gets `Aborted`.
pub proof fn lemma_terminate(p: Seq<Call>, q: Seq<RequestView>)
    ensures
        ({
            let (t1, u1, s1) = drain_step(p, q);
            let (t2, a) = terminate_step(p, q);
            &&& t2 == Seq::<Call>::empty()
            &&& a == u1 + abort_updates(t1) + s1 + cancel_sends(t1)
            &&& forall|k: int| 0 <= k < t1.len() ==> a[u1.len() + k] == update_to(
                t1[k].caller,
                UpdateView::Error { status: Status::Aborted },
            )
            &&& forall|k: int| 0 <= k < t1.len() ==> a[u1.len() + t1.len() + s1.len() + k] == send(
                client_error_packet(t1[k].uid, Status::Cancelled),
            )
        }),
        q.len() == 0 ==> terminate_step(p, q).1 == abort_updates(p) + cancel_sends(p),
{
    if q.len() == 0 {
        assert(Seq::<ActionView>::empty() + abort_updates(p) + Seq::<ActionView>::empty() + cancel_sends(p) =~= abort_updates(p) + cancel_sends(p));
    }
}

/// A server-stream packet for a pending unary call ends the call for its
/// caller with `InvalidArgument`, once, and sends one client error with
/// `InvalidArgument` for the same call.
pub proof fn lemma_unary_rejects_stream(p: Seq<Call>, pkt: PacketView)
    requires
        packet_type_of(pkt.packet_type) == Some(PacketType::ServerStream),
        find_call(p, uid_of(pkt)) matches Some(i) && p[i as int].ty == RpcType::Unary,
    ensures
        ({
            let i = find_call(p, uid_of(pkt)).unwrap();
            packet_step(p, pkt) == (
                p.remove(i as int),
                seq![
                    update_to(p[i as int].caller, UpdateView::Error { status: Status::InvalidArgument }),
                    send(client_error_packet(uid_of(pkt), Status::InvalidArgument)),
                ],
            )
        }),
{
}

proof fn lemma_caller_steps_append(a: Seq<ActionView>, b: Seq<ActionView>, caller: u64)
    ensures
        caller_steps(a + b, caller) == caller_steps(a, caller) + caller_steps(b, caller),
    decreases b.len(),
{
    if b.len() == 0 {
        assert(a + b =~= a);
        assert(caller_steps(a, caller) + Seq::<StepView>::empty() =~= caller_steps(a, caller));
    } else {
        assert((a + b).drop_last() =~= a + b.drop_last());
        lemma_caller_steps_append(a, b.drop_last(), caller);
        assert((caller_steps(a, caller) + caller_steps(b.drop_last(), caller)).push(stream_step_spec(
            match b.last() {
                ActionView::Update { update, .. } => Some(update),
                _ => None,
            },
        )) =~= caller_steps(a, caller) + caller_steps(b.drop_last(), caller).push(stream_step_spec(
            match b.last() {
                ActionView::Update { update, .. } => Some(update),
                _ => None,
            },
        )));
    }
}

proof fn lemma_caller_steps_one(c: u64, u: UpdateView)
    ensures
        caller_steps(seq![update_to(c, u)], c) == seq![stream_step_spec(Some(u))],
{
    let a = seq![update_to(c, u)];
    assert(a.drop_last() =~= Seq::<ActionView>::empty());
    assert(caller_steps(a.drop_last(), c) == Seq::<StepView>::empty());
    assert(Seq::<StepView>::empty().push(stream_step_spec(Some(u))) =~= seq![stream_step_spec(Some(u))]);
}

/// What the caller of a streaming call sees: for server-stream packets of
/// its call, one item per packet with that packet's payload, in the order
/// the packets came; after the response that ends the call, the stream is
/// over.
pub proof fn lemma_stream_seen_by_caller(p: Seq<Call>, i: nat, pkts: Seq<PacketView>, response: PacketView)
    requires
        i < p.len(),
        find_call(p, p[i as int].uid) == Some(i),
        server_streams(p[i as int].ty),
        forall|k: int| 0 <= k < pkts.len() ==> packet_type_of(#[trigger] pkts[k].packet_type) == Some(PacketType::ServerStream)
            && uid_of(pkts[k]) == p[i as int].uid,
        packet_type_of(response.packet_type) == Some(PacketType::Response),
        uid_of(response) == p[i as int].uid,
    ensures
        caller_steps(run_packets(p, pkts).1, p[i as int].caller) == pkts.map_values(|k: PacketView| StepView::Item(k.payload)),
        caller_steps(packet_step(run_packets(p, pkts).0, response).1, p[i as int].caller) == seq![StepView::End],
    decreases pkts.len(),
{
    lemma_stream_order(p, i, pkts, response);
    let c = p[i as int].caller;
    let f = |k: PacketView| update_to(c, UpdateView::StreamItem { data: k.payload });
    let g = |k: PacketView| StepView::Item(k.payload);
    if pkts.len() > 0 {
        let q = pkts.drop_last();
        lemma_stream_seen_by_caller(p, i, q, response);
        lemma_stream_order(p, i, q, response);
        assert(pkts.map_values(f) =~= q.map_values(f) + seq![f(pkts.last())]);
        lemma_caller_steps_append(q.map_values(f), seq![f(pkts.last())], c);
        lemma_caller_steps_one(c, UpdateView::StreamItem { data: pkts.last().payload });
        assert(pkts.map_values(g) =~= q.map_values(g) + seq![g(pkts.last())]);
        assert(run_packets(p, pkts).1 == pkts.map_values(f));
    } else {
        assert(pkts.map_values(f) =~= Seq::<ActionView>::empty());
        assert(pkts.map_values(g) =~= Seq::<StepView>::empty());
        assert(caller_steps(Seq::<ActionView>::empty(), c) == Seq::<StepView>::empty());
    }
    lemma_caller_steps_one(c, UpdateView::Complete { data: response.payload, status: status_of(response.status) });
    assert(run_packets(p, pkts).0 == p);
}

proof fn lemma_drain_kinds(p: Seq<Call>, q: Seq<RequestView>)
    ensures
        forall|k: int| 0 <= k < drain_step(p, q).1.len() ==> #[trigger] drain_step(p, q).1[k] is Update,
        forall|k: int| 0 <= k < drain_step(p, q).2.len() ==> (#[trigger] drain_step(p, q).2[k] matches ActionView::Send { packet }
            && packet.packet_type == packet_type_value(PacketType::ClientError)),
    decreases q.len(),
{
    if q.len() > 0 {
        lemma_drain_kinds(p, q.drop_last());
    }
}

/// Termination as one sequence: first the local updates, then the packets,
/// which are client errors only: one for each drained error request with
/// `tx` (in queue order), then one `Cancelled` for each call still pending
/// (in table order).
pub proof fn lemma_terminate_order(p: Seq<Call>, q: Seq<RequestView>)
    ensures
        ({
            let (t1, u1, s1) = drain_step(p, q);
            let a = terminate_step(p, q).1;
            let n = u1.len() + t1.len();
            &&& a.len() == n + s1.len() + t1.len()
            &&& forall|k: int| 0 <= k < n ==> #[trigger] a[k] is Update
            &&& forall|k: int| n <= k < a.len() ==> (#[trigger] a[k] matches ActionView::Send { packet }
                && packet.packet_type == packet_type_value(PacketType::ClientError))
            &&& a.subrange(n as int, a.len() as int) == s1 + cancel_sends(t1)
        }),
{
    let (t1, u1, s1) = drain_step(p, q);
    let a = terminate_step(p, q).1;
    let n = u1.len() + t1.len();
    lemma_drain_kinds(p, q);
    assert forall|k: int| 0 <= k < n implies #[trigger] a[k] is Update by {
        if k >= u1.len() {
            assert(a[k] == abort_updates(t1)[k - u1.len()]);
        } else {
            assert(a[k] == u1[k]);
        }
    }
    assert forall|k: int| n <= k < a.len() implies (#[trigger] a[k] matches ActionView::Send { packet }
        && packet.packet_type == packet_type_value(PacketType::ClientError)) by {
        if k >= n + s1.len() {
            assert(a[k] == cancel_sends(t1)[k - n - s1.len()]);
        } else {
            assert(a[k] == s1[k - n]);
        }
    }
    assert(a.subrange(n as int, a.len() as int) =~= s1 + cancel_sends(t1));
}

} // verus!
