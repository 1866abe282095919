//! Finding the channel on which the device answers.
//!
//! Right after the transport connects, the device sends one unsolicited
//! response to `GetSoftwareInfo` on the channel of the session. Opening a
//! unary call for it on each likely channel, before the client runs, catches
//! that response; nothing is sent.

use vstd::prelude::*;
use crate::pwrpc::client::{path_uid, unary_result, CallRequest, CallUpdate, RequestView, UnaryRpc};
use crate::pwrpc::status::{Error, Status};
use crate::pwrpc::types::RpcType;
use super::addr::{channel_id, channel_table, Peer};

verus! {

/// The call id of the calls opened to find the channel.
pub const RESOLVE_CALL_ID: u32 = 0xffff_ffff;

/// The path of the RPC that the device answers unasked.
pub const SOFTWARE_INFO_PATH: &'static str = "maestro_pw.Maestro/GetSoftwareInfo";

/// The six likely channels: either Maestro instance with the case or either
/// bt core.
pub open spec fn candidates() -> Seq<u32> {
    seq![18u32, 19, 21, 23, 24, 26]
}

/// Returns the channels on which to wait for the response.
pub fn candidate_channels() -> (r: Vec<u32>)
    ensures
        r@ == candidates(),
        forall|k: int| 0 <= k < r@.len() ==> r@[k] == channel_table(Peer::MaestroA, Peer::Case).unwrap()
            || (exists|a: Peer, b: Peer| channel_table(a, b) == Some(#[trigger] r@[k])),
{
    let mut r: Vec<u32> = Vec::new();
    r.push(channel_id(Peer::MaestroA, Peer::Case).unwrap());
    r.push(channel_id(Peer::MaestroA, Peer::LeftBtCore).unwrap());
    r.push(channel_id(Peer::MaestroA, Peer::RightBtCore).unwrap());
    r.push(channel_id(Peer::MaestroB, Peer::Case).unwrap());
    r.push(channel_id(Peer::MaestroB, Peer::LeftBtCore).unwrap());
    r.push(channel_id(Peer::MaestroB, Peer::RightBtCore).unwrap());
    proof {
        assert(r@ =~= candidates());
        assert forall|k: int| 0 <= k < r@.len() implies exists|a: Peer, b: Peer| channel_table(a, b) == Some(#[trigger] r@[k]) by {
            if k == 0 {
                assert(channel_table(Peer::MaestroA, Peer::Case) == Some(r@[k]));
            } else if k == 1 {
                assert(channel_table(Peer::MaestroA, Peer::LeftBtCore) == Some(r@[k]));
            } else if k == 2 {
                assert(channel_table(Peer::MaestroA, Peer::RightBtCore) == Some(r@[k]));
            } else if k == 3 {
                assert(channel_table(Peer::MaestroB, Peer::Case) == Some(r@[k]));
            } else if k == 4 {
                assert(channel_table(Peer::MaestroB, Peer::LeftBtCore) == Some(r@[k]));
            } else {
                assert(channel_table(Peer::MaestroB, Peer::RightBtCore) == Some(r@[k]));
            }
        }
    }
    r
}

/// The requests that open one unary `GetSoftwareInfo` call per likely
/// channel, in the order of `candidates()`, for the callers numbered from
/// `first_caller` on.
pub fn resolve_requests(first_caller: u64) -> (r: Vec<CallRequest>)
    requires
        first_caller + 6 <= u64::MAX,
    ensures
        r@.len() == 6,
        forall|k: int| 0 <= k < 6 ==> (#[trigger] r@[k])@ == (RequestView::New {
            ty: RpcType::Unary,
            uid: path_uid(SOFTWARE_INFO_PATH@, candidates()[k], RESOLVE_CALL_ID),
            payload: Seq::empty(),
            caller: (first_caller + k) as u64,
            tx: false,
        }),
{
    let rpc = UnaryRpc::new(SOFTWARE_INFO_PATH);
    let channels = candidate_channels();
    let mut r: Vec<CallRequest> = Vec::new();
    let mut k: usize = 0;
    while k < 6
        invariant
            k <= 6,
            first_caller + 6 <= u64::MAX,
            channels@ == candidates(),
            rpc.wf(),
            rpc.spec_path() == SOFTWARE_INFO_PATH@,
            r@.len() == k,
            forall|j: int| 0 <= j < k ==> (#[trigger] r@[j])@ == (RequestView::New {
                ty: RpcType::Unary,
                uid: path_uid(SOFTWARE_INFO_PATH@, candidates()[j], RESOLVE_CALL_ID),
                payload: Seq::empty(),
                caller: (first_caller + j) as u64,
                tx: false,
            }),
        decreases 6 - k,
    {
        let req = rpc.open(channels[k], RESOLVE_CALL_ID, first_caller + k as u64);
        let ghost before = r@;
        r.push(req);
        proof {
            assert forall|j: int| 0 <= j < k + 1 implies (#[trigger] r@[j])@ == (RequestView::New {
                ty: RpcType::Unary,
                uid: path_uid(SOFTWARE_INFO_PATH@, candidates()[j], RESOLVE_CALL_ID),
                payload: Seq::empty(),
                caller: (first_caller + j) as u64,
                tx: false,
            }) by {
                if j < k {
                    assert(r@[j] == before[j]);
                }
            }
        }
        k = k + 1;
    }
    r
}

/// What the wait on channel `channel` gives for the update of its call:
/// the channel once the response came with status `Okay`, else the error.
pub fn resolve_result(channel: u32, update: Option<CallUpdate>) -> (r: Result<u32, Error>)
    requires
        !(update matches Some(CallUpdate::StreamItem { .. })),
    ensures
        match update {
            Some(CallUpdate::Complete { status, .. }) => if status == Status::Okay {
                r == Ok::<u32, Error>(channel)
            } else {
                r matches Err(e) && e.spec_code() == status
            },
            Some(CallUpdate::Error { status }) => r matches Err(e) && e.spec_code() == status,
            _ => r matches Err(e) && e.spec_code() == Status::ResourceExhausted,
        },
{
    match unary_result(update) {
        Ok(_) => Ok(channel),
        Err(e) => Err(e),
    }
}

/// The error when the client stops before any channel answered.
pub fn client_stopped() -> (r: Error)
    ensures
        r.spec_code() == Status::Aborted,
{
    Error::aborted("client terminated")
}

} // verus!
