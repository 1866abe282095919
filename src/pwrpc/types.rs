//! RPC kinds, packet types, and the RPC packet record.

use vstd::prelude::*;

verus! {

/// The kind of an RPC: which sides stream.
#[derive(Debug, Clone, Copy, PartialEq, Eq, Structural)]
pub enum RpcType {
    Unary,
    ServerStream,
    ClientStream,
    BidirectionalStream,
}

pub open spec fn server_streams(t: RpcType) -> bool {
    t == RpcType::ServerStream || t == RpcType::BidirectionalStream
}

pub open spec fn client_streams(t: RpcType) -> bool {
    t == RpcType::ClientStream || t == RpcType::BidirectionalStream
}

impl RpcType {
    pub fn has_server_stream(&self) -> (r: bool)
        ensures
            r == server_streams(*self),
    {
        match *self {
            RpcType::ServerStream | RpcType::BidirectionalStream => true,
            RpcType::Unary | RpcType::ClientStream => false,
        }
    }

    pub fn has_client_stream(&self) -> (r: bool)
        ensures
            r == client_streams(*self),
    {
        match *self {
            RpcType::ClientStream | RpcType::BidirectionalStream => true,
            RpcType::Unary | RpcType::ServerStream => false,
        }
    }
}

/// The type of an RPC packet, as numbered on the wire.
#[derive(Debug, Clone, Copy, PartialEq, Eq, Structural)]
pub enum PacketType {
    Request,
    Response,
    ClientStream,
    DeprecatedServerStreamEnd,
    ClientError,
    ServerError,
    DeprecatedCancel,
    ServerStream,
    ClientRequestCompletion,
}

/// The packet type numbered `v`, if there is one.
pub open spec fn packet_type_of(v: i32) -> Option<PacketType> {
    if v == 0 {
        Some(PacketType::Request)
    } else if v == 1 {
        Some(PacketType::Response)
    } else if v == 2 {
        Some(PacketType::ClientStream)
    } else if v == 3 {
        Some(PacketType::DeprecatedServerStreamEnd)
    } else if v == 4 {
        Some(PacketType::ClientError)
    } else if v == 5 {
        Some(PacketType::ServerError)
    } else if v == 6 {
        Some(PacketType::DeprecatedCancel)
    } else if v == 7 {
        Some(PacketType::ServerStream)
    } else if v == 8 {
        Some(PacketType::ClientRequestCompletion)
    } else {
        None
    }
}

/// The number of packet type `t`.
pub open spec fn packet_type_value(t: PacketType) -> i32 {
    match t {
        PacketType::Request => 0,
        PacketType::Response => 1,
        PacketType::ClientStream => 2,
        PacketType::DeprecatedServerStreamEnd => 3,
        PacketType::ClientError => 4,
        PacketType::ServerError => 5,
        PacketType::DeprecatedCancel => 6,
        PacketType::ServerStream => 7,
        PacketType::ClientRequestCompletion => 8,
    }
}

impl PacketType {
    pub fn from_i32(v: i32) -> (r: Option<PacketType>)
        ensures
            r == packet_type_of(v),
    {
        match v {
            0 => Some(PacketType::Request),
            1 => Some(PacketType::Response),
            2 => Some(PacketType::ClientStream),
            3 => Some(PacketType::DeprecatedServerStreamEnd),
            4 => Some(PacketType::ClientError),
            5 => Some(PacketType::ServerError),
            6 => Some(PacketType::DeprecatedCancel),
            7 => Some(PacketType::ServerStream),
            8 => Some(PacketType::ClientRequestCompletion),
            _ => None,
        }
    }

    pub fn to_i32(self) -> (r: i32)
        ensures
            r == packet_type_value(self),
    {
        match self {
            PacketType::Request => 0,
            PacketType::Response => 1,
            PacketType::ClientStream => 2,
            PacketType::DeprecatedServerStreamEnd => 3,
            PacketType::ClientError => 4,
            PacketType::ServerError => 5,
            PacketType::DeprecatedCancel => 6,
            PacketType::ServerStream => 7,
            PacketType::ClientRequestCompletion => 8,
        }
    }
}

/// An RPC packet, with its payload as encoded bytes.
#[derive(Debug, Clone, PartialEq, Eq)]
pub struct RpcPacket {
    pub packet_type: i32,
    pub channel_id: u32,
    pub service_id: u32,
    pub method_id: u32,
    pub payload: Vec<u8>,
    pub status: u32,
    pub call_id: u32,
}

/// An RPC packet as a value.
pub struct PacketView {
    pub packet_type: i32,
    pub channel_id: u32,
    pub service_id: u32,
    pub method_id: u32,
    pub payload: Seq<u8>,
    pub status: u32,
    pub call_id: u32,
}

impl View for RpcPacket {
    type V = PacketView;

    open spec fn view(&self) -> PacketView {
        PacketView {
            packet_type: self.packet_type,
            channel_id: self.channel_id,
            service_id: self.service_id,
            method_id: self.method_id,
            payload: self.payload@,
            status: self.status,
            call_id: self.call_id,
        }
    }
}

} // verus!
