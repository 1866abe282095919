//! Device peers, frame addresses, and the channels that tie them together.

use vstd::prelude::*;

verus! {

/// A component of the device, or the host.
#[derive(Debug, Clone, Copy, PartialEq, Eq, Structural)]
pub enum Peer {
    Unknown,
    Host,
    Case,
    LeftBtCore,
    RightBtCore,
    LeftSensorHub,
    RightSensorHub,
    LeftSpiBridge,
    RightSpiBridge,
    DebugApp,
    MaestroA,
    LeftTahiti,
    RightTahiti,
    MaestroB,
    Unrecognized(u8),
}

/// The peer that the number `v` stands for.
pub open spec fn peer_of(v: u8) -> Peer {
    if v == 0 {
        Peer::Unknown
    } else if v == 1 {
        Peer::Host
    } else if v == 2 {
        Peer::Case
    } else if v == 3 {
        Peer::LeftBtCore
    } else if v == 4 {
        Peer::RightBtCore
    } else if v == 5 {
        Peer::LeftSensorHub
    } else if v == 6 {
        Peer::RightSensorHub
    } else if v == 7 {
        Peer::LeftSpiBridge
    } else if v == 8 {
        Peer::RightSpiBridge
    } else if v == 9 {
        Peer::DebugApp
    } else if v == 10 {
        Peer::MaestroA
    } else if v == 11 {
        Peer::LeftTahiti
    } else if v == 12 {
        Peer::RightTahiti
    } else if v == 13 {
        Peer::MaestroB
    } else {
        Peer::Unrecognized(v)
    }
}

/// The number of peer `p`.
pub open spec fn peer_value(p: Peer) -> u8 {
    match p {
        Peer::Unknown => 0,
        Peer::Host => 1,
        Peer::Case => 2,
        Peer::LeftBtCore => 3,
        Peer::RightBtCore => 4,
        Peer::LeftSensorHub => 5,
        Peer::RightSensorHub => 6,
        Peer::LeftSpiBridge => 7,
        Peer::RightSpiBridge => 8,
        Peer::DebugApp => 9,
        Peer::MaestroA => 10,
        Peer::LeftTahiti => 11,
        Peer::RightTahiti => 12,
        Peer::MaestroB => 13,
        Peer::Unrecognized(v) => v,
    }
}

impl Peer {
    /// The peer that the number `value` stands for; unknown numbers are
    /// kept in `Unrecognized`.
    pub fn from_primitive(value: u8) -> (r: Peer)
        ensures
            r == peer_of(value),
    {
        match value {
            0 => Peer::Unknown,
            1 => Peer::Host,
            2 => Peer::Case,
            3 => Peer::LeftBtCore,
            4 => Peer::RightBtCore,
            5 => Peer::LeftSensorHub,
            6 => Peer::RightSensorHub,
            7 => Peer::LeftSpiBridge,
            8 => Peer::RightSpiBridge,
            9 => Peer::DebugApp,
            10 => Peer::MaestroA,
            11 => Peer::LeftTahiti,
            12 => Peer::RightTahiti,
            13 => Peer::MaestroB,
            _ => Peer::Unrecognized(value),
        }
    }

    /// The number of this peer.
    pub fn to_primitive(self) -> (r: u8)
        ensures
            r == peer_value(self),
    {
        match self {
            Peer::Unknown => 0,
            Peer::Host => 1,
            Peer::Case => 2,
            Peer::LeftBtCore => 3,
            Peer::RightBtCore => 4,
            Peer::LeftSensorHub => 5,
            Peer::RightSensorHub => 6,
            Peer::LeftSpiBridge => 7,
            Peer::RightSpiBridge => 8,
            Peer::DebugApp => 9,
            Peer::MaestroA => 10,
            Peer::LeftTahiti => 11,
            Peer::RightTahiti => 12,
            Peer::MaestroB => 13,
            Peer::Unrecognized(v) => v,
        }
    }
}

impl From<u8> for Peer {
    fn from(value: u8) -> (r: Peer) {
        Peer::from_primitive(value)
    }
}

impl vstd::std_specs::convert::FromSpecImpl<u8> for Peer {
    open spec fn obeys_from_spec() -> bool {
        true
    }

    open spec fn from_spec(v: u8) -> Peer {
        peer_of(v)
    }
}

impl From<Peer> for u8 {
    fn from(value: Peer) -> (r: u8) {
        value.to_primitive()
    }
}

impl vstd::std_specs::convert::FromSpecImpl<Peer> for u8 {
    open spec fn obeys_from_spec() -> bool {
        true
    }

    open spec fn from_spec(v: Peer) -> u8 {
        peer_value(v)
    }
}

/// The channel of the conversation between `local` and `remote`: the ten
/// pairs of a Maestro instance with a case, bt-core or sensor-hub peer.
pub open spec fn channel_table(local: Peer, remote: Peer) -> Option<u32> {
    match (local, remote) {
        (Peer::MaestroA, Peer::Case) => Some(18),
        (Peer::MaestroA, Peer::LeftBtCore) => Some(19),
        (Peer::MaestroA, Peer::LeftSensorHub) => Some(20),
        (Peer::MaestroA, Peer::RightBtCore) => Some(21),
        (Peer::MaestroA, Peer::RightSensorHub) => Some(22),
        (Peer::MaestroB, Peer::Case) => Some(23),
        (Peer::MaestroB, Peer::LeftBtCore) => Some(24),
        (Peer::MaestroB, Peer::LeftSensorHub) => Some(25),
        (Peer::MaestroB, Peer::RightBtCore) => Some(26),
        (Peer::MaestroB, Peer::RightSensorHub) => Some(27),
        _ => None,
    }
}

/// The (local, remote) pair of channel `c`.
pub open spec fn channel_peers(c: u32) -> Option<(Peer, Peer)> {
    if c == 18 {
        Some((Peer::MaestroA, Peer::Case))
    } else if c == 19 {
        Some((Peer::MaestroA, Peer::LeftBtCore))
    } else if c == 20 {
        Some((Peer::MaestroA, Peer::LeftSensorHub))
    } else if c == 21 {
        Some((Peer::MaestroA, Peer::RightBtCore))
    } else if c == 22 {
        Some((Peer::MaestroA, Peer::RightSensorHub))
    } else if c == 23 {
        Some((Peer::MaestroB, Peer::Case))
    } else if c == 24 {
        Some((Peer::MaestroB, Peer::LeftBtCore))
    } else if c == 25 {
        Some((Peer::MaestroB, Peer::LeftSensorHub))
    } else if c == 26 {
        Some((Peer::MaestroB, Peer::RightBtCore))
    } else if c == 27 {
        Some((Peer::MaestroB, Peer::RightSensorHub))
    } else {
        None
    }
}

/// The address value for a message from `source` to `target`: the low four
/// bits of the source number at bit 6, those of the target at bit 10.
pub open spec fn address_of_peers(source: Peer, target: Peer) -> u32 {
    (((peer_value(source) as u32) & 0xf) << 6u32) | (((peer_value(target) as u32) & 0xf) << 10u32)
}

pub open spec fn source_of(value: u32) -> Peer {
    peer_of(((value >> 6u32) & 0xf) as u8)
}

pub open spec fn target_of(value: u32) -> Peer {
    peer_of(((value >> 10u32) & 0xf) as u8)
}

/// The channel of an address value: looked up with the Maestro peer as the
/// local side.
pub open spec fn address_channel(value: u32) -> Option<u32> {
    let s = source_of(value);
    let t = target_of(value);
    if s == Peer::MaestroA || s == Peer::MaestroB {
        channel_table(s, t)
    } else {
        channel_table(t, s)
    }
}

#[derive(Debug, Clone, Copy, PartialEq, Eq, Structural)]
pub struct Address {
    value: u32,
}

impl Address {
    pub closed spec fn spec_value(&self) -> u32 {
        self.value
    }

    /// The address with value `v`.
    pub closed spec fn with_value(v: u32) -> Address {
        Address { value: v }
    }

    pub fn from_value(value: u32) -> (r: Self)
        ensures
            r.spec_value() == value,
    {
        Address { value }
    }

    pub fn from_peers(source: Peer, target: Peer) -> (r: Self)
        ensures
            r.spec_value() == address_of_peers(source, target),
    {
        let source: u8 = source.to_primitive();
        let target: u8 = target.to_primitive();
        Self::from_value((((source as u32) & 0xf) << 6u32) | (((target as u32) & 0xf) << 10u32))
    }

    pub fn value(&self) -> (r: u32)
        ensures
            r == self.spec_value(),
    {
        self.value
    }

    pub fn source(&self) -> (r: Peer)
        ensures
            r == source_of(self.spec_value()),
    {
        Peer::from_primitive(((self.value >> 6u32) & 0x0f) as u8)
    }

    pub fn target(&self) -> (r: Peer)
        ensures
            r == target_of(self.spec_value()),
    {
        Peer::from_primitive(((self.value >> 10u32) & 0x0f) as u8)
    }

    /// The address of the reply: source and target swapped.
    pub fn swap(&self) -> (r: Self)
        ensures
            r.spec_value() == address_of_peers(target_of(self.spec_value()), source_of(self.spec_value())),
    {
        Self::from_peers(self.target(), self.source())
    }

    /// The channel of this address, if it has one.
    pub fn channel_id(&self) -> (r: Option<u32>)
        ensures
            r == address_channel(self.spec_value()),
    {
        let source = self.source();
        let target = self.target();
        if matches!(source, Peer::MaestroA) || matches!(source, Peer::MaestroB) {
            channel_id(source, target)
        } else {
            channel_id(target, source)
        }
    }
}

impl From<u32> for Address {
    fn from(value: u32) -> (r: Self) {
        Self::from_value(value)
    }
}

impl vstd::std_specs::convert::FromSpecImpl<u32> for Address {
    open spec fn obeys_from_spec() -> bool {
        true
    }

    open spec fn from_spec(v: u32) -> Address {
        Address::with_value(v)
    }
}

/// The channel of the conversation between `local` and `remote`, if the pair
/// has one.
pub fn channel_id(local: Peer, remote: Peer) -> (r: Option<u32>)
    ensures
        r == channel_table(local, remote),
{
    match (local, remote) {
        (Peer::MaestroA, Peer::Case) => Some(18),
        (Peer::MaestroA, Peer::LeftBtCore) => Some(19),
        (Peer::MaestroA, Peer::LeftSensorHub) => Some(20),
        (Peer::MaestroA, Peer::RightBtCore) => Some(21),
        (Peer::MaestroA, Peer::RightSensorHub) => Some(22),
        (Peer::MaestroB, Peer::Case) => Some(23),
        (Peer::MaestroB, Peer::LeftBtCore) => Some(24),
        (Peer::MaestroB, Peer::LeftSensorHub) => Some(25),
        (Peer::MaestroB, Peer::RightBtCore) => Some(26),
        (Peer::MaestroB, Peer::RightSensorHub) => Some(27),
        (_, _) => None,
    }
}

/// The address of frames on channel `channel`: from the Maestro instance to
/// its peer.
pub fn address_for_channel(channel: u32) -> (r: Option<Address>)
    ensures
        match channel_peers(channel) {
            Some((l, p)) => r matches Some(a) && a.spec_value() == address_of_peers(l, p),
            None => r is None,
        },
{
    match channel {
        18 => Some(Address::from_peers(Peer::MaestroA, Peer::Case)),
        19 => Some(Address::from_peers(Peer::MaestroA, Peer::LeftBtCore)),
        20 => Some(Address::from_peers(Peer::MaestroA, Peer::LeftSensorHub)),
        21 => Some(Address::from_peers(Peer::MaestroA, Peer::RightBtCore)),
        22 => Some(Address::from_peers(Peer::MaestroA, Peer::RightSensorHub)),
        23 => Some(Address::from_peers(Peer::MaestroB, Peer::Case)),
        24 => Some(Address::from_peers(Peer::MaestroB, Peer::LeftBtCore)),
        25 => Some(Address::from_peers(Peer::MaestroB, Peer::LeftSensorHub)),
        26 => Some(Address::from_peers(Peer::MaestroB, Peer::RightBtCore)),
        27 => Some(Address::from_peers(Peer::MaestroB, Peer::RightSensorHub)),
        _ => None,
    }
}

proof fn lemma_fields_of_address(s: u8, t: u8)
    requires
        s < 16,
        t < 16,
    ensures
        ((((((s as u32) & 0xf) << 6u32) | (((t as u32) & 0xf) << 10u32)) >> 6u32) & 0xf) as u8 == s,
        ((((((s as u32) & 0xf) << 6u32) | (((t as u32) & 0xf) << 10u32)) >> 10u32) & 0xf) as u8 == t,
{
    assert(s < 16 && t < 16 ==> ((((((s as u32) & 0xf) << 6u32) | (((t as u32) & 0xf) << 10u32)) >> 6u32)
        & 0xf) as u8 == s) by (bit_vector);
    assert(s < 16 && t < 16 ==> ((((((s as u32) & 0xf) << 6u32) | (((t as u32) & 0xf) << 10u32)) >> 10u32)
        & 0xf) as u8 == t) by (bit_vector);
}

/// Channels and addresses correspond one to one: the address of each of the
/// ten channels leads back to that channel, a pair of peers outside the
/// table has no channel, and the address of a pair in the table is the
/// address of its channel.
pub proof fn lemma_channel_address_bijection(c: u32, local: Peer, remote: Peer)
    ensures
        18 <= c <= 27 ==> (channel_peers(c) matches Some((l, p)) && address_channel(address_of_peers(l, p)) == Some(c)),
        !(18 <= c <= 27) ==> channel_peers(c) is None,
        channel_table(local, remote) is None <==> !(exists|k: u32| channel_peers(k) == Some((local, remote))),
        channel_table(local, remote) matches Some(k) ==> channel_peers(k) == Some((local, remote)),
{
    if 18 <= c <= 27 {
        let (l, p) = channel_peers(c).unwrap();
        lemma_fields_of_address(peer_value(l), peer_value(p));
    }
    if channel_table(local, remote) is None {
        assert forall|k: u32| channel_peers(k) != Some((local, remote)) by {}
    } else {
        let k = channel_table(local, remote).unwrap();
        assert(channel_peers(k) == Some((local, remote)));
    }
}

} // verus!
