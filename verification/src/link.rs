//! Link-layer session logic.
//!
//! A session is bound to one local interface and one expected peer:
//! a hardware address plus a 16-bit protocol identifier.  This module
//! holds everything about such a session that is decided rather than
//! performed: interface-name validation, classification of the kernel's
//! interface-query results, the byte-order convention for the protocol
//! identifier, and the receive filter that makes a shared broadcast
//! medium behave as a point-to-point channel.  The kernel calls
//! themselves (socket creation, binding, send, receive) happen outside,
//! and hand their plain results to these functions.

use crate::codec::{be_bytes, be_value, lemma_be_round_trip, lemma_pow256_values};
use vstd::prelude::*;
use vstd::string::StringSliceAdditionalSpecFns;

verus! {

broadcast use vstd::string::is_ascii_spec_bytes, vstd::slice::group_slice_axioms;

/// Kernel hardware-type code for Ethernet interfaces.
pub const ETHERNET_HW_TYPE: u16 = 1;

/// Kernel packet classification for a frame addressed to this host.
pub const HOST_PACKET_KIND: u8 = 0;

/// The length of an Ethernet hardware address, in bytes.
pub const HW_ADDR_LEN: u8 = 6;

/// What can go wrong while a session is set up or used.  Variants that
/// carry an `i32` hold the kernel's error number, surfaced verbatim.
#[derive(Clone, Copy, Debug, PartialEq, Eq, Structural)]
pub enum LinkError {
    /// The interface name is not ASCII, or does not fit strictly within
    /// the platform's interface-name byte limit.  Raised before any
    /// kernel call is made.
    NameInvalid,
    /// The named interface does not exist.
    InterfaceNotFound(i32),
    /// A kernel interface query failed for another reason.
    InterfaceQueryFailed(i32),
    /// The resolved interface's hardware type is not Ethernet, so the
    /// wire-format assumptions of this link do not hold on it.
    WrongLinkType,
    /// The raw link-layer socket could not be created.
    SocketCreateFailed(i32),
    /// The socket could not be bound to the interface and protocol.
    BindFailed(i32),
    /// The kernel rejected a frame send.
    SendFailed(i32),
    /// The kernel reported a receive failure.
    RecvFailed(i32),
}

/// Validates an interface name against the platform's name limit and
/// lays it out as the kernel wants it: a buffer of exactly `limit`
/// bytes holding the ASCII name followed by zero padding, so the
/// terminating zero byte is always present.
///
/// A name that is not ASCII, or not strictly shorter than `limit`,
/// fails with [`LinkError::NameInvalid`] — and with nothing else done,
/// so a caller that validates first provably makes no kernel call on
/// behalf of an invalid name.
pub fn prepare_ifname(name: &str, limit: usize) -> (r: Result<Vec<u8>, LinkError>)
    ensures
        r is Ok <==> name.is_ascii() && name@.len() < limit,
        match r {
            Ok(buf) => {
                &&& buf@.len() == limit
                &&& forall|i: int| 0 <= i < name@.len() ==> buf@[i] == name@[i] as u8
                &&& forall|i: int| name@.len() <= i < limit ==> buf@[i] == 0
            },
            Err(e) => e == LinkError::NameInvalid,
        },
{
    if !name.is_ascii() {
        return Err(LinkError::NameInvalid);
    }
    proof {
        vstd::string::is_ascii_spec_bytes(name);
    }
    let bytes = name.as_bytes();
    let len = bytes.len();
    if len >= limit {
        return Err(LinkError::NameInvalid);
    }
    let mut buf: Vec<u8> = Vec::new();
    let mut i: usize = 0;
    while i < len
        invariant
            name.is_ascii(),
            len == name@.len(),
            bytes@ == name.spec_bytes(),
            bytes@.len() == len,
            i <= len,
            buf@.len() == i,
            forall|k: int| 0 <= k < i ==> buf@[k] == name@[k] as u8,
        decreases len - i,
    {
        buf.push(bytes[i]);
        i = i + 1;
    }
    while buf.len() < limit
        invariant
            name@.len() <= buf@.len() <= limit,
            forall|k: int| 0 <= k < name@.len() ==> buf@[k] == name@[k] as u8,
            forall|k: int| name@.len() <= k < buf@.len() ==> buf@[k] == 0,
        decreases limit - buf@.len(),
    {
        buf.push(0);
    }
    Ok(buf)
}

/// The identity of a local network adapter, as resolved from the
/// kernel: its numeric index and its 6-byte hardware address.
#[derive(Clone, Copy, Debug, PartialEq, Eq)]
pub struct NetworkInterface {
    /// The kernel-assigned interface index.
    pub index: i32,
    /// The interface's hardware (MAC) address.
    pub hw_addr: [u8; 6],
}

/// Classifies the results of the kernel's interface queries.  The
/// queried hardware type must be Ethernet: on any other link type
/// (loopback, tunnel, ...) the wire format this crate assumes does not
/// hold, and the result is [`LinkError::WrongLinkType`].
pub fn interface_from_query(hw_type: u16, hw_addr: [u8; 6], index: i32) -> (r: Result<
    NetworkInterface,
    LinkError,
>)
    ensures
        r is Ok <==> hw_type == ETHERNET_HW_TYPE,
        match r {
            Ok(iface) => iface.index == index && iface.hw_addr@ == hw_addr@,
            Err(e) => e == LinkError::WrongLinkType,
        },
{
    if hw_type == ETHERNET_HW_TYPE {
        Ok(NetworkInterface { index, hw_addr })
    } else {
        Err(LinkError::WrongLinkType)
    }
}

/// One end of the link: a hardware address plus the 16-bit protocol
/// identifier ("ethertype") that tags this application's frames.  The
/// protocol identifier is held in host byte order.
#[derive(Clone, Copy, Debug)]
pub struct LinkEndpoint {
    /// The endpoint's hardware (MAC) address.
    pub hw_addr: [u8; 6],
    /// The link-layer protocol identifier, host byte order.
    pub protocol: u16,
}

/// The origin metadata the kernel reports with one received frame.
#[derive(Clone, Copy, Debug)]
pub struct FrameMeta {
    /// The kernel's classification of the frame;
    /// [`HOST_PACKET_KIND`] means it was addressed to this host.
    pub packet_kind: u8,
    /// The frame's source hardware address.
    pub source: [u8; 6],
    /// The hardware type of the link the frame arrived on.
    pub hw_type: u16,
    /// The reported length of the source hardware address.
    pub hw_addr_len: u8,
    /// The frame's protocol identifier, converted to host byte order.
    pub protocol: u16,
}

/// The receive filter's acceptance test: a frame is delivered exactly
/// when the kernel classified it as addressed to this host and its
/// source hardware address is the configured peer's.
pub open spec fn frame_accepted(meta: FrameMeta, peer_mac: Seq<u8>) -> bool {
    meta.packet_kind == HOST_PACKET_KIND && meta.source@ == peer_mac
}

/// True exactly when the two hardware addresses are byte-for-byte equal.
pub fn mac_eq(a: &[u8; 6], b: &[u8; 6]) -> (r: bool)
    ensures
        r == (a@ == b@),
{
    let mut i: usize = 0;
    while i < 6
        invariant
            i <= 6,
            forall|k: int| 0 <= k < i ==> a@[k] == b@[k],
        decreases 6 - i,
    {
        if a[i] != b[i] {
            assert(a@ != b@);
            return false;
        }
        i = i + 1;
    }
    assert(a@ =~= b@);
    true
}

/// A communication session's recorded state: the resolved local
/// interface and the expected remote endpoint.  Resolved once at
/// session start and immutable thereafter; the socket handle that
/// accompanies it lives with the caller that performs the kernel calls.
#[derive(Clone, Copy, Debug)]
pub struct LinkSession {
    /// The local interface the socket is bound to.
    pub interface: NetworkInterface,
    /// The expected remote endpoint, used to tag outgoing frames and to
    /// filter incoming ones.
    pub peer: LinkEndpoint,
}

impl LinkSession {
    /// Records the resolved interface and the expected peer endpoint.
    pub fn new(interface: NetworkInterface, protocol: u16, peer_mac: [u8; 6]) -> (s: LinkSession)
        ensures
            s.interface == interface,
            s.peer.protocol == protocol,
            s.peer.hw_addr@ == peer_mac@,
    {
        LinkSession { interface, peer: LinkEndpoint { hw_addr: peer_mac, protocol } }
    }

    /// The protocol identifier as it must be presented to the binding
    /// call: in network byte order, that is, as its big-endian bytes
    /// (most significant first).
    pub fn bind_protocol_bytes(&self) -> (r: (u8, u8))
        ensures
            seq![r.0, r.1] == be_bytes(self.peer.protocol as nat, 2),
            r.0 == self.peer.protocol / 256,
            r.1 == self.peer.protocol % 256,
    {
        let p = self.peer.protocol;
        let hi = (p / 256) as u8;
        let lo = (p % 256) as u8;
        proof {
            let pn = p as nat;
            assert(be_bytes(pn / 256 / 256, 0) =~= Seq::<u8>::empty());
            assert(be_bytes(pn / 256, 1) =~= seq![hi]);
            assert(seq![hi, lo] =~= be_bytes(pn, 2));
        }
        (hi, lo)
    }

    /// The acceptance test of the receive loop, applied to one arrived
    /// frame's metadata: accept exactly the host-destined frames whose
    /// source is the configured peer; everything else is discarded and
    /// the loop reads again.
    pub fn accept_frame(&self, meta: &FrameMeta) -> (r: bool)
        ensures
            r == frame_accepted(*meta, self.peer.hw_addr@),
    {
        meta.packet_kind == HOST_PACKET_KIND && mac_eq(&meta.source, &self.peer.hw_addr)
    }

    /// The debug-only consistency test on received metadata: the
    /// reported hardware type is Ethernet, the reported address length
    /// is 6, and the frame's protocol identifier (in host order)
    /// matches the one this session was bound with.  Not part of the
    /// acceptance decision.
    pub fn metadata_consistent(&self, meta: &FrameMeta) -> (r: bool)
        ensures
            r == (meta.hw_type == ETHERNET_HW_TYPE && meta.hw_addr_len == HW_ADDR_LEN
                && meta.protocol == self.peer.protocol),
    {
        meta.hw_type == ETHERNET_HW_TYPE && meta.hw_addr_len == HW_ADDR_LEN && meta.protocol
            == self.peer.protocol
    }

    /// The receive loop's behavior over a whole trace of arrivals: the
    /// frame delivered to the caller is the first one of the trace that
    /// passes [`LinkSession::accept_frame`]; every frame before it is
    /// discarded, and if no frame of the trace passes, the loop is
    /// still waiting.
    pub fn select_frame(&self, metas: &Vec<FrameMeta>) -> (r: Option<usize>)
        ensures
            match r {
                Some(i) => {
                    &&& i < metas@.len()
                    &&& frame_accepted(metas@[i as int], self.peer.hw_addr@)
                    &&& no_accepted_before(metas@, self.peer.hw_addr@, i as int)
                },
                None => no_accepted_before(metas@, self.peer.hw_addr@, metas@.len() as int),
            },
    {
        let mut i: usize = 0;
        while i < metas.len()
            invariant
                i <= metas@.len(),
                no_accepted_before(metas@, self.peer.hw_addr@, i as int),
            decreases metas@.len() - i,
        {
            if self.accept_frame(&metas[i]) {
                return Some(i);
            }
            i = i + 1;
        }
        None
    }
}

/// Reassembles a protocol identifier from the two bytes the kernel
/// reports with a received frame, which are in network byte order:
/// the result is the identifier in host byte order, ready to compare
/// against the one the session was bound with.
pub fn protocol_from_wire(hi: u8, lo: u8) -> (r: u16)
    ensures
        r == hi * 256 + lo,
        r == be_value(seq![hi, lo]),
{
    let r: u16 = (hi as u16) * 256 + (lo as u16);
    proof {
        assert(seq![hi, lo].drop_last() =~= seq![hi]);
        assert(seq![hi].drop_last() =~= Seq::<u8>::empty());
        assert(be_value(Seq::<u8>::empty()) == 0);
        assert(be_value(seq![hi]) == hi);
        assert(be_value(seq![hi, lo]) == hi * 256 + lo);
    }
    r
}

/// The byte-order convention is symmetric: the network-order bytes
/// handed to the binding call, read back in host order the way
/// receive-time metadata is, give the protocol identifier the session
/// was configured with.
pub proof fn lemma_protocol_round_trip(protocol: u16)
    ensures
        be_value(be_bytes(protocol as nat, 2)) == protocol,
{
    lemma_pow256_values();
    lemma_be_round_trip(protocol as nat, 2);
}

/// No frame accepted anywhere before position `i` of the arrival trace.
pub open spec fn no_accepted_before(metas: Seq<FrameMeta>, peer_mac: Seq<u8>, i: int) -> bool {
    forall|j: int| 0 <= j < i ==> !frame_accepted(metas[j], peer_mac)
}

/// Point-to-point semantics of the filter: a frame the filter delivers
/// is always classified as addressed to this host and always originates
/// from the configured peer — a frame from any other hardware address,
/// or one merely overheard on the medium, is never delivered, however
/// the arrivals are interleaved.
pub proof fn lemma_delivered_frame_is_genuine(metas: Seq<FrameMeta>, peer_mac: Seq<u8>, i: int)
    requires
        0 <= i < metas.len(),
        frame_accepted(metas[i], peer_mac),
    ensures
        metas[i].packet_kind == HOST_PACKET_KIND,
        metas[i].source@ == peer_mac,
{
}

} // verus!
