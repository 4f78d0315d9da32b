//! The connection state machine: a per-endpoint state variable plus the
//! transition function that interprets an incoming packet's flags against the
//! current state and decides the next state, whether to emit a reply control
//! packet, and whether to deliver the payload upward.
//!
//! Once a peer is known (every state but `Null`), address filtering is
//! applied before flag inspection: a datagram from an unrecognized source is
//! silently discarded, never treated as a protocol error. The `Null` state
//! accepts a new peer from any source.

use vstd::prelude::*;
use crate::flags::spec_contains;
use crate::flags::AzukiFlags;
use crate::flags::FLAG_ACK;
use crate::flags::FLAG_SYN;
use crate::packet::AzukiPack;
use crate::packet::PackView;

verus! {

/// An IP address as plain values, version 4 or version 6.
#[derive(Clone, Copy, PartialEq, Eq, Structural, Debug)]
pub enum IpAddress {
    V4(u8, u8, u8, u8),
    V6(u16, u16, u16, u16, u16, u16, u16, u16),
}

/// A datagram source or destination: an IP address and a port.
#[derive(Clone, Copy, PartialEq, Eq, Structural, Debug)]
pub struct SockAddr {
    pub ip: IpAddress,
    pub port: u16,
}

/// The per-endpoint connection state. Only `Null`, `SynSent`, `SynRecv` and
/// `Established` have transitions; the remaining states are reserved for a
/// close-handshake extension and drop every packet.
#[derive(Clone, Copy, PartialEq, Eq, Structural, Debug)]
pub enum AzukiStatus {
    Null,
    SynSent,
    SynRecv,
    Established,
    FinWait1,
    FinWait2,
    TimeWait,
    Close,
    CloseWait,
}

/// Abstract outcome of feeding one packet to the state machine: the next
/// state, the next recorded peer, the reply to emit to the packet's source
/// (if any), and whether the payload is delivered upward.
pub struct SpecTransition {
    pub status: AzukiStatus,
    pub peer: Option<SockAddr>,
    pub reply: Option<PackView>,
    pub deliver: bool,
}

/// The `SYN|ACK` control packet a listener answers a connection request with.
pub open spec fn spec_synack_reply() -> PackView {
    PackView { ver: 1, seq: 0, bits: FLAG_SYN | FLAG_ACK, dat: Seq::empty() }
}

/// The `ACK` control packet an initiator answers a `SYN` with.
pub open spec fn spec_ack_reply() -> PackView {
    PackView { ver: 1, seq: 0, bits: FLAG_ACK, dat: Seq::empty() }
}

/// The outcome that drops the packet: state and peer unchanged, no reply, no
/// delivery.
pub open spec fn spec_drop(status: AzukiStatus, peer: Option<SockAddr>) -> SpecTransition {
    SpecTransition { status, peer, reply: None, deliver: false }
}

/// The transition table. Deterministic in the current state, the recorded
/// peer, the packet's source address and the packet's flag word.
pub open spec fn spec_on_packet(
    status: AzukiStatus,
    peer: Option<SockAddr>,
    src: SockAddr,
    bits: u16,
) -> SpecTransition {
    match status {
        AzukiStatus::Null => {
            if spec_contains(bits, FLAG_SYN) {
                SpecTransition {
                    status: AzukiStatus::SynRecv,
                    peer: Some(src),
                    reply: Some(spec_synack_reply()),
                    deliver: false,
                }
            } else {
                spec_drop(status, peer)
            }
        },
        AzukiStatus::SynSent => {
            if peer == Some(src) {
                SpecTransition {
                    status: if spec_contains(bits, FLAG_ACK) {
                        AzukiStatus::Established
                    } else {
                        AzukiStatus::SynSent
                    },
                    peer,
                    reply: if spec_contains(bits, FLAG_SYN) {
                        Some(spec_ack_reply())
                    } else {
                        None
                    },
                    deliver: false,
                }
            } else {
                spec_drop(status, peer)
            }
        },
        AzukiStatus::SynRecv => {
            if peer == Some(src) && spec_contains(bits, FLAG_ACK) {
                SpecTransition {
                    status: AzukiStatus::Established,
                    peer,
                    reply: None,
                    deliver: false,
                }
            } else {
                spec_drop(status, peer)
            }
        },
        AzukiStatus::Established => {
            if peer == Some(src) {
                SpecTransition { status, peer, reply: None, deliver: true }
            } else {
                spec_drop(status, peer)
            }
        },
        _ => spec_drop(status, peer),
    }
}

/// Executable outcome of one packet: as `SpecTransition`, with the reply as a
/// concrete packet ready to encode.
pub struct Transition {
    pub status: AzukiStatus,
    pub peer: Option<SockAddr>,
    pub reply: Option<AzukiPack>,
    pub deliver: bool,
}

impl View for Transition {
    type V = SpecTransition;

    open spec fn view(&self) -> SpecTransition {
        SpecTransition {
            status: self.status,
            peer: self.peer,
            reply: match self.reply {
                Some(p) => Some(p@),
                None => None,
            },
            deliver: self.deliver,
        }
    }
}

/// Builds the executable `SYN|ACK` reply packet.
fn make_synack_reply() -> (r: AzukiPack)
    ensures
        r@ == spec_synack_reply(),
        r@.wf(),
{
    proof {
        assert((FLAG_SYN | FLAG_ACK) & !(0x009Fu16) == 0) by (bit_vector);
    }
    let r = AzukiPack {
        ver: 1,
        seq: 0,
        opt: AzukiFlags::new(FLAG_SYN | FLAG_ACK),
        dat: Vec::new(),
    };
    proof {
        assert(r@ =~= spec_synack_reply());
    }
    r
}

/// Builds the executable `ACK` reply packet.
fn make_ack_reply() -> (r: AzukiPack)
    ensures
        r@ == spec_ack_reply(),
        r@.wf(),
{
    proof {
        assert(FLAG_ACK & !(0x009Fu16) == 0) by (bit_vector);
    }
    let r = AzukiPack { ver: 1, seq: 0, opt: AzukiFlags::new(FLAG_ACK), dat: Vec::new() };
    proof {
        assert(r@ =~= spec_ack_reply());
    }
    r
}

/// Feeds one packet's source address and flags to the state machine and
/// returns the decided outcome. Every reply packet produced is valid.
pub fn on_packet(
    status: AzukiStatus,
    peer: Option<SockAddr>,
    src: SockAddr,
    flags: AzukiFlags,
) -> (r: Transition)
    ensures
        r@ == spec_on_packet(status, peer, src, flags@),
        r.reply matches Some(p) ==> p@.wf(),
{
    proof {
        assert(FLAG_SYN & !(0x009Fu16) == 0 && FLAG_ACK & !(0x009Fu16) == 0) by (bit_vector);
    }
    let drop = Transition { status, peer, reply: None, deliver: false };
    match status {
        AzukiStatus::Null => {
            if flags.contains(AzukiFlags::new(FLAG_SYN)) {
                Transition {
                    status: AzukiStatus::SynRecv,
                    peer: Some(src),
                    reply: Some(make_synack_reply()),
                    deliver: false,
                }
            } else {
                drop
            }
        },
        AzukiStatus::SynSent => {
            match peer {
                Some(p) if p == src => Transition {
                    status: if flags.contains(AzukiFlags::new(FLAG_ACK)) {
                        AzukiStatus::Established
                    } else {
                        AzukiStatus::SynSent
                    },
                    peer,
                    reply: if flags.contains(AzukiFlags::new(FLAG_SYN)) {
                        Some(make_ack_reply())
                    } else {
                        None
                    },
                    deliver: false,
                },
                _ => drop,
            }
        },
        AzukiStatus::SynRecv => {
            match peer {
                Some(p) if p == src => {
                    if flags.contains(AzukiFlags::new(FLAG_ACK)) {
                        Transition {
                            status: AzukiStatus::Established,
                            peer,
                            reply: None,
                            deliver: false,
                        }
                    } else {
                        drop
                    }
                },
                _ => drop,
            }
        },
        AzukiStatus::Established => {
            match peer {
                Some(p) if p == src => Transition { status, peer, reply: None, deliver: true },
                _ => drop,
            }
        },
        _ => drop,
    }
}

/// Handshake liveness: in `Null`, a packet with `SYN` set moves the endpoint
/// to `SynRecv`, records the source as the peer, and emits exactly one
/// `SYN|ACK` reply to the source; nothing is delivered.
pub proof fn lemma_handshake_syn(peer: Option<SockAddr>, src: SockAddr, bits: u16)
    requires
        spec_contains(bits, FLAG_SYN),
    ensures
        ({
            let t = spec_on_packet(AzukiStatus::Null, peer, src, bits);
            &&& t.status == AzukiStatus::SynRecv
            &&& t.peer == Some(src)
            &&& t.reply == Some(spec_synack_reply())
            &&& !t.deliver
        }),
{
}

/// Idempotence of the rendezvous state: a packet without `SYN` leaves a
/// `Null` endpoint's state and peer unchanged and emits no reply.
pub proof fn lemma_null_ignores_non_syn(peer: Option<SockAddr>, src: SockAddr, bits: u16)
    requires
        !spec_contains(bits, FLAG_SYN),
    ensures
        spec_on_packet(AzukiStatus::Null, peer, src, bits) == spec_drop(AzukiStatus::Null, peer),
{
}

/// Peer filtering: once established with a peer, a packet from any other
/// source is dropped — state and peer unchanged, no reply, no delivery.
pub proof fn lemma_peer_filtering(peer: SockAddr, src: SockAddr, bits: u16)
    requires
        src != peer,
    ensures
        spec_on_packet(AzukiStatus::Established, Some(peer), src, bits) == spec_drop(
            AzukiStatus::Established,
            Some(peer),
        ),
{
}

/// Delivery: once established, any packet from the recorded peer is
/// delivered upward, with state and peer unchanged and no reply.
pub proof fn lemma_established_delivers(peer: SockAddr, bits: u16)
    ensures
        ({
            let t = spec_on_packet(AzukiStatus::Established, Some(peer), peer, bits);
            &&& t.status == AzukiStatus::Established
            &&& t.peer == Some(peer)
            &&& t.reply is None
            &&& t.deliver
        }),
{
}

/// The states reserved for the close-handshake extension drop every packet.
pub proof fn lemma_reserved_states_drop(
    status: AzukiStatus,
    peer: Option<SockAddr>,
    src: SockAddr,
    bits: u16,
)
    requires
        status == AzukiStatus::FinWait1 || status == AzukiStatus::FinWait2 || status
            == AzukiStatus::TimeWait || status == AzukiStatus::Close || status
            == AzukiStatus::CloseWait,
    ensures
        spec_on_packet(status, peer, src, bits) == spec_drop(status, peer),
{
}

} // verus!
