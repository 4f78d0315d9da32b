//! The endpoint core: the connection-side state an endpoint owns — the
//! recorded peer, the connection state, the local sequence counter and the
//! advertised window — together with the per-datagram dispatch step that the
//! receive loop runs and the framing step behind `send`.
//!
//! Socket ownership, the blocking receive loop and the thread it runs on are
//! plumbing around this type: they feed every inbound datagram through
//! [`Azuki::on_datagram`], transmit the reply it produces, and hand any
//! delivered payload to the application's handler.

use vstd::prelude::*;
use crate::flags::AzukiFlags;
use crate::flags::FLAG_SYN;
use crate::packet::decode_ok;
use crate::packet::spec_decode;
use crate::packet::spec_decode_err;
use crate::packet::spec_encode;
use crate::packet::AzukiPack;
use crate::packet::CorruptPacket;
use crate::packet::PackView;
use crate::state::on_packet;
use crate::state::spec_on_packet;
use crate::state::AzukiStatus;
use crate::state::SockAddr;
use crate::state::IpAddress;

verus! {

/// An error surfaced to the caller of an endpoint operation.
#[derive(Clone, Copy, PartialEq, Eq, Structural, Debug)]
pub enum AzukiError {
    /// `send` was attempted with no recorded peer.
    NoPeer,
}

/// The connection-side state of one endpoint. The bound datagram socket that
/// carries its packets lives with the unverified plumbing; the fields here
/// are everything the protocol logic reads and writes.
pub struct Azuki {
    /// The recorded peer, set by `connect` or learned from an inbound `SYN`.
    pub peer: Option<SockAddr>,
    /// The current connection state; `Null` until a handshake advances it.
    pub status: AzukiStatus,
    /// The local sequence counter. Initialized to zero and exposed as a
    /// capability; the core never increments it.
    pub curr_serialno: u32,
    /// The advertised window size; carried for a flow-control extension.
    pub window_size: u16,
}

/// The packet `send` frames around a payload: version 0, the current
/// sequence number, the `SYN` flag, and the payload.
pub open spec fn spec_send_packet(serialno: u32, dat: Seq<u8>) -> PackView {
    PackView { ver: 0, seq: serialno, bits: FLAG_SYN, dat }
}

/// What one decoded packet does to an endpoint: the outcome the receive loop
/// must enact — an encoded reply to transmit to the source, and a payload to
/// hand to the application's handler.
#[derive(Debug)]
pub struct Effects {
    /// Destination and bytes of the reply control packet, if one is owed.
    pub reply: Option<(SockAddr, Vec<u8>)>,
    /// Source address and payload bytes to deliver upward, if owed.
    pub deliver: Option<(SockAddr, Vec<u8>)>,
}

impl Azuki {
    /// The state of a freshly bound endpoint: no peer, `Null` state,
    /// sequence counter zero, default window.
    pub fn new() -> (r: Azuki)
        ensures
            r.peer is None,
            r.status == AzukiStatus::Null,
            r.curr_serialno == 0,
            r.window_size == 65535,
    {
        Azuki { peer: None, status: AzukiStatus::Null, curr_serialno: 0, window_size: 65535 }
    }

    /// Records the target as this endpoint's peer. No `SYN` is transmitted
    /// and the state is left as it is: the first data packet doubles as the
    /// connection request.
    pub fn connect(&mut self, host: IpAddress, port: u16) -> (r: Result<(), AzukiError>)
        ensures
            r is Ok,
            final(self).peer == Some(SockAddr { ip: host, port: port }),
            final(self).status == old(self).status,
            final(self).curr_serialno == old(self).curr_serialno,
            final(self).window_size == old(self).window_size,
    {
        self.peer = Some(SockAddr { ip: host, port });
        Ok(())
    }

    /// Frames a payload for transmission: succeeds exactly when a peer is
    /// recorded, and then yields the peer as destination and the encoded
    /// packet bytes. The endpoint itself is left unchanged.
    pub fn send(&mut self, data: &Vec<u8>) -> (r: Result<(SockAddr, Vec<u8>), AzukiError>)
        ensures
            *final(self) == *old(self),
            r is Ok <==> old(self).peer is Some,
            r matches Ok(out) ==> old(self).peer == Some(out.0) && out.1@ == spec_encode(
                spec_send_packet(old(self).curr_serialno, data@),
            ),
            r matches Err(e) ==> e == AzukiError::NoPeer,
    {
        let dest = match self.peer {
            Some(p) => p,
            None => {
                return Err(AzukiError::NoPeer);
            },
        };
        proof {
            assert(FLAG_SYN & !(0x009Fu16) == 0) by (bit_vector);
        }
        let packet = AzukiPack {
            ver: 0,
            seq: self.curr_serialno,
            opt: AzukiFlags::new(FLAG_SYN),
            dat: clone_bytes(data),
        };
        let bytes = packet.pack();
        proof {
            assert(packet@ =~= spec_send_packet(self.curr_serialno, data@));
        }
        Ok((dest, bytes))
    }

    /// The dispatch step the receive loop runs for each inbound datagram.
    ///
    /// A corrupt datagram is rejected with the precise decode error and
    /// changes nothing, so the loop can log it and continue. A decodable one
    /// is fed to the state machine: the endpoint takes the decided state and
    /// peer, and the returned effects carry the encoded reply owed to the
    /// source and the payload owed to the handler, exactly as decided.
    pub fn on_datagram(&mut self, src: SockAddr, msg: &[u8]) -> (r: Result<Effects, CorruptPacket>)
        ensures
            r is Ok <==> decode_ok(msg@),
            r matches Err(e) ==> e == spec_decode_err(msg@) && *final(self) == *old(self),
            r matches Ok(eff) ==> ({
                let p = spec_decode(msg@);
                let t = spec_on_packet(old(self).status, old(self).peer, src, p.bits);
                &&& final(self).status == t.status
                &&& final(self).peer == t.peer
                &&& final(self).curr_serialno == old(self).curr_serialno
                &&& final(self).window_size == old(self).window_size
                &&& (t.reply matches Some(rv) ==> (eff.reply matches Some(rb) && rb.0 == src
                    && rb.1@ == spec_encode(rv)))
                &&& (t.reply is None ==> eff.reply is None)
                &&& (t.deliver ==> (eff.deliver matches Some(dv) && dv.0 == src && dv.1@
                    == p.dat))
                &&& (!t.deliver ==> eff.deliver is None)
            }),
    {
        let packet = match AzukiPack::unpack(msg) {
            Ok(p) => p,
            Err(e) => {
                return Err(e);
            },
        };
        let t = on_packet(self.status, self.peer, src, packet.opt);
        self.status = t.status;
        self.peer = t.peer;
        let reply = match t.reply {
            Some(rp) => Some((src, rp.pack())),
            None => None,
        };
        let deliver = if t.deliver {
            Some((src, packet.dat))
        } else {
            None
        };
        Ok(Effects { reply, deliver })
    }
}

/// Delivery: once established, the encoding of any valid packet arriving
/// from the recorded peer decodes, is delivered upward with exactly the byte
/// sequence that was framed, and leaves the connection state unchanged.
pub proof fn lemma_delivery_exact(peer: SockAddr, p: PackView)
    requires
        p.wf(),
    ensures
        decode_ok(spec_encode(p)),
        ({
            let t = spec_on_packet(
                AzukiStatus::Established,
                Some(peer),
                peer,
                spec_decode(spec_encode(p)).bits,
            );
            &&& t.deliver
            &&& t.status == AzukiStatus::Established
            &&& t.peer == Some(peer)
            &&& t.reply is None
            &&& spec_decode(spec_encode(p)).dat == p.dat
        }),
{
    crate::packet::lemma_pack_unpack(p);
}

/// Byte-for-byte copy of a payload buffer.
fn clone_bytes(data: &Vec<u8>) -> (r: Vec<u8>)
    ensures
        r@ == data@,
{
    let mut out: Vec<u8> = Vec::new();
    let mut i: usize = 0;
    while i < data.len()
        invariant
            i <= data@.len(),
            out@ == data@.subrange(0, i as int),
        decreases data@.len() - i,
    {
        out.push(data[i]);
        proof {
            assert(data@.subrange(0, i as int) + seq![data@[i as int]] =~= data@.subrange(
                0,
                i + 1,
            ));
        }
        i = i + 1;
    }
    proof {
        assert(data@.subrange(0, data@.len() as int) =~= data@);
    }
    out
}

} // verus!
