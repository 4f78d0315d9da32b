use azukiproto::flags::{FLAG_ACK, FLAG_SYN};
use azukiproto::{Azuki, AzukiError, AzukiFlags, AzukiPack, AzukiStatus, IpAddress, SockAddr};

fn addr(last_octet: u8, port: u16) -> SockAddr {
    SockAddr { ip: IpAddress::V4(127, 0, 0, last_octet), port }
}

fn flags(bits: u16) -> AzukiFlags {
    AzukiFlags::from_bits(bits).expect("bits must be a valid flag subset")
}

fn control_packet(bits: u16) -> Vec<u8> {
    AzukiPack { ver: 1, seq: 0, opt: flags(bits), dat: vec![] }.pack()
}

fn data_packet(bits: u16, payload: &[u8]) -> Vec<u8> {
    AzukiPack { ver: 1, seq: 0, opt: flags(bits), dat: payload.to_vec() }.pack()
}

#[test]
fn syn_moves_null_to_syn_recv_and_replies_synack() {
    // A bound at 127.0.0.1:9001, B at 127.0.0.1:9002; B sends SYN to A.
    let mut a = Azuki::new();
    let b = addr(1, 9002);
    let effects = a.on_datagram(b, &control_packet(FLAG_SYN)).expect("packet is well formed");

    assert_eq!(a.status, AzukiStatus::SynRecv);
    assert_eq!(a.peer, Some(b));
    let (dest, reply_bytes) = effects.reply.expect("a SYN|ACK reply is owed");
    assert_eq!(dest, b);
    let reply = AzukiPack::unpack(&reply_bytes).expect("reply must decode");
    assert_eq!(reply.opt.bits(), FLAG_SYN | FLAG_ACK);
    assert_eq!(reply.dat.len(), 0);
    assert!(effects.deliver.is_none());
}

#[test]
fn ack_completes_handshake() {
    let mut a = Azuki::new();
    let b = addr(1, 9002);
    a.on_datagram(b, &control_packet(FLAG_SYN)).expect("packet is well formed");

    let effects = a.on_datagram(b, &control_packet(FLAG_ACK)).expect("packet is well formed");
    assert_eq!(a.status, AzukiStatus::Established);
    assert_eq!(a.peer, Some(b));
    assert!(effects.reply.is_none());
    assert!(effects.deliver.is_none());
}

#[test]
fn established_peer_payload_is_delivered_exactly() {
    let mut a = Azuki::new();
    let b = addr(1, 9002);
    a.on_datagram(b, &control_packet(FLAG_SYN)).expect("packet is well formed");
    a.on_datagram(b, &control_packet(FLAG_ACK)).expect("packet is well formed");

    let effects = a.on_datagram(b, &data_packet(0, b"hi")).expect("packet is well formed");
    assert!(effects.reply.is_none());
    let (from, payload) = effects.deliver.expect("payload is owed to the handler");
    assert_eq!(from, b);
    assert_eq!(payload, b"hi".to_vec());
    assert_eq!(payload.len(), 2);
    assert_eq!(a.status, AzukiStatus::Established);
}

#[test]
fn established_filters_unknown_sources() {
    let mut a = Azuki::new();
    let b = addr(1, 9002);
    let c = addr(2, 9003);
    a.on_datagram(b, &control_packet(FLAG_SYN)).expect("packet is well formed");
    a.on_datagram(b, &control_packet(FLAG_ACK)).expect("packet is well formed");

    let effects = a.on_datagram(c, &data_packet(FLAG_SYN, b"intrusion")).expect("well formed");
    assert_eq!(a.status, AzukiStatus::Established);
    assert_eq!(a.peer, Some(b));
    assert!(effects.reply.is_none());
    assert!(effects.deliver.is_none());
}

#[test]
fn null_ignores_non_syn_packets() {
    let mut a = Azuki::new();
    let b = addr(1, 9002);
    let effects = a.on_datagram(b, &data_packet(FLAG_ACK, b"early")).expect("well formed");
    assert_eq!(a.status, AzukiStatus::Null);
    assert_eq!(a.peer, None);
    assert!(effects.reply.is_none());
    assert!(effects.deliver.is_none());
}

#[test]
fn corrupt_datagram_changes_nothing() {
    let mut a = Azuki::new();
    let b = addr(1, 9002);
    a.on_datagram(b, &control_packet(FLAG_SYN)).expect("packet is well formed");

    let err = a.on_datagram(b, &[1, 2, 3]).expect_err("truncated buffer must be rejected");
    assert_eq!(err, azukiproto::CorruptPacket::Truncated);
    assert_eq!(a.status, AzukiStatus::SynRecv);
    assert_eq!(a.peer, Some(b));
}

#[test]
fn syn_sent_acks_a_syn_from_the_peer() {
    let mut a = Azuki::new();
    let b = addr(1, 9002);
    a.connect(IpAddress::V4(127, 0, 0, 1), 9002).expect("connect only records the peer");
    a.status = AzukiStatus::SynSent;

    let effects = a.on_datagram(b, &control_packet(FLAG_SYN | FLAG_ACK)).expect("well formed");
    assert_eq!(a.status, AzukiStatus::Established);
    let (dest, reply_bytes) = effects.reply.expect("an ACK reply is owed");
    assert_eq!(dest, b);
    let reply = AzukiPack::unpack(&reply_bytes).expect("reply must decode");
    assert_eq!(reply.opt.bits(), FLAG_ACK);
    assert!(effects.deliver.is_none());
}

#[test]
fn syn_recv_filters_unknown_sources() {
    let mut a = Azuki::new();
    let b = addr(1, 9002);
    let c = addr(2, 9003);
    a.on_datagram(b, &control_packet(FLAG_SYN)).expect("packet is well formed");

    // An ACK from a third party must not complete B's handshake.
    let effects = a.on_datagram(c, &control_packet(FLAG_ACK)).expect("well formed");
    assert_eq!(a.status, AzukiStatus::SynRecv);
    assert_eq!(a.peer, Some(b));
    assert!(effects.reply.is_none());
    assert!(effects.deliver.is_none());
}

#[test]
fn established_peer_control_packet_delivers_empty_payload() {
    let mut a = Azuki::new();
    let b = addr(1, 9002);
    a.on_datagram(b, &control_packet(FLAG_SYN)).expect("packet is well formed");
    a.on_datagram(b, &control_packet(FLAG_ACK)).expect("packet is well formed");

    let effects = a.on_datagram(b, &control_packet(FLAG_ACK)).expect("well formed");
    let (from, payload) = effects.deliver.expect("packets from the peer are delivered");
    assert_eq!(from, b);
    assert_eq!(payload.len(), 0);
}

#[test]
fn handshake_works_over_ipv6_addresses() {
    let mut a = Azuki::new();
    let b = SockAddr { ip: IpAddress::V6(0, 0, 0, 0, 0, 0, 0, 1), port: 9002 };
    a.on_datagram(b, &control_packet(FLAG_SYN)).expect("packet is well formed");
    assert_eq!(a.status, AzukiStatus::SynRecv);
    assert_eq!(a.peer, Some(b));
}

#[test]
fn connect_records_the_peer() {
    let mut a = Azuki::new();
    assert_eq!(a.peer, None);
    a.connect(IpAddress::V4(10, 0, 0, 7), 4242).expect("connect cannot fail");
    assert_eq!(a.peer, Some(SockAddr { ip: IpAddress::V4(10, 0, 0, 7), port: 4242 }));
    assert_eq!(a.status, AzukiStatus::Null);
}

#[test]
fn send_without_peer_is_refused() {
    let mut a = Azuki::new();
    let r = a.send(&vec![1, 2, 3]);
    assert_eq!(r, Err(AzukiError::NoPeer));
}

#[test]
fn send_frames_the_payload_with_syn() {
    let mut a = Azuki::new();
    a.connect(IpAddress::V4(127, 0, 0, 1), 9002).expect("connect cannot fail");
    let (dest, bytes) = a.send(&vec![10, 20, 30]).expect("a peer is recorded");
    assert_eq!(dest, addr(1, 9002));
    let p = AzukiPack::unpack(&bytes).expect("framed packet must decode");
    assert_eq!(p.ver, 0);
    assert_eq!(p.seq, 0);
    assert_eq!(p.opt.bits(), FLAG_SYN);
    assert_eq!(p.dat, vec![10, 20, 30]);
}
