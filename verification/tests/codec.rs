use azukiproto::flags::{FLAG_ACK, FLAG_KEEP_ALIVE, FLAG_MASK, FLAG_SEG, FLAG_SYN};
use azukiproto::packet::HEADER_LEN;
use azukiproto::{AzukiFlags, AzukiPack, CorruptPacket};

fn flags(bits: u16) -> AzukiFlags {
    AzukiFlags::from_bits(bits).expect("bits must be a valid flag subset")
}

#[test]
fn round_trip_with_payload() {
    let p = AzukiPack {
        ver: 1,
        seq: 0xDEADBEEF,
        opt: flags(FLAG_SYN | FLAG_KEEP_ALIVE),
        dat: vec![0, 1, 2, 250, 255],
    };
    let bytes = p.pack();
    let q = AzukiPack::unpack(&bytes).expect("encoding must decode");
    assert_eq!(q, p);
}

#[test]
fn round_trip_empty_payload() {
    let p = AzukiPack { ver: 0, seq: 0, opt: AzukiFlags::empty(), dat: vec![] };
    let bytes = p.pack();
    assert_eq!(bytes.len(), HEADER_LEN);
    let q = AzukiPack::unpack(&bytes).expect("encoding must decode");
    assert_eq!(q, p);
}

#[test]
fn round_trip_all_flags() {
    let p = AzukiPack { ver: 255, seq: u32::MAX, opt: flags(FLAG_MASK), dat: vec![42] };
    let q = AzukiPack::unpack(&p.pack()).expect("encoding must decode");
    assert_eq!(q, p);
}

#[test]
fn exact_wire_bytes() {
    // version 2, sequence 0x04030201, flags SYN|ACK, payload [0xAA, 0xBB]:
    // every multi-byte field little-endian, payload length prefixed as u64.
    let p = AzukiPack {
        ver: 2,
        seq: 0x04030201,
        opt: flags(FLAG_SYN | FLAG_ACK),
        dat: vec![0xAA, 0xBB],
    };
    let expected: Vec<u8> = vec![
        2, // version
        0x01, 0x02, 0x03, 0x04, // sequence
        0x03, 0x00, // flags
        2, 0, 0, 0, 0, 0, 0, 0, // payload length
        0xAA, 0xBB, // payload
    ];
    assert_eq!(p.pack(), expected);
}

#[test]
fn truncated_buffer_is_rejected() {
    for n in 0..HEADER_LEN {
        let buf = vec![0u8; n];
        assert_eq!(AzukiPack::unpack(&buf), Err(CorruptPacket::Truncated));
    }
}

#[test]
fn truncated_encoding_is_rejected() {
    let p = AzukiPack { ver: 1, seq: 7, opt: flags(FLAG_SYN), dat: vec![] };
    let bytes = p.pack();
    assert_eq!(
        AzukiPack::unpack(&bytes[..HEADER_LEN - 1]),
        Err(CorruptPacket::Truncated)
    );
}

#[test]
fn reserved_flag_bits_are_rejected() {
    let mut bytes = AzukiPack { ver: 1, seq: 0, opt: AzukiFlags::empty(), dat: vec![] }.pack();
    bytes[5] = 0x20; // a reserved bit in the flag word
    assert_eq!(AzukiPack::unpack(&bytes), Err(CorruptPacket::InvalidFlags));
}

#[test]
fn overlong_payload_length_is_rejected() {
    let mut bytes = AzukiPack { ver: 1, seq: 0, opt: AzukiFlags::empty(), dat: vec![9, 9] }.pack();
    bytes[7] = 3; // states one byte more of payload than the buffer holds
    assert_eq!(AzukiPack::unpack(&bytes), Err(CorruptPacket::PayloadOverrun));
}

#[test]
fn trailing_bytes_are_ignored() {
    let p = AzukiPack { ver: 1, seq: 5, opt: flags(FLAG_SEG), dat: vec![7] };
    let mut bytes = p.pack();
    bytes.push(99);
    let q = AzukiPack::unpack(&bytes).expect("stated payload still decodes");
    assert_eq!(q, p);
}

#[test]
fn flag_set_operations() {
    assert_eq!(AzukiFlags::empty().bits(), 0);
    assert!(AzukiFlags::from_bits(0x0040).is_none());
    assert!(AzukiFlags::from_bits(0x0100).is_none());
    let syn = flags(FLAG_SYN);
    let synack = syn.union(flags(FLAG_ACK));
    assert_eq!(synack.bits(), FLAG_SYN | FLAG_ACK);
    assert!(synack.contains(syn));
    assert!(synack.contains(flags(FLAG_ACK)));
    assert!(!syn.contains(flags(FLAG_ACK)));
}
