//! The packet codec: the on-wire packet structure and its binary
//! encode/decode.
//!
//! Canonical layout, all multi-byte fields little-endian:
//!
//! `[version: 1 byte][sequence: 4 bytes][flags: 2 bytes][payload length: 8 bytes][payload]`
//!
//! The fixed-field prefix is `HEADER_LEN` (15) bytes; the payload is
//! length-prefixed. Decoding rejects a buffer shorter than the prefix, a flag
//! word with a reserved bit set, and a payload length that exceeds the bytes
//! that remain; bytes after the stated payload are ignored. Encoding never
//! fails.

use vstd::prelude::*;
use vstd::bytes::lemma_auto_spec_u16_to_from_le_bytes;
use vstd::bytes::lemma_auto_spec_u32_to_from_le_bytes;
use vstd::bytes::lemma_auto_spec_u64_to_from_le_bytes;
use vstd::bytes::spec_u16_from_le_bytes;
use vstd::bytes::spec_u16_to_le_bytes;
use vstd::bytes::spec_u32_from_le_bytes;
use vstd::bytes::spec_u32_to_le_bytes;
use vstd::bytes::spec_u64_from_le_bytes;
use vstd::bytes::spec_u64_to_le_bytes;
use vstd::bytes::u16_from_le_bytes;
use vstd::bytes::u16_to_le_bytes;
use vstd::bytes::u32_from_le_bytes;
use vstd::bytes::u32_to_le_bytes;
use vstd::bytes::u64_from_le_bytes;
use vstd::bytes::u64_to_le_bytes;
use vstd::slice::slice_subrange;
use vstd::slice::slice_to_vec;
use crate::flags::flag_bits_wf;
use crate::flags::AzukiFlags;

verus! {

/// Length in bytes of the fixed-field prefix (version, sequence, flags,
/// payload length).
pub const HEADER_LEN: usize = 15;

/// The payload ceiling the system budgets for: a path-MTU-safe size for one
/// datagram. Referenced by the transport plumbing; not enforced by the codec.
pub const AZUKI_MTU: usize = 1240;

/// The abstract value of a packet: the four header fields and the payload as
/// a byte sequence.
#[verifier::ext_equal]
pub struct PackView {
    pub ver: u8,
    pub seq: u32,
    pub bits: u16,
    pub dat: Seq<u8>,
}

impl PackView {
    /// A valid packet value: its flag word has no reserved bit set and its
    /// payload length fits the 8-byte length field.
    pub open spec fn wf(self) -> bool {
        &&& flag_bits_wf(self.bits)
        &&& self.dat.len() <= u64::MAX
    }
}

/// The unit exchanged on the wire: version tag, sequence number, control
/// flags and an opaque payload.
#[derive(Debug)]
pub struct AzukiPack {
    pub ver: u8,
    pub seq: u32,
    pub opt: AzukiFlags,
    pub dat: Vec<u8>,
}

impl View for AzukiPack {
    type V = PackView;

    open spec fn view(&self) -> PackView {
        PackView { ver: self.ver, seq: self.seq, bits: self.opt@, dat: self.dat@ }
    }
}

/// Byte-for-byte comparison of two byte vectors.
fn bytes_eq(a: &Vec<u8>, b: &Vec<u8>) -> (r: bool)
    ensures
        r == (a@ == b@),
{
    if a.len() != b.len() {
        return false;
    }
    let mut i: usize = 0;
    while i < a.len()
        invariant
            a@.len() == b@.len(),
            i <= a@.len(),
            forall|j: int| 0 <= j < i ==> a@[j] == b@[j],
        decreases a@.len() - i,
    {
        if a[i] != b[i] {
            return false;
        }
        i = i + 1;
    }
    proof {
        assert(a@ =~= b@);
    }
    true
}

impl PartialEq for AzukiPack {
    fn eq(&self, other: &AzukiPack) -> (r: bool) {
        let r = self.ver == other.ver && self.seq == other.seq && self.opt == other.opt
            && bytes_eq(&self.dat, &other.dat);
        proof {
            if r {
                assert(self@ =~= other@);
            }
        }
        r
    }
}

impl vstd::std_specs::cmp::PartialEqSpecImpl for AzukiPack {
    open spec fn obeys_eq_spec() -> bool {
        true
    }

    open spec fn eq_spec(&self, other: &AzukiPack) -> bool {
        self@ == other@
    }
}

/// Decode failure: the byte sequence is not the encoding of any valid packet.
#[derive(Clone, Copy, PartialEq, Eq, Structural, Debug)]
pub enum CorruptPacket {
    /// Fewer bytes than the fixed-field prefix.
    Truncated,
    /// The flag word has a bit outside the declared flag set.
    InvalidFlags,
    /// The payload length prefix exceeds the bytes that remain.
    PayloadOverrun,
}

/// The encoding of a packet value.
pub open spec fn spec_encode(p: PackView) -> Seq<u8> {
    seq![p.ver] + spec_u32_to_le_bytes(p.seq) + spec_u16_to_le_bytes(p.bits)
        + spec_u64_to_le_bytes(p.dat.len() as u64) + p.dat
}

/// The payload length stated by a buffer's length field.
pub open spec fn spec_payload_len(b: Seq<u8>) -> u64
    recommends
        b.len() >= HEADER_LEN,
{
    spec_u64_from_le_bytes(b.subrange(7, 15))
}

/// The flag word carried by a buffer.
pub open spec fn spec_flag_word(b: Seq<u8>) -> u16
    recommends
        b.len() >= HEADER_LEN,
{
    spec_u16_from_le_bytes(b.subrange(5, 7))
}

/// A buffer decodes to a packet: it holds the full fixed prefix, its flag
/// word is well formed, and its stated payload fits in the bytes that remain.
pub open spec fn decode_ok(b: Seq<u8>) -> bool {
    &&& b.len() >= HEADER_LEN
    &&& flag_bits_wf(spec_flag_word(b))
    &&& spec_payload_len(b) + HEADER_LEN <= b.len()
}

/// The packet value a decodable buffer holds.
pub open spec fn spec_decode(b: Seq<u8>) -> PackView
    recommends
        decode_ok(b),
{
    PackView {
        ver: b[0],
        seq: spec_u32_from_le_bytes(b.subrange(1, 5)),
        bits: spec_flag_word(b),
        dat: b.subrange(HEADER_LEN as int, HEADER_LEN + spec_payload_len(b)),
    }
}

/// The error an undecodable buffer is rejected with: truncation is detected
/// first, then an invalid flag word, then a payload overrun.
pub open spec fn spec_decode_err(b: Seq<u8>) -> CorruptPacket
    recommends
        !decode_ok(b),
{
    if b.len() < HEADER_LEN {
        CorruptPacket::Truncated
    } else if !flag_bits_wf(spec_flag_word(b)) {
        CorruptPacket::InvalidFlags
    } else {
        CorruptPacket::PayloadOverrun
    }
}

impl AzukiPack {
    /// Encodes the packet into its canonical byte form. Never fails.
    pub fn pack(&self) -> (r: Vec<u8>)
        ensures
            r@ == spec_encode(self@),
            r@.len() == HEADER_LEN + self.dat@.len(),
    {
        let mut out: Vec<u8> = Vec::new();
        out.push(self.ver);
        let mut seq_bytes = u32_to_le_bytes(self.seq);
        out.append(&mut seq_bytes);
        let mut flag_bytes = u16_to_le_bytes(self.opt.bits());
        out.append(&mut flag_bytes);
        let mut len_bytes = u64_to_le_bytes(self.dat.len() as u64);
        out.append(&mut len_bytes);
        let ghost prefix = out@;
        let mut i: usize = 0;
        while i < self.dat.len()
            invariant
                i <= self.dat@.len(),
                out@ == prefix + self.dat@.subrange(0, i as int),
            decreases self.dat@.len() - i,
        {
            out.push(self.dat[i]);
            proof {
                assert(prefix + self.dat@.subrange(0, i as int) + seq![self.dat@[i as int]]
                    =~= prefix + self.dat@.subrange(0, i + 1));
            }
            i = i + 1;
        }
        proof {
            assert(self.dat@.subrange(0, self.dat@.len() as int) =~= self.dat@);
            assert(out@ =~= spec_encode(self@));
        }
        out
    }

    /// Decodes a buffer into a packet. Returns `Ok` exactly when the buffer
    /// is the encoding of a valid packet (trailing bytes after the stated
    /// payload ignored), and the precise corruption reason otherwise.
    pub fn unpack(msg: &[u8]) -> (r: Result<AzukiPack, CorruptPacket>)
        ensures
            r is Ok <==> decode_ok(msg@),
            r matches Ok(p) ==> p@ == spec_decode(msg@) && p@.wf(),
            r matches Err(e) ==> e == spec_decode_err(msg@),
    {
        if msg.len() < HEADER_LEN {
            return Err(CorruptPacket::Truncated);
        }
        let ver = *vstd::slice::slice_index_get(msg, 0);
        let seq = u32_from_le_bytes(slice_subrange(msg, 1, 5));
        let word = u16_from_le_bytes(slice_subrange(msg, 5, 7));
        let opt = match AzukiFlags::from_bits(word) {
            Some(f) => f,
            None => {
                return Err(CorruptPacket::InvalidFlags);
            },
        };
        let stated = u64_from_le_bytes(slice_subrange(msg, 7, HEADER_LEN));
        if stated > (msg.len() - HEADER_LEN) as u64 {
            return Err(CorruptPacket::PayloadOverrun);
        }
        let len = stated as usize;
        let dat = slice_to_vec(slice_subrange(msg, HEADER_LEN, HEADER_LEN + len));
        let p = AzukiPack { ver, seq, opt, dat };
        proof {
            assert(p@ =~= spec_decode(msg@));
        }
        Ok(p)
    }
}

/// Rejection: a buffer shorter than the fixed-field prefix never decodes;
/// it is reported as truncated.
pub proof fn lemma_truncated_rejected(b: Seq<u8>)
    requires
        b.len() < HEADER_LEN,
    ensures
        !decode_ok(b),
        spec_decode_err(b) == CorruptPacket::Truncated,
{
}

/// Round trip: decoding the encoding of any valid packet value yields that
/// value again.
pub proof fn lemma_pack_unpack(p: PackView)
    requires
        p.wf(),
    ensures
        decode_ok(spec_encode(p)),
        spec_decode(spec_encode(p)) == p,
{
    lemma_auto_spec_u16_to_from_le_bytes();
    lemma_auto_spec_u32_to_from_le_bytes();
    lemma_auto_spec_u64_to_from_le_bytes();
    let b = spec_encode(p);
    assert(b.subrange(1, 5) =~= spec_u32_to_le_bytes(p.seq));
    assert(b.subrange(5, 7) =~= spec_u16_to_le_bytes(p.bits));
    assert(b.subrange(7, 15) =~= spec_u64_to_le_bytes(p.dat.len() as u64));
    assert(b.subrange(HEADER_LEN as int, HEADER_LEN + p.dat.len()) =~= p.dat);
    assert(spec_decode(b) =~= p);
}

} // verus!
