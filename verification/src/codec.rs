//! Decoding and re-serialization of the fixed-layout packet header.
//!
//! A packet is a flat byte stream with no per-field length prefixes: the
//! header fields sit at fixed offsets at the front, in a fixed order, and
//! everything from the message offset onwards is the message body. Multi-byte
//! integer fields are big-endian; the two 32-byte fields are raw byte copies.

use vstd::prelude::*;

verus! {

/// Minimum length a packet must have before any field is decoded. Shorter
/// inputs are rejected without reading a single byte.
pub const MINIMUM_PACKET_LENGTH: usize = 93;

/// Offset at which the message body starts. This is the upstream format's
/// header-minus-guid boundary, which counts a 32-byte sender field; header
/// decoding itself reads only four sender bytes, so this offset deliberately
/// differs from `HEADER_LENGTH`.
pub const MESSAGE_OFFSET: usize = 81;

/// Number of bytes a serialized `Header` occupies: the widths of the seven
/// fields as they are actually read (1 + 8 + 4 + 4 + 4 + 32 + 32).
pub const HEADER_LENGTH: usize = 85;

/// The fixed-width prefix of a packet, identifying its route.
pub struct Header {
    pub version: u8,
    pub nonce: u64,
    pub src_eid: u32,
    pub sender_addr: u32,
    pub dst_eid: u32,
    pub rcv_addr: Vec<u8>,
    pub guid: Vec<u8>,
}

/// Mathematical model of a `Header`: the same fields with the two 32-byte
/// values as byte sequences.
#[verifier::ext_equal]
pub ghost struct HeaderView {
    pub version: u8,
    pub nonce: u64,
    pub src_eid: u32,
    pub sender_addr: u32,
    pub dst_eid: u32,
    pub rcv_addr: Seq<u8>,
    pub guid: Seq<u8>,
}

impl View for Header {
    type V = HeaderView;

    open spec fn view(&self) -> HeaderView {
        HeaderView {
            version: self.version,
            nonce: self.nonce,
            src_eid: self.src_eid,
            sender_addr: self.sender_addr,
            dst_eid: self.dst_eid,
            rcv_addr: self.rcv_addr@,
            guid: self.guid@,
        }
    }
}

/// The big-endian 64-bit integer held by the eight bytes of `b` starting at `i`.
pub open spec fn spec_u64_be(b: Seq<u8>, i: int) -> u64
    recommends
        0 <= i,
        i + 8 <= b.len(),
{
    ((b[i] as u64) << 56) | ((b[i + 1] as u64) << 48) | ((b[i + 2] as u64) << 40)
        | ((b[i + 3] as u64) << 32) | ((b[i + 4] as u64) << 24) | ((b[i + 5] as u64) << 16)
        | ((b[i + 6] as u64) << 8) | (b[i + 7] as u64)
}

/// The big-endian 32-bit integer held by the four bytes of `b` starting at `i`.
pub open spec fn spec_u32_be(b: Seq<u8>, i: int) -> u32
    recommends
        0 <= i,
        i + 4 <= b.len(),
{
    ((b[i] as u32) << 24) | ((b[i + 1] as u32) << 16) | ((b[i + 2] as u32) << 8)
        | (b[i + 3] as u32)
}

/// The eight bytes of `n` in big-endian order.
pub open spec fn spec_u64_be_bytes(n: u64) -> Seq<u8> {
    seq![
        (n >> 56) as u8,
        (n >> 48) as u8,
        (n >> 40) as u8,
        (n >> 32) as u8,
        (n >> 24) as u8,
        (n >> 16) as u8,
        (n >> 8) as u8,
        n as u8,
    ]
}

/// The four bytes of `n` in big-endian order.
pub open spec fn spec_u32_be_bytes(n: u32) -> Seq<u8> {
    seq![(n >> 24) as u8, (n >> 16) as u8, (n >> 8) as u8, n as u8]
}

/// The header decoded from the front of `b`: fields in declaration order,
/// consumed left to right with no gaps or overlaps.
pub open spec fn spec_header_of(b: Seq<u8>) -> HeaderView
    recommends
        b.len() >= MINIMUM_PACKET_LENGTH,
{
    HeaderView {
        version: b[0],
        nonce: spec_u64_be(b, 1),
        src_eid: spec_u32_be(b, 9),
        sender_addr: spec_u32_be(b, 13),
        dst_eid: spec_u32_be(b, 17),
        rcv_addr: b.subrange(21, 53),
        guid: b.subrange(53, 85),
    }
}

/// What header decoding returns: the decoded header, or nothing when the
/// input is shorter than the minimum packet length.
pub open spec fn spec_extract_header(b: Seq<u8>) -> Option<HeaderView> {
    if b.len() < MINIMUM_PACKET_LENGTH {
        None
    } else {
        Some(spec_header_of(b))
    }
}

/// What message extraction returns: everything from the message offset
/// onwards, or nothing when the input is shorter than the minimum packet
/// length.
pub open spec fn spec_extract_message(b: Seq<u8>) -> Option<Seq<u8>> {
    if b.len() < MINIMUM_PACKET_LENGTH {
        None
    } else {
        Some(b.subrange(MESSAGE_OFFSET as int, b.len() as int))
    }
}

/// The exact byte layout a `Header` serializes to: all seven fields
/// concatenated with no padding.
pub open spec fn spec_header_bytes(h: HeaderView) -> Seq<u8> {
    seq![h.version] + spec_u64_be_bytes(h.nonce) + spec_u32_be_bytes(h.src_eid)
        + spec_u32_be_bytes(h.sender_addr) + spec_u32_be_bytes(h.dst_eid) + h.rcv_addr + h.guid
}

fn read_u64_be(b: &[u8], i: usize) -> (r: u64)
    requires
        i + 8 <= b@.len(),
    ensures
        r == spec_u64_be(b@, i as int),
{
    ((b[i] as u64) << 56) | ((b[i + 1] as u64) << 48) | ((b[i + 2] as u64) << 40)
        | ((b[i + 3] as u64) << 32) | ((b[i + 4] as u64) << 24) | ((b[i + 5] as u64) << 16)
        | ((b[i + 6] as u64) << 8) | (b[i + 7] as u64)
}

fn read_u32_be(b: &[u8], i: usize) -> (r: u32)
    requires
        i + 4 <= b@.len(),
    ensures
        r == spec_u32_be(b@, i as int),
{
    ((b[i] as u32) << 24) | ((b[i + 1] as u32) << 16) | ((b[i + 2] as u32) << 8)
        | (b[i + 3] as u32)
}

fn copy_range(b: &[u8], from: usize, to: usize) -> (r: Vec<u8>)
    requires
        from <= to,
        to <= b@.len(),
    ensures
        r@ == b@.subrange(from as int, to as int),
{
    let mut r: Vec<u8> = Vec::new();
    let mut i: usize = from;
    proof {
        assert(r@ =~= b@.subrange(from as int, from as int));
    }
    while i < to
        invariant
            from <= i <= to,
            to <= b@.len(),
            r@ == b@.subrange(from as int, i as int),
        decreases to - i,
    {
        r.push(b[i]);
        proof {
            assert(r@ =~= b@.subrange(from as int, i as int + 1));
        }
        i = i + 1;
    }
    r
}

/// Decodes the header from the front of a raw packet. Returns nothing exactly
/// when the packet is shorter than the minimum packet length; no other
/// validation is performed.
pub fn extract_header(raw_packet: &[u8]) -> (r: Option<Header>)
    ensures
        r is Some <==> raw_packet@.len() >= MINIMUM_PACKET_LENGTH,
        r matches Some(h) ==> spec_extract_header(raw_packet@) == Some(h@),
        r is None ==> spec_extract_header(raw_packet@) is None,
{
    if raw_packet.len() < MINIMUM_PACKET_LENGTH {
        return None;
    }
    let h = Header {
        version: raw_packet[0],
        nonce: read_u64_be(raw_packet, 1),
        src_eid: read_u32_be(raw_packet, 9),
        sender_addr: read_u32_be(raw_packet, 13),
        dst_eid: read_u32_be(raw_packet, 17),
        rcv_addr: copy_range(raw_packet, 21, 53),
        guid: copy_range(raw_packet, 53, 85),
    };
    proof {
        assert(h@ =~= spec_header_of(raw_packet@));
    }
    Some(h)
}

/// Returns the message body of a raw packet: everything from the message
/// offset onwards. Returns nothing exactly when the packet is shorter than
/// the minimum packet length.
pub fn extract_message(raw_packet: &[u8]) -> (r: Option<Vec<u8>>)
    ensures
        r is Some <==> raw_packet@.len() >= MINIMUM_PACKET_LENGTH,
        r matches Some(m) ==> spec_extract_message(raw_packet@) == Some(m@),
        r is None ==> spec_extract_message(raw_packet@) is None,
{
    if raw_packet.len() < MINIMUM_PACKET_LENGTH {
        return None;
    }
    Some(copy_range(raw_packet, MESSAGE_OFFSET, raw_packet.len()))
}

fn push_u64_be(out: &mut Vec<u8>, n: u64)
    ensures
        final(out)@ == old(out)@ + spec_u64_be_bytes(n),
{
    out.push(#[verifier::truncate] ((n >> 56) as u8));
    out.push(#[verifier::truncate] ((n >> 48) as u8));
    out.push(#[verifier::truncate] ((n >> 40) as u8));
    out.push(#[verifier::truncate] ((n >> 32) as u8));
    out.push(#[verifier::truncate] ((n >> 24) as u8));
    out.push(#[verifier::truncate] ((n >> 16) as u8));
    out.push(#[verifier::truncate] ((n >> 8) as u8));
    out.push(#[verifier::truncate] (n as u8));
    proof {
        assert(out@ =~= old(out)@ + spec_u64_be_bytes(n));
    }
}

fn push_u32_be(out: &mut Vec<u8>, n: u32)
    ensures
        final(out)@ == old(out)@ + spec_u32_be_bytes(n),
{
    out.push(#[verifier::truncate] ((n >> 24) as u8));
    out.push(#[verifier::truncate] ((n >> 16) as u8));
    out.push(#[verifier::truncate] ((n >> 8) as u8));
    out.push(#[verifier::truncate] (n as u8));
    proof {
        assert(out@ =~= old(out)@ + spec_u32_be_bytes(n));
    }
}

fn push_all(out: &mut Vec<u8>, bytes: &Vec<u8>)
    ensures
        final(out)@ == old(out)@ + bytes@,
{
    let mut i: usize = 0;
    proof {
        assert(out@ =~= old(out)@ + bytes@.subrange(0, 0));
    }
    while i < bytes.len()
        invariant
            i <= bytes.len(),
            out@ == old(out)@ + bytes@.subrange(0, i as int),
        decreases bytes.len() - i,
    {
        out.push(bytes[i]);
        proof {
            assert(out@ =~= old(out)@ + bytes@.subrange(0, i as int + 1));
        }
        i = i + 1;
    }
    proof {
        assert(bytes@.subrange(0, bytes.len() as int) =~= bytes@);
    }
}

impl Header {
    /// Serializes the header back to its exact byte layout: all seven fields
    /// concatenated with no padding, in decoding order.
    pub fn to_slice(&self) -> (r: Vec<u8>)
        ensures
            r@ == spec_header_bytes(self@),
    {
        let mut out: Vec<u8> = Vec::new();
        out.push(self.version);
        push_u64_be(&mut out, self.nonce);
        push_u32_be(&mut out, self.src_eid);
        push_u32_be(&mut out, self.sender_addr);
        push_u32_be(&mut out, self.dst_eid);
        push_all(&mut out, &self.rcv_addr);
        push_all(&mut out, &self.guid);
        proof {
            assert(out@ =~= spec_header_bytes(self@));
        }
        out
    }
}

proof fn lemma_u64_be_round_trip(b: Seq<u8>, i: int)
    requires
        0 <= i,
        i + 8 <= b.len(),
    ensures
        spec_u64_be_bytes(spec_u64_be(b, i)) == b.subrange(i, i + 8),
{
    let n = spec_u64_be(b, i);
    let b0 = b[i];
    let b1 = b[i + 1];
    let b2 = b[i + 2];
    let b3 = b[i + 3];
    let b4 = b[i + 4];
    let b5 = b[i + 5];
    let b6 = b[i + 6];
    let b7 = b[i + 7];
    assert((n >> 56) as u8 == b0 && (n >> 48) as u8 == b1 && (n >> 40) as u8 == b2 && (n >> 32)
        as u8 == b3 && (n >> 24) as u8 == b4 && (n >> 16) as u8 == b5 && (n >> 8) as u8 == b6 && n
        as u8 == b7) by (bit_vector)
        requires
            n == ((b0 as u64) << 56) | ((b1 as u64) << 48) | ((b2 as u64) << 40) | ((b3 as u64)
                << 32) | ((b4 as u64) << 24) | ((b5 as u64) << 16) | ((b6 as u64) << 8) | (b7
                as u64),
    ;
    assert(spec_u64_be_bytes(n) =~= b.subrange(i, i + 8));
}

proof fn lemma_u32_be_round_trip(b: Seq<u8>, i: int)
    requires
        0 <= i,
        i + 4 <= b.len(),
    ensures
        spec_u32_be_bytes(spec_u32_be(b, i)) == b.subrange(i, i + 4),
{
    let n = spec_u32_be(b, i);
    let b0 = b[i];
    let b1 = b[i + 1];
    let b2 = b[i + 2];
    let b3 = b[i + 3];
    assert((n >> 24) as u8 == b0 && (n >> 16) as u8 == b1 && (n >> 8) as u8 == b2 && n as u8 == b3)
        by (bit_vector)
        requires
            n == ((b0 as u32) << 24) | ((b1 as u32) << 16) | ((b2 as u32) << 8) | (b3 as u32),
    ;
    assert(spec_u32_be_bytes(n) =~= b.subrange(i, i + 4));
}

/// Decoding then re-serializing round-trips the bytes: for any packet of at
/// least the minimum packet length, serializing the decoded header reproduces
/// the packet's first `HEADER_LENGTH` bytes exactly, so every field position
/// that decoding reads is written back byte for byte.
pub proof fn lemma_header_round_trip(b: Seq<u8>)
    requires
        b.len() >= MINIMUM_PACKET_LENGTH,
    ensures
        spec_header_bytes(spec_header_of(b)) == b.subrange(0, HEADER_LENGTH as int),
{
    lemma_u64_be_round_trip(b, 1);
    lemma_u32_be_round_trip(b, 9);
    lemma_u32_be_round_trip(b, 13);
    lemma_u32_be_round_trip(b, 17);
    assert(spec_header_bytes(spec_header_of(b)) =~= b.subrange(0, HEADER_LENGTH as int));
}

} // verus!
