use vstd::prelude::*;

verus! {

/// Per-packet metadata, stored as four bytes in front of each frame body.
///
/// Layout: `[rssi, pipe, length, pid_no_ack]`. Bytes 2 and 3 are read by the
/// radio's DMA engine directly and must never move.
#[derive(Clone, Copy, Debug, PartialEq, Eq, Structural)]
pub struct PayloadHeader {
    pub rssi: u8,
    pub pipe: u8,
    pub length: u8,
    pub pid_no_ack: u8,
}

/// Size in bytes of an encoded header.
pub const HEADER_SIZE: usize = 4;

/// The four bytes that encode `h`.
pub open spec fn encode(h: PayloadHeader) -> Seq<u8> {
    seq![h.rssi, h.pipe, h.length, h.pid_no_ack]
}

/// The header read from the first four bytes of `b`.
pub open spec fn decode(b: Seq<u8>) -> PayloadHeader
    recommends
        b.len() >= 4,
{
    PayloadHeader { rssi: b[0], pipe: b[1], length: b[2], pid_no_ack: b[3] }
}

/// Decoding an encoded header gives the header back.
pub proof fn lemma_round_trip(h: PayloadHeader)
    ensures
        decode(encode(h)) == h,
{
}

/// Encoding the header decoded from four bytes gives the bytes back.
pub proof fn lemma_encode_decode(b: Seq<u8>)
    requires
        b.len() == 4,
    ensures
        encode(decode(b)) == b,
{
    assert(encode(decode(b)) =~= b);
}

impl PayloadHeader {
    /// Builds a header from its four fields.
    pub fn new(rssi: u8, pipe: u8, length: u8, pid_no_ack: u8) -> (r: PayloadHeader)
        ensures
            r == (PayloadHeader { rssi, pipe, length, pid_no_ack }),
    {
        PayloadHeader { rssi, pipe, length, pid_no_ack }
    }

    /// Encodes the header in its fixed byte layout.
    pub fn to_bytes(self) -> (r: [u8; 4])
        ensures
            r@ == encode(self),
            decode(r@) == self,
    {
        let r = [self.rssi, self.pipe, self.length, self.pid_no_ack];
        assert(r@ =~= encode(self));
        r
    }

    /// Decodes a header; every four bytes decode to some header.
    pub fn from_bytes(bytes: &[u8; 4]) -> (r: PayloadHeader)
        ensures
            r == decode(bytes@),
            encode(r) == bytes@,
    {
        proof {
            lemma_encode_decode(bytes@);
        }
        PayloadHeader {
            rssi: bytes[Self::rssi_idx()],
            pipe: bytes[Self::pipe_idx()],
            length: bytes[Self::length_idx()],
            pid_no_ack: bytes[Self::pid_no_ack_idx()],
        }
    }

    /// Declared length of the body that follows the header.
    pub fn payload_len(&self) -> (r: usize)
        ensures
            r == self.length as usize,
    {
        self.length as usize
    }

    /// Position of the signal strength byte.
    pub fn rssi_idx() -> (r: usize)
        ensures
            r == 0,
    {
        0
    }

    /// Position of the pipe byte.
    pub fn pipe_idx() -> (r: usize)
        ensures
            r == 1,
    {
        1
    }

    /// Position of the length byte, fixed by the radio hardware.
    pub fn length_idx() -> (r: usize)
        ensures
            r == 2,
    {
        2
    }

    /// Position of the packet id / no-ack byte, fixed by the radio hardware.
    pub fn pid_no_ack_idx() -> (r: usize)
        ensures
            r == 3,
    {
        3
    }

    /// Size in bytes of an encoded header.
    pub fn header_size() -> (r: usize)
        ensures
            r == HEADER_SIZE,
    {
        HEADER_SIZE
    }

    /// Offset from the start of a frame at which the radio's DMA engine
    /// begins (the length byte).
    pub fn dma_payload_offset() -> (r: usize)
        ensures
            r == 2,
    {
        2
    }
}

} // verus!
