use vstd::prelude::*;

use crate::skima::FLAG_IDLE;

verus! {

/// Size in bytes of the segment header: five `u32` fields and four bytes of
/// padding, so that the buffers start 8-byte aligned on every target.
pub const HEADER_SIZE: usize = 24;

/// Byte offset of `buffer_size` in the header.
pub const OFFSET_BUFFER_SIZE: usize = 0;

/// Byte offset of the server-to-client flag in the header.
pub const OFFSET_FLAG_SERVER: usize = 4;

/// Byte offset of the client-to-server flag in the header.
pub const OFFSET_FLAG_CLIENT: usize = 8;

/// Byte offset of the server-to-client message length in the header.
pub const OFFSET_LEN_SERVER_TO_CLIENT: usize = 12;

/// Byte offset of the client-to-server message length in the header.
pub const OFFSET_LEN_CLIENT_TO_SERVER: usize = 16;

/// Size of the whole segment: the header and two buffers.
pub fn total_size(buffer_size: usize) -> (r: usize)
    requires
        HEADER_SIZE + 2 * buffer_size <= usize::MAX,
    ensures
        r == HEADER_SIZE + 2 * buffer_size,
{
    HEADER_SIZE + 2 * buffer_size
}

/// Where the server-to-client buffer starts: right after the header.
pub fn offset_to_server_to_client_buffer() -> (r: usize)
    ensures
        r == HEADER_SIZE,
{
    HEADER_SIZE
}

/// Where the client-to-server buffer starts: after the header and the
/// server-to-client buffer.
pub fn offset_to_client_to_server_buffer(buffer_size: usize) -> (r: usize)
    requires
        HEADER_SIZE + buffer_size <= usize::MAX,
    ensures
        r == HEADER_SIZE + buffer_size,
{
    HEADER_SIZE + buffer_size
}

/// The header fields, in the order in which they are laid out.
#[derive(Clone, Copy, Debug, PartialEq, Eq, Structural)]
pub struct SegmentHeader {
    pub buffer_size: u32,
    pub flag_server: u32,
    pub flag_client: u32,
    pub data_len_server_to_client: u32,
    pub data_len_client_to_server: u32,
}

/// The header of a fresh segment: both flags idle, both lengths zero.
pub fn new_header(buffer_size: u32) -> (r: SegmentHeader)
    ensures
        r == (SegmentHeader {
            buffer_size,
            flag_server: FLAG_IDLE,
            flag_client: FLAG_IDLE,
            data_len_server_to_client: 0,
            data_len_client_to_server: 0,
        }),
{
    SegmentHeader {
        buffer_size,
        flag_server: FLAG_IDLE,
        flag_client: FLAG_IDLE,
        data_len_server_to_client: 0,
        data_len_client_to_server: 0,
    }
}

/// The four little-endian bytes of `x`.
pub open spec fn le_bytes(x: u32) -> Seq<u8> {
    seq![
        (x & 0xff) as u8,
        ((x >> 8u32) & 0xff) as u8,
        ((x >> 16u32) & 0xff) as u8,
        ((x >> 24u32) & 0xff) as u8,
    ]
}

/// The number that four little-endian bytes stand for.
pub open spec fn le_value(b0: u8, b1: u8, b2: u8, b3: u8) -> u32 {
    (b0 as u32) | ((b1 as u32) << 8u32) | ((b2 as u32) << 16u32) | ((b3 as u32) << 24u32)
}

proof fn lemma_le_round_trip(x: u32)
    ensures
        le_value(le_bytes(x)[0], le_bytes(x)[1], le_bytes(x)[2], le_bytes(x)[3]) == x,
{
    let b0 = (x & 0xff) as u8;
    let b1 = ((x >> 8u32) & 0xff) as u8;
    let b2 = ((x >> 16u32) & 0xff) as u8;
    let b3 = ((x >> 24u32) & 0xff) as u8;
    assert((b0 as u32) | ((b1 as u32) << 8u32) | ((b2 as u32) << 16u32) | ((b3 as u32) << 24u32)
        == x) by (bit_vector)
        requires
            b0 == (x & 0xff) as u8,
            b1 == ((x >> 8u32) & 0xff) as u8,
            b2 == ((x >> 16u32) & 0xff) as u8,
            b3 == ((x >> 24u32) & 0xff) as u8,
    ;
}

impl SegmentHeader {
    /// The header's bytes as laid out at the start of the segment.
    pub open spec fn bytes(self) -> Seq<u8> {
        le_bytes(self.buffer_size) + le_bytes(self.flag_server) + le_bytes(self.flag_client)
            + le_bytes(self.data_len_server_to_client) + le_bytes(
            self.data_len_client_to_server,
        ) + seq![0u8, 0u8, 0u8, 0u8]
    }

    /// The header that the first `HEADER_SIZE` bytes of `b` hold.
    pub open spec fn parse(b: Seq<u8>) -> SegmentHeader {
        SegmentHeader {
            buffer_size: le_value(b[0], b[1], b[2], b[3]),
            flag_server: le_value(b[4], b[5], b[6], b[7]),
            flag_client: le_value(b[8], b[9], b[10], b[11]),
            data_len_server_to_client: le_value(b[12], b[13], b[14], b[15]),
            data_len_client_to_server: le_value(b[16], b[17], b[18], b[19]),
        }
    }
}

fn push_le(out: &mut Vec<u8>, x: u32)
    ensures
        final(out)@ == old(out)@ + le_bytes(x),
{
    out.push((x & 0xff) as u8);
    out.push(((x >> 8u32) & 0xff) as u8);
    out.push(((x >> 16u32) & 0xff) as u8);
    out.push(((x >> 24u32) & 0xff) as u8);
    assert(final(out)@ =~= old(out)@ + le_bytes(x));
}

fn read_le(b: &[u8], at: usize) -> (r: u32)
    requires
        at + 4 <= b@.len(),
    ensures
        r == le_value(b@[at as int], b@[at + 1], b@[at + 2], b@[at + 3]),
{
    (b[at] as u32) | ((b[at + 1] as u32) << 8u32) | ((b[at + 2] as u32) << 16u32) | ((b[at
        + 3] as u32) << 24u32)
}

impl SegmentHeader {
    /// The header's `HEADER_SIZE` bytes: each field little-endian, in order,
    /// then four zero bytes of padding.
    pub fn to_bytes(&self) -> (r: Vec<u8>)
        ensures
            r@ == self.bytes(),
            r@.len() == HEADER_SIZE,
    {
        let mut out: Vec<u8> = Vec::new();
        push_le(&mut out, self.buffer_size);
        push_le(&mut out, self.flag_server);
        push_le(&mut out, self.flag_client);
        push_le(&mut out, self.data_len_server_to_client);
        push_le(&mut out, self.data_len_client_to_server);
        out.push(0u8);
        out.push(0u8);
        out.push(0u8);
        out.push(0u8);
        assert(out@ =~= self.bytes());
        out
    }

    /// The header at the start of `b`; `None` where `b` is shorter than a
    /// header.
    pub fn from_bytes(b: &[u8]) -> (r: Option<SegmentHeader>)
        ensures
            r is None <==> b@.len() < HEADER_SIZE,
            r matches Some(h) ==> h == SegmentHeader::parse(b@),
    {
        if b.len() < HEADER_SIZE {
            None
        } else {
            Some(
                SegmentHeader {
                    buffer_size: read_le(b, OFFSET_BUFFER_SIZE),
                    flag_server: read_le(b, OFFSET_FLAG_SERVER),
                    flag_client: read_le(b, OFFSET_FLAG_CLIENT),
                    data_len_server_to_client: read_le(b, OFFSET_LEN_SERVER_TO_CLIENT),
                    data_len_client_to_server: read_le(b, OFFSET_LEN_CLIENT_TO_SERVER),
                },
            )
        }
    }
}

/// Reading back the bytes of a header gives the same header.
pub proof fn lemma_header_round_trip(h: SegmentHeader)
    ensures
        h.bytes().len() == HEADER_SIZE,
        SegmentHeader::parse(h.bytes()) == h,
{
    let b = h.bytes();
    lemma_le_round_trip(h.buffer_size);
    lemma_le_round_trip(h.flag_server);
    lemma_le_round_trip(h.flag_client);
    lemma_le_round_trip(h.data_len_server_to_client);
    lemma_le_round_trip(h.data_len_client_to_server);
    assert(b.subrange(0, 4) =~= le_bytes(h.buffer_size));
    assert(b.subrange(4, 8) =~= le_bytes(h.flag_server));
    assert(b.subrange(8, 12) =~= le_bytes(h.flag_client));
    assert(b.subrange(12, 16) =~= le_bytes(h.data_len_server_to_client));
    assert(b.subrange(16, 20) =~= le_bytes(h.data_len_client_to_server));
}

} // verus!
