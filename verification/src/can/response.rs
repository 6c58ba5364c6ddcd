//! The 8-byte response header, the OK/error acknowledgment of every command.

use vstd::prelude::*;

use super::le::{le_u32, lemma_le_u32_round_trip, read_le_u32, u32_le_bytes, write_le_u32};
use super::{STATUS_ERROR, STATUS_OK};

verus! {

/// The 8-byte response header, and the OK/error ACK of every command.
#[derive(Debug, Clone, Copy, PartialEq, Eq, Structural)]
pub struct Response {
    /// Command being answered (byte 1, the echo; byte 0 is `0x80 | cmd`).
    pub cmd: u8,
    /// [`STATUS_OK`] or [`STATUS_ERROR`].
    pub status: u8,
    /// Detail code from `err`, `0` when [`STATUS_OK`].
    pub err: u8,
    /// Next expected image offset; also reused as the payload length of a
    /// multi-frame `GET_INFO` response.
    pub next_offset: u32,
}

/// The wire bytes of a response header: `0x80 | cmd`, the `cmd` echo,
/// `status`, `err`, then `next_offset` little-endian.
pub open spec fn response_bytes(r: Response) -> Seq<u8> {
    seq![0x80u8 | r.cmd, r.cmd, r.status, r.err] + u32_le_bytes(r.next_offset)
}

/// The header a received frame carries: exactly 8 bytes, whose first byte
/// has the response bit (`0x80`) set; that byte is otherwise not read.
pub open spec fn response_from_bytes(data: Seq<u8>) -> Option<Response> {
    if data.len() == 8 && data[0] >= 0x80 {
        Some(
            Response {
                cmd: data[1],
                status: data[2],
                err: data[3],
                next_offset: le_u32(data.subrange(4, 8)),
            },
        )
    } else {
        None
    }
}

impl Response {
    /// Frame size of a response header.
    pub const LEN: usize = 8;

    /// A successful response for `cmd`.
    pub fn ok(cmd: u8, next_offset: u32) -> (r: Self)
        ensures
            r == (Response { cmd, status: STATUS_OK, err: 0, next_offset }),
    {
        Self { cmd, status: STATUS_OK, err: 0, next_offset }
    }

    /// A failed response for `cmd` with an `err` detail code.
    pub fn failure(cmd: u8, err: u8, next_offset: u32) -> (r: Self)
        ensures
            r == (Response { cmd, status: STATUS_ERROR, err, next_offset }),
    {
        Self { cmd, status: STATUS_ERROR, err, next_offset }
    }

    /// Serialises the header for transmission on the control sub-channel.
    pub fn encode(&self) -> (bytes: [u8; 8])
        ensures
            bytes@ == response_bytes(*self),
    {
        let offset = write_le_u32(self.next_offset);
        let bytes: [u8; 8] = [
            0x80 | self.cmd,
            self.cmd,
            self.status,
            self.err,
            offset[0],
            offset[1],
            offset[2],
            offset[3],
        ];
        assert(bytes@ =~= response_bytes(*self));
        bytes
    }

    /// Parses a received response header.
    pub fn decode(data: &[u8]) -> (r: Option<Self>)
        ensures
            r == response_from_bytes(data@),
    {
        if data.len() != Self::LEN {
            return None;
        }
        let first: u8 = data[0];
        assert((first & 0x80 == 0) == (first < 0x80)) by (bit_vector);
        if first & 0x80 == 0 {
            return None;
        }
        Some(
            Self {
                cmd: data[1],
                status: data[2],
                err: data[3],
                next_offset: read_le_u32(data, 4),
            },
        )
    }
}

/// Decoding an encoded header gives back the header.
pub proof fn lemma_response_round_trip(r: Response)
    ensures
        response_from_bytes(response_bytes(r)) == Some(r),
{
    let c = r.cmd;
    assert((0x80u8 | c) >= 0x80) by (bit_vector);
    lemma_le_u32_round_trip(r.next_offset, seq![]);
    assert(response_bytes(r).subrange(4, 8) =~= u32_le_bytes(r.next_offset));
}

/// A decoded header encodes back to the received frame, except for byte 0,
/// which the decoder only checks for the response bit and the encoder
/// rebuilds as `0x80 | cmd`.
pub proof fn lemma_response_decode_encode(data: Seq<u8>, r: Response)
    requires
        response_from_bytes(data) == Some(r),
    ensures
        response_bytes(r).subrange(1, 8) == data.subrange(1, 8),
        response_bytes(r)[0] == 0x80u8 | data[1],
{
    lemma_le_u32_round_trip(0, data.subrange(4, 8));
    assert(response_bytes(r).subrange(1, 8) =~= data.subrange(1, 8));
}


/// The wire layout of a response header: the response opcode `0x80 | cmd`,
/// the `cmd` echo, `status`, `err`, then `next_offset` as a little-endian
/// `u32`; and any 8-byte frame with the response bit set is read back by that
/// layout.
pub proof fn lemma_response_layout(r: Response, data: Seq<u8>)
    ensures
        response_bytes(r).len() == 8,
        response_bytes(r)[0] == 0x80u8 | r.cmd,
        response_bytes(r)[1] == r.cmd,
        response_bytes(r)[2] == r.status,
        response_bytes(r)[3] == r.err,
        r.next_offset == response_bytes(r)[4] + response_bytes(r)[5] * 0x100 + response_bytes(r)[6]
            * 0x1_0000 + response_bytes(r)[7] * 0x100_0000,
        data.len() == 8 && data[0] >= 0x80 ==> response_from_bytes(data) == Some(
            Response {
                cmd: data[1],
                status: data[2],
                err: data[3],
                next_offset: (data[4] + data[5] * 0x100 + data[6] * 0x1_0000 + data[7]
                    * 0x100_0000) as u32,
            },
        ),
{
    lemma_le_u32_round_trip(r.next_offset, seq![]);
}

} // verus!
