//! The `GET_INFO` payload: `protocol_version u8`, `state u8`, `uid[12]`,
//! `chip_id u32`, sent as data frames after the response header.

use vstd::prelude::*;

use super::le::{le_u32, lemma_le_u32_round_trip, read_le_u32, u32_le_bytes, write_le_u32};
use super::{FRAME_DATA_MAX, UID_LEN};

verus! {

/// Length of the `GET_INFO` payload. It does not fit in one classic CAN
/// frame, so it follows the response header as [`info_frame_count`] data
/// frames.
pub const INFO_LEN: usize = 18;

/// Number of data frames a `GET_INFO` payload is sent in: `INFO_LEN`
/// divided by the frame size, rounded up.
pub fn info_frame_count() -> (n: usize)
    ensures
        n * FRAME_DATA_MAX >= INFO_LEN,
        (n - 1) * FRAME_DATA_MAX < INFO_LEN,
{
    (INFO_LEN + FRAME_DATA_MAX - 1) / FRAME_DATA_MAX
}

/// The decoded `GET_INFO` payload.
#[derive(Debug, Clone, Copy, PartialEq, Eq)]
pub struct Info {
    /// Protocol version the node speaks.
    pub protocol_version: u8,
    /// One of the `state` codes.
    pub state: u8,
    /// Factory unique device ID.
    pub uid: [u8; UID_LEN],
    /// Chip ID.
    pub chip_id: u32,
}

/// The wire bytes of a `GET_INFO` payload.
pub open spec fn info_bytes(i: Info) -> Seq<u8> {
    seq![i.protocol_version, i.state] + i.uid@ + u32_le_bytes(i.chip_id)
}

impl Info {
    /// Serialises the payload for the data frames that follow the header.
    pub fn encode(&self) -> (out: [u8; INFO_LEN])
        ensures
            out@ == info_bytes(*self),
    {
        let u = self.uid;
        let c = write_le_u32(self.chip_id);
        let out: [u8; INFO_LEN] = [
            self.protocol_version,
            self.state,
            u[0],
            u[1],
            u[2],
            u[3],
            u[4],
            u[5],
            u[6],
            u[7],
            u[8],
            u[9],
            u[10],
            u[11],
            c[0],
            c[1],
            c[2],
            c[3],
        ];
        assert(out@ =~= info_bytes(*self));
        out
    }

    /// Parses a reassembled `GET_INFO` payload: succeeds exactly on
    /// [`INFO_LEN`] bytes, with the payload whose encoding they are.
    pub fn decode(data: &[u8]) -> (info: Option<Self>)
        ensures
            info is Some <==> data@.len() == INFO_LEN,
            info matches Some(i) ==> info_bytes(i) == data@,
    {
        if data.len() != INFO_LEN {
            return None;
        }
        let uid: [u8; UID_LEN] = [
            data[2],
            data[3],
            data[4],
            data[5],
            data[6],
            data[7],
            data[8],
            data[9],
            data[10],
            data[11],
            data[12],
            data[13],
        ];
        let chip_id: u32 = read_le_u32(data, 2 + UID_LEN);
        let info = Self { protocol_version: data[0], state: data[1], uid, chip_id };
        proof {
            lemma_le_u32_round_trip(0, data@.subrange(14, 18));
            assert(info_bytes(info) =~= data@);
        }
        Some(info)
    }
}

/// The payload encoding is one-to-one, so decoding an encoded payload gives
/// back the payload: a payload whose bytes are those of `i` is `i`.
pub proof fn lemma_info_round_trip(i: Info, j: Info)
    requires
        info_bytes(j) == info_bytes(i),
    ensures
        j == i,
{
    let bi = info_bytes(i);
    let bj = info_bytes(j);
    assert(bi[0] == i.protocol_version && bj[0] == j.protocol_version);
    assert(bi[1] == i.state && bj[1] == j.state);
    assert(i.uid@ =~= bi.subrange(2, 14));
    assert(j.uid@ =~= bj.subrange(2, 14));
    broadcast use vstd::array::axiom_array_ext_equal;
    assert(i.uid =~= j.uid);
    lemma_le_u32_round_trip(i.chip_id, seq![]);
    lemma_le_u32_round_trip(j.chip_id, seq![]);
    assert(u32_le_bytes(i.chip_id) =~= bi.subrange(14, 18));
    assert(u32_le_bytes(j.chip_id) =~= bj.subrange(14, 18));
}


/// The wire layout of a `GET_INFO` payload: protocol version, state, the 12
/// UID bytes in order, then the chip ID as a little-endian `u32`.
pub proof fn lemma_info_layout(i: Info)
    ensures
        info_bytes(i).len() == INFO_LEN,
        info_bytes(i)[0] == i.protocol_version,
        info_bytes(i)[1] == i.state,
        forall|k: int| 0 <= k < 12 ==> #[trigger] info_bytes(i)[2 + k] == i.uid@[k],
        i.chip_id == info_bytes(i)[14] + info_bytes(i)[15] * 0x100 + info_bytes(i)[16] * 0x1_0000
            + info_bytes(i)[17] * 0x100_0000,
{
    lemma_le_u32_round_trip(i.chip_id, seq![]);
}

} // verus!
