//! Decoding of control frames (frames on the control sub-channel).

use vstd::prelude::*;

use super::cmd;
use super::le::{le_u32, lemma_le_u32_round_trip, read_le_u32, u32_le_bytes};
use super::UID_PREFIX_LEN;

verus! {

/// One decoded control frame.
#[derive(Debug, Clone, Copy, PartialEq, Eq)]
pub enum Request<'a> {
    /// [`cmd::PING`]
    Ping,
    /// [`cmd::ENTER_UPDATE`]: the first [`UID_PREFIX_LEN`] bytes of the target
    /// node's UID.
    EnterUpdate {
        /// The UID prefix from the frame payload.
        uid_prefix: &'a [u8],
    },
    /// [`cmd::SESSION_OPEN`]
    SessionOpen {
        /// Host-chosen session token, echoed back in the data frame that
        /// follows the OK header.
        nonce: u32,
    },
    /// [`cmd::SESSION_CLOSE`]
    SessionClose,
    /// [`cmd::GET_INFO`]
    GetInfo,
    /// [`cmd::BEGIN`]
    Begin {
        /// Image length in bytes.
        len: u32,
        /// CRC32 over exactly those bytes.
        crc32: u32,
    },
    /// [`cmd::ABORT`]
    Abort,
    /// [`cmd::FINISH`]
    Finish {
        /// Image length in bytes, must match `BEGIN`.
        len: u32,
        /// CRC32 over exactly those bytes, must match `BEGIN`.
        crc32: u32,
    },
    /// [`cmd::QUERY`]
    Query,
    /// An opcode this protocol version does not define, or a defined one with
    /// a payload of the wrong length.
    Unknown {
        /// The opcode byte.
        cmd: u8,
    },
}

/// The value of a [`Request`], with the UID prefix as a byte sequence.
pub enum RequestView {
    Ping,
    EnterUpdate { uid_prefix: Seq<u8> },
    SessionOpen { nonce: u32 },
    SessionClose,
    GetInfo,
    Begin { len: u32, crc32: u32 },
    Abort,
    Finish { len: u32, crc32: u32 },
    Query,
    Unknown { cmd: u8 },
}

impl<'a> View for Request<'a> {
    type V = RequestView;

    open spec fn view(&self) -> RequestView {
        match *self {
            Request::Ping => RequestView::Ping,
            Request::EnterUpdate { uid_prefix } => RequestView::EnterUpdate {
                uid_prefix: uid_prefix@,
            },
            Request::SessionOpen { nonce } => RequestView::SessionOpen { nonce },
            Request::SessionClose => RequestView::SessionClose,
            Request::GetInfo => RequestView::GetInfo,
            Request::Begin { len, crc32 } => RequestView::Begin { len, crc32 },
            Request::Abort => RequestView::Abort,
            Request::Finish { len, crc32 } => RequestView::Finish { len, crc32 },
            Request::Query => RequestView::Query,
            Request::Unknown { cmd } => RequestView::Unknown { cmd },
        }
    }
}

/// The request a non-empty control frame carries: byte 0 is the opcode, the
/// rest its payload. Every defined opcode needs its exact payload length
/// (none for `PING`) and is `Unknown` otherwise.
pub open spec fn control_request(data: Seq<u8>) -> RequestView
    recommends
        data.len() > 0,
{
    let op = data[0];
    let rest = data.drop_first();
    if op == cmd::PING && rest.len() == 0 {
        RequestView::Ping
    } else if op == cmd::ENTER_UPDATE && rest.len() == UID_PREFIX_LEN {
        RequestView::EnterUpdate { uid_prefix: rest }
    } else if op == cmd::SESSION_OPEN && rest.len() == 4 {
        RequestView::SessionOpen { nonce: le_u32(rest) }
    } else if op == cmd::SESSION_CLOSE && rest.len() == 0 {
        RequestView::SessionClose
    } else if op == cmd::GET_INFO && rest.len() == 0 {
        RequestView::GetInfo
    } else if op == cmd::BEGIN && rest.len() == 8 {
        RequestView::Begin { len: le_u32(rest), crc32: le_u32(rest.subrange(4, 8)) }
    } else if op == cmd::ABORT && rest.len() == 0 {
        RequestView::Abort
    } else if op == cmd::FINISH && rest.len() == 8 {
        RequestView::Finish { len: le_u32(rest), crc32: le_u32(rest.subrange(4, 8)) }
    } else if op == cmd::QUERY && rest.len() == 0 {
        RequestView::Query
    } else {
        RequestView::Unknown { cmd: op }
    }
}

/// A control frame decodes to nothing when it is empty, and to its request
/// otherwise.
pub open spec fn parsed_control(data: Seq<u8>) -> Option<RequestView> {
    if data.len() == 0 {
        None
    } else {
        Some(control_request(data))
    }
}

/// Decodes a control frame payload (a frame on the control sub-channel).
///
/// Returns `None` for an empty payload; opcodes with the wrong payload length
/// decode as [`Request::Unknown`] so the receiver can answer with an error
/// instead of silently ignoring a host that speaks a different version.
pub fn parse_control<'a>(data: &'a [u8]) -> (req: Option<Request<'a>>)
    ensures
        match req {
            None => parsed_control(data@) is None,
            Some(r) => parsed_control(data@) == Some(r@),
        },
{
    if data.len() == 0 {
        return None;
    }
    let opcode: u8 = data[0];
    let rest_len: usize = data.len() - 1;
    let ghost rest: Seq<u8> = data@.drop_first();
    assert(rest =~= data@.subrange(1, data@.len() as int));
    let req = if opcode == cmd::PING && rest_len == 0 {
        Request::Ping
    } else if opcode == cmd::ENTER_UPDATE && rest_len == UID_PREFIX_LEN {
        Request::EnterUpdate { uid_prefix: vstd::slice::slice_subrange(data, 1, data.len()) }
    } else if opcode == cmd::SESSION_OPEN && rest_len == 4 {
        assert(data@.subrange(1, 5) =~= rest);
        Request::SessionOpen { nonce: read_le_u32(data, 1) }
    } else if opcode == cmd::SESSION_CLOSE && rest_len == 0 {
        Request::SessionClose
    } else if opcode == cmd::GET_INFO && rest_len == 0 {
        Request::GetInfo
    } else if opcode == cmd::BEGIN && rest_len == 8 {
        assert(data@.subrange(1, 5) =~= rest.subrange(0, 4));
        assert(data@.subrange(5, 9) =~= rest.subrange(4, 8));
        Request::Begin { len: read_le_u32(data, 1), crc32: read_le_u32(data, 5) }
    } else if opcode == cmd::ABORT && rest_len == 0 {
        Request::Abort
    } else if opcode == cmd::FINISH && rest_len == 8 {
        assert(data@.subrange(1, 5) =~= rest.subrange(0, 4));
        assert(data@.subrange(5, 9) =~= rest.subrange(4, 8));
        Request::Finish { len: read_le_u32(data, 1), crc32: read_le_u32(data, 5) }
    } else if opcode == cmd::QUERY && rest_len == 0 {
        Request::Query
    } else {
        Request::Unknown { cmd: opcode }
    };
    Some(req)
}


/// The little-endian value of the four frame bytes at `at..at + 4`.
spec fn frame_u32(data: Seq<u8>, at: int) -> u32 {
    (data[at] + data[at + 1] * 0x100 + data[at + 2] * 0x1_0000 + data[at + 3] * 0x100_0000) as u32
}

/// A 9-byte `BEGIN` frame carries the image length in bytes 1..5 and the
/// image CRC32 in bytes 5..9, each a full little-endian `u32`.
pub proof fn lemma_parse_begin_fields(data: Seq<u8>)
    requires
        data.len() == 9,
        data[0] == cmd::BEGIN,
    ensures
        parsed_control(data) == Some(
            RequestView::Begin {
                len: (data[1] + data[2] * 0x100 + data[3] * 0x1_0000 + data[4] * 0x100_0000) as u32,
                crc32: (data[5] + data[6] * 0x100 + data[7] * 0x1_0000 + data[8] * 0x100_0000) as u32,
            },
        ),
{
    let rest = data.drop_first();
    assert(le_u32(rest) == frame_u32(data, 1));
    assert(le_u32(rest.subrange(4, 8)) == frame_u32(data, 5));
}

/// A 9-byte `FINISH` frame carries the image length in bytes 1..5 and the
/// image CRC32 in bytes 5..9, each a full little-endian `u32`.
pub proof fn lemma_parse_finish_fields(data: Seq<u8>)
    requires
        data.len() == 9,
        data[0] == cmd::FINISH,
    ensures
        parsed_control(data) == Some(
            RequestView::Finish {
                len: (data[1] + data[2] * 0x100 + data[3] * 0x1_0000 + data[4] * 0x100_0000) as u32,
                crc32: (data[5] + data[6] * 0x100 + data[7] * 0x1_0000 + data[8] * 0x100_0000) as u32,
            },
        ),
{
    let rest = data.drop_first();
    assert(le_u32(rest) == frame_u32(data, 1));
    assert(le_u32(rest.subrange(4, 8)) == frame_u32(data, 5));
}

/// A 5-byte `SESSION_OPEN` frame carries the nonce in bytes 1..5, a full
/// little-endian `u32`.
pub proof fn lemma_parse_session_open_fields(data: Seq<u8>)
    requires
        data.len() == 5,
        data[0] == cmd::SESSION_OPEN,
    ensures
        parsed_control(data) == Some(
            RequestView::SessionOpen {
                nonce: (data[1] + data[2] * 0x100 + data[3] * 0x1_0000 + data[4] * 0x100_0000) as u32,
            },
        ),
{
    let rest = data.drop_first();
    assert(le_u32(rest) == frame_u32(data, 1));
}

/// An 8-byte `ENTER_UPDATE` frame carries the UID prefix in bytes 1..8.
pub proof fn lemma_parse_enter_update_fields(data: Seq<u8>)
    requires
        data.len() == 8,
        data[0] == cmd::ENTER_UPDATE,
    ensures
        parsed_control(data) == Some(RequestView::EnterUpdate { uid_prefix: data.subrange(1, 8) }),
{
    assert(data.drop_first() =~= data.subrange(1, 8));
}

/// Every length and CRC a host sends in `BEGIN` or `FINISH`, and every nonce
/// it sends in `SESSION_OPEN`, encoded little-endian after the opcode, is
/// decoded back unchanged.
pub proof fn lemma_parse_control_round_trip(len: u32, crc: u32)
    ensures
        parsed_control(seq![cmd::BEGIN] + u32_le_bytes(len) + u32_le_bytes(crc)) == Some(
            RequestView::Begin { len, crc32: crc },
        ),
        parsed_control(seq![cmd::FINISH] + u32_le_bytes(len) + u32_le_bytes(crc)) == Some(
            RequestView::Finish { len, crc32: crc },
        ),
        parsed_control(seq![cmd::SESSION_OPEN] + u32_le_bytes(len)) == Some(
            RequestView::SessionOpen { nonce: len },
        ),
{
    lemma_le_u32_round_trip(len, seq![]);
    lemma_le_u32_round_trip(crc, seq![]);
    let lb = u32_le_bytes(len);
    let cb = u32_le_bytes(crc);
    let begin = seq![cmd::BEGIN] + lb + cb;
    let finish = seq![cmd::FINISH] + lb + cb;
    let open = seq![cmd::SESSION_OPEN] + lb;
    assert(begin.drop_first() =~= lb + cb);
    assert(finish.drop_first() =~= lb + cb);
    assert(open.drop_first() =~= lb);
    assert((lb + cb).subrange(4, 8) =~= cb);
    assert(le_u32(lb + cb) == le_u32(lb));
}


/// Which request a non-empty control frame decodes to is decided by its
/// opcode and its exact length alone: each defined opcode with its payload
/// length (none for `PING`, `SESSION_CLOSE`, `GET_INFO`, `ABORT`, `QUERY`;
/// 4 bytes for `SESSION_OPEN`, 7 for `ENTER_UPDATE`, 8 for `BEGIN` and
/// `FINISH`) gives its own request, and every other frame is `Unknown`,
/// echoing the opcode.
pub proof fn lemma_parse_control_kind(data: Seq<u8>)
    requires
        data.len() > 0,
    ensures
        (parsed_control(data) == Some(RequestView::Ping)) <==> (data.len() == 1 && data[0]
            == cmd::PING),
        (parsed_control(data) == Some(RequestView::SessionClose)) <==> (data.len() == 1 && data[0]
            == cmd::SESSION_CLOSE),
        (parsed_control(data) == Some(RequestView::GetInfo)) <==> (data.len() == 1 && data[0]
            == cmd::GET_INFO),
        (parsed_control(data) == Some(RequestView::Abort)) <==> (data.len() == 1 && data[0]
            == cmd::ABORT),
        (parsed_control(data) == Some(RequestView::Query)) <==> (data.len() == 1 && data[0]
            == cmd::QUERY),
        (parsed_control(data) matches Some(RequestView::SessionOpen { .. })) <==> (data.len() == 5
            && data[0] == cmd::SESSION_OPEN),
        (parsed_control(data) matches Some(RequestView::EnterUpdate { .. })) <==> (data.len() == 8
            && data[0] == cmd::ENTER_UPDATE),
        (parsed_control(data) matches Some(RequestView::Begin { .. })) <==> (data.len() == 9
            && data[0] == cmd::BEGIN),
        (parsed_control(data) matches Some(RequestView::Finish { .. })) <==> (data.len() == 9
            && data[0] == cmd::FINISH),
        parsed_control(data) matches Some(RequestView::Unknown { cmd }) ==> cmd == data[0],
{
}

} // verus!
