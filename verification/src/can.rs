//! The wire protocol of the CAN-bus firmware update transport.
//!
//! A pure codec: the CAN ID layout, the control frame opcodes, the response
//! framing and the image CRC, but nothing about CAN controllers or flash.
//!
//! All identifiers are 11-bit classic CAN IDs:
//!
//! ```text
//!  bit:   10 9 | 8      2 | 1 0
//!         dir   | node id  | sub
//! ```
//!
//! `dir` is `0b10` for host-to-node requests and `0b11` for node-to-host
//! responses, `node` is the 7-bit node ID (`0` is the functional, broadcast
//! address) and `sub` distinguishes control frames (`0`) from image data
//! frames (`1`). The whole `0x000..0x3FF` range stays free for application
//! traffic.

use vstd::prelude::*;

pub mod cmd;
pub mod err;
pub mod state;

mod crc;
mod id;
mod info;
mod le;
mod request;
mod response;

pub use self::crc::{
    crc32, crc32_of, crc_bit, crc_bits, crc_byte, crc_feed, crc_feed_chunks, crc_init,
    lemma_crc32_affine, lemma_crc32_empty, lemma_crc32_residue, lemma_crc_feed_chunks, lemma_crc_feed_split,
    lemma_crc_incremental_matches_one_shot, Crc32,
};
pub use self::le::{le_u32, lemma_le_u32_round_trip, u32_le_bytes};
pub use self::request::{
    control_request, lemma_parse_begin_fields, lemma_parse_control_kind, lemma_parse_control_round_trip,
    lemma_parse_enter_update_fields, lemma_parse_finish_fields, lemma_parse_session_open_fields,
    parse_control, parsed_control, Request, RequestView,
};
pub use self::response::{
    lemma_response_decode_encode, lemma_response_layout, lemma_response_round_trip, response_bytes, response_from_bytes,
    Response,
};
pub use self::info::{
    info_bytes, info_frame_count, lemma_info_layout, lemma_info_round_trip, Info, INFO_LEN,
};
pub use self::id::{
    filter_accepts, filter_mask_word, filter_value, filter_words, id_is_request, id_is_response,
    id_node, id_sub, is_request, is_response, lemma_id_fields_round_trip, lemma_node_filters_accept,
    node_filters, node_of, req_id, request_id, resp_id, response_id, sub_of,
};

verus! {

/// Protocol version reported by `GET_INFO`.
pub const PROTOCOL_VERSION: u8 = 1;

/// The node ID the example firmware listens on.
///
/// [`FUNCTIONAL_NODE`] is 0, so node IDs start at 1.
pub const DEFAULT_NODE_ID: u8 = 1;

/// The functional (broadcast) node address: a frame sent here is meant for
/// every node on the bus.
pub const FUNCTIONAL_NODE: u8 = 0;

/// Length of the factory unique device ID.
pub const UID_LEN: usize = 12;

/// Number of UID bytes an `ENTER_UPDATE` request carries: the opcode plus
/// 7 bytes fill one classic CAN frame.
pub const UID_PREFIX_LEN: usize = 7;

/// Data bytes a classic CAN 2.0 frame can carry.
pub const FRAME_DATA_MAX: usize = 8;

/// Image bytes accepted per acknowledgment: one flash write chunk, i.e. 32
/// data frames per ACK (stop-and-wait).
pub const PAGE_BYTES: usize = 256;

/// Mid-session watchdog: a receiving node that has not seen any frame of its
/// session for this long drops the session.
pub const SESSION_TIMEOUT_MS: u32 = 5_000;

/// `dir` field of a host-to-node request.
const DIR_REQUEST: u16 = 0b10;

/// `dir` field of a node-to-host response.
const DIR_RESPONSE: u16 = 0b11;

/// Control sub-channel (`sub = 0`): command and response frames.
pub const SUB_CONTROL: u16 = 0;

/// Data sub-channel (`sub = 1`): raw image bytes, and the multi-frame payload
/// of [`cmd::GET_INFO`] responses.
pub const SUB_DATA: u16 = 1;

/// `status` field of a response header: anything but OK carries an [`err`]
/// detail code.
pub const STATUS_OK: u8 = 0x00;

/// See [`STATUS_OK`].
pub const STATUS_ERROR: u8 = 0x01;

} // verus!
