//! CAN ID layout and the receive filter words that select a node's traffic.

use vstd::prelude::*;

use super::{DIR_REQUEST, DIR_RESPONSE, FUNCTIONAL_NODE, SUB_CONTROL};

verus! {

/// The request ID of `node` (only its low 7 bits count) on sub-channel `sub`
/// (only its low 2 bits count): `0x400 + node * 4 + sub`.
pub open spec fn request_id(node: u8, sub: u16) -> u16 {
    (0x400 + (node % 128) * 4 + sub % 4) as u16
}

/// The response ID of `node` on sub-channel `sub`: `0x600 + node * 4 + sub`.
pub open spec fn response_id(node: u8, sub: u16) -> u16 {
    (0x600 + (node % 128) * 4 + sub % 4) as u16
}

/// An ID of the host-to-node request range `0x400..0x600`.
pub open spec fn id_is_request(id: u16) -> bool {
    0x400 <= id < 0x600
}

/// An ID of the node-to-host response range `0x600..0x800`.
pub open spec fn id_is_response(id: u16) -> bool {
    0x600 <= id < 0x800
}

/// The node field (bits 8..2) of an ID.
pub open spec fn id_node(id: u16) -> u8 {
    ((id / 4) % 128) as u8
}

/// The sub-channel field (bits 1..0) of an ID.
pub open spec fn id_sub(id: u16) -> u16 {
    id % 4
}

/// Request CAN ID for `node` (`FUNCTIONAL_NODE` broadcasts) and `sub`.
pub fn req_id(node: u8, sub: u16) -> (id: u16)
    ensures
        id == request_id(node, sub),
{
    let n: u16 = node as u16;
    let id: u16 = (DIR_REQUEST << 9) | ((n & 0x7F) << 2) | (sub & 0b11);
    assert(id == 0x400 + (n % 128) * 4 + sub % 4) by (bit_vector)
        requires
            id == ((2u16 << 9) | ((n & 0x7F) << 2) | (sub & 0b11)),
            n < 256,
    ;
    id
}

/// Response CAN ID for `node` and `sub`.
pub fn resp_id(node: u8, sub: u16) -> (id: u16)
    ensures
        id == response_id(node, sub),
{
    let n: u16 = node as u16;
    let id: u16 = (DIR_RESPONSE << 9) | ((n & 0x7F) << 2) | (sub & 0b11);
    assert(id == 0x600 + (n % 128) * 4 + sub % 4) by (bit_vector)
        requires
            id == ((3u16 << 9) | ((n & 0x7F) << 2) | (sub & 0b11)),
            n < 256,
    ;
    id
}

/// `true` for the `0x400..0x5FF` host-to-node request range.
pub fn is_request(id: u16) -> (b: bool)
    ensures
        b == id_is_request(id),
{
    let b = (id >> 9) == DIR_REQUEST;
    assert(b == (0x400 <= id && id < 0x600)) by (bit_vector)
        requires
            b == ((id >> 9) == 2u16),
    ;
    b
}

/// `true` for the `0x600..0x7FF` node-to-host response range.
pub fn is_response(id: u16) -> (b: bool)
    ensures
        b == id_is_response(id),
{
    let b = (id >> 9) == DIR_RESPONSE;
    assert(b == (0x600 <= id && id < 0x800)) by (bit_vector)
        requires
            b == ((id >> 9) == 3u16),
    ;
    b
}

/// The node the frame is addressed to/from; [`FUNCTIONAL_NODE`] means
/// broadcast (requests only).
pub fn node_of(id: u16) -> (node: u8)
    ensures
        node == id_node(id),
{
    let field: u16 = (id >> 2) & 0x7F;
    assert(field == (id / 4) % 128) by (bit_vector)
        requires
            field == ((id >> 2) & 0x7F),
    ;
    field as u8
}

/// The sub-channel of the frame, [`SUB_CONTROL`] or `SUB_DATA`.
pub fn sub_of(id: u16) -> (sub: u16)
    ensures
        sub == id_sub(id),
{
    let sub: u16 = id & 0b11;
    assert(sub == id % 4) by (bit_vector)
        requires
            sub == (id & 0b11),
    ;
    sub
}

/// A node ID and a sub-channel survive the trip through a request or a
/// response ID, as far as the 7-bit node field and the 2-bit sub field hold
/// them (so entirely for `node < 128` and `sub < 4`): the ID names the node
/// and the sub-channel it was built from, lies in the range of its direction
/// and not in the other one (so never in the `0x000..0x400` range left to the
/// application), and the response ID is the request ID mirrored `0x200`
/// higher.
pub proof fn lemma_id_fields_round_trip(node: u8, sub: u16)
    ensures
        id_node(request_id(node, sub)) == node % 128,
        id_sub(request_id(node, sub)) == sub % 4,
        id_is_request(request_id(node, sub)),
        !id_is_response(request_id(node, sub)),
        id_node(response_id(node, sub)) == node % 128,
        id_sub(response_id(node, sub)) == sub % 4,
        id_is_response(response_id(node, sub)),
        !id_is_request(response_id(node, sub)),
        response_id(node, sub) == request_id(node, sub) + 0x200,
{
    let q: int = (node % 128) as int * 4 + (sub % 4) as int;
    assert((0x400 + q) / 4 == 0x100 + node % 128);
    assert((0x600 + q) / 4 == 0x180 + node % 128);
}

/// Register word of the ID part of a 32-bit mask mode filter entry: the
/// 11-bit standard ID in bits 31..21, with IDE (bit 2) and RTR (bit 1) zero.
pub open spec fn filter_value(code: u16) -> u32 {
    ((code % 2048) * 0x20_0000) as u32
}

/// Register word of the mask part of a filter entry: the 11-bit ID mask in
/// bits 31..21, plus bits 2 and 1 so that only standard data frames match.
pub open spec fn filter_mask_word(mask: u16) -> u32 {
    ((mask % 2048) * 0x20_0000 + 0b110) as u32
}

/// A mask mode filter entry `words = (value, mask)` lets a standard data
/// frame with ID `rx` through: the frame's register word agrees with the
/// entry's value on every bit the mask selects.
pub open spec fn filter_accepts(words: (u32, u32), rx: u16) -> bool {
    (filter_value(rx) & words.1) == (words.0 & words.1)
}

/// Raw register words `(id_value, id_mask)` for a 32-bit mask mode bxCAN
/// filter entry matching `code` under `mask`.
///
/// The register layout is `STID[31:21]:EXID[20:3]:IDE(2):RTR(1)`. Bits 1 and
/// 2 of the mask are set so that only standard (non-extended), non-remote
/// frames match: the protocol never uses either.
pub fn filter_words(code: u16, mask: u16) -> (words: (u32, u32))
    ensures
        words == (filter_value(code), filter_mask_word(mask)),
{
    let shift: u32 = 21;
    let c: u32 = code as u32;
    let m: u32 = mask as u32;
    let value: u32 = (c & 0x7FF) << shift;
    let mask_word: u32 = ((m & 0x7FF) << shift) | 0b110;
    assert(value == (c % 2048) * 0x20_0000 && mask_word == (m % 2048) * 0x20_0000 + 0b110)
        by (bit_vector)
        requires
            value == ((c & 0x7FF) << 21u32),
            mask_word == (((m & 0x7FF) << 21u32) | 0b110),
            c < 0x10000,
            m < 0x10000,
    ;
    (value, mask_word)
}

/// The two filter entries a node needs: its own request IDs (any
/// sub-channel) and the functional broadcast ID.
///
/// Returns `((code, mask), (code, mask))`.
pub fn node_filters(node: u8) -> (filters: ((u16, u16), (u16, u16)))
    ensures
        filters == ((request_id(node, 0), 0x7FCu16), (request_id(0, 0), 0x7FFu16)),
{
    ((req_id(node, SUB_CONTROL), 0x7FC), (req_id(FUNCTIONAL_NODE, SUB_CONTROL), 0x7FF))
}

/// The filters of [`node_filters`] select exactly a node's traffic: the own
/// entry lets an 11-bit ID through if and only if it is a request to that
/// node, on any sub-channel; the functional entry lets through only the
/// functional control request `0x400`.
pub proof fn lemma_node_filters_accept(node: u8, rx: u16)
    requires
        node < 128,
        rx < 0x800,
    ensures
        filter_accepts(
            (filter_value(request_id(node, 0)), filter_mask_word(0x7FC)),
            rx,
        ) <==> (id_is_request(rx) && id_node(rx) == node),
        filter_accepts((filter_value(request_id(0, 0)), filter_mask_word(0x7FF)), rx) <==> rx
            == request_id(0, 0),
{
    let code: u16 = request_id(node, 0);
    assert(code == 0x400 + node * 4);
    let n: u16 = node as u16;
    assert(((((rx % 2048) * 0x20_0000) as u32) & ((((0x7FCu16 % 2048) * 0x20_0000 + 0b110) as u32)))
        == ((((code % 2048) * 0x20_0000) as u32) & ((((0x7FCu16 % 2048) * 0x20_0000 + 0b110) as u32)))
        <==> (0x400 <= rx && rx < 0x600 && (rx / 4) % 128 == n)) by (bit_vector)
        requires
            code == 0x400 + n * 4,
            n < 128,
            rx < 0x800,
    ;
    assert(((((rx % 2048) * 0x20_0000) as u32) & ((((0x7FFu16 % 2048) * 0x20_0000 + 0b110) as u32)))
        == ((((0x400u16 % 2048) * 0x20_0000) as u32) & ((((0x7FFu16 % 2048) * 0x20_0000 + 0b110) as u32)))
        <==> rx == 0x400) by (bit_vector)
        requires
            rx < 0x800,
    ;
}

} // verus!
