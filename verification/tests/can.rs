use embassy_boot_ch32::can::{
    cmd, crc32, err, filter_words, info_frame_count, is_request, is_response, node_filters,
    node_of, parse_control, req_id, resp_id, state, sub_of, Crc32, Info, Request, Response,
    FRAME_DATA_MAX, FUNCTIONAL_NODE, INFO_LEN, PROTOCOL_VERSION, STATUS_ERROR, STATUS_OK,
    SUB_CONTROL, SUB_DATA, UID_PREFIX_LEN,
};

#[test]
fn crc32_reference_vectors() {
    // The standard check value of the reflected CRC-32/ISO-HDLC.
    assert_eq!(crc32(b"123456789"), 0xCBF4_3926);
    assert_eq!(crc32(b""), 0x0000_0000);
    // The all-ones check value: CRC32 of four 0xFF bytes is 0xFFFF_FFFF.
    assert_eq!(crc32(&[0xFFu8; 4]), 0xFFFF_FFFF);

    // The incremental form agrees with the one-shot form when fed in
    // awkward chunks (this is how the bootloader verifies the image).
    let image = b"the quick brown fox jumps over the lazy dog";
    let mut crc = Crc32::new();
    for chunk in image.chunks(7) {
        crc.update(chunk);
    }
    assert_eq!(crc.finalize(), crc32(image));
}

#[test]
fn id_layout() {
    assert_eq!(req_id(FUNCTIONAL_NODE, SUB_CONTROL), 0x400);
    assert_eq!(req_id(1, SUB_CONTROL), 0x404);
    assert_eq!(req_id(1, SUB_DATA), 0x405);
    assert_eq!(req_id(0x7F, SUB_DATA), 0x5FD);
    assert_eq!(resp_id(1, SUB_CONTROL), 0x604);
    assert_eq!(resp_id(0x7F, SUB_DATA), 0x7FD);

    for id in [0x400u16, 0x404, 0x405, 0x5FD] {
        assert!(is_request(id), "{id:#x} is not a request");
        assert!(!is_response(id));
    }
    for id in [0x600u16, 0x604, 0x7FD] {
        assert!(is_response(id), "{id:#x} is not a response");
        assert!(!is_request(id));
    }

    // Node/sub survive a round trip through the ID.
    for node in [FUNCTIONAL_NODE, 1, 42, 0x7F] {
        for sub in [SUB_CONTROL, SUB_DATA] {
            let id = req_id(node, sub);
            assert_eq!(node_of(id), node);
            assert_eq!(sub_of(id), sub);
        }
    }
}

#[test]
fn response_round_trip() {
    let ok = Response::ok(cmd::QUERY, 256);
    let bytes = ok.encode();
    assert_eq!(bytes[0], 0x80 | cmd::QUERY);
    assert_eq!(Response::decode(&bytes), Some(ok));

    let bad = Response::failure(cmd::BEGIN, err::TOO_LARGE, 0);
    assert_eq!(Response::decode(&bad.encode()), Some(bad));

    // A control frame request is not a response...
    assert_eq!(Response::decode(&[cmd::PING, 0, 0, 0, 0, 0, 0, 0]), None);
    // ...and neither is a short frame.
    assert_eq!(Response::decode(&[0x81, 0x01]), None);
}

#[test]
fn control_frames() {
    assert_eq!(parse_control(&[cmd::PING]), Some(Request::Ping));
    assert_eq!(
        parse_control(&[cmd::SESSION_OPEN, 0x78, 0x56, 0x34, 0x12]),
        Some(Request::SessionOpen { nonce: 0x1234_5678 })
    );
    assert_eq!(parse_control(&[cmd::GET_INFO]), Some(Request::GetInfo));
    assert_eq!(parse_control(&[cmd::SESSION_CLOSE]), Some(Request::SessionClose));
    assert_eq!(parse_control(&[cmd::ABORT]), Some(Request::Abort));
    assert_eq!(parse_control(&[cmd::QUERY]), Some(Request::Query));

    assert_eq!(
        parse_control(&[cmd::BEGIN, 0x00, 0xC0, 0x00, 0x00, 0x11, 0x22, 0x33, 0x44]),
        Some(Request::Begin { len: 0xC000, crc32: 0x4433_2211 })
    );

    let mut enter = [0u8; 1 + UID_PREFIX_LEN];
    enter[0] = cmd::ENTER_UPDATE;
    enter[1..].copy_from_slice(&[1, 2, 3, 4, 5, 6, 7]);
    assert_eq!(
        parse_control(&enter),
        Some(Request::EnterUpdate { uid_prefix: &[1, 2, 3, 4, 5, 6, 7] })
    );

    // Wrong payload lengths are reported, not silently dropped...
    assert_eq!(parse_control(&[cmd::BEGIN, 0, 0]), Some(Request::Unknown { cmd: cmd::BEGIN }));
    // ...empty payloads and unknown opcodes as well.
    assert_eq!(parse_control(&[]), None);
    assert_eq!(parse_control(&[0x77]), Some(Request::Unknown { cmd: 0x77 }));
}

#[test]
fn info_payload() {
    let info = Info {
        protocol_version: PROTOCOL_VERSION,
        state: state::BOOTLOADER_RECEIVING,
        uid: [0xA0, 1, 2, 3, 4, 5, 6, 7, 8, 9, 10, 11],
        chip_id: 0x3054_0001,
    };
    let bytes = info.encode();
    assert_eq!(bytes.len(), INFO_LEN);
    assert_eq!(Info::decode(&bytes), Some(info));
    assert_eq!(Info::decode(&bytes[..17]), None);

    // The payload fits in whole data frames, last one short.
    assert_eq!(info_frame_count(), 3);
    assert_eq!(2 * FRAME_DATA_MAX + 2, INFO_LEN);
}

#[test]
fn filter_encoding() {
    let ((own, own_mask), (functional, functional_mask)) = node_filters(5);
    assert_eq!(own, req_id(5, SUB_CONTROL));
    // Own mask ignores the sub-channel, the functional one matches node 0
    // requests only.
    assert_eq!(own_mask, 0x7FC);
    assert_eq!(functional, 0x400);
    assert_eq!(functional_mask, 0x7FF);

    let (value, mask) = filter_words(own, own_mask);
    assert_eq!(value, (0x414u32) << 21);
    // Bits 1 and 2 (RTR/IDE) must match as 0; the ID bits match under the
    // mask; bit 0 is don't-care.
    assert_eq!(mask & 0b110, 0b110);
    assert_eq!(mask & (0x7FF << 21), (0x7FCu32) << 21);

    // Incoming frames either match the masked value or not.
    let matches = |rx: u16| filter_words(rx, 0x7FF).0 & mask == value;
    assert!(matches(req_id(5, SUB_CONTROL)));
    assert!(matches(req_id(5, SUB_DATA)));
    assert!(!matches(req_id(6, SUB_CONTROL)));
    assert!(!matches(req_id(4, SUB_DATA)));
    assert!(!matches(req_id(FUNCTIONAL_NODE, SUB_CONTROL)));
}

#[test]
fn crc_known_values_and_split_points() {
    assert_eq!(crc32(b"a"), 0xE8B7_BE43);
    assert_eq!(crc32(b"The quick brown fox jumps over the lazy dog"), 0x414F_A339);

    // Any split of the input gives the one-shot CRC.
    let data: Vec<u8> = (0u8..=200).collect();
    let whole = crc32(&data);
    for cut in 0..data.len() {
        let mut crc = Crc32::default();
        crc.update(&data[..cut]);
        crc.update(&data[cut..]);
        assert_eq!(crc.finalize(), whole);
    }

    // A fresh CRC finalizes to the CRC of nothing.
    assert_eq!(Crc32::new().finalize(), 0);
}

#[test]
fn every_node_and_sub_round_trips() {
    for node in 0u8..128 {
        for sub in 0u16..4 {
            let req = req_id(node, sub);
            let resp = resp_id(node, sub);
            assert_eq!(req, 0x400 + u16::from(node) * 4 + sub);
            assert_eq!(resp, req + 0x200);
            assert_eq!((node_of(req), sub_of(req)), (node, sub));
            assert_eq!((node_of(resp), sub_of(resp)), (node, sub));
            assert!(is_request(req) && !is_response(req));
            assert!(is_response(resp) && !is_request(resp));
        }
    }
    // Only the low 7 node bits and 2 sub bits are used.
    assert_eq!(req_id(0x80 | 3, 4 | 1), req_id(3, 1));
    assert!(!is_request(0x3FF) && !is_response(0x3FF));
}

#[test]
fn node_filters_select_own_requests() {
    let node = 5u8;
    let ((own, own_mask), (functional, functional_mask)) = node_filters(node);
    let (own_value, own_word) = filter_words(own, own_mask);
    let (fun_value, fun_word) = filter_words(functional, functional_mask);
    for rx in 0u16..0x800 {
        let frame = filter_words(rx, 0x7FF).0;
        let own_hit = frame & own_word == own_value & own_word;
        let fun_hit = frame & fun_word == fun_value & fun_word;
        assert_eq!(own_hit, is_request(rx) && node_of(rx) == node, "{rx:#x}");
        assert_eq!(fun_hit, rx == 0x400, "{rx:#x}");
    }
    assert_eq!(filter_words(0xFFFF, 0xFFFF), (0x7FF << 21, (0x7FF << 21) | 0b110));
}

#[test]
fn response_fields_and_bytes() {
    let r = Response::failure(cmd::FINISH, err::CRC, 0x1234_5678);
    assert_eq!(r.status, STATUS_ERROR);
    assert_eq!(r.err, err::CRC);
    assert_eq!(r.encode(), [0xB0, 0x30, 1, 6, 0x78, 0x56, 0x34, 0x12]);
    let ok = Response::ok(cmd::PING, 0);
    assert_eq!((ok.status, ok.err), (STATUS_OK, 0));

    // Byte 0 is only checked for the response bit.
    assert_eq!(
        Response::decode(&[0x80, 0x31, 0, 0, 1, 0, 0, 0]),
        Some(Response::ok(cmd::QUERY, 1))
    );
    assert_eq!(Response::decode(&[0x7F, 0x31, 0, 0, 1, 0, 0, 0]), None);
    assert_eq!(Response::decode(&[0x81, 1, 0, 0, 0, 0, 0, 0, 0]), None);
    assert_eq!(Response::LEN, 8);
}

#[test]
fn control_frames_edge_cases() {
    // PING carries no payload.
    assert_eq!(parse_control(&[cmd::PING, 9, 9]), Some(Request::Unknown { cmd: cmd::PING }));
    assert_eq!(parse_control(&[cmd::PING, 0]), Some(Request::Unknown { cmd: cmd::PING }));
    assert_eq!(
        parse_control(&[cmd::FINISH, 0x10, 0, 0, 0, 0xEF, 0xBE, 0xAD, 0xDE]),
        Some(Request::Finish { len: 0x10, crc32: 0xDEAD_BEEF })
    );
    assert_eq!(
        parse_control(&[cmd::ENTER_UPDATE, 1, 2, 3]),
        Some(Request::Unknown { cmd: cmd::ENTER_UPDATE })
    );
    assert_eq!(
        parse_control(&[cmd::SESSION_OPEN, 1, 2, 3]),
        Some(Request::Unknown { cmd: cmd::SESSION_OPEN })
    );
    assert_eq!(parse_control(&[cmd::QUERY, 0]), Some(Request::Unknown { cmd: cmd::QUERY }));
    assert_eq!(parse_control(&[cmd::ABORT, 0]), Some(Request::Unknown { cmd: cmd::ABORT }));
    assert_eq!(
        parse_control(&[cmd::GET_INFO, 0]),
        Some(Request::Unknown { cmd: cmd::GET_INFO })
    );
    assert_eq!(
        parse_control(&[cmd::SESSION_CLOSE, 0]),
        Some(Request::Unknown { cmd: cmd::SESSION_CLOSE })
    );
    assert_eq!(
        parse_control(&[cmd::FINISH, 0, 0, 0, 0, 0, 0, 0]),
        Some(Request::Unknown { cmd: cmd::FINISH })
    );
}

#[test]
fn info_bytes_layout() {
    let info = Info {
        protocol_version: 1,
        state: state::APP,
        uid: [1, 2, 3, 4, 5, 6, 7, 8, 9, 10, 11, 12],
        chip_id: 0x0403_0201,
    };
    assert_eq!(
        info.encode(),
        [1, 0, 1, 2, 3, 4, 5, 6, 7, 8, 9, 10, 11, 12, 1, 2, 3, 4]
    );
    let raw = [7u8, 2, 9, 9, 9, 9, 9, 9, 9, 9, 9, 9, 9, 9, 0xFF, 0, 0, 0x80];
    let decoded = Info::decode(&raw).unwrap();
    assert_eq!(decoded.chip_id, 0x8000_00FF);
    assert_eq!(decoded.encode(), raw);
    assert_eq!(Info::decode(&[0u8; 19]), None);
}

#[test]
fn crc_is_affine_for_equal_lengths() {
    let a: Vec<u8> = (0u8..40).collect();
    let b: Vec<u8> = (0u8..40).map(|i| i.wrapping_mul(37) ^ 0x5A).collect();
    let c: Vec<u8> = b"the quick brown fox jumps over the lazy!".to_vec();
    let x: Vec<u8> = (0..40).map(|i| a[i] ^ b[i] ^ c[i]).collect();
    assert_eq!(crc32(&x), crc32(&a) ^ crc32(&b) ^ crc32(&c));
}

#[test]
fn crc_residue() {
    for data in [&b""[..], &b"123456789"[..], &b"the quick brown fox"[..], &[0xFFu8; 7][..]] {
        let mut message = data.to_vec();
        message.extend_from_slice(&crc32(data).to_le_bytes());
        assert_eq!(crc32(&message), 0x2144_DF1C);
    }
    assert_eq!(crc32(&[0, 0, 0, 0]), 0x2144_DF1C);
}

#[test]
fn crc_any_number_of_chunks() {
    let image: Vec<u8> = (0u16..300).map(|i| (i * 7 % 251) as u8).collect();
    for size in [1, 3, 7, 64, 299, 300] {
        let mut crc = Crc32::new();
        for chunk in image.chunks(size) {
            crc.update(chunk);
        }
        assert_eq!(crc.finalize(), crc32(&image));
    }
}
