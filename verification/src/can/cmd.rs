//! Control frame opcodes (byte 0 of a control frame).

use vstd::prelude::*;

verus! {

/// Liveness check; answered with a plain OK header.
pub const PING: u8 = 0x01;

/// Ask the node whose UID prefix matches to reset into the bootloader.
pub const ENTER_UPDATE: u8 = 0x02;

/// Open an update session (`nonce u32`).
pub const SESSION_OPEN: u8 = 0x10;

/// Give up a session.
pub const SESSION_CLOSE: u8 = 0x11;

/// Report version, state, UID and chip ID (multi-frame).
pub const GET_INFO: u8 = 0x12;

/// Start an image transfer (`len u32`, `crc32 u32`).
pub const BEGIN: u8 = 0x20;

/// Abandon the transfer, leave the state untouched.
pub const ABORT: u8 = 0x21;

/// End of transfer (`len u32`, `crc32 u32`), verify and mark updated.
pub const FINISH: u8 = 0x30;

/// Where is the session at? Returns the next expected offset.
pub const QUERY: u8 = 0x31;

} // verus!
