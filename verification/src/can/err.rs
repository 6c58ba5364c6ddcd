//! `err` detail codes of a failed response header.

use vstd::prelude::*;

verus! {

/// The node wants a `SESSION_OPEN` before anything else.
pub const NO_SESSION: u8 = 1;

/// Another session is already open on this node.
pub const BUSY: u8 = 2;

/// Unexpected image offset; `next_offset` says where the node actually is.
pub const OFFSET: u8 = 3;

/// Image larger than the DFU partition.
pub const TOO_LARGE: u8 = 4;

/// Flash write failed.
pub const FLASH: u8 = 5;

/// Final read-back CRC mismatch.
pub const CRC: u8 = 6;

/// The session watchdog fired.
pub const TIMEOUT: u8 = 8;

} // verus!
