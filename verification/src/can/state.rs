//! Node state reported in a `GET_INFO` payload.

use vstd::prelude::*;

verus! {

/// The application is running (the runtime listener answers).
pub const APP: u8 = 0;

/// Bootloader, waiting for a session.
pub const BOOTLOADER_IDLE: u8 = 1;

/// Bootloader, a session is receiving image data.
pub const BOOTLOADER_RECEIVING: u8 = 2;

} // verus!
