# embassy-boot-ch32

`embassy-boot` support for WCH CH32 microcontrollers, written as a Verus
project.

* `src/` is the verified library:
  * `can` - the CAN-bus firmware update wire protocol: the 11-bit ID layout
    and the bxCAN filter words (`can/id.rs`), control frame decoding
    (`can/request.rs`), the response header (`can/response.rs`), the
    `GET_INFO` payload (`can/info.rs`), the image CRC32 (`can/crc.rs`) and the
    little-endian field helpers (`can/le.rs`); opcodes, error codes and node
    states are in `can/cmd.rs`, `can/err.rs` and `can/state.rs`.
  * `lib.rs` - partition sizes, the application entry address and
    `CoarseFlash`, including the plan of hardware erases behind one coarse
    erase.
* `app/` is the hardware side: linker symbols, interrupt masking, the PFIC
  reset, the `embedded-storage` `NorFlash` impls of `CoarseFlash`, and the
  bootloader that runs `embassy-boot` and jumps into the application.
* `tests/` runs the library on concrete values.
