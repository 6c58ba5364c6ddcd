//! Little-endian `u32` fields, as every multi-byte field of the protocol is.

use vstd::prelude::*;

verus! {

/// The `u32` whose little-endian bytes are the first four of `b`.
pub open spec fn le_u32(b: Seq<u8>) -> u32
    recommends
        b.len() >= 4,
{
    (b[0] + b[1] * 0x100 + b[2] * 0x1_0000 + b[3] * 0x100_0000) as u32
}

/// The four little-endian bytes of `x`.
pub open spec fn u32_le_bytes(x: u32) -> Seq<u8> {
    seq![
        (x % 0x100) as u8,
        ((x / 0x100) % 0x100) as u8,
        ((x / 0x1_0000) % 0x100) as u8,
        (x / 0x100_0000) as u8,
    ]
}

/// Reads the little-endian `u32` at `data[at..at + 4]`.
pub fn read_le_u32(data: &[u8], at: usize) -> (x: u32)
    requires
        at + 4 <= data@.len(),
    ensures
        x == le_u32(data@.subrange(at as int, at + 4)),
{
    let b0: u32 = data[at] as u32;
    let b1: u32 = data[at + 1] as u32;
    let b2: u32 = data[at + 2] as u32;
    let b3: u32 = data[at + 3] as u32;
    b0 + b1 * 0x100 + b2 * 0x1_0000 + b3 * 0x100_0000
}

/// The four little-endian bytes of `x`, as an array.
pub fn write_le_u32(x: u32) -> (b: [u8; 4])
    ensures
        b@ == u32_le_bytes(x),
{
    let b: [u8; 4] = [
        (x % 0x100) as u8,
        ((x / 0x100) % 0x100) as u8,
        ((x / 0x1_0000) % 0x100) as u8,
        (x / 0x100_0000) as u8,
    ];
    assert(b@ =~= u32_le_bytes(x));
    b
}

/// Reading back the bytes of `x` gives `x`, and the bytes of a read-back
/// value are the bytes that were read.
pub proof fn lemma_le_u32_round_trip(x: u32, b: Seq<u8>)
    ensures
        le_u32(u32_le_bytes(x)) == x,
        b.len() == 4 ==> u32_le_bytes(le_u32(b)) == b,
{
    let b0 = x % 0x100;
    let b1 = (x / 0x100) % 0x100;
    let b2 = (x / 0x1_0000) % 0x100;
    let b3 = x / 0x100_0000;
    assert(b0 + b1 * 0x100 + b2 * 0x1_0000 + b3 * 0x100_0000 == x) by (nonlinear_arith)
        requires
            b0 == x % 0x100,
            b1 == (x / 0x100) % 0x100,
            b2 == (x / 0x1_0000) % 0x100,
            b3 == x / 0x100_0000,
    ;
    if b.len() == 4 {
        let v: int = b[0] + b[1] * 0x100 + b[2] * 0x1_0000 + b[3] * 0x100_0000;
        let c0: int = b[0] as int;
        let c1: int = b[1] as int;
        let c2: int = b[2] as int;
        let c3: int = b[3] as int;
        assert(v % 0x100 == c0 && (v / 0x100) % 0x100 == c1 && (v / 0x1_0000) % 0x100 == c2
            && v / 0x100_0000 == c3 && v < 0x1_0000_0000) by (nonlinear_arith)
            requires
                v == c0 + c1 * 0x100 + c2 * 0x1_0000 + c3 * 0x100_0000,
                0 <= c0 < 0x100,
                0 <= c1 < 0x100,
                0 <= c2 < 0x100,
                0 <= c3 < 0x100,
        ;
        assert(u32_le_bytes(le_u32(b)) =~= b);
    }
}

} // verus!
