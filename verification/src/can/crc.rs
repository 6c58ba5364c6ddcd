//! CRC32 (IEEE 802.3, reflected polynomial `0xEDB8_8320`, init `0xFFFF_FFFF`,
//! final inversion), the image integrity check of `BEGIN`/`FINISH`.

use vstd::prelude::*;

use super::le::u32_le_bytes;

verus! {

/// One bit step of the reflected CRC register: shift right, and xor the
/// polynomial in when the bit shifted out was set.
pub open spec fn crc_bit(c: u32) -> u32 {
    if c & 1 == 1 {
        (c >> 1) ^ 0xEDB8_8320
    } else {
        c >> 1
    }
}

/// `n` bit steps of the CRC register.
pub open spec fn crc_bits(c: u32, n: nat) -> u32
    decreases n,
{
    if n == 0 {
        c
    } else {
        crc_bits(crc_bit(c), (n - 1) as nat)
    }
}

/// The CRC register after absorbing one byte.
pub open spec fn crc_byte(c: u32, b: u8) -> u32 {
    crc_bits(c ^ (b as u32), 8)
}

/// The CRC register after absorbing `data`, first byte first.
pub open spec fn crc_feed(c: u32, data: Seq<u8>) -> u32
    decreases data.len(),
{
    if data.len() == 0 {
        c
    } else {
        crc_feed(crc_byte(c, data[0]), data.drop_first())
    }
}

/// The register value of a CRC that has absorbed nothing yet.
pub open spec fn crc_init() -> u32 {
    0xFFFF_FFFF
}

/// The CRC32 of a complete byte sequence.
pub open spec fn crc32_of(data: Seq<u8>) -> u32 {
    !crc_feed(crc_init(), data)
}

/// Incremental CRC32 - the same function as Python's `zlib.crc32`. The
/// bootloader feeds it one flash read chunk at a time, so it is split into a
/// running state.
#[derive(Debug, Clone, Copy)]
pub struct Crc32(u32);

impl View for Crc32 {
    type V = u32;

    /// The running CRC register.
    closed spec fn view(&self) -> u32 {
        self.0
    }
}

impl Crc32 {
    /// The CRC of nothing so far.
    pub fn new() -> (crc: Self)
        ensures
            crc@ == crc_init(),
    {
        Crc32(0xFFFF_FFFF)
    }

    /// Absorbs `data` into the running CRC.
    pub fn update(&mut self, data: &[u8])
        ensures
            final(self)@ == crc_feed(old(self)@, data@),
    {
        let mut state: u32 = self.0;
        let mut i: usize = 0;
        assert(data@.skip(0) =~= data@);
        while i < data.len()
            invariant
                i <= data.len(),
                crc_feed(state, data@.skip(i as int)) == crc_feed(old(self)@, data@),
            decreases data.len() - i,
        {
            let byte: u8 = data[i];
            let ghost before: u32 = state;
            state = state ^ (byte as u32);
            let ghost start: u32 = state;
            let mut k: u32 = 0;
            while k < 8
                invariant
                    k <= 8,
                    crc_bits(state, (8 - k) as nat) == crc_bits(start, 8),
                decreases 8 - k,
            {
                // Conditional polynomial xor without a branch.
                let low: u32 = state & 1;
                let mask: u32 = 0u32.wrapping_sub(low);
                assert(low == 0 || low == 1) by (bit_vector)
                    requires
                        low == (state & 1),
                ;
                let next: u32 = (state >> 1) ^ (0xEDB8_8320 & mask);
                assert(next == crc_bit(state)) by (bit_vector)
                    requires
                        low == (state & 1),
                        low == 0 ==> mask == 0,
                        low == 1 ==> mask == 0xFFFF_FFFF,
                        next == ((state >> 1) ^ (0xEDB8_8320 & mask)),
                ;
                state = next;
                k = k + 1;
            }
            assert(data@.skip(i as int)[0] == byte);
            assert(data@.skip(i as int).drop_first() =~= data@.skip(i + 1));
            i = i + 1;
        }
        assert(data@.skip(i as int) =~= Seq::<u8>::empty());
        self.0 = state;
    }

    /// The CRC of everything fed in so far.
    pub fn finalize(self) -> (value: u32)
        ensures
            value == !self@,
    {
        !self.0
    }
}

impl Default for Crc32 {
    fn default() -> (crc: Self)
        ensures
            crc@ == crc_init(),
    {
        Self::new()
    }
}

/// One-shot CRC32 over a complete buffer; see [`Crc32`].
pub fn crc32(data: &[u8]) -> (value: u32)
    ensures
        value == crc32_of(data@),
{
    let mut crc = Crc32::new();
    crc.update(data);
    crc.finalize()
}

/// Feeding a CRC in two pieces gives the register of feeding it the whole.
pub proof fn lemma_crc_feed_split(c: u32, a: Seq<u8>, b: Seq<u8>)
    ensures
        crc_feed(c, a + b) == crc_feed(crc_feed(c, a), b),
    decreases a.len(),
{
    if a.len() == 0 {
        assert(a + b =~= b);
    } else {
        assert((a + b)[0] == a[0]);
        assert((a + b).drop_first() =~= a.drop_first() + b);
        lemma_crc_feed_split(crc_byte(c, a[0]), a.drop_first(), b);
    }
}

/// The incremental form agrees with the one-shot form however the input is
/// split into chunks: a fresh [`Crc32`] updated with `a` and then with `b`
/// finalizes to the CRC32 of `a + b`.
pub proof fn lemma_crc_incremental_matches_one_shot(a: Seq<u8>, b: Seq<u8>)
    ensures
        !crc_feed(crc_feed(crc_init(), a), b) == crc32_of(a + b),
{
    lemma_crc_feed_split(crc_init(), a, b);
}


/// The register after absorbing a sequence of chunks in order, as a sequence
/// of `update` calls leaves it.
pub open spec fn crc_feed_chunks(c: u32, chunks: Seq<Seq<u8>>) -> u32
    decreases chunks.len(),
{
    if chunks.len() == 0 {
        c
    } else {
        crc_feed_chunks(crc_feed(c, chunks[0]), chunks.drop_first())
    }
}

/// The incremental form agrees with the one-shot form for any number of
/// chunks: absorbing the chunks one after the other gives the register of
/// absorbing their concatenation.
pub proof fn lemma_crc_feed_chunks(c: u32, chunks: Seq<Seq<u8>>)
    ensures
        crc_feed_chunks(c, chunks) == crc_feed(c, chunks.flatten()),
    decreases chunks.len(),
{
    if chunks.len() > 0 {
        lemma_crc_feed_chunks(crc_feed(c, chunks[0]), chunks.drop_first());
        lemma_crc_feed_split(c, chunks[0], chunks.drop_first().flatten());
    }
}

/// Eight bit steps, written out.
spec fn crc_bit8(x: u32) -> u32 {
    crc_bit(crc_bit(crc_bit(crc_bit(crc_bit(crc_bit(crc_bit(crc_bit(x))))))))
}

proof fn lemma_crc_bits_eight(x: u32)
    ensures
        crc_bits(x, 8) == crc_bit8(x),
{
    reveal_with_fuel(crc_bits, 9);
}

/// Bit steps are linear over GF(2).
proof fn lemma_crc_bits_linear(a: u32, b: u32, n: nat)
    ensures
        crc_bits(a ^ b, n) == crc_bits(a, n) ^ crc_bits(b, n),
    decreases n,
{
    if n > 0 {
        assert(crc_bit(a ^ b) == crc_bit(a) ^ crc_bit(b)) by (bit_vector);
        lemma_crc_bits_linear(crc_bit(a), crc_bit(b), (n - 1) as nat);
    }
}

/// One byte step is linear over GF(2) in the register and the byte together.
proof fn lemma_crc_byte_linear(c1: u32, c2: u32, b1: u8, b2: u8)
    ensures
        crc_byte(c1 ^ c2, b1 ^ b2) == crc_byte(c1, b1) ^ crc_byte(c2, b2),
{
    let x1: u32 = c1 ^ (b1 as u32);
    let x2: u32 = c2 ^ (b2 as u32);
    let x: u32 = (c1 ^ c2) ^ ((b1 ^ b2) as u32);
    assert(x == x1 ^ x2) by (bit_vector)
        requires
            x1 == c1 ^ (b1 as u32),
            x2 == c2 ^ (b2 as u32),
            x == (c1 ^ c2) ^ ((b1 ^ b2) as u32),
    ;
    lemma_crc_bits_linear(x1, x2, 8);
}

/// Absorbing data is linear over GF(2) in the register and the data together,
/// for data of equal length.
proof fn lemma_crc_feed_linear(c1: u32, c2: u32, d1: Seq<u8>, d2: Seq<u8>, d: Seq<u8>)
    requires
        d1.len() == d.len(),
        d2.len() == d.len(),
        forall|i: int| 0 <= i < d.len() ==> #[trigger] d[i] == d1[i] ^ d2[i],
    ensures
        crc_feed(c1 ^ c2, d) == crc_feed(c1, d1) ^ crc_feed(c2, d2),
    decreases d.len(),
{
    if d.len() > 0 {
        lemma_crc_byte_linear(c1, c2, d1[0], d2[0]);
        assert(d[0] == d1[0] ^ d2[0]);
        assert forall|i: int| 0 <= i < d.drop_first().len() implies #[trigger] d.drop_first()[i]
            == d1.drop_first()[i] ^ d2.drop_first()[i] by {
            assert(d[i + 1] == d1[i + 1] ^ d2[i + 1]);
        }
        lemma_crc_feed_linear(
            crc_byte(c1, d1[0]),
            crc_byte(c2, d2[0]),
            d1.drop_first(),
            d2.drop_first(),
            d.drop_first(),
        );
    }
}

/// CRC32 is affine over GF(2) for inputs of equal length: the CRC of the
/// bytewise xor of three inputs is the xor of their CRCs.
pub proof fn lemma_crc32_affine(a: Seq<u8>, b: Seq<u8>, c: Seq<u8>, x: Seq<u8>)
    requires
        a.len() == x.len(),
        b.len() == x.len(),
        c.len() == x.len(),
        forall|i: int| 0 <= i < x.len() ==> #[trigger] x[i] == a[i] ^ b[i] ^ c[i],
    ensures
        crc32_of(x) == crc32_of(a) ^ crc32_of(b) ^ crc32_of(c),
{
    let y = Seq::new(x.len(), |i: int| a[i] ^ b[i]);
    assert forall|i: int| 0 <= i < y.len() implies #[trigger] y[i] == a[i] ^ b[i] by {}
    assert forall|i: int| 0 <= i < x.len() implies #[trigger] x[i] == y[i] ^ c[i] by {}
    lemma_crc_feed_linear(crc_init(), crc_init(), a, b, y);
    lemma_crc_feed_linear(crc_init() ^ crc_init(), crc_init(), y, c, x);
    let init: u32 = crc_init();
    let fa = crc_feed(init, a);
    let fb = crc_feed(init, b);
    let fc = crc_feed(init, c);
    assert((init ^ init) ^ init == init) by (bit_vector);
    assert(!((fa ^ fb) ^ fc) == !fa ^ !fb ^ !fc) by (bit_vector);
}

/// The CRC32 of the empty input is 0 (the initial register, complemented).
pub proof fn lemma_crc32_empty()
    ensures
        crc32_of(Seq::<u8>::empty()) == 0,
{
    assert(!0xFFFF_FFFFu32 == 0) by (bit_vector);
}

/// The CRC-32 residue: a message followed by its own CRC32, little-endian,
/// has the CRC32 `0x2144_DF1C`.
pub proof fn lemma_crc32_residue(data: Seq<u8>)
    ensures
        crc32_of(data + u32_le_bytes(crc32_of(data))) == 0x2144_DF1C,
{
    let r = crc_feed(crc_init(), data);
    let w: u32 = !r;
    let tail = u32_le_bytes(w);
    lemma_crc_feed_split(crc_init(), data, tail);
    let b0: u8 = tail[0];
    let b1: u8 = tail[1];
    let b2: u8 = tail[2];
    let b3: u8 = tail[3];
    let r1 = crc_byte(r, b0);
    let r2 = crc_byte(r1, b1);
    let r3 = crc_byte(r2, b2);
    let r4 = crc_byte(r3, b3);
    assert(tail.drop_first().drop_first().drop_first().drop_first() =~= Seq::<u8>::empty());
    assert(crc_feed(r, tail) == r4) by {
        reveal_with_fuel(crc_feed, 5);
        assert(tail.drop_first()[0] == b1);
        assert(tail.drop_first().drop_first()[0] == b2);
        assert(tail.drop_first().drop_first().drop_first()[0] == b3);
    }
    lemma_crc_bits_eight(r ^ (b0 as u32));
    lemma_crc_bits_eight(r1 ^ (b1 as u32));
    lemma_crc_bits_eight(r2 ^ (b2 as u32));
    lemma_crc_bits_eight(r3 ^ (b3 as u32));
    // Each byte of the appended CRC complements the low byte of the register,
    // so the register's own bits shift out and only constants remain.
    assert(r1 == (r >> 8) ^ 0x2D02_EF8D) by (bit_vector)
        requires
            w == !r,
            b0 == (w % 0x100) as u8,
            r1 == crc_bit8(r ^ (b0 as u32)),
    ;
    assert(r2 == (r >> 16) ^ 0xBE26_12FF) by (bit_vector)
        requires
            w == !r,
            b1 == ((w / 0x100) % 0x100) as u8,
            r1 == (r >> 8) ^ 0x2D02_EF8D,
            r2 == crc_bit8(r1 ^ (b1 as u32)),
    ;
    assert(r3 == (r >> 24) ^ 0x00BE_2612) by (bit_vector)
        requires
            w == !r,
            b2 == ((w / 0x1_0000) % 0x100) as u8,
            r2 == (r >> 16) ^ 0xBE26_12FF,
            r3 == crc_bit8(r2 ^ (b2 as u32)),
    ;
    assert(!r4 == 0x2144_DF1C) by (bit_vector)
        requires
            w == !r,
            b3 == (w / 0x100_0000) as u8,
            r3 == (r >> 24) ^ 0x00BE_2612,
            r4 == crc_bit8(r3 ^ (b3 as u32)),
    ;
}

} // verus!
