//! Support code for booting and updating WCH CH32 microcontrollers with
//! `embassy-boot`: the CAN update wire protocol ([`can`]), the partition
//! geometry helpers and the coarse erase granularity adapter
//! ([`CoarseFlash`]) that lets the `embassy-boot` swap algorithm work in large
//! blocks on a flash that is erased in small pages.

use vstd::prelude::*;

pub mod can;

verus! {

/// Address of the beginning of the internal flash array as seen by the core.
///
/// All offsets used by the flash driver, by the partition symbols and by the
/// boot jump are relative to this address.
pub const FLASH_BASE: u32 = 0x0800_0000;

/// Size in bytes of the active partition that spans the flash offsets
/// `active_start..active_end`.
pub fn active_size(active_start: u32, active_end: u32) -> (size: u32)
    requires
        active_start <= active_end,
    ensures
        size == active_end - active_start,
{
    active_end - active_start
}

/// Size in bytes of the dfu partition that spans the flash offsets
/// `dfu_start..dfu_end`.
///
/// An incoming image larger than this will not fit in the dfu partition.
pub fn dfu_size(dfu_start: u32, dfu_end: u32) -> (size: u32)
    requires
        dfu_start <= dfu_end,
    ensures
        size == dfu_end - dfu_start,
{
    dfu_end - dfu_start
}

/// Size in bytes of the state partition that spans the flash offsets
/// `state_start..state_end`.
pub fn state_size(state_start: u32, state_end: u32) -> (size: u32)
    requires
        state_start <= state_end,
    ensures
        size == state_end - state_start,
{
    state_end - state_start
}

/// The bus address the boot jump goes to for an application that starts at
/// flash offset `start`: `FLASH_BASE + start`.
pub fn application_entry(start: u32) -> (address: u32)
    requires
        start <= u32::MAX - FLASH_BASE,
    ensures
        address == FLASH_BASE + start,
{
    FLASH_BASE + start
}

/// A flash adapter that reports a coarser erase granularity (`ERASE_SIZE`)
/// than the underlying driver `F`.
///
/// The CH32 internal flash is erased in single pages of 256 bytes, and
/// `embassy-boot` uses the erase size both as the unit of its swap algorithm
/// and as the divisor of its state size requirement. Presenting the flash
/// with a coarse erase size (e.g. 8 KiB) keeps the state partition small at
/// the cost of a few extra page erase commands: a coarse erase is performed
/// as the sequence of hardware erases that [`CoarseFlash::erase_step_count`]
/// and [`CoarseFlash::erase_step_at`] list; everything else is passed through unchanged.
pub struct CoarseFlash<F, const ERASE_SIZE: usize>(pub F);

/// The `i`-th hardware erase of a coarse erase that starts at `from`, with
/// hardware erase size `hw`: the range `from + i * hw .. from + (i + 1) * hw`.
pub open spec fn erase_step(from: u32, hw: nat, i: int) -> (u32, u32) {
    ((from + i * hw) as u32, (from + (i + 1) * hw) as u32)
}

impl<F, const ERASE_SIZE: usize> CoarseFlash<F, ERASE_SIZE> {
    /// Get a reference to the wrapped flash driver.
    pub fn inner(&self) -> (f: &F)
        ensures
            *f == self.0,
    {
        &self.0
    }

    /// Get a mutable reference to the wrapped flash driver.
    pub fn inner_mut(&mut self) -> (f: &mut F)
        ensures
            *f == old(self).0,
            final(self).0 == *final(f),
    {
        &mut self.0
    }

    /// Unwrap the adapter, returning the wrapped flash driver.
    pub fn into_inner(self) -> (f: F)
        ensures
            f == self.0,
    {
        self.0
    }

    /// A coarse erase of `from..to` is well formed on a driver whose own
    /// erase size is `hw_erase_size`: the coarse erase size is a non-zero
    /// multiple of the hardware one that fits the 32-bit address space, and
    /// the range is non-empty and aligned to the coarse erase size.
    pub open spec fn coarse_erase_ok(from: u32, to: u32, hw_erase_size: usize) -> bool {
        &&& 0 < ERASE_SIZE <= u32::MAX
        &&& 0 < hw_erase_size
        &&& ERASE_SIZE % hw_erase_size == 0
        &&& from % (ERASE_SIZE as u32) == 0
        &&& to % (ERASE_SIZE as u32) == 0
        &&& from < to
    }

    /// Number of hardware erases that make up the coarse erase of
    /// `from..to`: the `hw_erase_size` blocks that tile the range exactly.
    pub fn erase_step_count(from: u32, to: u32, hw_erase_size: usize) -> (n: u32)
        requires
            Self::coarse_erase_ok(from, to, hw_erase_size),
        ensures
            n * hw_erase_size == to - from,
    {
        proof {
            Self::lemma_hw_divides_range(from, to, hw_erase_size);
        }
        let hw: u32 = hw_erase_size as u32;
        let n: u32 = (to - from) / hw;
        proof {
            let d: int = (to - from) as int;
            let h: int = hw as int;
            vstd::arithmetic::div_mod::lemma_fundamental_div_mod(d, h);
            assert(n * h == d) by (nonlinear_arith)
                requires
                    d == h * (d / h) + d % h,
                    d % h == 0,
                    n == d / h,
            ;
        }
        n
    }

    /// The `i`-th hardware erase, in order, of the coarse erase of `from..to`
    /// (see [`erase_step`]); it ends within the range. Together with
    /// [`CoarseFlash::erase_step_count`] this lists the erases without
    /// allocating.
    pub fn erase_step_at(from: u32, to: u32, hw_erase_size: usize, i: u32) -> (step: (u32, u32))
        requires
            Self::coarse_erase_ok(from, to, hw_erase_size),
            i * hw_erase_size < to - from,
        ensures
            step == erase_step(from, hw_erase_size as nat, i as int),
            step.1 <= to,
    {
        proof {
            Self::lemma_hw_divides_range(from, to, hw_erase_size);
        }
        let hw: u32 = hw_erase_size as u32;
        let ghost h: int = hw as int;
        let ghost d: int = (to - from) as int;
        proof {
            let n: int = d / h;
            vstd::arithmetic::div_mod::lemma_fundamental_div_mod(d, h);
            assert((i + 1) * h <= d) by (nonlinear_arith)
                requires
                    d == h * n,
                    i * h < d,
                    0 < h,
            ;
            assert((i + 1) * h == i * h + h) by (nonlinear_arith);
        }
        let start: u32 = from + i * hw;
        let end: u32 = start + hw;
        (start, end)
    }

    /// The hardware erase size divides the length of a well-formed coarse
    /// range, and fits in 32 bits.
    proof fn lemma_hw_divides_range(from: u32, to: u32, hw_erase_size: usize)
        requires
            Self::coarse_erase_ok(from, to, hw_erase_size),
        ensures
            hw_erase_size <= ERASE_SIZE <= u32::MAX,
            (to - from) % (hw_erase_size as int) == 0,
    {
        if hw_erase_size > ERASE_SIZE {
            vstd::arithmetic::div_mod::lemma_small_mod(ERASE_SIZE as nat, hw_erase_size as nat);
        }
        let e: int = ERASE_SIZE as int;
        let h: int = hw_erase_size as int;
        let a: int = from as int / e;
        let b: int = to as int / e;
        let c: int = e / h;
        vstd::arithmetic::div_mod::lemma_fundamental_div_mod(from as int, e);
        vstd::arithmetic::div_mod::lemma_fundamental_div_mod(to as int, e);
        vstd::arithmetic::div_mod::lemma_fundamental_div_mod(e, h);
        assert(to - from == (c * (b - a)) * h) by (nonlinear_arith)
            requires
                from == e * a,
                to == e * b,
                e == h * c,
        ;
        vstd::arithmetic::div_mod::lemma_mod_multiples_basic(c * (b - a), h);
    }
}

} // verus!
