use embassy_boot_ch32::{
    active_size, application_entry, dfu_size, state_size, CoarseFlash, FLASH_BASE,
};

#[test]
fn partition_sizes() {
    assert_eq!(active_size(0x4000, 0x1_0000), 0xC000);
    assert_eq!(dfu_size(0x1_0000, 0x1_E000), 0xE000);
    assert_eq!(state_size(0x1_E000, 0x2_0000), 0x2000);
    assert_eq!(state_size(5, 5), 0);
}

#[test]
fn entry_address() {
    assert_eq!(application_entry(0x4000), 0x0800_4000);
    assert_eq!(application_entry(0), FLASH_BASE);
}

#[test]
fn coarse_flash_wrapping() {
    let mut flash: CoarseFlash<Vec<u8>, 8192> = CoarseFlash(vec![1, 2, 3]);
    assert_eq!(flash.inner(), &vec![1, 2, 3]);
    flash.inner_mut().push(4);
    assert_eq!(flash.into_inner(), vec![1, 2, 3, 4]);
}

fn plan<const N: usize>(from: u32, to: u32, hw: usize) -> Vec<(u32, u32)> {
    let count = CoarseFlash::<(), N>::erase_step_count(from, to, hw);
    (0..count).map(|i| CoarseFlash::<(), N>::erase_step_at(from, to, hw, i)).collect()
}

#[test]
fn coarse_erase_tiles_the_range() {
    assert_eq!(CoarseFlash::<(), 8192>::erase_step_count(2 * 8192, 4 * 8192, 256), 64);
    let steps = plan::<8192>(2 * 8192, 4 * 8192, 256);
    assert_eq!(steps.len(), 64);
    assert_eq!(steps[0], (16384, 16640));
    assert_eq!(steps[63], (32512, 32768));
    for w in steps.windows(2) {
        assert_eq!(w[0].1, w[1].0);
    }

    // Equal sizes erase one block per coarse block.
    assert_eq!(plan::<256>(0, 512, 256), vec![(0, 256), (256, 512)]);

    // The very top of the address space does not overflow.
    let top = u32::MAX - 8191;
    assert_eq!(
        plan::<8192>(top - 8192, top, 4096),
        vec![(top - 8192, top - 4096), (top - 4096, top)]
    );
    assert_eq!(CoarseFlash::<(), 8192>::erase_step_at(top - 8192, top, 4096, 1), (top - 4096, top));
}
