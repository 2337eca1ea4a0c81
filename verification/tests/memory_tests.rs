use reboot_lib::memory::{BankSizing, NWRAMSize, FIRM_ACCESS_ARM7I};
use reboot_lib::ndma::{
    aes_read_config, aes_write_config, copy_mem_config, ctr_crypt_plan, with_field,
    NDMAStartMode, AES_CTR_FLAGS, AES_START, NDMA_ENABLE, NDMA_START_MASK,
};

#[test]
fn bank_window_register() {
    assert_eq!(NWRAMSize::Size256KB.value(), 3);
    assert_eq!(BankSizing::new(NWRAMSize::Size32KB, 0x0300_0000, 0x0300_8000).0, 0);
    assert_eq!(BankSizing::new(NWRAMSize::Size64KB, 0x8, 0).0, (0x8 << 3) | (1 << 12));
    assert_eq!(BankSizing::new(NWRAMSize::Size128KB, 0xFF8, 0x0008_0000).0, (0xFF8 << 3) | (2 << 12));
}

#[test]
fn firmware_access_constant() {
    assert_eq!(FIRM_ACCESS_ARM7I, 0x93FF_FB06);
}

#[test]
fn replacing_a_control_field() {
    let c = NDMA_ENABLE | NDMAStartMode::Timer3.bits();
    let r = with_field(c, NDMA_START_MASK, NDMAStartMode::Immediate.bits());
    assert_eq!(r, NDMA_ENABLE | 0x1000_0000);
    assert_eq!(r & NDMA_START_MASK, NDMAStartMode::Immediate.bits());
}

#[test]
fn copy_settings() {
    let c = copy_mem_config(100, 40);
    assert_eq!((c.word_count, c.block_size, c.timing, c.fill_mode), (40, 10, 0, 0));
    assert_eq!(c.control, 0x9000_0000);
}

#[test]
fn aes_stream_settings() {
    let p = ctr_crypt_plan(512);
    assert_eq!(p.block_count, 128);
    assert_eq!(p.in_dma, aes_write_config(512));
    assert_eq!(p.out_dma, aes_read_config(512));
    assert_eq!(p.in_dma.control, 0x800 | 0x2_0000 | 0xA00_0000 | 0x8000_0000);
    assert_eq!(p.out_dma.control, 0x4000 | 0x2_0000 | 0xB00_0000 | 0x8000_0000);
    assert_eq!(p.start, AES_CTR_FLAGS | AES_START);
    assert_eq!(p.start, 0xA000_3000);
    assert_eq!(ctr_crypt_plan(4 * 0x1_0001).block_count, 1);
}
