use reboot_lib::crypto::{
    add_on_key, key_slot_control, modcrypt_chunks, nand_key_x, nand_sector_counter,
    plan_modcrypt, swap_bytes, title_key_x, title_keys, ModCryptResult, ModcryptHeader,
    MODCRYPT_CHUNK_WORDS,
};

#[test]
fn counter_addition_carries_through_all_words() {
    let mut k = [0xFFFF_FFFF, 0xFFFF_FFFF, 0, 7];
    add_on_key(&mut k, 1);
    assert_eq!(k, [0, 0, 1, 7]);
    let mut top = [0xFFFF_FFFF; 4];
    add_on_key(&mut top, 2);
    assert_eq!(top, [1, 0, 0, 0]);
    let mut plain = [5, 0, 0, 0];
    add_on_key(&mut plain, 10);
    assert_eq!(plain, [15, 0, 0, 0]);
}

#[test]
fn sector_counters() {
    let base = [0xFFFF_FFF0, 0, 0, 0];
    assert_eq!(nand_sector_counter(&base, 1), [0x10, 1, 0, 0]);
    assert_eq!(nand_sector_counter(&base, 0), base);
    let zero = [0u32; 4];
    assert_eq!(nand_sector_counter(&zero, 0x0800_0000), [0, 0, 0, 0]);
    let a = nand_sector_counter(&zero, 3);
    let mut b = nand_sector_counter(&zero, 2);
    add_on_key(&mut b, 32);
    assert_eq!(a, b);
}

#[test]
fn nand_key_x_from_console_id() {
    assert_eq!(nand_key_x([0x1234_5678, 0x9ABC_DEF0]), [0x1234_5678, 0x1234_5678 ^ 0x24EE_6906, 0x9ABC_DEF0 ^ 0xE65B_601D, 0x9ABC_DEF0]);
}

#[test]
fn title_key_x_from_title_id() {
    assert_eq!(title_key_x(0x4142_4344), [0x746E_694E, 0x6F64_6E65, 0x4142_4344, 0x4443_4241]);
    assert_eq!(swap_bytes(0x1122_3344), 0x4433_2211);
}

#[test]
fn key_slot_selection() {
    assert_eq!(key_slot_control(0, 3), (1 << 24) | (3 << 26));
    assert_eq!(key_slot_control(0xFFFF_FFFF, 0), 0xFFFF_FFFF & !(3 << 26));
}

#[test]
fn chunks_tile_the_module() {
    let len = 2 * MODCRYPT_CHUNK_WORDS + 8;
    let chunks = modcrypt_chunks(len, [0xFFFF_FFFF, 0, 0, 0]);
    assert_eq!(chunks.len(), 3);
    assert_eq!(chunks[0].offset, 0);
    assert_eq!(chunks[0].words, MODCRYPT_CHUNK_WORDS);
    assert_eq!(chunks[0].blocks, 0xFFFF);
    assert_eq!(chunks[0].iv, [0xFFFF_FFFF, 0, 0, 0]);
    assert_eq!(chunks[1].offset, MODCRYPT_CHUNK_WORDS);
    assert_eq!(chunks[1].iv, [0xFFFE, 1, 0, 0]);
    assert_eq!(chunks[2].words, 8);
    assert_eq!(chunks[2].blocks, 2);
    assert_eq!(chunks.iter().map(|c| c.words).sum::<usize>(), len);
    assert!(modcrypt_chunks(0, [0; 4]).is_empty());
}

fn header() -> ModcryptHeader {
    ModcryptHeader {
        ntr_rom_size: 0x10_0000,
        arm9_offset: 0x4000,
        arm9_load: 0x0200_0000,
        arm9i_offset: 0x8000,
        arm9i_load: 0x0280_0000,
        arm7i_offset: 0xC000,
        arm7i_load: 0x0300_0000,
        modcrypt1_offset: 0x8000,
        modcrypt1_len: 0x100,
        modcrypt2_offset: 0xC000,
        modcrypt2_len: 0x40,
        arm9_sha1: [1, 2, 3, 4, 5],
        arm7_sha1: [6, 7, 8, 9, 10],
    }
}

#[test]
fn modcrypt_plan_with_both_modules() {
    let (regions, result) = plan_modcrypt(&header());
    assert!(result == ModCryptResult::Success);
    assert_eq!(result.code(), 0);
    assert_eq!(regions.len(), 2);
    assert_eq!(regions[0].address, 0x0280_0000);
    assert_eq!(regions[0].words, 0x40);
    assert_eq!(regions[0].key, [1, 2, 3, 4]);
    assert_eq!(regions[1].address, 0x0300_0000);
    assert_eq!(regions[1].key, [6, 7, 8, 9]);
}

#[test]
fn modcrypt_module1_on_arm9() {
    let mut h = header();
    h.modcrypt1_offset = 0x4000;
    let (regions, _) = plan_modcrypt(&h);
    assert_eq!(regions[0].address, 0x0200_0000);
}

#[test]
fn modcrypt_errors() {
    let mut h = header();
    h.modcrypt1_offset = 0x5000;
    let (regions, result) = plan_modcrypt(&h);
    assert!(result == ModCryptResult::Module1Error && regions.is_empty());
    assert_eq!(result.code(), 1);
    let mut h = header();
    h.modcrypt2_offset = 0xD000;
    let (regions, result) = plan_modcrypt(&h);
    assert!(result == ModCryptResult::Module2Error);
    assert_eq!(result.code(), 2);
    assert_eq!(regions.len(), 1);
}

#[test]
fn absent_modules_are_skipped() {
    let mut h = header();
    h.modcrypt1_len = 0;
    h.modcrypt2_offset = h.ntr_rom_size;
    let (regions, result) = plan_modcrypt(&h);
    assert!(result == ModCryptResult::Success && regions.is_empty());
}

#[test]
fn title_keys_only_in_dsi_mode() {
    assert!(title_keys(false, 1, &[1, 2, 3, 4, 5], [1, 2]).is_none());
    let k = title_keys(true, 0x4142_4344, &[1, 2, 3, 4, 5], [0x1234_5678, 0x9ABC_DEF0]).unwrap();
    assert_eq!(k.module_key_x, title_key_x(0x4142_4344));
    assert_eq!(k.module_key_y, [1, 2, 3, 4]);
    assert_eq!(k.nand_key_x, nand_key_x([0x1234_5678, 0x9ABC_DEF0]));
    assert_eq!(k.nand_key_y_last, 0xE1A0_0005);
}
