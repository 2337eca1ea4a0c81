use reboot_lib::crypto::{nand_crypt_control, nand_scfg_ext};
use reboot_lib::video::{load_matrix_4x4, scale_matrix, translate_matrix, GeometryWrite};
use reboot_lib::wifi::{
    lz_data_message, mailbox_writes, memory_write_message, MBOX_LZ_DATA, MBOX_WRITE_MEMORY,
};

#[test]
fn mailbox_word_goes_out_little_endian() {
    assert_eq!(
        mailbox_writes(0x1234_5678, false),
        [(0, 0x78), (1, 0x56), (2, 0x34), (3, 0x12)]
    );
    assert_eq!(
        mailbox_writes(0xAABB_CCDD, true),
        [(0xFC, 0xDD), (0xFD, 0xCC), (0xFE, 0xBB), (0xFF, 0xAA)]
    );
}

#[test]
fn memory_write_pads_to_whole_words() {
    let m = memory_write_message(0x52_0000, &[1, 2, 3, 4, 5]).unwrap();
    assert_eq!(m.words, vec![MBOX_WRITE_MEMORY, 0x52_0000, 8]);
    assert_eq!(m.bytes, vec![1, 2, 3, 4, 5, 0, 0, 0]);
    let m = memory_write_message(4, &[9, 9, 9, 9]).unwrap();
    assert_eq!(m.words, vec![3, 4, 4]);
    assert_eq!(m.bytes, vec![9, 9, 9, 9]);
    assert!(memory_write_message(4, &[]).is_none());
}

#[test]
fn lz_data_pads_to_whole_words() {
    let m = lz_data_message(&[7]).unwrap();
    assert_eq!(m.words, vec![MBOX_LZ_DATA, 4]);
    assert_eq!(m.bytes, vec![7, 0, 0, 0]);
    assert!(lz_data_message(&[]).is_none());
}

#[test]
fn matrix_load_goes_row_by_row() {
    let mut m = [[0u32; 4]; 4];
    for r in 0..4 {
        for c in 0..4 {
            m[r][c] = (r * 10 + c) as u32;
        }
    }
    let ws = load_matrix_4x4(m);
    assert_eq!(ws.len(), 16);
    for i in 0..16 {
        assert_eq!(ws[i], GeometryWrite::MatrixLoad4x4(((i / 4) * 10 + i % 4) as u32));
    }
}

#[test]
fn scale_and_translate_send_three_words() {
    assert_eq!(
        scale_matrix(1, -1, 0x1000),
        [
            GeometryWrite::MatrixScale(1),
            GeometryWrite::MatrixScale(0xFFFF_FFFF),
            GeometryWrite::MatrixScale(0x1000)
        ]
    );
    assert_eq!(
        translate_matrix(-2, 3, 0),
        [
            GeometryWrite::MatrixTranslate(0xFFFF_FFFE),
            GeometryWrite::MatrixTranslate(3),
            GeometryWrite::MatrixTranslate(0)
        ]
    );
}

#[test]
fn nand_crypt_setup_words() {
    assert_eq!(nand_crypt_control(3), 0x2000_0000 + 3 * 0x400_0000 + 0x100_0000);
    assert_eq!(nand_crypt_control(7), nand_crypt_control(3));
    assert_eq!(nand_crypt_control(0), 0x2100_0000);
    assert_eq!(nand_scfg_ext(0), 0x2_0004);
    assert_eq!(nand_scfg_ext(0x8000_0000), 0x8002_0004);
}
