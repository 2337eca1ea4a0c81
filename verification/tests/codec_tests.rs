use reboot_lib::codec::{
    codec_wire_writes, dsi_codec_init_sequence, masked_update, read_command, resolve_writes, write_command, CdcReg,
    CntReg, SndReg, TouchCntReg,
};

#[test]
fn banks_and_registers() {
    assert_eq!(CdcReg::Control(CntReg::Reset).as_bank_and_reg(), (0, 0x01));
    assert_eq!(CdcReg::Control(CntReg::VolGain).as_bank_and_reg(), (0, 0x75));
    assert_eq!(CdcReg::Sound(SndReg::MicGain).as_bank_and_reg(), (1, 0x2F));
    assert_eq!(CdcReg::TouchCnt(TouchCntReg::Status).as_bank_and_reg(), (3, 0x09));
    assert_eq!(CdcReg::TouchCnt(TouchCntReg::DebouncePendown).as_bank_and_reg(), (3, 0x14));
    assert_eq!(CdcReg::AdcCoefficients(0xB).as_bank_and_reg(), (4, 0xB));
    assert_eq!(CdcReg::BufferModeData(1).as_bank_and_reg(), (0xFC, 1));
    assert_eq!(CdcReg::UndocumentedReset.as_bank_and_reg(), (0x63, 0));
    assert_eq!(CdcReg::TSCNDSMode.as_bank_and_reg(), (0xFF, 5));
}

#[test]
fn spi_command_bytes() {
    assert_eq!(write_command(0x09), 0x12);
    assert_eq!(read_command(0x09), 0x13);
    assert_eq!(write_command(0x80), 0x00);
    assert_eq!(read_command(0xFF), 0xFF);
}

#[test]
fn masked_update_keeps_unmasked_bits() {
    assert_eq!(masked_update(0b1010_1010, 0b0000_1111, 0b0101_0101), 0b1010_0101);
    assert_eq!(masked_update(0xFF, 0, 0), 0xFF);
    assert_eq!(masked_update(0x00, 0xFF, 0x3C), 0x3C);
}

#[test]
fn dsi_init_sequence() {
    let seq = dsi_codec_init_sequence();
    assert_eq!(seq.len(), 56);
    assert_eq!(seq[0], (CdcReg::TouchCnt(TouchCntReg::SarAdcCnt1), 0x80));
    assert_eq!(seq[19], (CdcReg::AdcCoefficients(0x8), 0x7F));
    assert_eq!(seq[55], (CdcReg::TouchCnt(TouchCntReg::TwlBufferMode), 0xA8));
    let writes = resolve_writes(&seq);
    assert_eq!(writes.len(), 56);
    assert_eq!(writes[0], (3, 0x02, 0x80));
    assert_eq!(writes[1], (0, 0x39, 0x66));
    assert_eq!(writes[2], (1, 0x20, 0x16));
    assert_eq!(writes[55], (3, 0x0E, 0xA8));
}

#[test]
fn every_codec_write_is_preceded_by_its_page_select() {
    let w = [(3u8, 0x0Eu8, 0xA8u8), (3, 0x02, 0x18), (0, 0x06, 0)];
    let s = codec_wire_writes(&w);
    assert_eq!(s, vec![(0, 3), (0x0E, 0xA8), (0, 3), (0x02, 0x18), (0, 0), (0x06, 0)]);
}
