use reboot_lib::mmc::{
    response_words, sector_address, select_protection, Command, CommandPoll, DeviceSelect,
    DeviceType, PollAction, Status, StorageSector, CMD_DATA_EN, DATA32_RX_READY, RCA,
    STATUS_ALL, STATUS_ALL_ERRORS, STATUS_CMD_BUSY, STATUS_DATA_END, STATUS_ERR_CMD_TIMEOUT,
};

#[test]
fn command_encodings() {
    assert_eq!(Command::GoIdleState.bits(), 0x300);
    assert_eq!(Command::MMCSendOptionalCondition.bits(), 0x701);
    assert!(!Command::GoIdleState.transmits_data());
    assert_eq!(response_words(Command::SendCSD.bits()), 4);
    assert_eq!(response_words(Command::SendStatus.bits()), 1);
}

#[test]
fn device_kinds() {
    assert!(DeviceType::EMMC.is_mmc());
    assert!(DeviceType::HCEMMC.is_mmc());
    assert!(!DeviceType::SDHC.is_mmc());
    assert_eq!(DeviceSelect::SDCardSlot.index(), 0);
    assert_eq!(DeviceSelect::EMMC.index(), 1);
}

#[test]
fn sector_addresses() {
    assert_eq!(sector_address(Some(DeviceType::SDSC), 3).ok(), Some(3 * 512));
    assert_eq!(sector_address(Some(DeviceType::EMMC), 0x80_0001).ok(), Some(0x200));
    assert_eq!(sector_address(Some(DeviceType::SDHC), 3).ok(), Some(3));
    assert_eq!(sector_address(Some(DeviceType::HCEMMC), 7).ok(), Some(7));
    assert!(sector_address(None, 3) == Err(Status::all()));
    assert_eq!(Status::all().bits(), STATUS_ALL);
}

#[test]
fn status_success() {
    assert!(Status::empty().successful());
    assert!(Status::from_bits_retain(STATUS_DATA_END).successful());
    assert!(!Status::from_bits_retain(STATUS_ERR_CMD_TIMEOUT).successful());
    assert_eq!(Status::from_bits_retain(0xFFFF_FFFF).intersection(Status::from_bits_retain(STATUS_ALL_ERRORS)).bits(), STATUS_ALL_ERRORS);
}

#[test]
fn protection_flag_from_select_response() {
    assert_eq!(select_protection(0), 0);
    assert_eq!(select_protection(8), 8);
    assert_eq!(select_protection(0x0200_0000), 0);
    assert_eq!(select_protection(0xF), 8);
}

#[test]
fn plain_command_ends_when_not_busy() {
    let mut p = CommandPoll::start(Command::SendStatus.bits(), 0, false);
    assert_eq!(p.poll(STATUS_CMD_BUSY, 0), PollAction::Continue { read_block: false });
    assert_eq!(p.poll(STATUS_ERR_CMD_TIMEOUT, 0), PollAction::Finish { read_block: false, errors: STATUS_ERR_CMD_TIMEOUT });
}

#[test]
fn buffered_command_counts_blocks() {
    let cmd = Command::ReadMutliBlocks.bits();
    assert!(cmd & CMD_DATA_EN != 0);
    let mut p = CommandPoll::start(cmd, 3, true);
    assert_eq!(p.wait_for, STATUS_DATA_END);
    assert_eq!(p.poll(STATUS_CMD_BUSY, DATA32_RX_READY), PollAction::Continue { read_block: true });
    assert_eq!(p.poll(0, 0), PollAction::Continue { read_block: false });
    assert_eq!(p.blocks_left, 1);
    assert_eq!(p.poll(0, DATA32_RX_READY), PollAction::Finish { read_block: true, errors: 0 });
}

#[test]
fn data_end_finishes_early() {
    let mut p = CommandPoll::start(Command::ReadMutliBlocks.bits(), 4, true);
    assert_eq!(p.poll(STATUS_DATA_END, 0), PollAction::Finish { read_block: false, errors: 0 });
}

#[test]
fn all_errors_at_once_finish_even_when_busy() {
    let mut p = CommandPoll::start(Command::SendStatus.bits(), 0, false);
    assert_eq!(p.poll(STATUS_ALL_ERRORS | STATUS_CMD_BUSY, 0), PollAction::Finish { read_block: false, errors: STATUS_ALL_ERRORS });
}

#[test]
fn sector_bytes_are_little_endian() {
    let mut s = StorageSector::zeroed();
    s.0[0] = 0x4433_2211;
    s.0[127] = 0xDDCC_BBAA;
    let b = s.bytes();
    assert_eq!(b.len(), 512);
    assert_eq!(&b[0..4], &[0x11, 0x22, 0x33, 0x44]);
    assert_eq!(&b[508..512], &[0xAA, 0xBB, 0xCC, 0xDD]);
    assert!(b[4..508].iter().all(|x| *x == 0));
}

#[test]
fn relative_card_address() {
    let r = RCA::from_response(0x1234_0500);
    assert_eq!(r, RCA(0x1234));
    assert_eq!(r.argument(), 0x1234_0000);
}
