use reboot_lib::arm7::{
    check_storage_reply, controls_from_reply, init_storage_reply, music_request, read_reply,
    recieve_check, reply_result, request_words, send_check, sound_channel_write,
    sound_request_words, status_of, status_word, storage_device, write_reply, Arm7Request,
    MusicRequest, RecieveFifoError, SendFifoError, TransactionCode, IPCCNT_ENABLE_FIFOS,
    IPCCNT_RECV_FIFO_EMPTY, IPCCNT_SEND_FIFO_FULL, REPLY_UNKNOWN,
};
use reboot_lib::mmc::DeviceSelect;
use reboot_lib::sdmmc::InitSDMMCError;
use reboot_lib::touch::Controller;

#[test]
fn fifo_checks() {
    assert_eq!(send_check(IPCCNT_ENABLE_FIFOS), Ok(()));
    assert_eq!(send_check(IPCCNT_ENABLE_FIFOS | IPCCNT_SEND_FIFO_FULL), Err(SendFifoError::QueueFull));
    assert_eq!(send_check(0), Err(SendFifoError::FifoDisabled));
    assert_eq!(recieve_check(IPCCNT_ENABLE_FIFOS), Ok(()));
    assert_eq!(recieve_check(IPCCNT_ENABLE_FIFOS | IPCCNT_RECV_FIFO_EMPTY), Err(RecieveFifoError::QueueEmpty));
    assert_eq!(recieve_check(IPCCNT_RECV_FIFO_EMPTY), Err(RecieveFifoError::QueueEmpty));
    assert_eq!(recieve_check(0), Err(RecieveFifoError::FifoDisabled));
}

#[test]
fn status_goes_through_the_sync_register() {
    assert_eq!(status_word(7), 0x700);
    assert_eq!(status_word(0x1F), 0xF00);
    for s in 0..=255u8 {
        assert_eq!(status_of(status_word(s) >> 8), s % 16);
    }
    assert_eq!(status_of(0x1234_5677), 7);
}

#[test]
fn request_words_decode() {
    assert_eq!(Arm7Request::decode(1), Some(Arm7Request::FetchControls));
    assert_eq!(Arm7Request::decode(14), Some(Arm7Request::PlaySound));
    assert_eq!(Arm7Request::decode(4), None);
    assert_eq!(Arm7Request::decode(7), None);
    assert_eq!(Arm7Request::decode(16), None);
    assert_eq!(Arm7Request::SetBuffer.argument_words(), 2);
    assert_eq!(Arm7Request::PlaySound.argument_words(), 4);
    assert_eq!(Arm7Request::ModCrypt.argument_words(), 0);
    assert!(Arm7Request::ReadNand.expects_empty_queue());
    assert!(!Arm7Request::InitStorage.expects_empty_queue());
}

#[test]
fn both_sides_agree_on_request_words() {
    let pairs = [
        (TransactionCode::ReadControls, Arm7Request::FetchControls),
        (TransactionCode::SetBuffer, Arm7Request::SetBuffer),
        (TransactionCode::ReadNandEncrypted, Arm7Request::ReadNand),
        (TransactionCode::ReadSD, Arm7Request::ReadSd),
        (TransactionCode::WriteSD, Arm7Request::WriteSd),
        (TransactionCode::WriteNand, Arm7Request::WriteNand),
        (TransactionCode::Boot, Arm7Request::Boot),
        (TransactionCode::DoModcrypt, Arm7Request::ModCrypt),
        (TransactionCode::InitSDMMCDevice, Arm7Request::InitStorage),
        (TransactionCode::CheckSDMMCDevice, Arm7Request::CheckStorage),
        (TransactionCode::InitWifi, Arm7Request::InitWifi),
        (TransactionCode::SetSoundChannel, Arm7Request::PlaySound),
    ];
    for (code, req) in pairs {
        assert_eq!(Arm7Request::decode(code.word()), Some(req));
    }
    assert_eq!(TransactionCode::ReadNandRaw.word(), 4);
    assert_eq!(Arm7Request::decode(TransactionCode::SetWarmboot.word()), None);
}

#[test]
fn replies() {
    assert_eq!(read_reply(Ok(())), 0);
    assert_eq!(read_reply(Err(0x40_0000)), 0x8040_0000);
    assert_eq!(write_reply(Err(0x40_0000)), 0x40_0000);
    assert_eq!(write_reply(Ok(())), 0);
    assert_eq!(init_storage_reply(Ok(())), 0);
    assert_eq!(init_storage_reply(Err(InitSDMMCError::RelAddr)), 16);
    assert_eq!(check_storage_reply(1), 0);
    assert_eq!(check_storage_reply(2), 0);
    assert_eq!(check_storage_reply(3), 1);
    assert_eq!(REPLY_UNKNOWN, 0x8000_0000);
}

#[test]
fn storage_devices() {
    assert!(storage_device(1) == Some(DeviceSelect::SDCardSlot));
    assert!(storage_device(2) == Some(DeviceSelect::EMMC));
    assert!(storage_device(0).is_none());
    assert!(storage_device(3).is_none());
}

#[test]
fn music_requests() {
    assert_eq!(music_request(0, 0x0200_0000), (MusicRequest::Module(0x0200_0000), 0));
    assert_eq!(music_request(1, 5), (MusicRequest::Procedural, 0));
    assert_eq!(music_request(2, 5), (MusicRequest::Unknown, REPLY_UNKNOWN));
}

#[test]
fn sound_request_round_trip() {
    let words = sound_request_words(0x0230_0000, 0x1000, 5, 0xFE00, 0x8800_0000, 0x40);
    assert_eq!(words, [0x0230_0000, 0x1_0005, 0x40_FE00, 0x8800_0000]);
    let w = sound_channel_write(words[0], words[1], words[2], words[3]);
    assert_eq!(w.channel, 5);
    assert_eq!(w.length, 0x400);
    assert_eq!(w.timer, 0xFE00);
    assert_eq!(w.loop_start, 0x40);
    assert_eq!(w.source, 0x0230_0000);
    assert!(w.start);
    let stop = sound_channel_write(0, 3, 0, 0);
    assert!(!stop.start);
    assert_eq!(stop.channel, 3);
}

#[test]
fn request_and_reply_words() {
    assert_eq!(request_words(TransactionCode::ReadSD, &[77]), vec![5, 77]);
    assert_eq!(request_words(TransactionCode::Boot, &[]), vec![6]);
    assert_eq!(reply_result(0), Ok(()));
    assert_eq!(reply_result(0x8000_0001), Err(0x8000_0001));
}

#[test]
fn controller_reading_survives_the_trip() {
    let mut c = Controller::from_calibration(0x100, 0x100, 16, 16, 0xF00, 0xF00, 240, 176);
    c.last_x = 0x12;
    c.last_y = 0x34;
    let word = c.next_fetch(!1u16, 0xFFFF, false, None);
    let controls = controls_from_reply(reply_result(word));
    assert_eq!(controls.buttons, 1);
    assert_eq!(controls.touch_x, 0x12);
    assert_eq!(controls.touch_y, 0x34);
    let none = controls_from_reply(Ok(()));
    assert_eq!((none.buttons, none.touch_x, none.touch_y), (0, 0, 0));
}
