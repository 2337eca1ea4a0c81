use reboot_lib::rtc::{
    assemble_byte, command_writes, read_byte_writes, RTC_CS_0, RTC_CS_1, RTC_END, RTC_SCK_0,
    RTC_SCK_1, RTC_SIO_1,
};
use reboot_lib::sound::{timer_from_freq, RepeatMode, SoundControl, SoundFormat, SOUND_CLOCK};

#[test]
fn rtc_command_is_shifted_out_most_significant_bit_first() {
    let w = command_writes(&[0x65]);
    assert_eq!(w.len(), 18);
    assert_eq!(w[0], 0x40 | 0x22 | 0x11);
    assert_eq!(w[1], 0x44 | 0x22 | 0x11);
    // 0x65 = 0b0110_0101
    let bits = [0u8, 1, 1, 0, 0, 1, 0, 1];
    for (k, bit) in bits.iter().enumerate() {
        assert_eq!(w[2 + 2 * k], 0x44 | 0x20 | 0x10 | bit);
        assert_eq!(w[3 + 2 * k], 0x44 | 0x22 | 0x10 | bit);
    }
}

#[test]
fn rtc_empty_command_only_selects_the_chip() {
    let w = command_writes(&[]);
    assert_eq!(w, vec![RTC_CS_0 | RTC_SCK_1 | RTC_SIO_1, RTC_CS_1 | RTC_SCK_1 | RTC_SIO_1]);
    assert_eq!(command_writes(&[0, 0xFF]).len(), 34);
}

#[test]
fn rtc_read_clocks_and_release() {
    assert_eq!(read_byte_writes(), [RTC_CS_1 | RTC_SCK_0, RTC_CS_1 | RTC_SCK_1]);
    assert_eq!(RTC_END, 0x62);
}

#[test]
fn rtc_bits_assemble_least_significant_first() {
    let bits = [true, false, true, false, false, false, false, true];
    assert_eq!(assemble_byte(0, &bits), 0x85);
    assert_eq!(assemble_byte(0x02, &bits), 0x87);
    assert_eq!(assemble_byte(0, &[false; 8]), 0);
    assert_eq!(assemble_byte(0, &[true; 8]), 0xFF);
}

#[test]
fn sound_control_new_is_a_started_psg_oneshot() {
    let c = SoundControl::new();
    assert_eq!(c.0, 0x8000_0000 | (2 << 27) | (3 << 29) | (64 << 16) | 127);
    assert_eq!(c.volume(), 127);
}

#[test]
fn sound_control_fields_replace_only_their_bits() {
    let c = SoundControl::new().with_repeat_mode(RepeatMode::Infinite);
    assert_eq!((c.0 >> 27) & 3, 1);
    assert_eq!(c.0 & 0x7F, 127);
    let c = c.with_sound_format(SoundFormat::PCM16);
    assert_eq!((c.0 >> 29) & 3, 1);
    assert_eq!((c.0 >> 27) & 3, 1);
    let c = c.with_volume(0xFF);
    assert_eq!(c.volume(), 0x7F);
    let c = c.with_volume(5).with_panning(0x90);
    assert_eq!(c.volume(), 5);
    assert_eq!((c.0 >> 16) & 0x7F, 0x10);
    assert_eq!(SoundControl(0).with_sound_format(SoundFormat::ADPCM).0, 2 << 29);
    assert_eq!(SoundControl(u32::MAX).with_repeat_mode(RepeatMode::Manual).0, !(3u32 << 27));
}

#[test]
fn sound_timer_for_a440() {
    assert_eq!(SOUND_CLOCK, 16756991);
    assert_eq!(timer_from_freq(440), 0xFFFF - 38084);
    assert_eq!(timer_from_freq(440), 27451);
    assert_eq!(timer_from_freq(u32::MAX), 0xFFFF);
    // the tick count is kept to sixteen bits
    assert_eq!(timer_from_freq(1), 0xFFFF - (16756991 % 0x10000) as u16);
}
