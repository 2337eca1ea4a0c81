use reboot_lib::interrupts::{
    acknowledge_mask, disable_bit, enable_bit, highest_set_bit, next_interrupt, slot_of, Interrupt,
    InterruptSlot,
};

#[test]
fn slots_of_main_and_auxiliary_interrupts() {
    assert_eq!(slot_of(Interrupt::VBlank), InterruptSlot { aux: false, index: 0 });
    assert_eq!(slot_of(Interrupt::IPCNonEmpty), InterruptSlot { aux: false, index: 18 });
    assert_eq!(slot_of(Interrupt::NDMA3), InterruptSlot { aux: false, index: 31 });
    assert_eq!(slot_of(Interrupt::GPIO180), InterruptSlot { aux: true, index: 0 });
    assert_eq!(slot_of(Interrupt::Powerbutton), InterruptSlot { aux: true, index: 6 });
    assert_eq!(slot_of(Interrupt::SDMMC), InterruptSlot { aux: true, index: 8 });
    assert_eq!(slot_of(Interrupt::MicrophoneExt), InterruptSlot { aux: true, index: 14 });
    assert_eq!(Interrupt::I2C.number(), 45);
}

#[test]
fn enabling_and_disabling_bits() {
    assert_eq!(enable_bit(0, 18), 1 << 18);
    assert_eq!(enable_bit(0b101, 1), 0b111);
    assert_eq!(disable_bit(0b111, 1), 0b101);
    assert_eq!(disable_bit(0, 31), 0);
    assert_eq!(acknowledge_mask(31), 0x8000_0000);
}

#[test]
fn highest_bit_index() {
    assert_eq!(highest_set_bit(1), 0);
    assert_eq!(highest_set_bit(2), 1);
    assert_eq!(highest_set_bit(3), 1);
    assert_eq!(highest_set_bit(0x8000_0000), 31);
    assert_eq!(highest_set_bit(0xFFFF_FFFF), 31);
    assert_eq!(highest_set_bit(0x0004_0101), 18);
}

#[test]
fn the_highest_pending_enabled_interrupt_is_served() {
    assert_eq!(next_interrupt(0b1011, 0b1110, 0, 0), Some(InterruptSlot { aux: false, index: 3 }));
    assert_eq!(next_interrupt(0b0001, 0b1110, 0, 0), None);
    assert_eq!(next_interrupt(0b0001, 0b1110, 0x100, 0x140), Some(InterruptSlot { aux: true, index: 8 }));
    assert_eq!(next_interrupt(1, 1, 0x100, 0x100), Some(InterruptSlot { aux: false, index: 0 }));
}

#[test]
fn served_interrupt_is_pending_and_nothing_higher_is() {
    let cases = [(0xFFFF_FFFFu32, 0x0000_0F00u32), (0x8000_0001, 0x8000_0001), (0x0F0F_0F0F, 0x00FF_0000)];
    for (ie, iflags) in cases {
        let pending = ie & iflags;
        if pending == 0 {
            continue;
        }
        let s = next_interrupt(ie, iflags, 0, 0).unwrap();
        let bit = 1u64 << s.index;
        assert!((pending as u64) & bit != 0);
        assert!((pending as u64) < 2 * bit);
    }
}
