use reboot_lib::i2c::{
    acknowledged, bank_switch, firmware_read_command, power_button_action, I2CFailure,
    I2CRegister, I2CSuccess, I2cAction, I2cPhase, I2cTransfer, MicrophoneGain, PowerButtonAction,
    PowerRegiser, PowerRegister, I2C_ATTEMPTS,
};

#[test]
fn chip_and_register_numbers() {
    assert_eq!(I2CRegister::I2cCam0.as_chip_and_reg(), (0x7A, 0));
    assert_eq!(I2CRegister::I2cCam1.as_chip_and_reg(), (0x78, 0));
    assert_eq!(I2CRegister::I2cUnkA0.as_chip_and_reg(), (0xA0, 0));
    assert_eq!(I2CRegister::I2cUnkE0.as_chip_and_reg(), (0xE0, 0));
    assert_eq!(I2CRegister::I2cUnk40.as_chip_and_reg(), (0x40, 0));
    assert_eq!(I2CRegister::I2cGpio.as_chip_and_reg(), (0x90, 0));
    assert_eq!(I2CRegister::I2cPower(PowerRegister::PWRIF).as_chip_and_reg(), (0x4A, 0x10));
    assert_eq!(I2CRegister::I2cPower(PowerRegister::RESETFLAG).as_chip_and_reg(), (0x4A, 0x70));
    assert_eq!(I2CRegister::I2cPower(PowerRegister::PowerButtonHold).as_chip_and_reg(), (0x4A, 0x81));
}

#[test]
fn every_device_address_is_even() {
    let all = [
        I2CRegister::I2cCam0,
        I2CRegister::I2cCam1,
        I2CRegister::I2cUnkA0,
        I2CRegister::I2cUnkE0,
        I2CRegister::I2cPower(PowerRegister::VOL),
        I2CRegister::I2cUnk40,
        I2CRegister::I2cGpio,
    ];
    for r in all {
        assert_eq!(r.as_chip_and_reg().0 % 2, 0);
    }
}

#[test]
fn write_transfer_succeeds_on_first_attempt() {
    let (mut t, act) = I2cTransfer::write(I2CRegister::I2cPower(PowerRegister::VOL), 0x1F);
    assert_eq!(act, I2cAction::SelectDevice(0x4A));
    assert_eq!(t.step(true, 0), I2cAction::SelectRegister(0x40));
    assert_eq!(t.step(true, 0), I2cAction::WriteValue(0x1F));
    assert_eq!(t.step(true, 0), I2cAction::Written(Ok(I2CSuccess)));
    assert_eq!(t.phase, I2cPhase::Done);
    assert_eq!(t.step(false, 0), I2cAction::Written(Ok(I2CSuccess)));
}

#[test]
fn read_transfer_uses_the_read_address() {
    let (mut t, _) = I2cTransfer::read(I2CRegister::I2cPower(PowerRegister::PWRIF));
    assert_eq!(t.step(true, 0), I2cAction::SelectRegister(0x10));
    assert_eq!(t.step(true, 0), I2cAction::SelectDevice(0x4B));
    assert_eq!(t.step(true, 0), I2cAction::ReadValue);
    assert_eq!(t.step(false, 0x42), I2cAction::Read(Ok(0x42)));
}

#[test]
fn failed_steps_are_retried_then_reported() {
    let (mut t, _) = I2cTransfer::write(I2CRegister::I2cGpio, 1);
    for attempt in 0..I2C_ATTEMPTS {
        assert_eq!(t.step(false, 0), I2cAction::Abort);
        let next = t.step(false, 0);
        if attempt + 1 < I2C_ATTEMPTS {
            assert_eq!(next, I2cAction::SelectDevice(0x90));
            assert_eq!(t.failed, attempt + 1);
        } else {
            assert_eq!(next, I2cAction::Written(Err(I2CFailure)));
        }
    }
}

#[test]
fn a_retry_can_succeed() {
    let (mut t, _) = I2cTransfer::read(I2CRegister::I2cCam0);
    assert_eq!(t.step(true, 0), I2cAction::SelectRegister(0));
    assert_eq!(t.step(false, 0), I2cAction::Abort);
    assert_eq!(t.step(true, 0), I2cAction::SelectDevice(0x7A));
    t.step(true, 0);
    assert_eq!(t.step(false, 0), I2cAction::Abort);
    t.step(false, 0);
    t.step(true, 0);
    t.step(true, 0);
    assert_eq!(t.step(true, 0), I2cAction::ReadValue);
    assert_eq!(t.step(true, 9), I2cAction::Read(Ok(9)));
    assert_eq!(t.failed, 2);
}

#[test]
fn acknowledge_bit() {
    assert!(acknowledged(0x10));
    assert!(acknowledged(0x90));
    assert!(!acknowledged(0x80));
}

#[test]
fn power_button_reactions() {
    assert_eq!(power_button_action(Ok(1)), PowerButtonAction::Reset);
    assert_eq!(power_button_action(Ok(0xF5)), PowerButtonAction::Reset);
    assert_eq!(power_button_action(Ok(2)), PowerButtonAction::ShutDown);
    assert_eq!(power_button_action(Ok(3)), PowerButtonAction::Ignore);
    assert_eq!(power_button_action(Ok(0)), PowerButtonAction::Ignore);
    assert_eq!(power_button_action(Err(I2CFailure)), PowerButtonAction::Ignore);
}

#[test]
fn power_management_registers() {
    assert_eq!(PowerRegiser::Control(0x40).as_reg_and_value(), (0, 0x40));
    assert_eq!(PowerRegiser::BatteryStatus(1).as_reg_and_value(), (1, 1));
    assert_eq!(PowerRegiser::MicrophoneAmp(1).as_reg_and_value(), (2, 1));
    assert_eq!(PowerRegiser::MicrophoneGain(MicrophoneGain::High).as_reg_and_value(), (3, 2));
    assert_eq!(PowerRegiser::Backlight(3).as_reg_and_value(), (4, 3));
    assert_eq!(PowerRegiser::Reset(1).as_reg_and_value(), (0x10, 1));
    assert_eq!(PowerRegiser::ReadRegister.as_reg_and_value(), (0x80, 0));
    assert_eq!(MicrophoneGain::Max.value(), 3);
}

#[test]
fn firmware_read_command_is_big_endian() {
    assert_eq!(firmware_read_command(0x0012_3456), [3, 0x12, 0x34, 0x56]);
    assert_eq!(firmware_read_command(0x20), [3, 0, 0, 0x20]);
    assert_eq!(firmware_read_command(0xFF00_0001), [3, 0, 0, 1]);
}

#[test]
fn codec_bank_switching() {
    assert_eq!(bank_switch(3, 3), None);
    assert_eq!(bank_switch(0, 1), Some((0, 1)));
    assert_eq!(bank_switch(0xFF, 0), Some((0x7F, 0)));
}
