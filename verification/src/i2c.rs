//! Devices on the I2C bus and on the SPI power-management chip: register
//! addressing, and the retrying I2C transfer as a state machine driven by the
//! acknowledge bit of each bus step.
use vstd::prelude::*;

verus! {

/// Registers of the BPTWL power/button controller.
#[derive(Debug, Clone, Copy, PartialEq, Eq, Structural)]
pub enum PowerRegister {
    /// Revision number.
    BATUNK,
    /// Power button status.
    PWRIF,
    /// Force system reset.
    PWRCNT,
    /// Power button behaviour.
    MMCPWR,
    /// Battery charge state.
    BATTERY,
    /// Wifi LED behaviour.
    WIFILED,
    /// Camera LED enable.
    CAMLED,
    /// Volume level.
    VOL,
    /// Backlight strength.
    BACKLIGHT,
    /// Cold or warm boot (1: warm).
    RESETFLAG,
    /// Power button tap delay.
    PowerButtonTap,
    /// Power button hold delay.
    PowerButtonHold,
}

impl PowerRegister {
    /// The register's number on the chip.
    pub open spec fn spec_number(self) -> u8 {
        match self {
            PowerRegister::BATUNK => 0x00,
            PowerRegister::PWRIF => 0x10,
            PowerRegister::PWRCNT => 0x11,
            PowerRegister::MMCPWR => 0x12,
            PowerRegister::BATTERY => 0x20,
            PowerRegister::WIFILED => 0x30,
            PowerRegister::CAMLED => 0x31,
            PowerRegister::VOL => 0x40,
            PowerRegister::BACKLIGHT => 0x41,
            PowerRegister::RESETFLAG => 0x70,
            PowerRegister::PowerButtonTap => 0x80,
            PowerRegister::PowerButtonHold => 0x81,
        }
    }

    /// The register's number on the chip.
    pub fn number(self) -> (n: u8)
        ensures
            n == self.spec_number(),
    {
        match self {
            PowerRegister::BATUNK => 0x00,
            PowerRegister::PWRIF => 0x10,
            PowerRegister::PWRCNT => 0x11,
            PowerRegister::MMCPWR => 0x12,
            PowerRegister::BATTERY => 0x20,
            PowerRegister::WIFILED => 0x30,
            PowerRegister::CAMLED => 0x31,
            PowerRegister::VOL => 0x40,
            PowerRegister::BACKLIGHT => 0x41,
            PowerRegister::RESETFLAG => 0x70,
            PowerRegister::PowerButtonTap => 0x80,
            PowerRegister::PowerButtonHold => 0x81,
        }
    }
}

/// The devices on the I2C bus, with the register addressed on the power
/// controller.
#[derive(Debug, Clone, Copy, PartialEq, Eq, Structural)]
pub enum I2CRegister {
    I2cCam0,
    I2cCam1,
    I2cUnkA0,
    I2cUnkE0,
    I2cPower(PowerRegister),
    I2cUnk40,
    I2cGpio,
}

impl I2CRegister {
    /// The device's bus address and the register number.
    pub open spec fn spec_chip_and_reg(self) -> (u8, u8) {
        match self {
            I2CRegister::I2cCam0 => (0x7A, 0),
            I2CRegister::I2cCam1 => (0x78, 0),
            I2CRegister::I2cUnkA0 => (0xA0, 0),
            I2CRegister::I2cUnkE0 => (0xE0, 0),
            I2CRegister::I2cPower(r) => (0x4A, r.spec_number()),
            I2CRegister::I2cUnk40 => (0x40, 0),
            I2CRegister::I2cGpio => (0x90, 0),
        }
    }

    /// The device's bus address and the register number.
    pub fn as_chip_and_reg(self) -> (r: (u8, u8))
        ensures
            r == self.spec_chip_and_reg(),
    {
        match self {
            I2CRegister::I2cCam0 => (0x7A, 0),
            I2CRegister::I2cCam1 => (0x78, 0),
            I2CRegister::I2cUnkA0 => (0xA0, 0),
            I2CRegister::I2cUnkE0 => (0xE0, 0),
            I2CRegister::I2cPower(r) => (0x4A, r.number()),
            I2CRegister::I2cUnk40 => (0x40, 0),
            I2CRegister::I2cGpio => (0x90, 0),
        }
    }
}

/// Every device has an even (write) bus address, so that the address with the
/// low bit set is its read address.
pub proof fn law_chip_addresses_are_write_addresses(r: I2CRegister)
    ensures
        r.spec_chip_and_reg().0 % 2 == 0,
{
}

/// A transfer on the I2C bus went through.
#[derive(Debug, Clone, Copy, PartialEq, Eq, Structural)]
pub struct I2CSuccess;

/// A transfer on the I2C bus failed on every attempt.
#[derive(Debug, Clone, Copy, PartialEq, Eq, Structural)]
pub struct I2CFailure;

/// Attempts made before a transfer counts as failed.
pub const I2C_ATTEMPTS: u8 = 8;

/// I2C control: stop.
pub const I2C_STOP: u8 = 1 << 0;
/// I2C control: start.
pub const I2C_START: u8 = 1 << 1;
/// I2C control: error.
pub const I2C_ERROR: u8 = 1 << 2;
/// I2C control: acknowledge.
pub const I2C_ACK: u8 = 1 << 4;
/// I2C control: read direction.
pub const I2C_DATA_READ: u8 = 1 << 5;
/// I2C control: interrupt enable.
pub const I2C_ENABLE_INTERRUPT: u8 = 1 << 6;
/// I2C control: busy.
pub const I2C_START_BUSY: u8 = 1 << 7;

/// The control byte that selects a device (start of a transfer).
pub const I2C_SELECT_DEVICE: u8 = 0x80 | 0x02 | 0x40;
/// The control byte that sends a register number or data byte.
pub const I2C_SEND_BYTE: u8 = 0x80 | 0x40;
/// The control byte that aborts a transfer.
pub const I2C_ABORT: u8 = 0x80 | 0x04 | 0x01 | 0x40;

/// The last step was acknowledged by the device.
pub fn acknowledged(control: u8) -> (b: bool)
    ensures
        b == (control & I2C_ACK != 0),
{
    control & I2C_ACK != 0
}

/// What the bus driver does next. Every step but the last waits until the bus
/// is idle and 0x180 delay units first.
#[derive(Debug, Clone, Copy, PartialEq, Eq)]
pub enum I2cAction {
    /// Put the address in the data register and write [`I2C_SELECT_DEVICE`];
    /// report the acknowledge bit.
    SelectDevice(u8),
    /// Put the register number in the data register and write
    /// [`I2C_SEND_BYTE`]; report the acknowledge bit.
    SelectRegister(u8),
    /// Put the value in the data register and stop with direction write;
    /// report the acknowledge bit.
    WriteValue(u8),
    /// Stop with direction read, wait for the bus, and report the data
    /// register.
    ReadValue,
    /// Write [`I2C_ABORT`]; the answer is ignored.
    Abort,
    /// A write transfer ended.
    Written(Result<I2CSuccess, I2CFailure>),
    /// A read transfer ended.
    Read(Result<u8, I2CFailure>),
}

/// Where a transfer stands: the step whose answer it waits for.
#[derive(Debug, Clone, Copy, PartialEq, Eq, Structural)]
pub enum I2cPhase {
    Device,
    Register,
    Value,
    ReadDevice,
    Read,
    Aborting,
    Done,
}

/// One register transfer on the I2C bus, retried up to [`I2C_ATTEMPTS`]
/// times.
#[derive(Debug, Clone, Copy, PartialEq, Eq)]
pub struct I2cTransfer {
    pub device: u8,
    pub register: u8,
    /// The value to write; `None` for a read.
    pub value: Option<u8>,
    /// Attempts that failed so far.
    pub failed: u8,
    pub phase: I2cPhase,
    /// The end of the transfer, once it ended.
    pub outcome: I2cAction,
}

impl I2cTransfer {
    /// The failed count stays below the limit until the transfer has ended.
    pub open spec fn wf(self) -> bool {
        &&& self.failed < I2C_ATTEMPTS
        &&& self.phase is Done ==> (self.outcome is Written || self.outcome is Read)
    }

    fn start(register: I2CRegister, value: Option<u8>) -> (r: (I2cTransfer, I2cAction))
        ensures
            r.0.wf(),
            (r.0.device, r.0.register) == register.spec_chip_and_reg(),
            r.0.value == value,
            r.0.failed == 0,
            r.0.phase == I2cPhase::Device,
            r.1 == I2cAction::SelectDevice(register.spec_chip_and_reg().0),
    {
        let (device, reg) = register.as_chip_and_reg();
        (
            I2cTransfer {
                device,
                register: reg,
                value,
                failed: 0,
                phase: I2cPhase::Device,
                outcome: I2cAction::Abort,
            },
            I2cAction::SelectDevice(device),
        )
    }

    /// A write of `value` to `register`, and its first step.
    pub fn write(register: I2CRegister, value: u8) -> (r: (I2cTransfer, I2cAction))
        ensures
            r.0.wf(),
            (r.0.device, r.0.register) == register.spec_chip_and_reg(),
            r.0.value == Some(value),
            r.0.failed == 0,
            r.0.phase == I2cPhase::Device,
            r.1 == I2cAction::SelectDevice(register.spec_chip_and_reg().0),
    {
        Self::start(register, Some(value))
    }

    /// A read of `register`, and its first step.
    pub fn read(register: I2CRegister) -> (r: (I2cTransfer, I2cAction))
        ensures
            r.0.wf(),
            (r.0.device, r.0.register) == register.spec_chip_and_reg(),
            r.0.value is None,
            r.0.failed == 0,
            r.0.phase == I2cPhase::Device,
            r.1 == I2cAction::SelectDevice(register.spec_chip_and_reg().0),
    {
        Self::start(register, None)
    }

    /// The end of a transfer that failed on every attempt.
    pub open spec fn failure(self) -> I2cAction {
        if self.value is Some {
            I2cAction::Written(Err(I2CFailure))
        } else {
            I2cAction::Read(Err(I2CFailure))
        }
    }

    /// One step of the transfer: the answer to the last action (`ack`, the
    /// acknowledge bit; `data`, the data register after a read) decides the
    /// next.
    pub open spec fn step_spec(self, ack: bool, data: u8, next: I2cTransfer, act: I2cAction) -> bool {
        &&& next.device == self.device
        &&& next.register == self.register
        &&& next.value == self.value
        &&& match self.phase {
            I2cPhase::Device => if ack {
                next.phase == I2cPhase::Register && next.failed == self.failed && act
                    == I2cAction::SelectRegister(self.register)
            } else {
                next.phase == I2cPhase::Aborting && next.failed == self.failed && act
                    == I2cAction::Abort
            },
            I2cPhase::Register => if !ack {
                next.phase == I2cPhase::Aborting && next.failed == self.failed && act
                    == I2cAction::Abort
            } else if let Some(v) = self.value {
                next.phase == I2cPhase::Value && next.failed == self.failed && act
                    == I2cAction::WriteValue(v)
            } else {
                next.phase == I2cPhase::ReadDevice && next.failed == self.failed && act
                    == I2cAction::SelectDevice((self.device | 1) as u8)
            },
            I2cPhase::Value => if ack {
                next.phase == I2cPhase::Done && act == I2cAction::Written(Ok(I2CSuccess))
                    && next.outcome == act
            } else {
                next.phase == I2cPhase::Aborting && next.failed == self.failed && act
                    == I2cAction::Abort
            },
            I2cPhase::ReadDevice => if ack {
                next.phase == I2cPhase::Read && next.failed == self.failed && act
                    == I2cAction::ReadValue
            } else {
                next.phase == I2cPhase::Aborting && next.failed == self.failed && act
                    == I2cAction::Abort
            },
            I2cPhase::Read => next.phase == I2cPhase::Done && act == I2cAction::Read(Ok(data))
                && next.outcome == act,
            I2cPhase::Aborting => if self.failed + 1 == I2C_ATTEMPTS {
                next.phase == I2cPhase::Done && act == self.failure() && next.outcome == act
            } else {
                next.phase == I2cPhase::Device && next.failed == self.failed + 1 && act
                    == I2cAction::SelectDevice(self.device)
            },
            I2cPhase::Done => next == self && act == self.outcome,
        }
    }

    /// Takes the answer to the last action and decides the next one.
    pub fn step(&mut self, ack: bool, data: u8) -> (act: I2cAction)
        requires
            old(self).wf(),
        ensures
            final(self).wf(),
            old(self).step_spec(ack, data, *final(self), act),
    {
        match self.phase {
            I2cPhase::Device => {
                if ack {
                    self.phase = I2cPhase::Register;
                    I2cAction::SelectRegister(self.register)
                } else {
                    self.phase = I2cPhase::Aborting;
                    I2cAction::Abort
                }
            },
            I2cPhase::Register => {
                if !ack {
                    self.phase = I2cPhase::Aborting;
                    return I2cAction::Abort;
                }
                match self.value {
                    Some(v) => {
                        self.phase = I2cPhase::Value;
                        I2cAction::WriteValue(v)
                    },
                    None => {
                        self.phase = I2cPhase::ReadDevice;
                        I2cAction::SelectDevice(self.device | 1)
                    },
                }
            },
            I2cPhase::Value => {
                if ack {
                    let act = I2cAction::Written(Ok(I2CSuccess));
                    self.phase = I2cPhase::Done;
                    self.outcome = act;
                    act
                } else {
                    self.phase = I2cPhase::Aborting;
                    I2cAction::Abort
                }
            },
            I2cPhase::ReadDevice => {
                if ack {
                    self.phase = I2cPhase::Read;
                    I2cAction::ReadValue
                } else {
                    self.phase = I2cPhase::Aborting;
                    I2cAction::Abort
                }
            },
            I2cPhase::Read => {
                let act = I2cAction::Read(Ok(data));
                self.phase = I2cPhase::Done;
                self.outcome = act;
                act
            },
            I2cPhase::Aborting => {
                if self.failed + 1 == I2C_ATTEMPTS {
                    let act = if self.value.is_some() {
                        I2cAction::Written(Err(I2CFailure))
                    } else {
                        I2cAction::Read(Err(I2CFailure))
                    };
                    self.phase = I2cPhase::Done;
                    self.outcome = act;
                    act
                } else {
                    self.failed = self.failed + 1;
                    self.phase = I2cPhase::Device;
                    I2cAction::SelectDevice(self.device)
                }
            },
            I2cPhase::Done => self.outcome,
        }
    }
}

/// A write is reported done only after the device acknowledged the value, and
/// a read only with the byte the device sent.
pub proof fn law_transfer_success_needs_device(
    t: I2cTransfer,
    ack: bool,
    data: u8,
    next: I2cTransfer,
    act: I2cAction,
)
    requires
        t.phase != I2cPhase::Done,
        t.step_spec(ack, data, next, act),
    ensures
        act == I2cAction::Written(Ok(I2CSuccess)) ==> t.phase == I2cPhase::Value && ack,
        (act matches I2cAction::Read(Ok(b)) ==> (t.phase == I2cPhase::Read && b == data)),
{
}

/// A transfer that has not ended starts a new attempt only while attempts
/// are left, and gives up with a failure on the last one.
pub proof fn law_transfer_attempts_bounded(
    t: I2cTransfer,
    ack: bool,
    data: u8,
    next: I2cTransfer,
    act: I2cAction,
)
    requires
        t.wf(),
        t.phase == I2cPhase::Aborting,
        t.step_spec(ack, data, next, act),
    ensures
        t.failed + 1 < I2C_ATTEMPTS ==> next.failed == t.failed + 1 && next.phase
            == I2cPhase::Device,
        t.failed + 1 == I2C_ATTEMPTS ==> act == t.failure() && next.phase == I2cPhase::Done,
{
}

/// What the power button interrupt asks for.
#[derive(Debug, Clone, Copy, PartialEq, Eq, Structural)]
pub enum PowerButtonAction {
    /// Set the warm-boot flag and reset.
    Reset,
    /// Cut the power.
    ShutDown,
    /// Some other interrupt of the controller.
    Ignore,
}

/// The reaction to the power controller's interrupt status, read from
/// [`PowerRegister::PWRIF`]: cause 1 resets, cause 2 shuts down.
pub fn power_button_action(status: Result<u8, I2CFailure>) -> (a: PowerButtonAction)
    ensures
        a == match status {
            Ok(s) => if s & 3 == 1 {
                PowerButtonAction::Reset
            } else if s & 3 == 2 {
                PowerButtonAction::ShutDown
            } else {
                PowerButtonAction::Ignore
            },
            Err(_) => PowerButtonAction::Ignore,
        },
{
    match status {
        Ok(s) => {
            let cause: u8 = s & 3;
            if cause == 1 {
                PowerButtonAction::Reset
            } else if cause == 2 {
                PowerButtonAction::ShutDown
            } else {
                PowerButtonAction::Ignore
            }
        },
        Err(_) => PowerButtonAction::Ignore,
    }
}

/// Microphone gain settings of the power-management chip.
#[derive(Debug, Clone, Copy, PartialEq, Eq, Structural)]
pub enum MicrophoneGain {
    Low,
    Med,
    High,
    Max,
}

impl MicrophoneGain {
    /// The register value.
    pub open spec fn spec_value(self) -> u8 {
        match self {
            MicrophoneGain::Low => 0,
            MicrophoneGain::Med => 1,
            MicrophoneGain::High => 2,
            MicrophoneGain::Max => 3,
        }
    }

    /// The register value.
    pub fn value(self) -> (v: u8)
        ensures
            v == self.spec_value(),
    {
        match self {
            MicrophoneGain::Low => 0,
            MicrophoneGain::Med => 1,
            MicrophoneGain::High => 2,
            MicrophoneGain::Max => 3,
        }
    }
}

/// Power control: sound amplifier on.
pub const POWER_ENABLE_SOUND_AMP: u8 = 1 << 0;
/// Power control: sound amplifier muted.
pub const POWER_MUTE_SOUND_AMP: u8 = 1 << 1;
/// Power control: lower backlight on.
pub const POWER_ENABLE_LOWER_BACKLIGHT: u8 = 1 << 2;
/// Power control: upper backlight on.
pub const POWER_ENABLE_UPPER_BACKLIGHT: u8 = 1 << 3;
/// Power control: both backlights on.
pub const POWER_ENABLE_BACKLIGHTS: u8 = 0b11 << 2;
/// Power control: power LED blinks.
pub const POWER_LED_BLINK: u8 = 1 << 4;
/// Power control: power LED blinks fast.
pub const POWER_LED_SPEED: u8 = 1 << 5;
/// Power control: cut the power.
pub const POWER_SHUT_DOWN: u8 = 1 << 6;

/// A write to a register of the SPI power-management chip, with its value.
#[derive(Debug, Clone, Copy, PartialEq, Eq, Structural)]
pub enum PowerRegiser {
    Control(u8),
    BatteryStatus(u8),
    MicrophoneAmp(u8),
    MicrophoneGain(MicrophoneGain),
    Backlight(u8),
    Reset(u8),
    ReadRegister,
}

impl PowerRegiser {
    /// The register index and the value written to it.
    pub open spec fn spec_reg_and_value(self) -> (u8, u8) {
        match self {
            PowerRegiser::Control(v) => (0, v),
            PowerRegiser::BatteryStatus(v) => (1, v),
            PowerRegiser::MicrophoneAmp(v) => (2, v),
            PowerRegiser::MicrophoneGain(g) => (3, g.spec_value()),
            PowerRegiser::Backlight(v) => (4, v),
            PowerRegiser::Reset(v) => (0x10, v),
            PowerRegiser::ReadRegister => (0x80, 0),
        }
    }

    /// The register index and the value written to it.
    pub fn as_reg_and_value(self) -> (r: (u8, u8))
        ensures
            r == self.spec_reg_and_value(),
    {
        match self {
            PowerRegiser::Control(v) => (0, v),
            PowerRegiser::BatteryStatus(v) => (1, v),
            PowerRegiser::MicrophoneAmp(v) => (2, v),
            PowerRegiser::MicrophoneGain(g) => (3, g.value()),
            PowerRegiser::Backlight(v) => (4, v),
            PowerRegiser::Reset(v) => (0x10, v),
            PowerRegiser::ReadRegister => (0x80, 0),
        }
    }
}

/// The four bytes that start a firmware flash read at `start`: the read
/// command, then the address, most significant byte first.
pub fn firmware_read_command(start: u32) -> (c: [u8; 4])
    ensures
        c[0] == 3,
        c[1] == (start / 0x1_0000) % 256,
        c[2] == (start / 0x100) % 256,
        c[3] == start % 256,
{
    let hi: u8 = ((start >> 16u32) & 0xFFu32) as u8;
    let mid: u8 = ((start >> 8u32) & 0xFFu32) as u8;
    let lo: u8 = (start & 0xFFu32) as u8;
    assert(((start >> 16u32) & 0xFFu32) == (start / 0x1_0000) % 256 && ((start >> 8u32)
        & 0xFFu32) == (start / 0x100) % 256 && (start & 0xFFu32) == start % 256) by (bit_vector);
    [3u8, hi, mid, lo]
}

/// The write that switches the codec to register bank `bank` when the
/// current bank is `current`: none when it is already selected, else the bank
/// number written to register 0, or to 0x7F when leaving bank 0xFF.
pub fn bank_switch(current: u8, bank: u8) -> (w: Option<(u8, u8)>)
    ensures
        current == bank ==> w is None,
        current != bank && current == 0xFF ==> w == Some((0x7Fu8, bank)),
        current != bank && current != 0xFF ==> w == Some((0u8, bank)),
{
    if bank == current {
        None
    } else if current == 0xFF {
        Some((0x7F, bank))
    } else {
        Some((0, bank))
    }
}

} // verus!
