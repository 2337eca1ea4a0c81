//! Register map of the DSi touchscreen/sound codec (TSC2117 compatible) and
//! the byte-level protocol used to reach it over SPI.
use vstd::prelude::*;

verus! {

/// Registers of the touchscreen-control bank of the DSi codec.
#[derive(Clone, Copy, PartialEq, Eq, Structural, Debug)]
pub enum TouchCntReg {
    SarAdcCnt1,
    SarAdcCnt2,
    PrechargeSense,
    PanelVoltageStabilization,
    Status,
    BufferMode,
    TwlBufferMode,
    ScanModeTimer,
    ScanModeTimerClock,
    SarAdcClock,
    DebouncePenup,
    DebouncePendown,
}

impl TouchCntReg {
    /// The register's number within its bank.
    pub open spec fn spec_number(self) -> u8 {
        match self {
            TouchCntReg::SarAdcCnt1 => 0x02,
            TouchCntReg::SarAdcCnt2 => 0x03,
            TouchCntReg::PrechargeSense => 0x04,
            TouchCntReg::PanelVoltageStabilization => 0x05,
            TouchCntReg::Status => 0x09,
            TouchCntReg::BufferMode => 0x0D,
            TouchCntReg::TwlBufferMode => 0x0E,
            TouchCntReg::ScanModeTimer => 0x0F,
            TouchCntReg::ScanModeTimerClock => 0x10,
            TouchCntReg::SarAdcClock => 0x11,
            TouchCntReg::DebouncePenup => 0x12,
            TouchCntReg::DebouncePendown => 0x14,
        }
    }

    /// The register's number within its bank.
    pub fn number(self) -> (n: u8)
        ensures
            n == self.spec_number(),
    {
        match self {
            TouchCntReg::SarAdcCnt1 => 0x02,
            TouchCntReg::SarAdcCnt2 => 0x03,
            TouchCntReg::PrechargeSense => 0x04,
            TouchCntReg::PanelVoltageStabilization => 0x05,
            TouchCntReg::Status => 0x09,
            TouchCntReg::BufferMode => 0x0D,
            TouchCntReg::TwlBufferMode => 0x0E,
            TouchCntReg::ScanModeTimer => 0x0F,
            TouchCntReg::ScanModeTimerClock => 0x10,
            TouchCntReg::SarAdcClock => 0x11,
            TouchCntReg::DebouncePenup => 0x12,
            TouchCntReg::DebouncePendown => 0x14,
        }
    }
}

/// Registers of the chip-control bank of the DSi codec.
#[derive(Clone, Copy, PartialEq, Eq, Structural, Debug)]
pub enum CntReg {
    Reset,
    OverTemp,
    ClockMux,
    PllPr,
    PllJ,
    PllD16,
    DacNdac,
    DacMdac,
    DOSRMSB,
    DOSRLSB,
    IDAC,
    Interpolation,
    AdcNadc,
    AdcMadc,
    AOSR,
    IADC,
    Decimation,
    ClkoutMux,
    ClkDivM,
    ClkDivN,
    AdcFlags,
    GPIO1Control,
    GPIO2Control,
    SdOut,
    SdIn,
    MISO,
    SCLK,
    GPIO12,
    GPIO3Pin,
    DacInstructionSet,
    AdcInstructionSet,
    DacCtrl,
    DacVolume,
    DacVolumeLeft,
    DacVolumeRight,
    DacControl1,
    DacControl2,
    DacBeep1,
    DacBeep2,
    DacBeepLen1,
    DacBeepLen2,
    DacBeepLen3,
    DacBeepSinMSB,
    DacBeepSinLSB,
    DacBeepCosMSB,
    DacBeepCosLSB,
    AdcMic,
    AdcVolFine,
    AdcVolCoarse,
    AGCMaxGain,
    VolSarAdc,
    VolGain,
}

impl CntReg {
    /// The register's number within its bank.
    pub open spec fn spec_number(self) -> u8 {
        match self {
            CntReg::Reset => 0x01,
            CntReg::OverTemp => 0x03,
            CntReg::ClockMux => 0x04,
            CntReg::PllPr => 0x05,
            CntReg::PllJ => 0x06,
            CntReg::PllD16 => 0x07,
            CntReg::DacNdac => 0x0B,
            CntReg::DacMdac => 0x0C,
            CntReg::DOSRMSB => 0x0D,
            CntReg::DOSRLSB => 0x0E,
            CntReg::IDAC => 0x0F,
            CntReg::Interpolation => 0x10,
            CntReg::AdcNadc => 0x12,
            CntReg::AdcMadc => 0x13,
            CntReg::AOSR => 0x14,
            CntReg::IADC => 0x15,
            CntReg::Decimation => 0x16,
            CntReg::ClkoutMux => 0x19,
            CntReg::ClkDivM => 0x1A,
            CntReg::ClkDivN => 0x1E,
            CntReg::AdcFlags => 0x24,
            CntReg::GPIO1Control => 0x33,
            CntReg::GPIO2Control => 0x34,
            CntReg::SdOut => 0x35,
            CntReg::SdIn => 0x36,
            CntReg::MISO => 0x37,
            CntReg::SCLK => 0x38,
            CntReg::GPIO12 => 0x39,
            CntReg::GPIO3Pin => 0x3A,
            CntReg::DacInstructionSet => 0x3C,
            CntReg::AdcInstructionSet => 0x3D,
            CntReg::DacCtrl => 0x3F,
            CntReg::DacVolume => 0x40,
            CntReg::DacVolumeLeft => 0x41,
            CntReg::DacVolumeRight => 0x42,
            CntReg::DacControl1 => 0x44,
            CntReg::DacControl2 => 0x45,
            CntReg::DacBeep1 => 0x47,
            CntReg::DacBeep2 => 0x48,
            CntReg::DacBeepLen1 => 0x49,
            CntReg::DacBeepLen2 => 0x4A,
            CntReg::DacBeepLen3 => 0x4B,
            CntReg::DacBeepSinMSB => 0x4C,
            CntReg::DacBeepSinLSB => 0x4D,
            CntReg::DacBeepCosMSB => 0x4E,
            CntReg::DacBeepCosLSB => 0x4F,
            CntReg::AdcMic => 0x51,
            CntReg::AdcVolFine => 0x52,
            CntReg::AdcVolCoarse => 0x53,
            CntReg::AGCMaxGain => 0x58,
            CntReg::VolSarAdc => 0x74,
            CntReg::VolGain => 0x75,
        }
    }

    /// The register's number within its bank.
    pub fn number(self) -> (n: u8)
        ensures
            n == self.spec_number(),
    {
        match self {
            CntReg::Reset => 0x01,
            CntReg::OverTemp => 0x03,
            CntReg::ClockMux => 0x04,
            CntReg::PllPr => 0x05,
            CntReg::PllJ => 0x06,
            CntReg::PllD16 => 0x07,
            CntReg::DacNdac => 0x0B,
            CntReg::DacMdac => 0x0C,
            CntReg::DOSRMSB => 0x0D,
            CntReg::DOSRLSB => 0x0E,
            CntReg::IDAC => 0x0F,
            CntReg::Interpolation => 0x10,
            CntReg::AdcNadc => 0x12,
            CntReg::AdcMadc => 0x13,
            CntReg::AOSR => 0x14,
            CntReg::IADC => 0x15,
            CntReg::Decimation => 0x16,
            CntReg::ClkoutMux => 0x19,
            CntReg::ClkDivM => 0x1A,
            CntReg::ClkDivN => 0x1E,
            CntReg::AdcFlags => 0x24,
            CntReg::GPIO1Control => 0x33,
            CntReg::GPIO2Control => 0x34,
            CntReg::SdOut => 0x35,
            CntReg::SdIn => 0x36,
            CntReg::MISO => 0x37,
            CntReg::SCLK => 0x38,
            CntReg::GPIO12 => 0x39,
            CntReg::GPIO3Pin => 0x3A,
            CntReg::DacInstructionSet => 0x3C,
            CntReg::AdcInstructionSet => 0x3D,
            CntReg::DacCtrl => 0x3F,
            CntReg::DacVolume => 0x40,
            CntReg::DacVolumeLeft => 0x41,
            CntReg::DacVolumeRight => 0x42,
            CntReg::DacControl1 => 0x44,
            CntReg::DacControl2 => 0x45,
            CntReg::DacBeep1 => 0x47,
            CntReg::DacBeep2 => 0x48,
            CntReg::DacBeepLen1 => 0x49,
            CntReg::DacBeepLen2 => 0x4A,
            CntReg::DacBeepLen3 => 0x4B,
            CntReg::DacBeepSinMSB => 0x4C,
            CntReg::DacBeepSinLSB => 0x4D,
            CntReg::DacBeepCosMSB => 0x4E,
            CntReg::DacBeepCosLSB => 0x4F,
            CntReg::AdcMic => 0x51,
            CntReg::AdcVolFine => 0x52,
            CntReg::AdcVolCoarse => 0x53,
            CntReg::AGCMaxGain => 0x58,
            CntReg::VolSarAdc => 0x74,
            CntReg::VolGain => 0x75,
        }
    }
}

/// Registers of the sound (ADC/DAC) bank of the DSi codec.
#[derive(Clone, Copy, PartialEq, Eq, Structural, Debug)]
pub enum SndReg {
    AmplifierError,
    HeadphoneDriver,
    ClassDSpeakerAmp,
    PopRemovalSetting,
    RampDownPeriod,
    DacMixerRouting,
    VolumeHPL,
    VolumeHPR,
    VolumeSPL,
    VolumeSPR,
    DriverHPL,
    DriverHPR,
    DriverSPL,
    DriverSPR,
    DriverCnt,
    MicBias,
    MicGain,
    FineGain,
    InputSelection,
    CmSetting,
}

impl SndReg {
    /// The register's number within its bank.
    pub open spec fn spec_number(self) -> u8 {
        match self {
            SndReg::AmplifierError => 0x1E,
            SndReg::HeadphoneDriver => 0x1F,
            SndReg::ClassDSpeakerAmp => 0x20,
            SndReg::PopRemovalSetting => 0x21,
            SndReg::RampDownPeriod => 0x22,
            SndReg::DacMixerRouting => 0x23,
            SndReg::VolumeHPL => 0x24,
            SndReg::VolumeHPR => 0x25,
            SndReg::VolumeSPL => 0x26,
            SndReg::VolumeSPR => 0x27,
            SndReg::DriverHPL => 0x28,
            SndReg::DriverHPR => 0x29,
            SndReg::DriverSPL => 0x2A,
            SndReg::DriverSPR => 0x2B,
            SndReg::DriverCnt => 0x2C,
            SndReg::MicBias => 0x2E,
            SndReg::MicGain => 0x2F,
            SndReg::FineGain => 0x30,
            SndReg::InputSelection => 0x31,
            SndReg::CmSetting => 0x32,
        }
    }

    /// The register's number within its bank.
    pub fn number(self) -> (n: u8)
        ensures
            n == self.spec_number(),
    {
        match self {
            SndReg::AmplifierError => 0x1E,
            SndReg::HeadphoneDriver => 0x1F,
            SndReg::ClassDSpeakerAmp => 0x20,
            SndReg::PopRemovalSetting => 0x21,
            SndReg::RampDownPeriod => 0x22,
            SndReg::DacMixerRouting => 0x23,
            SndReg::VolumeHPL => 0x24,
            SndReg::VolumeHPR => 0x25,
            SndReg::VolumeSPL => 0x26,
            SndReg::VolumeSPR => 0x27,
            SndReg::DriverHPL => 0x28,
            SndReg::DriverHPR => 0x29,
            SndReg::DriverSPL => 0x2A,
            SndReg::DriverSPR => 0x2B,
            SndReg::DriverCnt => 0x2C,
            SndReg::MicBias => 0x2E,
            SndReg::MicGain => 0x2F,
            SndReg::FineGain => 0x30,
            SndReg::InputSelection => 0x31,
            SndReg::CmSetting => 0x32,
        }
    }
}

/// A codec register: the bank it lives in and its number there.
#[derive(Clone, Copy, PartialEq, Eq, Structural, Debug)]
pub enum CdcReg {
    Control(CntReg),
    Sound(SndReg),
    TouchCnt(TouchCntReg),
    AdcCoefficients(u8),
    BufferModeData(u8),
    UndocumentedReset,
    TSCNDSMode,
}

impl CdcReg {
    /// The bank a register lives in and its number in that bank.
    pub open spec fn spec_bank_and_reg(self) -> (u8, u8) {
        match self {
            CdcReg::Control(reg) => (0, reg.spec_number()),
            CdcReg::Sound(reg) => (1, reg.spec_number()),
            CdcReg::TouchCnt(reg) => (3, reg.spec_number()),
            CdcReg::AdcCoefficients(reg) => (4, reg),
            CdcReg::BufferModeData(reg) => (0xFC, reg),
            CdcReg::UndocumentedReset => (0x63, 0),
            CdcReg::TSCNDSMode => (0xFF, 5),
        }
    }

    /// The bank a register lives in and its number in that bank.
    pub fn as_bank_and_reg(self) -> (r: (u8, u8))
        ensures
            r == self.spec_bank_and_reg(),
    {
        match self {
            CdcReg::Control(reg) => (0, reg.number()),
            CdcReg::Sound(reg) => (1, reg.number()),
            CdcReg::TouchCnt(reg) => (3, reg.number()),
            CdcReg::AdcCoefficients(reg) => (4, reg),
            CdcReg::BufferModeData(reg) => (0xFC, reg),
            CdcReg::UndocumentedReset => (0x63, 0),
            CdcReg::TSCNDSMode => (0xFF, 5),
        }
    }
}

/// The register writes that configure the DSi codec after its reset, in
/// order.
pub open spec fn dsi_codec_init_list() -> Seq<(CdcReg, u8)> {
    seq![
        (CdcReg::TouchCnt(TouchCntReg::SarAdcCnt1), 0x80u8),
        (CdcReg::Control(CntReg::GPIO12), 0x66u8),
        (CdcReg::Sound(SndReg::ClassDSpeakerAmp), 0x16u8),
        (CdcReg::Control(CntReg::ClockMux), 0u8),
        (CdcReg::Control(CntReg::AdcNadc), 0x81u8),
        (CdcReg::Control(CntReg::AdcMadc), 0x82u8),
        (CdcReg::Control(CntReg::AdcMic), 0x82u8),
        (CdcReg::Control(CntReg::AdcMic), 0u8),
        (CdcReg::Control(CntReg::ClockMux), 3u8),
        (CdcReg::Control(CntReg::PllPr), 0xA1u8),
        (CdcReg::Control(CntReg::PllJ), 0x15u8),
        (CdcReg::Control(CntReg::DacNdac), 0x87u8),
        (CdcReg::Control(CntReg::DacMdac), 0x83u8),
        (CdcReg::Control(CntReg::AdcNadc), 0x87u8),
        (CdcReg::Control(CntReg::AdcMadc), 0x83u8),
        (CdcReg::TouchCnt(TouchCntReg::ScanModeTimerClock), 0x88u8),
        (CdcReg::Control(CntReg::DacVolumeLeft), 8u8),
        (CdcReg::Control(CntReg::DacVolumeRight), 8u8),
        (CdcReg::Control(CntReg::GPIO3Pin), 0u8),
        (CdcReg::AdcCoefficients(0x8), 0x7Fu8),
        (CdcReg::AdcCoefficients(0x9), 0xE1u8),
        (CdcReg::AdcCoefficients(0xA), 0x80u8),
        (CdcReg::AdcCoefficients(0xB), 0x1Fu8),
        (CdcReg::AdcCoefficients(0xC), 0x7Fu8),
        (CdcReg::AdcCoefficients(0xD), 0xC1u8),
        (CdcReg::Sound(SndReg::MicGain), 0x2Bu8),
        (CdcReg::Sound(SndReg::FineGain), 0x40u8),
        (CdcReg::Sound(SndReg::InputSelection), 0x40u8),
        (CdcReg::Sound(SndReg::CmSetting), 0x60u8),
        (CdcReg::Control(CntReg::VolSarAdc), 0xD2u8),
        (CdcReg::Sound(SndReg::PopRemovalSetting), 0x20u8),
        (CdcReg::Sound(SndReg::RampDownPeriod), 0xF0u8),
        (CdcReg::Control(CntReg::DacCtrl), 0xD4u8),
        (CdcReg::Sound(SndReg::DacMixerRouting), 0x44u8),
        (CdcReg::Sound(SndReg::HeadphoneDriver), 0xD4u8),
        (CdcReg::Sound(SndReg::DriverHPL), 0x4Eu8),
        (CdcReg::Sound(SndReg::DriverHPR), 0x4Eu8),
        (CdcReg::Sound(SndReg::VolumeHPL), 0x9Eu8),
        (CdcReg::Sound(SndReg::VolumeHPR), 0x9Eu8),
        (CdcReg::Sound(SndReg::ClassDSpeakerAmp), 0xD4u8),
        (CdcReg::Sound(SndReg::DriverSPL), 0x14u8),
        (CdcReg::Sound(SndReg::DriverSPR), 0x14u8),
        (CdcReg::Sound(SndReg::VolumeSPL), 0xA7u8),
        (CdcReg::Sound(SndReg::VolumeSPR), 0xA7u8),
        (CdcReg::Control(CntReg::DacVolume), 0u8),
        (CdcReg::Control(CntReg::GPIO3Pin), 0x60u8),
        (CdcReg::TouchCnt(TouchCntReg::SarAdcCnt1), 0x0u8),
        (CdcReg::Control(CntReg::PllJ), 0x0u8),
        (CdcReg::TouchCnt(TouchCntReg::TwlBufferMode), 0u8),
        (CdcReg::TouchCnt(TouchCntReg::SarAdcCnt1), 0x18u8),
        (CdcReg::TouchCnt(TouchCntReg::SarAdcCnt2), 0x8Bu8),
        (CdcReg::TouchCnt(TouchCntReg::ScanModeTimer), 0xA0u8),
        (CdcReg::TouchCnt(TouchCntReg::PanelVoltageStabilization), 4u8),
        (CdcReg::TouchCnt(TouchCntReg::PrechargeSense), 0x22u8),
        (CdcReg::TouchCnt(TouchCntReg::DebouncePenup), 0u8),
        (CdcReg::TouchCnt(TouchCntReg::TwlBufferMode), 0xA8u8)
    ]
}

/// The register writes that configure the DSi codec after its reset, in
/// order.
pub fn dsi_codec_init_sequence() -> (v: [(CdcReg, u8); 56])
    ensures
        v@ == dsi_codec_init_list(),
{
    let v: [(CdcReg, u8); 56] = [
        (CdcReg::TouchCnt(TouchCntReg::SarAdcCnt1), 0x80u8),
        (CdcReg::Control(CntReg::GPIO12), 0x66u8),
        (CdcReg::Sound(SndReg::ClassDSpeakerAmp), 0x16u8),
        (CdcReg::Control(CntReg::ClockMux), 0u8),
        (CdcReg::Control(CntReg::AdcNadc), 0x81u8),
        (CdcReg::Control(CntReg::AdcMadc), 0x82u8),
        (CdcReg::Control(CntReg::AdcMic), 0x82u8),
        (CdcReg::Control(CntReg::AdcMic), 0u8),
        (CdcReg::Control(CntReg::ClockMux), 3u8),
        (CdcReg::Control(CntReg::PllPr), 0xA1u8),
        (CdcReg::Control(CntReg::PllJ), 0x15u8),
        (CdcReg::Control(CntReg::DacNdac), 0x87u8),
        (CdcReg::Control(CntReg::DacMdac), 0x83u8),
        (CdcReg::Control(CntReg::AdcNadc), 0x87u8),
        (CdcReg::Control(CntReg::AdcMadc), 0x83u8),
        (CdcReg::TouchCnt(TouchCntReg::ScanModeTimerClock), 0x88u8),
        (CdcReg::Control(CntReg::DacVolumeLeft), 8u8),
        (CdcReg::Control(CntReg::DacVolumeRight), 8u8),
        (CdcReg::Control(CntReg::GPIO3Pin), 0u8),
        (CdcReg::AdcCoefficients(0x8), 0x7Fu8),
        (CdcReg::AdcCoefficients(0x9), 0xE1u8),
        (CdcReg::AdcCoefficients(0xA), 0x80u8),
        (CdcReg::AdcCoefficients(0xB), 0x1Fu8),
        (CdcReg::AdcCoefficients(0xC), 0x7Fu8),
        (CdcReg::AdcCoefficients(0xD), 0xC1u8),
        (CdcReg::Sound(SndReg::MicGain), 0x2Bu8),
        (CdcReg::Sound(SndReg::FineGain), 0x40u8),
        (CdcReg::Sound(SndReg::InputSelection), 0x40u8),
        (CdcReg::Sound(SndReg::CmSetting), 0x60u8),
        (CdcReg::Control(CntReg::VolSarAdc), 0xD2u8),
        (CdcReg::Sound(SndReg::PopRemovalSetting), 0x20u8),
        (CdcReg::Sound(SndReg::RampDownPeriod), 0xF0u8),
        (CdcReg::Control(CntReg::DacCtrl), 0xD4u8),
        (CdcReg::Sound(SndReg::DacMixerRouting), 0x44u8),
        (CdcReg::Sound(SndReg::HeadphoneDriver), 0xD4u8),
        (CdcReg::Sound(SndReg::DriverHPL), 0x4Eu8),
        (CdcReg::Sound(SndReg::DriverHPR), 0x4Eu8),
        (CdcReg::Sound(SndReg::VolumeHPL), 0x9Eu8),
        (CdcReg::Sound(SndReg::VolumeHPR), 0x9Eu8),
        (CdcReg::Sound(SndReg::ClassDSpeakerAmp), 0xD4u8),
        (CdcReg::Sound(SndReg::DriverSPL), 0x14u8),
        (CdcReg::Sound(SndReg::DriverSPR), 0x14u8),
        (CdcReg::Sound(SndReg::VolumeSPL), 0xA7u8),
        (CdcReg::Sound(SndReg::VolumeSPR), 0xA7u8),
        (CdcReg::Control(CntReg::DacVolume), 0u8),
        (CdcReg::Control(CntReg::GPIO3Pin), 0x60u8),
        (CdcReg::TouchCnt(TouchCntReg::SarAdcCnt1), 0x0u8),
        (CdcReg::Control(CntReg::PllJ), 0x0u8),
        (CdcReg::TouchCnt(TouchCntReg::TwlBufferMode), 0u8),
        (CdcReg::TouchCnt(TouchCntReg::SarAdcCnt1), 0x18u8),
        (CdcReg::TouchCnt(TouchCntReg::SarAdcCnt2), 0x8Bu8),
        (CdcReg::TouchCnt(TouchCntReg::ScanModeTimer), 0xA0u8),
        (CdcReg::TouchCnt(TouchCntReg::PanelVoltageStabilization), 4u8),
        (CdcReg::TouchCnt(TouchCntReg::PrechargeSense), 0x22u8),
        (CdcReg::TouchCnt(TouchCntReg::DebouncePenup), 0u8),
        (CdcReg::TouchCnt(TouchCntReg::TwlBufferMode), 0xA8u8)
    ];
    assert(v@ =~= dsi_codec_init_list());
    v
}

/// The register writes of the shorter codec set-up: the DSi list up to the
/// GPIO3 enable, without the touch-controller settings that follow it.
pub fn short_codec_init_sequence() -> (v: Vec<(CdcReg, u8)>)
    ensures
        v@ == dsi_codec_init_list().take(46),
{
    let all = dsi_codec_init_sequence();
    let mut v: Vec<(CdcReg, u8)> = Vec::new();
    let mut i: usize = 0;
    while i < 46
        invariant
            i <= 46,
            all@ == dsi_codec_init_list(),
            v@ == dsi_codec_init_list().take(i as int),
        decreases 46 - i,
    {
        v.push(all[i]);
        i = i + 1;
        assert(v@ =~= dsi_codec_init_list().take(i as int));
    }
    v
}

/// The writes of a register list as (bank, register, value), each register
/// resolved to its bank.
pub fn resolve_writes(list: &[(CdcReg, u8)]) -> (w: Vec<(u8, u8, u8)>)
    ensures
        w@.len() == list@.len(),
        forall|i: int|
            0 <= i < list@.len() ==> #[trigger] w@[i] == (
                list@[i].0.spec_bank_and_reg().0,
                list@[i].0.spec_bank_and_reg().1,
                list@[i].1,
            ),
{
    let mut w: Vec<(u8, u8, u8)> = Vec::new();
    let mut i: usize = 0;
    while i < list.len()
        invariant
            i <= list@.len(),
            w@.len() == i,
            forall|j: int|
                0 <= j < i ==> #[trigger] w@[j] == (
                    list@[j].0.spec_bank_and_reg().0,
                    list@[j].0.spec_bank_and_reg().1,
                    list@[j].1,
                ),
        decreases list@.len() - i,
    {
        let (reg, value) = list[i];
        let (bank, r) = reg.as_bank_and_reg();
        w.push((bank, r, value));
        i = i + 1;
    }
    w
}

/// The register holding the bank selection, written before every access
/// (see `codec_wire_writes`).
pub const BANK_SELECT_REG: u8 = 0;

/// The register writes that carry resolved (bank, register, value) writes to
/// the codec: each one preceded by the write of its bank to the page-select
/// register.
pub fn codec_wire_writes(w: &[(u8, u8, u8)]) -> (s: Vec<(u8, u8)>)
    ensures
        s@.len() == 2 * w@.len(),
        forall|i: int|
            #![trigger w@[i]]
            0 <= i < w@.len() ==> s@[2 * i] == (BANK_SELECT_REG, w@[i].0) && s@[2 * i + 1] == (
                w@[i].1,
                w@[i].2,
            ),
{
    let mut s: Vec<(u8, u8)> = Vec::new();
    let mut i: usize = 0;
    while i < w.len()
        invariant
            i <= w@.len(),
            s@.len() == 2 * i,
            forall|j: int|
                #![trigger w@[j]]
                0 <= j < i ==> s@[2 * j] == (BANK_SELECT_REG, w@[j].0) && s@[2 * j + 1] == (
                    w@[j].1,
                    w@[j].2,
                ),
        decreases w@.len() - i,
    {
        let (bank, reg, value) = w[i];
        s.push((BANK_SELECT_REG, bank));
        s.push((reg, value));
        i = i + 1;
    }
    s
}

/// The first SPI byte of a register write: the register number shifted up,
/// with the read bit clear.
pub open spec fn spec_write_command(reg: u8) -> u8 {
    (reg << 1u8) as u8
}

/// The first SPI byte of a register read: the register number shifted up,
/// with the read bit set.
pub open spec fn spec_read_command(reg: u8) -> u8 {
    ((reg << 1u8) | 1u8) as u8
}

/// The first SPI byte of a register write.
pub fn write_command(reg: u8) -> (c: u8)
    ensures
        c == spec_write_command(reg),
        c & 1 == 0,
        reg < 0x80 ==> c == 2 * reg,
{
    let c: u8 = reg << 1u8;
    assert(c & 1 == 0 && (reg < 0x80 ==> c == 2 * reg)) by (bit_vector)
        requires
            c == (reg << 1u8) as u8,
    ;
    c
}

/// The first SPI byte of a register read.
pub fn read_command(reg: u8) -> (c: u8)
    ensures
        c == spec_read_command(reg),
        c & 1 == 1,
        reg < 0x80 ==> c == 2 * reg + 1,
{
    let c: u8 = (reg << 1u8) | 1u8;
    assert(c & 1 == 1 && (reg < 0x80 ==> c == 2 * reg + 1)) by (bit_vector)
        requires
            c == ((reg << 1u8) | 1u8) as u8,
    ;
    c
}

/// The new value of a register of which only the bits under `mask` are
/// replaced by those of `value`.
pub open spec fn spec_masked_update(current: u8, mask: u8, value: u8) -> u8 {
    (current & !mask) | (value & mask)
}

/// The value written back by a masked register update.
pub fn masked_update(current: u8, mask: u8, value: u8) -> (r: u8)
    ensures
        r == spec_masked_update(current, mask, value),
{
    (current & !mask) | (value & mask)
}

/// A masked update takes each bit under the mask from the new value and keeps
/// every other bit of the current value.
pub proof fn law_masked_update_bits(current: u8, mask: u8, value: u8, bit: u8)
    requires
        bit < 8,
    ensures
        (mask >> bit) & 1 == 1 ==> (spec_masked_update(current, mask, value) >> bit) & 1 == (
        value >> bit) & 1,
        (mask >> bit) & 1 == 0 ==> (spec_masked_update(current, mask, value) >> bit) & 1 == (
        current >> bit) & 1,
{
    assert(((mask >> bit) & 1 == 1 ==> (((current & !mask) | (value & mask)) >> bit) & 1 == (
    value >> bit) & 1) && ((mask >> bit) & 1 == 0 ==> (((current & !mask) | (value & mask))
        >> bit) & 1 == (current >> bit) & 1)) by (bit_vector);
}

/// The codec's control register page.
pub struct ControlPage;
/// The codec's sound page.
pub struct SoundPage;
/// The codec's filter coefficient page.
pub struct CoeffPage;
/// The codec's touchscreen page.
pub struct TouchScreenPage;
/// The codec's SAR buffer page.
pub struct SARBufferPage;
/// The codec's operation page.
pub struct OperationPage;

/// A register page of the codec.
pub trait TSCPage {
    /// The page number written to the page-select register.
    spec fn spec_page_number() -> u8;

    /// The page number written to the page-select register.
    fn page_number() -> (n: u8)
        ensures
            n == Self::spec_page_number(),
    ;
}

/// A register of the codec, on the page `RegisterSelector`.
pub trait TSCRegister {
    type RegisterSelector;
    /// The register's number on its page.
    fn register_number() -> u8;
}

/// A buffer of the codec, on the page `RegisterSelector`.
pub trait TSCBuffer {
    type RegisterSelector;
    /// The buffer's size in bytes.
    fn size() -> usize;
}

/// Access to the codec with the page `T` selected.
pub struct TSCHandle<T> {
    pub current_page: core::marker::PhantomData<T>,
}

impl<T: TSCPage> TSCHandle<T> {
    /// The SPI command byte and value of a write of `value` to the register
    /// `reg` of the selected page.
    pub fn register_write(&self, reg: u8, value: u8) -> (w: (u8, u8))
        ensures
            w == (spec_write_command(reg), value),
    {
        (write_command(reg), value)
    }

    /// Switches to the page `U`: the handle for it, and the write of its
    /// number to the page-select register.
    pub fn switch_page<U: TSCPage>(self) -> (r: (TSCHandle<U>, (u8, u8)))
        ensures
            r.1 == (BANK_SELECT_REG, U::spec_page_number()),
    {
        (TSCHandle { current_page: core::marker::PhantomData }, (BANK_SELECT_REG, U::page_number()))
    }
}

} // verus!
