//! Memory-map configuration: new-WRAM bank windows and the system
//! configuration (SCFG) flags that grant access to the DSi hardware.
use vstd::prelude::*;

verus! {

/// Size of a new-WRAM mapping window.
#[derive(Debug, Clone, Copy, PartialEq, Eq, Structural)]
pub enum NWRAMSize {
    Size32KB,
    Size64KB,
    Size128KB,
    Size256KB,
}

impl NWRAMSize {
    /// The two-bit field value.
    pub open spec fn spec_value(self) -> u32 {
        match self {
            NWRAMSize::Size32KB => 0,
            NWRAMSize::Size64KB => 1,
            NWRAMSize::Size128KB => 2,
            NWRAMSize::Size256KB => 3,
        }
    }

    /// The two-bit field value.
    pub fn value(self) -> (v: u32)
        ensures
            v == self.spec_value(),
    {
        match self {
            NWRAMSize::Size32KB => 0,
            NWRAMSize::Size64KB => 1,
            NWRAMSize::Size128KB => 2,
            NWRAMSize::Size256KB => 3,
        }
    }
}

/// The window register of a new-WRAM bank.
#[derive(Debug, Clone, Copy, PartialEq, Eq, Structural)]
pub struct BankSizing(pub u32);

/// The window register value for a bank mapped from `start` to `end` with
/// window size `size`, the addresses taken as 32-bit values.
pub open spec fn spec_bank_sizing(size: NWRAMSize, start: u32, end: u32) -> u32 {
    ((0xFF8u32 & start) << 3u32) | (size.spec_value() << 12u32) | ((0x1FF8_0000u32 & end) << 19u32)
}

impl BankSizing {
    /// The window register value for a bank mapped from `start` to `end`.
    pub fn new(size: NWRAMSize, start: usize, end: usize) -> (b: Self)
        ensures
            b.0 == spec_bank_sizing(size, start as u32, end as u32),
    {
        let s: u32 = start as u32;
        let e: u32 = end as u32;
        BankSizing(((0xFF8u32 & s) << 3u32) | (size.value() << 12u32) | ((0x1FF8_0000u32 & e)
            << 19u32))
    }
}

/// SCFG_EXT: new DMA circuit.
pub const SCFG_NEW_DMA_ENABLE: u32 = 0x1;
/// SCFG_EXT: new sound DMA.
pub const SCFG_NEW_SOUND_DMA_ENABLE: u32 = 0x2;
/// SCFG_EXT: new sound circuit.
pub const SCFG_NEW_SOUND_ENABLE: u32 = 0x4;
/// SCFG_EXT: new cartridge circuit.
pub const SCFG_NEW_CART_CIRCUIT_ENABLE: u32 = 0x80;
/// SCFG_EXT: new interrupts.
pub const SCFG_NEW_INTERRUPTS_ENABLE: u32 = 0x100;
/// SCFG_EXT: new SPI clock.
pub const SCFG_NEW_SPI_CLOCK_ENABLE: u32 = 0x200;
/// SCFG_EXT: extended sound DMA.
pub const SCFG_EXTENDED_SOUND_DMA_ENABLE: u32 = 0x400;
/// SCFG_EXT: unknown extension.
pub const SCFG_EXTENDED_UNKNOWN_2: u32 = 0x800;
/// SCFG_EXT: extended LCD circuit.
pub const SCFG_EXTENDED_LCD_CIRCUIT_ENABLE: u32 = 0x1000;
/// SCFG_EXT: access to the new VRAM.
pub const SCFG_ACCESS_NEW_VRAM: u32 = 0x2000;
/// SCFG_EXT: main memory limited to 32 MB (both bits of the limit field).
pub const SCFG_MAIN_MEM_LIMIT_32MB: u32 = 0xc000;
/// SCFG_EXT: access to the new DMA.
pub const SCFG_ACCESS_NEW_DMA: u32 = 0x10000;
/// SCFG_EXT: access to the AES engine.
pub const SCFG_ACCESS_AES: u32 = 0x20000;
/// SCFG_EXT: access to the SD/MMC controller.
pub const SCFG_ACCESS_SDMMC: u32 = 0x40000;
/// SCFG_EXT: access to the SDIO controller.
pub const SCFG_ACCESS_SDIO: u32 = 0x80000;
/// SCFG_EXT: access to the new microphone.
pub const SCFG_ACCESS_NEW_MICROPHONE: u32 = 0x100000;
/// SCFG_EXT: access to the new sound.
pub const SCFG_ACCESS_NEW_SOUND: u32 = 0x200000;
/// SCFG_EXT: access to the I2C bus.
pub const SCFG_ACCESS_I2C: u32 = 0x400000;
/// SCFG_EXT: access to the GPIO.
pub const SCFG_ACCESS_GPIO: u32 = 0x800000;
/// SCFG_EXT: access to cartridge slot 2.
pub const SCFG_ACCESS_CART_SLOT2: u32 = 0x1000000;
/// SCFG_EXT: access to the new WRAM.
pub const SCFG_ACCESS_NWRAM: u32 = 0x2000000;
/// SCFG_EXT: unknown access bit.
pub const SCFG_ACCESS_UNKNOWN: u32 = 0x10000000;
/// SCFG_EXT: access to the SCFG registers.
pub const SCFG_ACCESS_SCFG: u32 = 0x80000000;

/// Every SCFG_EXT flag the ARM7 side defines.
pub open spec fn scfg_ext_arm7_all() -> u32 {
    SCFG_NEW_DMA_ENABLE | SCFG_NEW_SOUND_DMA_ENABLE | SCFG_NEW_SOUND_ENABLE
        | SCFG_NEW_CART_CIRCUIT_ENABLE | SCFG_NEW_INTERRUPTS_ENABLE | SCFG_NEW_SPI_CLOCK_ENABLE
        | SCFG_EXTENDED_SOUND_DMA_ENABLE | SCFG_EXTENDED_UNKNOWN_2
        | SCFG_EXTENDED_LCD_CIRCUIT_ENABLE | SCFG_ACCESS_NEW_VRAM | SCFG_MAIN_MEM_LIMIT_32MB
        | SCFG_ACCESS_NEW_DMA | SCFG_ACCESS_AES | SCFG_ACCESS_SDMMC | SCFG_ACCESS_SDIO
        | SCFG_ACCESS_NEW_MICROPHONE | SCFG_ACCESS_NEW_SOUND | SCFG_ACCESS_I2C | SCFG_ACCESS_GPIO
        | SCFG_ACCESS_CART_SLOT2 | SCFG_ACCESS_NWRAM | SCFG_ACCESS_UNKNOWN | SCFG_ACCESS_SCFG
}

/// The SCFG_EXT value the ARM7 firmware runs with: every flag but the new
/// DMA, the new cartridge circuit and the extended sound DMA.
pub const FIRM_ACCESS_ARM7I: u32 = 0x93FF_FB06;

/// The firmware's ARM7 access value is exactly all ARM7 flags with those three
/// cleared.
pub proof fn law_firm_access_arm7()
    ensures
        scfg_ext_arm7_all() ^ SCFG_NEW_DMA_ENABLE ^ SCFG_NEW_CART_CIRCUIT_ENABLE
            ^ SCFG_EXTENDED_SOUND_DMA_ENABLE == FIRM_ACCESS_ARM7I,
{
    assert((1u32 | 2u32 | 4u32 | 0x80u32 | 0x100u32 | 0x200u32 | 0x400u32 | 0x800u32 | 0x1000u32
        | 0x2000u32 | 0xC000u32 | 0x1_0000u32 | 0x2_0000u32 | 0x4_0000u32 | 0x8_0000u32
        | 0x10_0000u32 | 0x20_0000u32 | 0x40_0000u32 | 0x80_0000u32 | 0x100_0000u32
        | 0x200_0000u32 | 0x1000_0000u32 | 0x8000_0000u32) ^ 1u32 ^ 0x80u32 ^ 0x400u32
        == 0x93FF_FB06u32) by (bit_vector);
}

/// The system configuration registers: ROM mapping, clocks, resets and the
/// extended feature and access flags.
#[derive(Debug, Clone, Copy, PartialEq, Eq, Structural)]
pub struct SCFGHardware {
    pub roms: u32,
    pub clock: u16,
    pub reset: u16,
    pub features: u32,
}

} // verus!
