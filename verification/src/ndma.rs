//! Settings of the new DMA engine: control-word fields and the channel
//! configurations the library uses for memory copies and AES streaming.
use vstd::prelude::*;

verus! {

/// Control: the channel runs.
pub const NDMA_ENABLE: u32 = 0x8000_0000;
/// Control: raise an interrupt when done.
pub const NDMA_TRIGGER_INTERRUPT: u32 = 0x4000_0000;
/// Control: repeat forever.
pub const NDMA_INFINITE_REPEAT: u32 = 0x2000_0000;
/// Control: reload the destination address.
pub const NDMA_DESTINATION_RELOAD: u32 = 0x1000;
/// Control: reload the source address.
pub const NDMA_SOURCE_RELOAD: u32 = 0x8000;

/// Control field: source address mode.
pub const NDMA_SRC_MODE_MASK: u32 = 0x6000;
/// Control field: destination address mode.
pub const NDMA_DST_MODE_MASK: u32 = 0xC00;
/// Control field: block size.
pub const NDMA_BLOCK_SIZE_MASK: u32 = 0xF_0000;
/// Control field: start trigger.
pub const NDMA_START_MASK: u32 = 0x1F00_0000;

/// Source address mode.
#[derive(Debug, Clone, Copy, PartialEq, Eq, Structural)]
pub enum SourceMode {
    Increment,
    Decrement,
    Fixed,
    Fill,
}

impl SourceMode {
    /// The field value, in place.
    pub open spec fn spec_bits(self) -> u32 {
        match self {
            SourceMode::Increment => 0,
            SourceMode::Decrement => 0x2000,
            SourceMode::Fixed => 0x4000,
            SourceMode::Fill => 0x6000,
        }
    }

    /// The field value, in place.
    pub fn bits(self) -> (b: u32)
        ensures
            b == self.spec_bits(),
    {
        match self {
            SourceMode::Increment => 0,
            SourceMode::Decrement => 0x2000,
            SourceMode::Fixed => 0x4000,
            SourceMode::Fill => 0x6000,
        }
    }
}

/// Destination address mode.
#[derive(Debug, Clone, Copy, PartialEq, Eq, Structural)]
pub enum DestinationMode {
    Increment,
    Decrement,
    Fixed,
}

impl DestinationMode {
    /// The field value, in place.
    pub open spec fn spec_bits(self) -> u32 {
        match self {
            DestinationMode::Increment => 0,
            DestinationMode::Decrement => 0x400,
            DestinationMode::Fixed => 0x800,
        }
    }

    /// The field value, in place.
    pub fn bits(self) -> (b: u32)
        ensures
            b == self.spec_bits(),
    {
        match self {
            DestinationMode::Increment => 0,
            DestinationMode::Decrement => 0x400,
            DestinationMode::Fixed => 0x800,
        }
    }
}

/// Start trigger (ARM7 side).
#[derive(Debug, Clone, Copy, PartialEq, Eq, Structural)]
pub enum NDMAStartMode {
    Timer0,
    Timer1,
    Timer2,
    Timer3,
    Cartridge,
    VBlank,
    Arm7WiFi,
    Arm7SDMMC,
    Arm7DsiWiFi,
    Arm7WriteAES,
    Arm7ReadAES,
    Arm7Microphone,
    Immediate,
}

impl NDMAStartMode {
    /// The field value, in place.
    pub open spec fn spec_bits(self) -> u32 {
        match self {
            NDMAStartMode::Timer0 => 0,
            NDMAStartMode::Timer1 => 0x100_0000,
            NDMAStartMode::Timer2 => 0x200_0000,
            NDMAStartMode::Timer3 => 0x300_0000,
            NDMAStartMode::Cartridge => 0x400_0000,
            NDMAStartMode::VBlank => 0x600_0000,
            NDMAStartMode::Arm7WiFi => 0x700_0000,
            NDMAStartMode::Arm7SDMMC => 0x800_0000,
            NDMAStartMode::Arm7DsiWiFi => 0x900_0000,
            NDMAStartMode::Arm7WriteAES => 0xA00_0000,
            NDMAStartMode::Arm7ReadAES => 0xB00_0000,
            NDMAStartMode::Arm7Microphone => 0xC00_0000,
            NDMAStartMode::Immediate => 0x1000_0000,
        }
    }

    /// The field value, in place.
    pub fn bits(self) -> (b: u32)
        ensures
            b == self.spec_bits(),
    {
        match self {
            NDMAStartMode::Timer0 => 0,
            NDMAStartMode::Timer1 => 0x100_0000,
            NDMAStartMode::Timer2 => 0x200_0000,
            NDMAStartMode::Timer3 => 0x300_0000,
            NDMAStartMode::Cartridge => 0x400_0000,
            NDMAStartMode::VBlank => 0x600_0000,
            NDMAStartMode::Arm7WiFi => 0x700_0000,
            NDMAStartMode::Arm7SDMMC => 0x800_0000,
            NDMAStartMode::Arm7DsiWiFi => 0x900_0000,
            NDMAStartMode::Arm7WriteAES => 0xA00_0000,
            NDMAStartMode::Arm7ReadAES => 0xB00_0000,
            NDMAStartMode::Arm7Microphone => 0xC00_0000,
            NDMAStartMode::Immediate => 0x1000_0000,
        }
    }
}

/// Block size field: one word.
pub const NDMA_BLOCK_SIZE_1: u32 = 0;
/// Block size field: four words.
pub const NDMA_BLOCK_SIZE_4: u32 = 0x2_0000;

/// A control word with one field replaced.
pub open spec fn spec_with_field(control: u32, mask: u32, value: u32) -> u32 {
    (control & !mask) | value
}

/// A control word with one field replaced.
pub fn with_field(control: u32, mask: u32, value: u32) -> (r: u32)
    ensures
        r == spec_with_field(control, mask, value),
{
    (control & !mask) | value
}

/// Replacing a field with a value inside it sets the field to that value and
/// keeps every bit outside it.
pub proof fn law_with_field(control: u32, mask: u32, value: u32)
    requires
        value & !mask == 0,
    ensures
        spec_with_field(control, mask, value) & mask == value,
        spec_with_field(control, mask, value) & !mask == control & !mask,
{
    assert(value & !mask == 0 ==> (((control & !mask) | value) & mask == value && ((control
        & !mask) | value) & !mask == control & !mask)) by (bit_vector);
}

/// The settings of one channel.
#[derive(Debug, Clone, Copy, PartialEq, Eq, Structural)]
pub struct ChannelConfig {
    pub word_count: u32,
    pub block_size: u32,
    pub timing: u32,
    pub fill_mode: u32,
    pub control: u32,
}

/// The settings of an immediate word-by-word copy of `src_len` words into a
/// buffer of `dst_len` words: as many words as both have.
pub fn copy_mem_config(src_len: usize, dst_len: usize) -> (c: ChannelConfig)
    ensures
        c.word_count == (if src_len <= dst_len {
            src_len as int
        } else {
            dst_len as int
        }) % 0x1_0000_0000,
        c.block_size == c.word_count / 4,
        c.timing == 0,
        c.fill_mode == 0,
        c.control == NDMA_ENABLE | NDMAStartMode::Immediate.spec_bits(),
{
    let total: usize = if src_len <= dst_len {
        src_len
    } else {
        dst_len
    };
    let wc: u32 = (total as u64 % 0x1_0000_0000u64) as u32;
    ChannelConfig {
        word_count: wc,
        block_size: wc / 4,
        timing: 0,
        fill_mode: 0,
        control: NDMA_ENABLE | NDMAStartMode::Immediate.bits(),
    }
}

/// The channel that feeds `words` words from memory into the AES engine.
pub fn aes_write_config(words: u32) -> (c: ChannelConfig)
    ensures
        c == (ChannelConfig {
            word_count: words,
            block_size: 4,
            timing: 8,
            fill_mode: 0,
            control: DestinationMode::Fixed.spec_bits() | SourceMode::Increment.spec_bits()
                | NDMA_BLOCK_SIZE_4 | NDMAStartMode::Arm7WriteAES.spec_bits() | NDMA_ENABLE,
        }),
{
    ChannelConfig {
        word_count: words,
        block_size: 4,
        timing: 8,
        fill_mode: 0,
        control: DestinationMode::Fixed.bits() | SourceMode::Increment.bits() | NDMA_BLOCK_SIZE_4
            | NDMAStartMode::Arm7WriteAES.bits() | NDMA_ENABLE,
    }
}

/// The channel that drains `words` words from the AES engine into memory.
pub fn aes_read_config(words: u32) -> (c: ChannelConfig)
    ensures
        c == (ChannelConfig {
            word_count: words,
            block_size: 4,
            timing: 8,
            fill_mode: 0,
            control: SourceMode::Fixed.spec_bits() | DestinationMode::Increment.spec_bits()
                | NDMA_BLOCK_SIZE_4 | NDMAStartMode::Arm7ReadAES.spec_bits() | NDMA_ENABLE,
        }),
{
    ChannelConfig {
        word_count: words,
        block_size: 4,
        timing: 8,
        fill_mode: 0,
        control: SourceMode::Fixed.bits() | DestinationMode::Increment.bits() | NDMA_BLOCK_SIZE_4
            | NDMAStartMode::Arm7ReadAES.bits() | NDMA_ENABLE,
    }
}

/// AES control: start.
pub const AES_START: u32 = 0x8000_0000;
/// AES control bits of a CTR run: CTR mode, FIFO thresholds.
pub const AES_CTR_FLAGS: u32 = (3 << 12) | (2 << 28);

/// What an in-place AES-CTR run over a buffer programs: the block count, the
/// two DMA channels, and the start word.
#[derive(Debug, Clone, Copy, PartialEq, Eq, Structural)]
pub struct CtrCryptPlan {
    pub block_count: u16,
    pub in_dma: ChannelConfig,
    pub out_dma: ChannelConfig,
    pub start: u32,
}

/// The plan of an in-place AES-CTR run over `len` words: one AES block per
/// four words (the count kept to 16 bits), the words streamed in on one
/// channel and out on another.
pub fn ctr_crypt_plan(len: u32) -> (p: CtrCryptPlan)
    ensures
        p.block_count == (len / 4) % 0x1_0000,
        p.in_dma == (ChannelConfig {
            word_count: len,
            block_size: 4,
            timing: 8,
            fill_mode: 0,
            control: DestinationMode::Fixed.spec_bits() | SourceMode::Increment.spec_bits()
                | NDMA_BLOCK_SIZE_4 | NDMAStartMode::Arm7WriteAES.spec_bits() | NDMA_ENABLE,
        }),
        p.out_dma == (ChannelConfig {
            word_count: len,
            block_size: 4,
            timing: 8,
            fill_mode: 0,
            control: SourceMode::Fixed.spec_bits() | DestinationMode::Increment.spec_bits()
                | NDMA_BLOCK_SIZE_4 | NDMAStartMode::Arm7ReadAES.spec_bits() | NDMA_ENABLE,
        }),
        p.start == AES_CTR_FLAGS | AES_START,
{
    CtrCryptPlan {
        block_count: ((len / 4) % 0x1_0000) as u16,
        in_dma: aes_write_config(len),
        out_dma: aes_read_config(len),
        start: AES_CTR_FLAGS | AES_START,
    }
}

} // verus!
