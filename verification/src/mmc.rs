//! SD/MMC controller encodings, device addressing, CSD field extraction and the
//! card bring-up sequence.
use vstd::prelude::*;

verus! {

/// Response type "none" in a command encoding.
pub const CMD_RESP_NONE: u16 = 0x300;
/// Response type R1 (48 bits).
pub const CMD_RESP_R1: u16 = 0x400;
/// Response type R1b (48 bits and busy).
pub const CMD_RESP_R1B: u16 = 0x500;
/// Response type R2 (136 bits).
pub const CMD_RESP_R2: u16 = 0x600;
/// Response type R3 (48 bits, OCR, no CRC).
pub const CMD_RESP_R3: u16 = 0x700;
/// Mask of the response type.
pub const CMD_RESP_MASK: u16 = 0x700;
/// The command transfers data.
pub const CMD_DATA_EN: u16 = 0x800;
/// The data moves from the card.
pub const CMD_DATA_R: u16 = 0x1000;
/// The data moves to the card.
pub const CMD_DATA_W: u16 = 0;
/// The transfer has several blocks.
pub const CMD_DATA_MULTI: u16 = 0x2000;
/// Application-specific command (sent after APP_CMD).
pub const CMD_APP: u16 = 0x40;

/// Status bit: response received.
pub const STATUS_RESPONSE_END: u32 = 0x1;
/// Status bit: data transfer finished.
pub const STATUS_DATA_END: u32 = 0x4;
/// Status bit: command index error.
pub const STATUS_ERR_CMD_INDEX: u32 = 0x1_0000;
/// Status bit: CRC error.
pub const STATUS_ERR_BAD_CRC: u32 = 0x2_0000;
/// Status bit: command timeout.
pub const STATUS_ERR_CMD_TIMEOUT: u32 = 0x40_0000;
/// Status bit: command busy.
pub const STATUS_CMD_BUSY: u32 = 0x4000_0000;
/// Status bit: illegal access.
pub const STATUS_ERR_ILLEGAL_ACCESS: u32 = 0x8000_0000;
/// All error bits of the status register.
pub const STATUS_ALL_ERRORS: u32 = 0x807F_0000;
/// All bits the status register defines.
pub const STATUS_ALL: u32 = 0xCBFF_07BD;

/// Value of the controller's status register (interrupt flags).
#[derive(Clone, Copy, PartialEq, Eq, Structural, Debug)]
pub struct Status {
    pub bits: u32,
}

impl Status {
    /// No flag set.
    pub fn empty() -> (s: Status)
        ensures
            s.bits == 0,
    {
        Status { bits: 0 }
    }

    /// Every flag the register defines.
    pub fn all() -> (s: Status)
        ensures
            s.bits == STATUS_ALL,
    {
        Status { bits: STATUS_ALL }
    }

    /// The status with exactly these bits.
    pub fn from_bits_retain(bits: u32) -> (s: Status)
        ensures
            s.bits == bits,
    {
        Status { bits }
    }

    /// The raw bits.
    pub fn bits(&self) -> (b: u32)
        ensures
            b == self.bits,
    {
        self.bits
    }

    /// No flag is set.
    pub fn is_empty(&self) -> (b: bool)
        ensures
            b == (self.bits == 0),
    {
        self.bits == 0
    }

    /// The flags set in both.
    pub fn intersection(&self, other: Status) -> (s: Status)
        ensures
            s.bits == self.bits & other.bits,
    {
        Status { bits: self.bits & other.bits }
    }

    /// The flags set in either.
    pub fn union(&self, other: Status) -> (s: Status)
        ensures
            s.bits == self.bits | other.bits,
    {
        Status { bits: self.bits | other.bits }
    }

    /// The command completed without an error flag.
    pub open spec fn spec_successful(self) -> bool {
        self.bits & STATUS_ALL_ERRORS == 0
    }

    /// The command completed without an error flag.
    pub fn successful(&self) -> (b: bool)
        ensures
            b == self.spec_successful(),
    {
        self.bits & STATUS_ALL_ERRORS == 0
    }
}

/// Clock control: card clock enabled.
pub const CLOCK_ENABLE: u16 = 0x100;
/// Clock control: stop the clock between transfers.
pub const CLOCK_AUTO_STOP: u16 = 0x200;
/// Clock control: 262 kHz identification clock.
pub const CLOCK_FREQ_262K: u16 = 0x20;
/// Clock control: 16 MHz transfer clock.
pub const CLOCK_FREQ_16M: u16 = 0;

/// An SD/MMC command in the controller's encoding: the command index, the
/// response type in bits 8..11, data flags in bits 11..14 and the application
/// command flag in bit 6.
#[derive(Clone, Copy, PartialEq, Eq, Structural, Debug)]
pub enum Command {
    GoIdleState,
    AllSendCID,
    SetSendRelativeAddr,
    SetDSR,
    SelectCard,
    DeselectCard,
    SendIfCondition,
    SendCSD,
    SendCID,
    VoltageSwitch,
    StopTransmission,
    SendStatus,
    GoInactiveState,
    SetBlockLen,
    ReadSingleBlock,
    ReadMutliBlocks,
    SendTuningBlock,
    SpeedClassControl,
    AddressExtension,
    SetBlockCount,
    WriteSingleBlock,
    WriteMultiBlocks,
    ProgramCSD,
    SetWriteProtection,
    ClearWriteProtection,
    SendWriteProtection,
    EraseWriteBlockStart,
    EraseWriteBlockEnd,
    Erase,
    LockUnlock,
    AppCommand,
    GenericCommandRead,
    GenertiCommandWrite,
    AppSetBusWidth,
    AppSDStatus,
    AppSendNumWrBlocks,
    AppSetWrBlockEraseCount,
    AppSendOpCondition,
    AppSetClearCardSelect,
    AppSendSCR,
    SwitchFunction,
    ReadExtensionSingle,
    WriteExtensionSingle,
    ReadExtensionMultiple,
    WriteExtensionMultiple,
    QueueManagement,
    QueueTaskInfoA,
    QueueTaskInfoB,
    QueueReadTask,
    QueueWriteTask,
    MMCSendOptionalCondition,
}

impl Command {
    /// The encoding written to the controller's command register.
    pub open spec fn spec_bits(self) -> u16 {
        match self {
            Command::GoIdleState => 0x300u16,
            Command::AllSendCID => 0x602u16,
            Command::SetSendRelativeAddr => 0x403u16,
            Command::SetDSR => 0x304u16,
            Command::SelectCard => 0x507u16,
            Command::DeselectCard => 0x307u16,
            Command::SendIfCondition => 0x408u16,
            Command::SendCSD => 0x609u16,
            Command::SendCID => 0x60au16,
            Command::VoltageSwitch => 0x40bu16,
            Command::StopTransmission => 0x50cu16,
            Command::SendStatus => 0x40du16,
            Command::GoInactiveState => 0x30fu16,
            Command::SetBlockLen => 0x410u16,
            Command::ReadSingleBlock => 0x1c11u16,
            Command::ReadMutliBlocks => 0x3c12u16,
            Command::SendTuningBlock => 0x1c13u16,
            Command::SpeedClassControl => 0x514u16,
            Command::AddressExtension => 0x416u16,
            Command::SetBlockCount => 0x417u16,
            Command::WriteSingleBlock => 0xc18u16,
            Command::WriteMultiBlocks => 0xc19u16,
            Command::ProgramCSD => 0xc1bu16,
            Command::SetWriteProtection => 0x51cu16,
            Command::ClearWriteProtection => 0x51du16,
            Command::SendWriteProtection => 0x1c1eu16,
            Command::EraseWriteBlockStart => 0x420u16,
            Command::EraseWriteBlockEnd => 0x421u16,
            Command::Erase => 0x526u16,
            Command::LockUnlock => 0xc2au16,
            Command::AppCommand => 0x437u16,
            Command::GenericCommandRead => 0x1c38u16,
            Command::GenertiCommandWrite => 0xc38u16,
            Command::AppSetBusWidth => 0x446u16,
            Command::AppSDStatus => 0x1c4du16,
            Command::AppSendNumWrBlocks => 0x1c56u16,
            Command::AppSetWrBlockEraseCount => 0x457u16,
            Command::AppSendOpCondition => 0x769u16,
            Command::AppSetClearCardSelect => 0x46au16,
            Command::AppSendSCR => 0x1c73u16,
            Command::SwitchFunction => 0x1c06u16,
            Command::ReadExtensionSingle => 0x1c30u16,
            Command::WriteExtensionSingle => 0xc31u16,
            Command::ReadExtensionMultiple => 0x1c3au16,
            Command::WriteExtensionMultiple => 0xc3bu16,
            Command::QueueManagement => 0x52bu16,
            Command::QueueTaskInfoA => 0x42cu16,
            Command::QueueTaskInfoB => 0x42du16,
            Command::QueueReadTask => 0x1c2eu16,
            Command::QueueWriteTask => 0xc2fu16,
            Command::MMCSendOptionalCondition => 0x701u16,
        }
    }

    /// The encoding written to the controller's command register.
    pub fn bits(&self) -> (b: u16)
        ensures
            b == self.spec_bits(),
    {
        match self {
            Command::GoIdleState => 0x300,
            Command::AllSendCID => 0x602,
            Command::SetSendRelativeAddr => 0x403,
            Command::SetDSR => 0x304,
            Command::SelectCard => 0x507,
            Command::DeselectCard => 0x307,
            Command::SendIfCondition => 0x408,
            Command::SendCSD => 0x609,
            Command::SendCID => 0x60a,
            Command::VoltageSwitch => 0x40b,
            Command::StopTransmission => 0x50c,
            Command::SendStatus => 0x40d,
            Command::GoInactiveState => 0x30f,
            Command::SetBlockLen => 0x410,
            Command::ReadSingleBlock => 0x1c11,
            Command::ReadMutliBlocks => 0x3c12,
            Command::SendTuningBlock => 0x1c13,
            Command::SpeedClassControl => 0x514,
            Command::AddressExtension => 0x416,
            Command::SetBlockCount => 0x417,
            Command::WriteSingleBlock => 0xc18,
            Command::WriteMultiBlocks => 0xc19,
            Command::ProgramCSD => 0xc1b,
            Command::SetWriteProtection => 0x51c,
            Command::ClearWriteProtection => 0x51d,
            Command::SendWriteProtection => 0x1c1e,
            Command::EraseWriteBlockStart => 0x420,
            Command::EraseWriteBlockEnd => 0x421,
            Command::Erase => 0x526,
            Command::LockUnlock => 0xc2a,
            Command::AppCommand => 0x437,
            Command::GenericCommandRead => 0x1c38,
            Command::GenertiCommandWrite => 0xc38,
            Command::AppSetBusWidth => 0x446,
            Command::AppSDStatus => 0x1c4d,
            Command::AppSendNumWrBlocks => 0x1c56,
            Command::AppSetWrBlockEraseCount => 0x457,
            Command::AppSendOpCondition => 0x769,
            Command::AppSetClearCardSelect => 0x46a,
            Command::AppSendSCR => 0x1c73,
            Command::SwitchFunction => 0x1c06,
            Command::ReadExtensionSingle => 0x1c30,
            Command::WriteExtensionSingle => 0xc31,
            Command::ReadExtensionMultiple => 0x1c3a,
            Command::WriteExtensionMultiple => 0xc3b,
            Command::QueueManagement => 0x52b,
            Command::QueueTaskInfoA => 0x42c,
            Command::QueueTaskInfoB => 0x42d,
            Command::QueueReadTask => 0x1c2e,
            Command::QueueWriteTask => 0xc2f,
            Command::MMCSendOptionalCondition => 0x701,
        }
    }

    /// The command moves data blocks.
    pub fn transmits_data(&self) -> (r: bool)
        ensures
            r == (self.spec_bits() & CMD_DATA_EN != 0),
    {
        self.bits() & CMD_DATA_EN > 0
    }

    /// The command reads data blocks from the card.
    pub fn reads_data(&self) -> (r: bool)
        ensures
            r == (self.spec_bits() & CMD_DATA_R != 0),
    {
        self.bits() & CMD_DATA_R > 0
    }
}

/// Number of response words the controller returns for a command: the whole
/// 136-bit response (four words) for R2, one word otherwise.
pub fn response_words(cmd: u16) -> (n: usize)
    ensures
        n == if cmd & CMD_RESP_MASK == CMD_RESP_R2 {
            4usize
        } else {
            1usize
        },
{
    if cmd & CMD_RESP_MASK != CMD_RESP_R2 {
        1
    } else {
        4
    }
}

/// 32-bit data port control: a block can be read from the FIFO.
pub const DATA32_RX_READY: u16 = 1 << 8;
/// 32-bit data port control: the FIFO takes a block.
pub const DATA32_TX_READY: u16 = 1 << 9;

/// What the driver does after one look at the controller while a command
/// runs.
#[derive(Clone, Copy, PartialEq, Eq, Structural, Debug)]
pub enum PollAction {
    /// Look again; first copy one block from the FIFO when `read_block`.
    Continue { read_block: bool },
    /// The command is over: copy one block first when `read_block`, clear the
    /// status register and fetch the response; `errors` are its error flags.
    Finish { read_block: bool, errors: u32 },
}

/// A command in flight: how many buffer blocks are still expected, and what
/// status marks its end.
#[derive(Clone, Copy, PartialEq, Eq, Structural, Debug)]
pub struct CommandPoll {
    pub blocks_left: usize,
    pub use_buffer: bool,
    pub wait_for: u32,
}

impl CommandPoll {
    /// A command `cmd` whose transfer buffer has `blocks` blocks
    /// (`has_buffer` false: no buffer); data commands also wait for the end
    /// of the data.
    pub fn start(cmd: u16, blocks: usize, has_buffer: bool) -> (p: CommandPoll)
        ensures
            p.blocks_left == (if has_buffer {
                blocks
            } else {
                0
            }),
            p.use_buffer == has_buffer,
            p.wait_for == (if cmd & CMD_DATA_EN != 0 {
                STATUS_DATA_END
            } else {
                0
            }),
    {
        CommandPoll {
            blocks_left: if has_buffer {
                blocks
            } else {
                0
            },
            use_buffer: has_buffer,
            wait_for: if cmd & CMD_DATA_EN != 0 {
                STATUS_DATA_END
            } else {
                0
            },
        }
    }

    /// The decision after reading the status and the data-port control
    /// registers.
    pub open spec fn poll_spec(self, status: u32, control: u16, next: CommandPoll, act: PollAction) -> bool {
        let read_block = self.use_buffer && control & DATA32_RX_READY != 0;
        let left = if self.use_buffer {
            (self.blocks_left - 1) as usize
        } else {
            self.blocks_left
        };
        let done = status & STATUS_ALL_ERRORS == STATUS_ALL_ERRORS || (status & STATUS_CMD_BUSY == 0
            && (left == 0 || status & self.wait_for == self.wait_for));
        &&& next == CommandPoll { blocks_left: left, ..self }
        &&& act == if done {
            PollAction::Finish { read_block, errors: status & STATUS_ALL_ERRORS }
        } else {
            PollAction::Continue { read_block }
        }
    }

    /// Takes one reading of the status and data-port control registers. A
    /// buffered command counts one block per reading.
    pub fn poll(&mut self, status: u32, control: u16) -> (act: PollAction)
        requires
            !(old(self).use_buffer && old(self).blocks_left == 0),
        ensures
            old(self).poll_spec(status, control, *final(self), act),
    {
        let read_block = self.use_buffer && control & DATA32_RX_READY != 0;
        if self.use_buffer {
            self.blocks_left = self.blocks_left - 1;
        }
        let errors: u32 = status & STATUS_ALL_ERRORS;
        if errors == STATUS_ALL_ERRORS {
            return PollAction::Finish { read_block, errors };
        }
        if status & STATUS_CMD_BUSY == 0 {
            if self.blocks_left == 0 || status & self.wait_for == self.wait_for {
                return PollAction::Finish { read_block, errors };
            }
        }
        PollAction::Continue { read_block }
    }
}

/// A command without a buffer and without data ends at the first reading
/// that finds the controller no longer busy.
pub proof fn law_plain_command_ends_when_idle(
    p: CommandPoll,
    status: u32,
    control: u16,
    next: CommandPoll,
    act: PollAction,
)
    requires
        !p.use_buffer,
        p.blocks_left == 0,
        p.poll_spec(status, control, next, act),
        status & STATUS_CMD_BUSY == 0,
    ensures
        act == (PollAction::Finish { read_block: false, errors: status & STATUS_ALL_ERRORS }),
{
}

/// Each reading of a buffered command uses up one block, so it ends after at
/// most as many readings as the buffer has blocks, unless the controller
/// stays busy.
pub proof fn law_buffered_poll_counts_down(
    p: CommandPoll,
    status: u32,
    control: u16,
    next: CommandPoll,
    act: PollAction,
)
    requires
        p.use_buffer,
        p.blocks_left > 0,
        p.poll_spec(status, control, next, act),
    ensures
        next.blocks_left == p.blocks_left - 1,
        next.blocks_left == 0 && status & STATUS_CMD_BUSY == 0 ==> act is Finish,
{
}

/// The kinds of storage device.
#[derive(Clone, Copy, PartialEq, Eq, Structural, Debug)]
pub enum DeviceType {
    EMMC,
    HCEMMC,
    SDSC,
    SDHC,
}

impl DeviceType {
    /// The device is an (e)MMC rather than an SD card.
    pub fn is_mmc(&self) -> (b: bool)
        ensures
            b == (*self is EMMC || *self is HCEMMC),
    {
        match self {
            DeviceType::EMMC | DeviceType::HCEMMC => true,
            DeviceType::SDSC | DeviceType::SDHC => false,
        }
    }

    /// The device is addressed in bytes rather than in 512-byte blocks.
    pub open spec fn byte_addressed(self) -> bool {
        self is SDSC || self is EMMC
    }
}

/// The two storage ports.
#[derive(Clone, Copy, PartialEq, Eq, Structural, Debug)]
pub enum DeviceSelect {
    SDCardSlot,
    EMMC,
}

impl DeviceSelect {
    /// Index of the device's slot.
    pub fn index(&self) -> (i: usize)
        ensures
            i == if *self is SDCardSlot {
                0usize
            } else {
                1usize
            },
    {
        match self {
            DeviceSelect::SDCardSlot => 0,
            DeviceSelect::EMMC => 1,
        }
    }
}

/// What is known of an initialised device.
#[derive(Clone, Copy, Debug)]
pub struct Info {
    pub kind: Option<DeviceType>,
    pub protection: u8,
    pub buswidth: u8,
    pub rca: u16,
    pub command_class_support: u16,
    pub sectors: u32,
    pub clock: u32,
    pub cid: [u32; 4],
}

/// Why a device could not be initialised.
#[derive(Clone, Copy, PartialEq, Eq, Structural, Debug)]
pub enum DeviceInitializationError {
    AlreadyInitialized,
    IdleStateTransitionError,
    BadIfConditionResponse,
    IdentificationFail,
}

/// A relative card address.
#[derive(Clone, Copy, PartialEq, Eq, Structural, Debug)]
pub struct RCA(pub u16);

impl RCA {
    /// The address as a command argument: in the upper half of the word.
    pub fn argument(&self) -> (a: u32)
        ensures
            a == self.0 * 0x1_0000,
    {
        (self.0 as u32) * 0x1_0000
    }

    /// The address a card reported in its response to SEND_RELATIVE_ADDR.
    pub fn from_response(word: u32) -> (r: RCA)
        ensures
            r.0 == word / 0x1_0000,
    {
        RCA((word / 0x1_0000) as u16)
    }
}

/// A card reads back, as a command argument, the address it reported, with
/// the status bits of the lower half cleared.
pub proof fn law_rca_round_trip(word: u32)
    ensures
        (word / 0x1_0000) * 0x1_0000 == word - word % 0x1_0000,
{
}

/// A response type that collects what it needs from the raw response words.
pub trait SDMMCResponse: Default {
    /// Takes the response words the controller returned.
    fn gather_response(&mut self, full_response: &[u32]);
}

/// A command type: its number, and the response type it is answered with.
pub trait SDMMCCommand {
    type Response: SDMMCResponse;

    /// The command number.
    fn cmd_nr(&self) -> u32;
}

/// Words in one 512-byte sector.
pub const SECTOR_WORDS: usize = 128;

/// One 512-byte storage sector, as words.
#[derive(Clone, Copy)]
pub struct StorageSector(pub [u32; 128]);

/// Byte `i` of a sequence of little-endian words.
pub open spec fn word_byte(words: Seq<u32>, i: int) -> u8 {
    ((words[i / 4] as int / pow256(i % 4)) % 256) as u8
}

/// `256` to the power `k`, for `k` below 4.
pub open spec fn pow256(k: int) -> int {
    if k == 0 {
        1
    } else if k == 1 {
        0x100
    } else if k == 2 {
        0x1_0000
    } else {
        0x100_0000
    }
}

impl StorageSector {
    /// A sector of zeros.
    pub fn zeroed() -> (s: StorageSector)
        ensures
            forall|i: int| 0 <= i < 128 ==> s.0[i] == 0,
    {
        StorageSector([0u32; 128])
    }

    /// The sector's bytes, each word stored little-endian.
    pub fn bytes(&self) -> (b: Vec<u8>)
        ensures
            b@.len() == 512,
            forall|i: int| 0 <= i < 512 ==> b@[i] == word_byte(self.0@, i),
    {
        let mut b: Vec<u8> = Vec::new();
        let mut w: usize = 0;
        while w < SECTOR_WORDS
            invariant
                w <= SECTOR_WORDS,
                self.0@.len() == 128,
                b@.len() == 4 * w,
                forall|i: int| 0 <= i < 4 * w ==> b@[i] == word_byte(self.0@, i),
            decreases SECTOR_WORDS - w,
        {
            let v: u32 = self.0[w];
            let b0: u8 = (v % 0x100) as u8;
            let b1: u8 = ((v / 0x100) % 0x100) as u8;
            let b2: u8 = ((v / 0x1_0000) % 0x100) as u8;
            let b3: u8 = ((v / 0x100_0000) % 0x100) as u8;
            b.push(b0);
            b.push(b1);
            b.push(b2);
            b.push(b3);
            assert forall|i: int| 4 * w <= i < 4 * w + 4 implies b@[i] == word_byte(self.0@, i) by {
                assert(i / 4 == w as int);
                assert(i % 4 == i - 4 * w);
            }
            w = w + 1;
        }
        b
    }
}

/// The address argument of a block transfer starting at `sector`: byte-addressed
/// devices take the sector times 512 (keeping 32 bits), block-addressed ones the
/// sector itself. An uninitialised device (`None`) fails with every status bit.
pub fn sector_address(kind: Option<DeviceType>, sector: u32) -> (r: Result<u32, Status>)
    ensures
        kind is None ==> r == Err::<u32, Status>(Status { bits: STATUS_ALL }),
        kind matches Some(k) ==> r == Ok::<u32, Status>(
            if k.byte_addressed() {
                ((sector * 512) % 0x1_0000_0000) as u32
            } else {
                sector
            },
        ),
{
    match kind {
        None => Err(Status::all()),
        Some(DeviceType::SDSC) | Some(DeviceType::EMMC) => {
            let a: u32 = sector << 9u32;
            assert(a == (sector * 512) % 0x1_0000_0000) by (bit_vector)
                requires
                    a == sector << 9u32,
            ;
            Ok(a)
        },
        _ => Ok(sector),
    }
}

/// Standard-capacity cards (SDSC and plain eMMC) are addressed in bytes, so a
/// transfer starting at a sector is addressed at 512 times it (kept to 32
/// bits); high-capacity cards (SDHC and high-capacity eMMC) are addressed in
/// blocks, at the sector itself.
pub proof fn law_sector_addressing()
    ensures
        DeviceType::SDSC.byte_addressed() && DeviceType::EMMC.byte_addressed(),
        !DeviceType::SDHC.byte_addressed() && !DeviceType::HCEMMC.byte_addressed(),
        forall|k: DeviceType| #[trigger] k.byte_addressed() ==> k == DeviceType::SDSC || k == DeviceType::EMMC,
{
}

/// Write-protection flag: the card is password protected.
pub const PROTECTION_PASSWORD: u8 = 8;

/// The protection flag a SELECT_CARD response adds: the response word masked
/// with bit 3 (the password flag position).
pub fn select_protection(response: u32) -> (p: u8)
    ensures
        p == response % 16 / 8 * 8,
{
    let locked: u32 = response & (1u32 << 25u32) >> 22u32;
    assert(locked == response % 16 / 8 * 8) by (bit_vector)
        requires
            locked == response & (1u32 << 25u32) >> 22u32,
    ;
    locked as u8
}

/// The 128-bit register `resp` (word 0 most significant) as a number.
pub open spec fn reg128(resp: Seq<u32>) -> int {
    resp[3] + resp[2] * 0x1_0000_0000 + resp[1] * 0x1_0000_0000_0000_0000 + resp[0]
        * 0x1_0000_0000_0000_0000_0000_0000
}

/// `extract_bits` can run on these arguments without an overflowing shift or an
/// index out of bounds: the start bit selects one of the four words, its low
/// bits (masked as the code masks them, with 0x31) are below 32, and a field
/// that runs into the next word has that word and a shift below 32.
pub open spec fn extract_bits_ok(start: int, size: int) -> bool {
    let shift = (start as u32 & 0x31u32) as int;
    &&& 0 <= start < 128
    &&& shift < 32
    &&& size + shift <= usize::MAX
    &&& size + shift > 32 ==> start < 96 && shift != 0
}

/// The field of `size` bits whose lowest bit is `start` in a 128-bit card
/// register, the way the driver extracts it: the start bit's word shifted
/// right by `start & 0x31`, the next word shifted in when the field crosses it,
/// masked to `size` bits (all 32 bits from 32 on).
pub open spec fn extract_bits_spec(resp: Seq<u32>, start: int, size: int) -> u32 {
    let off = 3 - start / 32;
    let shift = (start as u32 & 0x31u32);
    let mask: u32 = if size < 32 {
        ((1u32 << (size as u32)) - 1u32) as u32
    } else {
        0xFFFF_FFFFu32
    };
    let low = resp[off] >> shift;
    let v = if size + shift > 32 {
        low | (resp[off - 1] << (((32u32 - shift) as u32) & 0x31u32))
    } else {
        low
    };
    v & mask
}

/// Extracts a bit field of a card register (CSD/CID) held as four words, most
/// significant first.
pub fn extract_bits(resp: &[u32; 4], start: usize, size: usize) -> (r: u32)
    requires
        extract_bits_ok(start as int, size as int),
    ensures
        r == extract_bits_spec(resp@, start as int, size as int),
{
    let mask: u32 = if size < 32 {
        assert(1u32 << (size as u32) >= 1) by (bit_vector)
            requires
                size < 32,
        ;
        (1u32 << (size as u32)) - 1
    } else {
        0xFFFF_FFFFu32
    };
    assert(start >> 5usize == start / 32) by (bit_vector);
    let off: usize = 3 - (start >> 5usize);
    let shift: usize = start & 0x31usize;
    assert(shift == (start as u32 & 0x31u32)) by (bit_vector)
        requires
            shift == start & 0x31usize,
            start < 128,
    ;
    let sh: u32 = shift as u32;
    let mut res: u32 = resp[off] >> sh;
    if size + shift > 32 {
        let diff: u32 = 32u32 - sh;
        let back: u32 = diff & 0x31u32;
        assert(back < 32) by (bit_vector)
            requires
                back == diff & 0x31u32,
                0 < diff < 32,
        ;
        res = res | (resp[off - 1] << back);
    }
    res & mask
}

} // verus!
