//! The inter-processor FIFO and the request protocol the ARM7 side serves:
//! how a request word is read, how many argument words follow it, and which
//! reply word each outcome gets.
use vstd::prelude::*;
use crate::mmc::DeviceSelect;
use crate::sdmmc::InitSDMMCError;

verus! {

/// FIFO control: the send queue is empty.
pub const IPCCNT_SEND_FIFO_EMPTY: u32 = 1 << 0;
/// FIFO control: the send queue is full.
pub const IPCCNT_SEND_FIFO_FULL: u32 = 1 << 1;
/// FIFO control: interrupt when the send queue empties.
pub const IPCCNT_ENABLE_SEND_FIFO_IRQ: u32 = 1 << 2;
/// FIFO control: flush the send queue.
pub const IPCCNT_FLUSH_SEND_FIFO: u32 = 1 << 3;
/// FIFO control: the receive queue is empty.
pub const IPCCNT_RECV_FIFO_EMPTY: u32 = 1 << 8;
/// FIFO control: the receive queue is full.
pub const IPCCNT_RECV_FIFO_FULL: u32 = 1 << 9;
/// FIFO control: interrupt when the receive queue fills.
pub const IPCCNT_ENABLE_RECV_FIFO_IRQ: u32 = 1 << 10;
/// FIFO control: an error occurred.
pub const IPCCNT_ERROR: u32 = 1 << 14;
/// FIFO control: the queues are on.
pub const IPCCNT_ENABLE_FIFOS: u32 = 1 << 15;

/// Why a word could not be queued.
#[derive(Debug, Clone, Copy, PartialEq, Eq, Structural)]
pub enum SendFifoError {
    QueueFull,
    FifoDisabled,
}

/// Why no word could be taken.
#[derive(Debug, Clone, Copy, PartialEq, Eq, Structural)]
pub enum RecieveFifoError {
    QueueEmpty,
    FifoDisabled,
}

/// Whether a word may be queued, given the control register.
pub fn send_check(control: u32) -> (r: Result<(), SendFifoError>)
    ensures
        control & IPCCNT_SEND_FIFO_FULL != 0 ==> r == Err::<(), SendFifoError>(
            SendFifoError::QueueFull,
        ),
        control & IPCCNT_SEND_FIFO_FULL == 0 && control & IPCCNT_ENABLE_FIFOS == 0 ==> r == Err::<
            (),
            SendFifoError,
        >(SendFifoError::FifoDisabled),
        control & IPCCNT_SEND_FIFO_FULL == 0 && control & IPCCNT_ENABLE_FIFOS != 0 ==> r is Ok,
{
    if control & IPCCNT_SEND_FIFO_FULL != 0 {
        return Err(SendFifoError::QueueFull);
    }
    if control & IPCCNT_ENABLE_FIFOS == 0 {
        return Err(SendFifoError::FifoDisabled);
    }
    Ok(())
}

/// Whether a word may be taken, given the control register.
pub fn recieve_check(control: u32) -> (r: Result<(), RecieveFifoError>)
    ensures
        control & IPCCNT_RECV_FIFO_EMPTY != 0 ==> r == Err::<(), RecieveFifoError>(
            RecieveFifoError::QueueEmpty,
        ),
        control & IPCCNT_RECV_FIFO_EMPTY == 0 && control & IPCCNT_ENABLE_FIFOS == 0 ==> r == Err::<
            (),
            RecieveFifoError,
        >(RecieveFifoError::FifoDisabled),
        control & IPCCNT_RECV_FIFO_EMPTY == 0 && control & IPCCNT_ENABLE_FIFOS != 0 ==> r is Ok,
{
    if control & IPCCNT_RECV_FIFO_EMPTY != 0 {
        return Err(RecieveFifoError::QueueEmpty);
    }
    if control & IPCCNT_ENABLE_FIFOS == 0 {
        return Err(RecieveFifoError::FifoDisabled);
    }
    Ok(())
}

/// The sync-register word that shows `status` to the other processor: its low
/// four bits in bits 8 to 11.
pub open spec fn spec_status_word(status: u8) -> u32 {
    ((status & 0xFu8) as u32) << 8u32
}

/// The sync-register word that shows `status` to the other processor.
pub fn status_word(status: u8) -> (w: u32)
    ensures
        w == spec_status_word(status),
        w == (status % 16) * 256,
{
    let w: u32 = ((status & 0xFu8) as u32) << 8u32;
    assert(w == (status % 16) * 256) by (bit_vector)
        requires
            w == ((status & 0xFu8) as u32) << 8u32,
    ;
    w
}

/// The status the other processor shows, from the sync register: its low
/// four bits.
pub fn status_of(sync: u32) -> (s: u8)
    ensures
        s == (sync as u8) & 0xF,
{
    (sync as u8) & 0xFu8
}

/// A status shown through the sync register arrives on the other side as its
/// low four bits: the other side sees bits 8 to 11 of this side's register in
/// its own bits 0 to 3.
pub proof fn law_status_round_trip(status: u8)
    ensures
        (((spec_status_word(status) >> 8u32) as u8) & 0xF) == status % 16,
{
    assert((((((status & 0xFu8) as u32) << 8u32) >> 8u32) as u8) & 0xF == status % 16)
        by (bit_vector);
}

/// The reply to a request the ARM7 side does not know, or to a bad argument.
pub const REPLY_UNKNOWN: u32 = 0x8000_0000;

/// The requests the ARM7 side serves, by request word.
#[derive(Debug, Clone, Copy, PartialEq, Eq, Structural)]
pub enum Arm7Request {
    /// 1: read the buttons and the touch position.
    FetchControls,
    /// 2: set the transfer buffer (address, sector count).
    SetBuffer,
    /// 3: read and decrypt NAND sectors (first sector).
    ReadNand,
    /// 5: read SD sectors (first sector).
    ReadSd,
    /// 6: hand the processor to the booted program.
    Boot,
    /// 8: bring up a storage device (1: SD slot, 2: eMMC).
    InitStorage,
    /// 9: start music (module type, address).
    SetMusic,
    /// 10: write SD sectors (first sector).
    WriteSd,
    /// 11: check a storage device.
    CheckStorage,
    /// 12: decrypt the modules of the loaded program.
    ModCrypt,
    /// 13: bring up the wireless card (firmware address, length).
    InitWifi,
    /// 14: program a sound channel (address, length and channel, timer, control).
    PlaySound,
    /// 15: encrypt and write NAND sectors (first sector).
    WriteNand,
}

/// The request a word names, if any.
pub open spec fn spec_request(word: u32) -> Option<Arm7Request> {
    if word == 1 {
        Some(Arm7Request::FetchControls)
    } else if word == 2 {
        Some(Arm7Request::SetBuffer)
    } else if word == 3 {
        Some(Arm7Request::ReadNand)
    } else if word == 5 {
        Some(Arm7Request::ReadSd)
    } else if word == 6 {
        Some(Arm7Request::Boot)
    } else if word == 8 {
        Some(Arm7Request::InitStorage)
    } else if word == 9 {
        Some(Arm7Request::SetMusic)
    } else if word == 10 {
        Some(Arm7Request::WriteSd)
    } else if word == 11 {
        Some(Arm7Request::CheckStorage)
    } else if word == 12 {
        Some(Arm7Request::ModCrypt)
    } else if word == 13 {
        Some(Arm7Request::InitWifi)
    } else if word == 14 {
        Some(Arm7Request::PlaySound)
    } else if word == 15 {
        Some(Arm7Request::WriteNand)
    } else {
        None
    }
}

impl Arm7Request {
    /// The request a word names; `None` is answered with [`REPLY_UNKNOWN`].
    pub fn decode(word: u32) -> (r: Option<Arm7Request>)
        ensures
            r == spec_request(word),
    {
        match word {
            1 => Some(Arm7Request::FetchControls),
            2 => Some(Arm7Request::SetBuffer),
            3 => Some(Arm7Request::ReadNand),
            5 => Some(Arm7Request::ReadSd),
            6 => Some(Arm7Request::Boot),
            8 => Some(Arm7Request::InitStorage),
            9 => Some(Arm7Request::SetMusic),
            10 => Some(Arm7Request::WriteSd),
            11 => Some(Arm7Request::CheckStorage),
            12 => Some(Arm7Request::ModCrypt),
            13 => Some(Arm7Request::InitWifi),
            14 => Some(Arm7Request::PlaySound),
            15 => Some(Arm7Request::WriteNand),
            _ => None,
        }
    }

    /// The request word.
    pub open spec fn spec_word(self) -> u32 {
        match self {
            Arm7Request::FetchControls => 1,
            Arm7Request::SetBuffer => 2,
            Arm7Request::ReadNand => 3,
            Arm7Request::ReadSd => 5,
            Arm7Request::Boot => 6,
            Arm7Request::InitStorage => 8,
            Arm7Request::SetMusic => 9,
            Arm7Request::WriteSd => 10,
            Arm7Request::CheckStorage => 11,
            Arm7Request::ModCrypt => 12,
            Arm7Request::InitWifi => 13,
            Arm7Request::PlaySound => 14,
            Arm7Request::WriteNand => 15,
        }
    }

    /// How many argument words follow the request word.
    pub open spec fn spec_argument_words(self) -> usize {
        match self {
            Arm7Request::FetchControls => 0,
            Arm7Request::SetBuffer => 2,
            Arm7Request::ReadNand => 1,
            Arm7Request::ReadSd => 1,
            Arm7Request::Boot => 0,
            Arm7Request::InitStorage => 1,
            Arm7Request::SetMusic => 2,
            Arm7Request::WriteSd => 1,
            Arm7Request::CheckStorage => 1,
            Arm7Request::ModCrypt => 0,
            Arm7Request::InitWifi => 2,
            Arm7Request::PlaySound => 4,
            Arm7Request::WriteNand => 1,
        }
    }

    /// How many argument words follow the request word.
    pub fn argument_words(&self) -> (n: usize)
        ensures
            n == self.spec_argument_words(),
    {
        match self {
            Arm7Request::FetchControls => 0,
            Arm7Request::SetBuffer => 2,
            Arm7Request::ReadNand => 1,
            Arm7Request::ReadSd => 1,
            Arm7Request::Boot => 0,
            Arm7Request::InitStorage => 1,
            Arm7Request::SetMusic => 2,
            Arm7Request::WriteSd => 1,
            Arm7Request::CheckStorage => 1,
            Arm7Request::ModCrypt => 0,
            Arm7Request::InitWifi => 2,
            Arm7Request::PlaySound => 4,
            Arm7Request::WriteNand => 1,
        }
    }

    /// The sender must have sent nothing more after the arguments.
    pub fn expects_empty_queue(&self) -> (b: bool)
        ensures
            b == !(*self is InitStorage || *self is SetMusic || *self is PlaySound),
    {
        match self {
            Arm7Request::InitStorage | Arm7Request::SetMusic | Arm7Request::PlaySound => false,
            _ => true,
        }
    }
}

/// Decoding a word and reading the request's word back gives the word again.
pub proof fn law_request_word_round_trip(word: u32)
    requires
        spec_request(word) is Some,
    ensures
        spec_request(word)->0.spec_word() == word,
{
}

/// The reply to a sector read: 0, or the error bits with the top bit set.
pub open spec fn spec_read_reply(outcome: Result<(), u32>) -> u32 {
    match outcome {
        Ok(()) => 0,
        Err(e) => 0x8000_0000u32 | e,
    }
}

/// The reply to a sector read: 0, or the error bits with the top bit set.
pub fn read_reply(outcome: Result<(), u32>) -> (r: u32)
    ensures
        r == spec_read_reply(outcome),
{
    match outcome {
        Ok(()) => 0,
        Err(e) => 0x8000_0000u32 | e,
    }
}

/// The reply to a sector write: 0, or the error bits as they are.
pub fn write_reply(outcome: Result<(), u32>) -> (r: u32)
    ensures
        r == match outcome {
            Ok(()) => 0u32,
            Err(e) => e,
        },
{
    match outcome {
        Ok(()) => 0,
        Err(e) => e,
    }
}

/// A failed read never looks like a success: its reply has the top bit set.
pub proof fn law_failed_read_is_flagged(e: u32)
    ensures
        spec_read_reply(Err(e)) != 0,
        spec_read_reply(Err(e)) & 0x8000_0000 == 0x8000_0000,
{
    assert((0x8000_0000u32 | e) != 0 && (0x8000_0000u32 | e) & 0x8000_0000 == 0x8000_0000)
        by (bit_vector);
}

/// The storage device an argument word names: 1 the SD slot, 2 the eMMC.
pub fn storage_device(arg: u32) -> (d: Option<DeviceSelect>)
    ensures
        arg == 1 ==> d == Some(DeviceSelect::SDCardSlot),
        arg == 2 ==> d == Some(DeviceSelect::EMMC),
        arg != 1 && arg != 2 ==> d is None,
{
    match arg {
        1 => Some(DeviceSelect::SDCardSlot),
        2 => Some(DeviceSelect::EMMC),
        _ => None,
    }
}

/// The reply to a bring-up: 0, or the error's code.
pub fn init_storage_reply(outcome: Result<(), InitSDMMCError>) -> (r: u32)
    ensures
        r == match outcome {
            Ok(()) => 0u32,
            Err(e) => e.spec_code() as u32,
        },
{
    match outcome {
        Ok(()) => 0,
        Err(e) => e.code() as u32,
    }
}

/// The reply to a device check: 0 for a known device, 1 otherwise.
pub fn check_storage_reply(arg: u32) -> (r: u32)
    ensures
        r == (if arg == 1 || arg == 2 {
            0u32
        } else {
            1u32
        }),
{
    if arg == 1 || arg == 2 {
        0
    } else {
        1
    }
}

/// What a music request asks for.
#[derive(Debug, Clone, Copy, PartialEq, Eq, Structural)]
pub enum MusicRequest {
    /// Play the MOD module at this address.
    Module(u32),
    /// Procedural music: nothing to do.
    Procedural,
    /// An unknown module type.
    Unknown,
}

/// What a music request asks for, and the reply word.
pub fn music_request(module_type: u32, pointer: u32) -> (r: (MusicRequest, u32))
    ensures
        module_type == 0 ==> r == (MusicRequest::Module(pointer), 0u32),
        module_type == 1 ==> r == (MusicRequest::Procedural, 0u32),
        module_type > 1 ==> r == (MusicRequest::Unknown, REPLY_UNKNOWN),
{
    match module_type {
        0 => (MusicRequest::Module(pointer), 0),
        1 => (MusicRequest::Procedural, 0),
        _ => (MusicRequest::Unknown, REPLY_UNKNOWN),
    }
}

/// Sound channel control: start playing.
pub const SOUND_START: u32 = 1 << 31;

/// What a sound request writes to its channel.
#[derive(Debug, Clone, Copy, PartialEq, Eq, Structural)]
pub struct SoundChannelWrite {
    /// The channel, from the low four bits of the length word.
    pub channel: usize,
    /// When set, the length, loop start, source and timer are written before
    /// the control word; otherwise only the control word.
    pub start: bool,
    pub length: u32,
    pub loop_start: u16,
    pub source: u32,
    pub timer: u16,
    pub control: u32,
}

/// Splits the four words of a sound request into the channel writes.
pub fn sound_channel_write(ptr: u32, len: u32, timer: u32, flags: u32) -> (w: SoundChannelWrite)
    ensures
        w.channel == len % 16,
        w.start == (flags & SOUND_START == SOUND_START),
        w.length == len / 64,
        w.loop_start == timer / 0x1_0000,
        w.source == ptr,
        w.timer == timer % 0x1_0000,
        w.control == flags,
{
    let channel: u32 = len & 0xFu32;
    let length: u32 = len >> 6u32;
    let loop_start: u32 = timer >> 16u32;
    let low: u16 = timer as u16;
    assert(channel == len % 16 && length == len / 64 && loop_start == timer / 0x1_0000
        && loop_start < 0x1_0000 && low == timer % 0x1_0000) by (bit_vector)
        requires
            channel == len & 0xFu32,
            length == len >> 6u32,
            loop_start == timer >> 16u32,
            low == timer as u16,
    ;
    SoundChannelWrite {
        channel: channel as usize,
        start: flags & SOUND_START == SOUND_START,
        length,
        loop_start: loop_start as u16,
        source: ptr,
        timer: low,
        control: flags,
    }
}

/// The request codes the ARM9 side sends.
#[derive(Debug, Clone, Copy, PartialEq, Eq, Structural)]
pub enum TransactionCode {
    ReadControls,
    SetBuffer,
    ReadNandEncrypted,
    ReadNandRaw,
    ReadSD,
    WriteSD,
    WriteNand,
    Boot,
    DoModcrypt,
    GenericSend,
    InitSDMMCDevice,
    CheckSDMMCDevice,
    InitWifi,
    SetWarmboot,
    SetSoundChannel,
}

impl TransactionCode {
    /// The request word.
    pub open spec fn spec_word(self) -> u32 {
        match self {
            TransactionCode::ReadControls => 1,
            TransactionCode::SetBuffer => 2,
            TransactionCode::ReadNandEncrypted => 3,
            TransactionCode::ReadNandRaw => 4,
            TransactionCode::ReadSD => 5,
            TransactionCode::WriteSD => 10,
            TransactionCode::WriteNand => 15,
            TransactionCode::Boot => 6,
            TransactionCode::DoModcrypt => 12,
            TransactionCode::GenericSend => 9,
            TransactionCode::InitSDMMCDevice => 8,
            TransactionCode::CheckSDMMCDevice => 11,
            TransactionCode::InitWifi => 13,
            TransactionCode::SetSoundChannel => 14,
            TransactionCode::SetWarmboot => 16,
        }
    }

    /// The request word.
    pub fn word(self) -> (w: u32)
        ensures
            w == self.spec_word(),
    {
        match self {
            TransactionCode::ReadControls => 1,
            TransactionCode::SetBuffer => 2,
            TransactionCode::ReadNandEncrypted => 3,
            TransactionCode::ReadNandRaw => 4,
            TransactionCode::ReadSD => 5,
            TransactionCode::WriteSD => 10,
            TransactionCode::WriteNand => 15,
            TransactionCode::Boot => 6,
            TransactionCode::DoModcrypt => 12,
            TransactionCode::GenericSend => 9,
            TransactionCode::InitSDMMCDevice => 8,
            TransactionCode::CheckSDMMCDevice => 11,
            TransactionCode::InitWifi => 13,
            TransactionCode::SetSoundChannel => 14,
            TransactionCode::SetWarmboot => 16,
        }
    }
}

/// Every request the ARM9 side sends that the ARM7 side serves is read back
/// as the same kind of request.
pub proof fn law_codes_agree()
    ensures
        spec_request(TransactionCode::ReadControls.spec_word()) == Some(Arm7Request::FetchControls),
        spec_request(TransactionCode::SetBuffer.spec_word()) == Some(Arm7Request::SetBuffer),
        spec_request(TransactionCode::ReadNandEncrypted.spec_word()) == Some(Arm7Request::ReadNand),
        spec_request(TransactionCode::ReadSD.spec_word()) == Some(Arm7Request::ReadSd),
        spec_request(TransactionCode::WriteSD.spec_word()) == Some(Arm7Request::WriteSd),
        spec_request(TransactionCode::WriteNand.spec_word()) == Some(Arm7Request::WriteNand),
        spec_request(TransactionCode::Boot.spec_word()) == Some(Arm7Request::Boot),
        spec_request(TransactionCode::DoModcrypt.spec_word()) == Some(Arm7Request::ModCrypt),
        spec_request(TransactionCode::GenericSend.spec_word()) == Some(Arm7Request::SetMusic),
        spec_request(TransactionCode::InitSDMMCDevice.spec_word()) == Some(Arm7Request::InitStorage),
        spec_request(TransactionCode::CheckSDMMCDevice.spec_word()) == Some(Arm7Request::CheckStorage),
        spec_request(TransactionCode::InitWifi.spec_word()) == Some(Arm7Request::InitWifi),
        spec_request(TransactionCode::SetSoundChannel.spec_word()) == Some(Arm7Request::PlaySound),
{
}

/// The words of a request: the request word, then its arguments.
pub fn request_words(code: TransactionCode, args: &[u32]) -> (w: Vec<u32>)
    ensures
        w@ == seq![code.spec_word()] + args@,
{
    let mut w: Vec<u32> = Vec::new();
    w.push(code.word());
    let mut i: usize = 0;
    while i < args.len()
        invariant
            i <= args@.len(),
            w@ == seq![code.spec_word()] + args@.subrange(0, i as int),
        decreases args@.len() - i,
    {
        w.push(args[i]);
        i = i + 1;
    }
    assert(args@.subrange(0, args@.len() as int) =~= args@);
    w
}

/// The outcome of a request from its reply word: success for 0, else the
/// (nonzero) reply as the error.
pub fn reply_result(value: u32) -> (r: Result<(), u32>)
    ensures
        value == 0 ==> r == Ok::<(), u32>(()),
        value != 0 ==> r == Err::<(), u32>(value),
{
    if value == 0 {
        Ok(())
    } else {
        Err(value)
    }
}

/// A controller reading as the ARM9 side receives it: the buttons and the
/// touch position.
#[derive(Debug, Clone, Copy, PartialEq, Eq, Structural)]
pub struct Controls {
    pub buttons: u16,
    pub touch_x: u8,
    pub touch_y: u8,
}

/// Splits the reply to a controller request: the buttons in the low half,
/// the touch position in the two top bytes. A failed request reads as all
/// zero.
pub fn controls_from_reply(r: Result<(), u32>) -> (c: Controls)
    ensures
        ({
            let v: u32 = match r {
                Ok(()) => 0u32,
                Err(e) => e,
            };
            &&& c.buttons == v % 0x1_0000
            &&& c.touch_x == (v / 0x1_0000) % 256
            &&& c.touch_y == v / 0x100_0000
        }),
{
    let v: u32 = match r {
        Ok(()) => 0,
        Err(e) => e,
    };
    let b: u16 = v as u16;
    let x: u8 = (v >> 16u32) as u8;
    let y: u8 = (v >> 24u32) as u8;
    assert(b == v % 0x1_0000 && x == (v / 0x1_0000) % 256 && y == v / 0x100_0000) by (bit_vector)
        requires
            b == v as u16,
            x == (v >> 16u32) as u8,
            y == (v >> 24u32) as u8,
    ;
    Controls { buttons: b, touch_x: x, touch_y: y }
}

/// The controller reply the ARM7 side builds from its buttons and touch
/// position reads back as those buttons and that position.
pub proof fn law_controls_round_trip(keys: u16, x: u8, y: u8)
    ensures
        ({
            let v = keys + x * 0x1_0000 + y * 0x100_0000;
            &&& v % 0x1_0000 == keys
            &&& (v / 0x1_0000) % 256 == x
            &&& v / 0x100_0000 == y
        }),
{
    let v = keys + x * 0x1_0000 + y * 0x100_0000;
    assert(v % 0x1_0000 == keys && (v / 0x1_0000) % 256 == x && v / 0x100_0000 == y)
        by (nonlinear_arith)
        requires
            v == keys + x * 0x1_0000 + y * 0x100_0000,
            0 <= keys < 0x1_0000,
            0 <= x < 256,
            0 <= y < 256,
    ;
}

/// The four argument words of a sound request: the buffer address, its
/// length in bytes shifted up by four with the channel below, the timer with
/// the loop start above it, and the control word.
pub fn sound_request_words(ptr: u32, len_bytes: u32, channel: u8, timer: u16, control: u32, loop_start: u16) -> (w: [u32; 4])
    ensures
        w[0] == ptr,
        w[1] == ((len_bytes << 4u32) | (channel as u32)),
        w[2] == ((timer as u32) | ((loop_start as u32) << 16u32)),
        w[3] == control,
        channel < 16 && len_bytes < 0x1000_0000 ==> w[1] == len_bytes * 16 + channel,
        w[2] == timer + loop_start * 0x1_0000,
{
    let lw: u32 = (len_bytes << 4u32) | (channel as u32);
    let tw: u32 = (timer as u32) | ((loop_start as u32) << 16u32);
    assert((channel < 16 && len_bytes < 0x1000_0000 ==> lw == len_bytes * 16 + channel) && tw
        == timer + loop_start * 0x1_0000) by (bit_vector)
        requires
            lw == (len_bytes << 4u32) | (channel as u32),
            tw == (timer as u32) | ((loop_start as u32) << 16u32),
    ;
    [ptr, lw, tw, control]
}

/// A sound request built on the ARM9 side is unpacked on the ARM7 side into
/// the same channel, the length in words, the same timer and loop start, and
/// the same source and control.
pub proof fn law_sound_request_round_trip(
    ptr: u32,
    len_bytes: u32,
    channel: u8,
    timer: u16,
    control: u32,
    loop_start: u16,
)
    requires
        channel < 16,
        len_bytes < 0x1000_0000,
    ensures
        ({
            let lw = len_bytes * 16 + channel;
            let tw = timer + loop_start * 0x1_0000;
            &&& lw % 16 == channel
            &&& lw / 64 == len_bytes / 4
            &&& tw / 0x1_0000 == loop_start
            &&& tw % 0x1_0000 == timer
        }),
{
    let lw = len_bytes * 16 + channel;
    let tw = timer + loop_start * 0x1_0000;
    assert(lw % 16 == channel && lw / 64 == len_bytes / 4) by (nonlinear_arith)
        requires
            lw == len_bytes * 16 + channel,
            0 <= channel < 16,
            0 <= len_bytes,
    ;
    assert(tw / 0x1_0000 == loop_start && tw % 0x1_0000 == timer) by (nonlinear_arith)
        requires
            tw == timer + loop_start * 0x1_0000,
            0 <= timer < 0x1_0000,
            0 <= loop_start,
    ;
}

} // verus!
