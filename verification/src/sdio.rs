//! The SDIO routines of the wifi card, as a state machine over single
//! controller operations: restarting and identifying the card, configuring
//! its two functions, and reading words of its internal memory through the
//! function-1 window. The caller performs each request and hands back the
//! controller's answer.
use vstd::prelude::*;
use crate::wifi::{SDIOFunc, sdio_read_arg, sdio_write_arg, pow256, memory_write_message, lz_data_message, padded_payload, MBOX_WRITE_MEMORY, MBOX_EXECUTE, MBOX_LZ_START, MBOX_LZ_DATA};

verus! {

/// Card option of a four-bit bus.
pub const SDIO_OPTION_DEFAULT: u16 = 0x40EE;
/// Card option of a one-bit bus, used when the first probe fails.
pub const SDIO_OPTION_FALLBACK: u16 = 0xC0EE;
/// Wait after the function reset, and after the function-0 set-up.
pub const SDIO_RESET_WAIT: u32 = 0xF000;
/// Wait after function 1 is started.
pub const SDIO_FUNC1_WAIT: u32 = 0x10000;
/// Wait between two reads of a word that is not ready yet.
pub const SDIO_RETRY_WAIT: u32 = 0x100;
/// Window register of function 1 that data goes through.
pub const SDIO_WINDOW_DATA: u32 = 0x474;
/// Window register of function 1 that takes a write address.
pub const SDIO_WINDOW_WRITE_ADDR: u32 = 0x478;
/// Window register of function 1 that takes a read address.
pub const SDIO_WINDOW_READ_ADDR: u32 = 0x47C;
/// Internal register that starts function 1.
pub const SDIO_FUNC1_START_ADDR: u32 = 0x4000;
/// Value that starts function 1.
pub const SDIO_FUNC1_START_VALUE: u32 = 0x100;
/// Internal register that reports function 1 ready.
pub const SDIO_FUNC1_STATUS_ADDR: u32 = 0x40C0;

/// One controller operation.
#[derive(Clone, Copy, PartialEq, Eq, Structural, Debug)]
pub enum SdioRequest {
    /// Set the port's card option register; the answer is ignored.
    SetOption(u16),
    /// Wait this many BIOS delay units; the answer is ignored.
    Wait(u32),
    /// Send the I/O operating-condition command with this argument.
    OpCond(u32),
    /// Ask the card for its relative address.
    RelativeAddress,
    /// Select the card at this address.
    Select(u32),
    /// Read a byte: a CMD52 with this argument.
    Read(u32),
    /// Write a byte: a CMD52 with this argument.
    Write(u32),
    /// The routine ended; `true` when it failed.
    Done(bool),
}

/// The controller's answer: the command succeeded, and its response word.
#[derive(Clone, Copy)]
pub struct SdioAnswer {
    pub ok: bool,
    pub response: u32,
}

/// The routines.
#[derive(Clone, Copy, PartialEq, Eq, Structural, Debug)]
pub enum SdioRoutine {
    /// Restart the card: probe, identify, select, reset its functions and set
    /// up its bus interface.
    Restart,
    /// Configure function 0 for blocks of `block_len` bytes.
    Func0 { block_len: u16 },
    /// Start function 1 and check that it reports ready.
    Func1,
    /// Read the internal word at `addr` until it reads 1.
    WaitWord { addr: u32 },
}

/// The operation whose answer the machine waits for.
#[derive(Clone, Copy, PartialEq, Eq, Structural, Debug)]
pub enum SdioPhase {
    ProbeOption,
    Probe,
    FallbackOption,
    OpCond,
    RelAddr,
    Select,
    Reset0,
    Reset2,
    ResetWait,
    ReadIfCnt,
    WriteIfCnt,
    FinalOption,
    Func0Write,
    Func0Wait,
    Func0Poll,
    WordWrite,
    WordWriteWait,
    SelectWrite,
    WordRead,
    RetryWait,
    Done,
}

/// State of one routine: the operation awaited, a position inside a run of
/// byte operations, the failures seen in that run, the operating condition
/// asked for, the word assembled so far and the internal address read.
#[derive(Clone, Copy)]
pub struct SdioSetup {
    pub routine: SdioRoutine,
    pub phase: SdioPhase,
    pub index: u32,
    pub failed: bool,
    pub ocr: u32,
    pub value: u32,
    pub target: u32,
    pub result: bool,
}

/// Argument of a CMD52 byte read.
pub open spec fn read_arg(func: SDIOFunc, addr: int) -> u32 {
    (func.number() * 0x1000_0000 + (addr % 0x2_0000) * 0x200) as u32
}

/// Argument of a CMD52 byte write.
pub open spec fn write_arg(func: SDIOFunc, addr: int, value: int) -> u32 {
    (0x8000_0000 + func.number() * 0x1000_0000 + (addr % 0x2_0000) * 0x200 + value) as u32
}

/// Byte `k` (0 least significant) of `v`.
pub open spec fn byte_of(v: u32, k: int) -> int {
    (v as int / pow256(k)) % 256
}

/// Byte write `i` (below 4) of a word write of `value` at window register
/// `addr`: most significant byte first, each to its own address.
pub open spec fn word_write_arg(addr: u32, value: u32, i: int) -> u32 {
    write_arg(SDIOFunc::One, addr + 3 - i, byte_of(value, 3 - i))
}

/// Byte write `i` (below 8) of starting function 1: the value to the data
/// register, then the internal address to the write-address register.
pub open spec fn func1_write_arg(i: int) -> u32 {
    if i < 4 {
        word_write_arg(SDIO_WINDOW_DATA, SDIO_FUNC1_START_VALUE, i)
    } else {
        word_write_arg(SDIO_WINDOW_WRITE_ADDR, SDIO_FUNC1_START_ADDR, i - 4)
    }
}

/// Byte write `i` (below 5) of the function-0 set-up for blocks of
/// `block_len` bytes: enable function 1, then the block size of functions 1
/// and 0, low byte first.
pub open spec fn func0_write_arg(block_len: u16, i: int) -> u32 {
    if i == 0 {
        write_arg(SDIOFunc::Zero, 0x12, 2)
    } else if i == 1 {
        write_arg(SDIOFunc::Zero, 0x110, (block_len % 256) as int)
    } else if i == 2 {
        write_arg(SDIOFunc::Zero, 0x111, (block_len / 256) as int)
    } else if i == 3 {
        write_arg(SDIOFunc::Zero, 0x10, (block_len % 256) as int)
    } else {
        write_arg(SDIOFunc::Zero, 0x11, (block_len / 256) as int)
    }
}

/// The byte a read gives: the response's low byte, or 0xFF when it failed.
pub open spec fn read_byte(ans: SdioAnswer) -> int {
    if ans.ok {
        (ans.response % 256) as int
    } else {
        0xFF
    }
}

fn rd(func: SDIOFunc, addr: u32) -> (r: SdioRequest)
    ensures
        r == SdioRequest::Read(read_arg(func, addr as int)),
{
    SdioRequest::Read(sdio_read_arg(func, addr))
}

fn wr(func: SDIOFunc, addr: u32, value: u8) -> (r: SdioRequest)
    ensures
        r == SdioRequest::Write(write_arg(func, addr as int, value as int)),
{
    SdioRequest::Write(sdio_write_arg(func, addr, value))
}

fn byte_at(v: u32, k: u32) -> (b: u8)
    requires
        k < 4,
    ensures
        b == byte_of(v, k as int),
{
    if k == 0 {
        (v % 0x100) as u8
    } else if k == 1 {
        ((v / 0x100) % 0x100) as u8
    } else if k == 2 {
        ((v / 0x1_0000) % 0x100) as u8
    } else {
        ((v / 0x100_0000) % 0x100) as u8
    }
}

fn word_write(addr: u32, value: u32, i: u32) -> (r: SdioRequest)
    requires
        i < 4,
        addr + 3 <= u32::MAX,
    ensures
        r == SdioRequest::Write(word_write_arg(addr, value, i as int)),
{
    let b: u8 = byte_at(value, 3 - i);
    wr(SDIOFunc::One, addr + 3 - i, b)
}

fn func1_write(i: u32) -> (r: SdioRequest)
    requires
        i < 8,
    ensures
        r == SdioRequest::Write(func1_write_arg(i as int)),
{
    if i < 4 {
        word_write(SDIO_WINDOW_DATA, SDIO_FUNC1_START_VALUE, i)
    } else {
        word_write(SDIO_WINDOW_WRITE_ADDR, SDIO_FUNC1_START_ADDR, i - 4)
    }
}

fn func0_write(block_len: u16, i: u32) -> (r: SdioRequest)
    requires
        i < 5,
    ensures
        r == SdioRequest::Write(func0_write_arg(block_len, i as int)),
{
    let lo: u8 = (block_len % 256) as u8;
    let hi: u8 = (block_len / 256) as u8;
    if i == 0 {
        wr(SDIOFunc::Zero, 0x12, 2)
    } else if i == 1 {
        wr(SDIOFunc::Zero, 0x110, lo)
    } else if i == 2 {
        wr(SDIOFunc::Zero, 0x111, hi)
    } else if i == 3 {
        wr(SDIOFunc::Zero, 0x10, lo)
    } else {
        wr(SDIOFunc::Zero, 0x11, hi)
    }
}

/// The operations a routine waits in.
pub open spec fn phase_fits(routine: SdioRoutine, phase: SdioPhase) -> bool {
    phase is Done || match routine {
        SdioRoutine::Restart => phase is ProbeOption || phase is Probe || phase is FallbackOption
            || phase is OpCond || phase is RelAddr || phase is Select || phase is Reset0
            || phase is Reset2 || phase is ResetWait || phase is ReadIfCnt || phase is WriteIfCnt
            || phase is FinalOption,
        SdioRoutine::Func0 { .. } => phase is Func0Write || phase is Func0Wait || phase is Func0Poll,
        SdioRoutine::Func1 => phase is WordWrite || phase is WordWriteWait || phase is SelectWrite
            || phase is WordRead,
        SdioRoutine::WaitWord { .. } => phase is SelectWrite || phase is WordRead || phase is RetryWait,
    }
}

impl SdioSetup {
    /// The run positions stay in range and a word being read stays below the
    /// weight of the next byte.
    pub open spec fn wf(self) -> bool {
        &&& self.phase is Func0Write ==> self.index < 5
        &&& self.phase is WordWrite ==> self.index < 8
        &&& self.phase is SelectWrite ==> self.index < 4
        &&& self.phase is WordRead ==> self.index < 4 && self.value < pow256(self.index as int)
        &&& self.routine matches SdioRoutine::Func1 ==> self.target == SDIO_FUNC1_STATUS_ADDR
        &&& self.routine matches SdioRoutine::WaitWord { addr } ==> self.target == addr
        &&& phase_fits(self.routine, self.phase)
    }

    /// The machine waits in `phase` for the answer to `req`.
    pub open spec fn sends(self, next: SdioSetup, act: SdioRequest, phase: SdioPhase, req: SdioRequest) -> bool {
        &&& next.routine == self.routine
        &&& next.target == self.target
        &&& next.phase == phase
        &&& act == req
    }

    /// The routine ends here.
    pub open spec fn ends(self, next: SdioSetup, act: SdioRequest, failed: bool) -> bool {
        &&& next.routine == self.routine
        &&& next.phase == SdioPhase::Done
        &&& next.result == failed
        &&& act == SdioRequest::Done(failed)
    }

    /// The start of a routine and its first request.
    pub open spec fn start_spec(routine: SdioRoutine, m: SdioSetup, act: SdioRequest) -> bool {
        &&& m.routine == routine
        &&& m.wf()
        &&& match routine {
            SdioRoutine::Restart => m.phase == SdioPhase::ProbeOption && act == SdioRequest::SetOption(
                SDIO_OPTION_DEFAULT,
            ),
            SdioRoutine::Func0 { block_len } => m.phase == SdioPhase::Func0Write && m.index == 0 && act
                == SdioRequest::Write(func0_write_arg(block_len, 0)),
            SdioRoutine::Func1 => m.phase == SdioPhase::WordWrite && m.index == 0 && !m.failed && act
                == SdioRequest::Write(func1_write_arg(0)),
            SdioRoutine::WaitWord { addr } => m.phase == SdioPhase::SelectWrite && m.index == 0
                && !m.failed && act == SdioRequest::Write(word_write_arg(SDIO_WINDOW_READ_ADDR, addr, 0)),
        }
    }

    /// Starts `routine`.
    pub fn new(routine: SdioRoutine) -> (r: (SdioSetup, SdioRequest))
        ensures
            Self::start_spec(routine, r.0, r.1),
    {
        let target: u32 = match routine {
            SdioRoutine::WaitWord { addr } => addr,
            _ => SDIO_FUNC1_STATUS_ADDR,
        };
        let mut m = SdioSetup {
            routine,
            phase: SdioPhase::Done,
            index: 0,
            failed: false,
            ocr: 0,
            value: 0,
            target,
            result: false,
        };
        let act = match routine {
            SdioRoutine::Restart => {
                m.phase = SdioPhase::ProbeOption;
                SdioRequest::SetOption(SDIO_OPTION_DEFAULT)
            },
            SdioRoutine::Func0 { block_len } => {
                m.phase = SdioPhase::Func0Write;
                func0_write(block_len, 0)
            },
            SdioRoutine::Func1 => {
                m.phase = SdioPhase::WordWrite;
                func1_write(0)
            },
            SdioRoutine::WaitWord { addr } => {
                m.phase = SdioPhase::SelectWrite;
                word_write(SDIO_WINDOW_READ_ADDR, addr, 0)
            },
        };
        (m, act)
    }

    /// The step after the last byte of a word read: the word is `value`, and
    /// `failed` tells whether selecting its address failed.
    pub open spec fn word_done(self, next: SdioSetup, act: SdioRequest, failed: bool, value: int) -> bool {
        match self.routine {
            SdioRoutine::WaitWord { .. } => if !failed && value == 1 {
                self.ends(next, act, false)
            } else {
                self.sends(next, act, SdioPhase::RetryWait, SdioRequest::Wait(SDIO_RETRY_WAIT))
            },
            _ => self.ends(next, act, failed || value != 2),
        }
    }

    /// One step: how the machine moves on from `self` when the answer `ans`
    /// arrives, and what it asks for next.
    pub open spec fn step_spec(self, ans: SdioAnswer, next: SdioSetup, act: SdioRequest) -> bool {
        match self.phase {
            SdioPhase::ProbeOption => self.sends(next, act, SdioPhase::Probe, SdioRequest::Read(read_arg(SDIOFunc::Zero, 0))),
            SdioPhase::Probe => if ans.ok {
                next.ocr == 0 && self.sends(next, act, SdioPhase::OpCond, SdioRequest::OpCond(0))
            } else {
                self.sends(next, act, SdioPhase::FallbackOption, SdioRequest::SetOption(SDIO_OPTION_FALLBACK))
            },
            SdioPhase::FallbackOption => next.ocr == 0 && self.sends(next, act, SdioPhase::OpCond, SdioRequest::OpCond(0)),
            SdioPhase::OpCond => if !ans.ok {
                next.ocr == self.ocr && self.sends(next, act, SdioPhase::OpCond, SdioRequest::OpCond(self.ocr))
            } else if ans.response & 0x8000_0000 != 0 {
                self.sends(next, act, SdioPhase::RelAddr, SdioRequest::RelativeAddress)
            } else {
                next.ocr == ans.response & 0x10_0000 && self.sends(
                    next,
                    act,
                    SdioPhase::OpCond,
                    SdioRequest::OpCond(ans.response & 0x10_0000),
                )
            },
            SdioPhase::RelAddr => if !ans.ok {
                self.ends(next, act, true)
            } else {
                self.sends(next, act, SdioPhase::Select, SdioRequest::Select(ans.response & 0xFFFF_0000))
            },
            SdioPhase::Select => if !ans.ok {
                self.ends(next, act, true)
            } else {
                self.sends(next, act, SdioPhase::Reset0, SdioRequest::Write(write_arg(SDIOFunc::Zero, 2, 0)))
            },
            SdioPhase::Reset0 => if !ans.ok {
                self.ends(next, act, true)
            } else {
                self.sends(next, act, SdioPhase::Reset2, SdioRequest::Write(write_arg(SDIOFunc::Zero, 2, 2)))
            },
            SdioPhase::Reset2 => if !ans.ok {
                self.ends(next, act, true)
            } else {
                self.sends(next, act, SdioPhase::ResetWait, SdioRequest::Wait(SDIO_RESET_WAIT))
            },
            SdioPhase::ResetWait => self.sends(next, act, SdioPhase::ReadIfCnt, SdioRequest::Read(read_arg(SDIOFunc::Zero, 7))),
            SdioPhase::ReadIfCnt => if !ans.ok {
                self.ends(next, act, true)
            } else {
                self.sends(
                    next,
                    act,
                    SdioPhase::WriteIfCnt,
                    SdioRequest::Write(write_arg(SDIOFunc::Zero, 7, ((ans.response % 256) as u8 | 0x82u8) as int)),
                )
            },
            SdioPhase::WriteIfCnt => if !ans.ok {
                self.ends(next, act, true)
            } else {
                self.sends(next, act, SdioPhase::FinalOption, SdioRequest::SetOption(SDIO_OPTION_DEFAULT))
            },
            SdioPhase::FinalOption => self.ends(next, act, false),
            SdioPhase::Func0Write => if !ans.ok {
                self.ends(next, act, true)
            } else if self.index + 1 < 5 {
                &&& next.index == self.index + 1
                &&& self.routine matches SdioRoutine::Func0 { block_len } && self.sends(
                    next,
                    act,
                    SdioPhase::Func0Write,
                    SdioRequest::Write(func0_write_arg(block_len, self.index + 1)),
                )
            } else {
                self.sends(next, act, SdioPhase::Func0Wait, SdioRequest::Wait(SDIO_RESET_WAIT))
            },
            SdioPhase::Func0Wait => self.sends(next, act, SdioPhase::Func0Poll, SdioRequest::Read(read_arg(SDIOFunc::Zero, 3))),
            SdioPhase::Func0Poll => if ans.ok && ans.response % 256 == 2 {
                self.ends(next, act, false)
            } else {
                self.sends(next, act, SdioPhase::Func0Poll, SdioRequest::Read(read_arg(SDIOFunc::Zero, 3)))
            },
            SdioPhase::WordWrite => {
                let failed = self.failed || !ans.ok;
                if self.index + 1 < 8 {
                    &&& next.index == self.index + 1
                    &&& next.failed == failed
                    &&& self.sends(next, act, SdioPhase::WordWrite, SdioRequest::Write(func1_write_arg(self.index + 1)))
                } else if failed {
                    self.ends(next, act, true)
                } else {
                    self.sends(next, act, SdioPhase::WordWriteWait, SdioRequest::Wait(SDIO_FUNC1_WAIT))
                }
            },
            SdioPhase::WordWriteWait | SdioPhase::RetryWait => {
                &&& next.index == 0
                &&& !next.failed
                &&& self.sends(
                    next,
                    act,
                    SdioPhase::SelectWrite,
                    SdioRequest::Write(word_write_arg(SDIO_WINDOW_READ_ADDR, self.target, 0)),
                )
            },
            SdioPhase::SelectWrite => {
                let failed = self.failed || !ans.ok;
                &&& next.failed == failed
                &&& if self.index + 1 < 4 {
                    &&& next.index == self.index + 1
                    &&& self.sends(
                        next,
                        act,
                        SdioPhase::SelectWrite,
                        SdioRequest::Write(word_write_arg(SDIO_WINDOW_READ_ADDR, self.target, self.index + 1)),
                    )
                } else {
                    &&& next.index == 0
                    &&& next.value == 0
                    &&& self.sends(next, act, SdioPhase::WordRead, SdioRequest::Read(read_arg(SDIOFunc::One, SDIO_WINDOW_DATA as int)))
                }
            },
            SdioPhase::WordRead => {
                let value = self.value + read_byte(ans) * pow256(self.index as int);
                if self.index + 1 < 4 {
                    &&& next.index == self.index + 1
                    &&& next.value == value
                    &&& next.failed == self.failed
                    &&& self.sends(
                        next,
                        act,
                        SdioPhase::WordRead,
                        SdioRequest::Read(read_arg(SDIOFunc::One, SDIO_WINDOW_DATA + self.index + 1)),
                    )
                } else {
                    self.word_done(next, act, self.failed, value)
                }
            },
            SdioPhase::Done => next == self && act == SdioRequest::Done(self.result),
        }
    }

    fn send(&mut self, phase: SdioPhase, req: SdioRequest) -> (act: SdioRequest)
        ensures
            old(self).sends(*final(self), act, phase, req),
            final(self).index == old(self).index,
            final(self).failed == old(self).failed,
            final(self).ocr == old(self).ocr,
            final(self).value == old(self).value,
    {
        self.phase = phase;
        req
    }

    fn end(&mut self, failed: bool) -> (act: SdioRequest)
        ensures
            old(self).ends(*final(self), act, failed),
            final(self).target == old(self).target,
    {
        self.phase = SdioPhase::Done;
        self.result = failed;
        SdioRequest::Done(failed)
    }

    /// Takes the answer to the last request and decides the next one.
    pub fn step(&mut self, ans: SdioAnswer) -> (act: SdioRequest)
        requires
            old(self).wf(),
        ensures
            final(self).wf(),
            old(self).step_spec(ans, *final(self), act),
    {
        match self.phase {
            SdioPhase::ProbeOption => self.send(SdioPhase::Probe, rd(SDIOFunc::Zero, 0)),
            SdioPhase::Probe => {
                if ans.ok {
                    self.ocr = 0;
                    self.send(SdioPhase::OpCond, SdioRequest::OpCond(0))
                } else {
                    self.send(SdioPhase::FallbackOption, SdioRequest::SetOption(SDIO_OPTION_FALLBACK))
                }
            },
            SdioPhase::FallbackOption => {
                self.ocr = 0;
                self.send(SdioPhase::OpCond, SdioRequest::OpCond(0))
            },
            SdioPhase::OpCond => {
                if !ans.ok {
                    let ocr: u32 = self.ocr;
                    self.send(SdioPhase::OpCond, SdioRequest::OpCond(ocr))
                } else if ans.response & 0x8000_0000 != 0 {
                    self.send(SdioPhase::RelAddr, SdioRequest::RelativeAddress)
                } else {
                    let ocr: u32 = ans.response & 0x10_0000;
                    self.ocr = ocr;
                    self.send(SdioPhase::OpCond, SdioRequest::OpCond(ocr))
                }
            },
            SdioPhase::RelAddr => {
                if !ans.ok {
                    return self.end(true);
                }
                self.send(SdioPhase::Select, SdioRequest::Select(ans.response & 0xFFFF_0000))
            },
            SdioPhase::Select => {
                if !ans.ok {
                    return self.end(true);
                }
                self.send(SdioPhase::Reset0, wr(SDIOFunc::Zero, 2, 0))
            },
            SdioPhase::Reset0 => {
                if !ans.ok {
                    return self.end(true);
                }
                self.send(SdioPhase::Reset2, wr(SDIOFunc::Zero, 2, 2))
            },
            SdioPhase::Reset2 => {
                if !ans.ok {
                    return self.end(true);
                }
                self.send(SdioPhase::ResetWait, SdioRequest::Wait(SDIO_RESET_WAIT))
            },
            SdioPhase::ResetWait => self.send(SdioPhase::ReadIfCnt, rd(SDIOFunc::Zero, 7)),
            SdioPhase::ReadIfCnt => {
                if !ans.ok {
                    return self.end(true);
                }
                let v: u8 = (ans.response % 256) as u8 | 0x82u8;
                self.send(SdioPhase::WriteIfCnt, wr(SDIOFunc::Zero, 7, v))
            },
            SdioPhase::WriteIfCnt => {
                if !ans.ok {
                    return self.end(true);
                }
                self.send(SdioPhase::FinalOption, SdioRequest::SetOption(SDIO_OPTION_DEFAULT))
            },
            SdioPhase::FinalOption => self.end(false),
            SdioPhase::Func0Write => {
                if !ans.ok {
                    return self.end(true);
                }
                if self.index + 1 < 5 {
                    match self.routine {
                        SdioRoutine::Func0 { block_len } => {
                            self.index = self.index + 1;
                            let i: u32 = self.index;
                            self.send(SdioPhase::Func0Write, func0_write(block_len, i))
                        },
                        _ => {
                            self.index = self.index + 1;
                            let i: u32 = self.index;
                            self.send(SdioPhase::Func0Write, func0_write(0, i))
                        },
                    }
                } else {
                    self.send(SdioPhase::Func0Wait, SdioRequest::Wait(SDIO_RESET_WAIT))
                }
            },
            SdioPhase::Func0Wait => self.send(SdioPhase::Func0Poll, rd(SDIOFunc::Zero, 3)),
            SdioPhase::Func0Poll => {
                if ans.ok && ans.response % 256 == 2 {
                    self.end(false)
                } else {
                    self.send(SdioPhase::Func0Poll, rd(SDIOFunc::Zero, 3))
                }
            },
            SdioPhase::WordWrite => {
                let failed: bool = self.failed || !ans.ok;
                if self.index + 1 < 8 {
                    self.index = self.index + 1;
                    self.failed = failed;
                    let i: u32 = self.index;
                    self.send(SdioPhase::WordWrite, func1_write(i))
                } else if failed {
                    self.end(true)
                } else {
                    self.send(SdioPhase::WordWriteWait, SdioRequest::Wait(SDIO_FUNC1_WAIT))
                }
            },
            SdioPhase::WordWriteWait | SdioPhase::RetryWait => {
                self.index = 0;
                self.failed = false;
                let target: u32 = self.target;
                self.send(SdioPhase::SelectWrite, word_write(SDIO_WINDOW_READ_ADDR, target, 0))
            },
            SdioPhase::SelectWrite => {
                let failed: bool = self.failed || !ans.ok;
                self.failed = failed;
                if self.index + 1 < 4 {
                    self.index = self.index + 1;
                    let i: u32 = self.index;
                    let target: u32 = self.target;
                    self.send(SdioPhase::SelectWrite, word_write(SDIO_WINDOW_READ_ADDR, target, i))
                } else {
                    self.index = 0;
                    self.value = 0;
                    self.send(SdioPhase::WordRead, rd(SDIOFunc::One, SDIO_WINDOW_DATA))
                }
            },
            SdioPhase::WordRead => {
                let b: u32 = if ans.ok {
                    ans.response % 256
                } else {
                    0xFF
                };
                let weight: u32 = if self.index == 0 {
                    1
                } else if self.index == 1 {
                    0x100
                } else if self.index == 2 {
                    0x1_0000
                } else {
                    0x100_0000
                };
                assert(weight == pow256(self.index as int));
                assert(b * weight <= 255 * weight) by (nonlinear_arith)
                    requires
                        b <= 255,
                ;
                let value: u32 = self.value + b * weight;
                if self.index + 1 < 4 {
                    self.index = self.index + 1;
                    self.value = value;
                    let i: u32 = self.index;
                    self.send(SdioPhase::WordRead, rd(SDIOFunc::One, SDIO_WINDOW_DATA + i))
                } else {
                    let failed: bool = self.failed;
                    match self.routine {
                        SdioRoutine::WaitWord { .. } => {
                            if !failed && value == 1 {
                                self.end(false)
                            } else {
                                self.send(SdioPhase::RetryWait, SdioRequest::Wait(SDIO_RETRY_WAIT))
                            }
                        },
                        _ => self.end(failed || value != 2),
                    }
                }
            },
            SdioPhase::Done => SdioRequest::Done(self.result),
        }
    }
}

/// Once a routine has ended, every further answer leaves it unchanged and
/// repeats its outcome.
pub proof fn law_sdio_done_is_final(s: SdioSetup, ans: SdioAnswer, next: SdioSetup, act: SdioRequest)
    requires
        s.phase == SdioPhase::Done,
        s.step_spec(ans, next, act),
    ensures
        next == s,
        act == SdioRequest::Done(s.result),
{
}

/// A wait for a word ends only when the word was read back as 1 after its
/// address was selected without error; it never ends in failure.
pub proof fn law_wait_word_ends_on_one(s: SdioSetup, ans: SdioAnswer, next: SdioSetup, act: SdioRequest)
    requires
        s.wf(),
        s.routine matches SdioRoutine::WaitWord { .. },
        s.phase != SdioPhase::Done,
        s.step_spec(ans, next, act),
        act is Done,
    ensures
        s.phase == SdioPhase::WordRead,
        s.index == 3,
        !s.failed,
        s.value + read_byte(ans) * pow256(3) == 1,
        act == SdioRequest::Done(false),
{
}

/// Starting function 1 succeeds only when its status word reads 2.
pub proof fn law_func1_success_needs_ready(s: SdioSetup, ans: SdioAnswer, next: SdioSetup, act: SdioRequest)
    requires
        s.wf(),
        s.routine == SdioRoutine::Func1,
        s.phase != SdioPhase::Done,
        s.step_spec(ans, next, act),
        act == SdioRequest::Done(false),
    ensures
        s.phase == SdioPhase::WordRead,
        !s.failed,
        s.value + read_byte(ans) * pow256(s.index as int) == 2,
{
}


/// Register of function 1 whose nonzero value lets the mailbox be written.
pub const MBOX_COUNT_REG: u32 = 0x450;
/// Register of function 1 whose bit 0 tells that a reply is waiting.
pub const MBOX_STATUS_REG: u32 = 0x405;
/// First register of the mailbox that raises the card's interrupt (and that a
/// reply is read from).
pub const MBOX_IRQ_BASE: u32 = 0xFC;
/// Mailbox command that starts the card's firmware.
pub const MBOX_START_FIRMWARE: u32 = 1;

/// What the failure of a mailbox word does.
#[derive(Clone, Copy, PartialEq, Eq, Structural, Debug)]
pub enum WordPolicy {
    /// The transfer stops at the first word with a failed byte.
    AbortEach,
    /// Every word is written; the transfer fails if any byte failed.
    Accumulate,
    /// Every word is written and failures are not looked at.
    Ignore,
}

/// The operation whose answer a mailbox transfer waits for.
#[derive(Clone, Copy, PartialEq, Eq, Structural, Debug)]
pub enum MailboxPhase {
    Count,
    CountWait,
    Word,
    Payload,
    ReplyPoll,
    ReplyRead,
    Done,
}

/// One transfer through the card's mailbox: wait until the mailbox takes
/// data, write the command words byte by byte, then the payload bytes, then
/// (for a command that answers) wait for and read the reply word.
pub struct MailboxTransfer {
    pub words: Vec<u32>,
    pub irq: Vec<bool>,
    pub policy: WordPolicy,
    pub bytes: Vec<u8>,
    pub reply: bool,
    pub phase: MailboxPhase,
    pub word: usize,
    pub byte: usize,
    pub word_failed: bool,
    pub failed: bool,
    pub result: bool,
}

/// The CMD52 write of byte `k` of a mailbox word `value`: to 0xFC + `k` when
/// the word raises the card's interrupt, else to `k`.
pub open spec fn mailbox_byte_arg(value: u32, irq: bool, k: int) -> u32 {
    write_arg(SDIOFunc::One, (if irq { MBOX_IRQ_BASE as int } else { 0 }) + k, byte_of(value, k))
}

/// The CMD52 write of payload byte `i` of `bytes`: all to register 0, the
/// last to 0xFF.
pub open spec fn payload_arg(bytes: Seq<u8>, i: int) -> u32 {
    write_arg(SDIOFunc::One, if i == bytes.len() - 1 { 0xFF } else { 0 }, bytes[i] as int)
}

fn mailbox_byte(value: u32, irq: bool, k: u32) -> (r: SdioRequest)
    requires
        k < 4,
    ensures
        r == SdioRequest::Write(mailbox_byte_arg(value, irq, k as int)),
{
    let base: u32 = if irq {
        MBOX_IRQ_BASE
    } else {
        0
    };
    wr(SDIOFunc::One, base + k, byte_at(value, k))
}

impl MailboxTransfer {
    /// The word list and its interrupt flags agree, there is a word, and the
    /// positions stay in range.
    pub open spec fn wf(&self) -> bool {
        &&& self.words@.len() >= 1
        &&& self.irq@.len() == self.words@.len()
        &&& self.phase is Word ==> self.word < self.words@.len() && self.byte < 4
        &&& self.phase is Payload ==> self.byte < self.bytes@.len()
        &&& self.phase is ReplyRead ==> self.byte < 4
    }

    /// The write of byte `k` of word `w`.
    pub open spec fn word_arg(&self, w: int, k: int) -> u32 {
        mailbox_byte_arg(self.words@[w], self.irq@[w], k)
    }

    /// The words, their interrupt flags, the payload, the policy and the
    /// reply flag are those of `self`.
    pub open spec fn same_transfer(&self, next: &MailboxTransfer) -> bool {
        &&& next.words@ == self.words@
        &&& next.irq@ == self.irq@
        &&& next.bytes@ == self.bytes@
        &&& next.policy == self.policy
        &&& next.reply == self.reply
    }

    /// The position, the failure flags of the current word and of all words,
    /// are the given ones.
    pub open spec fn at(next: &MailboxTransfer, word: int, byte: int, word_failed: bool, failed: bool) -> bool {
        &&& next.word == word
        &&& next.byte == byte
        &&& next.word_failed == word_failed
        &&& next.failed == failed
    }

    /// The position and the failure flags are those of `self`.
    pub open spec fn keeps(&self, next: &MailboxTransfer) -> bool {
        Self::at(next, self.word as int, self.byte as int, self.word_failed, self.failed)
    }

    /// The machine waits in `phase` for the answer to `req`, its transfer
    /// unchanged.
    pub open spec fn sends(&self, next: &MailboxTransfer, act: SdioRequest, phase: MailboxPhase, req: SdioRequest) -> bool {
        &&& self.same_transfer(next)
        &&& next.result == self.result
        &&& next.phase == phase
        &&& act == req
    }

    /// The transfer ends here, with everything else kept.
    pub open spec fn ends(&self, next: &MailboxTransfer, act: SdioRequest, failed: bool) -> bool {
        &&& self.same_transfer(next)
        &&& self.keeps(next)
        &&& next.phase == MailboxPhase::Done
        &&& next.result == failed
        &&& act == SdioRequest::Done(failed)
    }

    /// A new transfer of `words` (with their interrupt flags), then `bytes`,
    /// then a reply if `reply`; it starts by reading the mailbox's count.
    pub open spec fn started(&self, words: Seq<u32>, irq: Seq<bool>, policy: WordPolicy, bytes: Seq<u8>, reply: bool, act: SdioRequest) -> bool {
        &&& self.wf()
        &&& self.words@ == words
        &&& self.irq@ == irq
        &&& self.policy == policy
        &&& self.bytes@ == bytes
        &&& self.reply == reply
        &&& self.phase == MailboxPhase::Count
        &&& Self::at(self, 0, 0, false, false)
        &&& !self.result
        &&& act == SdioRequest::Read(read_arg(SDIOFunc::One, MBOX_COUNT_REG as int))
    }

    fn start(words: Vec<u32>, irq: Vec<bool>, policy: WordPolicy, bytes: Vec<u8>, reply: bool) -> (r: (MailboxTransfer, SdioRequest))
        requires
            words@.len() >= 1,
            irq@.len() == words@.len(),
        ensures
            r.0.started(words@, irq@, policy, bytes@, reply, r.1),
    {
        (
            MailboxTransfer {
                words,
                irq,
                policy,
                bytes,
                reply,
                phase: MailboxPhase::Count,
                word: 0,
                byte: 0,
                word_failed: false,
                failed: false,
                result: false,
            },
            rd(SDIOFunc::One, MBOX_COUNT_REG),
        )
    }

    /// Writes `data` to card memory at `addr`: the write command, the address
    /// and the padded length, each word stopping the transfer when it fails,
    /// then the padded data. Nothing for no data.
    pub fn write_memory(addr: u32, data: &[u8]) -> (r: Option<(MailboxTransfer, SdioRequest)>)
        requires
            data.len() + 3 <= u32::MAX,
        ensures
            data@.len() == 0 <==> r is None,
            r matches Some((t, act)) ==> {
                let len = t.words@[2];
                &&& len % 4 == 0 && data@.len() <= len < data@.len() + 4
                &&& t.started(
                    seq![MBOX_WRITE_MEMORY, addr, len],
                    seq![false, false, false],
                    WordPolicy::AbortEach,
                    padded_payload(data@, len as int),
                    false,
                    act,
                )
            },
    {
        match memory_write_message(addr, data) {
            None => None,
            Some(msg) => {
                let ghost len = msg.words@[2];
                let irq: Vec<bool> = vec![false, false, false];
                assert(msg.words@ =~= seq![MBOX_WRITE_MEMORY, addr, len]);
                assert(irq@ =~= seq![false, false, false]);
                let r = Self::start(msg.words, irq, WordPolicy::AbortEach, msg.bytes, false);
                assert(r.0.started(
                    seq![MBOX_WRITE_MEMORY, addr, len],
                    seq![false, false, false],
                    WordPolicy::AbortEach,
                    padded_payload(data@, len as int),
                    false,
                    r.1,
                ));
                Some(r)
            },
        }
    }

    /// Feeds `data` to the card's decompressor: the command and the padded
    /// length, each word stopping the transfer when it fails, then the padded
    /// data. Nothing for no data.
    pub fn lz_data(data: &[u8]) -> (r: Option<(MailboxTransfer, SdioRequest)>)
        requires
            data.len() + 3 <= u32::MAX,
        ensures
            data@.len() == 0 <==> r is None,
            r matches Some((t, act)) ==> {
                let len = t.words@[1];
                &&& len % 4 == 0 && data@.len() <= len < data@.len() + 4
                &&& t.started(
                    seq![MBOX_LZ_DATA, len],
                    seq![false, false],
                    WordPolicy::AbortEach,
                    padded_payload(data@, len as int),
                    false,
                    act,
                )
            },
    {
        match lz_data_message(data) {
            None => None,
            Some(msg) => {
                let ghost len = msg.words@[1];
                let irq: Vec<bool> = vec![false, false];
                assert(msg.words@ =~= seq![MBOX_LZ_DATA, len]);
                assert(irq@ =~= seq![false, false]);
                let r = Self::start(msg.words, irq, WordPolicy::AbortEach, msg.bytes, false);
                assert(r.0.started(
                    seq![MBOX_LZ_DATA, len],
                    seq![false, false],
                    WordPolicy::AbortEach,
                    padded_payload(data@, len as int),
                    false,
                    r.1,
                ));
                Some(r)
            },
        }
    }

    /// Starts the decompressor, which unpacks to `addr`: both words are
    /// written and the transfer fails if any byte failed.
    pub fn lz_start(addr: u32) -> (r: (MailboxTransfer, SdioRequest))
        ensures
            r.0.started(seq![MBOX_LZ_START, addr], seq![false, true], WordPolicy::Accumulate, seq![], false, r.1),
    {
        let words: Vec<u32> = vec![MBOX_LZ_START, addr];
        let irq: Vec<bool> = vec![false, true];
        let bytes: Vec<u8> = Vec::new();
        assert(words@ =~= seq![MBOX_LZ_START, addr]);
        assert(irq@ =~= seq![false, true]);
        assert(bytes@ =~= Seq::<u8>::empty());
        Self::start(words, irq, WordPolicy::Accumulate, bytes, false)
    }

    /// Runs the code at `entry` on the card with `arg`, then waits for the
    /// card's reply word; the command words' failures are not looked at.
    pub fn execute(entry: u32, arg: u32) -> (r: (MailboxTransfer, SdioRequest))
        ensures
            r.0.started(seq![MBOX_EXECUTE, entry, arg], seq![false, false, true], WordPolicy::Ignore, seq![], true, r.1),
    {
        let words: Vec<u32> = vec![MBOX_EXECUTE, entry, arg];
        let irq: Vec<bool> = vec![false, false, true];
        let bytes: Vec<u8> = Vec::new();
        assert(words@ =~= seq![MBOX_EXECUTE, entry, arg]);
        assert(irq@ =~= seq![false, false, true]);
        assert(bytes@ =~= Seq::<u8>::empty());
        Self::start(words, irq, WordPolicy::Ignore, bytes, true)
    }

    /// Tells the card to start its firmware.
    pub fn start_firmware() -> (r: (MailboxTransfer, SdioRequest))
        ensures
            r.0.started(seq![MBOX_START_FIRMWARE], seq![true], WordPolicy::Accumulate, seq![], false, r.1),
    {
        let words: Vec<u32> = vec![MBOX_START_FIRMWARE];
        let irq: Vec<bool> = vec![true];
        let bytes: Vec<u8> = Vec::new();
        assert(words@ =~= seq![MBOX_START_FIRMWARE]);
        assert(irq@ =~= seq![true]);
        assert(bytes@ =~= Seq::<u8>::empty());
        Self::start(words, irq, WordPolicy::Accumulate, bytes, false)
    }

    /// What follows the last command word, all words' failures being
    /// `failed`.
    pub open spec fn after_words(&self, next: &MailboxTransfer, act: SdioRequest, failed: bool) -> bool {
        if self.bytes@.len() > 0 {
            &&& Self::at(next, self.word as int, 0, self.word_failed, self.failed)
            &&& self.sends(next, act, MailboxPhase::Payload, SdioRequest::Write(payload_arg(self.bytes@, 0)))
        } else if self.reply {
            self.keeps(next) && self.sends(next, act, MailboxPhase::ReplyPoll, SdioRequest::Read(read_arg(SDIOFunc::One, MBOX_STATUS_REG as int)))
        } else {
            self.ends(next, act, self.policy == WordPolicy::Accumulate && failed)
        }
    }

    /// One step: how the transfer moves on when the answer `ans` arrives.
    pub open spec fn step_spec(&self, ans: SdioAnswer, next: &MailboxTransfer, act: SdioRequest) -> bool {
        match self.phase {
            MailboxPhase::Count => if ans.ok && ans.response % 256 != 0 {
                &&& Self::at(next, 0, 0, false, self.failed)
                &&& self.sends(next, act, MailboxPhase::Word, SdioRequest::Write(self.word_arg(0, 0)))
            } else {
                self.keeps(next) && self.sends(next, act, MailboxPhase::CountWait, SdioRequest::Wait(SDIO_RETRY_WAIT))
            },
            MailboxPhase::CountWait => self.keeps(next) && self.sends(
                next,
                act,
                MailboxPhase::Count,
                SdioRequest::Read(read_arg(SDIOFunc::One, MBOX_COUNT_REG as int)),
            ),
            MailboxPhase::Word => {
                let word_failed = self.word_failed || !ans.ok;
                let failed = self.failed || word_failed;
                if self.byte + 1 < 4 {
                    &&& Self::at(next, self.word as int, self.byte + 1, word_failed, self.failed)
                    &&& self.sends(next, act, MailboxPhase::Word, SdioRequest::Write(self.word_arg(self.word as int, self.byte + 1)))
                } else if self.policy == WordPolicy::AbortEach && word_failed {
                    self.ends(next, act, true)
                } else if self.word + 1 < self.words@.len() {
                    &&& Self::at(next, self.word + 1, 0, false, failed)
                    &&& self.sends(next, act, MailboxPhase::Word, SdioRequest::Write(self.word_arg(self.word + 1, 0)))
                } else {
                    self.after_words(next, act, failed)
                }
            },
            MailboxPhase::Payload => if !ans.ok {
                self.ends(next, act, true)
            } else if self.byte + 1 < self.bytes@.len() {
                Self::at(next, self.word as int, self.byte + 1, self.word_failed, self.failed) && self.sends(
                    next,
                    act,
                    MailboxPhase::Payload,
                    SdioRequest::Write(payload_arg(self.bytes@, self.byte + 1)),
                )
            } else if self.reply {
                self.keeps(next) && self.sends(next, act, MailboxPhase::ReplyPoll, SdioRequest::Read(read_arg(SDIOFunc::One, MBOX_STATUS_REG as int)))
            } else {
                self.ends(next, act, false)
            },
            MailboxPhase::ReplyPoll => if ans.ok && ans.response & 1 != 0 {
                Self::at(next, self.word as int, 0, self.word_failed, self.failed) && self.sends(next, act, MailboxPhase::ReplyRead, SdioRequest::Read(read_arg(SDIOFunc::One, MBOX_IRQ_BASE as int)))
            } else {
                self.keeps(next) && self.sends(next, act, MailboxPhase::ReplyPoll, SdioRequest::Read(read_arg(SDIOFunc::One, MBOX_STATUS_REG as int)))
            },
            MailboxPhase::ReplyRead => if !ans.ok {
                self.ends(next, act, true)
            } else if self.byte + 1 < 4 {
                Self::at(next, self.word as int, self.byte + 1, self.word_failed, self.failed) && self.sends(
                    next,
                    act,
                    MailboxPhase::ReplyRead,
                    SdioRequest::Read(read_arg(SDIOFunc::One, MBOX_IRQ_BASE + self.byte + 1)),
                )
            } else {
                self.ends(next, act, false)
            },
            MailboxPhase::Done => self.ends(next, act, self.result),
        }
    }

    fn send(&mut self, phase: MailboxPhase, req: SdioRequest) -> (act: SdioRequest)
        ensures
            old(self).sends(final(self), act, phase, req),
            final(self).word == old(self).word,
            final(self).byte == old(self).byte,
            final(self).word_failed == old(self).word_failed,
            final(self).failed == old(self).failed,
    {
        self.phase = phase;
        req
    }

    fn end(&mut self, failed: bool) -> (act: SdioRequest)
        ensures
            old(self).ends(final(self), act, failed),
    {
        self.phase = MailboxPhase::Done;
        self.result = failed;
        SdioRequest::Done(failed)
    }

    fn word_request(&self, w: usize, k: u32) -> (r: SdioRequest)
        requires
            self.wf(),
            w < self.words@.len(),
            k < 4,
        ensures
            r == SdioRequest::Write(self.word_arg(w as int, k as int)),
    {
        mailbox_byte(self.words[w], self.irq[w], k)
    }

    fn payload_request(&self, i: usize) -> (r: SdioRequest)
        requires
            i < self.bytes@.len(),
        ensures
            r == SdioRequest::Write(payload_arg(self.bytes@, i as int)),
    {
        let addr: u32 = if i == self.bytes.len() - 1 {
            0xFF
        } else {
            0
        };
        wr(SDIOFunc::One, addr, self.bytes[i])
    }

    /// Takes the answer to the last request and decides the next one.
    pub fn step(&mut self, ans: SdioAnswer) -> (act: SdioRequest)
        requires
            old(self).wf(),
        ensures
            final(self).wf(),
            old(self).step_spec(ans, final(self), act),
    {
        match self.phase {
            MailboxPhase::Count => {
                if ans.ok && ans.response % 256 != 0 {
                    self.word = 0;
                    self.byte = 0;
                    self.word_failed = false;
                    let req = self.word_request(0, 0);
                    self.send(MailboxPhase::Word, req)
                } else {
                    self.send(MailboxPhase::CountWait, SdioRequest::Wait(SDIO_RETRY_WAIT))
                }
            },
            MailboxPhase::CountWait => {
                let req = rd(SDIOFunc::One, MBOX_COUNT_REG);
                self.send(MailboxPhase::Count, req)
            },
            MailboxPhase::Word => {
                let w: usize = self.word;
                let n: usize = self.words.len();
                assert(w < n);
                let abort: bool = match self.policy {
                    WordPolicy::AbortEach => true,
                    _ => false,
                };
                let word_failed: bool = self.word_failed || !ans.ok;
                let failed: bool = self.failed || word_failed;
                if self.byte + 1 < 4 {
                    self.byte = self.byte + 1;
                    self.word_failed = word_failed;
                    let req = self.word_request(self.word, self.byte as u32);
                    self.send(MailboxPhase::Word, req)
                } else if abort && word_failed {
                    self.end(true)
                } else if w + 1 < n {
                    self.word = w + 1;
                    self.byte = 0;
                    self.word_failed = false;
                    self.failed = failed;
                    let req = self.word_request(self.word, 0);
                    self.send(MailboxPhase::Word, req)
                } else if self.bytes.len() > 0 {
                    self.byte = 0;
                    let req = self.payload_request(0);
                    self.send(MailboxPhase::Payload, req)
                } else if self.reply {
                    let req = rd(SDIOFunc::One, MBOX_STATUS_REG);
                    self.send(MailboxPhase::ReplyPoll, req)
                } else {
                    let result: bool = self.policy == WordPolicy::Accumulate && failed;
                    self.end(result)
                }
            },
            MailboxPhase::Payload => {
                let i: usize = self.byte;
                let n: usize = self.bytes.len();
                assert(i < n);
                if !ans.ok {
                    return self.end(true);
                }
                if i + 1 < n {
                    self.byte = i + 1;
                    let req = self.payload_request(self.byte);
                    self.send(MailboxPhase::Payload, req)
                } else if self.reply {
                    let req = rd(SDIOFunc::One, MBOX_STATUS_REG);
                    self.send(MailboxPhase::ReplyPoll, req)
                } else {
                    self.end(false)
                }
            },
            MailboxPhase::ReplyPoll => {
                if ans.ok && ans.response & 1 != 0 {
                    self.byte = 0;
                    let req = rd(SDIOFunc::One, MBOX_IRQ_BASE);
                    self.send(MailboxPhase::ReplyRead, req)
                } else {
                    let req = rd(SDIOFunc::One, MBOX_STATUS_REG);
                    self.send(MailboxPhase::ReplyPoll, req)
                }
            },
            MailboxPhase::ReplyRead => {
                if !ans.ok {
                    return self.end(true);
                }
                if self.byte + 1 < 4 {
                    self.byte = self.byte + 1;
                    let a: u32 = MBOX_IRQ_BASE + self.byte as u32;
                    let req = rd(SDIOFunc::One, a);
                    self.send(MailboxPhase::ReplyRead, req)
                } else {
                    self.end(false)
                }
            },
            MailboxPhase::Done => {
                let result = self.result;
                self.end(result)
            },
        }
    }
}

/// A transfer whose words stop at the first failure never gets to its
/// payload with a failed word: it ends with a failure as soon as a word's
/// last byte completes a failed word.
pub proof fn law_abort_each_stops_on_failed_word(
    t: &MailboxTransfer,
    ans: SdioAnswer,
    next: &MailboxTransfer,
    act: SdioRequest,
)
    requires
        t.wf(),
        t.policy == WordPolicy::AbortEach,
        t.phase == MailboxPhase::Word,
        t.byte == 3,
        t.word_failed || !ans.ok,
        t.step_spec(ans, next, act),
    ensures
        act == SdioRequest::Done(true),
        next.phase == MailboxPhase::Done,
{
}

/// A transfer only comes to count as failed through an answer that failed:
/// while every answer succeeds, no failure is recorded and the transfer ends
/// as a success.
pub proof fn law_mailbox_failure_needs_failed_answer(
    t: &MailboxTransfer,
    ans: SdioAnswer,
    next: &MailboxTransfer,
    act: SdioRequest,
)
    requires
        t.phase != MailboxPhase::Done,
        !t.failed,
        !t.word_failed,
        ans.ok,
        t.step_spec(ans, next, act),
    ensures
        !next.failed,
        !next.word_failed,
        next.phase == MailboxPhase::Done ==> !next.result,
{
}

/// Once a transfer has ended, it repeats its outcome.
pub proof fn law_mailbox_done_is_final(t: &MailboxTransfer, ans: SdioAnswer, next: &MailboxTransfer, act: SdioRequest)
    requires
        t.phase == MailboxPhase::Done,
        t.step_spec(ans, next, act),
    ensures
        act == SdioRequest::Done(t.result),
        next.result == t.result,
{
}

} // verus!
