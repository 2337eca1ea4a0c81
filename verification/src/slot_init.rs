//! The per-slot bring-up of a card: one sequence for the SD slot and one for the
//! on-board eMMC, each failing with the controller status (or a marker code) of
//! the step that went wrong. The caller sends each command the machine asks
//! for and hands back the controller's answer.
use vstd::prelude::*;
use crate::mmc::{
    Command, DeviceSelect, DeviceType, Status, STATUS_ALL_ERRORS, STATUS_ERR_CMD_TIMEOUT,
    CLOCK_ENABLE, CLOCK_AUTO_STOP, CLOCK_FREQ_262K, CLOCK_FREQ_16M,
};
use crate::sdmmc::{CommandOutcome, plain_status, OCR_READY, OCR_HIGH_CAPACITY, OCR_VOLTAGE};

verus! {

/// Marker status: the SD card answered the interface condition with another
/// pattern; it is or-ed with the answer.
pub const SLOT_BAD_IF_COND: u32 = 0x8000_0000;
/// Marker status: the first operating-condition query timed out.
pub const SLOT_OP_COND_TIMEOUT: u32 = 54321;
/// Marker status: an operating-condition poll failed.
pub const SLOT_POLL_FAILED: u32 = 32123;
/// Marker status: the card never reported power-up complete.
pub const SLOT_POLL_TIMEOUT: u32 = 6666;
/// Marker status: the card does not support the requested voltage.
pub const SLOT_BAD_VOLTAGE: u32 = 123123;

/// Most operating-condition polls of an SD card.
pub const SLOT_POLL_LIMIT: u32 = 200;
/// Delay between two operating-condition polls.
pub const SLOT_POLL_DELAY: u32 = 0x20BA * 5;
/// Delay before the first command to the SD card.
pub const SLOT_SD_START_DELAY: u32 = 0x2000;
/// Delay before each of the first two commands to the eMMC.
pub const SLOT_MMC_START_DELAY: u32 = 0xF000;
/// The interface-condition pattern sent to (and echoed by) an SD card.
pub const SLOT_IF_COND: u32 = 0x1AA;
/// The operating-condition argument polled on the eMMC.
pub const SLOT_MMC_OP_COND_ARG: u32 = 0x10_0000;
/// The relative address given to the eMMC.
pub const SLOT_MMC_RCA: u32 = 0x10000;

/// What the caller does next.
#[derive(Clone, Copy, PartialEq, Eq, Debug)]
pub enum SlotAction {
    /// Program the port clock, wait `delay` BIOS delay units and send `cmd`
    /// with `arg` (an application command goes after APP_CMD with `rca`).
    Send { clock: u16, delay: u32, cmd: Command, arg: u32, rca: u32 },
    /// The sequence has ended.
    Finished(Result<(), Status>),
}

/// The command whose answer the machine waits for.
#[derive(Clone, Copy, PartialEq, Eq, Structural, Debug)]
pub enum SlotPhase {
    SdIdle,
    SdIfCond,
    SdOpCond,
    SdPoll,
    SdCid,
    SdRelAddr,
    SdCsd,
    SdSelect,
    SdDeselect,
    SdStatus,
    MmcIdle,
    MmcWait,
    MmcCid,
    MmcRelAddr,
    MmcSelect,
    Finished,
}

/// State of one slot bring-up. `kind` is what the slot holds once it has been
/// identified, and `clock` the port clock to keep after the sequence.
#[derive(Clone, Copy)]
pub struct SlotInit {
    pub phase: SlotPhase,
    pub clock: u16,
    pub op_cond_arg: u32,
    pub tries: u32,
    pub kind: DeviceType,
    pub rca: u32,
    pub result: Result<(), Status>,
}

/// The status with exactly these bits, as an error.
pub open spec fn fail(bits: u32) -> Result<(), Status> {
    Err(Status { bits })
}

/// The operating-condition argument after the interface condition check ended
/// with status `s`: the voltage window bit, and the high-capacity request
/// unless the check timed out.
pub open spec fn slot_op_cond_arg(s: u32) -> u32 {
    0x10_0000u32 | (((s << 8u32) as u32) ^ 0x4000_0000u32)
}

impl SlotInit {
    /// The poll count stays below the limit while the SD card is polled.
    pub open spec fn wf(self) -> bool {
        &&& self.tries <= SLOT_POLL_LIMIT
        &&& self.phase is SdPoll ==> self.tries < SLOT_POLL_LIMIT
    }

    /// The sequence ends here with `result`.
    pub open spec fn finished_with(self, next: SlotInit, act: SlotAction, result: Result<(), Status>) -> bool {
        &&& next.phase == SlotPhase::Finished
        &&& next.result == result
        &&& act == SlotAction::Finished(result)
    }

    /// The machine waits in `phase` for the answer to `cmd`.
    pub open spec fn sends(
        next: SlotInit,
        act: SlotAction,
        phase: SlotPhase,
        delay: u32,
        cmd: Command,
        arg: u32,
        rca: u32,
    ) -> bool {
        &&& next.phase == phase
        &&& act == SlotAction::Send { clock: next.clock, delay, cmd, arg, rca }
    }

    /// A bring-up of `device` and the action that starts it: GO_IDLE_STATE at
    /// the identification clock.
    pub fn new(device: DeviceSelect) -> (r: (SlotInit, SlotAction))
        ensures
            r.0.wf(),
            r.0.clock == CLOCK_ENABLE | CLOCK_FREQ_262K,
            device is SDCardSlot ==> r.0.phase == SlotPhase::SdIdle && r.1 == (SlotAction::Send {
                clock: CLOCK_ENABLE | CLOCK_FREQ_262K,
                delay: SLOT_SD_START_DELAY,
                cmd: Command::GoIdleState,
                arg: 0,
                rca: 0,
            }),
            device is EMMC ==> r.0.phase == SlotPhase::MmcIdle && r.0.kind == DeviceType::EMMC
                && r.1 == (SlotAction::Send {
                clock: CLOCK_ENABLE | CLOCK_FREQ_262K,
                delay: SLOT_MMC_START_DELAY,
                cmd: Command::GoIdleState,
                arg: 0,
                rca: 0,
            }),
    {
        let clock: u16 = CLOCK_ENABLE | CLOCK_FREQ_262K;
        let (phase, kind, delay) = match device {
            DeviceSelect::SDCardSlot => (SlotPhase::SdIdle, DeviceType::SDSC, SLOT_SD_START_DELAY),
            DeviceSelect::EMMC => (SlotPhase::MmcIdle, DeviceType::EMMC, SLOT_MMC_START_DELAY),
        };
        (
            SlotInit { phase, clock, op_cond_arg: 0, tries: 0, kind, rca: 0, result: Ok(()) },
            SlotAction::Send { clock, delay, cmd: Command::GoIdleState, arg: 0, rca: 0 },
        )
    }

    /// The step after the SD card reported power-up complete with register
    /// `ocr`, `delay` after the last poll.
    pub open spec fn sd_ready(self, next: SlotInit, act: SlotAction, ocr: u32, delay: u32) -> bool {
        if ocr & OCR_VOLTAGE == 0 {
            self.finished_with(next, act, fail(SLOT_BAD_VOLTAGE))
        } else {
            &&& next.kind == if ocr & OCR_HIGH_CAPACITY != 0 {
                DeviceType::SDHC
            } else {
                DeviceType::SDSC
            }
            &&& next.clock == self.clock
            &&& Self::sends(next, act, SlotPhase::SdCid, delay, Command::AllSendCID, 0, 0)
        }
    }

    /// A command of the rest of the SD sequence: stop with its status unless
    /// it is empty, else go on to `phase` with `cmd`.
    pub open spec fn sd_then(
        self,
        s: u32,
        next: SlotInit,
        act: SlotAction,
        phase: SlotPhase,
        cmd: Command,
        arg: u32,
        rca: u32,
    ) -> bool {
        if s != 0 {
            self.finished_with(next, act, fail(s))
        } else {
            &&& next.kind == self.kind
            &&& next.rca == self.rca
            &&& next.clock == self.clock
            &&& Self::sends(next, act, phase, 0, cmd, arg, rca)
        }
    }

    /// One step: how the machine moves on from `self` when the answer `out`
    /// arrives, and what it asks for next.
    pub open spec fn step_spec(self, out: CommandOutcome, next: SlotInit, act: SlotAction) -> bool {
        let s = plain_status(out);
        let ok = s & STATUS_ALL_ERRORS == 0;
        match self.phase {
            SlotPhase::SdIdle => if !ok {
                self.finished_with(next, act, fail(s))
            } else {
                &&& next.clock == self.clock
                &&& Self::sends(next, act, SlotPhase::SdIfCond, 0, Command::SendIfCondition, SLOT_IF_COND, 0)
            },
            SlotPhase::SdIfCond => if s == 0 && out.response != SLOT_IF_COND {
                self.finished_with(next, act, fail(out.response | SLOT_BAD_IF_COND))
            } else if s != 0 && s != STATUS_ERR_CMD_TIMEOUT {
                self.finished_with(next, act, fail(s))
            } else {
                &&& next.op_cond_arg == slot_op_cond_arg(s)
                &&& next.clock == self.clock
                &&& Self::sends(
                    next,
                    act,
                    SlotPhase::SdOpCond,
                    0,
                    Command::AppSendOpCondition,
                    slot_op_cond_arg(s),
                    0,
                )
            },
            SlotPhase::SdOpCond => if s == STATUS_ERR_CMD_TIMEOUT {
                self.finished_with(next, act, fail(SLOT_OP_COND_TIMEOUT))
            } else if s != 0 {
                self.finished_with(next, act, fail(s))
            } else if out.response & OCR_READY != 0 {
                self.sd_ready(next, act, out.response, 0)
            } else {
                &&& next.tries == 0
                &&& next.op_cond_arg == self.op_cond_arg
                &&& next.clock == self.clock
                &&& Self::sends(next, act, SlotPhase::SdPoll, 0, Command::AppSendOpCondition, self.op_cond_arg, 0)
            },
            SlotPhase::SdPoll => if !ok {
                self.finished_with(next, act, fail(SLOT_POLL_FAILED))
            } else if self.tries + 1 == SLOT_POLL_LIMIT {
                self.finished_with(next, act, fail(SLOT_POLL_TIMEOUT))
            } else if out.response & OCR_READY != 0 {
                self.sd_ready(next, act, out.response, SLOT_POLL_DELAY)
            } else {
                &&& next.tries == self.tries + 1
                &&& next.op_cond_arg == self.op_cond_arg
                &&& next.clock == self.clock
                &&& Self::sends(
                    next,
                    act,
                    SlotPhase::SdPoll,
                    SLOT_POLL_DELAY,
                    Command::AppSendOpCondition,
                    self.op_cond_arg,
                    0,
                )
            },
            SlotPhase::SdCid => self.sd_then(s, next, act, SlotPhase::SdRelAddr, Command::SetSendRelativeAddr, 0, 0),
            SlotPhase::SdRelAddr => if s != 0 {
                self.finished_with(next, act, fail(s))
            } else {
                &&& next.rca == out.response
                &&& next.kind == self.kind
                &&& next.clock == CLOCK_ENABLE | CLOCK_FREQ_16M | CLOCK_AUTO_STOP
                &&& Self::sends(next, act, SlotPhase::SdCsd, 0, Command::SendCSD, out.response, 0)
            },
            SlotPhase::SdCsd => self.sd_then(s, next, act, SlotPhase::SdSelect, Command::SelectCard, self.rca, 0),
            SlotPhase::SdSelect => self.sd_then(
                s,
                next,
                act,
                SlotPhase::SdDeselect,
                Command::AppSetClearCardSelect,
                0,
                self.rca,
            ),
            SlotPhase::SdDeselect => self.sd_then(s, next, act, SlotPhase::SdStatus, Command::SendStatus, self.rca, 0),
            SlotPhase::SdStatus => if s != 0 {
                self.finished_with(next, act, fail(s))
            } else {
                &&& next.kind == self.kind
                &&& next.clock == self.clock
                &&& self.finished_with(next, act, Ok(()))
            },
            SlotPhase::MmcIdle => if !ok {
                self.finished_with(next, act, fail(1u32 | s))
            } else {
                &&& next.clock == self.clock
                &&& Self::sends(
                    next,
                    act,
                    SlotPhase::MmcWait,
                    SLOT_MMC_START_DELAY,
                    Command::MMCSendOptionalCondition,
                    SLOT_MMC_OP_COND_ARG,
                    0,
                )
            },
            SlotPhase::MmcWait => {
                &&& next.clock == self.clock
                &&& if ok && out.response & OCR_READY != 0 {
                    Self::sends(next, act, SlotPhase::MmcCid, 0, Command::AllSendCID, 0, 0)
                } else {
                    Self::sends(next, act, SlotPhase::MmcWait, 0, Command::MMCSendOptionalCondition, SLOT_MMC_OP_COND_ARG, 0)
                }
            },
            SlotPhase::MmcCid => if !ok {
                self.finished_with(next, act, fail(2u32 | s))
            } else {
                &&& next.clock == self.clock
                &&& Self::sends(next, act, SlotPhase::MmcRelAddr, 0, Command::SetSendRelativeAddr, SLOT_MMC_RCA, 0)
            },
            SlotPhase::MmcRelAddr => if !ok {
                self.finished_with(next, act, fail(0xBAu32 | s))
            } else {
                &&& next.clock == self.clock
                &&& Self::sends(next, act, SlotPhase::MmcSelect, 0, Command::SelectCard, SLOT_MMC_RCA, 0)
            },
            SlotPhase::MmcSelect => if !ok {
                self.finished_with(next, act, fail(4u32 | s))
            } else {
                &&& next.kind == self.kind
                &&& next.clock == CLOCK_ENABLE | CLOCK_FREQ_16M | CLOCK_AUTO_STOP
                &&& self.finished_with(next, act, Ok(()))
            },
            SlotPhase::Finished => next == self && act == SlotAction::Finished(self.result),
        }
    }

    fn finish(&mut self, result: Result<(), Status>) -> (act: SlotAction)
        ensures
            old(self).finished_with(*final(self), act, result),
            final(self).tries == old(self).tries,
            final(self).kind == old(self).kind,
            final(self).clock == old(self).clock,
    {
        self.phase = SlotPhase::Finished;
        self.result = result;
        SlotAction::Finished(result)
    }

    fn fail_with(&mut self, bits: u32) -> (act: SlotAction)
        ensures
            old(self).finished_with(*final(self), act, fail(bits)),
            final(self).tries == old(self).tries,
    {
        self.finish(Err(Status::from_bits_retain(bits)))
    }

    fn send(&mut self, phase: SlotPhase, delay: u32, cmd: Command, arg: u32, rca: u32) -> (act: SlotAction)
        ensures
            Self::sends(*final(self), act, phase, delay, cmd, arg, rca),
            final(self).clock == old(self).clock,
            final(self).kind == old(self).kind,
            final(self).rca == old(self).rca,
            final(self).tries == old(self).tries,
            final(self).op_cond_arg == old(self).op_cond_arg,
    {
        self.phase = phase;
        SlotAction::Send { clock: self.clock, delay, cmd, arg, rca }
    }

    fn sd_ready_exec(&mut self, ocr: u32, delay: u32) -> (act: SlotAction)
        ensures
            old(self).sd_ready(*final(self), act, ocr, delay),
            final(self).tries == old(self).tries,
    {
        if ocr & OCR_VOLTAGE == 0 {
            return self.fail_with(SLOT_BAD_VOLTAGE);
        }
        self.kind = if ocr & OCR_HIGH_CAPACITY != 0 {
            DeviceType::SDHC
        } else {
            DeviceType::SDSC
        };
        self.send(SlotPhase::SdCid, delay, Command::AllSendCID, 0, 0)
    }

    /// Takes the answer to the last command and decides what comes next.
    pub fn step(&mut self, out: CommandOutcome) -> (act: SlotAction)
        requires
            old(self).wf(),
        ensures
            final(self).wf(),
            old(self).step_spec(out, *final(self), act),
    {
        let s: u32 = match out.status {
            Ok(s) => s,
            Err(s) => s,
        };
        let ok: bool = s & STATUS_ALL_ERRORS == 0;
        match self.phase {
            SlotPhase::SdIdle => {
                if !ok {
                    return self.fail_with(s);
                }
                self.send(SlotPhase::SdIfCond, 0, Command::SendIfCondition, SLOT_IF_COND, 0)
            },
            SlotPhase::SdIfCond => {
                if s == 0 && out.response != SLOT_IF_COND {
                    return self.fail_with(out.response | SLOT_BAD_IF_COND);
                }
                if s != 0 && s != STATUS_ERR_CMD_TIMEOUT {
                    return self.fail_with(s);
                }
                let arg: u32 = 0x10_0000u32 | ((s << 8u32) ^ 0x4000_0000u32);
                self.op_cond_arg = arg;
                self.send(SlotPhase::SdOpCond, 0, Command::AppSendOpCondition, arg, 0)
            },
            SlotPhase::SdOpCond => {
                if s == STATUS_ERR_CMD_TIMEOUT {
                    return self.fail_with(SLOT_OP_COND_TIMEOUT);
                }
                if s != 0 {
                    return self.fail_with(s);
                }
                if out.response & OCR_READY != 0 {
                    return self.sd_ready_exec(out.response, 0);
                }
                self.tries = 0;
                let arg: u32 = self.op_cond_arg;
                self.send(SlotPhase::SdPoll, 0, Command::AppSendOpCondition, arg, 0)
            },
            SlotPhase::SdPoll => {
                if !ok {
                    return self.fail_with(SLOT_POLL_FAILED);
                }
                if self.tries + 1 == SLOT_POLL_LIMIT {
                    return self.fail_with(SLOT_POLL_TIMEOUT);
                }
                if out.response & OCR_READY != 0 {
                    return self.sd_ready_exec(out.response, SLOT_POLL_DELAY);
                }
                self.tries = self.tries + 1;
                let arg: u32 = self.op_cond_arg;
                self.send(SlotPhase::SdPoll, SLOT_POLL_DELAY, Command::AppSendOpCondition, arg, 0)
            },
            SlotPhase::SdCid => {
                if s != 0 {
                    return self.fail_with(s);
                }
                self.send(SlotPhase::SdRelAddr, 0, Command::SetSendRelativeAddr, 0, 0)
            },
            SlotPhase::SdRelAddr => {
                if s != 0 {
                    return self.fail_with(s);
                }
                self.rca = out.response;
                self.clock = CLOCK_ENABLE | CLOCK_FREQ_16M | CLOCK_AUTO_STOP;
                self.send(SlotPhase::SdCsd, 0, Command::SendCSD, out.response, 0)
            },
            SlotPhase::SdCsd => {
                if s != 0 {
                    return self.fail_with(s);
                }
                let rca: u32 = self.rca;
                self.send(SlotPhase::SdSelect, 0, Command::SelectCard, rca, 0)
            },
            SlotPhase::SdSelect => {
                if s != 0 {
                    return self.fail_with(s);
                }
                let rca: u32 = self.rca;
                self.send(SlotPhase::SdDeselect, 0, Command::AppSetClearCardSelect, 0, rca)
            },
            SlotPhase::SdDeselect => {
                if s != 0 {
                    return self.fail_with(s);
                }
                let rca: u32 = self.rca;
                self.send(SlotPhase::SdStatus, 0, Command::SendStatus, rca, 0)
            },
            SlotPhase::SdStatus => {
                if s != 0 {
                    return self.fail_with(s);
                }
                self.finish(Ok(()))
            },
            SlotPhase::MmcIdle => {
                if !ok {
                    return self.fail_with(1u32 | s);
                }
                self.send(
                    SlotPhase::MmcWait,
                    SLOT_MMC_START_DELAY,
                    Command::MMCSendOptionalCondition,
                    SLOT_MMC_OP_COND_ARG,
                    0,
                )
            },
            SlotPhase::MmcWait => {
                if ok && out.response & OCR_READY != 0 {
                    self.send(SlotPhase::MmcCid, 0, Command::AllSendCID, 0, 0)
                } else {
                    self.send(SlotPhase::MmcWait, 0, Command::MMCSendOptionalCondition, SLOT_MMC_OP_COND_ARG, 0)
                }
            },
            SlotPhase::MmcCid => {
                if !ok {
                    return self.fail_with(2u32 | s);
                }
                self.send(SlotPhase::MmcRelAddr, 0, Command::SetSendRelativeAddr, SLOT_MMC_RCA, 0)
            },
            SlotPhase::MmcRelAddr => {
                if !ok {
                    return self.fail_with(0xBAu32 | s);
                }
                self.send(SlotPhase::MmcSelect, 0, Command::SelectCard, SLOT_MMC_RCA, 0)
            },
            SlotPhase::MmcSelect => {
                if !ok {
                    return self.fail_with(4u32 | s);
                }
                self.clock = CLOCK_ENABLE | CLOCK_FREQ_16M | CLOCK_AUTO_STOP;
                self.finish(Ok(()))
            },
            SlotPhase::Finished => SlotAction::Finished(self.result),
        }
    }
}

/// Once the bring-up has ended, every further answer leaves it unchanged and
/// repeats the same result.
pub proof fn law_slot_finished_is_final(s: SlotInit, out: CommandOutcome, next: SlotInit, act: SlotAction)
    requires
        s.phase == SlotPhase::Finished,
        s.step_spec(out, next, act),
    ensures
        next == s,
        act == SlotAction::Finished(s.result),
{
}

/// An SD operating-condition poll answered by another poll counts one more
/// try, and the count stays below the limit: the card is polled at most
/// `SLOT_POLL_LIMIT` times.
pub proof fn law_slot_polls_are_bounded(s: SlotInit, out: CommandOutcome, next: SlotInit, act: SlotAction)
    requires
        s.wf(),
        s.phase == SlotPhase::SdPoll,
        s.step_spec(out, next, act),
        next.phase == SlotPhase::SdPoll,
    ensures
        next.tries == s.tries + 1,
        next.tries < SLOT_POLL_LIMIT,
{
}

/// A bring-up succeeds only on a clean answer to its last command: the status
/// check of an SD card, or the selection of the eMMC.
pub proof fn law_slot_success_only_at_end(s: SlotInit, out: CommandOutcome, next: SlotInit, act: SlotAction)
    requires
        s.phase != SlotPhase::Finished,
        s.step_spec(out, next, act),
        act == SlotAction::Finished(Ok::<(), Status>(())),
    ensures
        s.phase == SlotPhase::SdStatus || s.phase == SlotPhase::MmcSelect,
        s.phase == SlotPhase::SdStatus ==> plain_status(out) == 0,
        s.phase == SlotPhase::MmcSelect ==> plain_status(out) & STATUS_ALL_ERRORS == 0,
        next.kind == s.kind,
{
}

/// An SD card is identified as high capacity (SDHC) exactly when bit 30 of
/// the operating condition it reported ready with is set, and as standard
/// capacity (SDSC) otherwise.
pub proof fn law_slot_kind_follows_capacity_bit(s: SlotInit, out: CommandOutcome, next: SlotInit, act: SlotAction)
    requires
        s.phase == SlotPhase::SdOpCond || s.phase == SlotPhase::SdPoll,
        s.step_spec(out, next, act),
        next.phase == SlotPhase::SdCid,
    ensures
        out.response & 0x4000_0000u32 != 0 ==> next.kind == DeviceType::SDHC,
        out.response & 0x4000_0000u32 == 0 ==> next.kind == DeviceType::SDSC,
{
}

} // verus!
