//! The SD/MMC card bring-up sequence as a state machine: the caller sends each
//! command the machine asks for and hands back the controller's answer.
use vstd::prelude::*;
use crate::mmc::{
    DeviceType, STATUS_ALL_ERRORS, STATUS_ERR_CMD_TIMEOUT, CLOCK_ENABLE, CLOCK_AUTO_STOP,
    CLOCK_FREQ_262K, CLOCK_FREQ_16M,
};

verus! {

/// Why a card could not be brought up.
#[derive(Clone, Copy, PartialEq, Eq, Structural, Debug)]
pub enum InitSDMMCError {
    FailedIdleCommand,
    FailedIdleState,
    FailedCMD41,
    FailedPlaceholder,
    FailedReadyState,
    FailedIdentState,
    FailedStandbyState,
    FailedIdleVoltageRange,
    FailedIdleVoltageError,
    FailedIdleOpCondSD,
    FailedIdleOpCondMMC,
    FailedIdleOpCondSD2,
    FailedIdleOpCondVoltage,
    FailedTranState,
    FailedOcrTimeout,
    CID,
    RelAddr,
    Select,
    CSD,
    Desel,
    Status,
    BusWidthSD,
    StatusVerify,
}

impl InitSDMMCError {
    /// The error code reported to the other CPU.
    pub open spec fn spec_code(self) -> u16 {
        match self {
            InitSDMMCError::FailedIdleCommand => 1,
            InitSDMMCError::FailedIdleState => 2,
            InitSDMMCError::FailedCMD41 => 3,
            InitSDMMCError::FailedPlaceholder => 0xffff,
            InitSDMMCError::FailedReadyState => 4,
            InitSDMMCError::FailedIdentState => 5,
            InitSDMMCError::FailedStandbyState => 6,
            InitSDMMCError::FailedIdleVoltageRange => 7,
            InitSDMMCError::FailedIdleVoltageError => 8,
            InitSDMMCError::FailedIdleOpCondSD => 9,
            InitSDMMCError::FailedIdleOpCondMMC => 10,
            InitSDMMCError::FailedIdleOpCondSD2 => 11,
            InitSDMMCError::FailedIdleOpCondVoltage => 12,
            InitSDMMCError::FailedTranState => 13,
            InitSDMMCError::FailedOcrTimeout => 14,
            InitSDMMCError::CID => 15,
            InitSDMMCError::RelAddr => 16,
            InitSDMMCError::Select => 17,
            InitSDMMCError::CSD => 18,
            InitSDMMCError::Desel => 19,
            InitSDMMCError::Status => 20,
            InitSDMMCError::BusWidthSD => 21,
            InitSDMMCError::StatusVerify => 22,
        }
    }

    /// The error code reported to the other CPU.
    pub fn code(&self) -> (c: u16)
        ensures
            c == self.spec_code(),
    {
        match self {
            InitSDMMCError::FailedIdleCommand => 1,
            InitSDMMCError::FailedIdleState => 2,
            InitSDMMCError::FailedCMD41 => 3,
            InitSDMMCError::FailedPlaceholder => 0xffff,
            InitSDMMCError::FailedReadyState => 4,
            InitSDMMCError::FailedIdentState => 5,
            InitSDMMCError::FailedStandbyState => 6,
            InitSDMMCError::FailedIdleVoltageRange => 7,
            InitSDMMCError::FailedIdleVoltageError => 8,
            InitSDMMCError::FailedIdleOpCondSD => 9,
            InitSDMMCError::FailedIdleOpCondMMC => 10,
            InitSDMMCError::FailedIdleOpCondSD2 => 11,
            InitSDMMCError::FailedIdleOpCondVoltage => 12,
            InitSDMMCError::FailedTranState => 13,
            InitSDMMCError::FailedOcrTimeout => 14,
            InitSDMMCError::CID => 15,
            InitSDMMCError::RelAddr => 16,
            InitSDMMCError::Select => 17,
            InitSDMMCError::CSD => 18,
            InitSDMMCError::Desel => 19,
            InitSDMMCError::Status => 20,
            InitSDMMCError::BusWidthSD => 21,
            InitSDMMCError::StatusVerify => 22,
        }
    }
}

/// The commands of the bring-up sequence. The `App*` ones are application
/// commands: APP_CMD with the relative card address goes first.
#[derive(Clone, Copy, PartialEq, Eq, Structural, Debug)]
pub enum InitCommand {
    GoIdleState,
    SendIfCondition,
    AppSendOpCondition,
    MMCSendOptionalCondition,
    AllSendCID,
    Test,
    SendCSD,
    SelectCard,
    AppSetClearCardSelect,
    AppSetBusWidth,
    SendStatus,
}

/// What the caller does next.
#[derive(Clone, Copy, PartialEq, Eq, Debug)]
pub enum InitAction {
    /// Program the port clock, wait `delay` BIOS delay units, switch the port to
    /// a 4-bit bus when `wide_bus` is set, and send `cmd` with `arg` (preceded
    /// by APP_CMD with `rca` for an application command).
    Send { clock: u16, delay: u32, wide_bus: bool, cmd: InitCommand, arg: u32, rca: u32 },
    /// The sequence has ended.
    Finished(Result<DeviceType, InitSDMMCError>),
}

/// The controller's answer to a sent command: the completion status (for an
/// application command, `Err` with the APP_CMD status when that failed) and
/// the first response word.
#[derive(Clone, Copy)]
pub struct CommandOutcome {
    pub status: Result<u32, u32>,
    pub response: u32,
}

/// The command whose answer the machine waits for.
#[derive(Clone, Copy, PartialEq, Eq, Structural, Debug)]
pub enum InitPhase {
    Idle,
    IfCond,
    OpCond,
    MmcPoll,
    SdPoll,
    Cid,
    RelAddr,
    Csd,
    Select,
    Deselect,
    BusWidth,
    Status,
    Finished,
}

/// Most operating-condition polls before the card counts as timed out.
pub const OCR_POLL_LIMIT: u32 = 200;

/// Delay between two operating-condition polls.
pub const OCR_POLL_DELAY: u32 = 0x20BA * 5;

/// Delay after the card is selected and the port is switched to full speed.
pub const SELECT_DELAY: u32 = 0x208 * 5;

/// OCR bit: the card has finished powering up.
pub const OCR_READY: u32 = 0x8000_0000;
/// OCR bit: the card is high capacity.
pub const OCR_HIGH_CAPACITY: u32 = 0x4000_0000;
/// OCR bit: the card supports the requested voltage.
pub const OCR_VOLTAGE: u32 = 0x10_0000;

/// The relative card address given to an (e)MMC.
pub const MMC_RCA: u32 = 0x10000;

/// State of one card bring-up.
#[derive(Clone, Copy)]
pub struct SdmmcInit {
    pub phase: InitPhase,
    pub clock: u16,
    pub maybe_mmc: bool,
    pub op_cond_arg: u32,
    pub tries: u32,
    pub kind: DeviceType,
    pub rca: u32,
    pub result: Result<DeviceType, InitSDMMCError>,
}

/// The status of a plain command, whichever way the caller reported it.
pub open spec fn plain_status(out: CommandOutcome) -> u32 {
    match out.status {
        Ok(s) => s,
        Err(s) => s,
    }
}

/// Argument of the SD operating-condition command after the interface
/// condition check ended with status `s`: the voltage window bit, and the
/// high-capacity request unless the check timed out.
pub open spec fn op_cond_arg_for(s: u32) -> u32 {
    0x10_0000u32 | (((s << 8u32) as u32) ^ 0x4000_0000u32)
}

/// The operating-condition argument sent to an (e)MMC.
pub const MMC_OP_COND_ARG: u32 = 0x4010_0000;

impl SdmmcInit {
    /// The invariant kept through the sequence: the poll count stays below the
    /// limit while polling.
    pub open spec fn wf(self) -> bool {
        &&& self.tries <= OCR_POLL_LIMIT
        &&& (self.phase is MmcPoll || self.phase is SdPoll) ==> self.tries < OCR_POLL_LIMIT
    }

    /// A bring-up that has sent GO_IDLE_STATE, and the action that sends it.
    pub fn new() -> (r: (SdmmcInit, InitAction))
        ensures
            r.0.wf(),
            r.0.phase == InitPhase::Idle,
            r.0.clock == CLOCK_ENABLE | CLOCK_FREQ_262K,
            r.1 == (InitAction::Send {
                clock: CLOCK_ENABLE | CLOCK_FREQ_262K,
                delay: 0x2000,
                wide_bus: false,
                cmd: InitCommand::GoIdleState,
                arg: 0,
                rca: 0,
            }),
    {
        let clock: u16 = CLOCK_ENABLE | CLOCK_FREQ_262K;
        (
            SdmmcInit {
                phase: InitPhase::Idle,
                clock,
                maybe_mmc: false,
                op_cond_arg: 0,
                tries: 0,
                kind: DeviceType::SDSC,
                rca: 0,
                result: Err(InitSDMMCError::FailedPlaceholder),
            },
            InitAction::Send {
                clock,
                delay: 0x2000,
                wide_bus: false,
                cmd: InitCommand::GoIdleState,
                arg: 0,
                rca: 0,
            },
        )
    }

    /// The sequence ends here with `result`.
    pub open spec fn finished_with(self, next: SdmmcInit, act: InitAction, result: Result<
        DeviceType,
        InitSDMMCError,
    >) -> bool {
        &&& next.phase == InitPhase::Finished
        &&& next.result == result
        &&& act == InitAction::Finished(result)
    }

    /// The sequence goes on: the machine waits in `phase` for the answer to `cmd`.
    pub open spec fn sends(
        next: SdmmcInit,
        act: InitAction,
        phase: InitPhase,
        delay: u32,
        wide_bus: bool,
        cmd: InitCommand,
        arg: u32,
        rca: u32,
    ) -> bool {
        &&& next.phase == phase
        &&& act == InitAction::Send { clock: next.clock, delay, wide_bus, cmd, arg, rca }
    }

    /// The step after the operating-condition register `ocr` of an SD card
    /// reported power-up complete.
    pub open spec fn sd_ready(self, next: SdmmcInit, act: InitAction, ocr: u32, delay: u32) -> bool {
        if ocr & OCR_VOLTAGE == 0 {
            self.finished_with(next, act, Err(InitSDMMCError::FailedIdleOpCondSD2))
        } else {
            &&& next.kind == if ocr & OCR_HIGH_CAPACITY != 0 {
                DeviceType::SDHC
            } else {
                DeviceType::SDSC
            }
            &&& next.clock == CLOCK_FREQ_262K | CLOCK_ENABLE | CLOCK_AUTO_STOP
            &&& Self::sends(next, act, InitPhase::Cid, delay, false, InitCommand::AllSendCID, 0, 0)
        }
    }

    /// One step of the bring-up: how the machine moves on from `self` when the
    /// answer `out` arrives, and what it asks for next.
    pub open spec fn step_spec(self, out: CommandOutcome, next: SdmmcInit, act: InitAction) -> bool {
        let s = plain_status(out);
        match self.phase {
            InitPhase::Idle => if s & STATUS_ALL_ERRORS != 0 {
                self.finished_with(next, act, Err(InitSDMMCError::FailedIdleCommand))
            } else {
                &&& next.clock == self.clock
                &&& Self::sends(next, act, InitPhase::IfCond, 0, false, InitCommand::SendIfCondition, 0x1AA, 0)
            },
            InitPhase::IfCond => if s != 0 && s != STATUS_ERR_CMD_TIMEOUT {
                self.finished_with(next, act, Err(InitSDMMCError::FailedIdleVoltageError))
            } else {
                &&& next.maybe_mmc == (s == STATUS_ERR_CMD_TIMEOUT || out.response != 0x1AA)
                &&& next.op_cond_arg == op_cond_arg_for(s)
                &&& next.clock == self.clock
                &&& Self::sends(
                    next,
                    act,
                    InitPhase::OpCond,
                    0,
                    false,
                    InitCommand::AppSendOpCondition,
                    op_cond_arg_for(s),
                    0,
                )
            },
            InitPhase::OpCond => if !(out.status == Ok::<u32, u32>(0) || out.status == Ok::<u32, u32>(
                STATUS_ERR_CMD_TIMEOUT,
            ) || out.status == Err::<u32, u32>(STATUS_ERR_CMD_TIMEOUT)) {
                self.finished_with(next, act, Err(InitSDMMCError::FailedReadyState))
            } else if self.maybe_mmc || out.status != Ok::<u32, u32>(0) {
                &&& next.tries == 0
                &&& next.clock == self.clock
                &&& Self::sends(
                    next,
                    act,
                    InitPhase::MmcPoll,
                    0,
                    false,
                    InitCommand::MMCSendOptionalCondition,
                    MMC_OP_COND_ARG,
                    0,
                )
            } else if out.response & OCR_READY != 0 {
                self.sd_ready(next, act, out.response, 0)
            } else {
                &&& next.tries == 0
                &&& next.op_cond_arg == self.op_cond_arg
                &&& next.clock == self.clock
                &&& Self::sends(
                    next,
                    act,
                    InitPhase::SdPoll,
                    0,
                    false,
                    InitCommand::AppSendOpCondition,
                    self.op_cond_arg,
                    0,
                )
            },
            InitPhase::MmcPoll => if s != 0 {
                self.finished_with(next, act, Err(InitSDMMCError::FailedIdleOpCondMMC))
            } else if out.response & OCR_READY != 0 {
                if out.response & OCR_VOLTAGE == 0 {
                    self.finished_with(next, act, Err(InitSDMMCError::FailedIdleOpCondVoltage))
                } else {
                    &&& next.kind == if out.response & OCR_HIGH_CAPACITY != 0 {
                        DeviceType::HCEMMC
                    } else {
                        DeviceType::EMMC
                    }
                    &&& next.clock == CLOCK_FREQ_262K | CLOCK_ENABLE | CLOCK_AUTO_STOP
                    &&& Self::sends(next, act, InitPhase::Cid, 0, false, InitCommand::AllSendCID, 0, 0)
                }
            } else if self.tries + 1 == OCR_POLL_LIMIT {
                self.finished_with(next, act, Err(InitSDMMCError::FailedOcrTimeout))
            } else {
                &&& next.tries == self.tries + 1
                &&& next.clock == self.clock
                &&& Self::sends(
                    next,
                    act,
                    InitPhase::MmcPoll,
                    OCR_POLL_DELAY,
                    false,
                    InitCommand::MMCSendOptionalCondition,
                    MMC_OP_COND_ARG,
                    0,
                )
            },
            InitPhase::SdPoll => if out.status != Ok::<u32, u32>(0) {
                self.finished_with(next, act, Err(InitSDMMCError::FailedIdleOpCondSD))
            } else if self.tries + 1 == OCR_POLL_LIMIT {
                self.finished_with(next, act, Err(InitSDMMCError::FailedOcrTimeout))
            } else if out.response & OCR_READY != 0 {
                self.sd_ready(next, act, out.response, OCR_POLL_DELAY)
            } else {
                &&& next.tries == self.tries + 1
                &&& next.op_cond_arg == self.op_cond_arg
                &&& next.clock == self.clock
                &&& Self::sends(
                    next,
                    act,
                    InitPhase::SdPoll,
                    OCR_POLL_DELAY,
                    false,
                    InitCommand::AppSendOpCondition,
                    self.op_cond_arg,
                    0,
                )
            },
            InitPhase::Cid => if s != 0 {
                self.finished_with(next, act, Err(InitSDMMCError::CID))
            } else {
                &&& next.kind == self.kind
                &&& next.clock == self.clock
                &&& Self::sends(
                    next,
                    act,
                    InitPhase::RelAddr,
                    0,
                    false,
                    InitCommand::Test,
                    if self.kind is EMMC || self.kind is HCEMMC {
                        MMC_RCA
                    } else {
                        0
                    },
                    0,
                )
            },
            InitPhase::RelAddr => if s != 0 {
                self.finished_with(next, act, Err(InitSDMMCError::RelAddr))
            } else {
                let rca = if self.kind is EMMC || self.kind is HCEMMC {
                    MMC_RCA
                } else {
                    out.response & 0xFFFF_0000u32
                };
                &&& next.rca == rca
                &&& next.kind == self.kind
                &&& next.clock == self.clock
                &&& Self::sends(next, act, InitPhase::Csd, 0, false, InitCommand::SendCSD, rca, 0)
            },
            InitPhase::Csd => if s != 0 {
                self.finished_with(next, act, Err(InitSDMMCError::CSD))
            } else {
                &&& next.rca == self.rca
                &&& next.kind == self.kind
                &&& next.clock == self.clock
                &&& Self::sends(next, act, InitPhase::Select, 0, false, InitCommand::SelectCard, self.rca, 0)
            },
            InitPhase::Select => if s != 0 {
                self.finished_with(next, act, Err(InitSDMMCError::Select))
            } else {
                &&& next.rca == self.rca
                &&& next.kind == self.kind
                &&& next.clock == CLOCK_ENABLE | CLOCK_FREQ_16M | CLOCK_AUTO_STOP
                &&& if self.kind is EMMC || self.kind is HCEMMC {
                    Self::sends(next, act, InitPhase::Status, SELECT_DELAY, false, InitCommand::SendStatus, self.rca, 0)
                } else {
                    Self::sends(
                        next,
                        act,
                        InitPhase::Deselect,
                        SELECT_DELAY,
                        false,
                        InitCommand::AppSetClearCardSelect,
                        0,
                        self.rca,
                    )
                }
            },
            InitPhase::Deselect => if out.status != Ok::<u32, u32>(0) {
                self.finished_with(next, act, Err(InitSDMMCError::Desel))
            } else {
                &&& next.rca == self.rca
                &&& next.kind == self.kind
                &&& next.clock == self.clock
                &&& Self::sends(next, act, InitPhase::BusWidth, 0, false, InitCommand::AppSetBusWidth, 2, self.rca)
            },
            InitPhase::BusWidth => if out.status != Ok::<u32, u32>(0) {
                self.finished_with(next, act, Err(InitSDMMCError::BusWidthSD))
            } else {
                &&& next.rca == self.rca
                &&& next.kind == self.kind
                &&& next.clock == self.clock
                &&& Self::sends(next, act, InitPhase::Status, 0, true, InitCommand::SendStatus, self.rca, 0)
            },
            InitPhase::Status => if s != 0 {
                self.finished_with(next, act, Err(InitSDMMCError::StatusVerify))
            } else {
                &&& next.rca == self.rca
                &&& self.finished_with(next, act, Ok(self.kind))
            },
            InitPhase::Finished => next == self && act == InitAction::Finished(self.result),
        }
    }

    fn finish(&mut self, result: Result<DeviceType, InitSDMMCError>) -> (act: InitAction)
        ensures
            old(self).finished_with(*final(self), act, result),
            final(self).tries == old(self).tries,
            final(self).rca == old(self).rca,
    {
        self.phase = InitPhase::Finished;
        self.result = result;
        InitAction::Finished(result)
    }

    fn send(
        &mut self,
        phase: InitPhase,
        delay: u32,
        wide_bus: bool,
        cmd: InitCommand,
        arg: u32,
        rca: u32,
    ) -> (act: InitAction)
        ensures
            Self::sends(*final(self), act, phase, delay, wide_bus, cmd, arg, rca),
            final(self).clock == old(self).clock,
            final(self).kind == old(self).kind,
            final(self).rca == old(self).rca,
            final(self).tries == old(self).tries,
            final(self).op_cond_arg == old(self).op_cond_arg,
            final(self).maybe_mmc == old(self).maybe_mmc,
    {
        self.phase = phase;
        InitAction::Send { clock: self.clock, delay, wide_bus, cmd, arg, rca }
    }

    fn sd_ready_exec(&mut self, ocr: u32, delay: u32) -> (act: InitAction)
        ensures
            old(self).sd_ready(*final(self), act, ocr, delay),
            final(self).tries == old(self).tries,
    {
        if ocr & OCR_VOLTAGE == 0 {
            return self.finish(Err(InitSDMMCError::FailedIdleOpCondSD2));
        }
        self.kind = if ocr & OCR_HIGH_CAPACITY != 0 {
            DeviceType::SDHC
        } else {
            DeviceType::SDSC
        };
        self.clock = CLOCK_FREQ_262K | CLOCK_ENABLE | CLOCK_AUTO_STOP;
        self.send(InitPhase::Cid, delay, false, InitCommand::AllSendCID, 0, 0)
    }

    /// Takes the answer to the last command and decides what comes next.
    pub fn step(&mut self, out: CommandOutcome) -> (act: InitAction)
        requires
            old(self).wf(),
        ensures
            final(self).wf(),
            old(self).step_spec(out, *final(self), act),
    {
        let s: u32 = match out.status {
            Ok(s) => s,
            Err(s) => s,
        };
        match self.phase {
            InitPhase::Idle => {
                if s & STATUS_ALL_ERRORS != 0 {
                    self.finish(Err(InitSDMMCError::FailedIdleCommand))
                } else {
                    self.send(InitPhase::IfCond, 0, false, InitCommand::SendIfCondition, 0x1AA, 0)
                }
            },
            InitPhase::IfCond => {
                if s != 0 && s != STATUS_ERR_CMD_TIMEOUT {
                    return self.finish(Err(InitSDMMCError::FailedIdleVoltageError));
                }
                self.maybe_mmc = s == STATUS_ERR_CMD_TIMEOUT || out.response != 0x1AA;
                let arg: u32 = 0x10_0000u32 | ((s << 8u32) ^ 0x4000_0000u32);
                self.op_cond_arg = arg;
                self.send(InitPhase::OpCond, 0, false, InitCommand::AppSendOpCondition, arg, 0)
            },
            InitPhase::OpCond => {
                let is_mmc: bool = match out.status {
                    Ok(0) => false,
                    Ok(STATUS_ERR_CMD_TIMEOUT) => true,
                    Err(STATUS_ERR_CMD_TIMEOUT) => true,
                    _ => {
                        return self.finish(Err(InitSDMMCError::FailedReadyState));
                    },
                };
                self.tries = 0;
                if self.maybe_mmc || is_mmc {
                    self.send(
                        InitPhase::MmcPoll,
                        0,
                        false,
                        InitCommand::MMCSendOptionalCondition,
                        MMC_OP_COND_ARG,
                        0,
                    )
                } else if out.response & OCR_READY != 0 {
                    self.sd_ready_exec(out.response, 0)
                } else {
                    let arg: u32 = self.op_cond_arg;
                    self.send(InitPhase::SdPoll, 0, false, InitCommand::AppSendOpCondition, arg, 0)
                }
            },
            InitPhase::MmcPoll => {
                if s != 0 {
                    return self.finish(Err(InitSDMMCError::FailedIdleOpCondMMC));
                }
                let ocr: u32 = out.response;
                if ocr & OCR_READY != 0 {
                    if ocr & OCR_VOLTAGE == 0 {
                        return self.finish(Err(InitSDMMCError::FailedIdleOpCondVoltage));
                    }
                    self.kind = if ocr & OCR_HIGH_CAPACITY != 0 {
                        DeviceType::HCEMMC
                    } else {
                        DeviceType::EMMC
                    };
                    self.clock = CLOCK_FREQ_262K | CLOCK_ENABLE | CLOCK_AUTO_STOP;
                    return self.send(InitPhase::Cid, 0, false, InitCommand::AllSendCID, 0, 0);
                }
                if self.tries + 1 == OCR_POLL_LIMIT {
                    return self.finish(Err(InitSDMMCError::FailedOcrTimeout));
                }
                self.tries = self.tries + 1;
                self.send(
                    InitPhase::MmcPoll,
                    OCR_POLL_DELAY,
                    false,
                    InitCommand::MMCSendOptionalCondition,
                    MMC_OP_COND_ARG,
                    0,
                )
            },
            InitPhase::SdPoll => {
                match out.status {
                    Ok(0) => {},
                    _ => {
                        return self.finish(Err(InitSDMMCError::FailedIdleOpCondSD));
                    },
                }
                if self.tries + 1 == OCR_POLL_LIMIT {
                    return self.finish(Err(InitSDMMCError::FailedOcrTimeout));
                }
                let ocr: u32 = out.response;
                if ocr & OCR_READY != 0 {
                    return self.sd_ready_exec(ocr, OCR_POLL_DELAY);
                }
                self.tries = self.tries + 1;
                let arg: u32 = self.op_cond_arg;
                self.send(InitPhase::SdPoll, OCR_POLL_DELAY, false, InitCommand::AppSendOpCondition, arg, 0)
            },
            InitPhase::Cid => {
                if s != 0 {
                    return self.finish(Err(InitSDMMCError::CID));
                }
                let arg: u32 = if self.kind.is_mmc() {
                    MMC_RCA
                } else {
                    0
                };
                self.send(InitPhase::RelAddr, 0, false, InitCommand::Test, arg, 0)
            },
            InitPhase::RelAddr => {
                if s != 0 {
                    return self.finish(Err(InitSDMMCError::RelAddr));
                }
                let rca: u32 = if self.kind.is_mmc() {
                    MMC_RCA
                } else {
                    out.response & 0xFFFF_0000u32
                };
                self.rca = rca;
                self.send(InitPhase::Csd, 0, false, InitCommand::SendCSD, rca, 0)
            },
            InitPhase::Csd => {
                if s != 0 {
                    return self.finish(Err(InitSDMMCError::CSD));
                }
                let rca: u32 = self.rca;
                self.send(InitPhase::Select, 0, false, InitCommand::SelectCard, rca, 0)
            },
            InitPhase::Select => {
                if s != 0 {
                    return self.finish(Err(InitSDMMCError::Select));
                }
                self.clock = CLOCK_ENABLE | CLOCK_FREQ_16M | CLOCK_AUTO_STOP;
                let rca: u32 = self.rca;
                if self.kind.is_mmc() {
                    self.send(InitPhase::Status, SELECT_DELAY, false, InitCommand::SendStatus, rca, 0)
                } else {
                    self.send(
                        InitPhase::Deselect,
                        SELECT_DELAY,
                        false,
                        InitCommand::AppSetClearCardSelect,
                        0,
                        rca,
                    )
                }
            },
            InitPhase::Deselect => {
                match out.status {
                    Ok(0) => {},
                    _ => {
                        return self.finish(Err(InitSDMMCError::Desel));
                    },
                }
                let rca: u32 = self.rca;
                self.send(InitPhase::BusWidth, 0, false, InitCommand::AppSetBusWidth, 2, rca)
            },
            InitPhase::BusWidth => {
                match out.status {
                    Ok(0) => {},
                    _ => {
                        return self.finish(Err(InitSDMMCError::BusWidthSD));
                    },
                }
                let rca: u32 = self.rca;
                self.send(InitPhase::Status, 0, true, InitCommand::SendStatus, rca, 0)
            },
            InitPhase::Status => {
                if s != 0 {
                    return self.finish(Err(InitSDMMCError::StatusVerify));
                }
                let kind = self.kind;
                self.finish(Ok(kind))
            },
            InitPhase::Finished => InitAction::Finished(self.result),
        }
    }
}

/// Once the bring-up has ended, every further answer leaves it unchanged and
/// repeats the same result.
pub proof fn law_finished_is_final(s: SdmmcInit, out: CommandOutcome, next: SdmmcInit, act: InitAction)
    requires
        s.phase == InitPhase::Finished,
        s.step_spec(out, next, act),
    ensures
        next == s,
        act == InitAction::Finished(s.result),
{
}

/// An operating-condition poll that is answered by another poll counts one
/// more try, and the count never reaches the limit: the card is polled at most
/// `OCR_POLL_LIMIT` times.
pub proof fn law_polls_are_bounded(s: SdmmcInit, out: CommandOutcome, next: SdmmcInit, act: InitAction)
    requires
        s.wf(),
        s.phase == InitPhase::MmcPoll || s.phase == InitPhase::SdPoll,
        s.step_spec(out, next, act),
        next.phase == s.phase,
    ensures
        next.tries == s.tries + 1,
        next.tries < OCR_POLL_LIMIT,
{
}

/// The bring-up succeeds only on a clean answer to the final status check, and
/// then reports the kind of card it identified.
pub proof fn law_success_only_after_status(
    s: SdmmcInit,
    out: CommandOutcome,
    next: SdmmcInit,
    act: InitAction,
    kind: DeviceType,
)
    requires
        s.phase != InitPhase::Finished,
        s.step_spec(out, next, act),
        act == InitAction::Finished(Ok::<DeviceType, InitSDMMCError>(kind)),
    ensures
        s.phase == InitPhase::Status,
        plain_status(out) == 0,
        kind == s.kind,
{
}

/// The kind of card follows bit 30 of the operating condition the card
/// reported ready with: a card polled as an SD card is SDHC with it set and
/// SDSC without; one polled as an eMMC is a high-capacity eMMC with it set and
/// a plain eMMC without.
pub proof fn law_kind_follows_capacity_bit(s: SdmmcInit, out: CommandOutcome, next: SdmmcInit, act: InitAction)
    requires
        s.phase == InitPhase::OpCond || s.phase == InitPhase::SdPoll || s.phase == InitPhase::MmcPoll,
        s.step_spec(out, next, act),
        next.phase == InitPhase::Cid,
    ensures
        ({
            let sd = s.phase != InitPhase::MmcPoll;
            &&& sd && out.response & 0x4000_0000u32 != 0 ==> next.kind == DeviceType::SDHC
            &&& sd && out.response & 0x4000_0000u32 == 0 ==> next.kind == DeviceType::SDSC
            &&& !sd && out.response & 0x4000_0000u32 != 0 ==> next.kind == DeviceType::HCEMMC
            &&& !sd && out.response & 0x4000_0000u32 == 0 ==> next.kind == DeviceType::EMMC
        }),
{
}

} // verus!
