//! The identification sequence that walks a card through its states: idle
//! (reset and operating condition), ready (card id), identification (relative
//! address) and stand-by (selection). Each step fails with the controller
//! status it got. The caller sends each command the machine asks for and
//! hands back the controller's answer.
use vstd::prelude::*;
use crate::mmc::{
    Command, DeviceSelect, DeviceType, Status, select_protection, CLOCK_ENABLE, CLOCK_AUTO_STOP,
    CLOCK_FREQ_262K, CLOCK_FREQ_16M,
};
use crate::sdmmc::{CommandOutcome, plain_status, OCR_READY, OCR_HIGH_CAPACITY, OCR_VOLTAGE};

verus! {

/// Most operating-condition polls.
pub const IDENT_POLL_LIMIT: u32 = 200;
/// Delay between two operating-condition polls.
pub const IDENT_POLL_DELAY: u32 = 41890;
/// Delay after the port is powered up.
pub const IDENT_POWERUP_DELAY: u32 = 0x900;
/// The interface condition sent to the card.
pub const IDENT_IF_COND: u32 = 0x1AA;
/// The operating-condition argument: the voltage window and high capacity
/// (for an SD card), sector addressing (for an eMMC).
pub const IDENT_OP_COND_ARG: u32 = 0x4010_0000;
/// The relative address given to an eMMC.
pub const IDENT_MMC_RCA: u32 = 0x10000;

/// What the caller does next.
#[derive(Clone, Copy, PartialEq, Eq, Debug)]
pub enum IdentAction {
    /// Program the port clock, wait `delay` BIOS delay units and send `cmd`
    /// with `arg` (an application command goes after APP_CMD with `rca`).
    Send { clock: u16, delay: u32, cmd: Command, arg: u32, rca: u32 },
    /// The sequence has ended: the kind of card, or the failing status.
    Finished(Result<DeviceType, Status>),
}

/// The command whose answer the machine waits for.
#[derive(Clone, Copy, PartialEq, Eq, Structural, Debug)]
pub enum IdentPhase {
    Idle,
    IfCond,
    OpCond,
    MmcPoll,
    SdPoll,
    Cid,
    RelAddr,
    Select,
    Finished,
}

/// State of one identification: the port is the eMMC's (`mmc`) or the SD
/// slot's; `first_status` is the answer to the first operating-condition
/// query, reported when polling runs out.
#[derive(Clone, Copy)]
pub struct CardIdent {
    pub phase: IdentPhase,
    pub mmc: bool,
    pub clock: u16,
    pub tries: u32,
    pub first_status: u32,
    pub kind: DeviceType,
    pub rca: u32,
    pub protection: u8,
    pub result: Result<DeviceType, Status>,
}

/// The kind of SD card whose operating condition is `ocr`.
pub open spec fn sd_kind(ocr: u32) -> DeviceType {
    if ocr & OCR_HIGH_CAPACITY != 0 {
        DeviceType::SDHC
    } else {
        DeviceType::SDSC
    }
}

/// The kind of eMMC whose operating condition is `ocr`.
pub open spec fn mmc_kind(ocr: u32) -> DeviceType {
    if ocr & OCR_HIGH_CAPACITY != 0 {
        DeviceType::HCEMMC
    } else {
        DeviceType::EMMC
    }
}

/// An SD card's operating condition counts as settled when either the
/// power-up bit or the voltage bit is set.
pub open spec fn sd_settled(ocr: u32) -> bool {
    ocr & (OCR_READY | OCR_VOLTAGE) != 0
}

impl CardIdent {
    /// The poll count stays below the limit while polling.
    pub open spec fn wf(self) -> bool {
        &&& self.tries < IDENT_POLL_LIMIT
    }

    /// The sequence ends here with `result`.
    pub open spec fn finished_with(self, next: CardIdent, act: IdentAction, result: Result<DeviceType, Status>) -> bool {
        &&& next.phase == IdentPhase::Finished
        &&& next.result == result
        &&& act == IdentAction::Finished(result)
    }

    /// The machine waits in `phase` for the answer to `cmd`.
    pub open spec fn sends(self, next: CardIdent, act: IdentAction, phase: IdentPhase, delay: u32, cmd: Command, arg: u32) -> bool {
        &&& next.mmc == self.mmc
        &&& next.first_status == self.first_status
        &&& next.phase == phase
        &&& act == IdentAction::Send { clock: next.clock, delay, cmd, arg, rca: 0 }
    }

    /// An identification of the card in `device`, and the action that powers
    /// its port up and resets the card.
    pub fn new(device: DeviceSelect) -> (r: (CardIdent, IdentAction))
        ensures
            r.0.wf(),
            r.0.phase == IdentPhase::Idle,
            r.0.mmc == (device is EMMC),
            r.0.clock == CLOCK_FREQ_262K | CLOCK_ENABLE,
            r.1 == (IdentAction::Send {
                clock: CLOCK_FREQ_262K | CLOCK_ENABLE,
                delay: IDENT_POWERUP_DELAY,
                cmd: Command::GoIdleState,
                arg: 0,
                rca: 0,
            }),
    {
        let mmc: bool = match device {
            DeviceSelect::SDCardSlot => false,
            DeviceSelect::EMMC => true,
        };
        let clock: u16 = CLOCK_FREQ_262K | CLOCK_ENABLE;
        (
            CardIdent {
                phase: IdentPhase::Idle,
                mmc,
                clock,
                tries: 0,
                first_status: 0,
                kind: DeviceType::SDSC,
                rca: 0,
                protection: 0,
                result: Err(Status { bits: 0 }),
            },
            IdentAction::Send { clock, delay: IDENT_POWERUP_DELAY, cmd: Command::GoIdleState, arg: 0, rca: 0 },
        )
    }

    /// The step into the ready state once the card of kind `kind` settled.
    pub open spec fn ready(self, next: CardIdent, act: IdentAction, kind: DeviceType) -> bool {
        &&& next.kind == kind
        &&& next.clock == CLOCK_ENABLE | CLOCK_AUTO_STOP | CLOCK_FREQ_262K
        &&& self.sends(next, act, IdentPhase::Cid, 0, Command::AllSendCID, 0)
    }

    /// The step after an SD card answered with operating condition `ocr`, in
    /// poll round `tries`: settled, or asked again after a pause.
    pub open spec fn sd_round(self, next: CardIdent, act: IdentAction, ocr: u32, tries: u32) -> bool {
        if sd_settled(ocr) {
            self.ready(next, act, sd_kind(ocr))
        } else {
            &&& next.tries == tries
            &&& next.clock == self.clock
            &&& self.sends(next, act, IdentPhase::SdPoll, IDENT_POLL_DELAY, Command::AppSendOpCondition, IDENT_OP_COND_ARG)
        }
    }

    /// One step: how the machine moves on from `self` when the answer `out`
    /// arrives, and what it asks for next.
    pub open spec fn step_spec(self, out: CommandOutcome, next: CardIdent, act: IdentAction) -> bool {
        let s = plain_status(out);
        let fail = Err::<DeviceType, Status>(Status { bits: s });
        match self.phase {
            IdentPhase::Idle => if s != 0 {
                self.finished_with(next, act, fail)
            } else {
                next.clock == self.clock && self.sends(next, act, IdentPhase::IfCond, 0, Command::SendIfCondition, IDENT_IF_COND)
            },
            IdentPhase::IfCond => if s != 0 {
                self.finished_with(next, act, fail)
            } else {
                &&& next.clock == self.clock
                &&& self.sends(next, act, IdentPhase::OpCond, 0, Command::AppSendOpCondition, IDENT_OP_COND_ARG)
            },
            IdentPhase::OpCond => {
                let entered = CardIdent { first_status: s, ..self };
                if self.mmc {
                    &&& next.tries == 0
                    &&& next.clock == self.clock
                    &&& entered.sends(next, act, IdentPhase::MmcPoll, 0, Command::MMCSendOptionalCondition, IDENT_OP_COND_ARG)
                } else {
                    entered.sd_round(next, act, out.response, 0)
                }
            },
            IdentPhase::MmcPoll => if s != 0 {
                self.finished_with(next, act, fail)
            } else if out.response & OCR_READY != 0 {
                if out.response & OCR_VOLTAGE == 0 {
                    self.finished_with(next, act, fail)
                } else {
                    self.ready(next, act, mmc_kind(out.response))
                }
            } else if self.tries + 1 == IDENT_POLL_LIMIT {
                self.finished_with(next, act, Err(Status { bits: self.first_status }))
            } else {
                &&& next.tries == self.tries + 1
                &&& next.clock == self.clock
                &&& self.sends(next, act, IdentPhase::MmcPoll, IDENT_POLL_DELAY, Command::MMCSendOptionalCondition, IDENT_OP_COND_ARG)
            },
            IdentPhase::SdPoll => if s != 0 {
                self.finished_with(next, act, fail)
            } else if self.tries + 1 == IDENT_POLL_LIMIT {
                self.finished_with(next, act, Err(Status { bits: self.first_status }))
            } else {
                self.sd_round(next, act, out.response, (self.tries + 1) as u32)
            },
            IdentPhase::Cid => if s != 0 {
                self.finished_with(next, act, fail)
            } else {
                &&& next.kind == self.kind
                &&& next.clock == self.clock
                &&& self.sends(
                    next,
                    act,
                    IdentPhase::RelAddr,
                    0,
                    Command::SetSendRelativeAddr,
                    if self.mmc { IDENT_MMC_RCA } else { 0 },
                )
            },
            IdentPhase::RelAddr => if s != 0 {
                self.finished_with(next, act, fail)
            } else {
                let rca = if self.mmc { IDENT_MMC_RCA } else { out.response & 0xFFFF_0000u32 };
                &&& next.kind == self.kind
                &&& next.rca == rca
                &&& next.clock == CLOCK_ENABLE | CLOCK_AUTO_STOP | CLOCK_FREQ_16M
                &&& self.sends(next, act, IdentPhase::Select, 0, Command::SelectCard, rca)
            },
            IdentPhase::Select => if s != 0 {
                self.finished_with(next, act, fail)
            } else {
                &&& next.kind == self.kind
                &&& next.rca == self.rca
                &&& next.protection == self.protection | (out.response % 16 / 8 * 8) as u8
                &&& self.finished_with(next, act, Ok(self.kind))
            },
            IdentPhase::Finished => next == self && act == IdentAction::Finished(self.result),
        }
    }

    fn finish(&mut self, result: Result<DeviceType, Status>) -> (act: IdentAction)
        ensures
            old(self).finished_with(*final(self), act, result),
            final(self).kind == old(self).kind,
            final(self).rca == old(self).rca,
            final(self).tries == old(self).tries,
            final(self).protection == old(self).protection,
    {
        self.phase = IdentPhase::Finished;
        self.result = result;
        IdentAction::Finished(result)
    }

    fn send(&mut self, phase: IdentPhase, delay: u32, cmd: Command, arg: u32) -> (act: IdentAction)
        ensures
            old(self).sends(*final(self), act, phase, delay, cmd, arg),
            final(self).clock == old(self).clock,
            final(self).kind == old(self).kind,
            final(self).rca == old(self).rca,
            final(self).tries == old(self).tries,
    {
        self.phase = phase;
        IdentAction::Send { clock: self.clock, delay, cmd, arg, rca: 0 }
    }

    fn go_ready(&mut self, kind: DeviceType) -> (act: IdentAction)
        ensures
            old(self).ready(*final(self), act, kind),
            final(self).tries == old(self).tries,
    {
        self.kind = kind;
        self.clock = CLOCK_ENABLE | CLOCK_AUTO_STOP | CLOCK_FREQ_262K;
        self.send(IdentPhase::Cid, 0, Command::AllSendCID, 0)
    }

    fn sd_round_exec(&mut self, ocr: u32, tries: u32) -> (act: IdentAction)
        requires
            tries < IDENT_POLL_LIMIT,
            old(self).wf(),
        ensures
            old(self).sd_round(*final(self), act, ocr, tries),
            final(self).tries < IDENT_POLL_LIMIT,
    {
        if ocr & (OCR_READY | OCR_VOLTAGE) != 0 {
            let kind = if ocr & OCR_HIGH_CAPACITY != 0 {
                DeviceType::SDHC
            } else {
                DeviceType::SDSC
            };
            self.go_ready(kind)
        } else {
            self.tries = tries;
            self.send(IdentPhase::SdPoll, IDENT_POLL_DELAY, Command::AppSendOpCondition, IDENT_OP_COND_ARG)
        }
    }

    /// Takes the answer to the last command and decides what comes next.
    pub fn step(&mut self, out: CommandOutcome) -> (act: IdentAction)
        requires
            old(self).wf(),
        ensures
            final(self).wf(),
            old(self).step_spec(out, *final(self), act),
    {
        let s: u32 = match out.status {
            Ok(s) => s,
            Err(s) => s,
        };
        match self.phase {
            IdentPhase::Idle => {
                if s != 0 {
                    return self.finish(Err(Status::from_bits_retain(s)));
                }
                self.send(IdentPhase::IfCond, 0, Command::SendIfCondition, IDENT_IF_COND)
            },
            IdentPhase::IfCond => {
                if s != 0 {
                    return self.finish(Err(Status::from_bits_retain(s)));
                }
                self.send(IdentPhase::OpCond, 0, Command::AppSendOpCondition, IDENT_OP_COND_ARG)
            },
            IdentPhase::OpCond => {
                self.first_status = s;
                if self.mmc {
                    self.tries = 0;
                    self.send(IdentPhase::MmcPoll, 0, Command::MMCSendOptionalCondition, IDENT_OP_COND_ARG)
                } else {
                    self.sd_round_exec(out.response, 0)
                }
            },
            IdentPhase::MmcPoll => {
                if s != 0 {
                    return self.finish(Err(Status::from_bits_retain(s)));
                }
                let ocr: u32 = out.response;
                if ocr & OCR_READY != 0 {
                    if ocr & OCR_VOLTAGE == 0 {
                        return self.finish(Err(Status::from_bits_retain(s)));
                    }
                    let kind = if ocr & OCR_HIGH_CAPACITY != 0 {
                        DeviceType::HCEMMC
                    } else {
                        DeviceType::EMMC
                    };
                    return self.go_ready(kind);
                }
                if self.tries + 1 == IDENT_POLL_LIMIT {
                    let first: u32 = self.first_status;
                    return self.finish(Err(Status::from_bits_retain(first)));
                }
                self.tries = self.tries + 1;
                self.send(IdentPhase::MmcPoll, IDENT_POLL_DELAY, Command::MMCSendOptionalCondition, IDENT_OP_COND_ARG)
            },
            IdentPhase::SdPoll => {
                if s != 0 {
                    return self.finish(Err(Status::from_bits_retain(s)));
                }
                if self.tries + 1 == IDENT_POLL_LIMIT {
                    let first: u32 = self.first_status;
                    return self.finish(Err(Status::from_bits_retain(first)));
                }
                let tries: u32 = self.tries + 1;
                self.sd_round_exec(out.response, tries)
            },
            IdentPhase::Cid => {
                if s != 0 {
                    return self.finish(Err(Status::from_bits_retain(s)));
                }
                let arg: u32 = if self.mmc {
                    IDENT_MMC_RCA
                } else {
                    0
                };
                self.send(IdentPhase::RelAddr, 0, Command::SetSendRelativeAddr, arg)
            },
            IdentPhase::RelAddr => {
                if s != 0 {
                    return self.finish(Err(Status::from_bits_retain(s)));
                }
                let rca: u32 = if self.mmc {
                    IDENT_MMC_RCA
                } else {
                    out.response & 0xFFFF_0000u32
                };
                self.rca = rca;
                self.clock = CLOCK_ENABLE | CLOCK_AUTO_STOP | CLOCK_FREQ_16M;
                self.send(IdentPhase::Select, 0, Command::SelectCard, rca)
            },
            IdentPhase::Select => {
                if s != 0 {
                    return self.finish(Err(Status::from_bits_retain(s)));
                }
                self.protection = self.protection | select_protection(out.response);
                let kind = self.kind;
                self.finish(Ok(kind))
            },
            IdentPhase::Finished => IdentAction::Finished(self.result),
        }
    }
}

/// Once the sequence has ended, every further answer leaves it unchanged and
/// repeats the same result.
pub proof fn law_ident_finished_is_final(s: CardIdent, out: CommandOutcome, next: CardIdent, act: IdentAction)
    requires
        s.phase == IdentPhase::Finished,
        s.step_spec(out, next, act),
    ensures
        next == s,
        act == IdentAction::Finished(s.result),
{
}

/// A poll answered by another poll counts one more round, and the count stays
/// below the limit: a card is polled at most `IDENT_POLL_LIMIT` times.
pub proof fn law_ident_polls_are_bounded(s: CardIdent, out: CommandOutcome, next: CardIdent, act: IdentAction)
    requires
        s.wf(),
        s.phase == IdentPhase::MmcPoll || s.phase == IdentPhase::SdPoll,
        s.step_spec(out, next, act),
        next.phase == s.phase,
    ensures
        next.tries == s.tries + 1,
        next.tries < IDENT_POLL_LIMIT,
{
}

/// The sequence succeeds only when the card was selected without error, and
/// then reports the kind of card it identified.
pub proof fn law_ident_success_only_at_select(s: CardIdent, out: CommandOutcome, next: CardIdent, act: IdentAction)
    requires
        s.phase != IdentPhase::Finished,
        s.step_spec(out, next, act),
        act matches IdentAction::Finished(Ok(_)),
    ensures
        s.phase == IdentPhase::Select,
        plain_status(out) == 0,
        act == IdentAction::Finished(Ok(s.kind)),
{
}

/// The kind of card follows bit 30 of the operating condition the card
/// settled with: an SD card (polled with the SD command) with it set is high
/// capacity (SDHC), one without it standard capacity (SDSC); an eMMC with it
/// set is a high-capacity eMMC, one without it a plain eMMC.
pub proof fn law_ident_kind_follows_capacity_bit(s: CardIdent, out: CommandOutcome, next: CardIdent, act: IdentAction)
    requires
        s.phase == IdentPhase::OpCond || s.phase == IdentPhase::SdPoll || s.phase == IdentPhase::MmcPoll,
        s.step_spec(out, next, act),
        next.phase == IdentPhase::Cid,
    ensures
        ({
            let sd = s.phase == IdentPhase::SdPoll || (s.phase == IdentPhase::OpCond && !s.mmc);
            &&& sd && out.response & 0x4000_0000u32 != 0 ==> next.kind == DeviceType::SDHC
            &&& sd && out.response & 0x4000_0000u32 == 0 ==> next.kind == DeviceType::SDSC
            &&& !sd && out.response & 0x4000_0000u32 != 0 ==> next.kind == DeviceType::HCEMMC
            &&& !sd && out.response & 0x4000_0000u32 == 0 ==> next.kind == DeviceType::EMMC
        }),
{
}

/// Once identified, the kind of card is kept through the card id, address and
/// selection steps, and it is what a successful identification reports.
pub proof fn law_ident_kind_is_kept(s: CardIdent, out: CommandOutcome, next: CardIdent, act: IdentAction)
    requires
        s.phase == IdentPhase::Cid || s.phase == IdentPhase::RelAddr || s.phase == IdentPhase::Select,
        s.step_spec(out, next, act),
        !(act matches IdentAction::Finished(Err(_))),
    ensures
        next.kind == s.kind,
        act matches IdentAction::Finished(Ok(k)) ==> k == s.kind,
{
}

} // verus!
