use reboot_lib::mmc::{DeviceType, STATUS_ERR_CMD_TIMEOUT, STATUS_ERR_BAD_CRC};
use reboot_lib::sdmmc::{
    CommandOutcome, InitAction, InitCommand, InitPhase, InitSDMMCError, SdmmcInit, OCR_POLL_DELAY,
    SELECT_DELAY,
};

fn ok(response: u32) -> CommandOutcome {
    CommandOutcome { status: Ok(0), response }
}

fn status(s: u32) -> CommandOutcome {
    CommandOutcome { status: Ok(s), response: 0 }
}

fn sent(act: InitAction) -> (InitCommand, u32, u32, u32, bool, u16) {
    match act {
        InitAction::Send { clock, delay, wide_bus, cmd, arg, rca } => (cmd, arg, rca, delay, wide_bus, clock),
        InitAction::Finished(r) => panic!("finished early: {:?}", r),
    }
}

fn finished(act: InitAction) -> Result<DeviceType, InitSDMMCError> {
    match act {
        InitAction::Finished(r) => r,
        other => panic!("still sending: {:?}", other),
    }
}

#[test]
fn sd_card_bring_up_succeeds() {
    let (mut s, act) = SdmmcInit::new();
    assert_eq!(sent(act), (InitCommand::GoIdleState, 0, 0, 0x2000, false, 0x120));
    assert_eq!(sent(s.step(ok(0))).0, InitCommand::SendIfCondition);
    let (cmd, arg, ..) = sent(s.step(ok(0x1AA)));
    assert_eq!((cmd, arg), (InitCommand::AppSendOpCondition, 0x4010_0000));
    let (cmd, _, _, _, _, clock) = sent(s.step(ok(0xC010_0000)));
    assert_eq!(cmd, InitCommand::AllSendCID);
    assert_eq!(clock, 0x320);
    assert_eq!(s.kind, DeviceType::SDHC);
    assert_eq!(sent(s.step(ok(0))), (InitCommand::Test, 0, 0, 0, false, 0x320));
    let (cmd, arg, ..) = sent(s.step(ok(0x1234_0500)));
    assert_eq!((cmd, arg), (InitCommand::SendCSD, 0x1234_0000));
    assert_eq!(sent(s.step(ok(0))).0, InitCommand::SelectCard);
    assert_eq!(sent(s.step(ok(0))), (InitCommand::AppSetClearCardSelect, 0, 0x1234_0000, SELECT_DELAY, false, 0x300));
    assert_eq!(sent(s.step(ok(0))), (InitCommand::AppSetBusWidth, 2, 0x1234_0000, 0, false, 0x300));
    assert_eq!(sent(s.step(ok(0))), (InitCommand::SendStatus, 0x1234_0000, 0, 0, true, 0x300));
    assert_eq!(finished(s.step(ok(0))), Ok(DeviceType::SDHC));
    assert_eq!(s.phase, InitPhase::Finished);
}

#[test]
fn mmc_bring_up_succeeds_after_polling() {
    let (mut s, _) = SdmmcInit::new();
    s.step(ok(0));
    let (cmd, arg, ..) = sent(s.step(status(STATUS_ERR_CMD_TIMEOUT)));
    assert_eq!((cmd, arg), (InitCommand::AppSendOpCondition, 0x10_0000));
    let (cmd, arg, _, delay, ..) = sent(s.step(ok(0)));
    assert_eq!((cmd, arg, delay), (InitCommand::MMCSendOptionalCondition, 0x4010_0000, 0));
    let (_, _, _, delay, ..) = sent(s.step(ok(0)));
    assert_eq!(delay, OCR_POLL_DELAY);
    assert_eq!(s.tries, 1);
    assert_eq!(sent(s.step(ok(0xC010_0000))).0, InitCommand::AllSendCID);
    assert_eq!(s.kind, DeviceType::HCEMMC);
    assert_eq!(sent(s.step(ok(0))), (InitCommand::Test, 0x10000, 0, 0, false, 0x320));
    assert_eq!(sent(s.step(ok(0xFFFF_FFFF))).1, 0x10000);
    assert_eq!(sent(s.step(ok(0))).0, InitCommand::SelectCard);
    assert_eq!(sent(s.step(ok(0))), (InitCommand::SendStatus, 0x10000, 0, SELECT_DELAY, false, 0x300));
    assert_eq!(finished(s.step(ok(0))), Ok(DeviceType::HCEMMC));
}

#[test]
fn low_capacity_cards() {
    let (mut s, _) = SdmmcInit::new();
    s.step(ok(0));
    s.step(ok(0x1AA));
    s.step(ok(0x8010_0000));
    assert_eq!(s.kind, DeviceType::SDSC);

    let (mut m, _) = SdmmcInit::new();
    m.step(ok(0));
    m.step(ok(0x55));
    m.step(ok(0));
    m.step(ok(0x8010_0000));
    assert_eq!(m.kind, DeviceType::EMMC);
}

#[test]
fn polling_gives_up_after_the_limit() {
    let (mut s, _) = SdmmcInit::new();
    s.step(ok(0));
    s.step(status(STATUS_ERR_CMD_TIMEOUT));
    s.step(ok(0));
    for _ in 0..199 {
        sent(s.step(ok(0)));
    }
    assert_eq!(finished(s.step(ok(0))), Err(InitSDMMCError::FailedOcrTimeout));
}

#[test]
fn sd_polling_gives_up_after_the_limit() {
    let (mut s, _) = SdmmcInit::new();
    s.step(ok(0));
    s.step(ok(0x1AA));
    assert_eq!(sent(s.step(ok(0))).0, InitCommand::AppSendOpCondition);
    for _ in 0..199 {
        sent(s.step(ok(0)));
    }
    assert_eq!(finished(s.step(ok(0x8000_0000))), Err(InitSDMMCError::FailedOcrTimeout));
}

fn at_phase(answers: &[CommandOutcome]) -> SdmmcInit {
    let (mut s, _) = SdmmcInit::new();
    for a in answers {
        s.step(*a);
    }
    s
}

#[test]
fn each_step_reports_its_own_error() {
    let sd = [ok(0), ok(0x1AA), ok(0xC010_0000), ok(0), ok(0x1234_0000), ok(0), ok(0), ok(0), ok(0)];
    let bad = status(STATUS_ERR_BAD_CRC);
    let expected = [
        InitSDMMCError::FailedIdleCommand,
        InitSDMMCError::FailedIdleVoltageError,
        InitSDMMCError::FailedReadyState,
        InitSDMMCError::CID,
        InitSDMMCError::RelAddr,
        InitSDMMCError::CSD,
        InitSDMMCError::Select,
        InitSDMMCError::Desel,
        InitSDMMCError::BusWidthSD,
        InitSDMMCError::StatusVerify,
    ];
    for (n, e) in expected.iter().enumerate() {
        let mut s = at_phase(&sd[..n]);
        assert_eq!(finished(s.step(bad)), Err(*e), "step {}", n);
    }
}

#[test]
fn operating_condition_errors() {
    let mut s = at_phase(&[ok(0), ok(0x1AA), ok(0)]);
    assert_eq!(finished(s.step(status(1))), Err(InitSDMMCError::FailedIdleOpCondSD));
    let mut s = at_phase(&[ok(0), ok(0x1AA)]);
    assert_eq!(finished(s.step(ok(0x8000_0000))), Err(InitSDMMCError::FailedIdleOpCondSD2));
    let mut s = at_phase(&[ok(0), ok(0x55), ok(0)]);
    assert_eq!(finished(s.step(status(1))), Err(InitSDMMCError::FailedIdleOpCondMMC));
    let mut s = at_phase(&[ok(0), ok(0x55), ok(0)]);
    assert_eq!(finished(s.step(ok(0x8000_0000))), Err(InitSDMMCError::FailedIdleOpCondVoltage));
}

#[test]
fn a_failed_app_command_counts_as_timeout_only_for_timeouts() {
    let mut s = at_phase(&[ok(0), ok(0x1AA)]);
    let act = s.step(CommandOutcome { status: Err(STATUS_ERR_CMD_TIMEOUT), response: 0 });
    assert_eq!(sent(act).0, InitCommand::MMCSendOptionalCondition);
    let mut s = at_phase(&[ok(0), ok(0x1AA)]);
    let act = s.step(CommandOutcome { status: Err(1), response: 0 });
    assert_eq!(finished(act), Err(InitSDMMCError::FailedReadyState));
}

#[test]
fn finished_bring_up_stays_finished() {
    let mut s = at_phase(&[status(STATUS_ERR_BAD_CRC)]);
    let before = s;
    assert_eq!(finished(s.step(ok(0))), Err(InitSDMMCError::FailedIdleCommand));
    assert_eq!(s.phase, before.phase);
    assert_eq!(s.result, before.result);
}

#[test]
fn error_codes() {
    assert_eq!(InitSDMMCError::FailedIdleCommand.code(), 1);
    assert_eq!(InitSDMMCError::FailedPlaceholder.code(), 0xffff);
    assert_eq!(InitSDMMCError::FailedOcrTimeout.code(), 14);
    assert_eq!(InitSDMMCError::CID.code(), 15);
    assert_eq!(InitSDMMCError::StatusVerify.code(), 22);
}
