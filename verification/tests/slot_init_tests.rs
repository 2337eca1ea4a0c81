use reboot_lib::codec::{dsi_codec_init_sequence, short_codec_init_sequence};
use reboot_lib::mmc::{Command, DeviceSelect, DeviceType, Status};
use reboot_lib::sdmmc::CommandOutcome;
use reboot_lib::slot_init::{SlotAction, SlotInit, SlotPhase, SLOT_POLL_DELAY};

fn ok(response: u32) -> CommandOutcome {
    CommandOutcome { status: Ok(0), response }
}

fn status(s: u32) -> CommandOutcome {
    CommandOutcome { status: Ok(s), response: 0 }
}

fn sent(a: SlotAction) -> (Command, u32, u32) {
    match a {
        SlotAction::Send { cmd, arg, rca, .. } => (cmd, arg, rca),
        SlotAction::Finished(r) => panic!("finished early: {:?}", r),
    }
}

#[test]
fn sd_slot_happy_path() {
    let (mut m, a) = SlotInit::new(DeviceSelect::SDCardSlot);
    assert_eq!(
        a,
        SlotAction::Send { clock: 0x120, delay: 0x2000, cmd: Command::GoIdleState, arg: 0, rca: 0 }
    );
    assert_eq!(sent(m.step(ok(0))), (Command::SendIfCondition, 0x1AA, 0));
    assert_eq!(sent(m.step(ok(0x1AA))), (Command::AppSendOpCondition, 0x4010_0000, 0));
    // not ready yet: one poll
    assert_eq!(sent(m.step(ok(0))), (Command::AppSendOpCondition, 0x4010_0000, 0));
    let a = m.step(ok(0xC010_0000));
    assert_eq!(
        a,
        SlotAction::Send { clock: 0x120, delay: SLOT_POLL_DELAY, cmd: Command::AllSendCID, arg: 0, rca: 0 }
    );
    assert_eq!(m.kind, DeviceType::SDHC);
    assert_eq!(sent(m.step(ok(0))), (Command::SetSendRelativeAddr, 0, 0));
    let a = m.step(ok(0x1234_0000));
    assert_eq!(
        a,
        SlotAction::Send { clock: 0x300, delay: 0, cmd: Command::SendCSD, arg: 0x1234_0000, rca: 0 }
    );
    assert_eq!(sent(m.step(ok(0))), (Command::SelectCard, 0x1234_0000, 0));
    assert_eq!(sent(m.step(ok(0))), (Command::AppSetClearCardSelect, 0, 0x1234_0000));
    assert_eq!(sent(m.step(ok(0))), (Command::SendStatus, 0x1234_0000, 0));
    assert_eq!(m.step(ok(0)), SlotAction::Finished(Ok(())));
    assert_eq!(m.phase, SlotPhase::Finished);
    assert_eq!(m.kind, DeviceType::SDHC);
    // further answers change nothing
    assert_eq!(m.step(status(0x40_0000)), SlotAction::Finished(Ok(())));
}

#[test]
fn sd_slot_standard_capacity_after_if_cond_timeout() {
    let (mut m, _) = SlotInit::new(DeviceSelect::SDCardSlot);
    m.step(ok(0));
    // interface condition timed out: no high-capacity request
    assert_eq!(sent(m.step(status(0x40_0000))), (Command::AppSendOpCondition, 0x10_0000, 0));
    sent(m.step(ok(0x8010_0000)));
    assert_eq!(m.kind, DeviceType::SDSC);
}

#[test]
fn sd_slot_errors_carry_their_codes() {
    let (mut m, _) = SlotInit::new(DeviceSelect::SDCardSlot);
    assert_eq!(m.step(status(0x8000_0000)), SlotAction::Finished(Err(Status { bits: 0x8000_0000 })));

    let (mut m, _) = SlotInit::new(DeviceSelect::SDCardSlot);
    m.step(ok(0));
    assert_eq!(m.step(ok(0xAB)), SlotAction::Finished(Err(Status { bits: 0x8000_00AB })));

    let (mut m, _) = SlotInit::new(DeviceSelect::SDCardSlot);
    m.step(ok(0));
    assert_eq!(m.step(status(0x2_0000)), SlotAction::Finished(Err(Status { bits: 0x2_0000 })));

    let (mut m, _) = SlotInit::new(DeviceSelect::SDCardSlot);
    m.step(ok(0));
    m.step(ok(0x1AA));
    assert_eq!(m.step(status(0x40_0000)), SlotAction::Finished(Err(Status { bits: 54321 })));

    let (mut m, _) = SlotInit::new(DeviceSelect::SDCardSlot);
    m.step(ok(0));
    m.step(ok(0x1AA));
    m.step(ok(0));
    assert_eq!(m.step(status(0x40_0000)), SlotAction::Finished(Err(Status { bits: 32123 })));

    // ready but without the voltage bit
    let (mut m, _) = SlotInit::new(DeviceSelect::SDCardSlot);
    m.step(ok(0));
    m.step(ok(0x1AA));
    assert_eq!(m.step(ok(0x8000_0000)), SlotAction::Finished(Err(Status { bits: 123123 })));
}

#[test]
fn sd_slot_poll_gives_up_after_two_hundred_polls() {
    let (mut m, _) = SlotInit::new(DeviceSelect::SDCardSlot);
    m.step(ok(0));
    m.step(ok(0x1AA));
    let mut polls = 0;
    let mut a = m.step(ok(0));
    while let SlotAction::Send { cmd: Command::AppSendOpCondition, .. } = a {
        polls += 1;
        a = m.step(ok(0));
    }
    assert_eq!(polls, 200);
    assert_eq!(a, SlotAction::Finished(Err(Status { bits: 6666 })));
}

#[test]
fn emmc_slot_waits_until_ready() {
    let (mut m, a) = SlotInit::new(DeviceSelect::EMMC);
    assert_eq!(
        a,
        SlotAction::Send { clock: 0x120, delay: 0xF000, cmd: Command::GoIdleState, arg: 0, rca: 0 }
    );
    let a = m.step(ok(0));
    assert_eq!(
        a,
        SlotAction::Send {
            clock: 0x120,
            delay: 0xF000,
            cmd: Command::MMCSendOptionalCondition,
            arg: 0x10_0000,
            rca: 0
        }
    );
    // a failed query and a busy card are both asked again
    assert_eq!(sent(m.step(status(0x40_0000))), (Command::MMCSendOptionalCondition, 0x10_0000, 0));
    assert_eq!(sent(m.step(ok(0))), (Command::MMCSendOptionalCondition, 0x10_0000, 0));
    assert_eq!(sent(m.step(ok(0x8000_0000))), (Command::AllSendCID, 0, 0));
    assert_eq!(sent(m.step(ok(0))), (Command::SetSendRelativeAddr, 0x10000, 0));
    assert_eq!(sent(m.step(ok(0))), (Command::SelectCard, 0x10000, 0));
    assert_eq!(m.step(ok(0)), SlotAction::Finished(Ok(())));
    assert_eq!(m.clock, 0x300);
    assert_eq!(m.kind, DeviceType::EMMC);
}

#[test]
fn emmc_slot_errors_are_tagged() {
    let (mut m, _) = SlotInit::new(DeviceSelect::EMMC);
    assert_eq!(m.step(status(0x40_0000)), SlotAction::Finished(Err(Status { bits: 0x40_0001 })));

    let (mut m, _) = SlotInit::new(DeviceSelect::EMMC);
    m.step(ok(0));
    m.step(ok(0x8000_0000));
    assert_eq!(m.step(status(0x1_0000)), SlotAction::Finished(Err(Status { bits: 0x1_0002 })));

    let (mut m, _) = SlotInit::new(DeviceSelect::EMMC);
    m.step(ok(0));
    m.step(ok(0x8000_0000));
    m.step(ok(0));
    assert_eq!(m.step(status(0x1_0000)), SlotAction::Finished(Err(Status { bits: 0x1_00BA })));
    let (mut m, _) = SlotInit::new(DeviceSelect::EMMC);
    m.step(ok(0));
    m.step(ok(0x8000_0000));
    m.step(ok(0));
    m.step(ok(0));
    assert_eq!(m.step(status(0x1_0000)), SlotAction::Finished(Err(Status { bits: 0x1_0004 })));
}

#[test]
fn short_codec_sequence_is_a_prefix() {
    let short = short_codec_init_sequence();
    let all = dsi_codec_init_sequence();
    assert_eq!(short.len(), 46);
    assert_eq!(&short[..], &all[..46]);
    assert_eq!(short[45].1, 0x60);
}
