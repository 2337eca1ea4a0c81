use reboot_lib::card_ident::{CardIdent, IdentAction, IdentPhase};
use reboot_lib::mmc::{Command, DeviceSelect, DeviceType, Status};
use reboot_lib::sdmmc::CommandOutcome;

fn ok(response: u32) -> CommandOutcome {
    CommandOutcome { status: Ok(0), response }
}

fn status(s: u32) -> CommandOutcome {
    CommandOutcome { status: Ok(s), response: 0 }
}

fn sent(a: IdentAction) -> (Command, u32, u16, u32) {
    match a {
        IdentAction::Send { cmd, arg, clock, delay, .. } => (cmd, arg, clock, delay),
        IdentAction::Finished(r) => panic!("finished early: {:?}", r),
    }
}

#[test]
fn sd_card_is_identified() {
    let (mut m, a) = CardIdent::new(DeviceSelect::SDCardSlot);
    assert_eq!(sent(a), (Command::GoIdleState, 0, 0x120, 0x900));
    assert_eq!(sent(m.step(ok(0))).0, Command::SendIfCondition);
    assert_eq!(sent(m.step(ok(0x1AA))), (Command::AppSendOpCondition, 0x4010_0000, 0x120, 0));
    // not settled: asked again after a pause
    assert_eq!(sent(m.step(ok(0))), (Command::AppSendOpCondition, 0x4010_0000, 0x120, 41890));
    // the voltage bit alone settles it
    assert_eq!(sent(m.step(ok(0x0010_0000))), (Command::AllSendCID, 0, 0x320, 0));
    assert_eq!(m.kind, DeviceType::SDSC);
    assert_eq!(sent(m.step(ok(0))), (Command::SetSendRelativeAddr, 0, 0x320, 0));
    assert_eq!(sent(m.step(ok(0xABCD_1234))), (Command::SelectCard, 0xABCD_0000, 0x300, 0));
    assert_eq!(m.step(ok(0x0200_0008)), IdentAction::Finished(Ok(DeviceType::SDSC)));
    assert_eq!(m.protection, 8);
    assert_eq!(m.phase, IdentPhase::Finished);
}

#[test]
fn emmc_is_identified() {
    let (mut m, _) = CardIdent::new(DeviceSelect::EMMC);
    m.step(ok(0));
    m.step(ok(0));
    assert_eq!(sent(m.step(status(0x40_0000))), (Command::MMCSendOptionalCondition, 0x4010_0000, 0x120, 0));
    assert_eq!(sent(m.step(ok(0))), (Command::MMCSendOptionalCondition, 0x4010_0000, 0x120, 41890));
    assert_eq!(sent(m.step(ok(0xC010_0000))).0, Command::AllSendCID);
    assert_eq!(sent(m.step(ok(0))), (Command::SetSendRelativeAddr, 0x10000, 0x320, 0));
    assert_eq!(sent(m.step(ok(0xFFFF_FFFF))), (Command::SelectCard, 0x10000, 0x300, 0));
    assert_eq!(m.step(ok(0)), IdentAction::Finished(Ok(DeviceType::HCEMMC)));
    assert_eq!(m.protection, 0);
}

#[test]
fn emmc_without_voltage_fails_empty() {
    let (mut m, _) = CardIdent::new(DeviceSelect::EMMC);
    m.step(ok(0));
    m.step(ok(0));
    m.step(ok(0));
    assert_eq!(m.step(ok(0x8000_0000)), IdentAction::Finished(Err(Status { bits: 0 })));
}

#[test]
fn polling_runs_out_with_the_first_status() {
    let (mut m, _) = CardIdent::new(DeviceSelect::EMMC);
    m.step(ok(0));
    m.step(ok(0));
    let mut a = m.step(status(0x2_0000));
    let mut polls = 0;
    while let IdentAction::Send { cmd: Command::MMCSendOptionalCondition, .. } = a {
        polls += 1;
        a = m.step(ok(0));
    }
    assert_eq!(polls, 200);
    assert_eq!(a, IdentAction::Finished(Err(Status { bits: 0x2_0000 })));
}

#[test]
fn failed_steps_report_their_status() {
    let (mut m, _) = CardIdent::new(DeviceSelect::SDCardSlot);
    assert_eq!(m.step(status(0x40_0000)), IdentAction::Finished(Err(Status { bits: 0x40_0000 })));
    let (mut m, _) = CardIdent::new(DeviceSelect::SDCardSlot);
    m.step(ok(0));
    m.step(ok(0));
    m.step(ok(0));
    assert_eq!(m.step(status(0x1_0000)), IdentAction::Finished(Err(Status { bits: 0x1_0000 })));
}
