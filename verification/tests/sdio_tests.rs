use reboot_lib::sdio::{
    MailboxTransfer, SdioAnswer, SdioRequest, SdioRoutine, SdioSetup, SDIO_OPTION_DEFAULT,
    SDIO_OPTION_FALLBACK,
};
use reboot_lib::wifi::{sdio_read_arg, sdio_write_arg, SDIOFunc};

fn ok(response: u32) -> SdioAnswer {
    SdioAnswer { ok: true, response }
}

fn fail() -> SdioAnswer {
    SdioAnswer { ok: false, response: 0 }
}

#[test]
fn restart_sequence() {
    let (mut m, r) = SdioSetup::new(SdioRoutine::Restart);
    assert_eq!(r, SdioRequest::SetOption(SDIO_OPTION_DEFAULT));
    assert_eq!(m.step(ok(0)), SdioRequest::Read(sdio_read_arg(SDIOFunc::Zero, 0)));
    // the probe fails: one-bit bus
    assert_eq!(m.step(fail()), SdioRequest::SetOption(SDIO_OPTION_FALLBACK));
    assert_eq!(m.step(ok(0)), SdioRequest::OpCond(0));
    // a failed query is repeated as it was
    assert_eq!(m.step(fail()), SdioRequest::OpCond(0));
    // not ready: the voltage bit of the answer is asked for next
    assert_eq!(m.step(ok(0x0030_0000)), SdioRequest::OpCond(0x10_0000));
    assert_eq!(m.step(ok(0x8000_0000)), SdioRequest::RelativeAddress);
    assert_eq!(m.step(ok(0x1234_5678)), SdioRequest::Select(0x1234_0000));
    assert_eq!(m.step(ok(0)), SdioRequest::Write(sdio_write_arg(SDIOFunc::Zero, 2, 0)));
    assert_eq!(m.step(ok(0)), SdioRequest::Write(sdio_write_arg(SDIOFunc::Zero, 2, 2)));
    assert_eq!(m.step(ok(0)), SdioRequest::Wait(0xF000));
    assert_eq!(m.step(ok(0)), SdioRequest::Read(sdio_read_arg(SDIOFunc::Zero, 7)));
    assert_eq!(m.step(ok(0x101)), SdioRequest::Write(sdio_write_arg(SDIOFunc::Zero, 7, 0x83)));
    assert_eq!(m.step(ok(0)), SdioRequest::SetOption(SDIO_OPTION_DEFAULT));
    assert_eq!(m.step(ok(0)), SdioRequest::Done(false));
    assert_eq!(m.step(fail()), SdioRequest::Done(false));
}

#[test]
fn restart_stops_at_failed_select() {
    let (mut m, _) = SdioSetup::new(SdioRoutine::Restart);
    m.step(ok(0));
    m.step(ok(0));
    m.step(ok(0x8000_0000));
    m.step(ok(0x1_0000));
    assert_eq!(m.step(fail()), SdioRequest::Done(true));
}

#[test]
fn func0_writes_block_size_then_polls() {
    let (mut m, r) = SdioSetup::new(SdioRoutine::Func0 { block_len: 0x180 });
    assert_eq!(r, SdioRequest::Write(sdio_write_arg(SDIOFunc::Zero, 0x12, 2)));
    assert_eq!(m.step(ok(0)), SdioRequest::Write(sdio_write_arg(SDIOFunc::Zero, 0x110, 0x80)));
    assert_eq!(m.step(ok(0)), SdioRequest::Write(sdio_write_arg(SDIOFunc::Zero, 0x111, 0x01)));
    assert_eq!(m.step(ok(0)), SdioRequest::Write(sdio_write_arg(SDIOFunc::Zero, 0x10, 0x80)));
    assert_eq!(m.step(ok(0)), SdioRequest::Write(sdio_write_arg(SDIOFunc::Zero, 0x11, 0x01)));
    assert_eq!(m.step(ok(0)), SdioRequest::Wait(0xF000));
    let poll = SdioRequest::Read(sdio_read_arg(SDIOFunc::Zero, 3));
    assert_eq!(m.step(ok(0)), poll);
    assert_eq!(m.step(ok(1)), poll);
    assert_eq!(m.step(fail()), poll);
    assert_eq!(m.step(ok(0x302)), SdioRequest::Done(false));
}

#[test]
fn func1_checks_the_status_word() {
    let (mut m, r) = SdioSetup::new(SdioRoutine::Func1);
    // the start value 0x100 to 0x474.., most significant byte first
    assert_eq!(r, SdioRequest::Write(sdio_write_arg(SDIOFunc::One, 0x477, 0)));
    let expected = [(0x476u32, 0u8), (0x475, 1), (0x474, 0), (0x47B, 0), (0x47A, 0), (0x479, 0x40), (0x478, 0)];
    for (addr, value) in expected {
        assert_eq!(m.step(ok(0)), SdioRequest::Write(sdio_write_arg(SDIOFunc::One, addr, value)));
    }
    assert_eq!(m.step(ok(0)), SdioRequest::Wait(0x10000));
    // select 0x40C0 for reading
    let select = [(0x47Fu32, 0u8), (0x47E, 0), (0x47D, 0x40), (0x47C, 0xC0)];
    assert_eq!(m.step(ok(0)), SdioRequest::Write(sdio_write_arg(SDIOFunc::One, select[0].0, select[0].1)));
    for (addr, value) in &select[1..] {
        assert_eq!(m.step(ok(0)), SdioRequest::Write(sdio_write_arg(SDIOFunc::One, *addr, *value)));
    }
    assert_eq!(m.step(ok(0)), SdioRequest::Read(sdio_read_arg(SDIOFunc::One, 0x474)));
    assert_eq!(m.step(ok(2)), SdioRequest::Read(sdio_read_arg(SDIOFunc::One, 0x475)));
    assert_eq!(m.step(ok(0)), SdioRequest::Read(sdio_read_arg(SDIOFunc::One, 0x476)));
    assert_eq!(m.step(ok(0)), SdioRequest::Read(sdio_read_arg(SDIOFunc::One, 0x477)));
    assert_eq!(m.step(ok(0)), SdioRequest::Done(false));
}

#[test]
fn func1_fails_when_a_start_byte_fails() {
    let (mut m, _) = SdioSetup::new(SdioRoutine::Func1);
    m.step(fail());
    for _ in 0..6 {
        m.step(ok(0));
    }
    assert_eq!(m.step(ok(0)), SdioRequest::Done(true));
}

#[test]
fn wait_word_retries_until_one() {
    let (mut m, r) = SdioSetup::new(SdioRoutine::WaitWord { addr: 0x1234_5678 });
    assert_eq!(r, SdioRequest::Write(sdio_write_arg(SDIOFunc::One, 0x47F, 0x12)));
    for _ in 0..4 {
        m.step(ok(0));
    }
    // the word reads 0x0000_0200: not ready
    m.step(ok(0));
    m.step(ok(2));
    m.step(ok(0));
    assert_eq!(m.step(ok(0)), SdioRequest::Wait(0x100));
    assert_eq!(m.step(ok(0)), SdioRequest::Write(sdio_write_arg(SDIOFunc::One, 0x47F, 0x12)));
    for _ in 0..4 {
        m.step(ok(0));
    }
    m.step(ok(1));
    m.step(ok(0));
    m.step(ok(0));
    assert_eq!(m.step(ok(0)), SdioRequest::Done(false));
}

fn run(t: &mut MailboxTransfer, answers: usize) -> Vec<SdioRequest> {
    (0..answers).map(|_| t.step(ok(1))).collect()
}

#[test]
fn memory_write_goes_through_the_mailbox() {
    let (mut t, r) = MailboxTransfer::write_memory(0x0052_0000, &[0xAA, 0xBB]).unwrap();
    assert_eq!(r, SdioRequest::Read(sdio_read_arg(SDIOFunc::One, 0x450)));
    // the count reads zero first: wait and read again
    assert_eq!(t.step(ok(0)), SdioRequest::Wait(0x100));
    assert_eq!(t.step(ok(0)), SdioRequest::Read(sdio_read_arg(SDIOFunc::One, 0x450)));
    let reqs = run(&mut t, 12 + 4 + 1);
    let words = [3u32, 0x0052_0000, 4];
    for (w, word) in words.iter().enumerate() {
        for k in 0..4 {
            let byte = (word >> (8 * k)) as u8;
            assert_eq!(reqs[4 * w + k], SdioRequest::Write(sdio_write_arg(SDIOFunc::One, k as u32, byte)));
        }
    }
    assert_eq!(reqs[12], SdioRequest::Write(sdio_write_arg(SDIOFunc::One, 0, 0xAA)));
    assert_eq!(reqs[13], SdioRequest::Write(sdio_write_arg(SDIOFunc::One, 0, 0xBB)));
    assert_eq!(reqs[14], SdioRequest::Write(sdio_write_arg(SDIOFunc::One, 0, 0)));
    assert_eq!(reqs[15], SdioRequest::Write(sdio_write_arg(SDIOFunc::One, 0xFF, 0)));
    assert_eq!(reqs[16], SdioRequest::Done(false));
    assert!(MailboxTransfer::write_memory(0, &[]).is_none());
}

#[test]
fn memory_write_stops_at_a_failed_word() {
    let (mut t, _) = MailboxTransfer::write_memory(8, &[1]).unwrap();
    t.step(ok(1));
    t.step(fail());
    t.step(ok(0));
    t.step(ok(0));
    assert_eq!(t.step(ok(0)), SdioRequest::Done(true));
}

#[test]
fn lz_start_reports_any_failed_byte_after_both_words() {
    let (mut t, _) = MailboxTransfer::lz_start(0x1000);
    t.step(ok(1));
    let mut last = SdioRequest::Done(false);
    for i in 0..8 {
        last = t.step(if i == 2 { fail() } else { ok(0) });
    }
    assert_eq!(last, SdioRequest::Done(true));
    // the second word raises the interrupt: bytes to 0xFC..
    let (mut t, _) = MailboxTransfer::lz_start(0x1000);
    let reqs = run(&mut t, 9);
    assert_eq!(reqs[4], SdioRequest::Write(sdio_write_arg(SDIOFunc::One, 0xFC, 0)));
    assert_eq!(reqs[5], SdioRequest::Write(sdio_write_arg(SDIOFunc::One, 0xFD, 0x10)));
    assert_eq!(reqs[8], SdioRequest::Done(false));
}

#[test]
fn execute_waits_for_the_reply() {
    let (mut t, _) = MailboxTransfer::execute(0x0040_0000, 0x1234);
    t.step(ok(1));
    // words fail but are not looked at
    for _ in 0..12 {
        t.step(fail());
    }
    assert_eq!(t.step(ok(0)), SdioRequest::Read(sdio_read_arg(SDIOFunc::One, 0x405)));
    assert_eq!(t.step(ok(1)), SdioRequest::Read(sdio_read_arg(SDIOFunc::One, 0xFC)));
    assert_eq!(t.step(ok(0)), SdioRequest::Read(sdio_read_arg(SDIOFunc::One, 0xFD)));
    assert_eq!(t.step(fail()), SdioRequest::Done(true));
}

#[test]
fn start_firmware_sends_one_interrupting_word() {
    let (mut t, _) = MailboxTransfer::start_firmware();
    let reqs = run(&mut t, 5);
    assert_eq!(reqs[0], SdioRequest::Write(sdio_write_arg(SDIOFunc::One, 0xFC, 1)));
    assert_eq!(reqs[3], SdioRequest::Write(sdio_write_arg(SDIOFunc::One, 0xFF, 0)));
    assert_eq!(reqs[4], SdioRequest::Done(false));
}

#[test]
fn a_new_transfer_starts_clean_and_waiting_keeps_its_flags() {
    let (mut t, _) = MailboxTransfer::start_firmware();
    assert_eq!((t.word, t.byte, t.word_failed, t.failed, t.result), (0, 0, false, false, false));
    assert_eq!(t.step(fail()), SdioRequest::Wait(0x100));
    assert!(!t.failed);
    t.step(ok(0));
    assert!(!t.failed && !t.word_failed);
    let reqs = run(&mut t, 5);
    assert_eq!(reqs[4], SdioRequest::Done(false));
}
