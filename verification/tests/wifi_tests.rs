use reboot_lib::wifi::{
    find_firmware_for_card, find_interest_addr, get_wifi_part, padded_transfer_len, part_location,
    sdio_read_arg, sdio_write_arg, upload_chunks, FirmwarePart, SDIOFunc, WifiAction, WifiBringUp,
    UPLOAD_CHUNK_LEN,
};

fn put32(b: &mut [u8], off: usize, v: u32) {
    b[off..off + 4].copy_from_slice(&v.to_le_bytes());
}

/// A bundle with one firmware (for card version 5) at 0x100.
fn bundle(interest: u32) -> Vec<u8> {
    let mut b = vec![0u8; 0x180];
    b[0xa2] = 2;
    put32(&mut b, 0xa4, 0x170);
    b[0xa4 + 8] = 3;
    put32(&mut b, 0xa4 + 32, 0x100);
    b[0xa4 + 32 + 8] = 5;
    let fw = 0x100;
    b[fw + 1] = 1;
    b[fw + 2] = 0x48;
    let parts = [(0x60u32, 8u32, 0x1000u32), (0x68, 4, 0x2000), (0x6C, 4, 0x3000), (0x70, 16, 0x4000)];
    for (i, (off, len, dest)) in parts.iter().enumerate() {
        put32(&mut b, fw + 4 + 16 * i, *off);
        put32(&mut b, fw + 4 + 16 * i + 4, *len);
        put32(&mut b, fw + 4 + 16 * i + 12, *dest);
    }
    put32(&mut b, fw + 0x54, interest);
    b
}

#[test]
fn finds_the_firmware_for_the_card() {
    let b = bundle(0x50_0000);
    let fw = find_firmware_for_card(5, &b).unwrap();
    assert_eq!(fw.len(), 0x80);
    assert_eq!(find_firmware_for_card(3, &b).unwrap().len(), 0x10);
    assert!(find_firmware_for_card(4, &b).is_none());
    assert!(find_firmware_for_card(5, &b[..0xa2]).is_none());
    assert_eq!(find_interest_addr(fw), Some(0x50_0000));
}

#[test]
fn interest_address_must_be_present_and_nonzero() {
    let b = bundle(0);
    let fw = find_firmware_for_card(5, &b).unwrap();
    assert_eq!(find_interest_addr(fw), None);
    assert_eq!(find_interest_addr(&[0, 0, 0]), None);
}

#[test]
fn firmware_parts() {
    let b = bundle(0x50_0000);
    let fw = find_firmware_for_card(5, &b).unwrap();
    let (d, dest) = get_wifi_part(fw, FirmwarePart::PartD).unwrap();
    assert_eq!((d.len(), dest), (16, 0x4000));
    assert_eq!(part_location(fw, FirmwarePart::PartA), Some((0x60, 0x68, 0x1000)));
    let mut broken = fw.to_vec();
    put32(&mut broken, 4 + 16 * 2 + 4, 0xFFFF_FFFF);
    assert!(get_wifi_part(&broken, FirmwarePart::PartC).is_none());
    assert!(get_wifi_part(&fw[..20], FirmwarePart::PartD).is_none());
}

#[test]
fn sdio_arguments() {
    assert_eq!(sdio_read_arg(SDIOFunc::Zero, 7), 7 << 9);
    assert_eq!(sdio_read_arg(SDIOFunc::One, 0x2_0405), 0x1000_0000 | (0x405 << 9));
    assert_eq!(sdio_write_arg(SDIOFunc::One, 0xFF, 0xAB), 0x8000_0000 | 0x1000_0000 | (0xFF << 9) | 0xAB);
}

#[test]
fn transfers_are_padded_to_words() {
    assert_eq!(padded_transfer_len(0), 0);
    assert_eq!(padded_transfer_len(1), 4);
    assert_eq!(padded_transfer_len(4), 4);
    assert_eq!(padded_transfer_len(0x1F1), 0x1F4);
}

#[test]
fn uploads_are_split_into_chunks() {
    let chunks = upload_chunks(0x1000, 2 * UPLOAD_CHUNK_LEN + 3);
    assert_eq!(chunks.len(), 3);
    assert_eq!((chunks[1].addr, chunks[1].start, chunks[1].end), (0x1000 + 0x1F0, 0x1F0, 0x3E0));
    assert_eq!((chunks[2].start, chunks[2].end), (0x3E0, 0x3E3));
    assert!(upload_chunks(0, 0).is_empty());
}

fn run(b: &[u8], failures: &[usize]) -> Vec<WifiAction> {
    let (mut w, first) = WifiBringUp::new();
    let mut acts = vec![first];
    for i in 0..20 {
        let act = w.step(b, 5, failures.contains(&i));
        acts.push(act);
        if let WifiAction::Finished(_) = act {
            break;
        }
    }
    acts
}

#[test]
fn full_bring_up() {
    let b = bundle(0x50_0000);
    let acts = run(&b, &[]);
    assert_eq!(
        acts,
        vec![
            WifiAction::RestartCard,
            WifiAction::InitFunc0,
            WifiAction::InitFunc1,
            WifiAction::Upload { dest: 0x4000, start: 0x170, end: 0x180 },
            WifiAction::Upload { dest: 0x3000, start: 0x16C, end: 0x170 },
            WifiAction::Execute { entry: 0x40_3000, arg: 0x3000 },
            WifiAction::UploadLz { dest: 0x1000, start: 0x160, end: 0x168 },
            WifiAction::Upload { dest: 0x2000, start: 0x168, end: 0x16C },
            WifiAction::WriteWord { addr: 0x50_0018, value: 0x2000 },
            WifiAction::WriteWord { addr: 0x50_006C, value: 0x80 },
            WifiAction::WriteWord { addr: 0x50_0074, value: 0x63 },
            WifiAction::StartFirmware,
            WifiAction::WaitReady { addr: 0x50_0058 },
            WifiAction::Finished(0),
        ]
    );
}

#[test]
fn uploaded_firmware_is_only_started() {
    let b = bundle(0xFFFF_FFFF);
    let acts = run(&b, &[]);
    assert_eq!(acts[3], WifiAction::StartFirmware);
    assert_eq!(acts[4], WifiAction::WaitReady { addr: 0x57 });
    assert_eq!(acts[5], WifiAction::Finished(0));
}

#[test]
fn each_failing_step_has_its_code() {
    let b = bundle(0x50_0000);
    let codes = [1u32, 2, 3, 6, 7, 8, 9, 10, 11, 11, 11, 12];
    for (i, code) in codes.iter().enumerate() {
        let acts = run(&b, &[i]);
        assert_eq!(*acts.last().unwrap(), WifiAction::Finished(*code), "step {}", i);
    }
}

#[test]
fn lookup_failures() {
    let b = bundle(0x50_0000);
    let (mut w, _) = WifiBringUp::new();
    w.step(&b, 9, false);
    w.step(&b, 9, false);
    assert_eq!(w.step(&b, 9, false), WifiAction::Finished(4));
    assert_eq!(w.step(&b, 9, false), WifiAction::Finished(4));

    let acts = run(&bundle(0), &[]);
    assert_eq!(*acts.last().unwrap(), WifiAction::Finished(5));

    let mut missing_c = bundle(0x50_0000);
    put32(&mut missing_c, 0x100 + 4 + 32 + 4, 0x1000);
    let acts = run(&missing_c, &[]);
    assert_eq!(acts[4], WifiAction::Finished(7));
}

#[test]
fn an_ended_bring_up_keeps_the_first_failure_code() {
    let b = bundle(0x50_0000);
    let (mut w, _) = WifiBringUp::new();
    assert_eq!(w.step(&b, 5, false), WifiAction::InitFunc0);
    assert_eq!(w.step(&b, 5, true), WifiAction::Finished(2));
    assert_eq!(w.result, 2);
    assert_eq!(w.step(&b, 5, false), WifiAction::Finished(2));
    assert_eq!(w.step(&b, 5, true), WifiAction::Finished(2));
}

#[test]
fn the_interest_address_found_is_kept_to_the_end() {
    let b = bundle(0x50_0000);
    let (mut w, _) = WifiBringUp::new();
    w.step(&b, 5, false);
    w.step(&b, 5, false);
    w.step(&b, 5, false);
    assert_eq!((w.fw_start, w.interest), (0x100, 0x50_0000));
    for _ in 0..8 {
        w.step(&b, 5, false);
    }
    assert_eq!((w.fw_start, w.interest), (0x100, 0x50_0000));
    assert_eq!(w.dest_c, 0x3000);
    assert_eq!(w.dest_b, 0x2000);
}
