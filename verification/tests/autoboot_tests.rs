use reboot_lib::autoboot::{BootMethods, UnlaunchBoot, UnlaunchParams, BOOT_METHODS_LEN};

fn put16(b: &mut [u8], off: usize, v: u16) {
    b[off..off + 2].copy_from_slice(&v.to_le_bytes());
}

fn put32(b: &mut [u8], off: usize, v: u32) {
    b[off..off + 4].copy_from_slice(&v.to_le_bytes());
}

fn hand_over_area(path: &[u16]) -> Vec<u8> {
    let mut b = vec![0u8; BOOT_METHODS_LEN];
    b[0..8].copy_from_slice(&0x0003_0015_484E_4241u64.to_le_bytes());
    b[9] = 0x5A;
    put16(&mut b, 16, 0x1234);
    put32(&mut b, 0x300, 0x4A41_5053);
    b[0x305] = 0x20;
    put16(&mut b, 0x306, 0xCAFE);
    b[0x308..0x310].copy_from_slice(&0x1122_3344_5566_7788u64.to_le_bytes());
    b[0x800..0x80C].copy_from_slice(b"AutoLoadInfo");
    put16(&mut b, 0x80C, 0x3F0);
    put16(&mut b, 0x80E, 0xBEEF);
    put32(&mut b, 0x810, 3);
    put16(&mut b, 0x814, 0x7FFF);
    put16(&mut b, 0x816, 0x0001);
    for (i, u) in path.iter().enumerate() {
        put16(&mut b, 0x838 + 2 * i, *u);
    }
    b
}

#[test]
fn parses_the_hand_over_area() {
    let b = hand_over_area(&[0x41, 0x42]);
    let m = BootMethods::parse(&b).expect("long enough");
    assert_eq!(m.optional.title_id, 0x0003_0015_484E_4241);
    assert_eq!(m.optional.flags, 0x5A);
    assert_eq!(m.optional.crc, 0x1234);
    assert_eq!(m.official.gamecode, 0x4A41_5053);
    assert_eq!(m.official.crc_length, 0x20);
    assert_eq!(m.official.crc, 0xCAFE);
    assert_eq!(m.official.old_title_id, 0x1122_3344_5566_7788);
    assert_eq!(m.unlaunch.signature, b"AutoLoadInfo".to_vec());
    assert_eq!(m.unlaunch.crc_len, 0x3F0);
    assert_eq!(m.unlaunch.crc, 0xBEEF);
    assert_eq!(m.unlaunch.params.flags, 3);
    assert_eq!(m.unlaunch.params.upper_bg_color, 0x7FFF);
    assert_eq!(m.unlaunch.params.lower_bg_color, 1);
    assert_eq!(m.unlaunch.params.file_path.len(), 0x104);
    assert_eq!(&m.unlaunch.params.file_path[..3], &[0x41, 0x42, 0]);
}

#[test]
fn short_area_is_refused() {
    assert!(BootMethods::parse(&vec![0u8; BOOT_METHODS_LEN - 1]).is_none());
}

#[test]
fn parameters_need_signature_length_and_checksum() {
    let b = hand_over_area(&[0x41]);
    let boot = UnlaunchBoot::parse(&b, 0x800);
    assert!(boot.parameters(0xBEEF).is_some());
    assert_eq!(boot.parameters(0xBEEF).unwrap().flags, 3);
    assert!(boot.parameters(0xBEEE).is_none());

    let mut bad_sig = b.clone();
    bad_sig[0x800] = b'a';
    assert!(UnlaunchBoot::parse(&bad_sig, 0x800).parameters(0xBEEF).is_none());

    let mut bad_len = b.clone();
    put16(&mut bad_len, 0x80C, 0x3EF);
    assert!(UnlaunchBoot::parse(&bad_len, 0x800).parameters(0xBEEF).is_none());
}

#[test]
fn path_decodes_as_utf16() {
    let p = UnlaunchParams { flags: 0, upper_bg_color: 0, lower_bg_color: 0, file_path: vec![0x73, 0x64, 0x3A, 0x2F, 0xD83D, 0xDE00] };
    assert_eq!(p.parse_path(), "sd:/\u{1F600}");
}

#[test]
fn path_keeps_padding_units() {
    let b = hand_over_area(&[0x41, 0x42]);
    let params = UnlaunchParams::parse(&b, 0x810);
    let s = params.parse_path();
    assert!(s.starts_with("AB"));
    assert_eq!(s.chars().count(), 0x104);
}

#[test]
fn invalid_path_gives_an_empty_string() {
    let p = UnlaunchParams { flags: 0, upper_bg_color: 0, lower_bg_color: 0, file_path: vec![0x41, 0xDC00, 0x42] };
    assert_eq!(p.parse_path(), "");
    let lone = UnlaunchParams { flags: 0, upper_bg_color: 0, lower_bg_color: 0, file_path: vec![0xD800] };
    assert_eq!(lone.parse_path(), "");
}
