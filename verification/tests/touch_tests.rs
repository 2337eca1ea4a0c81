use reboot_lib::touch::{
    find_best_read, i_sort, tsc_position_from_cdc, tsc_position_from_runs, tsc_position_mean,
    tsc_sample, user_settings_offset, Controller, PEN_DOWN_BIT,
};

#[test]
fn insertion_sort_sorts() {
    let mut v = [5, 3, 4, 1, 2];
    i_sort(&mut v);
    assert_eq!(v, [1, 2, 3, 4, 5]);
    let mut d = [7, 7, 1, 7, 0];
    i_sort(&mut d);
    assert_eq!(d, [0, 1, 7, 7, 7]);
}

#[test]
fn best_read_prefers_three_equal_samples() {
    assert_eq!(find_best_read([5, 1, 3, 3, 3]), 3);
    assert_eq!(find_best_read([4, 9, 4, 8, 4]), 4);
    assert_eq!(find_best_read([9, 1, 9, 5, 9]), 9);
}

#[test]
fn best_read_averages_the_closest_three() {
    assert_eq!(find_best_read([10, 20, 30, 40, 50]), 30);
    assert_eq!(find_best_read([1, 2, 2, 9, 20]), 1);
    assert_eq!(find_best_read([2, 2, 5, 7, 100]), 2);
    assert_eq!(find_best_read([100, 7, 5, 2, 2]), 2);
}

#[test]
fn samples_from_the_shifted_bytes() {
    assert_eq!(tsc_sample(0xFF, 0xE0), 4071);
    assert_eq!(tsc_sample(0x12, 0x40), 0x12 * 32 + 2);
    assert_eq!(tsc_sample(0, 0x1F), 0);
}

fn cdc_buffer(x: u16, y: u16) -> [u8; 40] {
    let mut raw = [0u8; 40];
    for i in 0..5 {
        raw[2 * i] = (x >> 8) as u8;
        raw[2 * i + 1] = x as u8;
        raw[10 + 2 * i] = (y >> 8) as u8;
        raw[11 + 2 * i] = y as u8;
    }
    raw
}

#[test]
fn codec_buffer_positions() {
    assert_eq!(tsc_position_from_cdc(&cdc_buffer(0x123, 0x456)), Some((0x123, 0x456)));
    let mut bad = cdc_buffer(0x123, 0x456);
    bad[4] = 0x10;
    assert_eq!(tsc_position_from_cdc(&bad), None);
    assert_eq!(tsc_position_mean(&cdc_buffer(0x123, 0x456)), (0x123, 0x456));
    assert_eq!(tsc_position_mean(&bad), ((0x123 * 4 + 0x023) / 5, 0x456));
}

#[test]
fn direct_runs_average() {
    let mut raw = [0u16; 20];
    for i in 10..15 {
        raw[i] = 100 + i as u16;
    }
    for i in 15..20 {
        raw[i] = 200;
    }
    assert_eq!(tsc_position_from_runs(&raw), (112, 200));
}

#[test]
fn calibration_and_pen_debouncing() {
    let mut c = Controller::from_calibration(0x100, 0x100, 16, 16, 0xF00, 0xF00, 240, 176);
    assert_eq!(c.x_scale, 32768);
    assert_eq!(c.x_offset, 0);
    assert_eq!(c.y_scale, 23405);
    assert_eq!(c.y_offset, -2398208);
    let first = c.next_fetch(0xFFFF, 0xFFFF, true, Some((0x800, 0x800)));
    assert_eq!(first, 0);
    let second = c.next_fetch(0xFFFF, 0xFFFF, true, Some((0x800, 0x800)));
    assert_eq!(second, PEN_DOWN_BIT as u32 | (128 << 16) | (96 << 24));
    let third = c.next_fetch(0xFFFF, 0xFFFF, false, None);
    assert_eq!(third, second);
    let fourth = c.next_fetch(!3, 0xFFFE, false, None);
    assert_eq!(fourth, 3 | (1 << 10) | (128 << 16) | (96 << 24));
}

#[test]
fn positions_are_clamped_to_the_screen() {
    let mut c = Controller::from_calibration(0x100, 0x100, 0, 0, 0x200, 0x200, 255, 255);
    c.next_fetch(0xFFFF, 0xFFFF, true, Some((0xFFF, 0)));
    let r = c.next_fetch(0xFFFF, 0xFFFF, true, Some((0xFFF, 0)));
    assert_eq!((r >> 16) & 0xFF, 255);
    assert_eq!(r >> 24, 0);
    let r = c.next_fetch(0xFFFF, 0xFFFF, true, Some((0, 0xFFF)));
    assert_eq!((r >> 16) & 0xFF, 0);
    assert_eq!(r >> 24, 191);
}

#[test]
fn failed_touch_read_keeps_the_last_position() {
    let mut c = Controller::from_calibration(0x100, 0x100, 16, 16, 0xF00, 0xF00, 240, 176);
    c.next_fetch(0xFFFF, 0xFFFF, true, Some((0x800, 0x800)));
    c.next_fetch(0xFFFF, 0xFFFF, true, Some((0x800, 0x800)));
    let r = c.next_fetch(0xFFFF, 0xFFFF, true, None);
    assert_eq!(r, PEN_DOWN_BIT as u32 | (128 << 16) | (96 << 24));
}

#[test]
fn key_bits_layout() {
    assert_eq!(Controller::key_bits(!0x3FF, 0xFFFF), 0x3FF);
    assert_eq!(Controller::key_bits(0xFFFF, !3), 0xC00);
}

#[test]
fn settings_copy_selection() {
    assert_eq!(user_settings_offset(0x3FE00, 5, 4), 0x3FE00);
    assert_eq!(user_settings_offset(0x3FE00, 5, 7), 0x3FF00);
    assert_eq!(user_settings_offset(0x3FE00, 0, 127), 0x3FE00);
    assert_eq!(user_settings_offset(0x3FE00, 0x80, 127), 0x3FE00);
}

#[test]
fn best_read_ignores_the_order_of_the_samples() {
    let a = [100u16, 104, 90, 120, 101];
    let b = [120u16, 101, 104, 100, 90];
    let c = [90u16, 100, 101, 104, 120];
    assert_eq!(find_best_read(a), find_best_read(b));
    assert_eq!(find_best_read(a), find_best_read(c));
}
