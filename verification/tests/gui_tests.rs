use reboot_lib::gui::{Buttons, Events, Rect, Vec2, BUTTON_A, BUTTON_B, BUTTON_PEN};

fn v(x: u8, y: u8) -> Vec2 {
    Vec2::pos2(x, y)
}

#[test]
fn vec2_min_and_max_are_componentwise() {
    let a = v(10, 200);
    let b = v(50, 3);
    assert_eq!(a.min(b), v(10, 3));
    assert_eq!(a.max(b), v(50, 200));
}

#[test]
fn vec2_arithmetic_saturates() {
    assert_eq!(v(250, 10).plus(v(10, 10)), v(255, 20));
    assert_eq!(v(5, 10).minus(v(10, 3)), v(0, 7));
}

#[test]
fn from_two_pos_orders_the_corners() {
    let r = Rect::from_two_pos(v(100, 20), v(30, 90));
    assert_eq!(r.min, v(30, 20));
    assert_eq!(r.max, v(100, 90));
}

#[test]
fn from_two_pos_ignores_argument_order() {
    let a = v(7, 180);
    let b = v(200, 1);
    assert_eq!(Rect::from_two_pos(a, b), Rect::from_two_pos(b, a));
}

#[test]
fn intersects_is_false_for_ordered_rectangles() {
    let a = Rect::from_two_pos(v(0, 0), v(50, 50));
    let b = Rect::from_two_pos(v(10, 10), v(60, 60));
    assert!(!a.intersects(b));
    assert!(!b.intersects(a));
}

#[test]
fn intersects_holds_when_each_lies_beyond_the_other() {
    let a = Rect { min: v(10, 10), max: v(0, 0) };
    let b = Rect { min: v(5, 5), max: v(3, 3) };
    assert!(a.intersects(b));
    assert!(b.intersects(a));
}

#[test]
fn rect_width_height_translate() {
    let r = Rect::from_two_pos(v(10, 20), v(40, 100));
    assert_eq!(r.width(), 30);
    assert_eq!(r.height(), 80);
    let t = r.translate(v(5, 200));
    assert_eq!(t.min, v(15, 220));
    assert_eq!(t.max, v(45, 255));
    assert_eq!(r.set_width(3).max, v(13, 100));
    assert_eq!(r.set_height(4).max, v(40, 24));
    assert_eq!(r.bottom_left(), v(10, 100));
    assert_eq!(r.top_right(), v(40, 20));
}

#[test]
fn screen_rect_covers_the_screen() {
    let s = Rect::screen();
    assert_eq!(s.min, v(0, 0));
    assert_eq!(s.max, v(255, 191));
}

#[test]
fn keys_pressed_and_released_between_updates() {
    let mut e = Events::new();
    e.update(Buttons::from_bits_retain(BUTTON_A), v(0, 0));
    assert!(e.keys_pressed(Buttons::from_bits_retain(BUTTON_A)));
    assert!(!e.keys_released(Buttons::from_bits_retain(BUTTON_A)));
    e.update(Buttons::from_bits_retain(BUTTON_B), v(0, 0));
    assert!(e.keys_released(Buttons::from_bits_retain(BUTTON_A)));
    assert!(e.keys_pressed(Buttons::from_bits_retain(BUTTON_B)));
    assert!(!e.keys_pressed(Buttons::from_bits_retain(BUTTON_A)));
    e.update(Buttons::from_bits_retain(BUTTON_B), v(0, 0));
    assert!(!e.keys_pressed(Buttons::from_bits_retain(BUTTON_B)));
}

#[test]
fn a_key_set_is_never_both_pressed_and_released() {
    let mut e = Events::new();
    let held = [0u16, BUTTON_A, BUTTON_A | BUTTON_B, BUTTON_B, 0];
    for h in held {
        e.update(Buttons::from_bits_retain(h), v(0, 0));
        for k in [BUTTON_A, BUTTON_B, BUTTON_A | BUTTON_B] {
            let k = Buttons::from_bits_retain(k);
            assert!(!(e.keys_pressed(k) && e.keys_released(k)));
        }
    }
}

#[test]
fn touch_point_follows_the_pen_only() {
    let mut e = Events::new();
    e.update(Buttons::from_bits_retain(BUTTON_PEN), v(12, 34));
    assert!(e.pen_down());
    assert_eq!(e.last_known_touch_point(), v(12, 34));
    e.update(Buttons::from_bits_retain(0), v(99, 99));
    assert!(!e.pen_down());
    assert_eq!(e.last_known_touch_point(), v(12, 34));
    e.update(Buttons::from_bits_retain(BUTTON_PEN | BUTTON_A), v(1, 2));
    assert_eq!(e.last_known_touch_point(), v(1, 2));
    assert_eq!(e.other_last_touch_coord, v(12, 34));
}

#[test]
fn buttons_contains() {
    let b = Buttons::from_bits_retain(BUTTON_A | BUTTON_PEN);
    assert!(b.contains(Buttons::from_bits_retain(BUTTON_A)));
    assert!(b.contains(Buttons::empty()));
    assert!(!b.contains(Buttons::from_bits_retain(BUTTON_B)));
}

#[test]
fn keys_outside_the_known_set_never_count_as_pressed() {
    let mut e = Events::new();
    e.buttons_now = Buttons::from_bits_retain(1 << 14);
    assert!(!e.keys_pressed(Buttons::from_bits_retain(1 << 14)));
    assert!(e.keys_pressed(Buttons::from_bits_retain(0)));
    e.buttons_then = Buttons::from_bits_retain(1 << 15);
    e.buttons_now = Buttons::empty();
    assert!(!e.keys_released(Buttons::from_bits_retain(1 << 15)));
    assert_eq!(Buttons::from_bits_retain(BUTTON_A).complement().bits, 0x3FFE);
}
