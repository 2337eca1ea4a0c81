use reboot_lib::gui::{Rect, Vec2};
use reboot_lib::ui::{
    Align, Button, Ctx, Direction, Frame, Id, InputState, Label, Layout, Sense, Sizing, Ui,
    SENSE_FOCUSED, SENSE_HOVERED, SENSE_PRESSED, SENSE_RELEASED,
};
use reboot_lib::video::Color;

fn v(x: u8, y: u8) -> Vec2 {
    Vec2::pos2(x, y)
}

fn quiet() -> InputState {
    InputState {
        pointer: v(0, 0),
        pointer_down_active: false,
        pointer_down_pressed: false,
        pointer_down_released: false,
        pointer_press_active: false,
        pointer_press_released: false,
        focused_press_active: false,
        focused_press_released: false,
        focus_next_pressed: false,
        focus_previous_pressed: false,
    }
}

fn frame_with(ctx: Ctx, input: InputState) -> Frame {
    let mut c = ctx;
    c.start_frame(input, Rect::screen())
}

#[test]
fn new_context_is_clear() {
    let c = Ctx::new();
    assert_eq!(c.pressed_response, None);
    assert_eq!(c.focused_response, None);
    assert_eq!(c.touchdown_pos, None);
    assert!(!c.wants_repaint);
}

#[test]
fn start_frame_remembers_touchdown_and_end_frame_forgets_it() {
    let mut c = Ctx::new();
    let mut input = quiet();
    input.pointer = v(40, 50);
    input.pointer_down_pressed = true;
    let f = c.start_frame(input, Rect::screen());
    assert_eq!(c.touchdown_pos, Some(v(40, 50)));
    assert_eq!(f.availble_ground_space, Rect::screen());
    assert_eq!(f.pressed_response, None);
    let mut up = quiet();
    up.pointer_down_released = true;
    c.end_frame(up);
    assert_eq!(c.touchdown_pos, None);
}

#[test]
fn focused_widget_is_pressed_by_the_focus_button() {
    let mut ctx = Ctx::new();
    ctx.focused_response = Some(Id(5));
    let mut input = quiet();
    input.focused_press_active = true;
    let mut f = frame_with(ctx, input);
    let rect = Rect::from_two_pos(v(0, 0), v(10, 10));
    let r = f.interact(rect, Rect::screen(), Id(5), Sense::clickable());
    assert_eq!(f.pressed_response, Some(Id(5)));
    assert_eq!(f.focused_response, Some(Id(5)));
    assert_eq!(r.stats.bits, SENSE_FOCUSED);
    assert_eq!(r.id, Id(5));
    assert_eq!(r.drag_delta, v(0, 0));
}

#[test]
fn pen_press_over_a_widget_presses_it() {
    let mut input = quiet();
    input.pointer = v(5, 5);
    input.pointer_down_active = true;
    input.pointer_press_active = true;
    let mut f = frame_with(Ctx::new(), input);
    let rect = Rect::from_two_pos(v(0, 0), v(10, 10));
    f.interact(rect, Rect::screen(), Id(1), Sense::clickable());
    assert_eq!(f.pressed_response, Some(Id(1)));
    let other = Rect::from_two_pos(v(20, 20), v(30, 30));
    f.interact(other, Rect::screen(), Id(2), Sense::clickable());
    assert_eq!(f.pressed_response, Some(Id(1)));
}

#[test]
fn releasing_the_pressed_widget_releases_it() {
    let mut ctx = Ctx::new();
    ctx.pressed_response = Some(Id(3));
    let mut input = quiet();
    input.pointer_press_released = true;
    let mut f = frame_with(ctx, input);
    let r = f.interact(Rect::screen(), Rect::screen(), Id(3), Sense::clickable());
    assert_eq!(f.released_response, Some(Id(3)));
    assert_eq!(r.stats.bits, SENSE_PRESSED);
}

#[test]
fn answer_is_limited_to_the_sense() {
    let mut ctx = Ctx::new();
    ctx.hovered_response = Some(Id(4));
    ctx.pressed_response = Some(Id(4));
    ctx.released_response = Some(Id(4));
    let mut f = frame_with(ctx, quiet());
    let r = f.interact(Rect::screen(), Rect::screen(), Id(4), Sense::hovered());
    assert_eq!(r.stats.bits, SENSE_HOVERED);
    let r = f.interact(Rect::screen(), Rect::screen(), Id(4), Sense::clickable());
    assert_eq!(r.stats.bits, SENSE_PRESSED | SENSE_HOVERED | SENSE_RELEASED);
}

#[test]
fn interact_rect_is_clipped() {
    let mut f = frame_with(Ctx::new(), quiet());
    let rect = Rect::from_two_pos(v(0, 0), v(100, 100));
    let clip = Rect::from_two_pos(v(50, 20), v(200, 60));
    let r = f.interact(rect, clip, Id(9), Sense::hovered());
    assert_eq!(r.interact_rect, Rect { min: v(50, 20), max: v(100, 60) });
    assert_eq!(r.rect, rect);
}

#[test]
fn focus_candidates_without_a_focus() {
    let mut f = frame_with(Ctx::new(), quiet());
    f.interact(Rect::screen(), Rect::screen(), Id(1), Sense::clickable());
    f.interact(Rect::screen(), Rect::screen(), Id(2), Sense::clickable());
    assert_eq!(f.next_focus, Some(Id(1)));
    assert_eq!(f.prev_focus, Some(Id(2)));
    f.interact(Rect::screen(), Rect::screen(), Id(3), Sense::hovered());
    assert_eq!(f.prev_focus, Some(Id(2)));
}

#[test]
fn focus_candidates_around_the_focused_widget() {
    let mut ctx = Ctx::new();
    ctx.focused_response = Some(Id(2));
    let mut f = frame_with(ctx, quiet());
    f.interact(Rect::screen(), Rect::screen(), Id(1), Sense::clickable());
    f.interact(Rect::screen(), Rect::screen(), Id(2), Sense::clickable());
    f.interact(Rect::screen(), Rect::screen(), Id(3), Sense::clickable());
    assert_eq!(f.prev_focus, Some(Id(1)));
    assert_eq!(f.next_focus, Some(Id(3)));
    assert_eq!(f.focused_response, Some(Id(2)));
}

#[test]
fn finishing_a_frame_moves_the_focus_forward() {
    let mut ctx = Ctx::new();
    ctx.focused_response = Some(Id(2));
    let mut input = quiet();
    input.focus_next_pressed = true;
    let mut f = frame_with(ctx, input);
    f.interact(Rect::screen(), Rect::screen(), Id(2), Sense::clickable());
    f.interact(Rect::screen(), Rect::screen(), Id(3), Sense::clickable());
    let mut c = ctx;
    c.finish_frame(f);
    assert_eq!(c.focused_response, Some(Id(3)));
    assert!(c.wants_repaint);
}

#[test]
fn focus_does_not_move_while_the_focused_widget_is_pressed() {
    let mut ctx = Ctx::new();
    ctx.focused_response = Some(Id(2));
    let mut input = quiet();
    input.focus_next_pressed = true;
    input.focused_press_active = true;
    let mut f = frame_with(ctx, input);
    f.interact(Rect::screen(), Rect::screen(), Id(2), Sense::clickable());
    f.interact(Rect::screen(), Rect::screen(), Id(3), Sense::clickable());
    let mut c = ctx;
    c.finish_frame(f);
    assert_eq!(c.focused_response, Some(Id(2)));
}

#[test]
fn unchanged_frame_asks_no_repaint() {
    let ctx = Ctx::new();
    let f = frame_with(ctx, quiet());
    let mut c = ctx;
    c.finish_frame(f);
    assert!(!c.wants_repaint);
    assert!(!c.frame_due(false));
    assert!(c.frame_due(true));
}

#[test]
fn repaint_request_is_sticky() {
    let ctx = Ctx::new();
    let mut f = frame_with(ctx, quiet());
    f.request_repaint();
    let mut c = ctx;
    c.finish_frame(f);
    assert!(c.wants_repaint);
    let f = frame_with(c, quiet());
    c.finish_frame(f);
    assert!(c.wants_repaint);
}

#[test]
fn pressing_changes_the_state_and_asks_a_repaint() {
    let ctx = Ctx::new();
    let mut input = quiet();
    input.pointer = v(1, 1);
    input.pointer_down_active = true;
    input.pointer_press_active = true;
    let mut f = frame_with(ctx, input);
    f.interact(Rect::screen(), Rect::screen(), Id(8), Sense::clickable());
    let mut c = ctx;
    c.finish_frame(f);
    assert_eq!(c.pressed_response, Some(Id(8)));
    assert!(c.wants_repaint);
}

fn ui_with(direction: Direction, align: Align) -> Ui {
    let mut ui = Ui::new(Id::start(), Rect::screen());
    ui.layout = Layout(direction, align);
    ui
}

#[test]
fn top_down_layout_hands_out_rows() {
    let mut f = frame_with(Ctx::new(), quiet());
    let mut ui = Ui::new(Id::start(), Rect::screen());
    let r = ui.allocate_size(&mut f, v(50, 10), Sense::hovered());
    assert_eq!(r.rect, Rect { min: v(0, 0), max: v(50, 10) });
    assert_eq!(r.id, Id(1));
    assert_eq!(ui.clip_rect, Rect { min: v(0, 10), max: v(255, 191) });
    let r = ui.allocate_size(&mut f, v(50, 10), Sense::hovered());
    assert_eq!(r.id, Id(2));
    assert_eq!(ui.clip_rect.min, v(0, 20));
}

#[test]
fn bottom_up_layout_starts_at_the_bottom() {
    let mut f = frame_with(Ctx::new(), quiet());
    let mut ui = ui_with(Direction::BottomUp, Align::Min);
    let r = ui.allocate_size(&mut f, v(20, 10), Sense::hovered());
    assert_eq!(r.rect, Rect { min: v(0, 10), max: v(20, 181) });
    assert_eq!(ui.clip_rect, Rect { min: v(0, 0), max: v(255, 181) });
}

#[test]
fn alignment_moves_the_widget_across() {
    let mut f = frame_with(Ctx::new(), quiet());
    let mut ui = ui_with(Direction::TopDown, Align::Middle);
    assert_eq!(ui.allocate_size(&mut f, v(50, 10), Sense::hovered()).rect, Rect { min: v(102, 0), max: v(152, 10) });
    let mut ui = ui_with(Direction::TopDown, Align::Max);
    assert_eq!(ui.allocate_size(&mut f, v(50, 10), Sense::hovered()).rect, Rect { min: v(205, 0), max: v(255, 10) });
    let mut ui = ui_with(Direction::TopDown, Align::Justified);
    assert_eq!(ui.allocate_size(&mut f, v(50, 10), Sense::hovered()).rect, Rect { min: v(0, 0), max: v(255, 10) });
}

#[test]
fn horizontal_layouts() {
    let mut f = frame_with(Ctx::new(), quiet());
    let mut ui = ui_with(Direction::LeftRight, Align::Min);
    let r = ui.allocate_size(&mut f, v(50, 10), Sense::hovered());
    assert_eq!(r.rect, Rect { min: v(0, 0), max: v(50, 10) });
    assert_eq!(ui.clip_rect.min, v(50, 0));
    let mut ui = ui_with(Direction::RightLeft, Align::Min);
    let r = ui.allocate_size(&mut f, v(50, 10), Sense::hovered());
    assert_eq!(r.rect, Rect { min: v(50, 0), max: v(205, 10) });
    assert_eq!(ui.clip_rect.max, v(205, 191));
}

#[test]
fn allocation_never_grows_the_region() {
    let mut f = frame_with(Ctx::new(), quiet());
    for d in [Direction::TopDown, Direction::LeftRight, Direction::BottomUp, Direction::RightLeft] {
        let mut ui = ui_with(d, Align::Min);
        let before = ui.clip_rect;
        ui.allocate_size(&mut f, v(30, 40), Sense::hovered());
        assert!(ui.clip_rect.min.x >= before.min.x && ui.clip_rect.min.y >= before.min.y);
        assert!(ui.clip_rect.max.x <= before.max.x && ui.clip_rect.max.y <= before.max.y);
    }
}

#[test]
fn panels_shrink_their_area() {
    let f = frame_with(Ctx::new(), quiet());
    let ui = f.central_panel();
    assert_eq!(ui.clip_rect, Rect { min: v(4, 4), max: v(251, 187) });
    assert_eq!(ui.id, Id(0));
    let area = Rect::from_two_pos(v(10, 10), v(100, 80));
    let (ui, backdrop) = f.window(area);
    assert_eq!(ui.clip_rect, Rect { min: v(14, 14), max: v(96, 76) });
    assert_eq!(ui.id, Id(0x200_0000));
    assert_eq!(backdrop.area, area);
    assert_eq!(backdrop.fill, Color::new_rgb(60, 60, 60));
    assert_eq!(backdrop.outline_size, 1);
}

#[test]
fn ids_advance_and_wrap() {
    let mut id = Id(7);
    assert_eq!(id.next(), Id(8));
    assert_eq!(id, Id(8));
    let mut last = Id(u32::MAX);
    assert_eq!(last.next(), Id(0));
    assert_eq!(Id::from_layer(3), Id(0x300_0000));
}

#[test]
fn button_sizes() {
    let b = Button::new(String::from("OK"), Sizing::Automatic, Color::white());
    assert_eq!(b.prep_size(), v(0, 8));
    let text = Rect::from_two_pos(v(10, 10), v(30, 18));
    assert_eq!(b.alloc_size(text), v(26, 14));
    let c = Button::new(String::from("OK"), Sizing::Cropped(v(40, 4)), Color::white());
    assert_eq!(c.prep_size(), v(40, 8));
    assert_eq!(c.alloc_size(text), v(40, 14));
}

#[test]
fn button_colours_follow_its_state() {
    let b = Button::new(String::from("Go"), Sizing::Automatic, Color::white());
    let text = Rect::from_two_pos(v(0, 0), v(10, 8));
    let mut f = frame_with(Ctx::new(), quiet());
    let mut ui = Ui::new(Id::start(), Rect::screen());
    let (r, style) = b.ui(&mut ui, &mut f, text);
    assert_eq!(r.stats.bits, 0);
    assert_eq!(style.fill, Color::new_rgb(100, 100, 100));
    assert_eq!(style.outline_color, Color::new_rgb(0, 0, 0));

    let mut ctx = Ctx::new();
    ctx.pressed_response = Some(Id(1));
    let mut f = frame_with(ctx, quiet());
    let mut ui = Ui::new(Id::start(), Rect::screen());
    let (_, style) = b.ui(&mut ui, &mut f, text);
    assert_eq!(style.fill, Color::new_rgb(32, 32, 32));

    let mut ctx = Ctx::new();
    ctx.focused_response = Some(Id(1));
    let mut f = frame_with(ctx, quiet());
    let mut ui = Ui::new(Id::start(), Rect::screen());
    let (_, style) = b.ui(&mut ui, &mut f, text);
    assert_eq!(style.outline_color, Color::new_rgb(200, 200, 200));
}

#[test]
fn label_takes_the_size_of_its_text() {
    let l = Label::new(String::from("hello"), 8);
    assert_eq!(l.size, 8);
    let mut f = frame_with(Ctx::new(), quiet());
    let mut ui = Ui::new(Id::start(), Rect::screen());
    let r = l.ui(&mut ui, &mut f, Rect::from_two_pos(v(0, 0), v(40, 8)));
    assert_eq!(r.rect, Rect { min: v(0, 0), max: v(40, 8) });
}

#[test]
fn sense_queries() {
    let s = Sense::clickable();
    assert!(s.contains(Sense::from_bits_retain(SENSE_PRESSED)));
    assert!(s.intersects(Sense::hovered()));
    assert!(!Sense::hovered().intersects(Sense::from_bits_retain(SENSE_PRESSED)));
}

#[test]
fn id_statistics_reads_the_previous_frame() {
    let mut ctx = Ctx::new();
    ctx.focused_response = Some(Id(6));
    ctx.hovered_response = Some(Id(6));
    let f = frame_with(ctx, quiet());
    assert_eq!(f.id_statistics(Id(6)).bits, SENSE_FOCUSED | SENSE_HOVERED);
    assert_eq!(f.id_statistics(Id(7)).bits, 0);
}

#[test]
fn process_frame_closes_the_frame_after_the_closure() {
    let mut c = Ctx::new();
    c.focused_response = Some(Id(2));
    let mut input = quiet();
    input.focus_next_pressed = true;
    let mut count = 0u8;
    let r = c.process_frame(
        input,
        Rect::screen(),
        |f: &mut Frame, n: &mut u8| {
            f.interact(Rect::screen(), Rect::screen(), Id(2), Sense::clickable());
            f.interact(Rect::screen(), Rect::screen(), Id(3), Sense::clickable());
            *n += 1;
            42u32
        },
        &mut count,
    );
    assert_eq!(r, 42);
    assert_eq!(count, 1);
    assert_eq!(c.focused_response, Some(Id(3)));
    assert!(c.wants_repaint);
}

#[test]
fn button_box_is_its_rectangle_shrunk_by_one() {
    let b = Button::new(String::from("Go"), Sizing::Automatic, Color::white());
    let text = Rect::from_two_pos(v(0, 0), v(10, 8));
    let mut f = frame_with(Ctx::new(), quiet());
    let mut ui = Ui::new(Id::start(), Rect::screen());
    let (r, backdrop) = b.ui(&mut ui, &mut f, text);
    assert_eq!(r.rect, Rect { min: v(0, 0), max: v(13, 11) });
    assert_eq!(backdrop.area, Rect { min: v(1, 1), max: v(12, 10) });
    assert_eq!(backdrop.rounding, 1);
    assert_eq!(backdrop.outline_size, 1);
}

#[test]
fn allocating_space_records_the_press_in_the_frame() {
    let mut input = quiet();
    input.pointer = v(5, 5);
    input.pointer_down_active = true;
    input.pointer_press_active = true;
    let mut f = frame_with(Ctx::new(), input);
    let mut ui = Ui::new(Id::start(), Rect::screen());
    let r = ui.allocate_size(&mut f, v(20, 10), Sense::clickable());
    assert_eq!(r.id, Id(1));
    assert_eq!(r.drag_delta, v(0, 0));
    assert_eq!(f.pressed_response, Some(Id(1)));
    assert_eq!(f.prev_focus, Some(Id(1)));
    assert_eq!(f.next_focus, Some(Id(1)));
}

#[test]
fn label_records_nothing_but_its_focus_place() {
    let l = Label::new(String::from("hi"), 8);
    let mut f = frame_with(Ctx::new(), quiet());
    let mut ui = Ui::new(Id::start(), Rect::screen());
    let r = l.ui(&mut ui, &mut f, Rect::from_two_pos(v(0, 0), v(10, 8)));
    assert_eq!(r.id, Id(1));
    assert_eq!(f.pressed_response, None);
    assert_eq!(f.prev_focus, None);
    assert_eq!(ui.clip_rect.min, v(0, 8));
}
