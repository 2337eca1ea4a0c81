use reboot_lib::video::{
    Color, GeometryWrite, Timer, VideoHardwareHandle, Viewport, MATRIX_POSITION, MATRIX_PROJECTION,
    TIMER_ENABLE_IRQ, TIMER_PRESCALE_1024, TIMER_START, VERTEX_LIST_QUADS,
};

#[test]
fn colours_keep_the_top_five_bits() {
    assert_eq!(Color::new_rgb(0xFF, 0xFF, 0xFF).0, 0x7FFF);
    assert_eq!(Color::new_rgb(0, 0, 0).0, 0);
    assert_eq!(Color::new_rgb(0xF8, 0, 0).0, 0x001F);
    assert_eq!(Color::new_rgb(0, 0xF8, 0).0, 0x03E0);
    assert_eq!(Color::new_rgb(0, 0, 0xF8).0, 0x7C00);
    assert_eq!(Color::new_rgb(7, 7, 7).0, 0);
    assert_eq!(Color::new_rgb(60, 60, 60).0, 7 | (7 << 5) | (7 << 10));
    assert_eq!(Color::white(), Color(0x7FFF));
    assert_eq!(Color::black(), Color(0));
    assert_eq!(Color::confirm_green().0, 0b0000111101010100);
}

#[test]
fn colour_components_read_back() {
    for (r, g, b) in [(0x12u8, 0x34u8, 0x56u8), (255, 0, 128), (8, 16, 24)] {
        let c = Color::new_rgb(r, g, b).0;
        assert_eq!(c & 0x1F, (r >> 3) as u16);
        assert_eq!((c >> 5) & 0x1F, (g >> 3) as u16);
        assert_eq!((c >> 10) & 0x1F, (b >> 3) as u16);
        assert!(c < 0x8000);
    }
}

#[test]
fn viewport_packs_one_byte_per_coordinate() {
    assert_eq!(Viewport::new(1, 2, 3, 4).bits, 0x0403_0201);
    assert_eq!(Viewport::whole_screen().bits, (255 << 16) | (191 << 24));
}

#[test]
fn timer_words() {
    assert_eq!(Timer::new(0x1234, TIMER_START | TIMER_ENABLE_IRQ).0, 0x00C0_1234);
    assert_eq!(Timer::new(1, TIMER_START | TIMER_PRESCALE_1024 | TIMER_ENABLE_IRQ).0, 0x00C3_0001);
    assert_eq!(Timer::reset().0, 0);
}

#[test]
fn matrix_initialisation() {
    let h = VideoHardwareHandle::new();
    let w = h.init_matricies();
    assert_eq!(w.len(), 8);
    assert_eq!(w[0], GeometryWrite::MatrixMode(MATRIX_PROJECTION));
    assert_eq!(w[1], GeometryWrite::MatrixIdentity);
    assert_eq!(w[2], GeometryWrite::MatrixMode(MATRIX_POSITION));
    assert_eq!(h.next_frame(), GeometryWrite::SwapBuffers);
}

#[test]
fn vertex_list_writes() {
    let mut h = VideoHardwareHandle::new();
    let mut list = h.create_vertex_list(VERTEX_LIST_QUADS);
    list.set_vertex_color(0x7FFF);
    list.vertex_set_texture_coordinate(-1, 2);
    list.add_vertex_double(1, -1, 5);
    list.add_vertex_single(0x40, 0x40, 0x40);
    list.set_texture(9);
    list.add_vertex_relative_raw(0xABC);
    let w = list.finish();
    assert_eq!(
        w,
        vec![
            GeometryWrite::BeginVertexList(VERTEX_LIST_QUADS),
            GeometryWrite::VertexColor(0x7FFF),
            GeometryWrite::TextureCoordinate(0xFFFF_FFFF),
            GeometryWrite::CoordinateDouble(0xFFFF_0001),
            GeometryWrite::CoordinateDouble(5),
            GeometryWrite::CoordinateSingle(0x0010_0401),
            GeometryWrite::TextureAttributes(9),
            GeometryWrite::CoordinateRelative(0xABC),
            GeometryWrite::EndVertexList,
        ]
    );
}
