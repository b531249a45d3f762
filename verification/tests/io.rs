use gl2d::draw_list::{DrawContext, DrawList, ScreenSize, Vec2, Vec4, Vert};
use gl2d::io::Io;
use gl2d::scalar::Scalar;

fn s(x: f32) -> Scalar {
    Scalar::from_bits(x.to_bits())
}

#[test]
fn new_io_is_at_rest() {
    let io = Io::new();
    assert_eq!(io.screen_size, ScreenSize { x: 1, y: 1 });
    assert_eq!(io.pixel_ratio, s(1.0));
    assert_eq!(io.mouse, Vec2::new(s(0.0), s(0.0)));
    assert_eq!(io.wheel, Vec2::new(s(0.0), s(0.0)));
    assert_eq!(io.wheel_pinch, s(0.0));
    assert_eq!(io.wheel_x(), s(0.0));
    assert_eq!(io.wheel_y(), s(0.0));
    assert_eq!(io.pinch(), s(0.0));
    assert_eq!(io.mouse_x(), s(0.0));
    assert_eq!(io.mouse_y(), s(0.0));
}

#[test]
fn setters_change_one_field_each() {
    let mut io = Io::new();
    io.set_wheel_x(s(1.0));
    io.set_wheel_y(s(2.0));
    io.set_pinch(s(3.0));
    io.set_mouse_x(s(4.0));
    io.set_mouse_y(s(5.0));
    assert_eq!(io.wheel_x(), s(1.0));
    assert_eq!(io.wheel_y(), s(2.0));
    assert_eq!(io.pinch(), s(3.0));
    assert_eq!(io.mouse_x(), s(4.0));
    assert_eq!(io.mouse_y(), s(5.0));
    assert_eq!(io.screen_size, ScreenSize { x: 1, y: 1 });
    assert_eq!(io.pixel_ratio, s(1.0));
}

#[test]
fn set_screen_size_sets_size_and_pixel_ratio() {
    let mut io = Io::new();
    io.set_mouse_x(s(7.0));
    io.set_screen_size(800, 600, s(2.0));
    assert_eq!(io.screen_size, ScreenSize { x: 800, y: 600 });
    assert_eq!(io.pixel_ratio, s(2.0));
    assert_eq!(io.mouse_x(), s(7.0));
}

#[test]
fn reset_zeroes_the_deltas_and_keeps_the_rest() {
    let mut io = Io::new();
    io.set_wheel_x(s(1.0));
    io.set_wheel_y(s(-2.0));
    io.set_pinch(s(3.0));
    io.set_mouse_x(s(4.0));
    io.set_mouse_y(s(5.0));
    io.set_screen_size(800, 600, s(2.0));
    io.reset();
    assert_eq!(io.wheel_x(), s(0.0));
    assert_eq!(io.wheel_y(), s(0.0));
    assert_eq!(io.pinch(), s(0.0));
    assert_eq!(io.mouse_x(), s(4.0));
    assert_eq!(io.mouse_y(), s(5.0));
    assert_eq!(io.screen_size, ScreenSize { x: 800, y: 600 });
    assert_eq!(io.pixel_ratio, s(2.0));
    let once = io;
    io.reset();
    assert_eq!(io, once);
}

#[test]
fn new_context_has_unit_camera_and_white_background() {
    let ctx = DrawContext::new(ScreenSize { x: 1000, y: 500 });
    assert_eq!(ctx.screen_size, ScreenSize { x: 1000, y: 500 });
    assert_eq!(ctx.pixel_ratio, s(1.0));
    assert_eq!(ctx.translate, Vec2::new(s(0.0), s(0.0)));
    assert_eq!(ctx.scale, s(1.0));
    assert_eq!(ctx.bg_color, Vec4::new(s(1.0), s(1.0), s(1.0), s(1.0)));
}

#[test]
fn room_is_limited_by_index_width_and_buffer_length() {
    let mut list = DrawList::new();
    assert!(list.has_room(0, 0));
    assert!(list.has_room(4, 2));
    assert!(list.has_room(u32::MAX as usize, 0));
    assert!(list.has_room(0, usize::MAX / 3));
    assert!(!list.has_room(0, usize::MAX / 3 + 1));
    assert!(!list.has_room(0, usize::MAX));
    if usize::BITS > 32 {
        assert!(!list.has_room(u32::MAX as usize + 1, 0));
    }
    let col = Vec4::new(s(1.0), s(1.0), s(1.0), s(1.0));
    let a = list.push_vert(Vert::fill(s(0.0), s(0.0), col));
    list.push_elem(a, a, a);
    assert!(list.has_room(u32::MAX as usize - 1, 0));
    assert!(!list.has_room(u32::MAX as usize, 0));
    assert!(list.has_room(0, (usize::MAX - 3) / 3));
    assert!(!list.has_room(0, (usize::MAX - 3) / 3 + 1));
}
