use shader_view::constants::{Scalar, ShaderConstants};
use shader_view::frame::{button_mask, ButtonEvents};

fn s(x: f32) -> Scalar {
    Scalar::from_bits(x.to_bits())
}

fn f(x: Scalar) -> f32 {
    f32::from_bits(x.to_bits())
}

fn minus(a: Scalar, b: Scalar) -> Scalar {
    s(f(a) - f(b))
}

fn frame(c: &mut ShaderConstants, drag: (f32, f32), size: (u32, u32), time: f32, cursor: (f32, f32), pressed: u32, released: u32) {
    c.on_input(
        (s(drag.0), s(drag.1)),
        size,
        s(time),
        Some((s(cursor.0), s(cursor.1))),
        ButtonEvents { pressed, released },
        minus,
    );
}

#[test]
fn translation_accumulates_against_the_drag() {
    let mut c = ShaderConstants::initial();
    assert_eq!((f(c.translate_x), f(c.translate_y)), (0.0, 0.0));
    frame(&mut c, (5.0, 0.0), (400, 400), 0.0, (0.0, 0.0), 0, 0);
    assert_eq!((f(c.translate_x), f(c.translate_y)), (-5.0, 0.0));
    frame(&mut c, (-2.0, 3.0), (400, 400), 0.0, (0.0, 0.0), 0, 0);
    assert_eq!((f(c.translate_x), f(c.translate_y)), (-3.0, -3.0));
    frame(&mut c, (0.0, -1.0), (400, 400), 0.0, (0.0, 0.0), 0, 0);
    assert_eq!((f(c.translate_x), f(c.translate_y)), (-3.0, -2.0));
}

#[test]
fn difference_gets_the_old_translation_first() {
    let mut c = ShaderConstants::initial();
    c.translate_x = Scalar::from_bits(100);
    c.translate_y = Scalar::from_bits(200);
    c.on_input(
        (Scalar::from_bits(1), Scalar::from_bits(2)),
        (1, 1),
        Scalar::zero(),
        Some((Scalar::zero(), Scalar::zero())),
        ButtonEvents::none(),
        |a: Scalar, b: Scalar| Scalar::from_bits(a.to_bits() * 1000 + b.to_bits()),
    );
    assert_eq!(c.translate_x.to_bits(), 100_001);
    assert_eq!(c.translate_y.to_bits(), 200_002);
}

#[test]
fn viewport_resize_shows_in_the_next_frame() {
    let mut c = ShaderConstants::initial();
    frame(&mut c, (0.0, 0.0), (400, 400), 0.0, (0.0, 0.0), 0, 0);
    assert_eq!((c.width, c.height), (400, 400));
    frame(&mut c, (0.0, 0.0), (800, 600), 0.0, (0.0, 0.0), 0, 0);
    assert_eq!((c.width, c.height), (800, 600));
}

#[test]
fn viewport_is_tracked_in_every_frame() {
    let mut c = ShaderConstants::initial();
    for size in [(1, 1), (0, 0), (1920, 1080), (1920, 1080), (u32::MAX, 7)] {
        frame(&mut c, (0.0, 0.0), size, 0.0, (0.0, 0.0), 0, 0);
        assert_eq!((c.width, c.height), size);
    }
}

#[test]
fn time_and_cursor_are_taken_over() {
    let mut c = ShaderConstants::initial();
    frame(&mut c, (0.0, 0.0), (400, 400), 1.5, (12.0, 34.0), 0, 0);
    assert_eq!(f(c.time), 1.5);
    assert_eq!((f(c.cursor_x), f(c.cursor_y)), (12.0, 34.0));
    assert_eq!(f(c.zoom), 1.0);
}

#[test]
fn zoom_is_left_alone() {
    let mut c = ShaderConstants::initial();
    c.zoom = s(2.5);
    frame(&mut c, (1.0, 1.0), (10, 10), 1.0, (1.0, 1.0), 0b111, 0);
    assert_eq!(f(c.zoom), 2.5);
}

#[test]
fn drag_start_latches_and_drag_end_follows() {
    let mut c = ShaderConstants::initial();
    // No button: the cursor moves, the drag ends stay.
    frame(&mut c, (0.0, 0.0), (400, 400), 0.0, (3.0, 4.0), 0, 0);
    assert_eq!((f(c.drag_start_x), f(c.drag_start_y)), (0.0, 0.0));
    assert_eq!((f(c.drag_end_x), f(c.drag_end_y)), (0.0, 0.0));
    // The primary button goes down: both ends are at the cursor.
    frame(&mut c, (0.0, 0.0), (400, 400), 1.0, (10.0, 20.0), 1, 0);
    assert_eq!((f(c.drag_start_x), f(c.drag_start_y)), (10.0, 20.0));
    assert_eq!((f(c.drag_end_x), f(c.drag_end_y)), (10.0, 20.0));
    // Held: the start holds, the end follows.
    frame(&mut c, (5.0, 5.0), (400, 400), 2.0, (15.0, 25.0), 0, 0);
    assert_eq!((f(c.drag_start_x), f(c.drag_start_y)), (10.0, 20.0));
    assert_eq!((f(c.drag_end_x), f(c.drag_end_y)), (15.0, 25.0));
    // Held, and pressed reported again: no new drag.
    frame(&mut c, (1.0, 1.0), (400, 400), 3.0, (16.0, 26.0), 1, 0);
    assert_eq!((f(c.drag_start_x), f(c.drag_start_y)), (10.0, 20.0));
    assert_eq!((f(c.drag_end_x), f(c.drag_end_y)), (16.0, 26.0));
    // Released in this frame: the end still follows, then the button is up.
    frame(&mut c, (1.0, 1.0), (400, 400), 4.0, (17.0, 27.0), 0, 1);
    assert_eq!((f(c.drag_end_x), f(c.drag_end_y)), (17.0, 27.0));
    assert_eq!(c.mouse_button_pressed, 0);
    // Up: nothing moves.
    frame(&mut c, (0.0, 0.0), (400, 400), 5.0, (50.0, 60.0), 0, 0);
    assert_eq!((f(c.drag_start_x), f(c.drag_start_y)), (10.0, 20.0));
    assert_eq!((f(c.drag_end_x), f(c.drag_end_y)), (17.0, 27.0));
    // A new drag resets both.
    frame(&mut c, (0.0, 0.0), (400, 400), 6.0, (70.0, 80.0), 1, 0);
    assert_eq!((f(c.drag_start_x), f(c.drag_start_y)), (70.0, 80.0));
    assert_eq!((f(c.drag_end_x), f(c.drag_end_y)), (70.0, 80.0));
}

#[test]
fn other_buttons_begin_no_drag() {
    let mut c = ShaderConstants::initial();
    frame(&mut c, (0.0, 0.0), (400, 400), 1.0, (10.0, 20.0), 0b110, 0);
    assert_eq!((f(c.drag_start_x), f(c.drag_start_y)), (0.0, 0.0));
    assert_eq!((f(c.drag_end_x), f(c.drag_end_y)), (0.0, 0.0));
    assert_eq!(c.mouse_button_pressed, 0b110);
}

#[test]
fn press_time_is_set_on_the_press_transition_only() {
    let mut c = ShaderConstants::initial();
    frame(&mut c, (0.0, 0.0), (400, 400), 1.25, (0.0, 0.0), 0b010, 0);
    assert_eq!(c.mouse_button_pressed, 0b010);
    assert_eq!(c.mouse_button_press_time, [s(0.0), s(1.25), s(0.0)]);
    // Held: no update.
    frame(&mut c, (0.0, 0.0), (400, 400), 2.0, (0.0, 0.0), 0, 0);
    assert_eq!(c.mouse_button_press_time, [s(0.0), s(1.25), s(0.0)]);
    // Held and reported pressed again: no transition, no update.
    frame(&mut c, (0.0, 0.0), (400, 400), 2.5, (0.0, 0.0), 0b010, 0);
    assert_eq!(c.mouse_button_press_time, [s(0.0), s(1.25), s(0.0)]);
    // Released: no update.
    frame(&mut c, (0.0, 0.0), (400, 400), 3.0, (0.0, 0.0), 0, 0b010);
    assert_eq!(c.mouse_button_pressed, 0);
    assert_eq!(c.mouse_button_press_time, [s(0.0), s(1.25), s(0.0)]);
    // Two others go down together.
    frame(&mut c, (0.0, 0.0), (400, 400), 4.0, (0.0, 0.0), 0b101, 0);
    assert_eq!(c.mouse_button_pressed, 0b101);
    assert_eq!(c.mouse_button_press_time, [s(4.0), s(1.25), s(4.0)]);
}

#[test]
fn press_and_release_within_one_frame() {
    let mut c = ShaderConstants::initial();
    frame(&mut c, (0.0, 0.0), (400, 400), 7.0, (1.0, 2.0), 0b001, 0b001);
    assert_eq!(c.mouse_button_pressed, 0);
    assert_eq!(c.mouse_button_press_time, [s(7.0), s(0.0), s(0.0)]);
    assert_eq!((f(c.drag_start_x), f(c.drag_start_y)), (1.0, 2.0));
}

#[test]
fn no_events_change_no_button() {
    let e = ButtonEvents::none();
    assert_eq!(e, ButtonEvents { pressed: 0, released: 0 });
    let mut c = ShaderConstants::initial();
    c.mouse_button_pressed = 0b011;
    c.on_input((s(0.0), s(0.0)), (1, 1), s(9.0), Some((s(0.0), s(0.0))), e, minus);
    assert_eq!(c.mouse_button_pressed, 0b011);
    assert_eq!(c.mouse_button_press_time, [s(0.0), s(0.0), s(0.0)]);
}

#[test]
fn cursor_stays_while_the_pointer_is_away() {
    let mut c = ShaderConstants::initial();
    frame(&mut c, (0.0, 0.0), (400, 400), 1.0, (12.0, 34.0), 0, 0);
    c.on_input((s(0.0), s(0.0)), (400, 400), s(2.0), None, ButtonEvents::none(), minus);
    assert_eq!((f(c.cursor_x), f(c.cursor_y)), (12.0, 34.0));
    assert_eq!(f(c.time), 2.0);
    // A drag that begins while the pointer is away begins where the cursor was.
    c.on_input(
        (s(0.0), s(0.0)),
        (400, 400),
        s(3.0),
        None,
        ButtonEvents {
            pressed: 1,
            released: 0,
        },
        minus,
    );
    assert_eq!((f(c.drag_start_x), f(c.drag_start_y)), (12.0, 34.0));
    assert_eq!((f(c.drag_end_x), f(c.drag_end_y)), (12.0, 34.0));
}

#[test]
fn button_mask_sets_one_bit_for_each_button() {
    assert_eq!(button_mask(false, false, false), 0b000);
    assert_eq!(button_mask(true, false, false), 0b001);
    assert_eq!(button_mask(false, true, false), 0b010);
    assert_eq!(button_mask(false, false, true), 0b100);
    assert_eq!(button_mask(true, true, true), 0b111);
    assert_eq!(button_mask(true, false, true), 0b101);
}
