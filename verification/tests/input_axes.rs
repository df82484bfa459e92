use renderer::axis::{is_negative, is_positive, AXIS_DOWN, AXIS_IDLE, AXIS_UP};
use renderer::input::{KeyboardState, MouseState};

#[test]
fn axis_constants_are_the_binary32_encodings() {
    assert_eq!(AXIS_DOWN, 1.0f32.to_bits());
    assert_eq!(AXIS_UP, (-1.0f32).to_bits());
    assert_eq!(AXIS_IDLE, 0.0f32.to_bits());
}

#[test]
fn sign_tests_agree_with_float_comparison() {
    let samples = [
        0.0f32,
        -0.0,
        1.0,
        -1.0,
        0.5,
        -0.25,
        f32::MIN_POSITIVE,
        -f32::MIN_POSITIVE,
        f32::from_bits(1),
        f32::from_bits(0x8000_0001),
        f32::MAX,
        f32::MIN,
        f32::INFINITY,
        f32::NEG_INFINITY,
        f32::NAN,
        -f32::NAN,
    ];
    for v in samples {
        assert_eq!(is_negative(v.to_bits()), v < 0.0, "{:?}", v);
        assert_eq!(is_positive(v.to_bits()), v > 0.0, "{:?}", v);
    }
}

#[test]
fn mouse_default_is_idle() {
    let m = MouseState::default();
    assert_eq!(m.left(), AXIS_IDLE);
    assert_eq!(m.right(), AXIS_IDLE);
    assert_eq!(m.pending_releases(), 0);
    assert_eq!(m.canvas_position_px(), (0, 0));
    assert_eq!(m.wheel, (0, 0));
}

#[test]
fn mouse_release_lasts_one_frame() {
    let mut m = MouseState::default();
    m.down_left();
    assert_eq!(m.left(), AXIS_DOWN);
    assert_eq!(m.pending_releases(), 0);
    m.up_left();
    assert_eq!(f32::from_bits(m.left()), -1.0);
    assert_eq!(m.pending_releases(), 1);
    m.dismiss();
    assert_eq!(m.left(), AXIS_IDLE);
    assert_eq!(m.pending_releases(), 0);
}

#[test]
fn mouse_buttons_share_the_first_axis() {
    let mut m = MouseState::default();
    assert_eq!(m.raw_idx_left(), 0);
    assert_eq!(m.raw_idx_middle(), 0);
    assert_eq!(m.raw_idx_right(), 0);
    m.set_right(0.75f32.to_bits());
    assert_eq!(f32::from_bits(m.left()), 0.75);
    assert_eq!(f32::from_bits(m.middle()), 0.75);
}

#[test]
fn held_button_survives_dismissal() {
    let mut m = MouseState::default();
    m.down_right();
    m.dismiss();
    assert_eq!(m.right(), AXIS_DOWN);
}

#[test]
fn release_then_press_in_one_frame_is_cleared() {
    let mut m = MouseState::default();
    m.up_left();
    m.down_left();
    assert_eq!(m.left(), AXIS_DOWN);
    m.dismiss();
    assert_eq!(m.left(), AXIS_IDLE);
}

#[test]
fn set_button_queues_only_negative_values() {
    let mut m = MouseState::default();
    m.set_button(5, (-0.0f32).to_bits());
    assert_eq!(m.pending_releases(), 0);
    m.set_button(5, f32::NAN.to_bits());
    assert_eq!(m.pending_releases(), 0);
    m.set_button(5, (-2.5f32).to_bits());
    m.set_button(7, (-1.0f32).to_bits());
    assert_eq!(m.pending_releases(), 2);
    m.set_button(3, 4.0f32.to_bits());
    m.dismiss();
    assert_eq!(m.pending_releases(), 0);
    let mut probe = m;
    probe.set_button(0, 0);
    assert_eq!(probe.pending_releases(), 0);
}

#[test]
fn mouse_queue_holds_ten_releases_per_frame() {
    let mut m = MouseState::default();
    for _ in 0..10 {
        m.up_left();
    }
    assert_eq!(m.pending_releases(), 10);
    m.dismiss();
    assert_eq!(m.pending_releases(), 0);
    m.up_left();
    assert_eq!(m.pending_releases(), 1);
}

#[test]
fn keyboard_keys_map_to_their_axes() {
    let mut k = KeyboardState::default();
    assert_eq!(k.raw_idx_a(), 0);
    assert_eq!(k.raw_idx_m(), 12);
    assert_eq!(k.raw_idx_z(), 25);
    assert_eq!(k.raw_idx_d0(), 0);
    assert_eq!(k.raw_idx_d9(), 9);
    assert_eq!(k.raw_idx_backquote(), 0);
    assert_eq!(k.raw_idx_comma(), 1);
    assert_eq!(k.raw_idx_dot(), 2);
    assert_eq!(k.raw_idx_bracket_left(), 3);
    assert_eq!(k.raw_idx_bracket_right(), 4);
    k.set_letter(12, (-1.0f32).to_bits());
    assert_eq!(f32::from_bits(k.m()), -1.0);
    k.set_digit(4, 1.0f32.to_bits());
    assert_eq!(k.d4(), AXIS_DOWN);
    k.set_punctuation(2, 0.5f32.to_bits());
    assert_eq!(f32::from_bits(k.dot()), 0.5);
    k.set_fkey(11, (-1.0f32).to_bits());
    assert_eq!(k.pending_releases(), (1, 0, 0, 1));
}

#[test]
fn keyboard_dismiss_clears_every_bank() {
    let mut k = KeyboardState::default();
    k.up_q();
    k.up_d3();
    k.up_comma();
    k.set_fkey(0, (-1.0f32).to_bits());
    k.down_w();
    assert_eq!(k.pending_releases(), (1, 1, 1, 1));
    k.dismiss();
    assert_eq!(k.pending_releases(), (0, 0, 0, 0));
    assert_eq!(k.q(), AXIS_IDLE);
    assert_eq!(k.d3(), AXIS_IDLE);
    assert_eq!(k.comma(), AXIS_IDLE);
    assert_eq!(k.w(), AXIS_DOWN);
    assert_eq!(k.digit_value(3), AXIS_IDLE);
}

#[test]
fn modifier_flags_are_plain_fields() {
    let mut k = KeyboardState::default();
    assert!(!k.shift() && !k.ctrl() && !k.alt);
    k.shift = true;
    k.ctrl = true;
    assert!(k.shift());
    assert!(k.ctrl());
}

#[test]
fn dismissing_twice_is_dismissing_once() {
    let mut k = KeyboardState::default();
    k.up_e();
    k.down_f();
    k.set_g((-3.0f32).to_bits());
    k.dismiss();
    let once = (k.e(), k.f(), k.g(), k.pending_releases());
    k.dismiss();
    assert_eq!((k.e(), k.f(), k.g(), k.pending_releases()), once);
    assert_eq!(once, (AXIS_IDLE, AXIS_DOWN, AXIS_IDLE, (0, 0, 0, 0)));
}
