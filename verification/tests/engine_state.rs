use renderer::axis::{AXIS_DOWN, AXIS_IDLE, AXIS_UP};
use renderer::engine_state::{keyboard_command, ExternalState, GraphicsLevel};
use renderer::input::KeyboardState;

#[test]
fn default_state() {
    let s = ExternalState::default();
    assert_eq!(s.screen_size(), (1, 1));
    assert_eq!(s.frame_idx(), 0);
    assert!(s.is_stable_updated());
    assert_eq!(s.debug_mode(), None);
    assert_eq!(s.graphics_level(), GraphicsLevel::Medium);
    assert_eq!(s.mouse_viewport_position_px(), (0, 0));
    assert_eq!(GraphicsLevel::default(), GraphicsLevel::Medium);
}

#[test]
fn settings_changes_are_flagged_until_dismissal() {
    let mut s = ExternalState::default();
    s.dismiss_events();
    assert!(!s.is_stable_updated());
    s.set_screen_size((800, 600));
    assert!(s.is_stable_updated());
    assert_eq!(s.screen_size(), (800, 600));
    s.dismiss_events();
    assert!(!s.is_stable_updated());
    s.set_graphics_level(GraphicsLevel::Ultra);
    assert!(s.is_stable_updated());
    assert_eq!(s.graphics_level(), GraphicsLevel::Ultra);
    s.dismiss_events();
    s.set_debug_mode(Some(3));
    assert!(s.is_stable_updated());
    assert_eq!(s.debug_mode(), Some(3));
}

#[test]
fn viewport_position_flips_the_vertical_axis() {
    let mut s = ExternalState::default();
    s.set_screen_size((800, 600));
    s.mouse_mut().canvas_position_px = (10, 20);
    s.update_derived_state();
    assert_eq!(s.mouse_viewport_position_px(), (10, 580));
    s.mouse_mut().canvas_position_px = (-5, 700);
    s.tick();
    assert_eq!(s.mouse_viewport_position_px(), (-5, -100));
}

#[test]
fn viewport_uses_the_height_read_as_i32() {
    let mut s = ExternalState::default();
    s.set_screen_size((1, u32::MAX));
    s.mouse_mut().canvas_position_px = (0, 0);
    s.update_derived_state();
    assert_eq!(s.mouse_viewport_position_px(), (0, -1));
}

#[test]
fn frame_counter() {
    let mut s = ExternalState::default();
    s.tick();
    s.tick();
    s.tick();
    assert_eq!(s.frame_idx(), 3);
    s.override_time(41);
    assert_eq!(s.frame_idx(), 41);
    s.tick();
    assert_eq!(s.frame_idx(), 42);
    s.reset();
    assert_eq!(s.frame_idx(), 0);
}

#[test]
fn dismiss_events_clears_released_input() {
    let mut s = ExternalState::default();
    s.mouse_mut().up_right();
    s.keyboard_mut().up_a();
    s.keyboard_mut().down_b();
    assert_eq!(s.mouse().right(), AXIS_UP);
    s.dismiss_events();
    assert_eq!(s.mouse().right(), AXIS_IDLE);
    assert_eq!(s.keyboard().a(), AXIS_IDLE);
    assert_eq!(s.keyboard().b(), AXIS_DOWN);
}

#[test]
fn data_copies_the_state() {
    let mut s = ExternalState::default();
    s.set_screen_size((640, 480));
    s.set_debug_mode(Some(2));
    s.keyboard_mut().down_z();
    s.tick();
    let d = s.data();
    assert_eq!(d.frame_idx, 1);
    assert_eq!(d.screen_size, (640, 480));
    assert_eq!(d.debug_mode, Some(2));
    assert_eq!(d.graphics_level, GraphicsLevel::Medium);
    assert_eq!(d.keyboard.z(), AXIS_DOWN);
    assert_eq!(d.mouse.left(), AXIS_IDLE);
}

#[test]
fn digits_with_ctrl_select_debug_modes() {
    let mut k = KeyboardState::default();
    k.up_d3();
    k.up_d5();
    let c = keyboard_command(&k, false);
    assert!(c.debug_modes.is_empty());
    k.ctrl = true;
    let c = keyboard_command(&k, false);
    assert_eq!(c.debug_modes, vec![3, 5]);
    assert!(!c.clear_debug_mode);
    let mut s = ExternalState::default();
    s.dismiss_events();
    s.apply_debug_shortcuts(c.clear_debug_mode, &c.debug_modes);
    assert_eq!(s.debug_mode(), Some(5));
    assert!(s.is_stable_updated());
}

#[test]
fn backquote_with_ctrl_leaves_debug_mode() {
    let mut k = KeyboardState::default();
    k.ctrl = true;
    k.up_backquote();
    let c = keyboard_command(&k, true);
    assert!(c.clear_debug_mode);
    assert!(c.debug_modes.is_empty());
    let mut s = ExternalState::default();
    s.set_debug_mode(Some(1));
    s.apply_debug_shortcuts(c.clear_debug_mode, &c.debug_modes);
    assert_eq!(s.debug_mode(), None);
    k.up_d7();
    let c = keyboard_command(&k, true);
    s.apply_debug_shortcuts(c.clear_debug_mode, &c.debug_modes);
    assert_eq!(s.debug_mode(), Some(7));
}

#[test]
fn no_shortcut_leaves_debug_mode_alone() {
    let mut s = ExternalState::default();
    s.set_debug_mode(Some(4));
    s.dismiss_events();
    s.apply_debug_shortcuts(false, &Vec::new());
    assert_eq!(s.debug_mode(), Some(4));
    assert!(!s.is_stable_updated());
}

#[test]
fn playback_toggle_needs_debug_mode() {
    let mut k = KeyboardState::default();
    k.up_m();
    assert!(!keyboard_command(&k, false).toggle_playback);
    assert!(keyboard_command(&k, true).toggle_playback);
    k.down_m();
    assert!(!keyboard_command(&k, true).toggle_playback);
}

#[test]
fn playback_steps_on_release_or_shift_hold() {
    let mut k = KeyboardState::default();
    let c = keyboard_command(&k, false);
    assert!(!c.play_back && !c.play_forward);
    k.down_comma();
    assert!(!keyboard_command(&k, false).play_back);
    k.shift = true;
    assert!(keyboard_command(&k, false).play_back);
    assert!(!keyboard_command(&k, false).play_forward);
    k.shift = false;
    k.up_dot();
    let c = keyboard_command(&k, false);
    assert!(c.play_forward);
    assert!(!c.play_back);
    assert!(!c.toggle_playback);
}
