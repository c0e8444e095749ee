use drawy::{exit_request, Key, WindowEvent, WindowSettings};

#[test]
fn default_settings_cap_at_sixty() {
    let s = WindowSettings::default();
    assert_eq!(s.max_fps(), 60);
}

#[test]
fn new_settings_keep_the_cap() {
    let s = WindowSettings::new(144);
    assert_eq!(s.max_fps(), 144);
}

#[test]
fn fast_frame_waits_for_the_rest_of_its_slot() {
    let s = WindowSettings::new(60);
    // a sixty-per-second slot is sixteen milliseconds
    assert_eq!(s.frame_wait_ms(0), 16);
    assert_eq!(s.frame_wait_ms(10), 6);
    assert_eq!(s.frame_wait_ms(16), 0);
}

#[test]
fn slow_frame_does_not_wait() {
    let s = WindowSettings::new(60);
    assert_eq!(s.frame_wait_ms(17), 0);
    assert_eq!(s.frame_wait_ms(1000), 0);
}

#[test]
fn uncapped_window_never_waits() {
    let s = WindowSettings::new(0);
    assert_eq!(s.frame_wait_ms(0), 0);
    assert_eq!(s.frame_wait_ms(5), 0);
}

#[test]
fn close_request_exits() {
    assert!(exit_request(&WindowEvent::CloseRequested));
}

#[test]
fn escape_key_exits() {
    assert!(exit_request(&WindowEvent::KeyboardInput { key: Some(Key::Escape) }));
}

#[test]
fn other_key_does_not_exit() {
    assert!(!exit_request(&WindowEvent::KeyboardInput { key: Some(Key::Other) }));
}

#[test]
fn unrelated_event_does_not_exit() {
    assert!(!exit_request(&WindowEvent::Other));
}
