use embedder::mouse_button_tracker::apply_button_events;
use embedder::mouse_button_tracker::ButtonEvent;
use embedder::mouse_button_tracker::BTN_BACK;
use embedder::mouse_button_tracker::BTN_FORWARD;
use embedder::mouse_button_tracker::BTN_LEFT;
use embedder::mouse_button_tracker::BTN_MIDDLE;
use embedder::mouse_button_tracker::BTN_RIGHT;
use embedder::mouse_button_tracker::MouseButtonTracker;

#[test]
fn tracker_starts_empty() {
    let t = MouseButtonTracker::new();
    assert_eq!(t.get_flutter_button_bitmask(), 0);
    assert!(!t.are_any_buttons_pressed());
}

#[test]
fn bitmask_matches_pressed_set_exactly() {
    let mut t = MouseButtonTracker::new();
    assert_eq!(t.press(BTN_LEFT), Ok(()));
    assert_eq!(t.get_flutter_button_bitmask(), 1);
    assert_eq!(t.press(BTN_RIGHT), Ok(()));
    assert_eq!(t.get_flutter_button_bitmask(), 3);
    assert_eq!(t.press(BTN_MIDDLE), Ok(()));
    assert_eq!(t.get_flutter_button_bitmask(), 7);
    assert_eq!(t.release(BTN_LEFT), Ok(()));
    assert_eq!(t.get_flutter_button_bitmask(), 6);
    assert_eq!(t.release(BTN_MIDDLE), Ok(()));
    assert_eq!(t.get_flutter_button_bitmask(), 2);
    assert_eq!(t.release(BTN_RIGHT), Ok(()));
    assert_eq!(t.get_flutter_button_bitmask(), 0);
    assert!(!t.are_any_buttons_pressed());
}

#[test]
fn side_buttons_have_their_own_flags() {
    let mut t = MouseButtonTracker::new();
    assert_eq!(t.press(BTN_BACK), Ok(()));
    assert_eq!(t.get_flutter_button_bitmask(), 8);
    assert_eq!(t.press(BTN_FORWARD), Ok(()));
    assert_eq!(t.get_flutter_button_bitmask(), 24);
}

#[test]
fn unknown_button_is_rejected_and_ignored() {
    let mut t = MouseButtonTracker::new();
    assert_eq!(t.press(0x118), Err(()));
    assert_eq!(t.get_flutter_button_bitmask(), 0);
    assert!(!t.are_any_buttons_pressed());
    assert_eq!(t.release(0x118), Err(()));
    assert_eq!(t.get_flutter_button_bitmask(), 0);
}

#[test]
fn release_of_button_not_down_changes_nothing() {
    let mut t = MouseButtonTracker::new();
    assert_eq!(t.press(BTN_LEFT), Ok(()));
    assert_eq!(t.release(BTN_RIGHT), Ok(()));
    assert_eq!(t.get_flutter_button_bitmask(), 1);
    assert!(t.are_any_buttons_pressed());
}

#[test]
fn event_sequence_leaves_exactly_the_down_buttons() {
    let mut t = MouseButtonTracker::new();
    let events = vec![
        ButtonEvent::Press { code: BTN_LEFT },
        ButtonEvent::Press { code: BTN_RIGHT },
        ButtonEvent::Release { code: BTN_LEFT },
        ButtonEvent::Press { code: BTN_MIDDLE },
        ButtonEvent::Release { code: 0x118 },
    ];
    apply_button_events(&mut t, &events);
    // Right and middle are down, left was released, 0x118 is not tracked.
    assert_eq!(t.get_flutter_button_bitmask(), 6);
    assert!(t.are_any_buttons_pressed());
}

#[test]
fn double_press_keeps_set_semantics() {
    let mut t = MouseButtonTracker::new();
    assert_eq!(t.press(BTN_LEFT), Ok(()));
    assert_eq!(t.press(BTN_LEFT), Ok(()));
    assert_eq!(t.get_flutter_button_bitmask(), 1);
    assert_eq!(t.release(BTN_LEFT), Ok(()));
    assert_eq!(t.get_flutter_button_bitmask(), 0);
}
