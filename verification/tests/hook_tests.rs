use osd_bubble::hook::{key_to_string, Button, EventType, Key, KeyTracker};
use osd_bubble::state_machine::EventCategory;

#[test]
fn test_key_tracker_new() {
    let tracker = KeyTracker::new(12_345);
    assert_eq!(tracker.last_press_ms, 12_345);
    assert!(!tracker.ctrl);
    assert!(!tracker.shift);
    assert!(!tracker.alt);
    assert!(!tracker.win);
    assert_eq!(tracker.repeat_count, 1);
    assert!(tracker.last_main_key.is_none());
}

#[test]
fn test_is_modifier() {
    let tracker = KeyTracker::new(0);
    assert!(tracker.is_modifier(Key::ControlLeft));
    assert!(tracker.is_modifier(Key::ControlRight));
    assert!(tracker.is_modifier(Key::ShiftLeft));
    assert!(tracker.is_modifier(Key::ShiftRight));
    assert!(tracker.is_modifier(Key::Alt));
    assert!(tracker.is_modifier(Key::MetaLeft));
    // Tab and Escape are not modifiers
    assert!(!tracker.is_modifier(Key::Tab));
    assert!(!tracker.is_modifier(Key::Escape));
}

#[test]
fn test_set_modifier() {
    let mut tracker = KeyTracker::new(0);

    tracker.set_modifier(Key::ControlLeft, true);
    assert!(tracker.ctrl);
    assert!(!tracker.shift);
    assert!(!tracker.alt);
    assert!(!tracker.win);

    tracker.set_modifier(Key::ControlLeft, false);
    assert!(!tracker.ctrl);
}

#[test]
fn test_format_current_with_no_modifiers_and_no_key() {
    let tracker = KeyTracker::new(0);
    let result = tracker.format_current(None);
    assert!(result.is_empty());
}

#[test]
fn test_format_current_with_single_key() {
    let tracker = KeyTracker::new(0);
    let result = tracker.format_current(Some("A"));
    assert_eq!(result, vec!["A"]);
}

#[test]
fn test_format_current_with_ctrl_and_key() {
    let mut tracker = KeyTracker::new(0);
    tracker.ctrl = true;
    let result = tracker.format_current(Some("A"));
    assert_eq!(result, vec!["Ctrl", "A"]);
}

#[test]
fn test_format_current_with_repeat_count() {
    let mut tracker = KeyTracker::new(0);
    tracker.repeat_count = 3;
    let result = tracker.format_current(Some("A"));
    assert_eq!(result, vec!["A", "×3"]);
}

#[test]
fn test_format_current_all_modifiers() {
    let mut tracker = KeyTracker::new(0);
    tracker.ctrl = true;
    tracker.shift = true;
    tracker.alt = true;
    tracker.win = true;
    let result = tracker.format_current(Some("A"));
    assert_eq!(result, vec!["Ctrl", "Win", "Alt", "Shift", "A"]);
}

#[test]
fn test_key_to_string_arrow_keys() {
    assert_eq!(key_to_string(Key::UpArrow), "↑");
    assert_eq!(key_to_string(Key::DownArrow), "↓");
    assert_eq!(key_to_string(Key::LeftArrow), "←");
    assert_eq!(key_to_string(Key::RightArrow), "→");
}

#[test]
fn test_key_to_string_special_keys() {
    assert_eq!(key_to_string(Key::Escape), "Esc");
    assert_eq!(key_to_string(Key::Return), "Enter");
    assert_eq!(key_to_string(Key::Space), "Space");
    assert_eq!(key_to_string(Key::Backspace), "Backspace");
    assert_eq!(key_to_string(Key::Tab), "Tab");
    assert_eq!(key_to_string(Key::Delete), "Del");
}

#[test]
fn test_key_to_string_numbers() {
    assert_eq!(key_to_string(Key::Num0), "0");
    assert_eq!(key_to_string(Key::Num5), "5");
    assert_eq!(key_to_string(Key::Num9), "9");
}

#[test]
fn test_key_to_string_f_keys() {
    assert_eq!(key_to_string(Key::F1), "F1");
    assert_eq!(key_to_string(Key::F12), "F12");
}

#[test]
fn test_button_to_string() {
    assert_eq!(button_to_string(Button::Left), "LeftClick");
    assert_eq!(button_to_string(Button::Right), "RightClick");
    assert_eq!(button_to_string(Button::Middle), "MiddleClick");
}

fn button_to_string(button: Button) -> String {
    match button {
        Button::Left => "LeftClick",
        Button::Right => "RightClick",
        Button::Middle => "MiddleClick",
        _ => return "Unknown".to_string(),
    }
    .to_string()
}

#[test]
fn test_is_shortcut_detection() {
    let mut tracker = KeyTracker::new(0);
    let now = 1_000;

    // A plain A is no shortcut
    let parsed = tracker.update(&EventType::KeyPress(Key::KeyA), now).unwrap();
    assert!(!parsed.is_shortcut);

    // Ctrl is a modifier and counts as a shortcut
    let parsed_ctrl = tracker.update(&EventType::KeyPress(Key::ControlLeft), now + 10).unwrap();
    assert!(parsed_ctrl.is_shortcut);

    // C while Ctrl is held is a shortcut
    let parsed_combo = tracker.update(&EventType::KeyPress(Key::KeyC), now + 20).unwrap();
    assert!(parsed_combo.is_shortcut);
    assert_eq!(parsed_combo.keys, vec!["Ctrl", "C"]);

    // Release Ctrl
    tracker.update(&EventType::KeyRelease(Key::ControlLeft), now + 30);

    // C again is no shortcut
    let parsed_single = tracker.update(&EventType::KeyPress(Key::KeyC), now + 40).unwrap();
    assert!(!parsed_single.is_shortcut);
}

#[test]
fn key_labels_fall_back_to_the_key_name() {
    assert_eq!(key_to_string(Key::KeyA), "A");
    assert_eq!(key_to_string(Key::KpReturn), "KpReturn");
    assert_eq!(key_to_string(Key::Kp7), "7");
    assert_eq!(key_to_string(Key::BackSlash), "\\");
    assert_eq!(key_to_string(Key::CapsLock), "Caps");
    assert_eq!(key_to_string(Key::Unknown(42)), "Unknown(42)");
}

#[test]
fn quick_repeats_merge_into_a_badge() {
    let mut tracker = KeyTracker::new(0);
    let first = tracker.update(&EventType::KeyPress(Key::KeyA), 10_000).unwrap();
    assert_eq!(first.keys, vec!["A"]);
    let second = tracker.update(&EventType::KeyPress(Key::KeyA), 10_300).unwrap();
    assert_eq!(second.keys, vec!["A", "×2"]);
    let third = tracker.update(&EventType::KeyPress(Key::KeyA), 10_700).unwrap();
    assert_eq!(third.keys, vec!["A", "×3"]);
    assert_eq!(tracker.repeat_count, 3);
    // 500 ms or more later the chain starts again
    let late = tracker.update(&EventType::KeyPress(Key::KeyA), 11_200).unwrap();
    assert_eq!(late.keys, vec!["A"]);
    assert_eq!(tracker.repeat_count, 1);
}

#[test]
fn another_key_breaks_the_chain() {
    let mut tracker = KeyTracker::new(0);
    tracker.update(&EventType::KeyPress(Key::KeyA), 10_000);
    tracker.update(&EventType::KeyPress(Key::KeyA), 10_100);
    let b = tracker.update(&EventType::KeyPress(Key::KeyB), 10_200).unwrap();
    assert_eq!(b.keys, vec!["B"]);
    assert_eq!(tracker.repeat_count, 1);
}

#[test]
fn modifier_release_breaks_the_chain() {
    let mut tracker = KeyTracker::new(0);
    tracker.update(&EventType::KeyPress(Key::KeyA), 10_000);
    tracker.update(&EventType::KeyPress(Key::ShiftLeft), 10_050);
    tracker.update(&EventType::KeyRelease(Key::ShiftLeft), 10_100);
    let again = tracker.update(&EventType::KeyPress(Key::KeyA), 10_150).unwrap();
    assert_eq!(again.keys, vec!["A"]);
    assert!(!again.is_shortcut);
}

#[test]
fn long_pause_releases_stuck_modifiers() {
    let mut tracker = KeyTracker::new(0);
    let alt = tracker.update(&EventType::KeyPress(Key::Alt), 10_000).unwrap();
    assert_eq!(alt.keys, vec!["Alt"]);
    // the release of Alt was swallowed; six seconds later Alt counts as up
    let parsed = tracker.update(&EventType::KeyPress(Key::Tab), 16_000).unwrap();
    assert!(!parsed.is_shortcut);
    assert_eq!(parsed.keys, vec!["Tab"]);
    assert!(!tracker.alt);
}

#[test]
fn mouse_and_wheel_events() {
    let mut tracker = KeyTracker::new(0);
    let click = tracker.update(&EventType::ButtonPress(Button::Right), 1_000).unwrap();
    assert_eq!(click.keys, vec!["RightClick"]);
    assert!(click.is_mouse);
    assert_eq!(click.category, EventCategory::Mouse);
    assert!(tracker.update(&EventType::ButtonPress(Button::Unknown(4)), 1_100).is_none());
    let up = tracker.update(&EventType::Wheel { delta_x: 0, delta_y: 1 }, 1_200).unwrap();
    assert_eq!(up.keys, vec!["ScrollUp"]);
    assert_eq!(up.category, EventCategory::Scroll);
    let down = tracker.update(&EventType::Wheel { delta_x: 0, delta_y: -3 }, 1_300).unwrap();
    assert_eq!(down.keys, vec!["ScrollDown"]);
    let down2 = tracker.update(&EventType::Wheel { delta_x: 0, delta_y: -1 }, 1_400).unwrap();
    assert_eq!(down2.keys, vec!["ScrollDown", "×2"]);
    assert!(tracker.update(&EventType::Wheel { delta_x: 5, delta_y: 0 }, 1_500).is_none());
    assert!(tracker.update(&EventType::ButtonRelease(Button::Left), 1_600).is_none());
    assert!(tracker.update(&EventType::MouseMove, 1_700).is_none());
    assert!(tracker.update(&EventType::KeyRelease(Key::KeyA), 1_800).is_none());
}

#[test]
fn modifier_press_shows_held_modifiers() {
    let mut tracker = KeyTracker::new(0);
    tracker.update(&EventType::KeyPress(Key::ControlLeft), 1_000);
    let p = tracker.update(&EventType::KeyPress(Key::MetaRight), 1_010).unwrap();
    assert_eq!(p.keys, vec!["Ctrl", "Win"]);
    assert!(p.is_shortcut);
    assert!(!p.is_mouse);
    assert_eq!(p.category, EventCategory::Keyboard);
    let combo = tracker.update(&EventType::ButtonPress(Button::Left), 1_020).unwrap();
    assert_eq!(combo.keys, vec!["Ctrl", "Win", "LeftClick"]);
    assert!(combo.is_shortcut);
}

#[test]
fn pause_of_more_than_five_seconds_releases_modifiers() {
    let mut tracker = KeyTracker::new(0);
    tracker.update(&EventType::KeyPress(Key::ControlLeft), 10_000);
    // exactly five seconds later Ctrl still counts
    let held = tracker.update(&EventType::KeyPress(Key::KeyA), 15_000).unwrap();
    assert!(held.is_shortcut);
    assert_eq!(held.keys, vec!["Ctrl", "A"]);

    let mut tracker = KeyTracker::new(0);
    tracker.update(&EventType::KeyPress(Key::ControlLeft), 10_000);
    // 5.5 seconds later the swallowed release no longer holds Ctrl
    let parsed = tracker.update(&EventType::KeyPress(Key::KeyA), 15_500).unwrap();
    assert!(!parsed.is_shortcut);
    assert_eq!(parsed.keys, vec!["A"]);
    assert!(!tracker.ctrl && !tracker.shift && !tracker.alt && !tracker.win);
    assert_eq!(tracker.repeat_count, 1);
}

#[test]
fn raises_repeat_only_for_a_quick_repeat() {
    let mut tracker = KeyTracker::new(0);
    assert!(!tracker.raises_repeat(&EventType::KeyPress(Key::KeyA), 100));
    tracker.update(&EventType::KeyPress(Key::KeyA), 100);
    assert!(tracker.raises_repeat(&EventType::KeyPress(Key::KeyA), 599));
    assert!(!tracker.raises_repeat(&EventType::KeyPress(Key::KeyA), 600));
    assert!(!tracker.raises_repeat(&EventType::KeyPress(Key::KeyB), 200));
    assert!(!tracker.raises_repeat(&EventType::KeyPress(Key::ControlLeft), 200));
    assert!(!tracker.raises_repeat(&EventType::KeyRelease(Key::KeyA), 200));

    tracker.update(&EventType::ButtonPress(Button::Left), 1_000);
    assert!(tracker.raises_repeat(&EventType::ButtonPress(Button::Left), 1_200));
    assert!(!tracker.raises_repeat(&EventType::ButtonPress(Button::Right), 1_200));

    tracker.update(&EventType::Wheel { delta_x: 0, delta_y: -1 }, 2_000);
    assert!(tracker.raises_repeat(&EventType::Wheel { delta_x: 0, delta_y: -3 }, 2_100));
    assert!(!tracker.raises_repeat(&EventType::Wheel { delta_x: 0, delta_y: 1 }, 2_100));
    assert!(!tracker.raises_repeat(&EventType::Wheel { delta_x: 0, delta_y: 0 }, 2_100));
}
