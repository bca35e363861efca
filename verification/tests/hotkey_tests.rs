use voxtype::hotkey::{
    handle_auto_hotkey, hotkey_action, hotkey_mode_from_setting, validate_hotkey_text,
    AutoHotkeyState, HotkeyAction, HotkeyMode, ShortcutEvent,
};

#[test]
fn modes_from_settings() {
    assert_eq!(hotkey_mode_from_setting("toggle"), HotkeyMode::Toggle);
    assert_eq!(hotkey_mode_from_setting("auto"), HotkeyMode::Auto);
    assert_eq!(hotkey_mode_from_setting("hold"), HotkeyMode::Hold);
    assert_eq!(hotkey_mode_from_setting("Toggle"), HotkeyMode::Hold);
    assert_eq!(hotkey_mode_from_setting(""), HotkeyMode::Hold);
}

#[test]
fn hotkey_text_validation() {
    assert_eq!(validate_hotkey_text("  F9 "), Ok("F9".to_string()));
    assert_eq!(validate_hotkey_text("   "), Err("快捷键不能为空".to_string()));
    assert_eq!(validate_hotkey_text(""), Err("快捷键不能为空".to_string()));
}

#[test]
fn auto_long_press() {
    let mut s = AutoHotkeyState::new();
    assert_eq!(handle_auto_hotkey(&mut s, ShortcutEvent::Pressed, 1000), HotkeyAction::HoldBegin);
    assert_eq!(handle_auto_hotkey(&mut s, ShortcutEvent::Pressed, 1100), HotkeyAction::Ignore);
    assert_eq!(handle_auto_hotkey(&mut s, ShortcutEvent::Released, 1350), HotkeyAction::HoldEnd);
    assert_eq!(s.press_started_ms, None);
    assert!(!s.tap_armed);
}

#[test]
fn auto_tap_then_tap() {
    let mut s = AutoHotkeyState::new();
    assert_eq!(handle_auto_hotkey(&mut s, ShortcutEvent::Pressed, 1000), HotkeyAction::HoldBegin);
    assert_eq!(handle_auto_hotkey(&mut s, ShortcutEvent::Released, 1349), HotkeyAction::Ignore);
    assert!(s.tap_armed);
    assert_eq!(handle_auto_hotkey(&mut s, ShortcutEvent::Pressed, 5000), HotkeyAction::Toggle);
    assert!(!s.tap_armed);
    assert_eq!(s.press_started_ms, None);
    assert_eq!(handle_auto_hotkey(&mut s, ShortcutEvent::Released, 5100), HotkeyAction::Ignore);
}

#[test]
fn auto_clock_going_backwards_counts_as_tap() {
    let mut s = AutoHotkeyState::new();
    handle_auto_hotkey(&mut s, ShortcutEvent::Pressed, 1000);
    assert_eq!(handle_auto_hotkey(&mut s, ShortcutEvent::Released, 10), HotkeyAction::Ignore);
    assert!(s.tap_armed);
}

#[test]
fn auto_reset_clears_state() {
    let mut s = AutoHotkeyState::new();
    handle_auto_hotkey(&mut s, ShortcutEvent::Pressed, 1);
    s.reset();
    assert_eq!(s.press_started_ms, None);
    assert!(!s.tap_armed);
}

#[test]
fn hold_and_toggle_modes() {
    let mut s = AutoHotkeyState::new();
    assert_eq!(hotkey_action(HotkeyMode::Hold, &mut s, ShortcutEvent::Pressed, 0), HotkeyAction::HoldBegin);
    assert_eq!(hotkey_action(HotkeyMode::Hold, &mut s, ShortcutEvent::Released, 5), HotkeyAction::HoldEnd);
    assert_eq!(hotkey_action(HotkeyMode::Toggle, &mut s, ShortcutEvent::Pressed, 0), HotkeyAction::Toggle);
    assert_eq!(hotkey_action(HotkeyMode::Toggle, &mut s, ShortcutEvent::Released, 0), HotkeyAction::Ignore);
    assert_eq!(hotkey_action(HotkeyMode::Auto, &mut s, ShortcutEvent::Pressed, 0), HotkeyAction::HoldBegin);
}
