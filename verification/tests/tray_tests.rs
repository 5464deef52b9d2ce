use pingo::tray::{is_muted, toggle_mute, NotificationState};

#[test]
fn mute_switch_starts_off_and_flips() {
    let mut state = NotificationState::new();
    assert!(!is_muted(&state));
    assert!(toggle_mute(&mut state));
    assert!(is_muted(&state));
    assert!(!toggle_mute(&mut state));
    assert!(!is_muted(&state));
}
