use rusty_password_manager::clipboard_controller::ClipboardController;
use rusty_password_manager::deferred_signal::{wait_for_seconds, DeferredSignal};
use rusty_password_manager::file_accesssor::VaultFiles;
use rusty_password_manager::startup_state_item::StartupStateItem;
use rusty_password_manager::transition::Transition;

#[test]
fn a_new_signal_is_never_ready() {
    let signal = DeferredSignal::new();
    assert!(!signal.is_ready(0));
    assert!(!signal.is_ready(u64::MAX));
}

#[test]
fn an_armed_signal_is_ready_after_its_duration() {
    let mut signal = DeferredSignal::new();
    signal.arm(2, 10_000);
    assert!(!signal.is_ready(10_000));
    assert!(!signal.is_ready(11_999));
    assert!(signal.is_ready(12_000));
    assert!(signal.is_ready(12_001));
    assert!(signal.is_ready(u64::MAX));
    assert!(!signal.is_ready(9_999));
    assert!(!signal.is_ready(0));
}

#[test]
fn reading_a_signal_does_not_change_it() {
    let mut signal = DeferredSignal::new();
    signal.arm(1, 0);
    for _ in 0..3 {
        assert!(!signal.is_ready(999));
    }
    for _ in 0..3 {
        assert!(signal.is_ready(1000));
    }
}

#[test]
fn arming_twice_keeps_the_first_timer() {
    let mut signal = DeferredSignal::new();
    signal.arm(2, 0);
    signal.arm(1, 500);
    assert!(!signal.is_ready(1_500));
    assert!(signal.is_ready(2_000));
    let mut other = DeferredSignal::new();
    wait_for_seconds(1, 500, &mut other);
    wait_for_seconds(9, 500, &mut other);
    assert!(other.is_ready(1_500));
}

#[test]
fn a_duration_of_zero_is_ready_at_once() {
    let mut signal = DeferredSignal::new();
    signal.arm(0, 77);
    assert!(signal.is_ready(77));
    assert!(!signal.is_ready(76));
}

#[test]
fn a_fired_signal_is_ready_whatever_the_clock_says() {
    let mut signal = DeferredSignal::new();
    signal.fire();
    assert!(signal.is_ready(0));
    let mut armed = DeferredSignal::new();
    armed.arm(100, 50);
    armed.fire();
    assert!(armed.is_ready(0));
    assert!(armed.is_ready(51));
}

#[test]
fn a_duration_too_long_to_count_waits_for_ever() {
    let mut signal = DeferredSignal::new();
    signal.arm(u64::MAX, 0);
    assert!(!signal.is_ready(u64::MAX - 1));
    assert!(signal.is_ready(u64::MAX));
    let mut late = DeferredSignal::new();
    late.arm(u64::MAX / 1000 + 1, 1);
    assert!(!late.is_ready(u64::MAX));
}

#[test]
fn timer_driven_transition() {
    let files = VaultFiles::new();
    let screen = StartupStateItem::new(5_000, &files);
    assert!(screen.next_state(5_000).is_none());
    assert!(screen.next_state(6_000).is_none());
    assert!(screen.next_state(6_999).is_none());
    assert!(matches!(screen.next_state(7_000), Some(Transition::ToChangeAuthentication)));
    assert!(matches!(screen.next_state(7_000), Some(Transition::ToChangeAuthentication)));
    assert!(matches!(screen.next_state(9_000), Some(Transition::ToChangeAuthentication)));
    assert!(!screen.update_display());
}

#[test]
fn startup_leads_to_the_passphrase_where_a_vault_exists() {
    let files = VaultFiles { directory_exists: true, password_file: Some("k".into()), db_file: Some(vec![]) };
    let mut screen = StartupStateItem::new(0, &files);
    screen.register_input(rusty_password_manager::input_handler::KeyCode::Enter);
    assert!(screen.next_state(1_999).is_none());
    assert!(matches!(screen.next_state(2_000), Some(Transition::ToAuthentication)));
    let half = VaultFiles { directory_exists: true, password_file: Some("k".into()), db_file: None };
    assert!(matches!(StartupStateItem::new(0, &half).next_state(2_000), Some(Transition::ToChangeAuthentication)));
}

#[test]
fn clipboard_countdown_counts_whole_seconds() {
    let mut clipboard = ClipboardController::new();
    assert_eq!(clipboard.get_countdown_value(0), 0);
    assert!(!clipboard.finish_if_due(0));
    clipboard.copy_value_to_clipboard("secret", 30, 1_000);
    assert_eq!(clipboard.get_countdown_duration(), 30);
    assert_eq!(clipboard.get_countdown_value(1_000), 30);
    assert_eq!(clipboard.get_countdown_value(1_999), 30);
    assert_eq!(clipboard.get_countdown_value(2_000), 29);
    assert_eq!(clipboard.get_countdown_value(30_999), 1);
    assert_eq!(clipboard.get_countdown_value(31_000), 0);
    assert_eq!(clipboard.get_countdown_value(500), 30);
    assert!(!clipboard.finish_if_due(30_999));
    assert_eq!(clipboard.take_requests(), vec!["secret".to_string()]);
    assert!(clipboard.finish_if_due(31_000));
    assert!(!clipboard.finish_if_due(31_000));
    assert_eq!(clipboard.get_countdown_value(31_000), 0);
    assert_eq!(clipboard.take_requests(), vec![String::new()]);
    assert!(clipboard.take_requests().is_empty());
}
