//! The queue of toasts.

use ram_ui::toast::{Toast, ToastLevel, Toasts, MAX_VISIBLE};

#[test]
fn repeated_errors_toast_once() {
    let mut toasts = Toasts::default();
    for _ in 0..20 {
        toasts.push(Toast::error("Cookie rejected by Roblox", 0), 0);
    }
    assert_eq!(toasts.queue.len(), 1);
}

#[test]
fn distinct_errors_all_toast() {
    let mut toasts = Toasts::default();
    toasts.push(Toast::error("first", 0), 0);
    toasts.push(Toast::error("second", 0), 0);
    assert_eq!(toasts.queue.len(), 2);
}

#[test]
fn expired_info_can_repeat() {
    let mut toasts = Toasts::default();
    toasts.push(Toast::info("Refreshing all accounts...", 0), 0);
    // A duplicate while the first is still on screen collapses.
    toasts.push(Toast::info("Refreshing all accounts...", 0), 0);
    assert_eq!(toasts.queue.len(), 1);

    // Once it has aged out, the same action gives feedback again.
    toasts.queue[0].duration = 0;
    toasts.push(Toast::info("Refreshing all accounts...", 0), 0);
    assert_eq!(toasts.queue.len(), 2);
}

#[test]
fn queue_is_capped() {
    let mut toasts = Toasts::default();
    for i in 0..(MAX_VISIBLE + 3) {
        toasts.push(Toast::info(&format!("message {i}"), 0), 0);
    }
    assert_eq!(toasts.queue.len(), MAX_VISIBLE);
    // Oldest dropped, newest kept.
    assert_eq!(toasts.queue.last().unwrap().message, "message 7");
}

#[test]
fn a_toast_expires_after_its_duration() {
    let t = Toast::warning("careful", 1_000);
    assert_eq!(t.level, ToastLevel::Warning);
    assert!(!t.is_expired(1_000 + t.duration - 1));
    assert!(t.is_expired(1_000 + t.duration));
    // A clock that reads earlier than the toast does not expire it.
    assert!(!t.is_expired(0));
}

#[test]
fn active_drops_what_has_expired() {
    let mut toasts = Toasts::default();
    toasts.push(Toast::success("old", 0), 0);
    let later = toasts.queue[0].duration;
    toasts.push(Toast::success("new", later), later);
    let active = toasts.active(later);
    assert_eq!(active.len(), 1);
    assert_eq!(active[0].message, "new");
}
