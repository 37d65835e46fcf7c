use eshara::game::GameState;
use eshara::i18n::Language;
use eshara::wait::{
    clear_wait, effective_delay, is_waiting_at, remaining_at, remaining_time_str,
    schedule_wait_at,
};

#[test]
fn test_effective_delay_normal() {
    assert_eq!(effective_delay(false, 300), 300);
}

#[test]
fn test_effective_delay_debug() {
    // The debug speed-up collapses every delay to the same small constant.
    assert_eq!(effective_delay(true, 300), 5);
    assert_eq!(effective_delay(true, 86400), 5);
}

#[test]
fn test_schedule_wait() {
    let mut state = GameState::new(Language::En, "intro", 3, 10, 3);
    assert!(state.waiting_until.is_none());
    schedule_wait_at(&mut state, 1000, 60, false);
    assert_eq!(state.waiting_until, Some(1060));
}

#[test]
fn test_is_waiting() {
    let mut state = GameState::new(Language::En, "intro", 3, 10, 3);
    let now: i64 = 50_000;
    assert!(!is_waiting_at(&state, now));
    schedule_wait_at(&mut state, now, 3600, false);
    assert!(is_waiting_at(&state, now));
    assert!(is_waiting_at(&state, now + 3599));
    assert!(!is_waiting_at(&state, now + 3600));
    clear_wait(&mut state);
    assert!(!is_waiting_at(&state, now));
}

#[test]
fn test_remaining_time_str_past() {
    let now: i64 = 10_000;
    let past = now - 3600;
    assert_eq!(remaining_time_str(past, now, Language::En), "any moment now");
    assert_eq!(
        remaining_time_str(past, now, Language::Fr),
        "d'un moment \u{00e0} l'autre"
    );
}

#[test]
fn test_remaining_time_str_future() {
    let now: i64 = 10_000;
    let future = now + 2 * 3600 + 15 * 60;
    let result = remaining_time_str(future, now, Language::En);
    assert!(result.contains("h"));
    assert_eq!(result, "2h 15min");
}

#[test]
fn test_remaining_time_str_minutes() {
    let now: i64 = 10_000;
    assert_eq!(remaining_time_str(now + 120, now, Language::En), "2 minutes");
    assert_eq!(remaining_time_str(now + 60, now, Language::En), "1 minute");
    assert_eq!(
        remaining_time_str(now + 30, now, Language::En),
        "less than a minute"
    );
    assert_eq!(
        remaining_time_str(now + 30, now, Language::Fr),
        "moins d'une minute"
    );
}

#[test]
fn test_remaining_at() {
    assert_eq!(remaining_at(1100, 1000), 100);
    assert_eq!(remaining_at(1000, 1100), -100);
    assert!(remaining_at(1000, 1000) <= 0);
}
