use eshara::codec::{deserialize, serialize};
use eshara::game::{GameState, LogEntry, Sender};
use eshara::i18n::Language;
use eshara::wait::{is_waiting_at, remaining_at, schedule_wait_at};

fn populated_state() -> GameState {
    let mut state = GameState::new(Language::Fr, "a2_morning", 5, 7, 2);
    state.set_flag("has_shielding");
    state.set_flag("kai_ally");
    state.message_log.push(LogEntry {
        sender: Sender::Elara,
        text: "Hello? Is... is anyone there?".to_string(),
        timestamp: 1700000000,
    });
    state.message_log.push(LogEntry {
        sender: Sender::Player,
        text: "Oui, je t'entends : réponds !".to_string(),
        timestamp: 1700000042,
    });
    state.message_log.push(LogEntry {
        sender: Sender::System,
        text: "SESSION:2024-01-01 10:00".to_string(),
        timestamp: -3,
    });
    state.waiting_until = Some(1700000300);
    state.ending = Some("static".to_string());
    state.day = 4;
    state
}

#[test]
fn test_round_trip_populated() {
    // Round trip: serializing and deserializing gives back an equal state,
    // message log, flags, deadline and all.
    let state = populated_state();
    let text = serialize(&state);
    let back = deserialize(text.as_str()).unwrap();
    assert_eq!(back, state);
}

#[test]
fn test_round_trip_fresh_state() {
    // Round trip with empty flags and an empty log.
    let state = GameState::new(Language::En, "intro", 3, 10, 3);
    let text = serialize(&state);
    let back = deserialize(text.as_str()).unwrap();
    assert_eq!(back, state);
}

#[test]
fn test_round_trip_empty_strings() {
    let mut state = GameState::new(Language::En, "", 0, 0, 0);
    state.message_log.push(LogEntry {
        sender: Sender::System,
        text: String::new(),
        timestamp: 0,
    });
    let text = serialize(&state);
    let back = deserialize(text.as_str()).unwrap();
    assert_eq!(back, state);
}

#[test]
fn test_deserialize_rejects_garbage() {
    assert!(deserialize("").is_none());
    assert!(deserialize("not a save file").is_none());
    assert!(deserialize("5:intro").is_none());
    let good = serialize(&GameState::new(Language::En, "intro", 3, 10, 3));
    let mut truncated = good.clone();
    truncated.pop();
    assert!(deserialize(truncated.as_str()).is_none());
    let mut extended = good.clone();
    extended.push('x');
    assert!(deserialize(extended.as_str()).is_none());
}

#[test]
fn test_deadline_survives_round_trip() {
    // Scheduling a wait, serializing, deserializing, and checking after the
    // deadline has passed (simulated clock): not waiting, nothing remains.
    let mut state = GameState::new(Language::En, "a1_night", 3, 10, 3);
    let now: i64 = 1700000000;
    schedule_wait_at(&mut state, now, 180, false);
    assert_eq!(state.waiting_until, Some(now + 180));
    assert!(is_waiting_at(&state, now + 60));

    let text = serialize(&state);
    let restored = deserialize(text.as_str()).unwrap();
    assert_eq!(restored.waiting_until, Some(now + 180));

    let later = now + 180;
    assert!(!is_waiting_at(&restored, later));
    assert!(remaining_at(restored.waiting_until.unwrap(), later) <= 0);
    assert!(is_waiting_at(&restored, now + 179));
}
