use eshara::codec::{deserialize, serialize};
use eshara::game::{parse_args, GameState, Stats};
use eshara::i18n::Language;

#[test]
fn test_new_game_state() {
    let state = GameState::new(Language::En, "a1_first_contact", 3, 10, 3);
    assert_eq!(state.current_node, "a1_first_contact");
    assert_eq!(state.language, Language::En);
    assert!(state.flags.is_empty());
    assert!(state.waiting_until.is_none());
    assert!(state.message_log.is_empty());
    assert_eq!(state.stats.trust, 3);
    assert_eq!(state.stats.health, 10);
    assert_eq!(state.stats.supplies, 3);
    assert_eq!(state.day, 1);
}

#[test]
fn test_flags() {
    let mut state = GameState::new(Language::Fr, "test", 3, 10, 3);
    assert!(!state.has_flag("test_flag"));
    state.set_flag("test_flag");
    assert!(state.has_flag("test_flag"));
    state.remove_flag("test_flag");
    assert!(!state.has_flag("test_flag"));
}

#[test]
fn test_flags_idempotent() {
    let mut state = GameState::new(Language::En, "test", 3, 10, 3);
    state.set_flag("a");
    state.set_flag("a");
    assert_eq!(state.flags.len(), 1);
    state.remove_flag("missing");
    assert_eq!(state.flags.len(), 1);
}

#[test]
fn test_stats_modify() {
    let mut stats = Stats::default();
    stats.modify("trust", 2);
    assert_eq!(stats.trust, 5);
    stats.modify("trust", -10);
    assert_eq!(stats.trust, 0); // Clamped to 0
    stats.modify("health", 100);
    assert_eq!(stats.health, 10); // Clamped to 10
}

#[test]
fn test_stats_modify_unknown_name_is_noop() {
    let mut stats = Stats::default();
    stats.modify("charisma", 5);
    assert_eq!(stats, Stats::default());
}

#[test]
fn test_stats_clamped_after_every_step() {
    // Clamping holds after each single application, not only at the end.
    let mut stats = Stats::default();
    let deltas: Vec<(&str, i32)> = vec![
        ("trust", 100),
        ("trust", -3),
        ("health", -100),
        ("supplies", 9),
        ("health", 1),
    ];
    for (name, d) in deltas {
        stats.modify(name, d);
        assert!(0 <= stats.trust && stats.trust <= 10);
        assert!(0 <= stats.health && stats.health <= 10);
        assert!(0 <= stats.supplies && stats.supplies <= 10);
    }
    assert_eq!(stats.trust, 7);
    assert_eq!(stats.health, 1);
    assert_eq!(stats.supplies, 10);
}

#[test]
fn test_stats_get() {
    let stats = Stats::new(1, 2, 3);
    assert_eq!(stats.get("trust"), Some(1));
    assert_eq!(stats.get("health"), Some(2));
    assert_eq!(stats.get("supplies"), Some(3));
    assert_eq!(stats.get("unknown"), None);
}

#[test]
fn test_game_state_serialization() {
    let state = GameState::new(Language::En, "a1_first_contact", 3, 10, 3);
    let text = serialize(&state);
    let deserialized: GameState = deserialize(text.as_str()).unwrap();
    assert_eq!(deserialized.current_node, "a1_first_contact");
    assert_eq!(deserialized.language, Language::En);
}

#[test]
fn test_parse_args_reset_and_lang() {
    let args: Vec<String> = vec!["--reset".to_string(), "--lang".to_string(), "fr".to_string()];
    let parsed = parse_args(&args);
    assert!(parsed.reset);
    assert_eq!(parsed.language, Some(Language::Fr));
}

#[test]
fn test_parse_args_last_lang_wins() {
    let args: Vec<String> = vec![
        "--lang".to_string(),
        "fr".to_string(),
        "--lang".to_string(),
        "nonsense".to_string(),
    ];
    let parsed = parse_args(&args);
    assert!(!parsed.reset);
    assert_eq!(parsed.language, None);
}

#[test]
fn test_parse_args_ignores_unknown() {
    let args: Vec<String> = vec!["--verbose".to_string()];
    let parsed = parse_args(&args);
    assert!(!parsed.reset);
    assert_eq!(parsed.language, None);
}
