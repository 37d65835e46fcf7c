use eshara::game::{GameState, Sender};
use eshara::i18n::{Language, LocalizedString};
use eshara::interp::{enter_node, select_choice, Outcome};
use eshara::nodes::build_story_data;
use eshara::story::{
    Branch, BranchCondition, Choice, DeathCheck, Effects, StoryData, StoryGraph, StoryMeta,
    StoryNode,
};

fn empty_node(id: &str) -> StoryNode {
    StoryNode {
        id: id.to_string(),
        act: None,
        title: None,
        messages: Vec::new(),
        choices: None,
        next_node: None,
        delay: None,
        ending: None,
        on_enter: None,
        branch: None,
    }
}

fn test_story(nodes: Vec<StoryNode>) -> StoryData {
    let mut graph = StoryGraph::new();
    for n in nodes {
        graph.insert(n);
    }
    StoryData {
        meta: StoryMeta {
            title: "test".to_string(),
            version: "0".to_string(),
            start_node: "start".to_string(),
            default_typing_delay_ms: 60,
            debug_delay_override_seconds: 5,
        },
        stats: Vec::new(),
        flags: Vec::new(),
        endings: Vec::new(),
        nodes: graph,
        death_check: Some(DeathCheck {
            description: "test".to_string(),
            trigger: "health_zero".to_string(),
            override_next_node: "end".to_string(),
        }),
    }
}

fn plain_choice(label: &str, target: &str) -> Choice {
    Choice {
        label: LocalizedString::new(label, label),
        next_node: target.to_string(),
        on_choose: None,
        condition: None,
    }
}

#[test]
fn test_select_choice_applies_effects_and_logs() {
    // Start node with two unconditioned choices; picking index 1 appends
    // exactly one player log entry with that label, applies its stat delta,
    // and moves the current node to its target.
    let mut start = empty_node("start");
    let mut second = plain_choice("Ask about the facility", "b");
    second.on_choose = Some(Effects {
        trust_change: Some(1),
        health_change: None,
        supplies_change: None,
        flags_set: Vec::new(),
        flags_remove: Vec::new(),
        has_medicine_conditional: None,
    });
    start.choices = Some(vec![plain_choice("Say hello", "a"), second]);
    let story = test_story(vec![start, empty_node("a"), empty_node("b")]);
    let mut state = GameState::new(Language::En, "start", 3, 10, 3);

    let frame = enter_node(&story, &mut state, 100, false);
    match frame.outcome {
        Outcome::AwaitingChoice { labels } => {
            assert_eq!(labels.len(), 2);
            assert_eq!(labels[1], "Ask about the facility");
        }
        _ => panic!("expected choices"),
    }
    assert!(select_choice(&story, &mut state, 1, 101));
    assert_eq!(state.current_node, "b");
    assert_eq!(state.stats.trust, 4);
    assert_eq!(state.message_log.len(), 1);
    assert_eq!(state.message_log[0].sender, Sender::Player);
    assert_eq!(state.message_log[0].text, "Ask about the facility");
    assert_eq!(state.message_log[0].timestamp, 101);
}

#[test]
fn test_delay_in_debug_mode_uses_short_deadline() {
    // A node with a 120-second delay, in debug mode, schedules now + 5.
    let mut start = empty_node("start");
    start.delay = Some(eshara::story::DelayInfo {
        seconds: 120,
        message: LocalizedString::new("away", "absente"),
    });
    start.next_node = Some("t".to_string());
    let story = test_story(vec![start, empty_node("t")]);
    let mut state = GameState::new(Language::En, "start", 3, 10, 3);

    let frame = enter_node(&story, &mut state, 1000, true);
    match frame.outcome {
        Outcome::Waiting { until, message } => {
            assert_eq!(until, 1005);
            assert_eq!(message, "away");
        }
        _ => panic!("expected a wait"),
    }
    assert_eq!(state.current_node, "t");
    assert_eq!(state.waiting_until, Some(1005));
}

#[test]
fn test_delay_without_debug_uses_full_deadline() {
    let mut start = empty_node("start");
    start.delay = Some(eshara::story::DelayInfo {
        seconds: 120,
        message: LocalizedString::new("away", "absente"),
    });
    start.next_node = Some("t".to_string());
    let story = test_story(vec![start, empty_node("t")]);
    let mut state = GameState::new(Language::En, "start", 3, 10, 3);
    let frame = enter_node(&story, &mut state, 1000, false);
    match frame.outcome {
        Outcome::Waiting { until, .. } => assert_eq!(until, 1120),
        _ => panic!("expected a wait"),
    }
}

#[test]
fn test_branch_ordering_picks_first_match() {
    // Branches [gated(false), open(true), default]: the middle one wins;
    // the catch-all is never taken once an earlier branch matched.
    let mut gated = BranchCondition::none();
    gated.flags_required = vec!["has_keycard".to_string()];
    let mut fallback = BranchCondition::none();
    fallback.default = true;
    let mut start = empty_node("start");
    start.branch = Some(vec![
        Branch { condition: gated, next_node: "wrong_gate".to_string() },
        Branch { condition: BranchCondition::none(), next_node: "right".to_string() },
        Branch { condition: fallback, next_node: "wrong_default".to_string() },
    ]);
    let story = test_story(vec![
        start,
        empty_node("wrong_gate"),
        empty_node("right"),
        empty_node("wrong_default"),
    ]);
    let mut state = GameState::new(Language::En, "start", 3, 10, 3);
    let frame = enter_node(&story, &mut state, 0, false);
    assert!(matches!(frame.outcome, Outcome::Advanced));
    assert_eq!(state.current_node, "right");
}

#[test]
fn test_branch_default_taken_when_nothing_matches() {
    let mut gated = BranchCondition::none();
    gated.min_trust = Some(9);
    let mut fallback = BranchCondition::none();
    fallback.default = true;
    let mut start = empty_node("start");
    start.branch = Some(vec![
        Branch { condition: gated, next_node: "high_trust".to_string() },
        Branch { condition: fallback, next_node: "fallback".to_string() },
    ]);
    let story = test_story(vec![start, empty_node("high_trust"), empty_node("fallback")]);
    let mut state = GameState::new(Language::En, "start", 3, 10, 3);
    let frame = enter_node(&story, &mut state, 0, false);
    assert!(matches!(frame.outcome, Outcome::Advanced));
    assert_eq!(state.current_node, "fallback");
}

#[test]
fn test_branch_without_match_fails_closed() {
    // Only branches, none matching, nothing else to do: fail closed.
    let mut gated = BranchCondition::none();
    gated.min_trust = Some(9);
    let mut start = empty_node("start");
    start.branch = Some(vec![Branch { condition: gated, next_node: "high_trust".to_string() }]);
    let story = test_story(vec![start, empty_node("high_trust")]);
    let mut state = GameState::new(Language::En, "start", 3, 10, 3);
    let frame = enter_node(&story, &mut state, 0, false);
    assert!(matches!(frame.outcome, Outcome::NoBranchMatched));
    assert_eq!(state.current_node, "start");
}

#[test]
fn test_branch_unmatched_falls_through_to_choices() {
    // Branches only reroute: when none matches, the node's choices are
    // still offered.
    let mut gated = BranchCondition::none();
    gated.max_trust = Some(1);
    let mut start = empty_node("start");
    start.branch = Some(vec![Branch { condition: gated, next_node: "refused".to_string() }]);
    start.choices = Some(vec![plain_choice("Go on", "a"), plain_choice("Hold back", "b")]);
    let story = test_story(vec![
        start,
        empty_node("refused"),
        empty_node("a"),
        empty_node("b"),
    ]);
    let mut state = GameState::new(Language::En, "start", 3, 10, 3);
    let frame = enter_node(&story, &mut state, 0, false);
    match frame.outcome {
        Outcome::AwaitingChoice { labels } => assert_eq!(labels.len(), 2),
        _ => panic!("expected the choices to be offered"),
    }
    assert_eq!(state.current_node, "start");
}

#[test]
fn test_branch_unmatched_falls_through_to_next_node() {
    let mut gated = BranchCondition::none();
    gated.max_trust = Some(1);
    let mut start = empty_node("start");
    start.branch = Some(vec![Branch { condition: gated, next_node: "refused".to_string() }]);
    start.next_node = Some("onward".to_string());
    let story = test_story(vec![start, empty_node("refused"), empty_node("onward")]);
    let mut state = GameState::new(Language::En, "start", 3, 10, 3);
    let frame = enter_node(&story, &mut state, 0, false);
    assert!(matches!(frame.outcome, Outcome::Advanced));
    assert_eq!(state.current_node, "onward");
}

#[test]
fn test_messages_are_logged_and_returned() {
    let mut start = empty_node("start");
    start.messages = vec![
        LocalizedString::new("one", "un"),
        LocalizedString::new("two", "deux"),
    ];
    start.next_node = Some("t".to_string());
    let story = test_story(vec![start, empty_node("t")]);
    let mut state = GameState::new(Language::Fr, "start", 3, 10, 3);
    let frame = enter_node(&story, &mut state, 7, false);
    assert_eq!(frame.messages, vec!["un".to_string(), "deux".to_string()]);
    assert!(matches!(frame.outcome, Outcome::Advanced));
    assert_eq!(state.message_log.len(), 2);
    assert_eq!(state.message_log[0].sender, Sender::Elara);
    assert_eq!(state.message_log[1].text, "deux");
    assert_eq!(state.current_node, "t");
}

#[test]
fn test_ending_is_recorded() {
    let mut start = empty_node("start");
    start.ending = Some("gone_dark".to_string());
    let story = test_story(vec![start]);
    let mut state = GameState::new(Language::En, "start", 3, 10, 3);
    let frame = enter_node(&story, &mut state, 0, false);
    match frame.outcome {
        Outcome::Ended { key } => assert_eq!(key, "gone_dark"),
        _ => panic!("expected an ending"),
    }
    assert_eq!(state.ending, Some("gone_dark".to_string()));
}

#[test]
fn test_death_check_reroutes_on_zero_health() {
    // An entry effect that drains health to zero reroutes to the override
    // node before anything else becomes observable.
    let mut start = empty_node("start");
    start.messages = vec![LocalizedString::new("never shown", "jamais")];
    start.on_enter = Some(Effects {
        trust_change: None,
        health_change: Some(-10),
        supplies_change: None,
        flags_set: Vec::new(),
        flags_remove: Vec::new(),
        has_medicine_conditional: None,
    });
    start.next_node = Some("t".to_string());
    let story = test_story(vec![start, empty_node("t"), empty_node("end")]);
    let mut state = GameState::new(Language::En, "start", 3, 10, 3);
    let frame = enter_node(&story, &mut state, 0, false);
    assert!(frame.messages.is_empty());
    assert!(matches!(frame.outcome, Outcome::Advanced));
    assert_eq!(state.current_node, "end");
    assert_eq!(state.stats.health, 0);
}

#[test]
fn test_auto_route_on_ellipsis_labels() {
    let mut gated = BranchCondition::none();
    gated.flags_required = vec!["went_north".to_string()];
    let mut first = plain_choice("...", "north_path");
    first.condition = Some(gated);
    let second = plain_choice("...", "south_path");
    let mut start = empty_node("start");
    start.choices = Some(vec![first, second]);
    let story = test_story(vec![start, empty_node("north_path"), empty_node("south_path")]);
    let mut state = GameState::new(Language::En, "start", 3, 10, 3);
    let frame = enter_node(&story, &mut state, 0, false);
    assert!(matches!(frame.outcome, Outcome::Advanced));
    assert_eq!(state.current_node, "south_path");
    assert!(state.message_log.is_empty());
}

#[test]
fn test_filtered_choices_fall_back_to_next_node() {
    let mut gated = BranchCondition::none();
    gated.flags_required = vec!["secret".to_string()];
    let mut only = plain_choice("Hidden", "secret_path");
    only.condition = Some(gated);
    let mut start = empty_node("start");
    start.choices = Some(vec![only]);
    start.next_node = Some("open_path".to_string());
    let story = test_story(vec![start, empty_node("secret_path"), empty_node("open_path")]);
    let mut state = GameState::new(Language::En, "start", 3, 10, 3);
    let frame = enter_node(&story, &mut state, 0, false);
    assert!(matches!(frame.outcome, Outcome::Advanced));
    assert_eq!(state.current_node, "open_path");
}

#[test]
fn test_missing_node_fails_closed() {
    let story = test_story(vec![empty_node("start")]);
    let mut state = GameState::new(Language::En, "elsewhere", 3, 10, 3);
    let before = state.clone();
    let frame = enter_node(&story, &mut state, 0, false);
    assert!(matches!(frame.outcome, Outcome::MissingNode));
    assert_eq!(state, before);
}

#[test]
fn test_trust_refusal_not_taken_at_normal_trust() {
    // At the default trust, the act-two dilemma offers its choices instead
    // of rerouting through the refusal.
    let story = build_story_data();
    let mut state = GameState::new(Language::En, "a2_day3_morning", 3, 10, 3);
    let frame = enter_node(&story, &mut state, 0, false);
    match frame.outcome {
        Outcome::AwaitingChoice { labels } => assert_eq!(labels.len(), 3),
        _ => panic!("the dilemma should offer its choices"),
    }
    assert_eq!(state.current_node, "a2_day3_morning");
}

#[test]
fn test_trust_refusal_path_in_builtin_story() {
    // Low trust at the act-two dilemma reroutes through the refusal line to
    // the node where Elara decides on her own.
    let story = build_story_data();
    let mut state = GameState::new(Language::En, "a2_day3_morning", 0, 10, 3);
    let frame = enter_node(&story, &mut state, 0, false);
    assert!(matches!(frame.outcome, Outcome::Advanced));
    assert_eq!(state.current_node, "a2_day3_morning_refused");
    let frame = enter_node(&story, &mut state, 1, false);
    assert!(matches!(frame.outcome, Outcome::Advanced));
    assert_eq!(state.current_node, "a2_elara_helps_anyway");
}

#[test]
fn test_cancel_token() {
    let mut token = eshara::CancelToken::new();
    assert!(!token.is_interrupted());
    token.set_interrupted();
    assert!(token.is_interrupted());
}

#[test]
fn test_builtin_story_opening_offers_choices() {
    let story = build_story_data();
    let mut state = GameState::from_story(Language::En, &story);
    assert_eq!(state.current_node, "intro");
    let frame = enter_node(&story, &mut state, 0, false);
    assert!(!frame.messages.is_empty());
    match frame.outcome {
        Outcome::AwaitingChoice { labels } => assert_eq!(labels.len(), 2),
        _ => panic!("the opening node should offer choices"),
    }
}

#[test]
fn test_builtin_story_static_path_ends() {
    let story = build_story_data();
    let mut state = GameState::new(Language::En, "a5_static_buildup", 3, 10, 3);
    let frame = enter_node(&story, &mut state, 0, false);
    assert!(matches!(frame.outcome, Outcome::Advanced));
    assert_eq!(state.current_node, "a5_ending_static");
    let frame = enter_node(&story, &mut state, 1, false);
    match frame.outcome {
        Outcome::Ended { key } => assert_eq!(key, "static"),
        _ => panic!("expected the static ending"),
    }
    assert_eq!(state.ending, Some("static".to_string()));
}
