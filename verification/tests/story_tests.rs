use eshara::i18n::Language;
use eshara::nodes::{build_story_data, build_story_tree};
use eshara::validate::ValidationError;

#[test]
fn test_story_tree_has_intro() {
    let tree = build_story_tree();
    assert!(tree.contains_key("intro"));
}

#[test]
fn test_all_next_nodes_exist() {
    let tree = build_story_tree();
    let mut i = 0;
    while i < tree.len() {
        let node = tree.node_at(i);
        if let Some(ref next) = node.next_node {
            assert!(
                tree.contains_key(next.as_str()),
                "Node '{}' references next_node '{}' which doesn't exist",
                node.id,
                next
            );
        }
        if let Some(ref choices) = node.choices {
            for choice in choices {
                assert!(
                    tree.contains_key(choice.next_node.as_str()),
                    "Node '{}' has choice pointing to '{}' which doesn't exist",
                    node.id,
                    choice.next_node
                );
            }
        }
        i += 1;
    }
}

#[test]
fn test_act1_node_count() {
    let tree = build_story_tree();
    assert!(
        tree.len() >= 10,
        "Expected at least 10 nodes, got {}",
        tree.len()
    );
}

#[test]
fn test_act1_branch_paths() {
    let tree = build_story_tree();
    assert!(tree.contains_key("a1_explore_facility"));
    assert!(tree.contains_key("a1_head_north"));
    assert!(tree.contains_key("a1_night"));
}

#[test]
fn test_act2_nodes_exist() {
    let tree = build_story_tree();
    assert!(tree.contains_key("a2_morning"));
    assert!(tree.contains_key("a2_meet_kai"));
    assert!(tree.contains_key("a2_day3_morning")); // Moral dilemma
    assert!(tree.contains_key("a2_enter_town"));
    assert!(tree.contains_key("a2_end"));
}

#[test]
fn test_act2_has_trust_refusal() {
    // The low-trust refusal is a trust-gated branch out of the dilemma node.
    let tree = build_story_tree();
    let dilemma = tree.get("a2_day3_morning").unwrap();
    let branches = dilemma.branch.as_ref().unwrap();
    assert!(branches[0].condition.max_trust.is_some());
}

#[test]
fn test_act3_nodes_exist() {
    let tree = build_story_tree();
    assert!(tree.contains_key("a3_morning"));
    assert!(tree.contains_key("a3_osei_talk"));
    assert!(tree.contains_key("a3_keycard_decision"));
    assert!(tree.contains_key("a3_kai_twist"));
    assert!(tree.contains_key("a3_end"));
}

#[test]
fn test_act3_has_conditional_choices() {
    let tree = build_story_tree();
    let confrontation = tree.get("a3_kai_confrontation").unwrap();
    // "Talk to Kai" is gated on the kai_ally flag
    let talk_choice = &confrontation.choices.as_ref().unwrap()[0];
    assert!(talk_choice.condition.is_some());
}

#[test]
fn test_act4_nodes_exist() {
    let tree = build_story_tree();
    assert!(tree.contains_key("a4_arrival"));
    assert!(tree.contains_key("a4_miroir_door"));
    assert!(tree.contains_key("a4_console"));
    assert!(tree.contains_key("a4_approach_console"));
    assert!(tree.contains_key("a4_inversion"));
}

#[test]
fn test_act4_has_trust_refusal() {
    let tree = build_story_tree();
    let console = tree.get("a4_console").unwrap();
    let branches = console.branch.as_ref().unwrap();
    assert!(branches[0].condition.max_trust.is_some());
}

#[test]
fn test_total_node_count() {
    let tree = build_story_tree();
    assert!(
        tree.len() >= 60,
        "Expected at least 60 nodes, got {}",
        tree.len()
    );
}

#[test]
fn test_act5_nodes_exist() {
    let tree = build_story_tree();
    assert!(tree.contains_key("a5_escape_run"));
    assert!(tree.contains_key("a5_escape_outcome"));
    assert!(tree.contains_key("a5_inversion_result"));
    assert!(tree.contains_key("a5_static_buildup"));
    assert!(tree.contains_key("a5_ending_new_dawn"));
    assert!(tree.contains_key("a5_ending_signal"));
    assert!(tree.contains_key("a5_ending_static"));
    assert!(tree.contains_key("a5_ending_gone_dark"));
    assert!(tree.contains_key("a5_ending_eshara_wins"));
}

#[test]
fn test_act5_all_endings_present() {
    let tree = build_story_tree();
    let mut endings = 0;
    let mut i = 0;
    while i < tree.len() {
        if tree.node_at(i).ending.is_some() {
            endings += 1;
        }
        i += 1;
    }
    assert_eq!(endings, 5, "Expected 5 ending nodes, got {}", endings);
}

#[test]
fn test_stayed_safe_path_reaches_static_ending() {
    let tree = build_story_tree();
    let node = tree.get("a3_stayed_safe_aftermath").unwrap();
    assert_eq!(node.next_node.as_deref(), Some("a5_static_buildup"));
    let buildup = tree.get("a5_static_buildup").unwrap();
    assert_eq!(buildup.next_node.as_deref(), Some("a5_ending_static"));
}

#[test]
fn test_escape_outcome_has_conditional_routing() {
    let tree = build_story_tree();
    let node = tree.get("a5_escape_outcome").unwrap();
    let choices = node.choices.as_ref().unwrap();
    assert_eq!(
        choices.len(),
        3,
        "a5_escape_outcome should have 3 conditional choices"
    );
    for choice in choices {
        assert_eq!(choice.label.get(Language::En), "...");
    }
}

#[test]
fn test_builtin_story_validates() {
    let story = build_story_data();
    let errors = story.validate();
    assert!(errors.is_empty(), "Built-in story has validation errors");
}

#[test]
fn test_validate_reports_missing_start() {
    let mut story = build_story_data();
    story.meta.start_node = "nowhere".to_string();
    let errors = story.validate();
    assert_eq!(errors.len(), 1);
    match &errors[0] {
        ValidationError::MissingStartNode { id } => assert_eq!(id, "nowhere"),
        _ => panic!("expected a missing start node error"),
    }
}

#[test]
fn test_validate_reports_dangling_next() {
    // Validator soundness: a dangling reference is always reported.
    let mut story = build_story_data();
    let mut node = build_story_tree().get("a2_end").unwrap().clone();
    node.id = "loose_end".to_string();
    node.next_node = Some("no_such_node".to_string());
    story.nodes.insert(node);
    let errors = story.validate();
    let mut found = false;
    for e in &errors {
        if let ValidationError::DanglingNext { from, to } = e {
            if from == "loose_end" && to == "no_such_node" {
                found = true;
            }
        }
    }
    assert!(found, "the dangling reference was not reported");
}

#[test]
fn test_validate_reports_dead_end() {
    let mut story = build_story_data();
    let mut node = build_story_tree().get("a2_end").unwrap().clone();
    node.id = "stuck".to_string();
    node.next_node = None;
    node.choices = None;
    node.ending = None;
    node.branch = None;
    story.nodes.insert(node);
    let errors = story.validate();
    let mut found = false;
    for e in &errors {
        if let ValidationError::DeadEndNode { id } = e {
            if id == "stuck" {
                found = true;
            }
        }
    }
    assert!(found, "the dead end was not reported");
}

#[test]
fn test_validate_reports_unreachable() {
    // Reachability: an island node is reported; reachable ones never are.
    let mut story = build_story_data();
    let mut node = build_story_tree().get("a2_end").unwrap().clone();
    node.id = "island".to_string();
    node.next_node = Some("island".to_string());
    node.choices = None;
    node.ending = None;
    node.branch = None;
    story.nodes.insert(node);
    let errors = story.validate();
    let mut island_reported = false;
    for e in &errors {
        if let ValidationError::Unreachable { id } = e {
            assert_ne!(id, "intro", "a reachable node was reported unreachable");
            if id == "island" {
                island_reported = true;
            }
        }
    }
    assert!(island_reported, "the unreachable node was not reported");
}

#[test]
fn test_story_data_lookups() {
    let story = build_story_data();
    assert_eq!(story.stat_def("trust").unwrap().initial, 3);
    assert_eq!(story.stat_def("health").unwrap().initial, 10);
    assert_eq!(story.stat_def("supplies").unwrap().initial, 3);
    assert!(story.stat_def("charisma").is_none());
    assert!(story.ending_info("new_dawn").is_some());
    assert!(story.ending_info("gone_dark").is_some());
    assert!(story.ending_info("unknown").is_none());
    assert_eq!(story.meta.start_node, "intro");
    assert_eq!(story.meta.title, "Eshara");
}

#[test]
fn test_branch_condition_default() {
    let cond = eshara::story::BranchCondition {
        default: true,
        ..Default::default()
    };
    let state = eshara::game::GameState::new(Language::En, "test", 3, 10, 3);
    assert!(cond.evaluate(&state));
}

#[test]
fn test_branch_condition_flags() {
    let cond = eshara::story::BranchCondition {
        flags_required: vec!["has_shielding".to_string()],
        ..Default::default()
    };
    let mut state = eshara::game::GameState::new(Language::En, "test", 3, 10, 3);
    assert!(!cond.evaluate(&state));
    state.set_flag("has_shielding");
    assert!(cond.evaluate(&state));
}

#[test]
fn test_branch_condition_trust() {
    let cond = eshara::story::BranchCondition {
        min_trust: Some(7),
        ..Default::default()
    };
    let mut state = eshara::game::GameState::new(Language::En, "test", 3, 10, 3);
    assert!(!cond.evaluate(&state)); // trust is 3
    state.stats.trust = 8;
    assert!(cond.evaluate(&state)); // trust is 8
}

#[test]
fn test_branch_condition_flag_absent() {
    let cond = eshara::story::BranchCondition {
        flags_absent: vec!["stayed_safe".to_string()],
        ..Default::default()
    };
    let mut state = eshara::game::GameState::new(Language::En, "test", 3, 10, 3);
    assert!(cond.evaluate(&state));
    state.set_flag("stayed_safe");
    assert!(!cond.evaluate(&state));
}

#[test]
fn test_effects_apply() {
    let effects = eshara::story::Effects {
        trust_change: Some(2),
        health_change: Some(-1),
        supplies_change: None,
        flags_set: vec!["test_flag".to_string()],
        flags_remove: vec![],
        has_medicine_conditional: None,
    };
    let mut state = eshara::game::GameState::new(Language::En, "test", 3, 10, 3);
    let health_changed = effects.apply(&mut state);
    assert!(health_changed);
    assert_eq!(state.stats.trust, 5);
    assert_eq!(state.stats.health, 9);
    assert!(state.has_flag("test_flag"));
}
