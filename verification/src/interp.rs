//! The node interpreter: the state machine that walks the story graph.
//!
//! One call of `enter_node` performs one node visit: it applies the node's
//! entry effects (with the global death check), logs the node's messages,
//! and decides what comes next — an ending, a real-time wait, a silent
//! branch, a set of choices to offer, an auto-advance, or a dead end. The
//! whole visit is a pure function of the state model, the clock reading and
//! the debug switch; `spec_enter` is that function and the contract holds
//! the implementation to it.

use vstd::prelude::*;

use crate::game::{GameState, LogEntry, LogModel, Sender, StateModel};
use crate::i18n::{Language, LocalizedString};
use crate::story::{Branch, Choice, Effects, StoryData, StoryNode};
use crate::wait::{spec_effective_delay, spec_sat_add};

verus! {

/// What a node visit resolved to.
pub enum Outcome {
    /// An ending was reached and recorded into the state.
    Ended { key: String },
    /// A wait was scheduled; the current node already points at the target.
    Waiting { until: i64, message: String },
    /// The node routed silently; enter the new current node next.
    Advanced,
    /// The player must pick one of these labels.
    AwaitingChoice { labels: Vec<String> },
    /// No way forward: the validator should have refused this graph.
    DeadEnd,
    /// The current node id is not in the graph: fail closed.
    MissingNode,
    /// A branch list matched nothing, and the node offered no choices and
    /// no way onward either: fail closed.
    NoBranchMatched,
}

/// Mathematical model of an outcome.
pub ghost enum OutcomeModel {
    Ended { key: Seq<char> },
    Waiting { until: int, message: Seq<char> },
    Advanced,
    AwaitingChoice { labels: Seq<Seq<char>> },
    DeadEnd,
    MissingNode,
    NoBranchMatched,
}

impl DeepView for Outcome {
    type V = OutcomeModel;

    open spec fn deep_view(&self) -> OutcomeModel {
        match self {
            Outcome::Ended { key } => OutcomeModel::Ended { key: key@ },
            Outcome::Waiting { until, message } => OutcomeModel::Waiting {
                until: *until as int,
                message: message@,
            },
            Outcome::Advanced => OutcomeModel::Advanced,
            Outcome::AwaitingChoice { labels } => OutcomeModel::AwaitingChoice {
                labels: labels.deep_view(),
            },
            Outcome::DeadEnd => OutcomeModel::DeadEnd,
            Outcome::MissingNode => OutcomeModel::MissingNode,
            Outcome::NoBranchMatched => OutcomeModel::NoBranchMatched,
        }
    }
}

/// One presentation frame: the messages this visit produced, and what the
/// front end must do next.
pub struct Frame {
    pub messages: Vec<String>,
    pub outcome: Outcome,
}

// ── Model transformations ────────────────────────────────────

/// The model with another current node.
pub open spec fn model_goto(m: StateModel, id: Seq<char>) -> StateModel {
    StateModel { current_node: id, ..m }
}

/// The model with an ending recorded.
pub open spec fn model_end(m: StateModel, key: Seq<char>) -> StateModel {
    StateModel { ending: Some(key), ..m }
}

/// The model moved to `target` and paused until `until`.
pub open spec fn model_wait(m: StateModel, target: Seq<char>, until: int) -> StateModel {
    StateModel { current_node: target, waiting_until: Some(until), ..m }
}

/// The model with one message appended to the log.
pub open spec fn model_log(m: StateModel, sender: Sender, text: Seq<char>, now: int) -> StateModel {
    StateModel { log: m.log.push(LogModel { sender, text, timestamp: now }), ..m }
}

/// The model after applying `e`'s stat deltas and flag edits.
pub open spec fn model_apply_effects(m: StateModel, e: Effects) -> StateModel {
    StateModel {
        flags: Effects::spec_apply_flags(
            m.flags,
            e.flags_set.deep_view(),
            e.flags_remove.deep_view(),
        ),
        stats: e.spec_apply_stats(m.stats),
        ..m
    }
}

/// The node's messages, resolved to one language.
pub open spec fn spec_localized(msgs: Seq<LocalizedString>, lang: Language) -> Seq<Seq<char>> {
    msgs.map_values(|ls: LocalizedString| ls.spec_get(lang))
}

/// The model with a sequence of story messages appended to the log.
pub open spec fn model_log_texts(m: StateModel, texts: Seq<Seq<char>>, now: int) -> StateModel
    decreases texts.len(),
{
    if texts.len() == 0 {
        m
    } else {
        model_log(model_log_texts(m, texts.drop_last(), now), Sender::Elara, texts.last(), now)
    }
}

/// Whether the global death check fires: an effect touched health, health is
/// exhausted, and the story declares an override route.
pub open spec fn spec_death_triggers(story: &StoryData, health_changed: bool, m: StateModel) -> bool {
    &&& health_changed
    &&& m.stats.health == 0
    &&& story.death_check is Some
}

/// The model after `e` (if any), with the death-check reroute applied when
/// it fires.
pub open spec fn model_after_effects(
    story: &StoryData,
    m: StateModel,
    e: Option<Effects>,
) -> StateModel {
    let m1 = match e {
        Some(e) => model_apply_effects(m, e),
        None => m,
    };
    let hc = match e {
        Some(e) => e.health_change is Some,
        None => false,
    };
    if spec_death_triggers(story, hc, m1) {
        model_goto(m1, story.death_check->Some_0.override_next_node@)
    } else {
        m1
    }
}

/// Whether the death-check reroute fires for `e` applied at `m`.
pub open spec fn spec_reroutes(story: &StoryData, m: StateModel, e: Option<Effects>) -> bool {
    match e {
        Some(e) => spec_death_triggers(story, e.health_change is Some, model_apply_effects(m, e)),
        None => false,
    }
}

// ── Branch picking and choice filtering ──────────────────────

/// Index of the first branch whose condition holds, or `-1`.
pub open spec fn spec_pick_branch(branches: Seq<Branch>, m: StateModel) -> int
    decreases branches.len(),
{
    if branches.len() == 0 {
        -1
    } else if branches[0].condition.spec_holds(m) {
        0
    } else {
        let r = spec_pick_branch(branches.skip(1), m);
        if r == -1 {
            -1
        } else {
            r + 1
        }
    }
}

/// What `spec_pick_branch` finds: the first matching branch, earlier ones
/// all failing; or no match at all.
pub proof fn lemma_pick_branch(branches: Seq<Branch>, m: StateModel)
    ensures
        -1 <= spec_pick_branch(branches, m) < branches.len(),
        spec_pick_branch(branches, m) >= 0 ==> branches[spec_pick_branch(
            branches,
            m,
        )].condition.spec_holds(m),
        spec_pick_branch(branches, m) >= 0 ==> forall|j: int|
            0 <= j < spec_pick_branch(branches, m) ==> !branches[j].condition.spec_holds(m),
        spec_pick_branch(branches, m) == -1 ==> forall|j: int|
            0 <= j < branches.len() ==> !branches[j].condition.spec_holds(m),
    decreases branches.len(),
{
    if branches.len() > 0 && !branches[0].condition.spec_holds(m) {
        lemma_pick_branch(branches.skip(1), m);
        assert(forall|j: int| 1 <= j < branches.len() ==> branches[j] == branches.skip(1)[j - 1]);
    }
}

/// Branch ordering law: in a list `[a, b, c]` where `a`'s condition fails
/// and `b`'s holds, evaluation selects `b` — never the later catch-all `c`,
/// and never `a` again.
pub proof fn lemma_branch_ordering(branches: Seq<Branch>, m: StateModel)
    requires
        branches.len() == 3,
        !branches[0].condition.spec_holds(m),
        branches[1].condition.spec_holds(m),
    ensures
        spec_pick_branch(branches, m) == 1,
{
    assert(branches.skip(1)[0] == branches[1]);
    assert(branches.skip(1).len() == 2);
    assert(spec_pick_branch(branches.skip(1), m) == 0);
}

/// Evaluate the branches in order; the first whose condition holds wins.
pub fn pick_branch(branches: &Vec<Branch>, state: &GameState) -> (r: Option<usize>)
    ensures
        match r {
            Some(k) => k as int == spec_pick_branch(branches@, state@),
            None => spec_pick_branch(branches@, state@) == -1,
        },
{
    proof {
        lemma_pick_branch(branches@, state@);
    }
    let ghost pick = spec_pick_branch(branches@, state@);
    let mut i: usize = 0;
    while i < branches.len()
        invariant
            0 <= i <= branches@.len(),
            pick == spec_pick_branch(branches@, state@),
            -1 <= pick < branches@.len(),
            pick >= 0 ==> branches@[pick].condition.spec_holds(state@),
            pick >= 0 ==> forall|j: int|
                0 <= j < pick ==> !branches@[j].condition.spec_holds(state@),
            pick == -1 ==> forall|j: int|
                0 <= j < branches@.len() ==> !branches@[j].condition.spec_holds(state@),
            forall|j: int| 0 <= j < i ==> !branches@[j].condition.spec_holds(state@),
        decreases branches@.len() - i,
    {
        if branches[i].condition.evaluate(state) {
            proof {
                assert(pick == i as int);
            }
            return Some(i);
        }
        i += 1;
    }
    None
}

/// Whether a choice is offered: unconditioned, or its condition holds.
pub open spec fn spec_choice_available(c: Choice, m: StateModel) -> bool {
    match c.condition {
        Some(cond) => cond.spec_holds(m),
        None => true,
    }
}

/// Indices of the available choices, in declared order.
pub open spec fn spec_filtered_indices(choices: Seq<Choice>, m: StateModel) -> Seq<int>
    decreases choices.len(),
{
    if choices.len() == 0 {
        Seq::empty()
    } else {
        let front = spec_filtered_indices(choices.drop_last(), m);
        if spec_choice_available(choices.last(), m) {
            front.push(choices.len() - 1)
        } else {
            front
        }
    }
}

/// The filtered indices are in range, strictly increasing, and list exactly
/// the available choices.
pub proof fn lemma_filtered_indices(choices: Seq<Choice>, m: StateModel)
    ensures
        forall|k: int|
            0 <= k < spec_filtered_indices(choices, m).len() ==> 0 <= #[trigger] spec_filtered_indices(
                choices,
                m,
            )[k] < choices.len(),
        forall|k: int|
            0 <= k < spec_filtered_indices(choices, m).len() ==> spec_choice_available(
                choices[#[trigger] spec_filtered_indices(choices, m)[k]],
                m,
            ),
        forall|k1: int, k2: int|
            0 <= k1 < k2 < spec_filtered_indices(choices, m).len()
                ==> #[trigger] spec_filtered_indices(choices, m)[k1]
                < #[trigger] spec_filtered_indices(choices, m)[k2],
        forall|j: int|
            0 <= j < choices.len() && spec_choice_available(#[trigger] choices[j], m)
                ==> spec_filtered_indices(choices, m).contains(j),
    decreases choices.len(),
{
    if choices.len() > 0 {
        lemma_filtered_indices(choices.drop_last(), m);
        let front = spec_filtered_indices(choices.drop_last(), m);
        let whole = spec_filtered_indices(choices, m);
        assert(forall|j: int|
            0 <= j < choices.len() - 1 ==> choices.drop_last()[j] == choices[j]);
        assert forall|j: int|
            0 <= j < choices.len() && spec_choice_available(
                #[trigger] choices[j],
                m,
            ) implies whole.contains(j) by {
            if j == choices.len() - 1 {
                assert(whole.last() == j);
            } else {
                assert(front.contains(j));
                let k = choose|k: int| 0 <= k < front.len() && front[k] == j;
                assert(whole[k] == j);
            }
        }
    }
}

/// Compute the available choices' indices by evaluating each condition.
pub fn filtered_indices(choices: &Vec<Choice>, state: &GameState) -> (r: Vec<usize>)
    ensures
        r@.map_values(|u: usize| u as int) == spec_filtered_indices(choices@, state@),
{
    let mut out: Vec<usize> = Vec::new();
    let mut i: usize = 0;
    proof {
        assert(choices@.take(0) =~= Seq::<Choice>::empty());
        assert(out@.map_values(|u: usize| u as int) =~= spec_filtered_indices(
            choices@.take(0),
            state@,
        ));
    }
    while i < choices.len()
        invariant
            0 <= i <= choices@.len(),
            out@.map_values(|u: usize| u as int) == spec_filtered_indices(
                choices@.take(i as int),
                state@,
            ),
        decreases choices@.len() - i,
    {
        let available = match &choices[i].condition {
            Some(cond) => cond.evaluate(state),
            None => true,
        };
        proof {
            assert(choices@.take(i as int + 1).drop_last() =~= choices@.take(i as int));
            assert(choices@.take(i as int + 1).last() == choices@[i as int]);
        }
        if available {
            out.push(i);
            proof {
                assert(out@.map_values(|u: usize| u as int) =~= spec_filtered_indices(
                    choices@.take(i as int),
                    state@,
                ).push(i as int));
            }
        }
        i += 1;
    }
    proof {
        assert(choices@.take(choices@.len() as int) =~= choices@);
    }
    out
}

/// The labels of the choices at `idxs`, in the given language.
pub open spec fn spec_labels(choices: Seq<Choice>, idxs: Seq<int>, lang: Language) -> Seq<
    Seq<char>,
> {
    idxs.map_values(|i: int| choices[i].label.spec_get(lang))
}

/// Whether every label reads "...", marking a silent routing node.
pub open spec fn spec_all_ellipsis(labels: Seq<Seq<char>>) -> bool {
    forall|k: int| 0 <= k < labels.len() ==> labels[k] == "..."@
}

// ── The node-visit function, on models ───────────────────────

/// The view of an optional id.
pub open spec fn spec_opt_id(o: Option<String>) -> Option<Seq<char>> {
    match o {
        Some(s) => Some(s@),
        None => None,
    }
}

/// Where a delayed node resolves to: the first choice's target when choices
/// are present (a routing artifact that must not crash), else `next_node`.
pub open spec fn spec_wait_target(n: StoryNode) -> Option<Seq<char>> {
    match n.choices {
        Some(cs) => if cs@.len() > 0 {
            Some(cs@[0].next_node@)
        } else {
            spec_opt_id(n.next_node)
        },
        None => spec_opt_id(n.next_node),
    }
}

/// Auto-advance along `next_node`, or report a dead end.
pub open spec fn spec_next_step(n: StoryNode, m: StateModel) -> (StateModel, OutcomeModel) {
    match n.next_node {
        Some(nx) => (model_goto(m, nx@), OutcomeModel::Advanced),
        None => (m, OutcomeModel::DeadEnd),
    }
}

/// The model after taking choice `c`: its effects apply (with the death
/// check); unless the death check rerouted, the current node moves to the
/// choice's target.
pub open spec fn model_apply_choice(story: &StoryData, m: StateModel, c: Choice) -> StateModel {
    let ma = model_after_effects(story, m, c.on_choose);
    if spec_reroutes(story, m, c.on_choose) {
        ma
    } else {
        model_goto(ma, c.next_node@)
    }
}

/// The choice step of a node visit: filter the choices; with none left fall
/// back to `next_node`; with only "..." labels route silently along the
/// first one; otherwise await the player's pick.
pub open spec fn spec_choices_step(
    story: &StoryData,
    n: StoryNode,
    m: StateModel,
    lang: Language,
) -> (StateModel, OutcomeModel) {
    match n.choices {
        Some(cs) => if cs@.len() > 0 {
            let idxs = spec_filtered_indices(cs@, m);
            if idxs.len() == 0 {
                spec_next_step(n, m)
            } else {
                let labels = spec_labels(cs@, idxs, lang);
                if spec_all_ellipsis(labels) {
                    (model_apply_choice(story, m, cs@[idxs[0]]), OutcomeModel::Advanced)
                } else {
                    (m, OutcomeModel::AwaitingChoice { labels })
                }
            }
        } else {
            spec_next_step(n, m)
        },
        None => spec_next_step(n, m),
    }
}

/// One full node visit as a function of the state model: entry effects and
/// death check first; then the messages; then, in order, ending, delay,
/// branches, choices, auto-advance, dead end. Branches only reroute: when
/// none matches, the visit falls through to the choice step, and only a
/// node with nothing else left fails closed on its unmatched branches.
pub open spec fn spec_enter(story: &StoryData, pre: StateModel, now: int, debug: bool) -> (
    StateModel,
    Seq<Seq<char>>,
    OutcomeModel,
) {
    match story.nodes.spec_get(pre.current_node) {
        None => (pre, Seq::<Seq<char>>::empty(), OutcomeModel::MissingNode),
        Some(n) => {
            let m1 = model_after_effects(story, pre, n.on_enter);
            if spec_reroutes(story, pre, n.on_enter) {
                (m1, Seq::<Seq<char>>::empty(), OutcomeModel::Advanced)
            } else {
                let lang = pre.language;
                let texts = spec_localized(n.messages@, lang);
                let m2 = model_log_texts(m1, texts, now);
                match n.ending {
                    Some(key) => (model_end(m2, key@), texts, OutcomeModel::Ended { key: key@ }),
                    None => match n.delay {
                        Some(d) => match spec_wait_target(n) {
                            Some(target) => {
                                let until = spec_sat_add(
                                    now,
                                    spec_effective_delay(debug, d.seconds) as int,
                                );
                                (
                                    model_wait(m2, target, until),
                                    texts,
                                    OutcomeModel::Waiting {
                                        until,
                                        message: d.message.spec_get(lang),
                                    },
                                )
                            },
                            None => (m2, texts, OutcomeModel::DeadEnd),
                        },
                        None => match n.branch {
                            Some(bs) => if bs@.len() > 0 {
                                let k = spec_pick_branch(bs@, m2);
                                if k >= 0 {
                                    (
                                        model_goto(m2, bs@[k].next_node@),
                                        texts,
                                        OutcomeModel::Advanced,
                                    )
                                } else {
                                    // No branch matched: the branches only
                                    // reroute, so fall through to the choice
                                    // step; fail closed on the unmatched
                                    // branches only when nothing else
                                    // remains.
                                    let p = spec_choices_step(story, n, m2, lang);
                                    if p.1 is DeadEnd {
                                        (m2, texts, OutcomeModel::NoBranchMatched)
                                    } else {
                                        (p.0, texts, p.1)
                                    }
                                }
                            } else {
                                let p = spec_choices_step(story, n, m2, lang);
                                (p.0, texts, p.1)
                            },
                            None => {
                                let p = spec_choices_step(story, n, m2, lang);
                                (p.0, texts, p.1)
                            },
                        },
                    },
                }
            }
        },
    }
}

/// The model after the player picks entry `index` of the offered (filtered)
/// choices: the label is logged as the player's line, then the choice
/// applies; out-of-range picks change nothing.
pub open spec fn spec_select(story: &StoryData, pre: StateModel, index: int, now: int) -> (
    StateModel,
    bool,
) {
    match story.nodes.spec_get(pre.current_node) {
        None => (pre, false),
        Some(n) => match n.choices {
            Some(cs) => if cs@.len() > 0 {
                let idxs = spec_filtered_indices(cs@, pre);
                if 0 <= index < idxs.len() {
                    let c = cs@[idxs[index]];
                    let logged = model_log(
                        pre,
                        Sender::Player,
                        c.label.spec_get(pre.language),
                        now,
                    );
                    (model_apply_choice(story, logged, c), true)
                } else {
                    (pre, false)
                }
            } else {
                (pre, false)
            },
            None => (pre, false),
        },
    }
}

// ── Executable interpreter ───────────────────────────────────

/// Apply `e` to the state and run the global death check: when an effect
/// touched health, health is exhausted and the story declares an override
/// route, the current node moves there.
fn apply_effects_checked(story: &StoryData, state: &mut GameState, e: &Effects) -> (rerouted:
    bool)
    ensures
        final(state)@ == model_after_effects(story, old(state)@, Some(*e)),
        rerouted == spec_reroutes(story, old(state)@, Some(*e)),
        old(state).wf() ==> final(state).wf(),
{
    let hc = e.apply(state);
    proof {
        assert(state@ == model_apply_effects(old(state)@, *e));
    }
    if hc && state.stats.health == 0 {
        if let Some(dc) = &story.death_check {
            state.current_node = dc.override_next_node.clone();
            return true;
        }
    }
    false
}

/// Append one message to the log.
fn log_message(state: &mut GameState, sender: Sender, text: &str, now: i64)
    ensures
        final(state)@ == model_log(old(state)@, sender, text@, now as int),
        old(state).wf() ==> final(state).wf(),
{
    state.message_log.push(LogEntry { sender, text: text.to_owned(), timestamp: now });
    proof {
        assert(state.message_log.deep_view() =~= old(state).message_log.deep_view().push(
            LogModel { sender, text: text@, timestamp: now as int },
        ));
    }
}

/// The labels of the choices at `idxs`, resolved to `lang`.
fn labels_for(choices: &Vec<Choice>, idxs: &Vec<usize>, lang: Language) -> (r: Vec<String>)
    requires
        forall|k: int| 0 <= k < idxs@.len() ==> (#[trigger] idxs@[k]) < choices@.len(),
    ensures
        r.deep_view() == spec_labels(choices@, idxs@.map_values(|u: usize| u as int), lang),
{
    let ghost idxs_int = idxs@.map_values(|u: usize| u as int);
    let mut out: Vec<String> = Vec::new();
    let mut k: usize = 0;
    proof {
        assert(out.deep_view() =~= spec_labels(choices@, idxs_int.take(0), lang));
    }
    while k < idxs.len()
        invariant
            idxs_int == idxs@.map_values(|u: usize| u as int),
            idxs_int.len() == idxs@.len(),
            forall|j: int| 0 <= j < idxs@.len() ==> (#[trigger] idxs@[j]) < choices@.len(),
            0 <= k <= idxs@.len(),
            out.deep_view() == spec_labels(choices@, idxs_int.take(k as int), lang),
        decreases idxs@.len() - k,
    {
        let ci = idxs[k];
        let label = choices[ci].label.get(lang);
        out.push(label.to_owned());
        proof {
            assert(idxs_int[k as int] == idxs@[k as int] as int);
            assert(out.deep_view() =~= spec_labels(choices@, idxs_int.take(k as int), lang).push(
                choices@[idxs_int[k as int]].label.spec_get(lang),
            ));
            assert(spec_labels(choices@, idxs_int.take(k as int + 1), lang) =~= spec_labels(
                choices@,
                idxs_int.take(k as int),
                lang,
            ).push(choices@[idxs_int[k as int]].label.spec_get(lang)));
        }
        k += 1;
    }
    proof {
        assert(idxs_int.take(idxs@.len() as int) =~= idxs_int);
    }
    out
}

/// Whether every offered label reads "...".
fn all_ellipsis(labels: &Vec<String>) -> (r: bool)
    ensures
        r == spec_all_ellipsis(labels.deep_view()),
{
    proof {
        reveal_strlit("...");
    }
    let ghost dv = labels.deep_view();
    let mut k: usize = 0;
    while k < labels.len()
        invariant
            dv == labels.deep_view(),
            dv.len() == labels@.len(),
            0 <= k <= labels@.len(),
            forall|j: int| 0 <= j < k ==> dv[j] == "..."@,
        decreases labels@.len() - k,
    {
        proof {
            assert(dv[k as int] == labels@[k as int]@);
        }
        if !crate::text::str_eq(labels[k].as_str(), "...") {
            return false;
        }
        k += 1;
    }
    true
}

/// Apply a selected (or auto-routed) choice: its effects, the death check,
/// and the move to its target.
fn apply_choice(story: &StoryData, state: &mut GameState, c: &Choice)
    ensures
        final(state)@ == model_apply_choice(story, old(state)@, *c),
        old(state).wf() ==> final(state).wf(),
{
    let mut rerouted = false;
    if let Some(e) = &c.on_choose {
        rerouted = apply_effects_checked(story, state, e);
    }
    if !rerouted {
        state.current_node = c.next_node.clone();
    }
}

/// Perform one node visit on the current node: apply entry effects (and the
/// death check), log and return the node's messages, and resolve what comes
/// next — a matching branch reroutes, and otherwise the node's choices or
/// auto-advance still stand. The visit is exactly `spec_enter` of the prior
/// state model.
pub fn enter_node(story: &StoryData, state: &mut GameState, now: i64, debug: bool) -> (frame:
    Frame)
    ensures
        final(state)@ == spec_enter(story, old(state)@, now as int, debug).0,
        frame.messages.deep_view() == spec_enter(story, old(state)@, now as int, debug).1,
        frame.outcome.deep_view() == spec_enter(story, old(state)@, now as int, debug).2,
        old(state).wf() ==> final(state).wf(),
{
    let ghost pre = old(state)@;
    let node = match story.nodes.get(state.current_node.as_str()) {
        Some(n) => n,
        None => {
            return Frame { messages: Vec::new(), outcome: Outcome::MissingNode };
        },
    };
    let ghost n = *node;

    // Step 1: entry effects, before anything else becomes observable, and
    // the global death check right after them.
    let mut rerouted = false;
    if let Some(e) = &node.on_enter {
        rerouted = apply_effects_checked(story, state, e);
    }
    let ghost m1 = model_after_effects(story, pre, n.on_enter);
    proof {
        assert(state@ == m1);
    }
    if rerouted {
        return Frame { messages: Vec::new(), outcome: Outcome::Advanced };
    }

    // Step 2: the node's messages, in declared order, logged as they are
    // produced.
    let lang = state.language;
    let ghost texts = spec_localized(n.messages@, lang);
    let mut msgs: Vec<String> = Vec::new();
    let mut i: usize = 0;
    proof {
        assert(msgs.deep_view() =~= texts.take(0));
        assert(model_log_texts(m1, texts.take(0), now as int) == m1);
    }
    while i < node.messages.len()
        invariant
            texts == spec_localized(node.messages@, lang),
            texts.len() == node.messages@.len(),
            0 <= i <= node.messages@.len(),
            msgs.deep_view() == texts.take(i as int),
            state@ == model_log_texts(m1, texts.take(i as int), now as int),
            old(state).wf() ==> state.wf(),
        decreases node.messages@.len() - i,
    {
        let text = node.messages[i].get(lang);
        msgs.push(text.to_owned());
        log_message(state, Sender::Elara, text, now);
        proof {
            assert(texts[i as int] == node.messages@[i as int].spec_get(lang));
            assert(msgs.deep_view() =~= texts.take(i as int).push(texts[i as int]));
            assert(msgs.deep_view() =~= texts.take(i as int + 1));
            assert(texts.take(i as int + 1).drop_last() =~= texts.take(i as int));
            assert(texts.take(i as int + 1).last() == texts[i as int]);
        }
        i += 1;
    }
    proof {
        assert(texts.take(node.messages@.len() as int) =~= texts);
    }
    let ghost m2 = model_log_texts(m1, texts, now as int);

    // Step 3: an ending is terminal; record it.
    if let Some(key) = &node.ending {
        state.ending = Some(key.clone());
        return Frame { messages: msgs, outcome: Outcome::Ended { key: key.clone() } };
    }

    // Step 4: a delay schedules a wait on the resolved target.
    if let Some(d) = &node.delay {
        let mut target: Option<String> = None;
        if let Some(cs) = &node.choices {
            if cs.len() > 0 {
                target = Some(cs[0].next_node.clone());
            }
        }
        if target.is_none() {
            if let Some(nx) = &node.next_node {
                target = Some(nx.clone());
            }
        }
        match target {
            Some(t) => {
                state.current_node = t;
                crate::wait::schedule_wait_at(state, now, d.seconds, debug);
                let until = match state.waiting_until {
                    Some(u) => u,
                    None => 0,
                };
                let message = d.message.get(lang).to_owned();
                return Frame { messages: msgs, outcome: Outcome::Waiting { until, message } };
            },
            None => {
                return Frame { messages: msgs, outcome: Outcome::DeadEnd };
            },
        }
    }

    // Step 5: branches, first match wins. Branches only reroute: when none
    // matches, the node's choices (or auto-advance) still stand, so fall
    // through; only a node with nothing else fails closed below.
    let mut branch_unmatched = false;
    if let Some(bs) = &node.branch {
        if bs.len() > 0 {
            match pick_branch(bs, state) {
                Some(k) => {
                    proof {
                        lemma_pick_branch(bs@, state@);
                    }
                    state.current_node = bs[k].next_node.clone();
                    return Frame { messages: msgs, outcome: Outcome::Advanced };
                },
                None => {
                    branch_unmatched = true;
                },
            }
        }
    }

    // Step 6: choices, filtered by their conditions.
    if let Some(cs) = &node.choices {
        if cs.len() > 0 {
            let idxs = filtered_indices(cs, state);
            proof {
                lemma_filtered_indices(cs@, state@);
            }
            if idxs.len() == 0 {
                if let Some(nx) = &node.next_node {
                    state.current_node = nx.clone();
                    return Frame { messages: msgs, outcome: Outcome::Advanced };
                }
                if branch_unmatched {
                    return Frame { messages: msgs, outcome: Outcome::NoBranchMatched };
                }
                return Frame { messages: msgs, outcome: Outcome::DeadEnd };
            }
            proof {
                assert forall|k: int| 0 <= k < idxs@.len() implies (#[trigger] idxs@[k])
                    < cs@.len() by {
                    assert(idxs@.map_values(|u: usize| u as int)[k] == idxs@[k] as int);
                }
                assert(idxs@.map_values(|u: usize| u as int)[0] == idxs@[0] as int);
            }
            let labels = labels_for(cs, &idxs, lang);
            if all_ellipsis(&labels) {
                let ci = idxs[0];
                apply_choice(story, state, &cs[ci]);
                return Frame { messages: msgs, outcome: Outcome::Advanced };
            }
            return Frame { messages: msgs, outcome: Outcome::AwaitingChoice { labels } };
        }
    }

    // Step 7: linear auto-advance.
    if let Some(nx) = &node.next_node {
        state.current_node = nx.clone();
        return Frame { messages: msgs, outcome: Outcome::Advanced };
    }

    // Step 8: nothing remains; the validator should have refused this
    // graph. Unmatched branches are named as such.
    if branch_unmatched {
        return Frame { messages: msgs, outcome: Outcome::NoBranchMatched };
    }
    Frame { messages: msgs, outcome: Outcome::DeadEnd }
}

/// Apply the player's pick among the offered (filtered) choices: log its
/// label as the player's line, apply its effects, move to its target.
/// Returns whether a choice was applied; out-of-range indices are ignored.
pub fn select_choice(story: &StoryData, state: &mut GameState, index: usize, now: i64) -> (applied:
    bool)
    ensures
        final(state)@ == spec_select(story, old(state)@, index as int, now as int).0,
        applied == spec_select(story, old(state)@, index as int, now as int).1,
        old(state).wf() ==> final(state).wf(),
{
    let ghost pre = old(state)@;
    let node = match story.nodes.get(state.current_node.as_str()) {
        Some(n) => n,
        None => {
            return false;
        },
    };
    if let Some(cs) = &node.choices {
        if cs.len() > 0 {
            let idxs = filtered_indices(cs, state);
            proof {
                lemma_filtered_indices(cs@, state@);
            }
            if index < idxs.len() {
                proof {
                    assert forall|k: int| 0 <= k < idxs@.len() implies (#[trigger] idxs@[k])
                        < cs@.len() by {
                        assert(idxs@.map_values(|u: usize| u as int)[k] == idxs@[k] as int);
                    }
                    assert(idxs@.map_values(|u: usize| u as int)[index as int]
                        == idxs@[index as int] as int);
                }
                let ci = idxs[index];
                let label = cs[ci].label.get(state.language);
                log_message(state, Sender::Player, label, now);
                apply_choice(story, state, &cs[ci]);
                return true;
            }
            return false;
        }
    }
    false
}

} // verus!
