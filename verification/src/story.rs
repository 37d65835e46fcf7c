//! The story-graph data model: nodes, choices, effects, branch conditions,
//! delays, ending metadata, and the graph container keyed by node id.

use vstd::prelude::*;

use crate::game::{GameState, Stats};
use crate::i18n::LocalizedString;

verus! {

/// Story metadata: title, start node, timing configuration.
#[derive(Clone, Debug)]
pub struct StoryMeta {
    pub title: String,
    pub version: String,
    pub start_node: String,
    pub default_typing_delay_ms: u64,
    pub debug_delay_override_seconds: u64,
}

/// Definition of a tracked stat: initial value and bounds.
#[derive(Clone, Debug)]
pub struct StatDef {
    pub initial: i32,
    pub min: i32,
    pub max: i32,
    pub description: String,
}

/// Ending condition hints, kept as authored documentation; the runtime
/// routes to endings through branches, not through these.
#[derive(Clone, Debug)]
pub struct EndingConditions {
    pub min_trust: Option<i32>,
    pub max_trust: Option<i32>,
    pub min_health: Option<i32>,
    pub health_equals: Option<i32>,
    pub flags_required: Vec<String>,
}

/// Localized ending metadata.
#[derive(Clone, Debug)]
pub struct EndingInfo {
    pub title: LocalizedString,
    pub ending_type: String,
    pub conditions: Option<EndingConditions>,
}

/// Global death-check rule: when an effect touches health and it reaches
/// zero, the story reroutes to `override_next_node`.
#[derive(Clone, Debug)]
pub struct DeathCheck {
    pub description: String,
    pub trigger: String,
    pub override_next_node: String,
}

/// Effects applied when entering a node or selecting a choice.
#[derive(Clone, Debug, Default)]
pub struct Effects {
    pub trust_change: Option<i32>,
    pub health_change: Option<i32>,
    pub supplies_change: Option<i32>,
    pub flags_set: Vec<String>,
    pub flags_remove: Vec<String>,
    /// Authored hint, not interpreted at runtime (flags carry the logic).
    pub has_medicine_conditional: Option<bool>,
}

/// Real-time delay with a localized waiting message.
#[derive(Clone, Debug)]
pub struct DelayInfo {
    pub seconds: u64,
    pub message: LocalizedString,
}

/// A condition gating a branch or a choice.
#[derive(Clone, Debug, Default)]
pub struct BranchCondition {
    pub flags_required: Vec<String>,
    pub flags_absent: Vec<String>,
    pub min_trust: Option<i32>,
    pub max_trust: Option<i32>,
    pub min_health: Option<i32>,
    pub max_health: Option<i32>,
    /// A catch-all: evaluates to true regardless of the other fields.
    pub default: bool,
}

/// A conditional branch entry; a node's branches are evaluated in order and
/// the first match wins.
#[derive(Clone, Debug)]
pub struct Branch {
    pub condition: BranchCondition,
    pub next_node: String,
}

/// A player choice within a story node.
#[derive(Clone, Debug)]
pub struct Choice {
    pub label: LocalizedString,
    pub next_node: String,
    pub on_choose: Option<Effects>,
    /// If present, the choice is offered only while the condition holds.
    pub condition: Option<BranchCondition>,
}

/// A single story node.
#[derive(Clone, Debug)]
pub struct StoryNode {
    pub id: String,
    pub act: Option<u32>,
    pub title: Option<String>,
    pub messages: Vec<LocalizedString>,
    pub choices: Option<Vec<Choice>>,
    pub next_node: Option<String>,
    pub delay: Option<DelayInfo>,
    pub ending: Option<String>,
    pub on_enter: Option<Effects>,
    pub branch: Option<Vec<Branch>>,
}

impl BranchCondition {
    /// A condition with no requirements and no bounds (never the default).
    pub fn none() -> (c: BranchCondition)
        ensures
            c.flags_required@.len() == 0,
            c.flags_absent@.len() == 0,
            c.min_trust is None,
            c.max_trust is None,
            c.min_health is None,
            c.max_health is None,
            !c.default,
    {
        BranchCondition {
            flags_required: Vec::new(),
            flags_absent: Vec::new(),
            min_trust: None,
            max_trust: None,
            min_health: None,
            max_health: None,
            default: false,
        }
    }

    /// Whether the condition holds of a state model: a default condition
    /// always does; otherwise every required flag is present, every excluded
    /// flag is absent, and every stat bound is met.
    pub open spec fn spec_holds(&self, m: crate::game::StateModel) -> bool {
        ||| self.default
        ||| {
            &&& forall|i: int|
                0 <= i < self.flags_required@.len() ==> m.flags.contains(
                    #[trigger] self.flags_required@[i]@,
                )
            &&& forall|i: int|
                0 <= i < self.flags_absent@.len() ==> !m.flags.contains(
                    #[trigger] self.flags_absent@[i]@,
                )
            &&& (self.min_trust matches Some(b) ==> m.stats.trust >= b)
            &&& (self.max_trust matches Some(b) ==> m.stats.trust <= b)
            &&& (self.min_health matches Some(b) ==> m.stats.health >= b)
            &&& (self.max_health matches Some(b) ==> m.stats.health <= b)
        }
    }

    /// `spec_holds`, read off an executable state.
    pub open spec fn spec_evaluate(&self, state: &GameState) -> bool {
        self.spec_holds(state@)
    }

    /// Evaluate whether this condition is met. Pure: the state is only read.
    pub fn evaluate(&self, state: &GameState) -> (r: bool)
        ensures
            r == self.spec_evaluate(state),
    {
        if self.default {
            return true;
        }
        let mut i: usize = 0;
        while i < self.flags_required.len()
            invariant
                !self.default,
                0 <= i <= self.flags_required@.len(),
                forall|j: int|
                    0 <= j < i ==> state.spec_has_flag(#[trigger] self.flags_required@[j]@),
            decreases self.flags_required@.len() - i,
        {
            if !state.has_flag(self.flags_required[i].as_str()) {
                proof {
                    assert(!state.spec_has_flag(self.flags_required@[i as int]@));
                    assert(!self.spec_evaluate(state));
                }
                return false;
            }
            i += 1;
        }
        let mut i: usize = 0;
        while i < self.flags_absent.len()
            invariant
                !self.default,
                0 <= i <= self.flags_absent@.len(),
                forall|j: int|
                    0 <= j < self.flags_required@.len() ==> state.spec_has_flag(
                        #[trigger] self.flags_required@[j]@,
                    ),
                forall|j: int|
                    0 <= j < i ==> !state.spec_has_flag(#[trigger] self.flags_absent@[j]@),
            decreases self.flags_absent@.len() - i,
        {
            if state.has_flag(self.flags_absent[i].as_str()) {
                proof {
                    assert(state.spec_has_flag(self.flags_absent@[i as int]@));
                    assert(!self.spec_evaluate(state));
                }
                return false;
            }
            i += 1;
        }
        if let Some(m) = self.min_trust {
            if state.stats.trust < m {
                return false;
            }
        }
        if let Some(m) = self.max_trust {
            if state.stats.trust > m {
                return false;
            }
        }
        if let Some(m) = self.min_health {
            if state.stats.health < m {
                return false;
            }
        }
        if let Some(m) = self.max_health {
            if state.stats.health > m {
                return false;
            }
        }
        true
    }
}

impl Effects {
    /// Effects that change nothing.
    pub fn none() -> (e: Effects)
        ensures
            e.trust_change is None,
            e.health_change is None,
            e.supplies_change is None,
            e.flags_set@.len() == 0,
            e.flags_remove@.len() == 0,
            e.has_medicine_conditional is None,
    {
        Effects {
            trust_change: None,
            health_change: None,
            supplies_change: None,
            flags_set: Vec::new(),
            flags_remove: Vec::new(),
            has_medicine_conditional: None,
        }
    }

    /// The stats after this effect's deltas, applied in the order trust,
    /// health, supplies, each clamped.
    pub open spec fn spec_apply_stats(&self, s: Stats) -> Stats {
        let s1 = match self.trust_change {
            Some(d) => s.spec_modify("trust"@, d as int),
            None => s,
        };
        let s2 = match self.health_change {
            Some(d) => s1.spec_modify("health"@, d as int),
            None => s1,
        };
        match self.supplies_change {
            Some(d) => s2.spec_modify("supplies"@, d as int),
            None => s2,
        }
    }

    /// The flag set after adding `add` (in order) and then removing `rem`
    /// (in order).
    pub open spec fn spec_apply_flags(
        flags: Seq<Seq<char>>,
        add: Seq<Seq<char>>,
        rem: Seq<Seq<char>>,
    ) -> Seq<Seq<char>> {
        crate::game::spec_remove_all(crate::game::spec_add_all(flags, add), rem)
    }

    /// Apply stat changes and flag modifications to the game state.
    /// Returns whether health was touched, for the global death check.
    pub fn apply(&self, state: &mut GameState) -> (health_changed: bool)
        ensures
            final(state).stats == self.spec_apply_stats(old(state).stats),
            final(state).flags.deep_view() == Effects::spec_apply_flags(
                old(state).flags.deep_view(),
                self.flags_set.deep_view(),
                self.flags_remove.deep_view(),
            ),
            final(state).current_node == old(state).current_node,
            final(state).language == old(state).language,
            final(state).waiting_until == old(state).waiting_until,
            final(state).message_log == old(state).message_log,
            final(state).ending == old(state).ending,
            final(state).day == old(state).day,
            old(state).wf() ==> final(state).wf(),
            health_changed == self.health_change is Some,
    {
        let mut health_changed = false;
        if let Some(delta) = self.trust_change {
            state.stats.modify("trust", delta);
        }
        if let Some(delta) = self.health_change {
            state.stats.modify("health", delta);
            health_changed = true;
        }
        if let Some(delta) = self.supplies_change {
            state.stats.modify("supplies", delta);
        }
        let ghost flags0 = state.flags.deep_view();
        let ghost add = self.flags_set.deep_view();
        proof {
            assert(add.take(0) =~= Seq::<Seq<char>>::empty());
        }
        let mut i: usize = 0;
        while i < self.flags_set.len()
            invariant
                add == self.flags_set.deep_view(),
                add.len() == self.flags_set@.len(),
                0 <= i <= self.flags_set@.len(),
                state.flags.deep_view() == crate::game::spec_add_all(flags0, add.take(i as int)),
                state.stats == self.spec_apply_stats(old(state).stats),
                state.current_node == old(state).current_node,
                state.language == old(state).language,
                state.waiting_until == old(state).waiting_until,
                state.message_log == old(state).message_log,
                state.ending == old(state).ending,
                state.day == old(state).day,
                old(state).wf() ==> state.wf(),
            decreases self.flags_set@.len() - i,
        {
            proof {
                assert(add[i as int] == self.flags_set@[i as int]@);
            }
            state.set_flag(self.flags_set[i].as_str());
            i += 1;
            proof {
                assert(add.take(i as int).drop_last() =~= add.take(i as int - 1));
                assert(add.take(i as int).last() == add[i as int - 1]);
            }
        }
        proof {
            assert(add.take(self.flags_set@.len() as int) =~= add);
        }
        let ghost flags1 = state.flags.deep_view();
        let ghost rem = self.flags_remove.deep_view();
        proof {
            assert(rem.take(0) =~= Seq::<Seq<char>>::empty());
        }
        let mut i: usize = 0;
        while i < self.flags_remove.len()
            invariant
                rem == self.flags_remove.deep_view(),
                rem.len() == self.flags_remove@.len(),
                0 <= i <= self.flags_remove@.len(),
                state.flags.deep_view() == crate::game::spec_remove_all(
                    flags1,
                    rem.take(i as int),
                ),
                flags1 == crate::game::spec_add_all(flags0, add),
                state.stats == self.spec_apply_stats(old(state).stats),
                state.current_node == old(state).current_node,
                state.language == old(state).language,
                state.waiting_until == old(state).waiting_until,
                state.message_log == old(state).message_log,
                state.ending == old(state).ending,
                state.day == old(state).day,
                old(state).wf() ==> state.wf(),
            decreases self.flags_remove@.len() - i,
        {
            proof {
                assert(rem[i as int] == self.flags_remove@[i as int]@);
            }
            state.remove_flag(self.flags_remove[i].as_str());
            i += 1;
            proof {
                assert(rem.take(i as int).drop_last() =~= rem.take(i as int - 1));
                assert(rem.take(i as int).last() == rem[i as int - 1]);
            }
        }
        proof {
            assert(rem.take(self.flags_remove@.len() as int) =~= rem);
        }
        health_changed
    }
}

/// Index of the first node with id `id`, or `-1` when there is none.
pub open spec fn spec_node_index(nodes: Seq<StoryNode>, id: Seq<char>) -> int
    decreases nodes.len(),
{
    if nodes.len() == 0 {
        -1
    } else if nodes[0].id@ == id {
        0
    } else {
        let r = spec_node_index(nodes.skip(1), id);
        if r == -1 {
            -1
        } else {
            r + 1
        }
    }
}

/// What `spec_node_index` finds: an in-range first match, or no match at all.
pub proof fn lemma_node_index(nodes: Seq<StoryNode>, id: Seq<char>)
    ensures
        -1 <= spec_node_index(nodes, id) < nodes.len(),
        spec_node_index(nodes, id) >= 0 ==> nodes[spec_node_index(nodes, id)].id@ == id,
        spec_node_index(nodes, id) >= 0 ==> forall|j: int|
            0 <= j < spec_node_index(nodes, id) ==> nodes[j].id@ != id,
        spec_node_index(nodes, id) == -1 ==> forall|j: int|
            0 <= j < nodes.len() ==> nodes[j].id@ != id,
    decreases nodes.len(),
{
    if nodes.len() > 0 && nodes[0].id@ != id {
        lemma_node_index(nodes.skip(1), id);
        assert(forall|j: int| 1 <= j < nodes.len() ==> nodes[j] == nodes.skip(1)[j - 1]);
    }
}

/// The story graph: a mapping from node id to node, id lookups resolving to
/// the unique node that carries the id.
#[derive(Clone, Debug)]
pub struct StoryGraph {
    nodes: Vec<StoryNode>,
}

impl View for StoryGraph {
    type V = Seq<StoryNode>;

    closed spec fn view(&self) -> Seq<StoryNode> {
        self.nodes@
    }
}

impl StoryGraph {
    /// Node ids are globally unique.
    pub open spec fn wf(&self) -> bool {
        forall|i: int, j: int| 0 <= i < j < self@.len() ==> self@[i].id@ != self@[j].id@
    }

    /// Whether some node carries id `id`.
    pub open spec fn spec_contains(&self, id: Seq<char>) -> bool {
        spec_node_index(self@, id) >= 0
    }

    /// The node carrying id `id`, if any.
    pub open spec fn spec_get(&self, id: Seq<char>) -> Option<StoryNode> {
        if spec_node_index(self@, id) >= 0 {
            Some(self@[spec_node_index(self@, id)])
        } else {
            None
        }
    }

    /// An empty graph.
    pub fn new() -> (g: StoryGraph)
        ensures
            g@ =~= Seq::<StoryNode>::empty(),
            g.wf(),
    {
        StoryGraph { nodes: Vec::new() }
    }

    /// Number of nodes.
    pub fn len(&self) -> (n: usize)
        ensures
            n == self@.len(),
    {
        self.nodes.len()
    }

    /// The node at position `i`, in insertion order.
    pub fn node_at(&self, i: usize) -> (r: &StoryNode)
        requires
            i < self@.len(),
        ensures
            *r == self@[i as int],
    {
        &self.nodes[i]
    }

    /// Insert a node; a node with the same id is replaced in place. Every id
    /// already present stays present, and the new node's id is present.
    pub fn insert(&mut self, node: StoryNode)
        ensures
            final(self)@ == (if spec_node_index(old(self)@, node.id@) >= 0 {
                old(self)@.update(spec_node_index(old(self)@, node.id@), node)
            } else {
                old(self)@.push(node)
            }),
            old(self).wf() ==> final(self).wf(),
            forall|id: Seq<char>|
                #[trigger] old(self).spec_contains(id) ==> final(self).spec_contains(id),
            final(self).spec_contains(node.id@),
    {
        proof {
            lemma_node_index(old(self)@, node.id@);
        }
        let ghost idx = spec_node_index(old(self)@, node.id@);
        let mut i: usize = 0;
        while i < self.nodes.len()
            invariant
                self == old(self),
                0 <= i <= self@.len(),
                forall|j: int| 0 <= j < i ==> self@[j].id@ != node.id@,
                idx == spec_node_index(self@, node.id@),
                -1 <= idx < self@.len(),
                idx >= 0 ==> self@[idx].id@ == node.id@,
                idx >= 0 ==> forall|j: int| 0 <= j < idx ==> self@[j].id@ != node.id@,
                idx == -1 ==> forall|j: int| 0 <= j < self@.len() ==> self@[j].id@ != node.id@,
            decreases self@.len() - i,
        {
            if crate::text::str_eq(self.nodes[i].id.as_str(), node.id.as_str()) {
                proof {
                    assert(idx == i as int);
                }
                let _ = self.nodes.remove(i);
                self.nodes.insert(i, node);
                proof {
                    assert(self@ =~= old(self)@.update(idx, node));
                    if old(self).wf() {
                        assert(self.wf()) by {
                            assert(forall|k: int|
                                0 <= k < self@.len() ==> self@[k].id@ == (if k == idx {
                                    node.id@
                                } else {
                                    old(self)@[k].id@
                                }));
                        }
                    }
                    assert forall|id: Seq<char>| #[trigger]
                        old(self).spec_contains(id) implies self.spec_contains(id) by {
                        lemma_node_index(old(self)@, id);
                        lemma_node_index(self@, id);
                        let w = spec_node_index(old(self)@, id);
                        assert(self@[w].id@ == id);
                        if spec_node_index(self@, id) == -1 {
                            assert(self@[w].id@ != id);
                        }
                    }
                    assert(self.spec_contains(node.id@)) by {
                        lemma_node_index(self@, node.id@);
                        assert(self@[idx].id@ == node.id@);
                        if spec_node_index(self@, node.id@) == -1 {
                            assert(self@[idx].id@ != node.id@);
                        }
                    }
                }
                return ;
            }
            i += 1;
        }
        self.nodes.push(node);
        proof {
            assert(self@ =~= old(self)@.push(node));
            if old(self).wf() {
                assert(forall|k: int| 0 <= k < old(self)@.len() ==> self@[k] == old(self)@[k]);
            }
            assert forall|id: Seq<char>| #[trigger]
                old(self).spec_contains(id) implies self.spec_contains(id) by {
                lemma_node_index(old(self)@, id);
                lemma_node_index(self@, id);
                let w = spec_node_index(old(self)@, id);
                assert(self@[w].id@ == id);
                if spec_node_index(self@, id) == -1 {
                    assert(self@[w].id@ != id);
                }
            }
            assert(self.spec_contains(node.id@)) by {
                lemma_node_index(self@, node.id@);
                assert(self@[old(self)@.len() as int].id@ == node.id@);
                if spec_node_index(self@, node.id@) == -1 {
                    assert(self@[old(self)@.len() as int].id@ != node.id@);
                }
            }
        }
    }

    /// Look a node up by id.
    pub fn get(&self, id: &str) -> (r: Option<&StoryNode>)
        ensures
            match r {
                Some(node) => self.spec_get(id@) == Some(*node),
                None => self.spec_get(id@) is None,
            },
    {
        proof {
            lemma_node_index(self@, id@);
        }
        let ghost idx = spec_node_index(self@, id@);
        let mut i: usize = 0;
        while i < self.nodes.len()
            invariant
                0 <= i <= self@.len(),
                forall|j: int| 0 <= j < i ==> self@[j].id@ != id@,
                idx == spec_node_index(self@, id@),
                -1 <= idx < self@.len(),
                idx >= 0 ==> self@[idx].id@ == id@,
                idx >= 0 ==> forall|j: int| 0 <= j < idx ==> self@[j].id@ != id@,
                idx == -1 ==> forall|j: int| 0 <= j < self@.len() ==> self@[j].id@ != id@,
            decreases self@.len() - i,
        {
            if crate::text::str_eq(self.nodes[i].id.as_str(), id) {
                proof {
                    assert(idx == i as int);
                }
                return Some(&self.nodes[i]);
            }
            i += 1;
        }
        None
    }

    /// Whether the graph holds a node with id `id`.
    pub fn contains_key(&self, id: &str) -> (r: bool)
        ensures
            r == self.spec_contains(id@),
    {
        self.get(id).is_some()
    }
}

/// Top-level story data: metadata, stat definitions, flag glossary, ending
/// glossary, the node graph, and the global death-check rule.
#[derive(Clone, Debug)]
pub struct StoryData {
    pub meta: StoryMeta,
    /// Stat definitions keyed by stat name.
    pub stats: Vec<(String, StatDef)>,
    /// Flag documentation keyed by flag name.
    pub flags: Vec<(String, String)>,
    /// Ending metadata keyed by ending key.
    pub endings: Vec<(String, EndingInfo)>,
    /// All story nodes keyed by their unique id.
    pub nodes: StoryGraph,
    /// Global death-check rule.
    pub death_check: Option<DeathCheck>,
}

/// First `StatDef` associated with `name`, if any.
pub open spec fn spec_assoc_stat(s: Seq<(String, StatDef)>, name: Seq<char>) -> Option<StatDef>
    decreases s.len(),
{
    if s.len() == 0 {
        None
    } else if s[0].0@ == name {
        Some(s[0].1)
    } else {
        spec_assoc_stat(s.skip(1), name)
    }
}

/// First `EndingInfo` associated with `key`, if any.
pub open spec fn spec_assoc_ending(
    s: Seq<(String, EndingInfo)>,
    key: Seq<char>,
) -> Option<EndingInfo>
    decreases s.len(),
{
    if s.len() == 0 {
        None
    } else if s[0].0@ == key {
        Some(s[0].1)
    } else {
        spec_assoc_ending(s.skip(1), key)
    }
}

impl StoryData {
    /// Look up ending info by its string key.
    pub fn ending_info(&self, key: &str) -> (r: Option<&EndingInfo>)
        ensures
            match r {
                Some(info) => spec_assoc_ending(self.endings@, key@) == Some(*info),
                None => spec_assoc_ending(self.endings@, key@) is None,
            },
    {
        proof {
            assert(self.endings@.skip(0) =~= self.endings@);
        }
        let mut i: usize = 0;
        while i < self.endings.len()
            invariant
                0 <= i <= self.endings@.len(),
                spec_assoc_ending(self.endings@, key@) == spec_assoc_ending(
                    self.endings@.skip(i as int),
                    key@,
                ),
            decreases self.endings@.len() - i,
        {
            if crate::text::str_eq(self.endings[i].0.as_str(), key) {
                proof {
                    assert(self.endings@.skip(i as int)[0] == self.endings@[i as int]);
                }
                return Some(&self.endings[i].1);
            }
            proof {
                assert(self.endings@.skip(i as int)[0] == self.endings@[i as int]);
                assert(self.endings@.skip(i as int).skip(1) =~= self.endings@.skip(i as int + 1));
            }
            i += 1;
        }
        proof {
            assert(self.endings@.skip(i as int).len() == 0);
        }
        None
    }

    /// Look up a stat definition by name.
    pub fn stat_def(&self, name: &str) -> (r: Option<&StatDef>)
        ensures
            match r {
                Some(def) => spec_assoc_stat(self.stats@, name@) == Some(*def),
                None => spec_assoc_stat(self.stats@, name@) is None,
            },
    {
        proof {
            assert(self.stats@.skip(0) =~= self.stats@);
        }
        let mut i: usize = 0;
        while i < self.stats.len()
            invariant
                0 <= i <= self.stats@.len(),
                spec_assoc_stat(self.stats@, name@) == spec_assoc_stat(
                    self.stats@.skip(i as int),
                    name@,
                ),
            decreases self.stats@.len() - i,
        {
            if crate::text::str_eq(self.stats[i].0.as_str(), name) {
                proof {
                    assert(self.stats@.skip(i as int)[0] == self.stats@[i as int]);
                }
                return Some(&self.stats[i].1);
            }
            proof {
                assert(self.stats@.skip(i as int)[0] == self.stats@[i as int]);
                assert(self.stats@.skip(i as int).skip(1) =~= self.stats@.skip(i as int + 1));
            }
            i += 1;
        }
        proof {
            assert(self.stats@.skip(i as int).len() == 0);
        }
        None
    }
}

} // verus!
