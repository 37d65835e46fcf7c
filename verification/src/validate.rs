//! The load-time graph validator: referential integrity, dead ends,
//! reachability from the start node, and ending coverage.

use vstd::prelude::*;

use crate::story::{StoryData, StoryGraph, StoryNode};

verus! {

/// One integrity violation found in a story graph.
#[derive(Clone, Debug)]
pub enum ValidationError {
    /// The designated start node is absent.
    MissingStartNode { id: String },
    /// A `next_node` reference points at no node.
    DanglingNext { from: String, to: String },
    /// A choice's target points at no node.
    DanglingChoice { from: String, to: String },
    /// A branch's target points at no node.
    DanglingBranch { from: String, to: String },
    /// A node with no choices, no `next_node`, no branches and no ending.
    DeadEndNode { id: String },
    /// A node that no path from the start node reaches.
    Unreachable { id: String },
    /// No node carries an ending key.
    NoEndings,
}

/// Mathematical model of a validation error.
pub ghost enum ErrorModel {
    MissingStartNode { id: Seq<char> },
    DanglingNext { from: Seq<char>, to: Seq<char> },
    DanglingChoice { from: Seq<char>, to: Seq<char> },
    DanglingBranch { from: Seq<char>, to: Seq<char> },
    DeadEndNode { id: Seq<char> },
    Unreachable { id: Seq<char> },
    NoEndings,
}

impl DeepView for ValidationError {
    type V = ErrorModel;

    open spec fn deep_view(&self) -> ErrorModel {
        match self {
            ValidationError::MissingStartNode { id } => ErrorModel::MissingStartNode { id: id@ },
            ValidationError::DanglingNext { from, to } => ErrorModel::DanglingNext {
                from: from@,
                to: to@,
            },
            ValidationError::DanglingChoice { from, to } => ErrorModel::DanglingChoice {
                from: from@,
                to: to@,
            },
            ValidationError::DanglingBranch { from, to } => ErrorModel::DanglingBranch {
                from: from@,
                to: to@,
            },
            ValidationError::DeadEndNode { id } => ErrorModel::DeadEndNode { id: id@ },
            ValidationError::Unreachable { id } => ErrorModel::Unreachable { id: id@ },
            ValidationError::NoEndings => ErrorModel::NoEndings,
        }
    }
}

/// What must really hold of the graph for one reported error to be true:
/// each variant names an actual violation (for `Unreachable`, that the id is
/// a node's; whether it is truly unreachable is stated separately).
pub open spec fn spec_error_sound(s: &StoryData, e: ErrorModel) -> bool {
    match e {
        ErrorModel::MissingStartNode { id } => id == s.meta.start_node@
            && !s.nodes.spec_contains(id),
        ErrorModel::DanglingNext { from, to } => exists|i: int|
            0 <= i < s.nodes@.len() && (#[trigger] s.nodes@[i]).id@ == from
                && s.nodes@[i].next_node is Some && s.nodes@[i].next_node->Some_0@ == to
                && !s.nodes.spec_contains(to),
        ErrorModel::DanglingChoice { from, to } => exists|i: int, j: int|
            #![trigger s.nodes@[i].choices->Some_0@[j]]
            0 <= i < s.nodes@.len() && s.nodes@[i].id@ == from && s.nodes@[i].choices is Some
                && 0 <= j < s.nodes@[i].choices->Some_0@.len()
                && s.nodes@[i].choices->Some_0@[j].next_node@ == to && !s.nodes.spec_contains(
                to,
            ),
        ErrorModel::DanglingBranch { from, to } => exists|i: int, j: int|
            #![trigger s.nodes@[i].branch->Some_0@[j]]
            0 <= i < s.nodes@.len() && s.nodes@[i].id@ == from && s.nodes@[i].branch is Some
                && 0 <= j < s.nodes@[i].branch->Some_0@.len()
                && s.nodes@[i].branch->Some_0@[j].next_node@ == to && !s.nodes.spec_contains(
                to,
            ),
        ErrorModel::DeadEndNode { id } => exists|i: int|
            0 <= i < s.nodes@.len() && (#[trigger] s.nodes@[i]).id@ == id
                && !spec_has_way_forward(s.nodes@[i]),
        ErrorModel::Unreachable { id } => exists|i: int|
            0 <= i < s.nodes@.len() && (#[trigger] s.nodes@[i]).id@ == id,
        ErrorModel::NoEndings => forall|i: int|
            0 <= i < s.nodes@.len() ==> (#[trigger] s.nodes@[i]).ending is None,
    }
}

/// Every reported error is true of the graph.
pub open spec fn spec_errors_sound(s: &StoryData, errs: Seq<ErrorModel>) -> bool {
    forall|k: int| 0 <= k < errs.len() ==> spec_error_sound(s, #[trigger] errs[k])
}

/// Soundness carries over a push of one more sound error.
pub proof fn lemma_sound_push(s: &StoryData, before: Seq<ErrorModel>, e: ErrorModel)
    requires
        spec_errors_sound(s, before),
        spec_error_sound(s, e),
    ensures
        spec_errors_sound(s, before.push(e)),
{
    assert forall|k: int|
        0 <= k < before.push(e).len() implies spec_error_sound(
        s,
        #[trigger] before.push(e)[k],
    ) by {
        if k < before.len() {
            assert(before.push(e)[k] == before[k]);
        } else {
            assert(before.push(e)[k] == e);
        }
    }
}

/// Soundness carries over concatenation.
pub proof fn lemma_sound_concat(s: &StoryData, a: Seq<ErrorModel>, b: Seq<ErrorModel>)
    requires
        spec_errors_sound(s, a),
        spec_errors_sound(s, b),
    ensures
        spec_errors_sound(s, a + b),
{
    assert forall|k: int|
        0 <= k < (a + b).len() implies spec_error_sound(s, #[trigger] (a + b)[k]) by {
        if k < a.len() {
            assert((a + b)[k] == a[k]);
        } else {
            assert((a + b)[k] == b[k - a.len()]);
        }
    }
}

/// Membership carries over a push.
pub proof fn lemma_contains_push<T>(s: Seq<T>, x: T)
    ensures
        forall|e: T| #[trigger] s.contains(e) ==> s.push(x).contains(e),
        s.push(x).contains(x),
        forall|e: T| s.push(x).contains(e) ==> s.contains(e) || e == x,
{
    assert forall|e: T| #[trigger] s.contains(e) implies s.push(x).contains(e) by {
        let k = choose|k: int| 0 <= k < s.len() && s[k] == e;
        assert(s.push(x)[k] == e);
    }
    assert(s.push(x)[s.len() as int] == x);
    assert forall|e: T| s.push(x).contains(e) implies s.contains(e) || e == x by {
        let k = choose|k: int| 0 <= k < s.push(x).len() && s.push(x)[k] == e;
        if k < s.len() {
            assert(s[k] == e);
        }
    }
}

/// Membership in a concatenation comes from one of the parts.
pub proof fn lemma_contains_concat<T>(a: Seq<T>, b: Seq<T>)
    ensures
        forall|e: T| #[trigger] (a + b).contains(e) <==> a.contains(e) || b.contains(e),
{
    assert forall|e: T| #[trigger] (a + b).contains(e) implies a.contains(e) || b.contains(e) by {
        let k = choose|k: int| 0 <= k < (a + b).len() && (a + b)[k] == e;
        if k < a.len() {
            assert(a[k] == e);
        } else {
            assert(b[k - a.len()] == e);
        }
    }
    assert forall|e: T| a.contains(e) || b.contains(e) implies #[trigger] (a + b).contains(e) by {
        if a.contains(e) {
            let k = choose|k: int| 0 <= k < a.len() && a[k] == e;
            assert((a + b)[k] == e);
        } else {
            let k = choose|k: int| 0 <= k < b.len() && b[k] == e;
            assert((a + b)[a.len() + k] == e);
        }
    }
}

/// Whether a node offers any way forward.
pub open spec fn spec_has_way_forward(n: StoryNode) -> bool {
    ||| n.next_node is Some
    ||| (n.choices matches Some(cs) && cs@.len() > 0)
    ||| n.ending is Some
    ||| (n.branch matches Some(bs) && bs@.len() > 0)
}

/// The ids a node references, over all three edge kinds.
pub open spec fn spec_targets(n: StoryNode) -> Seq<Seq<char>> {
    (match n.next_node {
        Some(nx) => seq![nx@],
        None => Seq::<Seq<char>>::empty(),
    }) + (match n.choices {
        Some(cs) => cs@.map_values(|c: crate::story::Choice| c.next_node@),
        None => Seq::<Seq<char>>::empty(),
    }) + (match n.branch {
        Some(bs) => bs@.map_values(|b: crate::story::Branch| b.next_node@),
        None => Seq::<Seq<char>>::empty(),
    })
}

/// A directed edge: some node carries id `a` and references `b`.
pub open spec fn spec_edge(g: Seq<StoryNode>, a: Seq<char>, b: Seq<char>) -> bool {
    exists|i: int| 0 <= i < g.len() && g[i].id@ == a && spec_targets(g[i]).contains(b)
}

/// `to` lies within `k` edge steps of `from`.
pub open spec fn spec_reachable_in(g: Seq<StoryNode>, from: Seq<char>, to: Seq<char>, k: nat) -> bool
    decreases k,
{
    if from == to {
        true
    } else if k == 0 {
        false
    } else {
        exists|mid: Seq<char>|
            #[trigger] spec_edge(g, from, mid) && spec_reachable_in(g, mid, to, (k - 1) as nat)
    }
}

/// `to` is reachable from `from` along the graph's edges.
pub open spec fn spec_reachable(g: Seq<StoryNode>, from: Seq<char>, to: Seq<char>) -> bool {
    exists|k: nat| spec_reachable_in(g, from, to, k)
}

/// Reachability extends along one more edge.
pub proof fn lemma_reachable_step(g: Seq<StoryNode>, a: Seq<char>, b: Seq<char>, c: Seq<char>)
    requires
        spec_reachable(g, a, b),
        spec_edge(g, b, c),
    ensures
        spec_reachable(g, a, c),
{
    let k = choose|k: nat| spec_reachable_in(g, a, b, k);
    lemma_reachable_in_step(g, a, b, c, k);
    assert(spec_reachable_in(g, a, c, (k + 1) as nat));
}

proof fn lemma_reachable_in_step(g: Seq<StoryNode>, a: Seq<char>, b: Seq<char>, c: Seq<char>, k: nat)
    requires
        spec_reachable_in(g, a, b, k),
        spec_edge(g, b, c),
    ensures
        spec_reachable_in(g, a, c, (k + 1) as nat),
    decreases k,
{
    if a == b {
        assert(spec_reachable_in(g, c, c, k));
    } else {
        let mid = choose|mid: Seq<char>|
            #[trigger] spec_edge(g, a, mid) && spec_reachable_in(g, mid, b, (k - 1) as nat);
        lemma_reachable_in_step(g, mid, b, c, (k - 1) as nat);
        assert(spec_edge(g, a, mid) && spec_reachable_in(g, mid, c, k));
    }
}

/// A set of ids that holds the start and is closed under edges holds every
/// reachable id.
pub proof fn lemma_closed_holds_reachable(
    g: Seq<StoryNode>,
    v: Seq<Seq<char>>,
    from: Seq<char>,
    to: Seq<char>,
    k: nat,
)
    requires
        v.contains(from),
        forall|a: Seq<char>, b: Seq<char>|
            #![trigger v.contains(a), spec_edge(g, a, b)]
            v.contains(a) && spec_edge(g, a, b) ==> v.contains(b),
        spec_reachable_in(g, from, to, k),
    ensures
        v.contains(to),
    decreases k,
{
    if from != to {
        let mid = choose|mid: Seq<char>|
            #[trigger] spec_edge(g, from, mid) && spec_reachable_in(g, mid, to, (k - 1) as nat);
        assert(v.contains(mid));
        lemma_closed_holds_reachable(g, v, mid, to, (k - 1) as nat);
    }
}

/// Structural integrity of a story graph, as the validator checks it: the
/// start node exists; every reference of every kind resolves; every node has
/// a way forward; every node is reachable from the start (the death check's
/// override target counting as reachable); and some node carries an ending.
pub open spec fn spec_graph_valid(s: &StoryData) -> bool {
    let g = s.nodes@;
    let start = s.meta.start_node@;
    &&& s.nodes.spec_contains(start)
    &&& forall|i: int|
        0 <= i < g.len() && (#[trigger] g[i]).next_node is Some ==> s.nodes.spec_contains(
            g[i].next_node->Some_0@,
        )
    &&& forall|i: int, j: int|
        #![trigger g[i].choices->Some_0@[j]]
        0 <= i < g.len() && g[i].choices is Some && 0 <= j < g[i].choices->Some_0@.len()
            ==> s.nodes.spec_contains(g[i].choices->Some_0@[j].next_node@)
    &&& forall|i: int, j: int|
        #![trigger g[i].branch->Some_0@[j]]
        0 <= i < g.len() && g[i].branch is Some && 0 <= j < g[i].branch->Some_0@.len()
            ==> s.nodes.spec_contains(g[i].branch->Some_0@[j].next_node@)
    &&& forall|i: int| 0 <= i < g.len() ==> spec_has_way_forward(#[trigger] g[i])
    &&& forall|i: int|
        0 <= i < g.len() ==> (spec_reachable(g, start, (#[trigger] g[i]).id@) || (
        match s.death_check {
            Some(dc) => dc.override_next_node@ == g[i].id@,
            None => false,
        }))
    &&& exists|i: int| 0 <= i < g.len() && (#[trigger] g[i]).ending is Some
}

impl StoryData {
    /// Report every dangling reference: a `next_node`, choice target or
    /// branch target that no node carries.
    fn dangling_errors(&self) -> (r: Vec<ValidationError>)
        ensures
            forall|i: int|
                0 <= i < self.nodes@.len() && (#[trigger] self.nodes@[i]).next_node is Some
                    && !self.nodes.spec_contains(self.nodes@[i].next_node->Some_0@)
                    ==> r.deep_view().contains(
                    ErrorModel::DanglingNext {
                        from: self.nodes@[i].id@,
                        to: self.nodes@[i].next_node->Some_0@,
                    },
                ),
            forall|i: int, j: int|
                #![trigger self.nodes@[i].choices->Some_0@[j]]
                0 <= i < self.nodes@.len() && self.nodes@[i].choices is Some && 0 <= j
                    < self.nodes@[i].choices->Some_0@.len() && !self.nodes.spec_contains(
                    self.nodes@[i].choices->Some_0@[j].next_node@,
                ) ==> r.deep_view().contains(
                    ErrorModel::DanglingChoice {
                        from: self.nodes@[i].id@,
                        to: self.nodes@[i].choices->Some_0@[j].next_node@,
                    },
                ),
            forall|i: int, j: int|
                #![trigger self.nodes@[i].branch->Some_0@[j]]
                0 <= i < self.nodes@.len() && self.nodes@[i].branch is Some && 0 <= j
                    < self.nodes@[i].branch->Some_0@.len() && !self.nodes.spec_contains(
                    self.nodes@[i].branch->Some_0@[j].next_node@,
                ) ==> r.deep_view().contains(
                    ErrorModel::DanglingBranch {
                        from: self.nodes@[i].id@,
                        to: self.nodes@[i].branch->Some_0@[j].next_node@,
                    },
                ),
            forall|k: int|
                0 <= k < r.deep_view().len() ==> ((#[trigger] r.deep_view()[k]) is DanglingNext
                    || r.deep_view()[k] is DanglingChoice || r.deep_view()[k] is DanglingBranch),
            spec_errors_sound(self, r.deep_view()),
    {
        let mut errors: Vec<ValidationError> = Vec::new();
        let n = self.nodes.len();
        let mut i: usize = 0;
        while i < n
            invariant
                n == self.nodes@.len(),
                0 <= i <= n,
                forall|i2: int|
                    0 <= i2 < i && (#[trigger] self.nodes@[i2]).next_node is Some
                        && !self.nodes.spec_contains(self.nodes@[i2].next_node->Some_0@)
                        ==> errors.deep_view().contains(
                        ErrorModel::DanglingNext {
                            from: self.nodes@[i2].id@,
                            to: self.nodes@[i2].next_node->Some_0@,
                        },
                    ),
                forall|i2: int, j: int|
                    #![trigger self.nodes@[i2].choices->Some_0@[j]]
                    0 <= i2 < i && self.nodes@[i2].choices is Some && 0 <= j
                        < self.nodes@[i2].choices->Some_0@.len() && !self.nodes.spec_contains(
                        self.nodes@[i2].choices->Some_0@[j].next_node@,
                    ) ==> errors.deep_view().contains(
                        ErrorModel::DanglingChoice {
                            from: self.nodes@[i2].id@,
                            to: self.nodes@[i2].choices->Some_0@[j].next_node@,
                        },
                    ),
                forall|i2: int, j: int|
                    #![trigger self.nodes@[i2].branch->Some_0@[j]]
                    0 <= i2 < i && self.nodes@[i2].branch is Some && 0 <= j
                        < self.nodes@[i2].branch->Some_0@.len() && !self.nodes.spec_contains(
                        self.nodes@[i2].branch->Some_0@[j].next_node@,
                    ) ==> errors.deep_view().contains(
                        ErrorModel::DanglingBranch {
                            from: self.nodes@[i2].id@,
                            to: self.nodes@[i2].branch->Some_0@[j].next_node@,
                        },
                    ),
                forall|k: int|
                    0 <= k < errors.deep_view().len() ==> ((#[trigger] errors.deep_view()[k])
                        is DanglingNext || errors.deep_view()[k] is DanglingChoice
                        || errors.deep_view()[k] is DanglingBranch),
                spec_errors_sound(self, errors.deep_view()),
            decreases n - i,
        {
            let node = self.nodes.node_at(i);
            if let Some(nx) = &node.next_node {
                if !self.nodes.contains_key(nx.as_str()) {
                    let ghost before = errors.deep_view();
                    let e = ValidationError::DanglingNext {
                        from: node.id.clone(),
                        to: nx.clone(),
                    };
                    let ghost em = e.deep_view();
                    errors.push(e);
                    proof {
                        assert(errors.deep_view() =~= before.push(em));
                        lemma_contains_push(before, em);
                        assert(spec_error_sound(self, em)) by {
                            assert(em == ErrorModel::DanglingNext { from: node.id@, to: nx@ });
                            assert(self.nodes@[i as int].id@ == node.id@);
                            assert(self.nodes@[i as int].next_node is Some);
                            assert(self.nodes@[i as int].next_node->Some_0@ == nx@);
                        }
                        lemma_sound_push(self, before, em);
                    }
                }
            }
            if let Some(cs) = &node.choices {
                let mut j: usize = 0;
                while j < cs.len()
                    invariant
                        n == self.nodes@.len(),
                        0 <= i < n,
                        *node == self.nodes@[i as int],
                        node.choices is Some,
                        cs@ == node.choices->Some_0@,
                        0 <= j <= cs@.len(),
                        forall|i2: int|
                            0 <= i2 <= i && (#[trigger] self.nodes@[i2]).next_node is Some
                                && !self.nodes.spec_contains(self.nodes@[i2].next_node->Some_0@)
                                ==> errors.deep_view().contains(
                                ErrorModel::DanglingNext {
                                    from: self.nodes@[i2].id@,
                                    to: self.nodes@[i2].next_node->Some_0@,
                                },
                            ),
                        forall|i2: int, j2: int|
                            #![trigger self.nodes@[i2].choices->Some_0@[j2]]
                            0 <= i2 < n && self.nodes@[i2].choices is Some && 0 <= j2
                                < self.nodes@[i2].choices->Some_0@.len() && (i2 < i || (i2 == i
                                && j2 < j)) && !self.nodes.spec_contains(
                                self.nodes@[i2].choices->Some_0@[j2].next_node@,
                            ) ==> errors.deep_view().contains(
                                ErrorModel::DanglingChoice {
                                    from: self.nodes@[i2].id@,
                                    to: self.nodes@[i2].choices->Some_0@[j2].next_node@,
                                },
                            ),
                        forall|i2: int, j2: int|
                            #![trigger self.nodes@[i2].branch->Some_0@[j2]]
                            0 <= i2 < i && self.nodes@[i2].branch is Some && 0 <= j2
                                < self.nodes@[i2].branch->Some_0@.len() && !self.nodes.spec_contains(
                                self.nodes@[i2].branch->Some_0@[j2].next_node@,
                            ) ==> errors.deep_view().contains(
                                ErrorModel::DanglingBranch {
                                    from: self.nodes@[i2].id@,
                                    to: self.nodes@[i2].branch->Some_0@[j2].next_node@,
                                },
                            ),
                        forall|k: int|
                            0 <= k < errors.deep_view().len() ==> ((
                            #[trigger] errors.deep_view()[k]) is DanglingNext
                                || errors.deep_view()[k] is DanglingChoice
                                || errors.deep_view()[k] is DanglingBranch),
                        spec_errors_sound(self, errors.deep_view()),
                    decreases cs@.len() - j,
                {
                    if !self.nodes.contains_key(cs[j].next_node.as_str()) {
                        let ghost before = errors.deep_view();
                        let e = ValidationError::DanglingChoice {
                            from: node.id.clone(),
                            to: cs[j].next_node.clone(),
                        };
                        let ghost em = e.deep_view();
                        errors.push(e);
                        proof {
                            assert(errors.deep_view() =~= before.push(em));
                            lemma_contains_push(before, em);
                            assert(spec_error_sound(self, em)) by {
                                assert(em == ErrorModel::DanglingChoice {
                                    from: node.id@,
                                    to: cs@[j as int].next_node@,
                                });
                                assert(self.nodes@[i as int].id@ == node.id@);
                                assert(self.nodes@[i as int].choices->Some_0@[j as int]
                                    == cs@[j as int]);
                            }
                            lemma_sound_push(self, before, em);
                        }
                    }
                    j += 1;
                }
            }
            if let Some(bs) = &node.branch {
                let mut j: usize = 0;
                while j < bs.len()
                    invariant
                        n == self.nodes@.len(),
                        0 <= i < n,
                        *node == self.nodes@[i as int],
                        node.branch is Some,
                        bs@ == node.branch->Some_0@,
                        0 <= j <= bs@.len(),
                        forall|i2: int|
                            0 <= i2 <= i && (#[trigger] self.nodes@[i2]).next_node is Some
                                && !self.nodes.spec_contains(self.nodes@[i2].next_node->Some_0@)
                                ==> errors.deep_view().contains(
                                ErrorModel::DanglingNext {
                                    from: self.nodes@[i2].id@,
                                    to: self.nodes@[i2].next_node->Some_0@,
                                },
                            ),
                        forall|i2: int, j2: int|
                            #![trigger self.nodes@[i2].choices->Some_0@[j2]]
                            0 <= i2 <= i && self.nodes@[i2].choices is Some && 0 <= j2
                                < self.nodes@[i2].choices->Some_0@.len() && !self.nodes.spec_contains(
                                self.nodes@[i2].choices->Some_0@[j2].next_node@,
                            ) ==> errors.deep_view().contains(
                                ErrorModel::DanglingChoice {
                                    from: self.nodes@[i2].id@,
                                    to: self.nodes@[i2].choices->Some_0@[j2].next_node@,
                                },
                            ),
                        forall|i2: int, j2: int|
                            #![trigger self.nodes@[i2].branch->Some_0@[j2]]
                            0 <= i2 < n && self.nodes@[i2].branch is Some && 0 <= j2
                                < self.nodes@[i2].branch->Some_0@.len() && (i2 < i || (i2 == i
                                && j2 < j)) && !self.nodes.spec_contains(
                                self.nodes@[i2].branch->Some_0@[j2].next_node@,
                            ) ==> errors.deep_view().contains(
                                ErrorModel::DanglingBranch {
                                    from: self.nodes@[i2].id@,
                                    to: self.nodes@[i2].branch->Some_0@[j2].next_node@,
                                },
                            ),
                        forall|k: int|
                            0 <= k < errors.deep_view().len() ==> ((
                            #[trigger] errors.deep_view()[k]) is DanglingNext
                                || errors.deep_view()[k] is DanglingChoice
                                || errors.deep_view()[k] is DanglingBranch),
                        spec_errors_sound(self, errors.deep_view()),
                    decreases bs@.len() - j,
                {
                    if !self.nodes.contains_key(bs[j].next_node.as_str()) {
                        let ghost before = errors.deep_view();
                        let e = ValidationError::DanglingBranch {
                            from: node.id.clone(),
                            to: bs[j].next_node.clone(),
                        };
                        let ghost em = e.deep_view();
                        errors.push(e);
                        proof {
                            assert(errors.deep_view() =~= before.push(em));
                            lemma_contains_push(before, em);
                            assert(spec_error_sound(self, em)) by {
                                assert(em == ErrorModel::DanglingBranch {
                                    from: node.id@,
                                    to: bs@[j as int].next_node@,
                                });
                                assert(self.nodes@[i as int].id@ == node.id@);
                                assert(self.nodes@[i as int].branch->Some_0@[j as int]
                                    == bs@[j as int]);
                            }
                            lemma_sound_push(self, before, em);
                        }
                    }
                    j += 1;
                }
            }
            i += 1;
        }
        errors
    }

    /// Report every dead end: a node with no way forward at all.
    fn dead_end_errors(&self) -> (r: Vec<ValidationError>)
        ensures
            forall|i: int|
                0 <= i < self.nodes@.len() && !spec_has_way_forward(#[trigger] self.nodes@[i])
                    ==> r.deep_view().contains(
                    ErrorModel::DeadEndNode { id: self.nodes@[i].id@ },
                ),
            forall|k: int|
                0 <= k < r.deep_view().len() ==> (#[trigger] r.deep_view()[k]) is DeadEndNode,
            spec_errors_sound(self, r.deep_view()),
    {
        let mut errors: Vec<ValidationError> = Vec::new();
        let n = self.nodes.len();
        let mut i: usize = 0;
        while i < n
            invariant
                n == self.nodes@.len(),
                0 <= i <= n,
                forall|i2: int|
                    0 <= i2 < i && !spec_has_way_forward(#[trigger] self.nodes@[i2])
                        ==> errors.deep_view().contains(
                        ErrorModel::DeadEndNode { id: self.nodes@[i2].id@ },
                    ),
                forall|k: int|
                    0 <= k < errors.deep_view().len() ==> (#[trigger] errors.deep_view()[k])
                        is DeadEndNode,
                spec_errors_sound(self, errors.deep_view()),
            decreases n - i,
        {
            let node = self.nodes.node_at(i);
            let has_next = node.next_node.is_some();
            let has_choices = match &node.choices {
                Some(cs) => cs.len() > 0,
                None => false,
            };
            let has_ending = node.ending.is_some();
            let has_branch = match &node.branch {
                Some(bs) => bs.len() > 0,
                None => false,
            };
            if !has_next && !has_choices && !has_ending && !has_branch {
                let ghost before = errors.deep_view();
                let e = ValidationError::DeadEndNode { id: node.id.clone() };
                let ghost em = e.deep_view();
                errors.push(e);
                proof {
                    assert(errors.deep_view() =~= before.push(em));
                    lemma_contains_push(before, em);
                    assert(spec_error_sound(self, em)) by {
                        assert(em == ErrorModel::DeadEndNode { id: node.id@ });
                        assert(self.nodes@[i as int].id@ == node.id@);
                        assert(!spec_has_way_forward(self.nodes@[i as int]));
                    }
                    lemma_sound_push(self, before, em);
                }
            }
            i += 1;
        }
        errors
    }
}

/// How many node ids of `g` are not yet in `v`: the BFS termination metric.
pub open spec fn count_unvisited(g: Seq<StoryNode>, v: Seq<Seq<char>>) -> nat
    decreases g.len(),
{
    if g.len() == 0 {
        0
    } else {
        count_unvisited(g.drop_last(), v) + (if v.contains(g.last().id@) {
            0nat
        } else {
            1nat
        })
    }
}

/// The metric is non-negative and never grows as ids are visited; it drops
/// when a present id is visited for the first time, and stays put when the
/// visited id belongs to no node.
pub proof fn lemma_count_unvisited_push(g: Seq<StoryNode>, v: Seq<Seq<char>>, x: Seq<char>)
    ensures
        0 <= count_unvisited(g, v),
        count_unvisited(g, v.push(x)) <= count_unvisited(g, v),
        (exists|i: int| 0 <= i < g.len() && (#[trigger] g[i].id@) == x) && !v.contains(x)
            ==> count_unvisited(g, v.push(x)) < count_unvisited(g, v),
        (forall|i: int| 0 <= i < g.len() ==> (#[trigger] g[i].id@) != x) ==> count_unvisited(
            g,
            v.push(x),
        ) == count_unvisited(g, v),
    decreases g.len(),
{
    lemma_contains_push(v, x);
    if g.len() > 0 {
        lemma_count_unvisited_push(g.drop_last(), v, x);
        let front = g.drop_last();
        assert(forall|i: int| 0 <= i < front.len() ==> front[i] == g[i]);
        if (exists|i: int| 0 <= i < g.len() && (#[trigger] g[i].id@) == x) && !v.contains(x) {
            let i = choose|i: int| 0 <= i < g.len() && (#[trigger] g[i].id@) == x;
            if i == g.len() - 1 {
                assert(g.last().id@ == x);
                assert(v.push(x).contains(x));
            } else {
                assert(front[i].id@ == x);
                assert(count_unvisited(front, v.push(x)) < count_unvisited(front, v));
            }
        }
        if (forall|i: int| 0 <= i < g.len() ==> (#[trigger] g[i].id@) != x) {
            assert(g.last().id@ != x);
            assert(v.push(x).contains(g.last().id@) == v.contains(g.last().id@));
        }
    }
}

impl StoryData {
    /// The ids a node references, in order, over all three edge kinds.
    fn targets_of(node: &StoryNode) -> (r: Vec<String>)
        ensures
            r.deep_view() == spec_targets(*node),
    {
        let mut out: Vec<String> = Vec::new();
        let ghost p1 = (if node.next_node is Some {
            seq![node.next_node->Some_0@]
        } else {
            Seq::<Seq<char>>::empty()
        });
        let ghost p2 = (if node.choices is Some {
            node.choices->Some_0@.map_values(|c: crate::story::Choice| c.next_node@)
        } else {
            Seq::<Seq<char>>::empty()
        });
        let ghost p3 = (if node.branch is Some {
            node.branch->Some_0@.map_values(|b: crate::story::Branch| b.next_node@)
        } else {
            Seq::<Seq<char>>::empty()
        });
        if let Some(nx) = &node.next_node {
            out.push(nx.clone());
        }
        proof {
            assert(out.deep_view() =~= p1);
        }
        if let Some(cs) = &node.choices {
            let mut j: usize = 0;
            proof {
                assert(out.deep_view() =~= p1 + p2.take(0));
            }
            while j < cs.len()
                invariant
                    cs@ == node.choices->Some_0@,
                    p1 == (if node.next_node is Some {
                        seq![node.next_node->Some_0@]
                    } else {
                        Seq::<Seq<char>>::empty()
                    }),
                    p2 == cs@.map_values(|c: crate::story::Choice| c.next_node@),
                    0 <= j <= cs@.len(),
                    p2.len() == cs@.len(),
                    out.deep_view() == p1 + p2.take(j as int),
                decreases cs@.len() - j,
            {
                let ghost before = out.deep_view();
                out.push(cs[j].next_node.clone());
                proof {
                    assert(p2[j as int] == cs@[j as int].next_node@);
                    assert(out.deep_view() =~= before.push(p2[j as int]));
                    assert(p2.take(j as int + 1) =~= p2.take(j as int).push(p2[j as int]));
                    assert((p1 + p2.take(j as int)).push(p2[j as int]) =~= p1 + p2.take(
                        j as int,
                    ).push(p2[j as int]));
                }
                j += 1;
            }
            proof {
                assert(p2.take(cs@.len() as int) =~= p2);
            }
        }
        proof {
            assert(out.deep_view() =~= p1 + p2);
        }
        if let Some(bs) = &node.branch {
            let mut j: usize = 0;
            proof {
                assert(out.deep_view() =~= p1 + p2 + p3.take(0));
            }
            while j < bs.len()
                invariant
                    bs@ == node.branch->Some_0@,
                    p1 == (if node.next_node is Some {
                        seq![node.next_node->Some_0@]
                    } else {
                        Seq::<Seq<char>>::empty()
                    }),
                    p2 == (if node.choices is Some {
                        node.choices->Some_0@.map_values(|c: crate::story::Choice| c.next_node@)
                    } else {
                        Seq::<Seq<char>>::empty()
                    }),
                    p3 == bs@.map_values(|b: crate::story::Branch| b.next_node@),
                    0 <= j <= bs@.len(),
                    p3.len() == bs@.len(),
                    out.deep_view() == p1 + p2 + p3.take(j as int),
                decreases bs@.len() - j,
            {
                let ghost before = out.deep_view();
                out.push(bs[j].next_node.clone());
                proof {
                    assert(p3[j as int] == bs@[j as int].next_node@);
                    assert(out.deep_view() =~= before.push(p3[j as int]));
                    assert(p3.take(j as int + 1) =~= p3.take(j as int).push(p3[j as int]));
                    assert((p1 + p2 + p3.take(j as int)).push(p3[j as int]) =~= p1 + p2 + p3.take(
                        j as int,
                    ).push(p3[j as int]));
                }
                j += 1;
            }
            proof {
                assert(p3.take(bs@.len() as int) =~= p3);
            }
        }
        proof {
            assert(out.deep_view() =~= p1 + p2 + p3);
            assert(spec_targets(*node) == p1 + p2 + p3);
        }
        out
    }

    /// Breadth-first traversal from the start node, over all three edge
    /// kinds. What comes back holds exactly the ids that some path from the
    /// start reaches (dangling ids included: they are marked, without
    /// expansion).
    fn bfs_visited(&self) -> (r: Vec<String>)
        requires
            self.nodes.wf(),
        ensures
            forall|id: Seq<char>|
                spec_reachable(self.nodes@, self.meta.start_node@, id)
                    ==> #[trigger] r.deep_view().contains(id),
            forall|id: Seq<char>|
                #[trigger] r.deep_view().contains(id) ==> spec_reachable(
                    self.nodes@,
                    self.meta.start_node@,
                    id,
                ),
    {
        let ghost g = self.nodes@;
        let ghost start = self.meta.start_node@;
        let mut visited: Vec<String> = Vec::new();
        let mut queue: Vec<String> = Vec::new();
        queue.push(self.meta.start_node.clone());
        let mut qi: usize = 0;
        proof {
            assert(queue.deep_view() =~= seq![start]);
            assert(queue.deep_view().skip(0) =~= queue.deep_view());
            assert(queue.deep_view().skip(0).contains(start)) by {
                assert(queue.deep_view().skip(0)[0] == start);
            }
            assert(spec_reachable_in(g, start, start, 0));
            assert forall|v: Seq<char>| #[trigger]
                queue.deep_view().contains(v) implies spec_reachable(g, start, v) by {
                assert(v == start);
                assert(spec_reachable_in(g, start, v, 0));
            }
        }
        while qi < queue.len()
            invariant
                g == self.nodes@,
                start == self.meta.start_node@,
                self.nodes.wf(),
                0 <= qi <= queue@.len(),
                queue.deep_view().len() == queue@.len(),
                visited.deep_view().contains(start) || queue.deep_view().skip(
                    qi as int,
                ).contains(start),
                forall|a: Seq<char>, b: Seq<char>|
                    #![trigger visited.deep_view().contains(a), spec_edge(g, a, b)]
                    visited.deep_view().contains(a) && spec_edge(g, a, b)
                        ==> visited.deep_view().contains(b) || queue.deep_view().skip(
                        qi as int,
                    ).contains(b),
                forall|v: Seq<char>| #[trigger]
                    visited.deep_view().contains(v) ==> spec_reachable(g, start, v),
                forall|v: Seq<char>| #[trigger]
                    queue.deep_view().contains(v) ==> spec_reachable(g, start, v),
            decreases count_unvisited(g, visited.deep_view()), queue@.len() - qi,
        {
            let ghost v0 = visited.deep_view();
            let ghost q0 = queue.deep_view();
            let id = queue[qi].clone();
            proof {
                assert(q0[qi as int] == queue@[qi as int]@);
                assert(id@ == q0[qi as int]);
                assert(q0.contains(id@)) by {
                    assert(q0[qi as int] == id@);
                }
                assert(q0.skip(qi as int) =~= seq![id@] + q0.skip(qi as int + 1));
                lemma_contains_concat(seq![id@], q0.skip(qi as int + 1));
                lemma_count_unvisited_push(g, v0, id@);
            }
            if id_in(&visited, id.as_str()) {
                qi += 1;
                proof {
                    assert forall|a: Seq<char>, b: Seq<char>|
                        visited.deep_view().contains(a) && spec_edge(
                            g,
                            a,
                            b,
                        ) implies visited.deep_view().contains(b) || queue.deep_view().skip(
                        qi as int,
                    ).contains(b) by {
                        if q0.skip(qi as int - 1).contains(b) {
                            if seq![id@].contains(b) {
                                assert(b == id@);
                            }
                        }
                    }
                    if !visited.deep_view().contains(start) {
                        assert(q0.skip(qi as int - 1).contains(start));
                        if seq![id@].contains(start) {
                            assert(start == id@);
                            assert(visited.deep_view().contains(start));
                        }
                    }
                }
            } else {
                proof {
                    assert(queue.deep_view().contains(id@)) by {
                        assert(queue.deep_view()[qi as int] == id@);
                    }
                    assert(spec_reachable(g, start, id@));
                }
                visited.push(id.clone());
                proof {
                    assert(visited.deep_view() =~= v0.push(id@));
                    lemma_contains_push(v0, id@);
                    assert(visited.deep_view().contains(id@));
                    assert forall|v: Seq<char>| #[trigger]
                        visited.deep_view().contains(v) implies spec_reachable(g, start, v) by {
                        if v != id@ {
                            assert(v0.contains(v));
                        }
                    }
                }
                let node_opt = self.nodes.get(id.as_str());
                match node_opt {
                    Some(node) => {
                        proof {
                            crate::story::lemma_node_index(g, id@);
                        }
                        let ghost idx = crate::story::spec_node_index(g, id@);
                        let targets = Self::targets_of(node);
                        let ghost tv = targets.deep_view();
                        let mut t: usize = 0;
                        while t < targets.len()
                            invariant
                                g == self.nodes@,
                                start == self.meta.start_node@,
                                self.nodes.wf(),
                                0 <= qi < queue@.len(),
                                queue.deep_view().len() == queue@.len(),
                                q0.len() <= queue.deep_view().len(),
                                forall|k: int|
                                    0 <= k < q0.len() ==> #[trigger] queue.deep_view()[k]
                                        == q0[k],
                                tv == targets.deep_view(),
                                tv.len() == targets@.len(),
                                0 <= t <= targets@.len(),
                                0 <= idx < g.len(),
                                g[idx].id@ == id@,
                                tv == spec_targets(g[idx]),
                                queue.deep_view()[qi as int] == id@,
                                visited.deep_view() == v0.push(id@),
                                spec_reachable(g, start, id@),
                                visited.deep_view().contains(start) || queue.deep_view().skip(
                                    qi as int,
                                ).contains(start),
                                forall|a: Seq<char>, b: Seq<char>|
                                    #![trigger v0.contains(a), spec_edge(g, a, b)]
                                    v0.contains(a) && spec_edge(g, a, b) ==> v0.contains(b)
                                        || queue.deep_view().skip(qi as int).contains(b),
                                forall|k: int|
                                    0 <= k < t ==> queue.deep_view().skip(qi as int).contains(
                                        #[trigger] tv[k],
                                    ),
                                forall|v: Seq<char>| #[trigger]
                                    visited.deep_view().contains(v) ==> spec_reachable(
                                        g,
                                        start,
                                        v,
                                    ),
                                forall|v: Seq<char>| #[trigger]
                                    queue.deep_view().contains(v) ==> spec_reachable(
                                        g,
                                        start,
                                        v,
                                    ),
                            decreases targets@.len() - t,
                        {
                            let ghost qb = queue.deep_view();
                            queue.push(targets[t].clone());
                            proof {
                                assert(queue.deep_view() =~= qb.push(tv[t as int]));
                                lemma_contains_push(qb, tv[t as int]);
                                assert(queue.deep_view().skip(qi as int) =~= qb.skip(
                                    qi as int,
                                ).push(tv[t as int]));
                                lemma_contains_push(qb.skip(qi as int), tv[t as int]);
                                assert(queue.deep_view().skip(qi as int).contains(tv[t as int]));
                                assert(spec_edge(g, id@, tv[t as int])) by {
                                    assert(spec_targets(g[idx]).contains(tv[t as int])) by {
                                        assert(spec_targets(g[idx])[t as int] == tv[t as int]);
                                    }
                                }
                                lemma_reachable_step(g, start, id@, tv[t as int]);
                                assert forall|v: Seq<char>| #[trigger]
                                    queue.deep_view().contains(v) implies spec_reachable(
                                    g,
                                    start,
                                    v,
                                ) by {
                                    if v != tv[t as int] {
                                        assert(qb.contains(v));
                                    }
                                }
                            }
                            t += 1;
                        }
                        qi += 1;
                        proof {
                            assert(forall|k: int|
                                0 <= k < tv.len() ==> queue.deep_view().skip(qi as int - 1).contains(
                                    #[trigger] tv[k],
                                ));
                            assert(queue.deep_view().skip(qi as int - 1) =~= seq![id@]
                                + queue.deep_view().skip(qi as int));
                            lemma_contains_concat(seq![id@], queue.deep_view().skip(qi as int));
                            assert forall|a: Seq<char>, b: Seq<char>|
                                visited.deep_view().contains(a) && spec_edge(
                                    g,
                                    a,
                                    b,
                                ) implies visited.deep_view().contains(b)
                                || queue.deep_view().skip(qi as int).contains(b) by {
                                if a == id@ {
                                    let i = choose|i: int|
                                        0 <= i < g.len() && g[i].id@ == a && spec_targets(
                                            g[i],
                                        ).contains(b);
                                    assert(i == idx) by {
                                        if i != idx {
                                            assert(g[i].id@ == g[idx].id@);
                                        }
                                    }
                                    let k = choose|k: int|
                                        0 <= k < tv.len() && tv[k] == b;
                                    assert(queue.deep_view().skip(qi as int - 1).contains(b));
                                    if !queue.deep_view().skip(qi as int).contains(b) {
                                        assert(b == id@);
                                    }
                                } else {
                                    assert(v0.contains(a));
                                    assert(v0.contains(b) || queue.deep_view().skip(
                                        qi as int - 1,
                                    ).contains(b));
                                    if !v0.contains(b) && !queue.deep_view().skip(
                                        qi as int,
                                    ).contains(b) {
                                        assert(b == id@);
                                    }
                                }
                            }
                            if !visited.deep_view().contains(start) {
                                assert(queue.deep_view().skip(qi as int - 1).contains(start));
                                if seq![id@].contains(start) {
                                    assert(start == id@);
                                }
                            }
                            assert(count_unvisited(g, visited.deep_view()) < count_unvisited(
                                g,
                                v0,
                            )) by {
                                assert(g[idx].id@ == id@);
                            }
                        }
                    },
                    None => {
                        qi += 1;
                        proof {
                            crate::story::lemma_node_index(g, id@);
                            assert(count_unvisited(g, visited.deep_view()) == count_unvisited(
                                g,
                                v0,
                            )) by {
                                assert(forall|i: int|
                                    0 <= i < g.len() ==> (#[trigger] g[i].id@) != id@);
                            }
                            assert forall|a: Seq<char>, b: Seq<char>|
                                visited.deep_view().contains(a) && spec_edge(
                                    g,
                                    a,
                                    b,
                                ) implies visited.deep_view().contains(b)
                                || queue.deep_view().skip(qi as int).contains(b) by {
                                if a == id@ {
                                    let i = choose|i: int|
                                        0 <= i < g.len() && g[i].id@ == a && spec_targets(
                                            g[i],
                                        ).contains(b);
                                    assert(false);
                                } else {
                                    assert(v0.contains(a));
                                    if q0.skip(qi as int - 1).contains(b) {
                                        if seq![id@].contains(b) {
                                            assert(b == id@);
                                        }
                                    }
                                }
                            }
                            if !visited.deep_view().contains(start) {
                                assert(q0.skip(qi as int - 1).contains(start));
                                if seq![id@].contains(start) {
                                    assert(start == id@);
                                }
                            }
                        }
                    },
                }
            }
        }
        proof {
            assert(queue.deep_view().skip(qi as int).len() == 0);
            assert(visited.deep_view().contains(start)) by {
                if queue.deep_view().skip(qi as int).contains(start) {
                    let k = choose|k: int|
                        0 <= k < queue.deep_view().skip(qi as int).len() && queue.deep_view().skip(
                            qi as int,
                        )[k] == start;
                }
            }
            assert forall|id: Seq<char>|
                spec_reachable(g, start, id) implies #[trigger] visited.deep_view().contains(
                id,
            ) by {
                let k = choose|k: nat| spec_reachable_in(g, start, id, k);
                assert forall|a: Seq<char>, b: Seq<char>|
                    #![trigger visited.deep_view().contains(a), spec_edge(g, a, b)]
                    visited.deep_view().contains(a) && spec_edge(g, a, b) implies
                    visited.deep_view().contains(b) by {
                    if queue.deep_view().skip(qi as int).contains(b) {
                        let m = choose|m: int|
                            0 <= m < queue.deep_view().skip(qi as int).len()
                                && queue.deep_view().skip(qi as int)[m] == b;
                    }
                }
                lemma_closed_holds_reachable(g, visited.deep_view(), start, id, k);
            }
        }
        visited
    }
}

impl StoryData {
    /// Report every node whose id is not among the visited ids.
    fn unreachable_errors(&self, visited: &Vec<String>) -> (r: Vec<ValidationError>)
        ensures
            forall|i: int|
                0 <= i < self.nodes@.len() && !visited.deep_view().contains(
                    (#[trigger] self.nodes@[i]).id@,
                ) ==> r.deep_view().contains(ErrorModel::Unreachable { id: self.nodes@[i].id@ }),
            forall|id: Seq<char>|
                #[trigger] r.deep_view().contains(ErrorModel::Unreachable { id })
                    ==> !visited.deep_view().contains(id),
            forall|k: int|
                0 <= k < r.deep_view().len() ==> (#[trigger] r.deep_view()[k]) is Unreachable,
            spec_errors_sound(self, r.deep_view()),
    {
        let mut errors: Vec<ValidationError> = Vec::new();
        let n = self.nodes.len();
        let mut i: usize = 0;
        while i < n
            invariant
                n == self.nodes@.len(),
                0 <= i <= n,
                forall|i2: int|
                    0 <= i2 < i && !visited.deep_view().contains(
                        (#[trigger] self.nodes@[i2]).id@,
                    ) ==> errors.deep_view().contains(
                        ErrorModel::Unreachable { id: self.nodes@[i2].id@ },
                    ),
                forall|id: Seq<char>|
                    #[trigger] errors.deep_view().contains(ErrorModel::Unreachable { id })
                        ==> !visited.deep_view().contains(id),
                forall|k: int|
                    0 <= k < errors.deep_view().len() ==> (#[trigger] errors.deep_view()[k])
                        is Unreachable,
                spec_errors_sound(self, errors.deep_view()),
            decreases n - i,
        {
            let node = self.nodes.node_at(i);
            if !id_in(visited, node.id.as_str()) {
                let ghost before = errors.deep_view();
                let e = ValidationError::Unreachable { id: node.id.clone() };
                let ghost em = e.deep_view();
                errors.push(e);
                proof {
                    assert(errors.deep_view() =~= before.push(em));
                    lemma_contains_push(before, em);
                    assert forall|id: Seq<char>| #[trigger]
                        errors.deep_view().contains(
                            ErrorModel::Unreachable { id },
                        ) implies !visited.deep_view().contains(id) by {
                        if !before.contains(ErrorModel::Unreachable { id }) {
                            assert(ErrorModel::Unreachable { id } == em);
                        }
                    }
                    assert(spec_error_sound(self, em)) by {
                        assert(em == ErrorModel::Unreachable { id: node.id@ });
                        assert(self.nodes@[i as int].id@ == node.id@);
                    }
                    lemma_sound_push(self, before, em);
                }
            }
            i += 1;
        }
        errors
    }

    /// Report the lack of any ending node.
    fn ending_errors(&self) -> (r: Vec<ValidationError>)
        ensures
            (forall|i: int| 0 <= i < self.nodes@.len() ==> (#[trigger] self.nodes@[i]).ending
                is None) <==> r.deep_view().contains(ErrorModel::NoEndings),
            forall|k: int|
                0 <= k < r.deep_view().len() ==> (#[trigger] r.deep_view()[k]) is NoEndings,
            spec_errors_sound(self, r.deep_view()),
    {
        let mut found = false;
        let n = self.nodes.len();
        let mut i: usize = 0;
        while i < n
            invariant
                n == self.nodes@.len(),
                0 <= i <= n,
                found == !(forall|i2: int|
                    0 <= i2 < i ==> (#[trigger] self.nodes@[i2]).ending is None),
            decreases n - i,
        {
            if self.nodes.node_at(i).ending.is_some() {
                found = true;
            }
            i += 1;
        }
        let mut errors: Vec<ValidationError> = Vec::new();
        if !found {
            errors.push(ValidationError::NoEndings);
            proof {
                assert(errors.deep_view() =~= Seq::<ErrorModel>::empty().push(
                    ErrorModel::NoEndings,
                ));
                assert(errors.deep_view()[0] == ErrorModel::NoEndings);
                assert(spec_error_sound(self, ErrorModel::NoEndings));
            }
        } else {
            proof {
                assert(errors.deep_view() =~= Seq::<ErrorModel>::empty());
            }
        }
        errors
    }

    /// Validate the story graph for structural integrity. The contract pins
    /// each rule down in both directions: the result is empty exactly when
    /// the graph is valid (`spec_graph_valid`); a missing start node is the
    /// sole, fatal error; every dangling reference of every kind is
    /// reported, every dead-end node is reported, no node reachable from
    /// the start (or seeded by the death check) is ever reported
    /// unreachable while every other node is, and the lack of any ending
    /// node is reported exactly when no node carries an ending; and every
    /// reported error names a real violation (`spec_errors_sound`), so no
    /// spurious error can appear on a valid graph.
    #[verifier::rlimit(100)]
    pub fn validate(&self) -> (r: Vec<ValidationError>)
        requires
            self.nodes.wf(),
        ensures
            !self.nodes.spec_contains(self.meta.start_node@) ==> r.deep_view()
                =~= seq![ErrorModel::MissingStartNode { id: self.meta.start_node@ }],
            self.nodes.spec_contains(self.meta.start_node@) ==> {
                let g = self.nodes@;
                let start = self.meta.start_node@;
                &&& forall|i: int|
                    0 <= i < g.len() && (#[trigger] g[i]).next_node is Some
                        && !self.nodes.spec_contains(g[i].next_node->Some_0@)
                        ==> r.deep_view().contains(
                        ErrorModel::DanglingNext {
                            from: g[i].id@,
                            to: g[i].next_node->Some_0@,
                        },
                    )
                &&& forall|i: int, j: int|
                    #![trigger g[i].choices->Some_0@[j]]
                    0 <= i < g.len() && g[i].choices is Some && 0 <= j
                        < g[i].choices->Some_0@.len() && !self.nodes.spec_contains(
                        g[i].choices->Some_0@[j].next_node@,
                    ) ==> r.deep_view().contains(
                        ErrorModel::DanglingChoice {
                            from: g[i].id@,
                            to: g[i].choices->Some_0@[j].next_node@,
                        },
                    )
                &&& forall|i: int, j: int|
                    #![trigger g[i].branch->Some_0@[j]]
                    0 <= i < g.len() && g[i].branch is Some && 0 <= j
                        < g[i].branch->Some_0@.len() && !self.nodes.spec_contains(
                        g[i].branch->Some_0@[j].next_node@,
                    ) ==> r.deep_view().contains(
                        ErrorModel::DanglingBranch {
                            from: g[i].id@,
                            to: g[i].branch->Some_0@[j].next_node@,
                        },
                    )
                &&& forall|i: int|
                    0 <= i < g.len() && !spec_has_way_forward(#[trigger] g[i])
                        ==> r.deep_view().contains(ErrorModel::DeadEndNode { id: g[i].id@ })
                &&& forall|id: Seq<char>|
                    spec_reachable(g, start, id) ==> !#[trigger] r.deep_view().contains(
                        ErrorModel::Unreachable { id },
                    )
                &&& forall|i: int|
                    0 <= i < g.len() && !spec_reachable(g, start, (#[trigger] g[i]).id@) && (
                    match self.death_check {
                        Some(dc) => dc.override_next_node@ != g[i].id@,
                        None => true,
                    }) ==> r.deep_view().contains(ErrorModel::Unreachable { id: g[i].id@ })
                &&& ((forall|i: int|
                    0 <= i < g.len() ==> (#[trigger] g[i]).ending is None)
                    <==> r.deep_view().contains(ErrorModel::NoEndings))
                &&& forall|id: Seq<char>|
                    #[trigger] r.deep_view().contains(ErrorModel::Unreachable { id })
                        ==> !spec_reachable(g, start, id) && (match self.death_check {
                        Some(dc) => dc.override_next_node@ != id,
                        None => true,
                    })
            },
            spec_errors_sound(self, r.deep_view()),
            r@.len() == 0 <==> spec_graph_valid(self),
    {
        let ghost g = self.nodes@;
        let ghost start = self.meta.start_node@;
        if !self.nodes.contains_key(self.meta.start_node.as_str()) {
            let mut errors: Vec<ValidationError> = Vec::new();
            errors.push(ValidationError::MissingStartNode { id: self.meta.start_node.clone() });
            proof {
                assert(errors.deep_view() =~= seq![
                    ErrorModel::MissingStartNode { id: start },
                ]);
                assert(spec_error_sound(self, ErrorModel::MissingStartNode { id: start }));
                assert forall|k: int|
                    0 <= k < errors.deep_view().len() implies spec_error_sound(
                    self,
                    #[trigger] errors.deep_view()[k],
                ) by {
                    assert(errors.deep_view()[k] == ErrorModel::MissingStartNode { id: start });
                }
                assert(errors@.len() == 1);
                assert(!spec_graph_valid(self));
            }
            return errors;
        }
        let mut errors = self.dangling_errors();
        let ghost d1 = errors.deep_view();
        let mut dead = self.dead_end_errors();
        let ghost d2 = dead.deep_view();
        errors.append(&mut dead);
        proof {
            assert(errors.deep_view() =~= d1 + d2);
            lemma_contains_concat(d1, d2);
        }

        let mut visited = self.bfs_visited();
        let ghost bfs = visited.deep_view();
        if let Some(dc) = &self.death_check {
            if !id_in(&visited, dc.override_next_node.as_str()) {
                visited.push(dc.override_next_node.clone());
                proof {
                    assert(visited.deep_view() =~= bfs.push(dc.override_next_node@));
                    lemma_contains_push(bfs, dc.override_next_node@);
                }
            }
        }
        proof {
            assert(match self.death_check {
                Some(dc) => visited.deep_view().contains(dc.override_next_node@),
                None => true,
            });
            assert forall|id: Seq<char>| #[trigger]
                spec_reachable(g, start, id) implies visited.deep_view().contains(id) by {
                assert(bfs.contains(id));
                if visited.deep_view() != bfs {
                    let k = choose|k: int| 0 <= k < bfs.len() && bfs[k] == id;
                }
            }
            assert forall|id: Seq<char>| #[trigger]
                visited.deep_view().contains(id) implies (spec_reachable(g, start, id) || (
            match self.death_check {
                Some(dc) => dc.override_next_node@ == id,
                None => false,
            })) by {
                if bfs.contains(id) {
                } else {
                }
            }
        }
        let ghost d12 = errors.deep_view();
        let mut unreach = self.unreachable_errors(&visited);
        let ghost d3 = unreach.deep_view();
        errors.append(&mut unreach);
        proof {
            assert(errors.deep_view() =~= d12 + d3);
            lemma_contains_concat(d12, d3);
        }
        let ghost d123 = errors.deep_view();
        let mut endings = self.ending_errors();
        let ghost d4 = endings.deep_view();
        errors.append(&mut endings);
        proof {
            assert(errors.deep_view() =~= d123 + d4);
            lemma_contains_concat(d123, d4);
            assert forall|id: Seq<char>|
                spec_reachable(g, start, id) implies !#[trigger] errors.deep_view().contains(
                ErrorModel::Unreachable { id },
            ) by {
                if errors.deep_view().contains(ErrorModel::Unreachable { id }) {
                    let e = ErrorModel::Unreachable { id };
                    if d12.contains(e) {
                        if d1.contains(e) {
                            let k = choose|k: int| 0 <= k < d1.len() && d1[k] == e;
                        } else {
                            let k = choose|k: int| 0 <= k < d2.len() && d2[k] == e;
                        }
                    } else if d4.contains(e) {
                        let k = choose|k: int| 0 <= k < d4.len() && d4[k] == e;
                    } else {
                        assert(d3.contains(e));
                        assert(!visited.deep_view().contains(id));
                        assert(visited.deep_view().contains(id));
                    }
                }
            }
            assert forall|i: int|
                0 <= i < g.len() && !spec_reachable(g, start, (#[trigger] g[i]).id@) && (
            match self.death_check {
                Some(dc) => dc.override_next_node@ != g[i].id@,
                None => true,
            }) implies errors.deep_view().contains(
                ErrorModel::Unreachable { id: g[i].id@ },
            ) by {
                assert(!visited.deep_view().contains(g[i].id@));
                assert(d3.contains(ErrorModel::Unreachable { id: g[i].id@ }));
            }
            assert(((forall|i: int|
                0 <= i < g.len() ==> (#[trigger] g[i]).ending is None) <==> errors.deep_view().contains(
                ErrorModel::NoEndings,
            ))) by {
                if d4.contains(ErrorModel::NoEndings) {
                }
                if errors.deep_view().contains(ErrorModel::NoEndings) {
                    let e = ErrorModel::NoEndings;
                    if d12.contains(e) {
                        if d1.contains(e) {
                            let k = choose|k: int| 0 <= k < d1.len() && d1[k] == e;
                        } else {
                            let k = choose|k: int| 0 <= k < d2.len() && d2[k] == e;
                        }
                    } else if d3.contains(e) {
                        let k = choose|k: int| 0 <= k < d3.len() && d3[k] == e;
                    }
                }
            }
            assert forall|id: Seq<char>|
                #[trigger] errors.deep_view().contains(
                    ErrorModel::Unreachable { id },
                ) implies !spec_reachable(g, start, id) && (match self.death_check {
                Some(dc) => dc.override_next_node@ != id,
                None => true,
            }) by {
                let e = ErrorModel::Unreachable { id };
                if d12.contains(e) {
                    if d1.contains(e) {
                        let k = choose|k: int| 0 <= k < d1.len() && d1[k] == e;
                    } else {
                        let k = choose|k: int| 0 <= k < d2.len() && d2[k] == e;
                    }
                } else if d4.contains(e) {
                    let k = choose|k: int| 0 <= k < d4.len() && d4[k] == e;
                } else {
                    assert(d3.contains(e));
                    assert(!visited.deep_view().contains(id));
                }
            }
            lemma_sound_concat(self, d1, d2);
            assert(spec_errors_sound(self, d12));
            lemma_sound_concat(self, d12, d3);
            assert(spec_errors_sound(self, d123));
            lemma_sound_concat(self, d123, d4);
            assert(spec_errors_sound(self, errors.deep_view()));
            assert(errors.deep_view().len() == errors@.len());
            if spec_graph_valid(self) && errors@.len() > 0 {
                let e = errors.deep_view()[0];
                assert(errors.deep_view().contains(e)) by {
                    assert(errors.deep_view()[0] == e);
                }
                assert(spec_error_sound(self, e));
                match e {
                    ErrorModel::MissingStartNode { id } => {
                        assert(false);
                    },
                    ErrorModel::DanglingNext { from, to } => {
                        let i = choose|i: int|
                            0 <= i < g.len() && (#[trigger] g[i]).id@ == from
                                && g[i].next_node is Some && g[i].next_node->Some_0@ == to
                                && !self.nodes.spec_contains(to);
                        assert(self.nodes.spec_contains(g[i].next_node->Some_0@));
                        assert(false);
                    },
                    ErrorModel::DanglingChoice { from, to } => {
                        let (i, j) = choose|i: int, j: int|
                            #![trigger g[i].choices->Some_0@[j]]
                            0 <= i < g.len() && g[i].id@ == from && g[i].choices is Some && 0 <= j
                                < g[i].choices->Some_0@.len()
                                && g[i].choices->Some_0@[j].next_node@ == to
                                && !self.nodes.spec_contains(to);
                        assert(self.nodes.spec_contains(g[i].choices->Some_0@[j].next_node@));
                        assert(false);
                    },
                    ErrorModel::DanglingBranch { from, to } => {
                        let (i, j) = choose|i: int, j: int|
                            #![trigger g[i].branch->Some_0@[j]]
                            0 <= i < g.len() && g[i].id@ == from && g[i].branch is Some && 0 <= j
                                < g[i].branch->Some_0@.len()
                                && g[i].branch->Some_0@[j].next_node@ == to
                                && !self.nodes.spec_contains(to);
                        assert(self.nodes.spec_contains(g[i].branch->Some_0@[j].next_node@));
                        assert(false);
                    },
                    ErrorModel::DeadEndNode { id } => {
                        let i = choose|i: int|
                            0 <= i < g.len() && (#[trigger] g[i]).id@ == id
                                && !spec_has_way_forward(g[i]);
                        assert(spec_has_way_forward(g[i]));
                        assert(false);
                    },
                    ErrorModel::Unreachable { id } => {
                        let i = choose|i: int|
                            0 <= i < g.len() && (#[trigger] g[i]).id@ == id;
                        assert(!spec_reachable(g, start, g[i].id@));
                        assert(false);
                    },
                    ErrorModel::NoEndings => {
                        let i = choose|i: int|
                            0 <= i < g.len() && (#[trigger] g[i]).ending is Some;
                        assert(g[i].ending is None);
                        assert(false);
                    },
                }
            }
            if errors@.len() == 0 {
                assert(spec_graph_valid(self)) by {
                    assert forall|i: int|
                        0 <= i < g.len() && (#[trigger] g[i]).next_node
                            is Some implies self.nodes.spec_contains(
                        g[i].next_node->Some_0@,
                    ) by {
                        if !self.nodes.spec_contains(g[i].next_node->Some_0@) {
                            let e = ErrorModel::DanglingNext {
                                from: g[i].id@,
                                to: g[i].next_node->Some_0@,
                            };
                            let k = choose|k: int|
                                0 <= k < errors.deep_view().len() && errors.deep_view()[k] == e;
                        }
                    }
                    assert forall|i: int, j: int|
                        #![trigger g[i].choices->Some_0@[j]]
                        0 <= i < g.len() && g[i].choices is Some && 0 <= j
                            < g[i].choices->Some_0@.len() implies self.nodes.spec_contains(
                        g[i].choices->Some_0@[j].next_node@,
                    ) by {
                        if !self.nodes.spec_contains(g[i].choices->Some_0@[j].next_node@) {
                            let e = ErrorModel::DanglingChoice {
                                from: g[i].id@,
                                to: g[i].choices->Some_0@[j].next_node@,
                            };
                            let k = choose|k: int|
                                0 <= k < errors.deep_view().len() && errors.deep_view()[k] == e;
                        }
                    }
                    assert forall|i: int, j: int|
                        #![trigger g[i].branch->Some_0@[j]]
                        0 <= i < g.len() && g[i].branch is Some && 0 <= j
                            < g[i].branch->Some_0@.len() implies self.nodes.spec_contains(
                        g[i].branch->Some_0@[j].next_node@,
                    ) by {
                        if !self.nodes.spec_contains(g[i].branch->Some_0@[j].next_node@) {
                            let e = ErrorModel::DanglingBranch {
                                from: g[i].id@,
                                to: g[i].branch->Some_0@[j].next_node@,
                            };
                            let k = choose|k: int|
                                0 <= k < errors.deep_view().len() && errors.deep_view()[k] == e;
                        }
                    }
                    assert forall|i: int|
                        0 <= i < g.len() implies spec_has_way_forward(#[trigger] g[i]) by {
                        if !spec_has_way_forward(g[i]) {
                            let e = ErrorModel::DeadEndNode { id: g[i].id@ };
                            let k = choose|k: int|
                                0 <= k < errors.deep_view().len() && errors.deep_view()[k] == e;
                        }
                    }
                    assert forall|i: int|
                        0 <= i < g.len() implies (spec_reachable(
                        g,
                        start,
                        (#[trigger] g[i]).id@,
                    ) || (match self.death_check {
                        Some(dc) => dc.override_next_node@ == g[i].id@,
                        None => false,
                    })) by {
                        if !spec_reachable(g, start, g[i].id@) && (match self.death_check {
                            Some(dc) => dc.override_next_node@ != g[i].id@,
                            None => true,
                        }) {
                            let e = ErrorModel::Unreachable { id: g[i].id@ };
                            let k = choose|k: int|
                                0 <= k < errors.deep_view().len() && errors.deep_view()[k] == e;
                        }
                    }
                    assert(exists|i: int|
                        0 <= i < g.len() && (#[trigger] g[i]).ending is Some) by {
                        if forall|i: int| 0 <= i < g.len() ==> (#[trigger] g[i]).ending is None {
                            let e = ErrorModel::NoEndings;
                            let k = choose|k: int|
                                0 <= k < errors.deep_view().len() && errors.deep_view()[k] == e;
                        }
                    }
                }
            }
        }
        errors
    }
}

/// Whether an id is among a list of ids.
fn id_in(v: &Vec<String>, id: &str) -> (r: bool)
    ensures
        r == v.deep_view().contains(id@),
{
    let ghost dv = v.deep_view();
    let mut i: usize = 0;
    while i < v.len()
        invariant
            dv == v.deep_view(),
            dv.len() == v@.len(),
            0 <= i <= v@.len(),
            forall|j: int| 0 <= j < i ==> dv[j] != id@,
        decreases v@.len() - i,
    {
        proof {
            assert(dv[i as int] == v@[i as int]@);
        }
        if crate::text::str_eq(v[i].as_str(), id) {
            return true;
        }
        i += 1;
    }
    false
}

} // verus!
