//! Player state: tracked stats, flags, the message log, and session fields.

use vstd::prelude::*;

verus! {

/// Who produced a logged message.
#[derive(Clone, Copy, Debug, PartialEq, Eq, Structural)]
pub enum Sender {
    Elara,
    Player,
    System,
}

/// Lowest value any tracked stat may take.
pub const STAT_MIN: i32 = 0;

/// Highest value any tracked stat may take.
pub const STAT_MAX: i32 = 10;

/// Clamp of `v + delta` into the stat range, computed without overflow.
pub open spec fn clamped(v: int, delta: int) -> int {
    let sum = v + delta;
    if sum < STAT_MIN as int {
        STAT_MIN as int
    } else if sum > STAT_MAX as int {
        STAT_MAX as int
    } else {
        sum
    }
}

/// Tracked stats that gate story branches. Each stays within
/// `[STAT_MIN, STAT_MAX]` once created in range; every modification clamps.
#[derive(Clone, Copy, Debug, PartialEq, Eq, Structural)]
pub struct Stats {
    pub trust: i32,
    pub health: i32,
    pub supplies: i32,
}

impl Stats {
    /// All three stats within the clamping range.
    pub open spec fn wf(&self) -> bool {
        &&& STAT_MIN <= self.trust <= STAT_MAX
        &&& STAT_MIN <= self.health <= STAT_MAX
        &&& STAT_MIN <= self.supplies <= STAT_MAX
    }

    /// Create stats with the given initial values.
    pub fn new(trust: i32, health: i32, supplies: i32) -> (s: Stats)
        ensures
            s.trust == trust,
            s.health == health,
            s.supplies == supplies,
    {
        Stats { trust, health, supplies }
    }

    /// The stat named `name`, if any. Unknown names read as `None`.
    pub open spec fn spec_get(&self, name: Seq<char>) -> Option<i32> {
        if name == "trust"@ {
            Some(self.trust)
        } else if name == "health"@ {
            Some(self.health)
        } else if name == "supplies"@ {
            Some(self.supplies)
        } else {
            None
        }
    }

    /// Get a stat value by name; unknown names give `None`.
    pub fn get(&self, name: &str) -> (r: Option<i32>)
        ensures
            r == self.spec_get(name@),
    {
        if crate::text::str_eq(name, "trust") {
            Some(self.trust)
        } else if crate::text::str_eq(name, "health") {
            Some(self.health)
        } else if crate::text::str_eq(name, "supplies") {
            Some(self.supplies)
        } else {
            None
        }
    }

    /// The stats after modifying `name` by `delta` with saturating clamping;
    /// unknown names change nothing.
    pub open spec fn spec_modify(&self, name: Seq<char>, delta: int) -> Stats {
        if name == "trust"@ {
            Stats {
                trust: clamped(self.trust as int, delta) as i32,
                health: self.health,
                supplies: self.supplies,
            }
        } else if name == "health"@ {
            Stats {
                trust: self.trust,
                health: clamped(self.health as int, delta) as i32,
                supplies: self.supplies,
            }
        } else if name == "supplies"@ {
            Stats {
                trust: self.trust,
                health: self.health,
                supplies: clamped(self.supplies as int, delta) as i32,
            }
        } else {
            *self
        }
    }

    /// Modify a stat by name; the result is clamped (saturating, not
    /// wrapping) to `[STAT_MIN, STAT_MAX]`. Unknown names are a no-op.
    pub fn modify(&mut self, name: &str, delta: i32)
        ensures
            *final(self) == old(self).spec_modify(name@, delta as int),
            old(self).wf() ==> final(self).wf(),
    {
        if crate::text::str_eq(name, "trust") {
            self.trust = clamp_add(self.trust, delta);
        } else if crate::text::str_eq(name, "health") {
            self.health = clamp_add(self.health, delta);
        } else if crate::text::str_eq(name, "supplies") {
            self.supplies = clamp_add(self.supplies, delta);
        }
    }
}

impl Default for Stats {
    /// The fresh-game stats.
    fn default() -> (s: Stats)
        ensures
            s.trust == 3,
            s.health == 10,
            s.supplies == 3,
    {
        Stats { trust: 3, health: 10, supplies: 3 }
    }
}

/// `v + delta` clamped into the stat range, without overflow.
pub fn clamp_add(v: i32, delta: i32) -> (r: i32)
    ensures
        r as int == clamped(v as int, delta as int),
        STAT_MIN <= r <= STAT_MAX,
{
    let sum: i64 = v as i64 + delta as i64;
    if sum < STAT_MIN as i64 {
        STAT_MIN
    } else if sum > STAT_MAX as i64 {
        STAT_MAX
    } else {
        sum as i32
    }
}

/// The stats after a whole sequence of named deltas, each applied with
/// clamping.
pub open spec fn spec_apply_deltas(s: Stats, ds: Seq<(Seq<char>, int)>) -> Stats
    decreases ds.len(),
{
    if ds.len() == 0 {
        s
    } else {
        spec_apply_deltas(s.spec_modify(ds[0].0, ds[0].1), ds.skip(1))
    }
}

/// Stat clamping law: starting from stats within range, any sequence of
/// deltas leaves the stats within range after every single application,
/// not only at the end.
pub proof fn lemma_clamping_all_prefixes(s: Stats, ds: Seq<(Seq<char>, int)>, i: int)
    requires
        s.wf(),
        0 <= i <= ds.len(),
    ensures
        spec_apply_deltas(s, ds.take(i)).wf(),
    decreases i,
{
    if i == 0 {
        assert(ds.take(0) =~= Seq::<(Seq<char>, int)>::empty());
    } else {
        lemma_clamping_all_prefixes(s, ds, i - 1);
        lemma_apply_deltas_snoc(s, ds.take(i - 1), ds[i - 1]);
        assert(ds.take(i).drop_last() =~= ds.take(i - 1));
        assert(ds.take(i) =~= ds.take(i - 1).push(ds[i - 1]));
        let before = spec_apply_deltas(s, ds.take(i - 1));
        assert(spec_apply_deltas(s, ds.take(i)) == before.spec_modify(
            ds[i - 1].0,
            ds[i - 1].1,
        ));
        lemma_modify_wf(before, ds[i - 1].0, ds[i - 1].1);
    }
}

/// One clamped modification keeps well-formed stats well formed.
pub proof fn lemma_modify_wf(s: Stats, name: Seq<char>, delta: int)
    requires
        s.wf(),
    ensures
        s.spec_modify(name, delta).wf(),
{
}

/// Applying one more delta at the end composes.
pub proof fn lemma_apply_deltas_snoc(s: Stats, ds: Seq<(Seq<char>, int)>, d: (Seq<char>, int))
    ensures
        spec_apply_deltas(s, ds.push(d)) == spec_apply_deltas(s, ds).spec_modify(d.0, d.1),
    decreases ds.len(),
{
    if ds.len() == 0 {
        assert(ds.push(d)[0] == d);
        assert(ds.push(d).skip(1) =~= Seq::<(Seq<char>, int)>::empty());
        assert(spec_apply_deltas(s, ds) == s);
        assert(spec_apply_deltas(s, ds.push(d)) == spec_apply_deltas(
            s.spec_modify(d.0, d.1),
            Seq::<(Seq<char>, int)>::empty(),
        ));
        assert(spec_apply_deltas(s.spec_modify(d.0, d.1), Seq::<(Seq<char>, int)>::empty())
            == s.spec_modify(d.0, d.1));
    } else {
        assert(ds.push(d)[0] == ds[0]);
        assert(ds.push(d).skip(1) =~= ds.skip(1).push(d));
        lemma_apply_deltas_snoc(s.spec_modify(ds[0].0, ds[0].1), ds.skip(1), d);
    }
}

/// A single entry in the message log.
#[derive(Clone, Debug, PartialEq)]
pub struct LogEntry {
    /// Who sent the message.
    pub sender: Sender,
    /// The displayed text, already resolved to the session's language.
    pub text: String,
    /// When the message was displayed, as seconds since the Unix epoch.
    pub timestamp: i64,
}

/// Mathematical model of a log entry.
pub ghost struct LogModel {
    pub sender: Sender,
    pub text: Seq<char>,
    pub timestamp: int,
}

impl DeepView for LogEntry {
    type V = LogModel;

    open spec fn deep_view(&self) -> LogModel {
        LogModel { sender: self.sender, text: self.text@, timestamp: self.timestamp as int }
    }
}

/// The flag set with `f` added; adding an already-present flag changes
/// nothing.
pub open spec fn spec_add_flag(flags: Seq<Seq<char>>, f: Seq<char>) -> Seq<Seq<char>> {
    if flags.contains(f) {
        flags
    } else {
        flags.push(f)
    }
}

/// The flag set after adding every flag of `add`, in order.
pub open spec fn spec_add_all(flags: Seq<Seq<char>>, add: Seq<Seq<char>>) -> Seq<Seq<char>>
    decreases add.len(),
{
    if add.len() == 0 {
        flags
    } else {
        spec_add_flag(spec_add_all(flags, add.drop_last()), add.last())
    }
}

/// The flag set with every occurrence of `f` removed; removing an absent
/// flag changes nothing.
pub open spec fn spec_remove_flag(flags: Seq<Seq<char>>, f: Seq<char>) -> Seq<Seq<char>>
    decreases flags.len(),
{
    if flags.len() == 0 {
        flags
    } else {
        let front = spec_remove_flag(flags.drop_last(), f);
        if flags.last() == f {
            front
        } else {
            front.push(flags.last())
        }
    }
}

/// The flag set after removing every flag of `rem`, in order.
pub open spec fn spec_remove_all(flags: Seq<Seq<char>>, rem: Seq<Seq<char>>) -> Seq<Seq<char>>
    decreases rem.len(),
{
    if rem.len() == 0 {
        flags
    } else {
        spec_remove_flag(spec_remove_all(flags, rem.drop_last()), rem.last())
    }
}

/// The full player state for one session, persisted after each transition.
#[derive(Clone, Debug, PartialEq)]
pub struct GameState {
    /// Current story node id.
    pub current_node: String,
    /// Story flags set by choices; presence means true. Kept duplicate-free.
    pub flags: Vec<String>,
    /// Selected language.
    pub language: crate::i18n::Language,
    /// If set, the story is paused until this time (seconds since epoch).
    pub waiting_until: Option<i64>,
    /// History of displayed messages.
    pub message_log: Vec<LogEntry>,
    /// Tracked gameplay stats.
    pub stats: Stats,
    /// Which ending was reached, if any.
    pub ending: Option<String>,
    /// The narrative day counter.
    pub day: u32,
}

/// Mathematical model of the full player state.
pub ghost struct StateModel {
    pub current_node: Seq<char>,
    pub flags: Seq<Seq<char>>,
    pub language: crate::i18n::Language,
    pub waiting_until: Option<int>,
    pub log: Seq<LogModel>,
    pub stats: Stats,
    pub ending: Option<Seq<char>>,
    pub day: int,
}

impl View for GameState {
    type V = StateModel;

    open spec fn view(&self) -> StateModel {
        StateModel {
            current_node: self.current_node@,
            flags: self.flags.deep_view(),
            language: self.language,
            waiting_until: match self.waiting_until {
                Some(t) => Some(t as int),
                None => None,
            },
            log: self.message_log.deep_view(),
            stats: self.stats,
            ending: match self.ending {
                Some(ref e) => Some(e@),
                None => None,
            },
            day: self.day as int,
        }
    }
}

impl GameState {
    /// No flag is recorded twice.
    pub open spec fn flags_unique(&self) -> bool {
        forall|i: int, j: int|
            0 <= i < j < self.flags.deep_view().len() ==> self.flags.deep_view()[i]
                != self.flags.deep_view()[j]
    }

    /// Stats in range and flags duplicate-free.
    pub open spec fn wf(&self) -> bool {
        &&& self.stats.wf()
        &&& self.flags_unique()
    }

    /// Whether `f` is among the set flags.
    pub open spec fn spec_has_flag(&self, f: Seq<char>) -> bool {
        self.flags.deep_view().contains(f)
    }

    /// Create the state for a fresh game at `start_node`.
    pub fn new(
        language: crate::i18n::Language,
        start_node: &str,
        trust: i32,
        health: i32,
        supplies: i32,
    ) -> (s: GameState)
        ensures
            s.current_node@ == start_node@,
            s.flags.deep_view() =~= Seq::<Seq<char>>::empty(),
            s.language == language,
            s.waiting_until is None,
            s.message_log@ =~= Seq::<LogEntry>::empty(),
            s.stats == (Stats { trust, health, supplies }),
            s.ending is None,
            s.day == 1,
            s.flags_unique(),
    {
        GameState {
            current_node: start_node.to_owned(),
            flags: Vec::new(),
            language,
            waiting_until: None,
            message_log: Vec::new(),
            stats: Stats::new(trust, health, supplies),
            ending: None,
            day: 1,
        }
    }

    /// Check whether a flag is set.
    pub fn has_flag(&self, flag: &str) -> (r: bool)
        ensures
            r == self.spec_has_flag(flag@),
    {
        let ghost dv = self.flags.deep_view();
        let mut i: usize = 0;
        while i < self.flags.len()
            invariant
                dv == self.flags.deep_view(),
                dv.len() == self.flags@.len(),
                0 <= i <= self.flags@.len(),
                forall|j: int| 0 <= j < i ==> dv[j] != flag@,
            decreases self.flags@.len() - i,
        {
            proof {
                assert(dv[i as int] == self.flags@[i as int]@);
            }
            if crate::text::str_eq(self.flags[i].as_str(), flag) {
                return true;
            }
            i += 1;
        }
        false
    }

    /// Set a flag; setting an already-set flag changes nothing.
    pub fn set_flag(&mut self, flag: &str)
        ensures
            final(self).flags.deep_view() == spec_add_flag(old(self).flags.deep_view(), flag@),
            final(self).current_node == old(self).current_node,
            final(self).language == old(self).language,
            final(self).waiting_until == old(self).waiting_until,
            final(self).message_log == old(self).message_log,
            final(self).stats == old(self).stats,
            final(self).ending == old(self).ending,
            final(self).day == old(self).day,
            old(self).flags_unique() ==> final(self).flags_unique(),
            old(self).wf() ==> final(self).wf(),
    {
        if !self.has_flag(flag) {
            self.flags.push(flag.to_owned());
            proof {
                assert(self.flags.deep_view() =~= old(self).flags.deep_view().push(flag@));
            }
        }
    }

    /// Remove a flag; removing an absent flag is a no-op.
    pub fn remove_flag(&mut self, flag: &str)
        ensures
            final(self).flags.deep_view() == spec_remove_flag(
                old(self).flags.deep_view(),
                flag@,
            ),
            final(self).current_node == old(self).current_node,
            final(self).language == old(self).language,
            final(self).waiting_until == old(self).waiting_until,
            final(self).message_log == old(self).message_log,
            final(self).stats == old(self).stats,
            final(self).ending == old(self).ending,
            final(self).day == old(self).day,
            old(self).flags_unique() ==> final(self).flags_unique(),
            old(self).wf() ==> final(self).wf(),
    {
        let ghost dv = self.flags.deep_view();
        let mut kept: Vec<String> = Vec::new();
        let mut i: usize = 0;
        while i < self.flags.len()
            invariant
                dv == self.flags.deep_view(),
                dv.len() == self.flags@.len(),
                0 <= i <= self.flags@.len(),
                kept.deep_view() == spec_remove_flag(dv.take(i as int), flag@),
            decreases self.flags@.len() - i,
        {
            proof {
                assert(dv[i as int] == self.flags@[i as int]@);
                assert(dv.take(i as int + 1).drop_last() =~= dv.take(i as int));
            }
            if !crate::text::str_eq(self.flags[i].as_str(), flag) {
                kept.push(self.flags[i].clone());
                proof {
                    assert(kept.deep_view() =~= spec_remove_flag(dv.take(i as int), flag@).push(
                        dv[i as int],
                    ));
                }
            }
            i += 1;
        }
        proof {
            assert(dv.take(self.flags@.len() as int) =~= dv);
        }
        self.flags = kept;
        proof {
            lemma_remove_flag_keeps(old(self).flags.deep_view(), flag@);
        }
    }

    /// Create a new game state seeded from the story's stat defaults; a stat
    /// the story leaves undeclared falls back to its usual default.
    pub fn from_story(language: crate::i18n::Language, story: &crate::story::StoryData) -> (s:
        GameState)
        ensures
            s.current_node@ == story.meta.start_node@,
            s.flags.deep_view() =~= Seq::<Seq<char>>::empty(),
            s.language == language,
            s.waiting_until is None,
            s.message_log@ =~= Seq::<LogEntry>::empty(),
            s.stats.trust == (match crate::story::spec_assoc_stat(story.stats@, "trust"@) {
                Some(d) => d.initial,
                None => 3,
            }),
            s.stats.health == (match crate::story::spec_assoc_stat(story.stats@, "health"@) {
                Some(d) => d.initial,
                None => 10,
            }),
            s.stats.supplies == (match crate::story::spec_assoc_stat(
                story.stats@,
                "supplies"@,
            ) {
                Some(d) => d.initial,
                None => 3,
            }),
            s.ending is None,
            s.day == 1,
            s.flags_unique(),
    {
        let trust = match story.stat_def("trust") {
            Some(d) => d.initial,
            None => 3,
        };
        let health = match story.stat_def("health") {
            Some(d) => d.initial,
            None => 10,
        };
        let supplies = match story.stat_def("supplies") {
            Some(d) => d.initial,
            None => 3,
        };
        GameState::new(language, story.meta.start_node.as_str(), trust, health, supplies)
    }
}

/// Removing a flag removes nothing else: what remains is a subsequence of
/// the old set, keeping order, with no occurrence of the removed flag and
/// every other flag still present.
pub proof fn lemma_remove_flag_keeps(flags: Seq<Seq<char>>, f: Seq<char>)
    ensures
        forall|g: Seq<char>|
            #[trigger] spec_remove_flag(flags, f).contains(g) <==> (flags.contains(g) && g != f),
        (forall|i: int, j: int| 0 <= i < j < flags.len() ==> flags[i] != flags[j])
            ==> (forall|i: int, j: int|
            0 <= i < j < spec_remove_flag(flags, f).len() ==> spec_remove_flag(flags, f)[i]
                != spec_remove_flag(flags, f)[j]),
    decreases flags.len(),
{
    if flags.len() > 0 {
        lemma_remove_flag_keeps(flags.drop_last(), f);
        let front = spec_remove_flag(flags.drop_last(), f);
        assert forall|g: Seq<char>| #[trigger]
            spec_remove_flag(flags, f).contains(g) implies (flags.contains(g) && g != f) by {
            if flags.last() != f && spec_remove_flag(flags, f) == front.push(flags.last()) {
                let k = choose|k: int|
                    0 <= k < spec_remove_flag(flags, f).len() && spec_remove_flag(flags, f)[k]
                        == g;
                if k < front.len() {
                    assert(front.contains(g));
                } else {
                    assert(g == flags.last());
                    assert(flags.contains(g)) by {
                        assert(flags[flags.len() - 1] == g);
                    }
                }
            } else {
                assert(front.contains(g));
            }
            if flags.drop_last().contains(g) {
                let k = choose|k: int|
                    0 <= k < flags.drop_last().len() && flags.drop_last()[k] == g;
                assert(flags[k] == g);
            }
        }
        assert forall|g: Seq<char>| flags.contains(g) && g != f implies #[trigger]
            spec_remove_flag(flags, f).contains(g) by {
            let k = choose|k: int| 0 <= k < flags.len() && flags[k] == g;
            if k < flags.len() - 1 {
                assert(flags.drop_last()[k] == g);
                assert(front.contains(g));
                if flags.last() != f {
                    let m = choose|m: int| 0 <= m < front.len() && front[m] == g;
                    assert(spec_remove_flag(flags, f)[m] == g);
                }
            } else {
                assert(flags.last() == g);
                assert(spec_remove_flag(flags, f).last() == g);
            }
        }
        if (forall|i: int, j: int| 0 <= i < j < flags.len() ==> flags[i] != flags[j]) {
            assert(forall|i: int, j: int|
                0 <= i < j < flags.drop_last().len() ==> flags.drop_last()[i]
                    != flags.drop_last()[j]);
            if flags.last() != f {
                assert forall|i: int, j: int|
                    0 <= i < j < spec_remove_flag(flags, f).len() implies spec_remove_flag(
                    flags,
                    f,
                )[i] != spec_remove_flag(flags, f)[j] by {
                    if j == spec_remove_flag(flags, f).len() - 1 {
                        assert(spec_remove_flag(flags, f)[j] == flags.last());
                        assert(front.contains(spec_remove_flag(flags, f)[i]));
                        assert(flags.drop_last().contains(spec_remove_flag(flags, f)[i]));
                        let k = choose|k: int|
                            0 <= k < flags.drop_last().len() && flags.drop_last()[k]
                                == spec_remove_flag(flags, f)[i];
                        assert(flags[k] == spec_remove_flag(flags, f)[i]);
                        assert(flags[k] != flags.last());
                    }
                }
            }
        }
    }
}

/// Parsed command-line arguments.
pub struct CliArgs {
    /// Delete the save and exit.
    pub reset: bool,
    /// Language override.
    pub language: Option<crate::i18n::Language>,
}

/// What an argument list means, scanned left to right: `--reset` turns the
/// reset on; `--lang <name>` sets the override to whatever the name parses
/// to, the last occurrence winning; anything else is ignored.
pub open spec fn spec_parse_args(
    args: Seq<Seq<char>>,
    i: int,
    reset: bool,
    language: Option<crate::i18n::Language>,
) -> (bool, Option<crate::i18n::Language>)
    decreases args.len() - i,
{
    if i < 0 || i >= args.len() {
        (reset, language)
    } else if args[i] == "--reset"@ {
        spec_parse_args(args, i + 1, true, language)
    } else if args[i] == "--lang"@ && i + 1 < args.len() {
        spec_parse_args(args, i + 2, reset, crate::i18n::spec_parse_language(args[i + 1]))
    } else {
        spec_parse_args(args, i + 1, reset, language)
    }
}

/// Parse command-line arguments (the program name already stripped).
pub fn parse_args(args: &Vec<String>) -> (r: CliArgs)
    ensures
        (r.reset, r.language) == spec_parse_args(args.deep_view(), 0, false, None),
{
    let ghost dv = args.deep_view();
    let mut reset = false;
    let mut language: Option<crate::i18n::Language> = None;
    let mut i: usize = 0;
    while i < args.len()
        invariant
            dv == args.deep_view(),
            dv.len() == args@.len(),
            0 <= i <= args@.len(),
            spec_parse_args(dv, 0, false, None) == spec_parse_args(
                dv,
                i as int,
                reset,
                language,
            ),
        decreases args@.len() - i,
    {
        proof {
            assert(dv[i as int] == args@[i as int]@);
        }
        if crate::text::str_eq(args[i].as_str(), "--reset") {
            reset = true;
            i += 1;
        } else if crate::text::str_eq(args[i].as_str(), "--lang") && i + 1 < args.len() {
            proof {
                assert(dv[i as int + 1] == args@[i as int + 1]@);
            }
            language = crate::i18n::parse_language(args[i + 1].as_str());
            i += 2;
        } else {
            i += 1;
        }
    }
    CliArgs { reset, language }
}

} // verus!
