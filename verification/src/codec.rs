//! The persistence codec for the player state.
//!
//! The wire form is a single string: numbers are decimal digits closed by a
//! colon (negatives carry a leading minus), strings are a character count
//! followed by the raw characters, options and enums are one tag character,
//! lists are a count followed by the items. `spec_ser_state` defines the
//! form; `spec_parse_state` is its inverse, and `lemma_round_trip` proves
//! that below. `serialize` and `deserialize` are held to those definitions.

use vstd::prelude::*;
use vstd::string::StrSliceExecFns;
use vstd::string::StringExecFns;

use crate::game::{GameState, LogEntry, LogModel, Sender, StateModel, Stats};
use crate::i18n::Language;
use crate::text::{
    digit_value, lemma_decimal_digits, lemma_decimal_value, lemma_digits_value_nonneg,
    lemma_digits_value_prefix_le, push_decimal, spec_decimal, spec_digit_value, spec_digits_value,
};

verus! {

// ── Serialized forms ─────────────────────────────────────────

/// A number: its decimal digits, closed by a colon.
pub open spec fn spec_ser_u64(n: u64) -> Seq<char> {
    spec_decimal(n) + seq![':']
}

/// A signed number: a minus sign where negative, then the magnitude.
pub open spec fn spec_ser_i64(v: int) -> Seq<char>
    recommends
        i64::MIN <= v <= i64::MAX,
{
    if v < 0 {
        seq!['-'] + spec_ser_u64((-v) as u64)
    } else {
        spec_ser_u64(v as u64)
    }
}

/// A string: its character count, then the characters themselves.
pub open spec fn spec_ser_str(s: Seq<char>) -> Seq<char>
    recommends
        s.len() <= u64::MAX,
{
    spec_ser_u64(s.len() as u64) + s
}

/// An optional timestamp: tagged present or absent.
pub open spec fn spec_ser_opt_i64(o: Option<int>) -> Seq<char> {
    match o {
        Some(v) => seq!['S'] + spec_ser_i64(v),
        None => seq!['N'],
    }
}

/// An optional string: tagged present or absent.
pub open spec fn spec_ser_opt_str(o: Option<Seq<char>>) -> Seq<char> {
    match o {
        Some(s) => seq!['S'] + spec_ser_str(s),
        None => seq!['N'],
    }
}

/// A language tag.
pub open spec fn spec_ser_lang(l: Language) -> Seq<char> {
    match l {
        Language::En => seq!['e'],
        Language::Fr => seq!['f'],
    }
}

/// A sender tag.
pub open spec fn spec_ser_sender(s: Sender) -> Seq<char> {
    match s {
        Sender::Elara => seq!['E'],
        Sender::Player => seq!['P'],
        Sender::System => seq!['Y'],
    }
}

/// One log entry: sender, text, timestamp.
pub open spec fn spec_ser_entry(e: LogModel) -> Seq<char> {
    spec_ser_sender(e.sender) + spec_ser_str(e.text) + spec_ser_i64(e.timestamp)
}

/// The flag strings, one after another.
pub open spec fn spec_ser_flag_items(fs: Seq<Seq<char>>) -> Seq<char>
    decreases fs.len(),
{
    if fs.len() == 0 {
        Seq::<char>::empty()
    } else {
        spec_ser_str(fs[0]) + spec_ser_flag_items(fs.skip(1))
    }
}

/// The log entries, one after another.
pub open spec fn spec_ser_log_items(log: Seq<LogModel>) -> Seq<char>
    decreases log.len(),
{
    if log.len() == 0 {
        Seq::<char>::empty()
    } else {
        spec_ser_entry(log[0]) + spec_ser_log_items(log.skip(1))
    }
}

/// The identity and progress fields: current node, flags, language, wait.
pub open spec fn spec_ser_a(m: StateModel) -> Seq<char> {
    spec_ser_str(m.current_node) + (spec_ser_u64(m.flags.len() as u64) + (spec_ser_flag_items(
        m.flags,
    ) + (spec_ser_lang(m.language) + spec_ser_opt_i64(m.waiting_until))))
}

/// The history and stats fields: message log and the three stats.
pub open spec fn spec_ser_b(m: StateModel) -> Seq<char> {
    spec_ser_u64(m.log.len() as u64) + (spec_ser_log_items(m.log) + (spec_ser_i64(
        m.stats.trust as int,
    ) + (spec_ser_i64(m.stats.health as int) + spec_ser_i64(m.stats.supplies as int))))
}

/// The resolution fields: ending and day.
pub open spec fn spec_ser_c(m: StateModel) -> Seq<char> {
    spec_ser_opt_str(m.ending) + spec_ser_u64(m.day as u64)
}

/// The whole player state, field by field.
pub open spec fn spec_ser_state(m: StateModel) -> Seq<char> {
    spec_ser_a(m) + (spec_ser_b(m) + spec_ser_c(m))
}

/// The machine bounds any state taken from an executable `GameState` meets;
/// the codec's guarantees are stated for such states.
pub open spec fn spec_bounded(m: StateModel) -> bool {
    &&& m.current_node.len() <= u64::MAX
    &&& m.flags.len() <= u64::MAX
    &&& forall|i: int| 0 <= i < m.flags.len() ==> (#[trigger] m.flags[i]).len() <= u64::MAX
    &&& m.log.len() <= u64::MAX
    &&& forall|i: int| 0 <= i < m.log.len() ==> (#[trigger] m.log[i]).text.len() <= u64::MAX
    &&& forall|i: int|
        0 <= i < m.log.len() ==> i64::MIN <= (#[trigger] m.log[i]).timestamp <= i64::MAX
    &&& (m.waiting_until matches Some(t) ==> i64::MIN <= t <= i64::MAX)
    &&& (m.ending matches Some(e) ==> e.len() <= u64::MAX)
    &&& 0 <= m.day <= u32::MAX
}

// ── Appending one snoc item to a serialized list ─────────────

/// Serialized flag lists grow at the right end.
pub proof fn lemma_ser_flag_items_snoc(fs: Seq<Seq<char>>, x: Seq<char>)
    ensures
        spec_ser_flag_items(fs.push(x)) == spec_ser_flag_items(fs) + spec_ser_str(x),
    decreases fs.len(),
{
    if fs.len() == 0 {
        assert(fs.push(x)[0] == x);
        assert(fs.push(x).skip(1) =~= Seq::<Seq<char>>::empty());
        assert(spec_ser_flag_items(fs.push(x)) == spec_ser_str(x) + spec_ser_flag_items(
            Seq::<Seq<char>>::empty(),
        ));
        assert(spec_ser_flag_items(Seq::<Seq<char>>::empty()) == Seq::<char>::empty());
        assert(spec_ser_str(x) + Seq::<char>::empty() =~= spec_ser_str(x));
        assert(spec_ser_flag_items(fs) == Seq::<char>::empty());
        assert(Seq::<char>::empty() + spec_ser_str(x) =~= spec_ser_str(x));
    } else {
        assert(fs.push(x)[0] == fs[0]);
        assert(fs.push(x).skip(1) =~= fs.skip(1).push(x));
        lemma_ser_flag_items_snoc(fs.skip(1), x);
        assert(spec_ser_flag_items(fs.push(x)) == spec_ser_str(fs[0]) + (spec_ser_flag_items(
            fs.skip(1),
        ) + spec_ser_str(x)));
        assert(spec_ser_str(fs[0]) + (spec_ser_flag_items(fs.skip(1)) + spec_ser_str(x)) =~= (
        spec_ser_str(fs[0]) + spec_ser_flag_items(fs.skip(1))) + spec_ser_str(x));
    }
}

/// Serialized logs grow at the right end.
pub proof fn lemma_ser_log_items_snoc(log: Seq<LogModel>, x: LogModel)
    ensures
        spec_ser_log_items(log.push(x)) == spec_ser_log_items(log) + spec_ser_entry(x),
    decreases log.len(),
{
    if log.len() == 0 {
        assert(log.push(x)[0] == x);
        assert(log.push(x).skip(1) =~= Seq::<LogModel>::empty());
        assert(spec_ser_log_items(log.push(x)) == spec_ser_entry(x) + spec_ser_log_items(
            Seq::<LogModel>::empty(),
        ));
        assert(spec_ser_log_items(Seq::<LogModel>::empty()) == Seq::<char>::empty());
        assert(spec_ser_entry(x) + Seq::<char>::empty() =~= spec_ser_entry(x));
        assert(spec_ser_log_items(log) == Seq::<char>::empty());
        assert(Seq::<char>::empty() + spec_ser_entry(x) =~= spec_ser_entry(x));
    } else {
        assert(log.push(x)[0] == log[0]);
        assert(log.push(x).skip(1) =~= log.skip(1).push(x));
        lemma_ser_log_items_snoc(log.skip(1), x);
        assert(spec_ser_log_items(log.push(x)) == spec_ser_entry(log[0]) + (spec_ser_log_items(
            log.skip(1),
        ) + spec_ser_entry(x)));
        assert(spec_ser_entry(log[0]) + (spec_ser_log_items(log.skip(1)) + spec_ser_entry(x)) =~= (
        spec_ser_entry(log[0]) + spec_ser_log_items(log.skip(1))) + spec_ser_entry(x));
    }
}

// ── The parser, as a specification ───────────────────────────

/// First position at or after `pos` that holds no decimal digit.
pub open spec fn spec_digit_run(s: Seq<char>, pos: int) -> int
    decreases s.len() - pos,
{
    if pos < 0 || pos >= s.len() {
        pos
    } else if spec_digit_value(s[pos]) is None {
        pos
    } else {
        spec_digit_run(s, pos + 1)
    }
}

/// Where the digit run ends: no earlier, at a non-digit or the end, with
/// digits all the way there.
pub proof fn lemma_digit_run(s: Seq<char>, pos: int)
    requires
        0 <= pos <= s.len(),
    ensures
        pos <= spec_digit_run(s, pos) <= s.len(),
        forall|k: int|
            pos <= k < spec_digit_run(s, pos) ==> spec_digit_value(#[trigger] s[k]) is Some,
        spec_digit_run(s, pos) < s.len() ==> spec_digit_value(s[spec_digit_run(s, pos)]) is None,
    decreases s.len() - pos,
{
    if pos < s.len() && spec_digit_value(s[pos]) is Some {
        lemma_digit_run(s, pos + 1);
    }
}

/// A number: a non-empty digit run closed by a colon, valued within `u64`.
pub open spec fn spec_parse_u64(s: Seq<char>, pos: int) -> Option<(u64, int)> {
    let end = spec_digit_run(s, pos);
    if end == pos {
        None
    } else if end >= s.len() {
        None
    } else if s[end] != ':' {
        None
    } else {
        let v = spec_digits_value(s.subrange(pos, end));
        if v > u64::MAX {
            None
        } else {
            Some((v as u64, end + 1))
        }
    }
}

/// A signed number, fitting `i64`.
pub open spec fn spec_parse_i64(s: Seq<char>, pos: int) -> Option<(int, int)> {
    if 0 <= pos < s.len() && s[pos] == '-' {
        match spec_parse_u64(s, pos + 1) {
            Some((m, p)) => if m <= 0x8000_0000_0000_0000u64 {
                Some((-(m as int), p))
            } else {
                None
            },
            None => None,
        }
    } else {
        match spec_parse_u64(s, pos) {
            Some((m, p)) => if m <= i64::MAX as u64 {
                Some((m as int, p))
            } else {
                None
            },
            None => None,
        }
    }
}

/// A string: a character count, then that many characters.
pub open spec fn spec_parse_str(s: Seq<char>, pos: int) -> Option<(Seq<char>, int)> {
    match spec_parse_u64(s, pos) {
        Some((n, p)) => if p + n <= s.len() {
            Some((s.subrange(p, p + n), p + n))
        } else {
            None
        },
        None => None,
    }
}

/// A language tag.
pub open spec fn spec_parse_lang(s: Seq<char>, pos: int) -> Option<(Language, int)> {
    if 0 <= pos < s.len() && s[pos] == 'e' {
        Some((Language::En, pos + 1))
    } else if 0 <= pos < s.len() && s[pos] == 'f' {
        Some((Language::Fr, pos + 1))
    } else {
        None
    }
}

/// A sender tag.
pub open spec fn spec_parse_sender(s: Seq<char>, pos: int) -> Option<(Sender, int)> {
    if 0 <= pos < s.len() && s[pos] == 'E' {
        Some((Sender::Elara, pos + 1))
    } else if 0 <= pos < s.len() && s[pos] == 'P' {
        Some((Sender::Player, pos + 1))
    } else if 0 <= pos < s.len() && s[pos] == 'Y' {
        Some((Sender::System, pos + 1))
    } else {
        None
    }
}

/// An optional timestamp.
pub open spec fn spec_parse_opt_i64(s: Seq<char>, pos: int) -> Option<(Option<int>, int)> {
    if 0 <= pos < s.len() && s[pos] == 'N' {
        Some((None, pos + 1))
    } else if 0 <= pos < s.len() && s[pos] == 'S' {
        match spec_parse_i64(s, pos + 1) {
            Some((v, p)) => Some((Some(v), p)),
            None => None,
        }
    } else {
        None
    }
}

/// An optional string.
pub open spec fn spec_parse_opt_str(s: Seq<char>, pos: int) -> Option<(Option<Seq<char>>, int)> {
    if 0 <= pos < s.len() && s[pos] == 'N' {
        Some((None, pos + 1))
    } else if 0 <= pos < s.len() && s[pos] == 'S' {
        match spec_parse_str(s, pos + 1) {
            Some((v, p)) => Some((Some(v), p)),
            None => None,
        }
    } else {
        None
    }
}

/// `n` flag strings, one after another.
pub open spec fn spec_parse_flag_items(s: Seq<char>, pos: int, n: nat) -> Option<
    (Seq<Seq<char>>, int),
>
    decreases n,
{
    if n == 0 {
        Some((Seq::<Seq<char>>::empty(), pos))
    } else {
        match spec_parse_str(s, pos) {
            Some((x, p)) => match spec_parse_flag_items(s, p, (n - 1) as nat) {
                Some((xs, p2)) => Some((seq![x] + xs, p2)),
                None => None,
            },
            None => None,
        }
    }
}

/// One log entry: sender, text, timestamp.
pub open spec fn spec_parse_entry(s: Seq<char>, pos: int) -> Option<(LogModel, int)> {
    match spec_parse_sender(s, pos) {
        Some((sender, p1)) => match spec_parse_str(s, p1) {
            Some((text, p2)) => match spec_parse_i64(s, p2) {
                Some((ts, p3)) => Some((LogModel { sender, text, timestamp: ts }, p3)),
                None => None,
            },
            None => None,
        },
        None => None,
    }
}

/// `n` log entries, one after another.
pub open spec fn spec_parse_log_items(s: Seq<char>, pos: int, n: nat) -> Option<
    (Seq<LogModel>, int),
>
    decreases n,
{
    if n == 0 {
        Some((Seq::<LogModel>::empty(), pos))
    } else {
        match spec_parse_entry(s, pos) {
            Some((x, p)) => match spec_parse_log_items(s, p, (n - 1) as nat) {
                Some((xs, p2)) => Some((seq![x] + xs, p2)),
                None => None,
            },
            None => None,
        }
    }
}

/// A stat value: a signed number within the `i32` range.
pub open spec fn spec_parse_stat(s: Seq<char>, pos: int) -> Option<(i32, int)> {
    match spec_parse_i64(s, pos) {
        Some((v, p)) => if i32::MIN <= v <= i32::MAX {
            Some((v as i32, p))
        } else {
            None
        },
        None => None,
    }
}

/// The identity and progress fields of a state.
pub ghost struct PartA {
    pub current_node: Seq<char>,
    pub flags: Seq<Seq<char>>,
    pub language: Language,
    pub waiting_until: Option<int>,
}

/// The history and stats fields of a state.
pub ghost struct PartB {
    pub log: Seq<LogModel>,
    pub stats: Stats,
}

/// The resolution fields of a state.
pub ghost struct PartC {
    pub ending: Option<Seq<char>>,
    pub day: int,
}

/// The identity and progress fields.
pub open spec fn spec_parse_a(s: Seq<char>, pos: int) -> Option<(PartA, int)> {
    match spec_parse_str(s, pos) {
        Some((current_node, p1)) => match spec_parse_u64(s, p1) {
            Some((nflags, p2)) => match spec_parse_flag_items(s, p2, nflags as nat) {
                Some((flags, p3)) => match spec_parse_lang(s, p3) {
                    Some((language, p4)) => match spec_parse_opt_i64(s, p4) {
                        Some((waiting_until, p5)) => Some(
                            (PartA { current_node, flags, language, waiting_until }, p5),
                        ),
                        None => None,
                    },
                    None => None,
                },
                None => None,
            },
            None => None,
        },
        None => None,
    }
}

/// The history and stats fields.
pub open spec fn spec_parse_b(s: Seq<char>, pos: int) -> Option<(PartB, int)> {
    match spec_parse_u64(s, pos) {
        Some((nlog, p1)) => match spec_parse_log_items(s, p1, nlog as nat) {
            Some((log, p2)) => match spec_parse_stat(s, p2) {
                Some((trust, p3)) => match spec_parse_stat(s, p3) {
                    Some((health, p4)) => match spec_parse_stat(s, p4) {
                        Some((supplies, p5)) => Some(
                            (PartB { log, stats: Stats { trust, health, supplies } }, p5),
                        ),
                        None => None,
                    },
                    None => None,
                },
                None => None,
            },
            None => None,
        },
        None => None,
    }
}

/// The resolution fields.
pub open spec fn spec_parse_c(s: Seq<char>, pos: int) -> Option<(PartC, int)> {
    match spec_parse_opt_str(s, pos) {
        Some((ending, p1)) => match spec_parse_u64(s, p1) {
            Some((day, p2)) => if day <= u32::MAX as u64 {
                Some((PartC { ending, day: day as int }, p2))
            } else {
                None
            },
            None => None,
        },
        None => None,
    }
}

/// The whole player state, field by field.
pub open spec fn spec_parse_state(s: Seq<char>, pos: int) -> Option<(StateModel, int)> {
    match spec_parse_a(s, pos) {
        Some((a, p1)) => match spec_parse_b(s, p1) {
            Some((b, p2)) => match spec_parse_c(s, p2) {
                Some((c, p3)) => Some(
                    (
                        StateModel {
                            current_node: a.current_node,
                            flags: a.flags,
                            language: a.language,
                            waiting_until: a.waiting_until,
                            log: b.log,
                            stats: b.stats,
                            ending: c.ending,
                            day: c.day,
                        },
                        p3,
                    ),
                ),
                None => None,
            },
            None => None,
        },
        None => None,
    }
}

/// The whole input as one player state, with nothing left over.
pub open spec fn spec_parse_state_full(s: Seq<char>) -> Option<StateModel> {
    match spec_parse_state(s, 0) {
        Some((m, p)) => if p == s.len() {
            Some(m)
        } else {
            None
        },
        None => None,
    }
}

// ── Round trip: parsing inverts serialization ────────────────

/// A segment equal to a concatenation splits into its two halves.
pub proof fn lemma_split(s: Seq<char>, pos: int, a: Seq<char>, b: Seq<char>)
    requires
        0 <= pos,
        pos + a.len() + b.len() <= s.len(),
        s.subrange(pos, pos + a.len() + b.len()) == a + b,
    ensures
        s.subrange(pos, pos + a.len()) == a,
        s.subrange(pos + a.len(), pos + a.len() + b.len()) == b,
{
    assert forall|k: int| 0 <= k < a.len() implies s.subrange(pos, pos + a.len())[k] == a[k] by {
        assert(s.subrange(pos, pos + a.len())[k] == s[pos + k]);
        assert(s.subrange(pos, pos + a.len() + b.len())[k] == s[pos + k]);
        assert((a + b)[k] == a[k]);
    }
    assert(s.subrange(pos, pos + a.len()) =~= a);
    assert forall|k: int|
        0 <= k < b.len() implies s.subrange(pos + a.len(), pos + a.len() + b.len())[k]
        == b[k] by {
        assert(s.subrange(pos + a.len(), pos + a.len() + b.len())[k] == s[pos + a.len() + k]);
        assert(s.subrange(pos, pos + a.len() + b.len())[a.len() + k] == s[pos + a.len() + k]);
        assert((a + b)[a.len() + k] == b[k]);
    }
    assert(s.subrange(pos + a.len(), pos + a.len() + b.len()) =~= b);
}

/// Parsing a serialized number at its position yields it back.
pub proof fn lemma_rt_u64(s: Seq<char>, pos: int, n: u64)
    requires
        0 <= pos,
        pos + spec_ser_u64(n).len() <= s.len(),
        s.subrange(pos, pos + spec_ser_u64(n).len()) == spec_ser_u64(n),
    ensures
        spec_parse_u64(s, pos) == Some((n, pos + spec_ser_u64(n).len())),
{
    let d = spec_decimal(n);
    let dl = d.len() as int;
    lemma_decimal_digits(n);
    lemma_decimal_value(n);
    lemma_digit_run(s, pos);
    assert(forall|k: int|
        0 <= k < dl + 1 ==> s.subrange(pos, pos + dl + 1)[k] == #[trigger] s[pos + k]);
    assert(forall|k: int| 0 <= k < dl ==> s[pos + k] == d[k]);
    assert(s[pos + dl] == ':');
    let end = spec_digit_run(s, pos);
    assert(end == pos + dl) by {
        if end < pos + dl {
            assert(spec_digit_value(s[end]) is Some) by {
                assert(s[end] == d[end - pos]);
                assert(spec_digit_value(d[end - pos]) is Some);
            }
            assert(end < s.len());
            assert(false);
        }
        if end > pos + dl {
            assert(spec_digit_value(s[pos + dl]) is Some);
            assert(spec_digit_value(':') is None);
            assert(false);
        }
    }
    assert(s.subrange(pos, end) =~= d);
    assert(spec_digits_value(s.subrange(pos, end)) == n as int);
}

/// Parsing a serialized signed number yields it back.
pub proof fn lemma_rt_i64(s: Seq<char>, pos: int, v: int)
    requires
        i64::MIN <= v <= i64::MAX,
        0 <= pos,
        pos + spec_ser_i64(v).len() <= s.len(),
        s.subrange(pos, pos + spec_ser_i64(v).len()) == spec_ser_i64(v),
    ensures
        spec_parse_i64(s, pos) == Some((v, pos + spec_ser_i64(v).len())),
{
    if v < 0 {
        let m = (-v) as u64;
        lemma_split(s, pos, seq!['-'], spec_ser_u64(m));
        assert(s[pos] == '-') by {
            assert(s.subrange(pos, pos + 1)[0] == s[pos]);
        }
        lemma_rt_u64(s, pos + 1, m);
        assert(m <= 0x8000_0000_0000_0000u64);
    } else {
        let m = v as u64;
        lemma_rt_u64(s, pos, m);
        assert(s[pos] != '-') by {
            lemma_decimal_digits(m);
            assert(s.subrange(pos, pos + spec_ser_u64(m).len())[0] == s[pos]);
            assert(spec_ser_u64(m)[0] == spec_decimal(m)[0]);
            assert(spec_digit_value(spec_decimal(m)[0]) is Some);
            assert(spec_digit_value('-') is None);
        }
    }
}

/// Parsing a serialized string yields it back.
pub proof fn lemma_rt_str(s: Seq<char>, pos: int, x: Seq<char>)
    requires
        x.len() <= u64::MAX,
        0 <= pos,
        pos + spec_ser_str(x).len() <= s.len(),
        s.subrange(pos, pos + spec_ser_str(x).len()) == spec_ser_str(x),
    ensures
        spec_parse_str(s, pos) == Some((x, pos + spec_ser_str(x).len())),
{
    let n = x.len() as u64;
    lemma_split(s, pos, spec_ser_u64(n), x);
    lemma_rt_u64(s, pos, n);
    let p = pos + spec_ser_u64(n).len();
    assert(s.subrange(p, p + n) == x);
}

/// Parsing a serialized language tag yields it back.
pub proof fn lemma_rt_lang(s: Seq<char>, pos: int, l: Language)
    requires
        0 <= pos,
        pos + 1 <= s.len(),
        s.subrange(pos, pos + 1) == spec_ser_lang(l),
    ensures
        spec_parse_lang(s, pos) == Some((l, pos + 1)),
{
    assert(s[pos] == spec_ser_lang(l)[0]) by {
        assert(s.subrange(pos, pos + 1)[0] == s[pos]);
    }
}

/// Parsing a serialized sender tag yields it back.
pub proof fn lemma_rt_sender(s: Seq<char>, pos: int, x: Sender)
    requires
        0 <= pos,
        pos + 1 <= s.len(),
        s.subrange(pos, pos + 1) == spec_ser_sender(x),
    ensures
        spec_parse_sender(s, pos) == Some((x, pos + 1)),
{
    assert(s[pos] == spec_ser_sender(x)[0]) by {
        assert(s.subrange(pos, pos + 1)[0] == s[pos]);
    }
}

/// Parsing a serialized optional timestamp yields it back.
pub proof fn lemma_rt_opt_i64(s: Seq<char>, pos: int, o: Option<int>)
    requires
        o matches Some(v) ==> i64::MIN <= v <= i64::MAX,
        0 <= pos,
        pos + spec_ser_opt_i64(o).len() <= s.len(),
        s.subrange(pos, pos + spec_ser_opt_i64(o).len()) == spec_ser_opt_i64(o),
    ensures
        spec_parse_opt_i64(s, pos) == Some((o, pos + spec_ser_opt_i64(o).len())),
{
    match o {
        Some(v) => {
            lemma_split(s, pos, seq!['S'], spec_ser_i64(v));
            assert(s[pos] == 'S') by {
                assert(s.subrange(pos, pos + 1)[0] == s[pos]);
            }
            lemma_rt_i64(s, pos + 1, v);
        },
        None => {
            assert(s[pos] == 'N') by {
                assert(s.subrange(pos, pos + 1)[0] == s[pos]);
            }
        },
    }
}

/// Parsing a serialized optional string yields it back.
pub proof fn lemma_rt_opt_str(s: Seq<char>, pos: int, o: Option<Seq<char>>)
    requires
        o matches Some(x) ==> x.len() <= u64::MAX,
        0 <= pos,
        pos + spec_ser_opt_str(o).len() <= s.len(),
        s.subrange(pos, pos + spec_ser_opt_str(o).len()) == spec_ser_opt_str(o),
    ensures
        spec_parse_opt_str(s, pos) == Some((o, pos + spec_ser_opt_str(o).len())),
{
    match o {
        Some(x) => {
            lemma_split(s, pos, seq!['S'], spec_ser_str(x));
            assert(s[pos] == 'S') by {
                assert(s.subrange(pos, pos + 1)[0] == s[pos]);
            }
            lemma_rt_str(s, pos + 1, x);
        },
        None => {
            assert(s[pos] == 'N') by {
                assert(s.subrange(pos, pos + 1)[0] == s[pos]);
            }
        },
    }
}

/// Parsing serialized flag items yields them back.
pub proof fn lemma_rt_flag_items(s: Seq<char>, pos: int, fs: Seq<Seq<char>>)
    requires
        forall|i: int| 0 <= i < fs.len() ==> (#[trigger] fs[i]).len() <= u64::MAX,
        0 <= pos,
        pos + spec_ser_flag_items(fs).len() <= s.len(),
        s.subrange(pos, pos + spec_ser_flag_items(fs).len()) == spec_ser_flag_items(fs),
    ensures
        spec_parse_flag_items(s, pos, fs.len()) == Some(
            (fs, pos + spec_ser_flag_items(fs).len()),
        ),
    decreases fs.len(),
{
    if fs.len() == 0 {
        assert(fs =~= Seq::<Seq<char>>::empty());
    } else {
        let head = spec_ser_str(fs[0]);
        let tail = spec_ser_flag_items(fs.skip(1));
        assert(spec_ser_flag_items(fs) == head + tail);
        lemma_split(s, pos, head, tail);
        lemma_rt_str(s, pos, fs[0]);
        let p = pos + head.len();
        assert(forall|i: int| 0 <= i < fs.skip(1).len() ==> fs.skip(1)[i] == fs[i + 1]);
        lemma_rt_flag_items(s, p, fs.skip(1));
        assert(seq![fs[0]] + fs.skip(1) =~= fs);
    }
}

/// Parsing a serialized log entry yields it back.
pub proof fn lemma_rt_entry(s: Seq<char>, pos: int, e: LogModel)
    requires
        e.text.len() <= u64::MAX,
        i64::MIN <= e.timestamp <= i64::MAX,
        0 <= pos,
        pos + spec_ser_entry(e).len() <= s.len(),
        s.subrange(pos, pos + spec_ser_entry(e).len()) == spec_ser_entry(e),
    ensures
        spec_parse_entry(s, pos) == Some((e, pos + spec_ser_entry(e).len())),
{
    let a = spec_ser_sender(e.sender);
    let b = spec_ser_str(e.text);
    let c = spec_ser_i64(e.timestamp);
    assert(spec_ser_entry(e) == a + b + c);
    assert(s.subrange(pos, pos + (a + b).len() + c.len()) == (a + b) + c) by {
        assert((a + b) + c =~= a + b + c);
    }
    lemma_split(s, pos, a + b, c);
    lemma_split(s, pos, a, b);
    lemma_rt_sender(s, pos, e.sender);
    lemma_rt_str(s, pos + a.len(), e.text);
    lemma_rt_i64(s, pos + a.len() + b.len(), e.timestamp);
}

/// Parsing serialized log items yields them back.
pub proof fn lemma_rt_log_items(s: Seq<char>, pos: int, log: Seq<LogModel>)
    requires
        forall|i: int| 0 <= i < log.len() ==> (#[trigger] log[i]).text.len() <= u64::MAX,
        forall|i: int|
            0 <= i < log.len() ==> i64::MIN <= (#[trigger] log[i]).timestamp <= i64::MAX,
        0 <= pos,
        pos + spec_ser_log_items(log).len() <= s.len(),
        s.subrange(pos, pos + spec_ser_log_items(log).len()) == spec_ser_log_items(log),
    ensures
        spec_parse_log_items(s, pos, log.len()) == Some(
            (log, pos + spec_ser_log_items(log).len()),
        ),
    decreases log.len(),
{
    if log.len() == 0 {
        assert(log =~= Seq::<LogModel>::empty());
    } else {
        let head = spec_ser_entry(log[0]);
        let tail = spec_ser_log_items(log.skip(1));
        assert(spec_ser_log_items(log) == head + tail);
        lemma_split(s, pos, head, tail);
        lemma_rt_entry(s, pos, log[0]);
        let p = pos + head.len();
        assert(forall|i: int| 0 <= i < log.skip(1).len() ==> log.skip(1)[i] == log[i + 1]);
        lemma_rt_log_items(s, p, log.skip(1));
        assert(seq![log[0]] + log.skip(1) =~= log);
    }
}

/// The round-trip law: any bounded player state, serialized and parsed
/// back, comes out equal, with no input left over.
/// Parsing a serialized identity-and-progress chunk yields it back.
pub proof fn lemma_rt_a(s: Seq<char>, pos: int, m: StateModel)
    requires
        spec_bounded(m),
        0 <= pos,
        pos + spec_ser_a(m).len() <= s.len(),
        s.subrange(pos, pos + spec_ser_a(m).len()) == spec_ser_a(m),
    ensures
        spec_parse_a(s, pos) == Some(
            (
                PartA {
                    current_node: m.current_node,
                    flags: m.flags,
                    language: m.language,
                    waiting_until: m.waiting_until,
                },
                pos + spec_ser_a(m).len(),
            ),
        ),
{
    let f1 = spec_ser_str(m.current_node);
    let f2 = spec_ser_u64(m.flags.len() as u64);
    let f3 = spec_ser_flag_items(m.flags);
    let f4 = spec_ser_lang(m.language);
    let f5 = spec_ser_opt_i64(m.waiting_until);
    let g5 = f5;
    let g4 = f4 + g5;
    let g3 = f3 + g4;
    let g2 = f2 + g3;
    let p1 = pos + f1.len();
    let p2 = p1 + f2.len();
    let p3 = p2 + f3.len();
    let p4 = p3 + f4.len();
    let p5 = p4 + f5.len();
    lemma_split(s, pos, f1, g2);
    lemma_split(s, p1, f2, g3);
    lemma_split(s, p2, f3, g4);
    lemma_split(s, p3, f4, g5);
    lemma_rt_str(s, pos, m.current_node);
    lemma_rt_u64(s, p1, m.flags.len() as u64);
    lemma_rt_flag_items(s, p2, m.flags);
    lemma_rt_lang(s, p3, m.language);
    lemma_rt_opt_i64(s, p4, m.waiting_until);
}

/// Parsing a serialized history-and-stats chunk yields it back.
pub proof fn lemma_rt_b(s: Seq<char>, pos: int, m: StateModel)
    requires
        spec_bounded(m),
        0 <= pos,
        pos + spec_ser_b(m).len() <= s.len(),
        s.subrange(pos, pos + spec_ser_b(m).len()) == spec_ser_b(m),
    ensures
        spec_parse_b(s, pos) == Some(
            (PartB { log: m.log, stats: m.stats }, pos + spec_ser_b(m).len()),
        ),
{
    let f1 = spec_ser_u64(m.log.len() as u64);
    let f2 = spec_ser_log_items(m.log);
    let f3 = spec_ser_i64(m.stats.trust as int);
    let f4 = spec_ser_i64(m.stats.health as int);
    let f5 = spec_ser_i64(m.stats.supplies as int);
    let g5 = f5;
    let g4 = f4 + g5;
    let g3 = f3 + g4;
    let g2 = f2 + g3;
    let p1 = pos + f1.len();
    let p2 = p1 + f2.len();
    let p3 = p2 + f3.len();
    let p4 = p3 + f4.len();
    let p5 = p4 + f5.len();
    lemma_split(s, pos, f1, g2);
    lemma_split(s, p1, f2, g3);
    lemma_split(s, p2, f3, g4);
    lemma_split(s, p3, f4, g5);
    lemma_rt_u64(s, pos, m.log.len() as u64);
    lemma_rt_log_items(s, p1, m.log);
    lemma_rt_i64(s, p2, m.stats.trust as int);
    lemma_rt_i64(s, p3, m.stats.health as int);
    lemma_rt_i64(s, p4, m.stats.supplies as int);
}

/// Parsing a serialized resolution chunk yields it back.
pub proof fn lemma_rt_c(s: Seq<char>, pos: int, m: StateModel)
    requires
        spec_bounded(m),
        0 <= pos,
        pos + spec_ser_c(m).len() <= s.len(),
        s.subrange(pos, pos + spec_ser_c(m).len()) == spec_ser_c(m),
    ensures
        spec_parse_c(s, pos) == Some(
            (PartC { ending: m.ending, day: m.day }, pos + spec_ser_c(m).len()),
        ),
{
    let f1 = spec_ser_opt_str(m.ending);
    let f2 = spec_ser_u64(m.day as u64);
    lemma_split(s, pos, f1, f2);
    lemma_rt_opt_str(s, pos, m.ending);
    lemma_rt_u64(s, pos + f1.len(), m.day as u64);
}

/// The round-trip law: any bounded player state (its stats in range),
/// serialized and parsed back, comes out equal, with no input left over.
pub proof fn lemma_round_trip(m: StateModel)
    requires
        spec_bounded(m),
    ensures
        spec_parse_state_full(spec_ser_state(m)) == Some(m),
{
    let s = spec_ser_state(m);
    let a = spec_ser_a(m);
    let b = spec_ser_b(m);
    let c = spec_ser_c(m);
    let bc = b + c;
    let p1 = a.len() as int;
    let p2 = p1 + b.len();
    let p3 = p2 + c.len();
    assert(s.subrange(0, p3) =~= s);
    lemma_split(s, 0, a, bc);
    lemma_split(s, p1, b, c);
    lemma_rt_a(s, 0, m);
    lemma_rt_b(s, p1, m);
    lemma_rt_c(s, p2, m);
}

/// Deadline persistence law: a wait scheduled against `now` survives the
/// serialize/deserialize round trip unchanged, and at any time past the
/// deadline the restored state no longer counts as waiting and no time
/// remains.
pub proof fn lemma_deadline_persistence(
    m: StateModel,
    now: int,
    seconds: u64,
    debug: bool,
    later: int,
)
    requires
        spec_bounded(m),
        i64::MIN <= now <= i64::MAX,
        later >= crate::wait::spec_sat_add(
            now,
            crate::wait::spec_effective_delay(debug, seconds) as int,
        ),
    ensures
        ({
            let until = crate::wait::spec_sat_add(
                now,
                crate::wait::spec_effective_delay(debug, seconds) as int,
            );
            let scheduled = StateModel { waiting_until: Some(until), ..m };
            &&& spec_parse_state_full(spec_ser_state(scheduled)) == Some(scheduled)
            &&& !crate::wait::spec_waiting(scheduled.waiting_until, later)
            &&& crate::wait::spec_remaining(until, later) <= 0
        }),
{
    let until = crate::wait::spec_sat_add(
        now,
        crate::wait::spec_effective_delay(debug, seconds) as int,
    );
    let scheduled = StateModel { waiting_until: Some(until), ..m };
    assert(i64::MIN <= until <= i64::MAX);
    assert(spec_bounded(scheduled));
    lemma_round_trip(scheduled);
}

// ── Executable serializers ───────────────────────────────────

/// Append a number in its serialized form.
fn ser_u64(out: &mut String, n: u64)
    ensures
        final(out)@ == old(out)@ + spec_ser_u64(n),
{
    proof {
        reveal_strlit(":");
    }
    push_decimal(out, n);
    out.append(":");
    proof {
        assert(out@ =~= old(out)@ + spec_ser_u64(n));
    }
}

/// Append a signed number in its serialized form.
fn ser_i64(out: &mut String, v: i64)
    ensures
        final(out)@ == old(out)@ + spec_ser_i64(v as int),
{
    proof {
        reveal_strlit("-");
    }
    if v < 0 {
        out.append("-");
        let neg: i128 = 0 - (v as i128);
        let mag: u64 = neg as u64;
        proof {
            assert(mag as int == -(v as int));
        }
        ser_u64(out, mag);
        proof {
            assert(out@ =~= old(out)@ + spec_ser_i64(v as int));
        }
    } else {
        ser_u64(out, v as u64);
    }
}

/// Append a string in its serialized form.
fn ser_str(out: &mut String, s: &str)
    ensures
        final(out)@ == old(out)@ + spec_ser_str(s@),
{
    let len = s.unicode_len();
    ser_u64(out, len as u64);
    out.append(s);
    proof {
        assert(out@ =~= old(out)@ + spec_ser_str(s@));
    }
}

/// Serialize the player state into one string.
#[verifier::rlimit(100)]
pub fn serialize(state: &GameState) -> (r: String)
    ensures
        r@ == spec_ser_state(state@),
{
    proof {
        reveal_strlit("");
        reveal_strlit("S");
        reveal_strlit("N");
        reveal_strlit("e");
        reveal_strlit("f");
        reveal_strlit("E");
        reveal_strlit("P");
        reveal_strlit("Y");
    }
    let mut out = "".to_owned();
    ser_str(&mut out, state.current_node.as_str());
    let ghost c1 = out@;

    ser_u64(&mut out, state.flags.len() as u64);
    let ghost fs = state.flags.deep_view();
    let ghost base = out@;
    let mut i: usize = 0;
    proof {
        assert(fs.take(0) =~= Seq::<Seq<char>>::empty());
        assert(base + spec_ser_flag_items(fs.take(0)) =~= base);
    }
    while i < state.flags.len()
        invariant
            fs == state.flags.deep_view(),
            fs.len() == state.flags@.len(),
            0 <= i <= state.flags@.len(),
            out@ == base + spec_ser_flag_items(fs.take(i as int)),
        decreases state.flags@.len() - i,
    {
        proof {
            assert(fs[i as int] == state.flags@[i as int]@);
        }
        ser_str(&mut out, state.flags[i].as_str());
        proof {
            assert(fs.take(i as int + 1) =~= fs.take(i as int).push(fs[i as int]));
            lemma_ser_flag_items_snoc(fs.take(i as int), fs[i as int]);
            assert(out@ =~= base + spec_ser_flag_items(fs.take(i as int + 1)));
        }
        i += 1;
    }
    proof {
        assert(fs.take(state.flags@.len() as int) =~= fs);
    }

    match state.language {
        Language::En => out.append("e"),
        Language::Fr => out.append("f"),
    }
    match state.waiting_until {
        Some(t) => {
            out.append("S");
            ser_i64(&mut out, t);
        },
        None => out.append("N"),
    }
    proof {
        assert(out@ =~= spec_ser_a(state@));
    }

    ser_u64(&mut out, state.message_log.len() as u64);
    let ghost log = state.message_log.deep_view();
    let ghost base2 = out@;
    let mut i: usize = 0;
    proof {
        assert(log.take(0) =~= Seq::<LogModel>::empty());
        assert(base2 + spec_ser_log_items(log.take(0)) =~= base2);
    }
    while i < state.message_log.len()
        invariant
            log == state.message_log.deep_view(),
            log.len() == state.message_log@.len(),
            0 <= i <= state.message_log@.len(),
            out@ == base2 + spec_ser_log_items(log.take(i as int)),
        decreases state.message_log@.len() - i,
    {
        proof {
            reveal_strlit("E");
            reveal_strlit("P");
            reveal_strlit("Y");
            assert(log[i as int] == state.message_log@[i as int].deep_view());
        }
        let entry = &state.message_log[i];
        match entry.sender {
            Sender::Elara => out.append("E"),
            Sender::Player => out.append("P"),
            Sender::System => out.append("Y"),
        }
        ser_str(&mut out, entry.text.as_str());
        ser_i64(&mut out, entry.timestamp);
        proof {
            assert(log.take(i as int + 1) =~= log.take(i as int).push(log[i as int]));
            lemma_ser_log_items_snoc(log.take(i as int), log[i as int]);
            assert(out@ =~= base2 + spec_ser_log_items(log.take(i as int + 1)));
        }
        i += 1;
    }
    proof {
        assert(log.take(state.message_log@.len() as int) =~= log);
    }

    ser_i64(&mut out, state.stats.trust as i64);
    ser_i64(&mut out, state.stats.health as i64);
    ser_i64(&mut out, state.stats.supplies as i64);
    proof {
        assert(out@ =~= spec_ser_a(state@) + spec_ser_b(state@));
    }
    match &state.ending {
        Some(e) => {
            out.append("S");
            ser_str(&mut out, e.as_str());
        },
        None => out.append("N"),
    }
    ser_u64(&mut out, state.day as u64);
    proof {
        assert(out@ =~= spec_ser_state(state@));
    }
    out
}

// ── Executable parsers ───────────────────────────────────────

/// The digit run ends exactly where the digits stop.
proof fn lemma_digit_run_is(s: Seq<char>, pos: int, e: int)
    requires
        0 <= pos <= e <= s.len(),
        forall|k: int| pos <= k < e ==> spec_digit_value(#[trigger] s[k]) is Some,
        e == s.len() || spec_digit_value(s[e]) is None,
    ensures
        spec_digit_run(s, pos) == e,
    decreases e - pos,
{
    if pos < e {
        lemma_digit_run_is(s, pos + 1, e);
    }
}

/// Read a number: a non-empty digit run closed by a colon.
fn parse_u64(s: &str, pos: usize) -> (r: Option<(u64, usize)>)
    requires
        pos <= s@.len(),
    ensures
        match r {
            Some((v, p)) => spec_parse_u64(s@, pos as int) == Some((v, p as int)) && pos < p
                <= s@.len(),
            None => spec_parse_u64(s@, pos as int) is None,
        },
{
    proof {
        lemma_digit_run(s@, pos as int);
    }
    let ghost run = spec_digit_run(s@, pos as int);
    let n = s.unicode_len();
    let mut i: usize = pos;
    let mut acc: u128 = 0;
    while i < n
        invariant
            n == s@.len(),
            pos <= i <= n,
            run == spec_digit_run(s@, pos as int),
            pos <= run <= n,
            forall|k: int| pos <= k < run ==> spec_digit_value(#[trigger] s@[k]) is Some,
            run < n ==> spec_digit_value(s@[run as int]) is None,
            forall|k: int| pos <= k < i ==> spec_digit_value(#[trigger] s@[k]) is Some,
            i <= run,
            acc == spec_digits_value(s@.subrange(pos as int, i as int)),
            acc <= u64::MAX,
        decreases n - i,
    {
        let c = s.get_char(i);
        match crate::text::digit_value(c) {
            Some(d) => {
                let acc2: u128 = acc * 10 + (d as u128);
                proof {
                    assert(s@.subrange(pos as int, i as int + 1).drop_last() =~= s@.subrange(
                        pos as int,
                        i as int,
                    ));
                    assert(s@.subrange(pos as int, i as int + 1).last() == s@[i as int]);
                    assert(i + 1 <= run) by {
                        if i == run {
                            assert(spec_digit_value(s@[run as int]) is None);
                        }
                    }
                }
                if acc2 > u64::MAX as u128 {
                    proof {
                        let full = s@.subrange(pos as int, run as int);
                        assert(crate::text::spec_all_digits(full)) by {
                            assert(forall|k: int|
                                0 <= k < full.len() ==> full[k] == s@[pos + k]);
                        }
                        lemma_digits_value_prefix_le(full, i as int + 1 - pos);
                        assert(full.take(i as int + 1 - pos) =~= s@.subrange(
                            pos as int,
                            i as int + 1,
                        ));
                        assert(spec_digits_value(s@.subrange(pos as int, run as int))
                            > u64::MAX);
                    }
                    return None;
                }
                acc = acc2;
                i += 1;
            },
            None => {
                proof {
                    lemma_digit_run_is(s@, pos as int, i as int);
                }
                if i == pos {
                    return None;
                }
                if c != ':' {
                    return None;
                }
                proof {
                    lemma_digits_value_nonneg(s@.subrange(pos as int, i as int));
                }
                return Some((acc as u64, i + 1));
            },
        }
    }
    proof {
        lemma_digit_run_is(s@, pos as int, i as int);
    }
    None
}

/// Read a signed number fitting `i64`.
fn parse_i64(s: &str, pos: usize) -> (r: Option<(i64, usize)>)
    requires
        pos <= s@.len(),
    ensures
        match r {
            Some((v, p)) => spec_parse_i64(s@, pos as int) == Some((v as int, p as int)) && pos
                < p <= s@.len(),
            None => spec_parse_i64(s@, pos as int) is None,
        },
{
    if pos < s.unicode_len() && s.get_char(pos) == '-' {
        match parse_u64(s, pos + 1) {
            Some((m, p)) => {
                if m <= 0x8000_0000_0000_0000u64 {
                    let v: i64 = (0 - (m as i128)) as i64;
                    proof {
                        assert(v as int == -(m as int));
                    }
                    Some((v, p))
                } else {
                    None
                }
            },
            None => None,
        }
    } else {
        match parse_u64(s, pos) {
            Some((m, p)) => {
                if m <= i64::MAX as u64 {
                    Some((m as i64, p))
                } else {
                    None
                }
            },
            None => None,
        }
    }
}

/// Read a length-prefixed string.
fn parse_str(s: &str, pos: usize) -> (r: Option<(String, usize)>)
    requires
        pos <= s@.len(),
    ensures
        match r {
            Some((v, p)) => (match spec_parse_str(s@, pos as int) {
                Some((x, q)) => v@ == x && p as int == q,
                None => false,
            }) && pos < p <= s@.len(),
            None => spec_parse_str(s@, pos as int) is None,
        },
{
    match parse_u64(s, pos) {
        Some((n, p)) => {
            let total = s.unicode_len();
            if n > (total - p) as u64 {
                return None;
            }
            let end = p + (n as usize);
            let sub = s.substring_char(p, end);
            Some((sub.to_owned(), end))
        },
        None => None,
    }
}

/// Read a language tag.
fn parse_lang(s: &str, pos: usize) -> (r: Option<(Language, usize)>)
    requires
        pos <= s@.len(),
    ensures
        match r {
            Some((v, p)) => spec_parse_lang(s@, pos as int) == Some((v, p as int)) && pos < p
                <= s@.len(),
            None => spec_parse_lang(s@, pos as int) is None,
        },
{
    if pos < s.unicode_len() {
        let c = s.get_char(pos);
        if c == 'e' {
            return Some((Language::En, pos + 1));
        }
        if c == 'f' {
            return Some((Language::Fr, pos + 1));
        }
    }
    None
}

/// Read a sender tag.
fn parse_sender(s: &str, pos: usize) -> (r: Option<(Sender, usize)>)
    requires
        pos <= s@.len(),
    ensures
        match r {
            Some((v, p)) => spec_parse_sender(s@, pos as int) == Some((v, p as int)) && pos < p
                <= s@.len(),
            None => spec_parse_sender(s@, pos as int) is None,
        },
{
    if pos < s.unicode_len() {
        let c = s.get_char(pos);
        if c == 'E' {
            return Some((Sender::Elara, pos + 1));
        }
        if c == 'P' {
            return Some((Sender::Player, pos + 1));
        }
        if c == 'Y' {
            return Some((Sender::System, pos + 1));
        }
    }
    None
}

/// Read an optional timestamp.
fn parse_opt_i64(s: &str, pos: usize) -> (r: Option<(Option<i64>, usize)>)
    requires
        pos <= s@.len(),
    ensures
        match r {
            Some((v, p)) => (match spec_parse_opt_i64(s@, pos as int) {
                Some((x, q)) => (match (v, x) {
                    (Some(ve), Some(xe)) => ve as int == xe,
                    (None, None) => true,
                    _ => false,
                }) && p as int == q,
                None => false,
            }) && pos < p <= s@.len(),
            None => spec_parse_opt_i64(s@, pos as int) is None,
        },
{
    if pos < s.unicode_len() {
        let c = s.get_char(pos);
        if c == 'N' {
            return Some((None, pos + 1));
        }
        if c == 'S' {
            return match parse_i64(s, pos + 1) {
                Some((v, p)) => Some((Some(v), p)),
                None => None,
            };
        }
    }
    None
}

/// Read an optional string.
fn parse_opt_str(s: &str, pos: usize) -> (r: Option<(Option<String>, usize)>)
    requires
        pos <= s@.len(),
    ensures
        match r {
            Some((v, p)) => (match spec_parse_opt_str(s@, pos as int) {
                Some((x, q)) => (match (v, x) {
                    (Some(ve), Some(xe)) => ve@ == xe,
                    (None, None) => true,
                    _ => false,
                }) && p as int == q,
                None => false,
            }) && pos < p <= s@.len(),
            None => spec_parse_opt_str(s@, pos as int) is None,
        },
{
    if pos < s.unicode_len() {
        let c = s.get_char(pos);
        if c == 'N' {
            return Some((None, pos + 1));
        }
        if c == 'S' {
            return match parse_str(s, pos + 1) {
                Some((v, p)) => Some((Some(v), p)),
                None => None,
            };
        }
    }
    None
}

/// Read `n` flag strings.
fn parse_flag_items(s: &str, pos: usize, n: u64) -> (r: Option<(Vec<String>, usize)>)
    requires
        pos <= s@.len(),
    ensures
        match r {
            Some((v, p)) => (match spec_parse_flag_items(s@, pos as int, n as nat) {
                Some((xs, q)) => v.deep_view() == xs && p as int == q,
                None => false,
            }) && pos <= p <= s@.len(),
            None => spec_parse_flag_items(s@, pos as int, n as nat) is None,
        },
{
    let mut out: Vec<String> = Vec::new();
    let mut cur = pos;
    let mut k: u64 = 0;
    proof {
        assert(out.deep_view() =~= Seq::<Seq<char>>::empty());
    }
    while k < n
        invariant
            pos <= cur <= s@.len(),
            0 <= k <= n,
            (match spec_parse_flag_items(s@, pos as int, n as nat) {
                Some((xs, q)) => spec_parse_flag_items(s@, cur as int, (n - k) as nat) matches
                    Some((ys, q2)) && xs == out.deep_view() + ys && q == q2,
                None => spec_parse_flag_items(s@, cur as int, (n - k) as nat) is None,
            }),
        decreases n - k,
    {
        match parse_str(s, cur) {
            Some((x, p)) => {
                let ghost before = out.deep_view();
                out.push(x);
                proof {
                    let xv = spec_parse_str(s@, cur as int)->Some_0.0;
                    assert(out.deep_view() =~= before.push(xv));
                    let next = spec_parse_flag_items(s@, p as int, (n - k - 1) as nat);
                    if next is Some {
                        let ys = next->Some_0.0;
                        assert(before + (seq![xv] + ys) =~= before.push(xv) + ys);
                    }
                }
                cur = p;
            },
            None => {
                return None;
            },
        }
        k += 1;
    }
    proof {
        assert(out.deep_view() + Seq::<Seq<char>>::empty() =~= out.deep_view());
    }
    Some((out, cur))
}

/// Read one log entry.
fn parse_entry(s: &str, pos: usize) -> (r: Option<(LogEntry, usize)>)
    requires
        pos <= s@.len(),
    ensures
        match r {
            Some((v, p)) => (match spec_parse_entry(s@, pos as int) {
                Some((x, q)) => v.deep_view() == x && p as int == q,
                None => false,
            }) && pos < p <= s@.len(),
            None => spec_parse_entry(s@, pos as int) is None,
        },
{
    match parse_sender(s, pos) {
        Some((sender, p1)) => match parse_str(s, p1) {
            Some((text, p2)) => match parse_i64(s, p2) {
                Some((ts, p3)) => Some((LogEntry { sender, text, timestamp: ts }, p3)),
                None => None,
            },
            None => None,
        },
        None => None,
    }
}

/// Read `n` log entries.
fn parse_log_items(s: &str, pos: usize, n: u64) -> (r: Option<(Vec<LogEntry>, usize)>)
    requires
        pos <= s@.len(),
    ensures
        match r {
            Some((v, p)) => (match spec_parse_log_items(s@, pos as int, n as nat) {
                Some((xs, q)) => v.deep_view() == xs && p as int == q,
                None => false,
            }) && pos <= p <= s@.len(),
            None => spec_parse_log_items(s@, pos as int, n as nat) is None,
        },
{
    let mut out: Vec<LogEntry> = Vec::new();
    let mut cur = pos;
    let mut k: u64 = 0;
    proof {
        assert(out.deep_view() =~= Seq::<LogModel>::empty());
    }
    while k < n
        invariant
            pos <= cur <= s@.len(),
            0 <= k <= n,
            (match spec_parse_log_items(s@, pos as int, n as nat) {
                Some((xs, q)) => spec_parse_log_items(s@, cur as int, (n - k) as nat) matches
                    Some((ys, q2)) && xs == out.deep_view() + ys && q == q2,
                None => spec_parse_log_items(s@, cur as int, (n - k) as nat) is None,
            }),
        decreases n - k,
    {
        match parse_entry(s, cur) {
            Some((x, p)) => {
                let ghost before = out.deep_view();
                let ghost xv = x.deep_view();
                out.push(x);
                proof {
                    assert(out.deep_view() =~= before.push(xv));
                    let next = spec_parse_log_items(s@, p as int, (n - k - 1) as nat);
                    if next is Some {
                        let ys = next->Some_0.0;
                        assert(before + (seq![xv] + ys) =~= before.push(xv) + ys);
                    }
                }
                cur = p;
            },
            None => {
                return None;
            },
        }
        k += 1;
    }
    proof {
        assert(out.deep_view() + Seq::<LogModel>::empty() =~= out.deep_view());
    }
    Some((out, cur))
}

/// Read a stat value within the `i32` range.
fn parse_stat(s: &str, pos: usize) -> (r: Option<(i32, usize)>)
    requires
        pos <= s@.len(),
    ensures
        match r {
            Some((v, p)) => spec_parse_stat(s@, pos as int) == Some((v, p as int)) && pos < p
                <= s@.len(),
            None => spec_parse_stat(s@, pos as int) is None,
        },
{
    match parse_i64(s, pos) {
        Some((v, p)) => {
            if i32::MIN as i64 <= v && v <= i32::MAX as i64 {
                Some((v as i32, p))
            } else {
                None
            }
        },
        None => None,
    }
}

/// Parse a serialized player state back. Exactly the strings that
/// `spec_parse_state_full` accepts come back as states — in particular,
/// by `lemma_round_trip`, everything `serialize` produces — and anything
/// else (a syntactically invalid save) is rejected, never a crash.
pub fn deserialize(s: &str) -> (r: Option<GameState>)
    ensures
        match r {
            Some(st) => spec_parse_state_full(s@) == Some(st@),
            None => spec_parse_state_full(s@) is None,
        },
{
    let (current_node, p1) = match parse_str(s, 0) {
        Some(v) => v,
        None => {
            return None;
        },
    };
    let (nflags, p2) = match parse_u64(s, p1) {
        Some(v) => v,
        None => {
            return None;
        },
    };
    let (flags, p3) = match parse_flag_items(s, p2, nflags) {
        Some(v) => v,
        None => {
            return None;
        },
    };
    let (language, p4) = match parse_lang(s, p3) {
        Some(v) => v,
        None => {
            return None;
        },
    };
    let (waiting_until, p5) = match parse_opt_i64(s, p4) {
        Some(v) => v,
        None => {
            return None;
        },
    };
    let (nlog, p6) = match parse_u64(s, p5) {
        Some(v) => v,
        None => {
            return None;
        },
    };
    let (message_log, p7) = match parse_log_items(s, p6, nlog) {
        Some(v) => v,
        None => {
            return None;
        },
    };
    let (trust, p8) = match parse_stat(s, p7) {
        Some(v) => v,
        None => {
            return None;
        },
    };
    let (health, p9) = match parse_stat(s, p8) {
        Some(v) => v,
        None => {
            return None;
        },
    };
    let (supplies, p10) = match parse_stat(s, p9) {
        Some(v) => v,
        None => {
            return None;
        },
    };
    let (ending, p11) = match parse_opt_str(s, p10) {
        Some(v) => v,
        None => {
            return None;
        },
    };
    let (day, p12) = match parse_u64(s, p11) {
        Some(v) => v,
        None => {
            return None;
        },
    };
    if day > u32::MAX as u64 {
        return None;
    }
    if p12 != s.unicode_len() {
        return None;
    }
    let st = GameState {
        current_node,
        flags,
        language,
        waiting_until,
        message_log,
        stats: Stats { trust, health, supplies },
        ending,
        day: day as u32,
    };
    Some(st)
}

} // verus!
