//! Wait scheduler: real-time deadlines on the player state, the
//! debug-speedup policy, and the human-readable countdown text.

use vstd::prelude::*;
use vstd::string::StringExecFns;

use crate::game::GameState;
use crate::i18n::Language;
use crate::text::{push_decimal, spec_decimal};

verus! {

/// Every delay collapses to this many seconds when the debug speed-up is on.
pub const DEBUG_DELAY_SECONDS: u64 = 5;

/// The effective delay: the debug policy collapses every delay, whatever its
/// origin, to the same small constant.
pub open spec fn spec_effective_delay(debug: bool, seconds: u64) -> u64 {
    if debug {
        DEBUG_DELAY_SECONDS
    } else {
        seconds
    }
}

/// Get the effective delay in seconds, honouring the debug speed-up policy.
pub fn effective_delay(debug: bool, seconds: u64) -> (r: u64)
    ensures
        r == spec_effective_delay(debug, seconds),
{
    if debug {
        DEBUG_DELAY_SECONDS
    } else {
        seconds
    }
}

/// `a + b`, saturating at the top of the timestamp range.
pub open spec fn spec_sat_add(a: int, b: int) -> int {
    if a + b > i64::MAX as int {
        i64::MAX as int
    } else {
        a + b
    }
}

/// Saturating addition of a non-negative span to a timestamp.
pub fn sat_add_time(a: i64, b: u64) -> (r: i64)
    ensures
        r as int == spec_sat_add(a as int, b as int),
{
    let sum: i128 = a as i128 + b as i128;
    if sum > i64::MAX as i128 {
        i64::MAX
    } else {
        sum as i64
    }
}

/// Relies on chrono::Utc::now for the wall-clock time, converted to seconds
/// since the Unix epoch. Nothing is assumed of the value. Note that
/// chrono::Utc::now itself panics when the system clock reads before the
/// Unix epoch — an environmental condition no caller can rule out here.
#[verifier::external_body]
pub(crate) fn now_utc() -> i64 {
    chrono::Utc::now().timestamp()
}

/// Schedule the story to pause until `now + effective(seconds)`. Only the
/// deadline changes; everything else in the state is kept.
pub fn schedule_wait_at(state: &mut GameState, now: i64, seconds: u64, debug: bool)
    ensures
        final(state).waiting_until == Some(
            spec_sat_add(now as int, spec_effective_delay(debug, seconds) as int) as i64,
        ),
        final(state).current_node == old(state).current_node,
        final(state).flags == old(state).flags,
        final(state).language == old(state).language,
        final(state).message_log == old(state).message_log,
        final(state).stats == old(state).stats,
        final(state).ending == old(state).ending,
        final(state).day == old(state).day,
{
    let delay = effective_delay(debug, seconds);
    let until = sat_add_time(now, delay);
    state.waiting_until = Some(until);
}

/// Schedule a pause measured from the wall clock. The deadline is absolute,
/// so it survives process restarts. Whatever the clock returned, a deadline
/// is set and nothing else changes.
pub fn schedule_wait(state: &mut GameState, seconds: u64, debug: bool)
    ensures
        final(state).waiting_until is Some,
        final(state).current_node == old(state).current_node,
        final(state).flags == old(state).flags,
        final(state).language == old(state).language,
        final(state).message_log == old(state).message_log,
        final(state).stats == old(state).stats,
        final(state).ending == old(state).ending,
        final(state).day == old(state).day,
{
    let now = now_utc();
    schedule_wait_at(state, now, seconds, debug);
}

/// Whether a deadline is present and still in the future at time `now`.
pub open spec fn spec_waiting(w: Option<int>, now: int) -> bool {
    match w {
        Some(t) => now < t,
        None => false,
    }
}

/// Whether the state is paused at time `now`: a deadline is present and
/// still in the future.
pub open spec fn spec_is_waiting_at(state: &GameState, now: int) -> bool {
    spec_waiting(state@.waiting_until, now)
}

/// Check whether the story is paused at the given time.
pub fn is_waiting_at(state: &GameState, now: i64) -> (r: bool)
    ensures
        r == spec_is_waiting_at(state, now as int),
{
    match state.waiting_until {
        Some(t) => now < t,
        None => false,
    }
}

/// Check whether the story is paused right now (wall clock). Whatever the
/// clock returned, the state is left unchanged, and a state with no deadline
/// is never reported as waiting.
pub fn is_waiting(state: &GameState) -> (r: bool)
    ensures
        state.waiting_until is None ==> !r,
{
    let now = now_utc();
    is_waiting_at(state, now)
}

/// Seconds left until `until` at time `now`; non-positive once the deadline
/// has passed. Saturates at the ends of the `i64` range.
pub open spec fn spec_remaining(until: int, now: int) -> int {
    if until - now > i64::MAX as int {
        i64::MAX as int
    } else if until - now < i64::MIN as int {
        i64::MIN as int
    } else {
        until - now
    }
}

/// Seconds remaining until the deadline; non-positive when it has passed.
pub fn remaining_at(until: i64, now: i64) -> (r: i64)
    ensures
        r as int == spec_remaining(until as int, now as int),
        now >= until ==> r <= 0,
{
    let diff: i128 = until as i128 - now as i128;
    if diff > i64::MAX as i128 {
        i64::MAX
    } else if diff < i64::MIN as i128 {
        i64::MIN
    } else {
        diff as i64
    }
}

/// The countdown text for a deadline `until` seen at `now`: once due, a
/// "any moment now" phrase; with a full hour left, "<h>h <min>min"; with a
/// full minute left, "<min> minute(s)"; otherwise a "less than a minute"
/// phrase.
pub open spec fn spec_remaining_str(until: int, now: int, lang: Language) -> Seq<char> {
    let diff = spec_remaining(until, now);
    let hours = diff / 3600;
    let minutes = (diff / 60) % 60;
    if now >= until {
        match lang {
            Language::En => "any moment now"@,
            Language::Fr => "d'un moment \u{e0} l'autre"@,
        }
    } else if hours > 0 {
        spec_decimal(hours as u64) + "h "@ + spec_decimal(minutes as u64) + "min"@
    } else if minutes > 0 {
        if minutes > 1 {
            spec_decimal(minutes as u64) + " minutes"@
        } else {
            spec_decimal(minutes as u64) + " minute"@
        }
    } else {
        match lang {
            Language::En => "less than a minute"@,
            Language::Fr => "moins d'une minute"@,
        }
    }
}

/// Render the remaining wait time as human-readable text.
pub fn remaining_time_str(until: i64, now: i64, lang: Language) -> (r: String)
    ensures
        r@ == spec_remaining_str(until as int, now as int, lang),
{
    proof {
        reveal_strlit("any moment now");
        reveal_strlit("d'un moment \u{e0} l'autre");
        reveal_strlit("h ");
        reveal_strlit("min");
        reveal_strlit(" minutes");
        reveal_strlit(" minute");
        reveal_strlit("less than a minute");
        reveal_strlit("moins d'une minute");
        reveal_strlit("");
    }
    if now >= until {
        return match lang {
            Language::En => "any moment now".to_owned(),
            Language::Fr => "d'un moment \u{e0} l'autre".to_owned(),
        };
    }
    let diff = remaining_at(until, now);
    let hours: u64 = (diff / 3600) as u64;
    let minutes: u64 = ((diff / 60) % 60) as u64;
    if hours > 0 {
        let mut out = "".to_owned();
        push_decimal(&mut out, hours);
        out.append("h ");
        push_decimal(&mut out, minutes);
        out.append("min");
        out
    } else if minutes > 0 {
        let mut out = "".to_owned();
        push_decimal(&mut out, minutes);
        if minutes > 1 {
            out.append(" minutes");
        } else {
            out.append(" minute");
        }
        out
    } else {
        match lang {
            Language::En => "less than a minute".to_owned(),
            Language::Fr => "moins d'une minute".to_owned(),
        }
    }
}

/// Clear a deadline once it has passed (or on an explicit resume).
pub fn clear_wait(state: &mut GameState)
    ensures
        final(state).waiting_until is None,
        final(state).current_node == old(state).current_node,
        final(state).flags == old(state).flags,
        final(state).language == old(state).language,
        final(state).message_log == old(state).message_log,
        final(state).stats == old(state).stats,
        final(state).ending == old(state).ending,
        final(state).day == old(state).day,
{
    state.waiting_until = None;
}

} // verus!
