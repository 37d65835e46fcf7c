//! Core of a branching narrative interpreter: a story graph of nodes with
//! messages, choices, conditional branches, stat effects and real-time waits,
//! together with the state machine that walks it, a load-time graph validator,
//! and a persistence codec for the player's progress.

use vstd::prelude::*;

pub mod codec;
pub mod endings;
pub mod game;
pub mod i18n;
pub mod interp;
pub mod nodes;
pub mod story;
pub mod text;
pub mod validate;
pub mod wait;

verus! {

/// Cancellation token checked by the interpreter loop.
///
/// A signal handler at the process edge flips its own flag; the front end
/// copies that flag in here before each tick, so the core never reads
/// process-global state.
pub struct CancelToken {
    interrupted: bool,
}

impl CancelToken {
    /// A fresh token: not interrupted.
    pub fn new() -> (t: CancelToken)
        ensures
            !t.interrupted(),
    {
        CancelToken { interrupted: false }
    }

    /// Whether the session has been asked to stop.
    pub closed spec fn interrupted(&self) -> bool {
        self.interrupted
    }

    /// Mark the session as interrupted.
    pub fn set_interrupted(&mut self)
        ensures
            final(self).interrupted(),
    {
        self.interrupted = true;
    }

    /// Check whether the session has been asked to stop.
    pub fn is_interrupted(&self) -> (r: bool)
        ensures
            r == self.interrupted(),
    {
        self.interrupted
    }
}

} // verus!
