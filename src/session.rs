//! One playback session: the run loop that a fresh start spawns, from the
//! moment the engine is told to play until a lifecycle signal ends it.
//!
//! Each fresh start gets a thread of its own, which blocks in the engine's
//! run loop for the whole session; this one-thread-per-session policy is
//! intentional, and at most one session is live at a time because a fresh
//! start replaces the driver.
//!
//! Teardown is not serialised. The dispatcher updates the controller at
//! once, while the thread of a session that a fresh start abandoned may
//! still be returning from the run loop. A signal that the engine delivers
//! late for the abandoned stream reaches the new session's driver: it can
//! end that session before its thread has started it, and leave the
//! controller stopped. This race is accepted; the next `play` then makes
//! a fresh start.
use vstd::prelude::*;

use crate::controller::Signal;

verus! {

/// Starting, then Running, then Terminated once a signal has arrived.
#[derive(Clone, Copy, Debug, PartialEq, Eq, Structural)]
pub enum SessionPhase {
    Starting,
    Running,
    Terminated,
}

/// What the session's owner must do upon a signal.
#[derive(Clone, Copy, Debug, PartialEq, Eq, Structural)]
pub struct Reaction {
    /// Tell the engine to stop.
    pub stop_engine: bool,
    /// Make the blocking run loop return, which ends the session's thread.
    pub quit_loop: bool,
    /// Record the engine's error as a diagnostic.
    pub report_error: bool,
}

/// The reaction to a signal in a given phase. Every signal stops the
/// engine, and every error is reported, whatever the phase. A live session
/// ends on either signal and its loop quits, on an error as on
/// end-of-stream, so that an error never leaves a thread blocked. Once the
/// session has ended its loop has already quit, so a later signal quits
/// nothing and the phase stays terminated.
pub open spec fn react(p: SessionPhase, s: Signal) -> (SessionPhase, Reaction) {
    if p == SessionPhase::Terminated {
        (p, Reaction { stop_engine: true, quit_loop: false, report_error: s == Signal::Error })
    } else {
        (
            SessionPhase::Terminated,
            Reaction { stop_engine: true, quit_loop: true, report_error: s == Signal::Error },
        )
    }
}

pub struct RunLoopDriver {
    phase: SessionPhase,
}

impl View for RunLoopDriver {
    type V = SessionPhase;

    closed spec fn view(&self) -> SessionPhase {
        self.phase
    }
}

impl RunLoopDriver {
    /// A session that has not yet told the engine to play.
    pub fn new() -> (r: Self)
        ensures
            r@ == SessionPhase::Starting,
    {
        RunLoopDriver { phase: SessionPhase::Starting }
    }

    pub fn phase(&self) -> (r: SessionPhase)
        ensures
            r == self@,
    {
        self.phase
    }

    pub fn is_terminated(&self) -> (r: bool)
        ensures
            r == (self@ == SessionPhase::Terminated),
    {
        self.phase == SessionPhase::Terminated
    }

    /// Moves a starting session to running; returns whether the caller
    /// must now tell the engine to play and block on the run loop. A
    /// session that is running or has ended is left as it is.
    pub fn start(&mut self) -> (r: bool)
        ensures
            r == (old(self)@ == SessionPhase::Starting),
            final(self)@ == (if r { SessionPhase::Running } else { old(self)@ }),
    {
        if self.phase == SessionPhase::Starting {
            self.phase = SessionPhase::Running;
            true
        } else {
            false
        }
    }

    /// Takes a lifecycle signal and says what to do about it.
    pub fn on_signal(&mut self, s: Signal) -> (r: Reaction)
        ensures
            (final(self)@, r) == react(old(self)@, s),
    {
        if self.phase == SessionPhase::Terminated {
            Reaction { stop_engine: true, quit_loop: false, report_error: s == Signal::Error }
        } else {
            self.phase = SessionPhase::Terminated;
            Reaction { stop_engine: true, quit_loop: true, report_error: s == Signal::Error }
        }
    }
}

/// Whichever signal ends a live session, the session terminates, the
/// engine is stopped and the loop is told to quit; only an error is
/// reported.
pub proof fn lemma_signal_ends_session(p: SessionPhase, s: Signal)
    requires
        p != SessionPhase::Terminated,
    ensures
        react(p, s).0 == SessionPhase::Terminated,
        react(p, s).1.stop_engine,
        react(p, s).1.quit_loop,
        react(p, s).1.report_error == (s == Signal::Error),
{
}

/// A signal after the session has ended still stops the engine, and an
/// error is still reported, but the loop, which has already quit, is not
/// told to quit again.
pub proof fn lemma_signal_after_end(s: Signal)
    ensures
        react(SessionPhase::Terminated, s).0 == SessionPhase::Terminated,
        react(SessionPhase::Terminated, s).1.stop_engine,
        !react(SessionPhase::Terminated, s).1.quit_loop,
        react(SessionPhase::Terminated, s).1.report_error == (s == Signal::Error),
{
}

/// Whatever signals arrive, one after the other, the loop of a session is
/// told to quit at most once: after a reaction that quits, no later one
/// does.
pub proof fn lemma_quit_at_most_once(p: SessionPhase, s: Signal, t: Signal)
    requires
        react(p, s).1.quit_loop,
    ensures
        !react(react(p, s).0, t).1.quit_loop,
{
}

} // verus!
