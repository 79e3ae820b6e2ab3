//! The polling loop: the state machine that alternates between assumed-online
//! idling and offline recovery.
//!
//! The caller owns the clock, the network, and the control channel: it asks
//! the machine for the next action — probe, run one login attempt, or block
//! on the control channel for a while — and feeds the outcome back in. Every
//! wait doubles as the cancellation point: a `Quit` command, or a closed
//! control channel, stops the loop at the next step.

use vstd::prelude::*;

use crate::login::{AttemptOutcome, LoginError};
use crate::probe::{is_online, spec_online, ProbeResponse};
use crate::task::AppEvent;

verus! {

/// Seconds the loop idles between probes while it believes it is online.
pub const IDLE_WAIT_SECS: u64 = 60;

/// Seconds the loop gives the network to settle right after an attempt.
pub const SETTLE_WAIT_SECS: u64 = 1;

/// Seconds the loop backs off before the next attempt, to avoid
/// portal-side rate limiting.
pub const BACKOFF_WAIT_SECS: u64 = 5;

/// Where the loop stands. `Idle` is the online resting state; the states
/// from `Attempting` through `BackingOff` make up the offline recovery
/// cycle; `Stopped` is terminal.
#[derive(Clone, Copy, Debug, PartialEq, Eq, Structural)]
pub enum LoopState {
    /// Probing connectivity; offline means recovery begins at once.
    Probing,
    /// Assumed online; waiting out the idle tick.
    Idle,
    /// One login attempt is in flight.
    Attempting,
    /// The short wait after an attempt, giving the network time to come up.
    Settling,
    /// Probing right after an attempt; offline means back off and retry.
    Confirming,
    /// The back-off wait before the next attempt.
    BackingOff,
    /// The loop is over; its caller regains control.
    Stopped,
}

/// What the caller observed while carrying out the current action.
#[derive(Clone, Copy, Debug)]
pub enum LoopEvent {
    /// The connectivity probe came back with this response.
    ProbeResult(ProbeResponse),
    /// The login attempt in flight finished with this result. Errors are
    /// reported here only to be logged: the loop keeps cycling either way.
    AttemptDone(Result<AttemptOutcome, LoginError>),
    /// The wait ran its full course with no command arriving.
    TimedOut,
    /// A command arrived on the control channel during the wait.
    Control(AppEvent),
    /// The control channel disconnected: treated as an implicit `Quit`.
    ChannelClosed,
}

/// What the caller must do next.
#[derive(Clone, Copy, Debug, PartialEq, Eq, Structural)]
pub enum LoopAction {
    /// Probe connectivity and hand back the response.
    Probe,
    /// Run one whole login attempt and hand back its result.
    RunAttempt,
    /// Block on the control channel for at most this many seconds.
    Wait(u64),
    /// The loop is over.
    Finish,
}

/// The loop's whole decision logic: what one observed outcome does to the
/// loop's state. An event that the current state is not waiting for changes
/// nothing; `Stopped` is terminal.
pub open spec fn loop_next(s: LoopState, e: LoopEvent) -> LoopState {
    match (s, e) {
        (LoopState::Probing, LoopEvent::ProbeResult(r)) => {
            if spec_online(r) {
                LoopState::Idle
            } else {
                LoopState::Attempting
            }
        },
        (LoopState::Idle, LoopEvent::TimedOut) => LoopState::Probing,
        (LoopState::Idle, LoopEvent::Control(AppEvent::Quit)) => LoopState::Stopped,
        (LoopState::Idle, LoopEvent::ChannelClosed) => LoopState::Stopped,
        (LoopState::Attempting, LoopEvent::AttemptDone(_)) => LoopState::Settling,
        (LoopState::Settling, LoopEvent::TimedOut) => LoopState::Confirming,
        (LoopState::Settling, LoopEvent::Control(AppEvent::Quit)) => LoopState::Stopped,
        (LoopState::Settling, LoopEvent::ChannelClosed) => LoopState::Stopped,
        (LoopState::Confirming, LoopEvent::ProbeResult(r)) => {
            if spec_online(r) {
                LoopState::Idle
            } else {
                LoopState::BackingOff
            }
        },
        (LoopState::BackingOff, LoopEvent::TimedOut) => LoopState::Attempting,
        (LoopState::BackingOff, LoopEvent::Control(AppEvent::Quit)) => LoopState::Stopped,
        (LoopState::BackingOff, LoopEvent::ChannelClosed) => LoopState::Stopped,
        (s2, _) => s2,
    }
}

/// Which action the caller must perform in each state.
pub open spec fn spec_loop_action(s: LoopState) -> LoopAction {
    match s {
        LoopState::Probing => LoopAction::Probe,
        LoopState::Idle => LoopAction::Wait(IDLE_WAIT_SECS),
        LoopState::Attempting => LoopAction::RunAttempt,
        LoopState::Settling => LoopAction::Wait(SETTLE_WAIT_SECS),
        LoopState::Confirming => LoopAction::Probe,
        LoopState::BackingOff => LoopAction::Wait(BACKOFF_WAIT_SECS),
        LoopState::Stopped => LoopAction::Finish,
    }
}

/// The states that block on the control channel; every one of them is a
/// cancellation point.
pub open spec fn is_wait_state(s: LoopState) -> bool {
    s is Idle || s is Settling || s is BackingOff
}

/// The polling loop in progress. The caller alternates `action`, the
/// outside work, and `step` until `is_stopped` holds.
pub struct PollingLoop {
    pub state: LoopState,
}

impl PollingLoop {
    /// A fresh loop: connectivity is probed once before anything else.
    pub fn new() -> (l: Self)
        ensures
            l.state == LoopState::Probing,
    {
        PollingLoop { state: LoopState::Probing }
    }

    /// What the caller must do next.
    pub fn action(&self) -> (a: LoopAction)
        ensures
            a == spec_loop_action(self.state),
    {
        match self.state {
            LoopState::Probing => LoopAction::Probe,
            LoopState::Idle => LoopAction::Wait(IDLE_WAIT_SECS),
            LoopState::Attempting => LoopAction::RunAttempt,
            LoopState::Settling => LoopAction::Wait(SETTLE_WAIT_SECS),
            LoopState::Confirming => LoopAction::Probe,
            LoopState::BackingOff => LoopAction::Wait(BACKOFF_WAIT_SECS),
            LoopState::Stopped => LoopAction::Finish,
        }
    }

    /// Feeds the outcome of the current action back in and advances the
    /// loop exactly as `loop_next` says.
    pub fn step(&mut self, e: LoopEvent)
        ensures
            final(self).state == loop_next(old(self).state, e),
    {
        let next = match (self.state, e) {
            (LoopState::Probing, LoopEvent::ProbeResult(r)) => {
                if is_online(&r) {
                    LoopState::Idle
                } else {
                    LoopState::Attempting
                }
            },
            (LoopState::Idle, LoopEvent::TimedOut) => LoopState::Probing,
            (LoopState::Idle, LoopEvent::Control(AppEvent::Quit)) => LoopState::Stopped,
            (LoopState::Idle, LoopEvent::ChannelClosed) => LoopState::Stopped,
            (LoopState::Attempting, LoopEvent::AttemptDone(_)) => LoopState::Settling,
            (LoopState::Settling, LoopEvent::TimedOut) => LoopState::Confirming,
            (LoopState::Settling, LoopEvent::Control(AppEvent::Quit)) => LoopState::Stopped,
            (LoopState::Settling, LoopEvent::ChannelClosed) => LoopState::Stopped,
            (LoopState::Confirming, LoopEvent::ProbeResult(r)) => {
                if is_online(&r) {
                    LoopState::Idle
                } else {
                    LoopState::BackingOff
                }
            },
            (LoopState::BackingOff, LoopEvent::TimedOut) => LoopState::Attempting,
            (LoopState::BackingOff, LoopEvent::Control(AppEvent::Quit)) => LoopState::Stopped,
            (LoopState::BackingOff, LoopEvent::ChannelClosed) => LoopState::Stopped,
            (s2, _) => s2,
        };
        self.state = next;
    }

    /// Whether the loop has reached its terminal state.
    pub fn is_stopped(&self) -> (b: bool)
        ensures
            b == (self.state is Stopped),
    {
        match self.state {
            LoopState::Stopped => true,
            _ => false,
        }
    }
}

/// The state the loop reaches after a whole sequence of observed outcomes.
pub open spec fn loop_run(s: LoopState, evs: Seq<LoopEvent>) -> LoopState
    decreases evs.len(),
{
    if evs.len() == 0 {
        s
    } else {
        loop_run(loop_next(s, evs[0]), evs.drop_first())
    }
}

/// A `Quit` command — or a closed control channel, its implicit form —
/// delivered during any wait stops the loop at once: cancellation is
/// observed at every wait boundary, within one wait-timeout unit.
pub proof fn lemma_quit_stops(s: LoopState)
    ensures
        is_wait_state(s) ==> loop_next(s, LoopEvent::Control(AppEvent::Quit)) == LoopState::Stopped,
        is_wait_state(s) ==> loop_next(s, LoopEvent::ChannelClosed) == LoopState::Stopped,
{
}

/// `Stopped` is terminal: no later event moves the loop anywhere else.
pub proof fn lemma_stopped_terminal(evs: Seq<LoopEvent>)
    ensures
        loop_run(LoopState::Stopped, evs) == LoopState::Stopped,
    decreases evs.len(),
{
    if evs.len() > 0 {
        lemma_stopped_terminal(evs.drop_first());
    }
}

/// While an attempt is in flight the loop stays put until that attempt's
/// own completion is reported; nothing else moves it.
pub proof fn lemma_attempt_exit(e: LoopEvent)
    ensures
        loop_next(LoopState::Attempting, e) == if e matches LoopEvent::AttemptDone(_) {
            LoopState::Settling
        } else {
            LoopState::Attempting
        },
{
}

/// A new attempt begins only from a state with no attempt in flight: on an
/// offline probe result, or when the back-off wait runs out.
pub proof fn lemma_attempt_entry(s: LoopState, e: LoopEvent)
    ensures
        (loop_next(s, e) is Attempting && !(s is Attempting)) ==> {
            ||| (s is Probing && (e matches LoopEvent::ProbeResult(r) && !spec_online(r)))
            ||| (s is BackingOff && e is TimedOut)
        },
{
}

/// How many attempts a run of the loop begins: the steps that move the loop
/// into `Attempting` from outside it.
pub open spec fn attempt_starts(s: LoopState, evs: Seq<LoopEvent>) -> nat
    decreases evs.len(),
{
    if evs.len() == 0 {
        0
    } else {
        let s2 = loop_next(s, evs[0]);
        (if s2 is Attempting && !(s is Attempting) {
            1nat
        } else {
            0nat
        }) + attempt_starts(s2, evs.drop_first())
    }
}

/// How many attempt completions a run of the loop consumes: the
/// `AttemptDone` events delivered while an attempt is in flight.
pub open spec fn attempt_completions(s: LoopState, evs: Seq<LoopEvent>) -> nat
    decreases evs.len(),
{
    if evs.len() == 0 {
        0
    } else {
        let s2 = loop_next(s, evs[0]);
        (if s is Attempting && e_is_attempt_done(evs[0]) {
            1nat
        } else {
            0nat
        }) + attempt_completions(s2, evs.drop_first())
    }
}

pub open spec fn e_is_attempt_done(e: LoopEvent) -> bool {
    e matches LoopEvent::AttemptDone(_)
}

/// Attempts are strictly serialized: over any run of the loop, the number
/// of attempts begun never exceeds the number of completions consumed plus
/// the single attempt that may still be in flight — a second attempt cannot
/// begin before the first one's completion has been fed back.
pub proof fn lemma_attempts_serialized(s: LoopState, evs: Seq<LoopEvent>)
    ensures
        attempt_starts(s, evs) + (if s is Attempting {
            1nat
        } else {
            0nat
        }) <= attempt_completions(s, evs) + 1,
    decreases evs.len(),
{
    if evs.len() > 0 {
        lemma_attempts_serialized(loop_next(s, evs[0]), evs.drop_first());
    }
}

} // verus!
