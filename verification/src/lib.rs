//! Keeps a client connected through a captive-portal wireless network.
//!
//! The library holds the decision logic of the daemon: classifying the
//! connectivity probe, locating the portal's login form in fetched pages,
//! the retrying login attempt, and the cancellable polling loop. All of it
//! is pure and verified; the surrounding binary performs the HTTP requests,
//! drives the browser, and sleeps on the control channel, feeding each
//! outcome back into these machines.

pub mod config;
pub mod login;
pub mod polling;
pub mod portal;
pub mod probe;
pub mod task;

pub use config::Config;
pub use login::{
    attempt_next, attempt_run, attempt_wf, lemma_navigation_exhausts,
    lemma_navigation_short_circuit, nav_failures, spec_attempt_action, AttemptAction, AttemptEvent,
    AttemptEventModel, AttemptModel, AttemptOutcome, AttemptState, LoginAttempt, LoginError,
    LoginTask, NAVIGATION_TRIES,
};
pub use polling::{
    attempt_completions, attempt_starts, e_is_attempt_done, is_wait_state, lemma_attempt_entry,
    lemma_attempt_exit, lemma_attempts_serialized, lemma_quit_stops, lemma_stopped_terminal,
    loop_next, loop_run, spec_loop_action, LoopAction, LoopEvent, LoopState, PollingLoop,
    BACKOFF_WAIT_SECS, IDLE_WAIT_SECS, SETTLE_WAIT_SECS,
};
pub use portal::{
    contains_bytes, discover_login_url, extract_login_url, find_action_url,
    lemma_discovery_first_match, lemma_discovery_not_found, PortalMatcher, DISCOVERY_FETCHES,
};
pub use probe::{classify_probe, is_online, ConnectivityStatus, ProbeResponse};
pub use task::AppEvent;
