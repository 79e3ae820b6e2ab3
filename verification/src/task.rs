//! The control-channel contract between a running task and its supervisor.

use vstd::prelude::*;

verus! {

/// The only inbound command a task understands. It may arrive at any wait
/// point; the absence of any message means "keep running".
#[derive(Clone, Copy, Debug, PartialEq, Eq, Structural)]
pub enum AppEvent {
    Quit,
}

} // verus!
