//! The stored credentials, as read from the configuration file.

use vstd::prelude::*;

verus! {

/// The credential pair a task is constructed with. Supplied once, immutable
/// for the task's lifetime. The configuration file itself is read and parsed
/// by the surrounding binary; the library only ever sees this pair.
pub struct Config {
    pub username: String,
    pub password: String,
}

} // verus!
