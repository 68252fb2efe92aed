//! Core logic of a desktop shell that hosts a bundled server process.
//!
//! The shell launches a child server process (bundled in production,
//! a local script in development), relays the child's output to the
//! host's logs, and runs a one-shot self-update flow.  Everything that
//! decides or computes lives here, verified; the host binary performs
//! the surrounding I/O (spawning, dialogs, the update channel) and
//! feeds plain values in and out.

pub mod launcher;
pub mod relay;
pub mod text;
pub mod updater;

use vstd::prelude::*;

verus! {

/// Seconds the host waits after startup before the update check begins.
pub const UPDATE_CHECK_DELAY_SECS: u64 = 3;

} // verus!
