//! Formatting hooks for diagnostics.
//!
//! The library itself emits nothing; applications route these hooks to
//! their own logging transport, or leave them as the no-ops they are.

use vstd::prelude::*;

verus! {

/// A writer that discards everything written to it.
pub struct Sink;

/// Set up the logging infrastructure; nothing to do at this level.
pub fn init() {
}

/// Print a diagnostic line; discarded at this level.
pub fn println(_s: &str) {
}

} // verus!
