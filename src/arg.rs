//! Run configuration.
use vstd::prelude::*;

verus! {

/// What one invocation of the runner was asked to do.
pub struct Args {
    /// Path to the tasks file.
    pub file: String,
    /// Report what would run without running it.
    pub dry_run: bool,
}

} // verus!
