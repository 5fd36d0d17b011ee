//! Single-instance guarding.
//!
//! At process start the shell claims a process-wide singleton lock.  The
//! claimant proceeds as primary; a later launch forwards its activation to
//! the primary and exits at once with status 0.  The primary, on a forwarded
//! activation, shows its main window — falling back to the first window it
//! has if none carries the canonical label, and doing nothing if it has no
//! window at all.

use crate::text::str_eq;
use vstd::prelude::*;

verus! {

/// The exit status of a secondary launch that forwarded its activation.
pub const SECONDARY_EXIT_STATUS: i32 = 0;

/// What a process is once the singleton lock is decided.
#[derive(PartialEq, Eq, Structural, Clone, Copy, Debug)]
pub enum LaunchRole {
    /// This process claimed the lock and runs the shell.
    Primary,
    /// Another process holds the lock; this one forwards and exits with
    /// status 0.
    Secondary,
}

/// Decides the launch role from the singleton-lock outcome.
pub fn launch_role(lock_claimed: bool) -> (r: LaunchRole)
    ensures
        lock_claimed ==> r == LaunchRole::Primary,
        !lock_claimed ==> r == LaunchRole::Secondary,
{
    if lock_claimed {
        LaunchRole::Primary
    } else {
        LaunchRole::Secondary
    }
}

/// Picks the window a forwarded activation shows, among the primary's window
/// labels: the main window when present, else the first window, else none.
pub fn activation_target(labels: &Vec<String>) -> (r: Option<usize>)
    ensures
        (exists|j: int| 0 <= j < labels@.len() && labels@[j]@ == "main"@) ==> r is Some
            && labels@[r.unwrap() as int]@ == "main"@,
        (!exists|j: int| 0 <= j < labels@.len() && labels@[j]@ == "main"@) && labels@.len() > 0
            ==> r == Some(0usize),
        labels@.len() == 0 ==> r is None,
        r is Some ==> r.unwrap() < labels@.len(),
{
    let mut i: usize = 0;
    while i < labels.len()
        invariant
            i <= labels@.len(),
            forall|j: int| 0 <= j < i ==> labels@[j]@ != "main"@,
        decreases labels@.len() - i,
    {
        if str_eq(labels[i].as_str(), "main") {
            return Some(i);
        }
        i += 1;
    }
    if labels.len() > 0 {
        Some(0)
    } else {
        None
    }
}

} // verus!
