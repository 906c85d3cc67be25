//! Deflects activations of the forced-browser protocol to the user's
//! actual default browser.
//!
//! The crate holds the decision logic of the tool: URI deflection, default
//! browser identification, launch arbitration, and the planning of the
//! install and uninstall sequences. The operating-system calls that carry
//! the plans out live outside the library.

pub mod arbitrate;
pub mod browser;
pub mod cli;
pub mod install;
pub mod rules;
pub mod sequencer;
pub mod text;
pub mod update;
pub mod uri;
pub mod wide;

use vstd::prelude::*;

verus! {

/// Loads common control classes before a dialog is shown.
///
/// The underlying call is not needed for plain dialogs, so this
/// always succeeds.
pub fn init_common_controls() -> (r: Result<(), String>)
    ensures
        r is Ok,
{
    Ok(())
}

} // verus!
