//! Selection of the run mode from the raw argument vector.
//!
//! `-quiet` or `/quiet` anywhere on the installer's command line selects
//! the unattended install; `run-uninstall` on the uninstaller's command
//! line selects the second phase of the self-relocating uninstall.

use crate::text::str_eq;
use vstd::prelude::*;

verus! {

/// How the installer runs: straight through, or one step per tick of a
/// host-driven loop.
#[derive(PartialEq, Eq, Structural, Clone, Copy, Debug)]
pub enum InstallMode {
    Unattended,
    Attended,
}

/// Whether some argument asks for a quiet (unattended) install.
pub open spec fn spec_wants_quiet(args: Seq<Seq<char>>) -> bool {
    exists|i: int|
        0 <= i < args.len() && (#[trigger] args[i] == "-quiet"@ || args[i] == "/quiet"@)
}

/// Picks the install mode from the installer's argument vector.
#[verifier::loop_isolation(false)]
pub fn install_mode(args: &Vec<String>) -> (m: InstallMode)
    ensures
        m == InstallMode::Unattended <==> spec_wants_quiet(args.deep_view()),
{
    let ghost adv = args.deep_view();
    let n = args.len();
    let mut i: usize = 0;
    while i < n
        invariant
            0 <= i <= n,
            forall|j: int| 0 <= j < i ==> !(#[trigger] adv[j] == "-quiet"@ || adv[j] == "/quiet"@),
        decreases n - i,
    {
        proof {
            assert(adv[i as int] == args@[i as int]@);
        }
        if str_eq(args[i].as_str(), "-quiet") || str_eq(args[i].as_str(), "/quiet") {
            return InstallMode::Unattended;
        }
        i = i + 1;
    }
    InstallMode::Attended
}

/// Whether some argument is the second-phase uninstall marker.
pub open spec fn spec_is_uninstall_run(args: Seq<Seq<char>>) -> bool {
    exists|i: int| 0 <= i < args.len() && #[trigger] args[i] == "run-uninstall"@
}

/// Recognizes the relocated uninstaller's second phase.
#[verifier::loop_isolation(false)]
pub fn is_uninstall_run(args: &Vec<String>) -> (r: bool)
    ensures
        r == spec_is_uninstall_run(args.deep_view()),
{
    let ghost adv = args.deep_view();
    let n = args.len();
    let mut i: usize = 0;
    while i < n
        invariant
            0 <= i <= n,
            forall|j: int| 0 <= j < i ==> !(#[trigger] adv[j] == "run-uninstall"@),
        decreases n - i,
    {
        proof {
            assert(adv[i as int] == args@[i as int]@);
        }
        if str_eq(args[i].as_str(), "run-uninstall") {
            return true;
        }
        i = i + 1;
    }
    false
}

} // verus!
