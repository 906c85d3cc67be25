//! The launch arbitrator: the decision taken every time the OS hands this
//! tool an intercepted or direct launch.
//!
//! An intercepted launch (the first argument names the forced browser's
//! canonical path) either deflects the first acceptable URL among the
//! remaining arguments to the default browser, or passes the call through
//! to the real browser binary via the proxy path. A direct launch deflects
//! its URI argument or does nothing. When the default browser *is* the
//! forced browser the arbitrator always passes through: deflecting would
//! re-enter the interception and risk looping forever.

use crate::browser::Browser;
use crate::text::{str_eq, to_owned_string};
use crate::uri::{deflected, parse_ms_edge_url};
use vstd::prelude::*;

verus! {

/// Canonical installed path of the forced browser; the path the
/// interception rule watches.
pub const MSEDGE_PATH: &'static str = "C:\\Program Files (x86)\\Microsoft\\Edge\\Application\\msedge.exe";

/// Path to the same binary through the proxy link, which the interception
/// rule does not match.
pub const MSEDGE_PROXY_PATH: &'static str =
    "C:\\Program Files (x86)\\Microsoft\\EdgeProxy\\Application\\msedge.exe";

/// Directory that the proxy link aliases onto the real browser directory.
pub const MSEDGE_PROXY_DIR: &'static str = "C:\\Program Files (x86)\\Microsoft\\EdgeProxy";

/// Directory holding the real browser binary, the proxy link's target.
pub const MSEDGE_DIR: &'static str = "C:\\Program Files (x86)\\Microsoft\\Edge";

/// The arbitrator's verdict on one launch.
pub enum Decision {
    /// Re-launch the real browser through the proxy path, arguments
    /// untouched.
    PassThrough,
    /// Hand this URL to the system's default handler.
    Deflect(String),
    /// Do nothing and exit.
    Terminal,
}

/// Mathematical form of a `Decision`.
pub enum DecisionModel {
    PassThrough,
    Deflect(Seq<char>),
    Terminal,
}

impl View for Decision {
    type V = DecisionModel;

    open spec fn view(&self) -> DecisionModel {
        match self {
            Decision::PassThrough => DecisionModel::PassThrough,
            Decision::Deflect(u) => DecisionModel::Deflect(u@),
            Decision::Terminal => DecisionModel::Terminal,
        }
    }
}

/// Whether an argument vector is an intercepted launch of the forced
/// browser: the OS appends the original command line after our own
/// executable path, so the second entry is the forced browser's canonical
/// path.
pub open spec fn spec_is_interception(args: Seq<Seq<char>>) -> bool {
    args.len() >= 2 && args[1] == MSEDGE_PATH@
}

/// The first argument the deflector accepts, scanned left to right.
pub open spec fn first_deflectable(args: Seq<Seq<char>>) -> Option<Seq<char>>
    decreases args.len(),
{
    if args.len() == 0 {
        None
    } else if deflected(args[0]) is Some {
        deflected(args[0])
    } else {
        first_deflectable(args.skip(1))
    }
}

/// The decision for a launch with arguments `args` while the user's
/// default browser is `b`.
pub open spec fn spec_arbitrate(args: Seq<Seq<char>>, b: Browser) -> DecisionModel {
    if spec_is_interception(args) {
        if b == Browser::Edge {
            DecisionModel::PassThrough
        } else {
            match first_deflectable(args.skip(2)) {
                Some(u) => DecisionModel::Deflect(u),
                None => DecisionModel::PassThrough,
            }
        }
    } else {
        if args.len() >= 2 && deflected(args[1]) is Some {
            DecisionModel::Deflect(deflected(args[1]).unwrap())
        } else {
            DecisionModel::Terminal
        }
    }
}

/// The loop-breaking rule: when the resolved default browser is the forced
/// browser itself, an intercepted launch is always passed through — for
/// every argument list, even one carrying a deflectable URL.
pub proof fn lemma_loop_breaking(args: Seq<Seq<char>>)
    requires
        spec_is_interception(args),
    ensures
        spec_arbitrate(args, Browser::Edge) == DecisionModel::PassThrough,
{
}

/// Whether this launch is an interception of the forced browser.
pub fn is_interception(args: &Vec<String>) -> (r: bool)
    ensures
        r == spec_is_interception(args.deep_view()),
{
    if args.len() >= 2 {
        let r = str_eq(args[1].as_str(), MSEDGE_PATH);
        proof {
            assert(args.deep_view()[1] == args@[1]@);
        }
        r
    } else {
        false
    }
}

/// Decides what to do with one launch, given the arguments the OS passed
/// and the current default browser.
#[verifier::loop_isolation(false)]
pub fn arbitrate(args: &Vec<String>, default_browser: Browser) -> (d: Decision)
    ensures
        d@ == spec_arbitrate(args.deep_view(), default_browser),
        spec_is_interception(args.deep_view()) && default_browser == Browser::Edge ==> d
            is PassThrough,
{
    let ghost adv = args.deep_view();
    if is_interception(args) {
        if default_browser == Browser::Edge {
            return Decision::PassThrough;
        }
        let n = args.len();
        let mut i: usize = 2;
        proof {
            assert(adv.skip(2).skip(0) =~= adv.skip(2));
        }
        while i < n
            invariant
                2 <= i <= n,
                first_deflectable(adv.skip(2)) == first_deflectable(adv.skip(i as int)),
            decreases n - i,
        {
            proof {
                assert(adv.skip(i as int)[0] == adv[i as int]);
                assert(adv[i as int] == args@[i as int]@);
            }
            match parse_ms_edge_url(args[i].as_str()) {
                Some(u) => {
                    return Decision::Deflect(u);
                },
                None => {},
            }
            proof {
                assert(adv.skip(i as int).skip(1) =~= adv.skip(i as int + 1));
            }
            i = i + 1;
        }
        proof {
            assert(adv.skip(n as int) =~= Seq::<Seq<char>>::empty());
        }
        Decision::PassThrough
    } else {
        if args.len() >= 2 {
            proof {
                assert(adv[1] == args@[1]@);
            }
            match parse_ms_edge_url(args[1].as_str()) {
                Some(u) => Decision::Deflect(u),
                None => Decision::Terminal,
            }
        } else {
            Decision::Terminal
        }
    }
}

/// The command a pass-through issues: the proxy path — never the
/// intercepted name — with the original arguments forwarded unchanged.
#[verifier::loop_isolation(false)]
pub fn passthrough_command(args: &Vec<String>) -> (cmd: (String, Vec<String>))
    requires
        args@.len() >= 2,
    ensures
        cmd.0@ == MSEDGE_PROXY_PATH@,
        cmd.1.deep_view() == args.deep_view().skip(2),
{
    let ghost adv = args.deep_view();
    let program = to_owned_string(MSEDGE_PROXY_PATH);
    let mut forwarded: Vec<String> = Vec::new();
    let n = args.len();
    let mut i: usize = 2;
    while i < n
        invariant
            2 <= i <= n,
            forwarded.deep_view() =~= adv.subrange(2, i as int),
        decreases n - i,
    {
        forwarded.push(args[i].clone());
        proof {
            assert(adv[i as int] == args@[i as int]@);
            assert(forwarded.deep_view() =~= adv.subrange(2, i as int + 1));
        }
        i = i + 1;
    }
    proof {
        assert(adv.subrange(2, n as int) =~= adv.skip(2));
    }
    (program, forwarded)
}

} // verus!
