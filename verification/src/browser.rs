//! Default-browser identification.
//!
//! The OS stores the user's chosen default handler for `http` as a program
//! identifier string; a small fixed set of identifiers maps to known
//! browsers and everything else maps to `Unknown`. Reading the stored
//! identifier is an OS concern; the mapping itself is decided here.

use crate::text::str_eq;
use vstd::prelude::*;

verus! {

/// The identity of a web browser, as far as this tool cares.
#[derive(PartialEq, Eq, Structural, Clone, Copy, Debug)]
pub enum Browser {
    InternetExplorer,
    Edge,
    Firefox,
    Chrome,
    Opera,
    Unknown,
}

/// The browser a default-handler program identifier stands for.
pub open spec fn browser_for_prog_id(prog_id: Seq<char>) -> Browser {
    if prog_id == "IE.HTTP"@ {
        Browser::InternetExplorer
    } else if prog_id == "FirefoxURL"@ {
        Browser::Firefox
    } else if prog_id == "ChromeHTML"@ {
        Browser::Chrome
    } else if prog_id == "OperaStable"@ {
        Browser::Opera
    } else if prog_id == "AppXq0fevzme2pys62n3e0fbqa7peapykr8v"@ {
        Browser::Edge
    } else {
        Browser::Unknown
    }
}

/// Maps the program identifier stored by the OS to a browser identity;
/// anything unrecognized is `Unknown`.
pub fn browser_from_prog_id(prog_id: &str) -> (b: Browser)
    ensures
        b == browser_for_prog_id(prog_id@),
{
    if str_eq(prog_id, "IE.HTTP") {
        Browser::InternetExplorer
    } else if str_eq(prog_id, "FirefoxURL") {
        Browser::Firefox
    } else if str_eq(prog_id, "ChromeHTML") {
        Browser::Chrome
    } else if str_eq(prog_id, "OperaStable") {
        Browser::Opera
    } else if str_eq(prog_id, "AppXq0fevzme2pys62n3e0fbqa7peapykr8v") {
        Browser::Edge
    } else {
        Browser::Unknown
    }
}

/// Resolves the default browser from the outcome of the OS read of the
/// stored program identifier. The resolution fails soft: any read error
/// yields `Unknown` rather than aborting arbitration.
pub fn resolve_prog_id(read: &Result<String, String>) -> (b: Browser)
    ensures
        match read {
            Ok(prog_id) => b == browser_for_prog_id(prog_id@),
            Err(_) => b == Browser::Unknown,
        },
{
    match read {
        Ok(prog_id) => browser_from_prog_id(prog_id.as_str()),
        Err(_) => Browser::Unknown,
    }
}

} // verus!
