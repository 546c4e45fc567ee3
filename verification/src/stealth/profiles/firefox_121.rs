//! Firefox 121 on Linux.

use vstd::prelude::*;

use super::BrowserProfile;

verus! {

/// The profile of Firefox 121 on Linux.
pub fn profile() -> (r: BrowserProfile)
    ensures
        r.id@ == "firefox-121-linux"@,
        r.user_agent@ == "Mozilla/5.0 (X11; Linux x86_64; rv:121.0) Gecko/20100101 Firefox/121.0"@,
        r.platform@ == "Linux x86_64"@,
{
    BrowserProfile {
        id: "firefox-121-linux",
        user_agent: "Mozilla/5.0 (X11; Linux x86_64; rv:121.0) Gecko/20100101 Firefox/121.0",
        platform: "Linux x86_64",
    }
}

} // verus!
