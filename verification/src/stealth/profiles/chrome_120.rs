//! Chrome 120 on Windows.

use vstd::prelude::*;

use super::BrowserProfile;

verus! {

/// The profile of Chrome 120 on Windows.
pub fn profile() -> (r: BrowserProfile)
    ensures
        r.id@ == "chrome-120-windows"@,
        r.user_agent@
            == "Mozilla/5.0 (Windows NT 10.0; Win64; x64) AppleWebKit/537.36 Chrome/120.0.0.0 Safari/537.36"@,
        r.platform@ == "Win32"@,
{
    BrowserProfile {
        id: "chrome-120-windows",
        user_agent: "Mozilla/5.0 (Windows NT 10.0; Win64; x64) AppleWebKit/537.36 Chrome/120.0.0.0 Safari/537.36",
        platform: "Win32",
    }
}

} // verus!
