//! The browser that a session claims to be.

use vstd::prelude::*;

verus! {

/// A browser's name with the headers that tell it.
#[derive(Debug, Clone)]
pub struct BrowserIdentity {
    pub name: String,
    pub user_agent: String,
    pub accept_language: String,
}

impl Default for BrowserIdentity {
    /// Chrome 120 on Windows, reading American English.
    fn default() -> (r: Self)
        ensures
            r.name@ == "chrome-120-windows"@,
            r.user_agent@
                == "Mozilla/5.0 (Windows NT 10.0; Win64; x64) AppleWebKit/537.36 Chrome/120.0.0.0 Safari/537.36"@,
            r.accept_language@ == "en-US,en;q=0.9"@,
    {
        BrowserIdentity {
            name: "chrome-120-windows".to_owned(),
            user_agent: "Mozilla/5.0 (Windows NT 10.0; Win64; x64) AppleWebKit/537.36 Chrome/120.0.0.0 Safari/537.36".to_owned(),
            accept_language: "en-US,en;q=0.9".to_owned(),
        }
    }
}

} // verus!
