//! Browser profiles that a session can take on.

pub mod chrome_120;
pub mod firefox_121;

use vstd::prelude::*;

verus! {

/// What a browser tells of itself.
#[derive(Debug, Clone, Copy)]
pub struct BrowserProfile {
    pub id: &'static str,
    pub user_agent: &'static str,
    pub platform: &'static str,
}

} // verus!
