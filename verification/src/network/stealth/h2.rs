//! HTTP/2 settings that a browser is known by.

use vstd::prelude::*;

verus! {

/// The HTTP/2 settings of a browser: their order and the window size.
#[derive(Debug, Clone)]
pub struct Http2SpoofProfile {
    pub settings_order: Vec<String>,
    pub window_size: u32,
}

} // verus!
