//! TLS fingerprints that a browser is known by.

use vstd::prelude::*;

verus! {

/// The JA3 and JA4 fingerprints of a browser's TLS handshake.
#[derive(Debug, Clone)]
pub struct TlsFingerprintProfile {
    pub ja3: String,
    pub ja4: String,
}

} // verus!
