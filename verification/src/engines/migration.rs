//! The portable snapshot of session state that crosses an engine handoff:
//! cookies and the local storage of the current origin.

use vstd::prelude::*;

use super::traits::EngineKind;

verus! {

/// A snapshot of browser state that can be moved between engines.
#[derive(Debug, Clone)]
pub struct MigrationEnvelope {
    /// Engine that produced this snapshot.
    pub source_engine: EngineKind,
    /// Unix time of the capture, in milliseconds.
    pub captured_at_ms: u64,
    /// URL the engine was on when the snapshot was taken.
    pub current_url: Option<String>,
    /// Cookies visible to the session at capture time.
    pub cookies: Vec<MigrationCookie>,
    /// Local storage of the current origin.
    pub local_storage: Vec<LocalStorageEntry>,
}

/// A cookie, in the shape of a WebDriver cookie object. An engine leaves out
/// the fields it does not know.
#[derive(Debug, Clone)]
pub struct MigrationCookie {
    pub name: String,
    pub value: String,
    pub domain: Option<String>,
    pub path: Option<String>,
    pub secure: Option<bool>,
    pub http_only: Option<bool>,
    /// Expiry as Unix time in seconds.
    pub expiry: Option<u64>,
    pub same_site: Option<String>,
}

/// One key of local storage with its value.
#[derive(Debug, Clone)]
pub struct LocalStorageEntry {
    pub key: String,
    pub value: String,
}

/// What a cookie holds, as mathematical values.
pub struct CookieFields {
    pub name: Seq<char>,
    pub value: Seq<char>,
    pub domain: Option<Seq<char>>,
    pub path: Option<Seq<char>>,
    pub secure: Option<bool>,
    pub http_only: Option<bool>,
    pub expiry: Option<u64>,
    pub same_site: Option<Seq<char>>,
}

/// What an entry of local storage holds, as mathematical values.
pub struct StorageFields {
    pub key: Seq<char>,
    pub value: Seq<char>,
}

/// The text of a string, if there is one.
pub open spec fn text_of(given: Option<String>) -> Option<Seq<char>> {
    match given {
        Some(text) => Some(text@),
        None => None,
    }
}

impl View for MigrationCookie {
    type V = CookieFields;

    open spec fn view(&self) -> CookieFields {
        CookieFields {
            name: self.name@,
            value: self.value@,
            domain: text_of(self.domain),
            path: text_of(self.path),
            secure: self.secure,
            http_only: self.http_only,
            expiry: self.expiry,
            same_site: text_of(self.same_site),
        }
    }
}

impl View for LocalStorageEntry {
    type V = StorageFields;

    open spec fn view(&self) -> StorageFields {
        StorageFields { key: self.key@, value: self.value@ }
    }
}

impl MigrationEnvelope {
    /// The number of entries that the envelope carries, held at the maximum
    /// of `usize`.
    pub open spec fn spec_entry_count(&self) -> usize {
        if self.cookies@.len() + self.local_storage@.len() <= usize::MAX {
            (self.cookies@.len() + self.local_storage@.len()) as usize
        } else {
            usize::MAX
        }
    }

    /// Whether the envelope carries nothing: no cookie and no entry of local
    /// storage.
    pub open spec fn spec_is_empty(&self) -> bool {
        self.cookies@.len() == 0 && self.local_storage@.len() == 0
    }

    /// Whether the envelope carries nothing.
    #[verifier::when_used_as_spec(spec_is_empty)]
    pub fn is_empty(&self) -> (r: bool)
        ensures
            r == self.spec_is_empty(),
    {
        self.cookies.len() == 0 && self.local_storage.len() == 0
    }

    /// The number of entries that the envelope carries.
    #[verifier::when_used_as_spec(spec_entry_count)]
    pub fn entry_count(&self) -> (r: usize)
        ensures
            r == self.spec_entry_count(),
    {
        self.cookies.len().saturating_add(self.local_storage.len())
    }
}

/// What a capture of session state amounts to. The cookies and the local
/// storage are captured apart, and either capture may fail; the part that
/// failed is left empty. The capture fails as a whole, and gives nothing,
/// only when both parts failed.
pub fn envelope_from_capture(
    source_engine: EngineKind,
    captured_at_ms: u64,
    current_url: Option<String>,
    cookies: Option<Vec<MigrationCookie>>,
    local_storage: Option<Vec<LocalStorageEntry>>,
) -> (r: Option<MigrationEnvelope>)
    ensures
        r is None <==> cookies is None && local_storage is None,
        r matches Some(envelope) ==> {
            &&& envelope.source_engine == source_engine
            &&& envelope.captured_at_ms == captured_at_ms
            &&& envelope.current_url == current_url
            &&& envelope.cookies@ == match cookies {
                Some(captured) => captured@,
                None => Seq::empty(),
            }
            &&& envelope.local_storage@ == match local_storage {
                Some(captured) => captured@,
                None => Seq::empty(),
            }
        },
{
    if cookies.is_none() && local_storage.is_none() {
        return None;
    }
    let cookies = match cookies {
        Some(captured) => captured,
        None => Vec::new(),
    };
    let local_storage = match local_storage {
        Some(captured) => captured,
        None => Vec::new(),
    };
    Some(MigrationEnvelope { source_engine, captured_at_ms, current_url, cookies, local_storage })
}

/// Whether an import of session state has failed as a whole: it has only
/// when entries were attempted and every one of them failed.
pub fn import_failed(
    cookie_count: usize,
    storage_count: usize,
    cookie_failures: u32,
    storage_failures: u32,
) -> (r: bool)
    ensures
        r == (cookie_count + storage_count > 0 && cookie_failures + storage_failures
            == cookie_count + storage_count),
{
    let attempted: u128 = cookie_count as u128 + storage_count as u128;
    let failed: u128 = cookie_failures as u128 + storage_failures as u128;
    attempted > 0 && failed == attempted
}

} // verus!
