//! What is decided about a Servo session apart from the wire.

use vstd::prelude::*;

use crate::json::{
    bool_value, member, member_names, names_cover, new_object, no_members, object_members, parse_object,
    parsed_object, render_object, rendered_json, set_member, text_value, JsonTree,
};
use crate::text::{
    lemma_without_trailing, trim, trim_trailing_slashes, trimmed, without_trailing_slashes,
};

verus! {

/// Why an endpoint's address is refused.
#[derive(Debug, Clone, Copy, PartialEq, Eq, Structural)]
pub enum EndpointError {
    /// The address is empty or white space only.
    Empty,
}

impl EndpointError {
    /// The error in words.
    pub fn message(&self) -> (r: &'static str)
        ensures
            r@ == "SERVO_WEBDRIVER_URL is set but empty"@,
    {
        "SERVO_WEBDRIVER_URL is set but empty"
    }
}

/// The base address of an endpoint in the form in which paths are appended
/// to it: without white space around it and without slashes at its end.
pub open spec fn normalized(base_url: Seq<char>) -> Seq<char> {
    without_trailing_slashes(trimmed(base_url))
}

/// Brings the base address of an endpoint to its normal form. An address
/// that is empty once trimmed is refused. The normal form does not end in a
/// slash.
pub fn normalize_base_url(base_url: String) -> (r: Result<String, EndpointError>)
    ensures
        match r {
            Ok(url) => {
                &&& trimmed(base_url@).len() > 0
                &&& url@ == normalized(base_url@)
                &&& url@.len() > 0 ==> url@.last() != '/'
            },
            Err(error) => trimmed(base_url@).len() == 0 && error == EndpointError::Empty,
        },
{
    let stripped = trim(base_url.as_str());
    if stripped.is_empty() {
        return Err(EndpointError::Empty);
    }
    proof {
        lemma_without_trailing(stripped@, |c: char| c == '/');
    }
    Ok(trim_trailing_slashes(stripped).to_owned())
}

/// How long a session waits for its endpoint to answer, in milliseconds.
pub const READY_TIMEOUT_MS: u64 = 10_000;

/// The pause between two polls of an endpoint, in milliseconds.
pub const READY_POLL_INTERVAL_MS: u64 = 200;

/// How long a navigation waits for the page's title, in milliseconds.
pub const TITLE_READY_TIMEOUT_MS: u64 = 2_000;

/// What a navigation does after it has asked for the page's title.
#[derive(Debug, Clone, Copy, PartialEq, Eq, Structural)]
pub enum TitlePoll {
    /// The navigation is over: the metadata can be made.
    Ready,
    /// Ask again after the pause.
    Retry,
    /// The title did not come in time: the navigation has failed.
    GiveUp,
}

/// What a navigation does after it has asked for the page's title at the
/// time `now_ms`. `title` is the title, where the endpoint gave one. A title
/// that is not empty ends the navigation, and so does any title once the
/// deadline is reached; without a title the navigation fails at the
/// deadline; before the deadline it asks again.
pub fn title_poll(title: Option<&str>, now_ms: u64, deadline_ms: u64) -> (r: TitlePoll)
    ensures
        r == match title {
            Some(given) if given@.len() > 0 || now_ms >= deadline_ms => TitlePoll::Ready,
            _ => if now_ms >= deadline_ms {
                TitlePoll::GiveUp
            } else {
                TitlePoll::Retry
            },
        },
{
    let ready = match title {
        Some(given) => !given.is_empty() || now_ms >= deadline_ms,
        None => false,
    };
    if ready {
        TitlePoll::Ready
    } else if now_ms >= deadline_ms {
        TitlePoll::GiveUp
    } else {
        TitlePoll::Retry
    }
}

/// Where the engine's program is to be found.
#[derive(Debug, Clone, PartialEq, Eq)]
pub enum BinaryChoice {
    /// At the path that the environment names.
    Named(String),
    /// Nowhere: the environment names a path that is empty.
    EmptyName,
    /// On the search path, under the program's name.
    Search,
}

/// Where the engine's program is to be found, given what the environment
/// names as its path: at that path, trimmed, where one is named; on the
/// search path where none is. A name that is white space only is an error.
pub fn binary_choice(named: Option<&str>) -> (r: BinaryChoice)
    ensures
        match named {
            Some(path) => if trimmed(path@).len() == 0 {
                r is EmptyName
            } else {
                r matches BinaryChoice::Named(chosen) && chosen@ == trimmed(path@)
            },
            None => r is Search,
        },
{
    match named {
        Some(path) => {
            let path = trim(path);
            if path.is_empty() {
                BinaryChoice::EmptyName
            } else {
                BinaryChoice::Named(path.to_owned())
            }
        },
        None => BinaryChoice::Search,
    }
}

/// What a session does while it waits for its endpoint to answer.
#[derive(Debug, Clone, Copy, PartialEq, Eq, Structural)]
pub enum StartupStep {
    /// The engine's process has ended: the session cannot start.
    Exited,
    /// The endpoint did not answer in time: the session cannot start.
    TimedOut,
    /// Ask the endpoint for its status.
    Poll,
}

/// What a session does next while it waits for its endpoint, at the time
/// `now_ms`: it gives up when the engine's process has ended, and when the
/// deadline has passed; otherwise it asks the endpoint again.
pub fn startup_step(process_exited: bool, now_ms: u64, deadline_ms: u64) -> (r: StartupStep)
    ensures
        r == if process_exited {
            StartupStep::Exited
        } else if now_ms > deadline_ms {
            StartupStep::TimedOut
        } else {
            StartupStep::Poll
        },
{
    if process_exited {
        StartupStep::Exited
    } else if now_ms > deadline_ms {
        StartupStep::TimedOut
    } else {
        StartupStep::Poll
    }
}

/// Whether the answer to the request that ends a session shows that the
/// session is gone: a status of success, or the status 404 of a session
/// that is not there.
pub fn session_is_gone(status: u16) -> (r: bool)
    ensures
        r == (200 <= status < 300 || status == 404),
{
    (200 <= status && status < 300) || status == 404
}

/// The members that every navigate metadata of this engine has: success, the
/// engine's name, no migration and the page's title.
pub open spec fn base_members(title: Seq<char>) -> Map<Seq<char>, JsonTree> {
    no_members().insert("ok"@, JsonTree::Bool(true)).insert(
        "engine"@,
        JsonTree::Text("servo"@),
    ).insert("migrated"@, JsonTree::Bool(false)).insert("title"@, JsonTree::Text(title))
}

/// The members of navigate metadata: the base members, and over them the
/// members of what the probe returned, where that is a JSON object.
pub open spec fn navigate_members(title: Seq<char>, probe: Option<Seq<char>>) -> Map<
    Seq<char>,
    JsonTree,
> {
    match probe {
        Some(text) => match parsed_object(text) {
            Some(measured) => base_members(title).union_prefer_right(measured),
            None => base_members(title),
        },
        None => base_members(title),
    }
}

/// Whether `key` is among the first `count` names.
pub open spec fn named_within(names: Seq<String>, count: int, key: Seq<char>) -> bool {
    exists|i: int| 0 <= i < count && (#[trigger] names[i])@ == key
}

/// Copies every member of `from` into `into`, over the member that `into`
/// has under the same key.
pub fn merge_members(
    into: &mut serde_json::Map<String, serde_json::Value>,
    from: &serde_json::Map<String, serde_json::Value>,
)
    ensures
        object_members(*final(into)) == object_members(*old(into)).union_prefer_right(
            object_members(*from),
        ),
{
    let names = member_names(from);
    let ghost before = object_members(*into);
    let ghost source = object_members(*from);
    let mut i: usize = 0;
    while i < names.len()
        invariant
            i <= names@.len(),
            source == object_members(*from),
            names_cover(names@, source.dom()),
            object_members(*into) =~= before.union_prefer_right(
                source.restrict(Set::new(|key: Seq<char>| named_within(names@, i as int, key))),
            ),
        decreases names@.len() - i,
    {
        let name = names[i].as_str();
        match member(from, name) {
            Some(value) => {
                set_member(into, name, value.clone());
            },
            None => {},
        }
        i += 1;
    }
}

/// The metadata of a navigation that ended with the given title. `probe` is
/// what the page's probe returned, if it ran; its members are laid over the
/// base members where it is a JSON object, and it is passed over where it is
/// not. Nothing is returned where the metadata cannot be written.
pub fn navigate_meta(title: &str, probe: Option<&str>) -> (r: Option<String>)
    ensures
        match r {
            Some(text) => rendered_json(
                JsonTree::Object(navigate_members(title@, option_view(probe))),
            ) == Some(text@),
            None => rendered_json(
                JsonTree::Object(navigate_members(title@, option_view(probe))),
            ) is None,
        },
{
    let mut meta = new_object();
    set_member(&mut meta, "ok", bool_value(true));
    set_member(&mut meta, "engine", text_value("servo"));
    set_member(&mut meta, "migrated", bool_value(false));
    set_member(&mut meta, "title", text_value(title));
    match probe {
        Some(text) => match parse_object(text) {
            Some(measured) => {
                merge_members(&mut meta, &measured);
            },
            None => {},
        },
        None => {},
    }
    render_object(meta)
}

/// The text of a slice, if there is one.
pub open spec fn option_view(text: Option<&str>) -> Option<Seq<char>> {
    match text {
        Some(slice) => Some(slice@),
        None => None,
    }
}

} // verus!
