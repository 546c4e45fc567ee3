//! The shapes of WebDriver messages: how a response carries its value, its
//! error and its session, and how cookies and local storage are written.

use vstd::prelude::*;
use vstd::string::StringExecFns;

use crate::engines::migration::{
    text_of, CookieFields, LocalStorageEntry, MigrationCookie, StorageFields,
};
use crate::json::{
    bool_member, bool_value, json_tree, member, member_names, names_cover, names_differ,
    new_object, no_members, object_members, object_value, parse, parsed_json, render,
    rendered_json, set_member, text_member, text_value, trees_of, unsigned_member,
    unsigned_value, value_member, JsonTree,
};
use crate::broker::metadata::{parse_bool, parse_text, parse_u64};
use crate::text::{ascii_lowercase, contains, occurs_in, to_ascii_lowercase};

verus! {

/// The member under `key` of a tree that is an object.
pub open spec fn tree_member(tree: JsonTree, key: Seq<char>) -> Option<JsonTree> {
    match tree {
        JsonTree::Object(members) if members.contains_key(key) => Some(members[key]),
        _ => None,
    }
}

/// The text of a tree that is a string.
pub open spec fn tree_text(tree: Option<JsonTree>) -> Option<Seq<char>> {
    match tree {
        Some(JsonTree::Text(text)) => Some(text),
        _ => None,
    }
}

/// `first` where it holds something, else `second`.
pub open spec fn first_of<T>(first: Option<T>, second: Option<T>) -> Option<T> {
    match first {
        Some(_) => first,
        None => second,
    }
}

/// The value that a WebDriver response carries: its member `value`, or,
/// where that is an object with the one member `value`, that member.
pub open spec fn wd_value_of(body: JsonTree) -> Option<JsonTree> {
    match tree_member(body, "value"@) {
        Some(JsonTree::Object(inner)) => if inner.dom() =~= set!["value"@] {
            Some(inner["value"@])
        } else {
            Some(JsonTree::Object(inner))
        },
        other => other,
    }
}

/// The tree that a value holds, if there is a value.
pub open spec fn tree_of(value: Option<serde_json::Value>) -> Option<JsonTree> {
    match value {
        Some(held) => Some(json_tree(held)),
        None => None,
    }
}

/// Takes the value out of a WebDriver response. Nothing is returned where
/// the response has no member `value`.
pub fn extract_wd_value(body: &serde_json::Value) -> (r: Option<serde_json::Value>)
    ensures
        tree_of(r) == wd_value_of(json_tree(*body)),
{
    match value_member(body, "value") {
        Some(value) => {
            match value.as_object() {
                Some(inner) => {
                    let names = member_names(inner);
                    proof {
                        lemma_names_of_one(names@, object_members(*inner).dom(), "value"@);
                    }
                    if names.len() == 1 {
                        match member(inner, "value") {
                            Some(wrapped) => Some(wrapped.clone()),
                            None => Some(value.clone()),
                        }
                    } else {
                        Some(value.clone())
                    }
                },
                None => Some(value.clone()),
            }
        },
        None => None,
    }
}

/// Names that list a set's members, each once, are one name exactly when
/// the set has one member.
proof fn lemma_names_of_one(names: Seq<String>, keys: Set<Seq<char>>, key: Seq<char>)
    requires
        names_cover(names, keys),
        names_differ(names),
    ensures
        keys =~= set![key] <==> names.len() == 1 && keys.contains(key),
{
    if keys =~= set![key] {
        assert(keys.contains(key));
        let i = choose|i: int| 0 <= i < names.len() && (#[trigger] names[i])@ == key;
        assert forall|j: int| 0 <= j < names.len() implies (#[trigger] names[j])@ == key by {
            assert(keys.contains(names[j]@));
        }
        if names.len() > 1 {
            assert(names[0]@ == key);
            assert(names[1]@ == key);
        }
    }
    if names.len() == 1 && keys.contains(key) {
        assert forall|other: Seq<char>| keys.contains(other) implies other == key by {
            let i = choose|i: int| 0 <= i < names.len() && (#[trigger] names[i])@ == other;
            let j = choose|j: int| 0 <= j < names.len() && (#[trigger] names[j])@ == key;
            assert(i == 0 && j == 0);
        }
    }
}

/// The title that a value tells: the string that it is, or the JSON text of
/// a value of another kind.
pub open spec fn title_in(tree: JsonTree) -> Option<Seq<char>> {
    match tree {
        JsonTree::Text(text) => Some(text),
        other => rendered_json(other),
    }
}

/// The title that the response to a title query tells: that of its value.
pub open spec fn title_of_response(body: JsonTree) -> Option<Seq<char>> {
    match wd_value_of(body) {
        Some(value) => title_in(value),
        None => None,
    }
}

/// Takes the page's title out of the response to a title query. Nothing is
/// returned where the response has no value, or has one that cannot be
/// written.
pub fn title_from_response(body: &serde_json::Value) -> (r: Option<String>)
    ensures
        text_of(r) == title_of_response(json_tree(*body)),
{
    match extract_wd_value(body) {
        Some(value) => match value.as_str() {
            Some(title) => Some(title.to_owned()),
            None => render(&value),
        },
        None => None,
    }
}

/// The text under `key` of a response's top level.
pub open spec fn root_text(body: JsonTree, key: Seq<char>) -> Option<Seq<char>> {
    tree_text(tree_member(body, key))
}

/// The text under `key` of the member `value` of a response.
pub open spec fn nested_text(body: JsonTree, key: Seq<char>) -> Option<Seq<char>> {
    match tree_member(body, "value"@) {
        Some(inner) => tree_text(tree_member(inner, key)),
        None => None,
    }
}

/// `given` where there is one, else `fallback`.
pub open spec fn text_or(given: Option<Seq<char>>, fallback: Seq<char>) -> Seq<char> {
    match given {
        Some(text) => text,
        None => fallback,
    }
}

/// The error that a WebDriver response tells, in words: the error's name and
/// its message, each taken from the member `value` before the top level.
pub open spec fn wd_error_of(body: JsonTree) -> Seq<char> {
    text_or(
        first_of(nested_text(body, "error"@), root_text(body, "error"@)),
        "unknown WebDriver error"@,
    ) + ": "@ + text_or(
        first_of(nested_text(body, "message"@), root_text(body, "message"@)),
        "no error message"@,
    )
}

/// The session id that a WebDriver response tells: the text under
/// `sessionId`, at the top level before the member `value`.
pub open spec fn session_id_of(body: JsonTree) -> Option<Seq<char>> {
    first_of(root_text(body, "sessionId"@), nested_text(body, "sessionId"@))
}

/// Whether a WebDriver response says that a session is running already: its
/// message, at the top level before the member `value`, says so in capital
/// or small letters.
pub open spec fn says_already_started(body: JsonTree) -> bool {
    occurs_in(
        "session is already started"@,
        ascii_lowercase(
            text_or(
                first_of(root_text(body, "message"@), nested_text(body, "message"@)),
                Seq::empty(),
            ),
        ),
    )
}

/// The text under `key` where `value` is an object that has a string there.
pub fn text_at<'a>(value: &'a serde_json::Value, key: &str) -> (r: Option<&'a str>)
    ensures
        option_text(r) == root_text(json_tree(*value), key@),
{
    match value_member(value, key) {
        Some(found) => found.as_str(),
        None => None,
    }
}

/// The text under `key` of the member `value`.
pub fn nested_text_at<'a>(body: &'a serde_json::Value, key: &str) -> (r: Option<&'a str>)
    ensures
        option_text(r) == nested_text(json_tree(*body), key@),
{
    match value_member(body, "value") {
        Some(inner) => text_at(inner, key),
        None => None,
    }
}

/// The text of a slice, if there is one.
pub open spec fn option_text(given: Option<&str>) -> Option<Seq<char>> {
    match given {
        Some(slice) => Some(slice@),
        None => None,
    }
}

/// Tells the error of a WebDriver response in words.
pub fn format_wd_error(body: &serde_json::Value) -> (r: String)
    ensures
        r@ == wd_error_of(json_tree(*body)),
{
    let error = match nested_text_at(body, "error") {
        Some(text) => text,
        None => match text_at(body, "error") {
            Some(text) => text,
            None => "unknown WebDriver error",
        },
    };
    let message = match nested_text_at(body, "message") {
        Some(text) => text,
        None => match text_at(body, "message") {
            Some(text) => text,
            None => "no error message",
        },
    };
    let mut text = error.to_owned();
    text.append(": ");
    text.append(message);
    text
}

/// Takes the session id out of a WebDriver response.
pub fn extract_session_id(body: &serde_json::Value) -> (r: Option<String>)
    ensures
        text_of(r) == session_id_of(json_tree(*body)),
{
    match text_at(body, "sessionId") {
        Some(id) => Some(id.to_owned()),
        None => match nested_text_at(body, "sessionId") {
            Some(id) => Some(id.to_owned()),
            None => None,
        },
    }
}

/// Whether a WebDriver response says that a session is running already.
pub fn is_session_already_started(body: &serde_json::Value) -> (r: bool)
    ensures
        r == says_already_started(json_tree(*body)),
{
    let message = match text_at(body, "message") {
        Some(text) => text,
        None => match nested_text_at(body, "message") {
            Some(text) => text,
            None => "",
        },
    };
    proof {
        reveal_strlit("");
        assert(""@ =~= Seq::<char>::empty());
    }
    let lowered = to_ascii_lowercase(message);
    contains(lowered.as_str(), "session is already started")
}

/// The boolean under `first` where the object has that key, else the one
/// under `second`.
pub open spec fn bool_under(
    members: Map<Seq<char>, JsonTree>,
    first: Seq<char>,
    second: Seq<char>,
) -> Option<bool> {
    if members.contains_key(first) {
        bool_member(members, first)
    } else {
        bool_member(members, second)
    }
}

/// The text under `first` where the object has that key, else the one under
/// `second`.
pub open spec fn text_under(
    members: Map<Seq<char>, JsonTree>,
    first: Seq<char>,
    second: Seq<char>,
) -> Option<Seq<char>> {
    if members.contains_key(first) {
        text_member(members, first)
    } else {
        text_member(members, second)
    }
}

/// The cookie that an object tells in the shape of WebDriver: one with a
/// name and a value, both strings. The other fields are taken where they
/// have their kind; `httpOnly` and `sameSite` may be spelt `http_only` and
/// `same_site`.
pub open spec fn cookie_of(members: Map<Seq<char>, JsonTree>) -> Option<CookieFields> {
    match (text_member(members, "name"@), text_member(members, "value"@)) {
        (Some(name), Some(value)) => Some(
            CookieFields {
                name,
                value,
                domain: text_member(members, "domain"@),
                path: text_member(members, "path"@),
                secure: bool_member(members, "secure"@),
                http_only: bool_under(members, "httpOnly"@, "http_only"@),
                expiry: unsigned_member(members, "expiry"@),
                same_site: text_under(members, "sameSite"@, "same_site"@),
            },
        ),
        _ => None,
    }
}

/// The cookie that a tree tells, if it is an object that tells one.
pub open spec fn cookie_in(tree: JsonTree) -> Option<CookieFields> {
    match tree {
        JsonTree::Object(members) => cookie_of(members),
        _ => None,
    }
}

/// The cookies that the items tell, in their order; an item that tells none
/// is passed over.
pub open spec fn cookies_of(items: Seq<JsonTree>) -> Seq<CookieFields>
    decreases items.len(),
{
    if items.len() == 0 {
        Seq::empty()
    } else {
        match cookie_in(items.last()) {
            Some(cookie) => cookies_of(items.drop_last()).push(cookie),
            None => cookies_of(items.drop_last()),
        }
    }
}

/// The entry of local storage that a tree tells: an object with a key and a
/// value, both strings.
pub open spec fn entry_in(tree: JsonTree) -> Option<StorageFields> {
    match tree {
        JsonTree::Object(members) => match (
            text_member(members, "key"@),
            text_member(members, "value"@),
        ) {
            (Some(key), Some(value)) => Some(StorageFields { key, value }),
            _ => None,
        },
        _ => None,
    }
}

/// The entries of local storage that the items tell, in their order; an
/// item that tells none is passed over.
pub open spec fn entries_of(items: Seq<JsonTree>) -> Seq<StorageFields>
    decreases items.len(),
{
    if items.len() == 0 {
        Seq::empty()
    } else {
        match entry_in(items.last()) {
            Some(entry) => entries_of(items.drop_last()).push(entry),
            None => entries_of(items.drop_last()),
        }
    }
}

/// The items of a tree that is an array, and none for any other tree.
pub open spec fn items_of(tree: JsonTree) -> Seq<JsonTree> {
    match tree {
        JsonTree::Array(items) => items,
        _ => Seq::empty(),
    }
}

/// What the cookies hold, one after the other.
pub open spec fn cookie_views(cookies: Seq<MigrationCookie>) -> Seq<CookieFields> {
    Seq::new(cookies.len(), |i: int| cookies[i]@)
}

/// What the entries hold, one after the other.
pub open spec fn entry_views(entries: Seq<LocalStorageEntry>) -> Seq<StorageFields> {
    Seq::new(entries.len(), |i: int| entries[i]@)
}

fn owned(given: Option<&str>) -> (r: Option<String>)
    ensures
        text_of(r) == option_text(given),
{
    match given {
        Some(text) => Some(text.to_owned()),
        None => None,
    }
}

/// Reads a cookie from an object in the shape of WebDriver.
pub fn cookie_from_object(object: &serde_json::Map<String, serde_json::Value>) -> (r: Option<
    MigrationCookie,
>)
    ensures
        match r {
            Some(cookie) => cookie_of(object_members(*object)) == Some(cookie@),
            None => cookie_of(object_members(*object)) is None,
        },
{
    let name = match parse_text(object, "name") {
        Some(name) => name,
        None => {
            return None;
        },
    };
    let value = match parse_text(object, "value") {
        Some(value) => value,
        None => {
            return None;
        },
    };
    let http_only = match member(object, "httpOnly") {
        Some(found) => found.as_bool(),
        None => parse_bool(object, "http_only"),
    };
    let same_site = match member(object, "sameSite") {
        Some(found) => owned(found.as_str()),
        None => owned(parse_text(object, "same_site")),
    };
    Some(
        MigrationCookie {
            name: name.to_owned(),
            value: value.to_owned(),
            domain: owned(parse_text(object, "domain")),
            path: owned(parse_text(object, "path")),
            secure: parse_bool(object, "secure"),
            http_only,
            expiry: parse_u64(object, "expiry"),
            same_site,
        },
    )
}

/// Reads the cookies from the value of a WebDriver response: those that the
/// items of the array tell, and none where the value is no array.
pub fn cookies_from_value(value: &serde_json::Value) -> (r: Vec<MigrationCookie>)
    ensures
        cookie_views(r@) == cookies_of(items_of(json_tree(*value))),
{
    let mut out: Vec<MigrationCookie> = Vec::new();
    let values = match value.as_array() {
        Some(values) => values,
        None => {
            return out;
        },
    };
    let ghost items = items_of(json_tree(*value));
    let mut i: usize = 0;
    while i < values.len()
        invariant
            i <= values@.len(),
            trees_of(values@, items),
            cookie_views(out@) == cookies_of(items.take(i as int)),
        decreases values@.len() - i,
    {
        proof {
            assert(items.take(i as int + 1).drop_last() =~= items.take(i as int));
        }
        match values[i].as_object() {
            Some(object) => match cookie_from_object(object) {
                Some(cookie) => {
                    out.push(cookie);
                },
                None => {},
            },
            None => {},
        }
        i += 1;
    }
    assert(items.take(i as int) =~= items);
    out
}

/// Reads an entry of local storage from a value.
pub fn entry_from_value(value: &serde_json::Value) -> (r: Option<LocalStorageEntry>)
    ensures
        match r {
            Some(entry) => entry_in(json_tree(*value)) == Some(entry@),
            None => entry_in(json_tree(*value)) is None,
        },
{
    let object = match value.as_object() {
        Some(object) => object,
        None => {
            return None;
        },
    };
    let key = match parse_text(object, "key") {
        Some(key) => key,
        None => {
            return None;
        },
    };
    match parse_text(object, "value") {
        Some(value) => Some(LocalStorageEntry { key: key.to_owned(), value: value.to_owned() }),
        None => None,
    }
}

/// Reads the entries of local storage from the text that the page's script
/// returned: those that the items of the array tell, and none where the
/// text reads as a value that is no array. Nothing is returned where the
/// text is no JSON.
pub fn storage_from_text(raw: &str) -> (r: Option<Vec<LocalStorageEntry>>)
    ensures
        match parsed_json(raw@) {
            Some(tree) => r matches Some(entries) && entry_views(entries@) == entries_of(
                items_of(tree),
            ),
            None => r is None,
        },
{
    let value = match parse(raw) {
        Some(value) => value,
        None => {
            return None;
        },
    };
    let mut out: Vec<LocalStorageEntry> = Vec::new();
    let values = match value.as_array() {
        Some(values) => values,
        None => {
            return Some(out);
        },
    };
    let ghost items = items_of(json_tree(value));
    let mut i: usize = 0;
    while i < values.len()
        invariant
            i <= values@.len(),
            trees_of(values@, items),
            entry_views(out@) == entries_of(items.take(i as int)),
        decreases values@.len() - i,
    {
        proof {
            assert(items.take(i as int + 1).drop_last() =~= items.take(i as int));
        }
        match entry_from_value(&values[i]) {
            Some(entry) => {
                out.push(entry);
            },
            None => {},
        }
        i += 1;
    }
    assert(items.take(i as int) =~= items);
    Some(out)
}

/// The address that the text returned for `location.href` tells: the string
/// that the text reads as, if it reads as one.
pub fn current_url_from_text(raw: &str) -> (r: Option<String>)
    ensures
        text_of(r) == tree_text(parsed_json(raw@)),
{
    match parse(raw) {
        Some(value) => owned(value.as_str()),
        None => None,
    }
}

/// The members with a string under `key`, where one is given.
pub open spec fn with_text(
    members: Map<Seq<char>, JsonTree>,
    key: Seq<char>,
    given: Option<Seq<char>>,
) -> Map<Seq<char>, JsonTree> {
    match given {
        Some(text) => members.insert(key, JsonTree::Text(text)),
        None => members,
    }
}

/// The members with a boolean under `key`, where one is given.
pub open spec fn with_bool(
    members: Map<Seq<char>, JsonTree>,
    key: Seq<char>,
    given: Option<bool>,
) -> Map<Seq<char>, JsonTree> {
    match given {
        Some(flag) => members.insert(key, JsonTree::Bool(flag)),
        None => members,
    }
}

/// The members with an unsigned integer under `key`, where one is given.
pub open spec fn with_unsigned(
    members: Map<Seq<char>, JsonTree>,
    key: Seq<char>,
    given: Option<u64>,
) -> Map<Seq<char>, JsonTree> {
    match given {
        Some(number) => members.insert(
            key,
            JsonTree::Number(crate::json::JsonNumber::Unsigned(number)),
        ),
        None => members,
    }
}

/// A cookie in the shape of WebDriver: its name and value, and each of the
/// other fields that it has.
pub open spec fn cookie_members(cookie: CookieFields) -> Map<Seq<char>, JsonTree> {
    let named = no_members().insert("name"@, JsonTree::Text(cookie.name)).insert(
        "value"@,
        JsonTree::Text(cookie.value),
    );
    with_text(
        with_unsigned(
            with_bool(
                with_bool(
                    with_text(with_text(named, "domain"@, cookie.domain), "path"@, cookie.path),
                    "secure"@,
                    cookie.secure,
                ),
                "httpOnly"@,
                cookie.http_only,
            ),
            "expiry"@,
            cookie.expiry,
        ),
        "sameSite"@,
        cookie.same_site,
    )
}

/// The message that adds a cookie: an object with the cookie under `cookie`.
pub open spec fn cookie_payload_of(cookie: CookieFields) -> JsonTree {
    JsonTree::Object(no_members().insert("cookie"@, JsonTree::Object(cookie_members(cookie))))
}

fn put_text(
    object: &mut serde_json::Map<String, serde_json::Value>,
    key: &str,
    given: &Option<String>,
)
    ensures
        object_members(*final(object)) == with_text(
            object_members(*old(object)),
            key@,
            text_of(*given),
        ),
{
    match given {
        Some(text) => set_member(object, key, text_value(text.as_str())),
        None => {},
    }
}

fn put_bool(
    object: &mut serde_json::Map<String, serde_json::Value>,
    key: &str,
    given: Option<bool>,
)
    ensures
        object_members(*final(object)) == with_bool(object_members(*old(object)), key@, given),
{
    match given {
        Some(flag) => set_member(object, key, bool_value(flag)),
        None => {},
    }
}

/// Writes a cookie as an object in the shape of WebDriver.
pub fn cookie_object(cookie: &MigrationCookie) -> (r: serde_json::Map<String, serde_json::Value>)
    ensures
        object_members(r) == cookie_members(cookie@),
{
    let mut object = new_object();
    set_member(&mut object, "name", text_value(cookie.name.as_str()));
    set_member(&mut object, "value", text_value(cookie.value.as_str()));
    put_text(&mut object, "domain", &cookie.domain);
    put_text(&mut object, "path", &cookie.path);
    put_bool(&mut object, "secure", cookie.secure);
    put_bool(&mut object, "httpOnly", cookie.http_only);
    match cookie.expiry {
        Some(expiry) => set_member(&mut object, "expiry", unsigned_value(expiry)),
        None => {},
    }
    put_text(&mut object, "sameSite", &cookie.same_site);
    object
}

/// Writes the message that adds a cookie.
pub fn cookie_payload(cookie: &MigrationCookie) -> (r: serde_json::Value)
    ensures
        json_tree(r) == cookie_payload_of(cookie@),
{
    let mut payload = new_object();
    set_member(&mut payload, "cookie", object_value(cookie_object(cookie)));
    object_value(payload)
}

/// The keys of a cookie in the shape of WebDriver differ from one another.
pub proof fn lemma_cookie_keys_differ()
    ensures
        "name"@ != "value"@,
        "name"@ != "domain"@,
        "name"@ != "path"@,
        "name"@ != "secure"@,
        "name"@ != "httpOnly"@,
        "name"@ != "expiry"@,
        "name"@ != "sameSite"@,
        "value"@ != "domain"@,
        "value"@ != "path"@,
        "value"@ != "secure"@,
        "value"@ != "httpOnly"@,
        "value"@ != "expiry"@,
        "value"@ != "sameSite"@,
        "domain"@ != "path"@,
        "domain"@ != "secure"@,
        "domain"@ != "httpOnly"@,
        "domain"@ != "expiry"@,
        "domain"@ != "sameSite"@,
        "path"@ != "secure"@,
        "path"@ != "httpOnly"@,
        "path"@ != "expiry"@,
        "path"@ != "sameSite"@,
        "secure"@ != "httpOnly"@,
        "secure"@ != "expiry"@,
        "secure"@ != "sameSite"@,
        "httpOnly"@ != "expiry"@,
        "httpOnly"@ != "sameSite"@,
        "expiry"@ != "sameSite"@,
{
    reveal_strlit("name");
    reveal_strlit("value");
    reveal_strlit("domain");
    reveal_strlit("path");
    reveal_strlit("secure");
    reveal_strlit("httpOnly");
    reveal_strlit("expiry");
    reveal_strlit("sameSite");
    // The keys differ in their first letters, but for `secure` and
    // `sameSite`, which differ in length.
    assert("name"@[0] == 'n');
    assert("value"@[0] == 'v');
    assert("domain"@[0] == 'd');
    assert("path"@[0] == 'p');
    assert("secure"@[0] == 's');
    assert("httpOnly"@[0] == 'h');
    assert("expiry"@[0] == 'e');
    assert("sameSite"@[0] == 's');
    assert("secure"@.len() == 6);
    assert("sameSite"@.len() == 8);
}

/// A cookie that is written in the shape of WebDriver reads back as itself.
pub proof fn lemma_cookie_reads_back(cookie: CookieFields)
    ensures
        cookie_of(cookie_members(cookie)) == Some(cookie),
{
    lemma_cookie_keys_differ();
    lemma_cookie_spare_keys(cookie);
}

proof fn lemma_cookie_spare_keys(cookie: CookieFields)
    ensures
        !cookie_members(cookie).contains_key("http_only"@),
        !cookie_members(cookie).contains_key("same_site"@),
{
    reveal_strlit("name");
    reveal_strlit("value");
    reveal_strlit("domain");
    reveal_strlit("path");
    reveal_strlit("secure");
    reveal_strlit("httpOnly");
    reveal_strlit("expiry");
    reveal_strlit("sameSite");
    reveal_strlit("http_only");
    reveal_strlit("same_site");
    assert("http_only"@.len() == 9);
    assert("same_site"@.len() == 9);
}

/// The statement that sets an entry of local storage, given the key and the
/// value as JSON strings.
pub open spec fn storage_statement(key_json: Seq<char>, value_json: Seq<char>) -> Seq<char> {
    "localStorage.setItem("@ + key_json + ", "@ + value_json + "); true;"@
}

/// The script that sets an entry of local storage, or nothing where the key
/// or the value cannot be written as JSON.
pub open spec fn storage_script_of(entry: StorageFields) -> Option<Seq<char>> {
    match (
        rendered_json(JsonTree::Text(entry.key)),
        rendered_json(JsonTree::Text(entry.value)),
    ) {
        (Some(key_json), Some(value_json)) => Some(storage_statement(key_json, value_json)),
        _ => None,
    }
}

/// Writes the script that sets an entry of local storage in the page.
pub fn storage_script(entry: &LocalStorageEntry) -> (r: Option<String>)
    ensures
        text_of(r) == storage_script_of(entry@),
{
    let key_json = match render(&text_value(entry.key.as_str())) {
        Some(text) => text,
        None => {
            return None;
        },
    };
    let value_json = match render(&text_value(entry.value.as_str())) {
        Some(text) => text,
        None => {
            return None;
        },
    };
    let mut script = "localStorage.setItem(".to_owned();
    script.append(key_json.as_str());
    script.append(", ");
    script.append(value_json.as_str());
    script.append("); true;");
    Some(script)
}

/// The session id that an item of a list of sessions tells: the text under
/// `sessionId`, under `id`, or under `sessionId` of the member `value`.
pub open spec fn listed_session_id(item: JsonTree) -> Option<Seq<char>> {
    first_of(
        first_of(root_text(item, "sessionId"@), root_text(item, "id"@)),
        nested_text(item, "sessionId"@),
    )
}

/// The first session id that the items tell, from `from` on.
pub open spec fn first_session_from(items: Seq<JsonTree>, from: int) -> Option<Seq<char>>
    decreases items.len() - from,
{
    if from < 0 || from >= items.len() {
        None
    } else {
        match listed_session_id(items[from]) {
            Some(id) => Some(id),
            None => first_session_from(items, from + 1),
        }
    }
}

/// The session that a list of sessions offers for reuse: the first id among
/// the items of the member `value`.
pub open spec fn existing_session_of(body: Option<JsonTree>) -> Option<Seq<char>> {
    match body {
        Some(tree) => match tree_member(tree, "value"@) {
            Some(listed) => first_session_from(items_of(listed), 0),
            None => None,
        },
        None => None,
    }
}

/// Finds a session to reuse in the text of a list of sessions.
pub fn existing_session_id(raw: &str) -> (r: Option<String>)
    ensures
        text_of(r) == existing_session_of(parsed_json(raw@)),
{
    let body = match parse(raw) {
        Some(body) => body,
        None => {
            return None;
        },
    };
    let listed = match value_member(&body, "value") {
        Some(listed) => listed,
        None => {
            return None;
        },
    };
    let sessions = match listed.as_array() {
        Some(sessions) => sessions,
        None => {
            return None;
        },
    };
    let ghost items = items_of(json_tree(*listed));
    let mut i: usize = 0;
    while i < sessions.len()
        invariant
            i <= sessions@.len(),
            trees_of(sessions@, items),
            existing_session_of(parsed_json(raw@)) == first_session_from(items, 0),
            first_session_from(items, 0) == first_session_from(items, i as int),
        decreases sessions@.len() - i,
    {
        let session = &sessions[i];
        let found = match text_at(session, "sessionId") {
            Some(id) => Some(id),
            None => match text_at(session, "id") {
                Some(id) => Some(id),
                None => nested_text_at(session, "sessionId"),
            },
        };
        match found {
            Some(id) => {
                return Some(id.to_owned());
            },
            None => {},
        }
        i += 1;
    }
    None
}

/// What follows an attempt to create a session.
pub enum SessionAttempt {
    /// The session was created, with this id.
    Created(String),
    /// The endpoint accepted the attempt but told no session id.
    Unidentified,
    /// A session runs already, and the response tells its id.
    Reuse(String),
    /// A session runs already: look for its id in the list of sessions.
    LookUp,
    /// The attempt failed: make the next one.
    Next,
}

/// Decides what follows an attempt to create a session, from whether the
/// endpoint reported success and from the body of its response.
pub fn session_attempt(succeeded: bool, body: &serde_json::Value) -> (r: SessionAttempt)
    ensures
        match r {
            SessionAttempt::Created(id) => succeeded && session_id_of(json_tree(*body)) == Some(
                id@,
            ),
            SessionAttempt::Unidentified => succeeded && session_id_of(json_tree(*body)) is None,
            SessionAttempt::Reuse(id) => !succeeded && says_already_started(json_tree(*body))
                && session_id_of(json_tree(*body)) == Some(id@),
            SessionAttempt::LookUp => !succeeded && says_already_started(json_tree(*body))
                && session_id_of(json_tree(*body)) is None,
            SessionAttempt::Next => !succeeded && !says_already_started(json_tree(*body)),
        },
{
    if succeeded {
        match extract_session_id(body) {
            Some(id) => SessionAttempt::Created(id),
            None => SessionAttempt::Unidentified,
        }
    } else if is_session_already_started(body) {
        match extract_session_id(body) {
            Some(id) => SessionAttempt::Reuse(id),
            None => SessionAttempt::LookUp,
        }
    } else {
        SessionAttempt::Next
    }
}

} // verus!
