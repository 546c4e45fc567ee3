//! Navigate metadata: the JSON object that an engine returns for a
//! navigation, the signals read from it and the `migrated` stamp.

use vstd::prelude::*;
use vstd::utf8::encode_utf8;

use super::confidence::signals::ConfidenceSignals;
use crate::json::{
    bool_member, bool_value, member, object_members, parse_object, parsed_object, render_object,
    rendered_json, set_member, text_member, unsigned_member, JsonTree,
};

verus! {

/// A number held within the range of `u32`.
pub open spec fn clamp_u32(n: u64) -> u32 {
    if n > u32::MAX {
        u32::MAX
    } else {
        n as u32
    }
}

/// A number held within the range of `usize`.
pub open spec fn clamp_usize(n: int) -> usize {
    if n > usize::MAX {
        usize::MAX
    } else if n < 0 {
        0
    } else {
        n as usize
    }
}

/// The member under `key` as a `u32`, held at the type's maximum.
pub open spec fn u32_member(members: Map<Seq<char>, JsonTree>, key: Seq<char>) -> Option<u32> {
    match unsigned_member(members, key) {
        Some(n) => Some(clamp_u32(n)),
        None => None,
    }
}

/// The member under `key` as a `usize`, held at the type's maximum.
pub open spec fn usize_member(members: Map<Seq<char>, JsonTree>, key: Seq<char>) -> Option<
    usize,
> {
    match unsigned_member(members, key) {
        Some(n) => Some(clamp_usize(n as int)),
        None => None,
    }
}

/// The number of bytes that a text takes in UTF-8, as `str::len` counts it.
pub open spec fn byte_length(text: Seq<char>) -> usize {
    encode_utf8(text).len() as usize
}

/// The title that the metadata carries, as it is given; the empty text where
/// it carries none.
pub open spec fn title_of(members: Map<Seq<char>, JsonTree>) -> Seq<char> {
    match text_member(members, "title"@) {
        Some(title) => title,
        None => Seq::empty(),
    }
}

/// The signals assumed of a page before its probe fields are read: a first
/// paint at 600 ms where the navigation reports success, and the figures of
/// a small document, with twelve bytes of text for each byte of the title
/// and sixty-four at the least, where it reports a title that is not empty.
pub open spec fn baseline_of(members: Map<Seq<char>, JsonTree>, sampled_at_ms: u64) -> ConfidenceSignals {
    let blank = ConfidenceSignals::blank(sampled_at_ms);
    let painted = if bool_member(members, "ok"@) == Some(true) {
        ConfidenceSignals { first_paint_ms: Some(600), ..blank }
    } else {
        blank
    };
    let title = title_of(members);
    if title.len() > 0 {
        ConfidenceSignals {
            paint_element_count: 24,
            dom_element_count: 32,
            dom_depth_max: 6,
            body_text_length: clamp_usize(
                if 12 * byte_length(title) >= 64 {
                    12 * byte_length(title)
                } else {
                    64
                },
            ),
            js_execution_time_ms: 250,
            ..painted
        }
    } else {
        painted
    }
}

/// `given` where there is one, else `fallback`.
pub open spec fn or_else<T>(given: Option<T>, fallback: T) -> T {
    match given {
        Some(value) => value,
        None => fallback,
    }
}

/// The signals that an object's members tell: the baseline, with every probe
/// field that the object holds as an unsigned integer put in its place.
pub open spec fn signals_of_members(members: Map<Seq<char>, JsonTree>, sampled_at_ms: u64) -> ConfidenceSignals {
    let base = baseline_of(members, sampled_at_ms);
    ConfidenceSignals {
        first_paint_ms: match unsigned_member(members, "first_paint_ms"@) {
            Some(ms) => Some(ms),
            None => base.first_paint_ms,
        },
        paint_element_count: or_else(
            usize_member(members, "paint_element_count"@),
            base.paint_element_count,
        ),
        dom_element_count: or_else(
            usize_member(members, "dom_element_count"@),
            base.dom_element_count,
        ),
        dom_depth_max: or_else(usize_member(members, "dom_depth_max"@), base.dom_depth_max),
        body_text_length: or_else(
            usize_member(members, "body_text_length"@),
            base.body_text_length,
        ),
        js_errors: or_else(u32_member(members, "js_errors"@), base.js_errors),
        unhandled_promise_rejections: or_else(
            u32_member(members, "unhandled_promise_rejections"@),
            base.unhandled_promise_rejections,
        ),
        console_error_count: or_else(
            u32_member(members, "console_error_count"@),
            base.console_error_count,
        ),
        js_execution_time_ms: or_else(
            unsigned_member(members, "js_execution_time_ms"@),
            base.js_execution_time_ms,
        ),
        failed_resource_count: or_else(
            u32_member(members, "failed_resource_count"@),
            base.failed_resource_count,
        ),
        cors_violations: or_else(u32_member(members, "cors_violations"@), base.cors_violations),
        pending_requests_at_sample: or_else(
            u32_member(members, "pending_requests_at_sample"@),
            base.pending_requests_at_sample,
        ),
        css_parse_failures: or_else(
            u32_member(members, "css_parse_failures"@),
            base.css_parse_failures,
        ),
        sampled_at_ms: base.sampled_at_ms,
    }
}

/// The signals that a metadata text tells: those of its members where it
/// reads as a JSON object, and the blank signals where it does not.
pub open spec fn signals_of(meta: Seq<char>, sampled_at_ms: u64) -> ConfidenceSignals {
    match parsed_object(meta) {
        Some(members) => signals_of_members(members, sampled_at_ms),
        None => ConfidenceSignals::blank(sampled_at_ms),
    }
}

/// The members of an object once it is stamped.
pub open spec fn stamped_members(members: Map<Seq<char>, JsonTree>, migrated: bool) -> Map<
    Seq<char>,
    JsonTree,
> {
    members.insert("migrated"@, JsonTree::Bool(migrated))
}

/// The metadata with its `migrated` member set: the text written for the
/// stamped object. A text that is no JSON object is left as it is, and so is
/// one whose stamped object cannot be written.
pub open spec fn stamped(meta: Seq<char>, migrated: bool) -> Seq<char> {
    match parsed_object(meta) {
        Some(members) => match rendered_json(JsonTree::Object(stamped_members(members, migrated))) {
            Some(text) => text,
            None => meta,
        },
        None => meta,
    }
}

/// Whether two objects read alike: under every key they hold the same
/// boolean, the same string and the same unsigned integer, or none.
pub open spec fn same_readings(a: Map<Seq<char>, JsonTree>, b: Map<Seq<char>, JsonTree>) -> bool {
    forall|key: Seq<char>|
        #![trigger bool_member(a, key)]
        #![trigger text_member(a, key)]
        #![trigger unsigned_member(a, key)]
        bool_member(a, key) == bool_member(b, key) && text_member(a, key) == text_member(b, key)
            && unsigned_member(a, key) == unsigned_member(b, key)
}

/// Whether the stamped form of a metadata object reads as the stamped
/// object: read again, it is an object with the readings of the unstamped
/// object's members and of the stamp. It holds of every text that is no JSON object.
pub open spec fn stamp_reads_back(meta: Seq<char>, migrated: bool) -> bool {
    match parsed_object(meta) {
        Some(members) => parsed_object(stamped(meta, migrated)) matches Some(again)
            && same_readings(again, stamped_members(members, migrated)),
        None => true,
    }
}

/// Whether the stamped form of a metadata object reads as exactly the
/// stamped object. It holds of every text that is no JSON object.
pub open spec fn stamp_reads_back_exactly(meta: Seq<char>, migrated: bool) -> bool {
    match parsed_object(meta) {
        Some(members) => parsed_object(stamped(meta, migrated)) == Some(
            stamped_members(members, migrated),
        ),
        None => true,
    }
}

/// The key of the stamp is none of the keys that the signals are read from.
pub proof fn lemma_stamp_key_is_no_signal_key()
    ensures
        "migrated"@ != "ok"@,
        "migrated"@ != "title"@,
        "migrated"@ != "first_paint_ms"@,
        "migrated"@ != "paint_element_count"@,
        "migrated"@ != "dom_element_count"@,
        "migrated"@ != "dom_depth_max"@,
        "migrated"@ != "body_text_length"@,
        "migrated"@ != "js_errors"@,
        "migrated"@ != "unhandled_promise_rejections"@,
        "migrated"@ != "console_error_count"@,
        "migrated"@ != "js_execution_time_ms"@,
        "migrated"@ != "failed_resource_count"@,
        "migrated"@ != "cors_violations"@,
        "migrated"@ != "pending_requests_at_sample"@,
        "migrated"@ != "css_parse_failures"@,
{
    reveal_strlit("migrated");
    reveal_strlit("ok");
    reveal_strlit("title");
    reveal_strlit("first_paint_ms");
    reveal_strlit("paint_element_count");
    reveal_strlit("dom_element_count");
    reveal_strlit("dom_depth_max");
    reveal_strlit("body_text_length");
    reveal_strlit("js_errors");
    reveal_strlit("unhandled_promise_rejections");
    reveal_strlit("console_error_count");
    reveal_strlit("js_execution_time_ms");
    reveal_strlit("failed_resource_count");
    reveal_strlit("cors_violations");
    reveal_strlit("pending_requests_at_sample");
    reveal_strlit("css_parse_failures");
    assert("migrated"@.len() == 8);
}

/// Objects that read alike tell the same signals.
pub proof fn lemma_same_readings_same_signals(
    a: Map<Seq<char>, JsonTree>,
    b: Map<Seq<char>, JsonTree>,
    sampled_at_ms: u64,
)
    requires
        same_readings(a, b),
    ensures
        signals_of_members(a, sampled_at_ms) == signals_of_members(b, sampled_at_ms),
{
    assert(baseline_of(a, sampled_at_ms) == baseline_of(b, sampled_at_ms));
}

/// The stamp changes none of the signals that an object tells.
pub proof fn lemma_stamped_members_keep_signals(
    members: Map<Seq<char>, JsonTree>,
    migrated: bool,
    sampled_at_ms: u64,
)
    ensures
        signals_of_members(stamped_members(members, migrated), sampled_at_ms) == signals_of_members(
            members,
            sampled_at_ms,
        ),
{
    lemma_stamp_key_is_no_signal_key();
    let after = stamped_members(members, migrated);
    assert(baseline_of(after, sampled_at_ms) == baseline_of(members, sampled_at_ms));
}

/// Stamped metadata tells the signals of the unstamped: for every text,
/// object or not, whose stamped form reads as the stamped object.
pub proof fn lemma_stamp_keeps_signals(meta: Seq<char>, migrated: bool, sampled_at_ms: u64)
    requires
        stamp_reads_back(meta, migrated),
    ensures
        signals_of(stamped(meta, migrated), sampled_at_ms) == signals_of(meta, sampled_at_ms),
{
    match parsed_object(meta) {
        Some(members) => {
            let again = parsed_object(stamped(meta, migrated)).unwrap();
            lemma_same_readings_same_signals(
                again,
                stamped_members(members, migrated),
                sampled_at_ms,
            );
            lemma_stamped_members_keep_signals(members, migrated, sampled_at_ms);
        },
        None => {},
    }
}

/// A stamped metadata object, read again, holds the stamp under `migrated`:
/// for every object whose stamped form reads as the stamped object.
pub proof fn lemma_stamped_object_holds_stamp(meta: Seq<char>, migrated: bool)
    requires
        parsed_object(meta) is Some,
        stamp_reads_back(meta, migrated),
    ensures
        parsed_object(stamped(meta, migrated)) matches Some(again) && bool_member(
            again,
            "migrated"@,
        ) == Some(migrated),
{
}

/// Stamping twice is stamping once: for every text, object or not, whose
/// stamped form reads as exactly the stamped object.
pub proof fn lemma_stamp_is_idempotent(meta: Seq<char>, migrated: bool)
    requires
        stamp_reads_back_exactly(meta, migrated),
    ensures
        stamped(stamped(meta, migrated), migrated) == stamped(meta, migrated),
{
    match parsed_object(meta) {
        Some(members) => {
            let once = stamped_members(members, migrated);
            assert(stamped_members(once, migrated) =~= once);
        },
        None => {},
    }
}

/// Stamping twice gives an object that reads as the one stamped once, under
/// every key: for every object whose stamped form reads as the stamped
/// object, the first time and the second.
pub proof fn lemma_stamped_twice_reads_alike(meta: Seq<char>, migrated: bool)
    requires
        parsed_object(meta) is Some,
        stamp_reads_back(meta, migrated),
        stamp_reads_back(stamped(meta, migrated), migrated),
    ensures
        parsed_object(stamped(meta, migrated)) matches Some(once) && parsed_object(
            stamped(stamped(meta, migrated), migrated),
        ) matches Some(twice) && same_readings(twice, once),
{
}

/// Metadata that is no JSON object tells the blank signals, and its stamped
/// form is the metadata itself.
pub proof fn lemma_not_an_object(meta: Seq<char>, migrated: bool, sampled_at_ms: u64)
    requires
        parsed_object(meta) is None,
    ensures
        signals_of(meta, sampled_at_ms) == ConfidenceSignals::blank(sampled_at_ms),
        stamped(meta, migrated) == meta,
{
}

/// A clamped number is the number itself where the type holds it and the
/// type's maximum where it does not: never a wrapped value.
pub proof fn lemma_clamped_not_wrapped(n: u64)
    ensures
        n <= u32::MAX ==> clamp_u32(n) == n,
        n > u32::MAX ==> clamp_u32(n) == u32::MAX,
        n <= usize::MAX ==> clamp_usize(n as int) == n,
        n > usize::MAX ==> clamp_usize(n as int) == usize::MAX,
{
}

/// Reads the member under `key` as a `u32`. A number beyond the type's range
/// is held at its maximum.
pub fn parse_u32(object: &serde_json::Map<String, serde_json::Value>, key: &str) -> (r: Option<
    u32,
>)
    ensures
        r == u32_member(object_members(*object), key@),
{
    match parse_u64(object, key) {
        Some(value) => {
            if value > u32::MAX as u64 {
                Some(u32::MAX)
            } else {
                Some(value as u32)
            }
        },
        None => None,
    }
}

/// Reads the member under `key` where it is an unsigned integer.
pub fn parse_u64(object: &serde_json::Map<String, serde_json::Value>, key: &str) -> (r: Option<
    u64,
>)
    ensures
        r == unsigned_member(object_members(*object), key@),
{
    match member(object, key) {
        Some(value) => value.as_u64(),
        None => None,
    }
}

/// Reads the member under `key` as a `usize`. A number beyond the type's
/// range is held at its maximum.
pub fn parse_usize(object: &serde_json::Map<String, serde_json::Value>, key: &str) -> (r: Option<
    usize,
>)
    ensures
        r == usize_member(object_members(*object), key@),
{
    match parse_u64(object, key) {
        Some(value) => {
            if value > usize::MAX as u64 {
                Some(usize::MAX)
            } else {
                Some(value as usize)
            }
        },
        None => None,
    }
}

/// Reads the member under `key` where it is a boolean.
pub fn parse_bool(object: &serde_json::Map<String, serde_json::Value>, key: &str) -> (r: Option<
    bool,
>)
    ensures
        r == bool_member(object_members(*object), key@),
{
    match member(object, key) {
        Some(value) => value.as_bool(),
        None => None,
    }
}

/// Reads the member under `key` where it is a string.
pub fn parse_text<'a>(object: &'a serde_json::Map<String, serde_json::Value>, key: &str) -> (r:
    Option<&'a str>)
    ensures
        match text_member(object_members(*object), key@) {
            Some(text) => r matches Some(slice) && slice@ == text,
            None => r is None,
        },
{
    match member(object, key) {
        Some(value) => value.as_str(),
        None => None,
    }
}

/// The signals assumed of a page before its probe fields are read.
pub fn baseline_signals(
    object: &serde_json::Map<String, serde_json::Value>,
    sampled_at_ms: u64,
) -> (r: ConfidenceSignals)
    ensures
        r == baseline_of(object_members(*object), sampled_at_ms),
{
    let mut signals = blank_signals(sampled_at_ms);
    let ok = match parse_bool(object, "ok") {
        Some(flag) => flag,
        None => false,
    };
    if ok {
        signals.first_paint_ms = Some(600);
    }
    let title = match parse_text(object, "title") {
        Some(title) => title,
        None => "",
    };
    proof {
        reveal_strlit("");
    }
    if !title.is_empty() {
        signals.paint_element_count = 24;
        signals.dom_element_count = 32;
        signals.dom_depth_max = 6;
        signals.body_text_length = match title.len().checked_mul(12) {
            Some(length) => if length >= 64 {
                length
            } else {
                64
            },
            None => usize::MAX,
        };
        signals.js_execution_time_ms = 250;
    }
    signals
}

/// The signals that a metadata object tells, sampled at `sampled_at_ms`.
pub fn signals_from_object(
    object: &serde_json::Map<String, serde_json::Value>,
    sampled_at_ms: u64,
) -> (r: ConfidenceSignals)
    ensures
        r == signals_of_members(object_members(*object), sampled_at_ms),
{
    let base = baseline_signals(object, sampled_at_ms);
    ConfidenceSignals {
        first_paint_ms: match parse_u64(object, "first_paint_ms") {
            Some(value) => Some(value),
            None => base.first_paint_ms,
        },
        paint_element_count: given_or(
            parse_usize(object, "paint_element_count"),
            base.paint_element_count,
        ),
        dom_element_count: given_or(
            parse_usize(object, "dom_element_count"),
            base.dom_element_count,
        ),
        dom_depth_max: given_or(parse_usize(object, "dom_depth_max"), base.dom_depth_max),
        body_text_length: given_or(
            parse_usize(object, "body_text_length"),
            base.body_text_length,
        ),
        js_errors: given_or(parse_u32(object, "js_errors"), base.js_errors),
        unhandled_promise_rejections: given_or(
            parse_u32(object, "unhandled_promise_rejections"),
            base.unhandled_promise_rejections,
        ),
        console_error_count: given_or(
            parse_u32(object, "console_error_count"),
            base.console_error_count,
        ),
        js_execution_time_ms: given_or(
            parse_u64(object, "js_execution_time_ms"),
            base.js_execution_time_ms,
        ),
        failed_resource_count: given_or(
            parse_u32(object, "failed_resource_count"),
            base.failed_resource_count,
        ),
        cors_violations: given_or(parse_u32(object, "cors_violations"), base.cors_violations),
        pending_requests_at_sample: given_or(
            parse_u32(object, "pending_requests_at_sample"),
            base.pending_requests_at_sample,
        ),
        css_parse_failures: given_or(
            parse_u32(object, "css_parse_failures"),
            base.css_parse_failures,
        ),
        sampled_at_ms: base.sampled_at_ms,
    }
}

fn given_or<T>(given: Option<T>, fallback: T) -> (r: T)
    ensures
        r == or_else(given, fallback),
{
    match given {
        Some(value) => value,
        None => fallback,
    }
}

fn blank_signals(sampled_at_ms: u64) -> (r: ConfidenceSignals)
    ensures
        r == ConfidenceSignals::blank(sampled_at_ms),
{
    ConfidenceSignals {
        first_paint_ms: None,
        paint_element_count: 0,
        dom_element_count: 0,
        dom_depth_max: 0,
        body_text_length: 0,
        js_errors: 0,
        unhandled_promise_rejections: 0,
        console_error_count: 0,
        js_execution_time_ms: 0,
        failed_resource_count: 0,
        cors_violations: 0,
        pending_requests_at_sample: 0,
        css_parse_failures: 0,
        sampled_at_ms,
    }
}

/// The signals that navigate metadata tells, sampled at `sampled_at_ms`.
/// Metadata that is no JSON object gives the blank signals.
pub fn signals_from_navigate_meta(meta_json: &str, sampled_at_ms: u64) -> (r: ConfidenceSignals)
    ensures
        r == signals_of(meta_json@, sampled_at_ms),
        parsed_object(meta_json@) is None ==> r == ConfidenceSignals::blank(sampled_at_ms),
{
    match parse_object(meta_json) {
        Some(object) => signals_from_object(&object, sampled_at_ms),
        None => blank_signals(sampled_at_ms),
    }
}

/// Sets the `migrated` member of navigate metadata and writes it again.
/// Metadata that is no JSON object comes back unchanged.
pub fn stamp_migrated(meta_json: &str, migrated: bool) -> (r: String)
    ensures
        r@ == stamped(meta_json@, migrated),
        parsed_object(meta_json@) is None ==> r@ == meta_json@,
{
    match parse_object(meta_json) {
        Some(object) => {
            let mut object = object;
            set_member(&mut object, "migrated", bool_value(migrated));
            match render_object(object) {
                Some(text) => text,
                None => meta_json.to_owned(),
            }
        },
        None => meta_json.to_owned(),
    }
}

} // verus!
