//! Structured-payload decoding: the raw text is parsed as JSON and its
//! `prefix` / `content` / `suffix` / `rotate` members become a
//! [`Payload`].
//!
//! The parsing itself is serde_json's, behind trusted declarations. Its
//! verdicts depend on the text alone, so they are named here as
//! uninterpreted functions of the text — whether it is well-formed JSON,
//! and what each named member holds — and the contracts of
//! [`decode_payload`] and of the engine speak of those names. Which
//! members are required, which default, and to what, is verified logic
//! in [`crate::payload::assemble_payload`].

use vstd::prelude::*;
use crate::payload::assemble_payload;
use crate::payload::DecodeError;
use crate::payload::JsonField;
use crate::payload::Payload;

verus! {

/// Whether a text is well-formed JSON, as serde_json's parser judges it:
/// a verdict that depends on the text alone.
pub uninterp spec fn json_wf(s: Seq<char>) -> bool;

/// The `content` member of a text's JSON object, a function of the text
/// alone: `None` when there is no such member, `Some(None)` when it is
/// there with a non-string type, `Some(Some(t))` when it is the string
/// `t`.
pub uninterp spec fn content_of(s: Seq<char>) -> Option<Option<Seq<char>>>;

/// The `prefix` member, encoded as [`content_of`] is.
pub uninterp spec fn prefix_of(s: Seq<char>) -> Option<Option<Seq<char>>>;

/// The `suffix` member, encoded as [`content_of`] is.
pub uninterp spec fn suffix_of(s: Seq<char>) -> Option<Option<Seq<char>>>;

/// The `rotate` member: absent, wrongly typed, or present as a boolean.
pub uninterp spec fn rotate_of(s: Seq<char>) -> Option<Option<bool>>;

/// Whether a text's members fit the payload schema: a string `content`
/// is there, and no optional member is there with the wrong type.
pub open spec fn schema_ok(s: Seq<char>) -> bool {
    &&& content_of(s) matches Some(Some(_))
    &&& prefix_of(s) != Some(None::<Seq<char>>)
    &&& suffix_of(s) != Some(None::<Seq<char>>)
    &&& rotate_of(s) != Some(None::<bool>)
}

/// The content a decoded text animates.
pub open spec fn content_view(s: Seq<char>) -> Seq<char> {
    match content_of(s) {
        Some(Some(t)) => t,
        _ => Seq::empty(),
    }
}

/// The payload prefix of a decoded text: empty when absent.
pub open spec fn prefix_view(s: Seq<char>) -> Seq<char> {
    match prefix_of(s) {
        Some(Some(t)) => t,
        _ => Seq::empty(),
    }
}

/// The payload suffix of a decoded text: empty when absent.
pub open spec fn suffix_view(s: Seq<char>) -> Seq<char> {
    match suffix_of(s) {
        Some(Some(t)) => t,
        _ => Seq::empty(),
    }
}

/// The rotation switch of a decoded text: on when absent.
pub open spec fn rotate_view(s: Seq<char>) -> bool {
    match rotate_of(s) {
        Some(Some(b)) => b,
        _ => true,
    }
}

/// The one rejection a text earns, in the order the members are judged:
/// malformed text first, then the missing content, then the first
/// wrongly typed member among `content`, `prefix`, `suffix`, `rotate`.
pub open spec fn rejection_of(s: Seq<char>, e: DecodeError) -> bool {
    if !json_wf(s) {
        e is Malformed
    } else if content_of(s) is None {
        e is MissingContent
    } else if content_of(s) == Some(None::<Seq<char>>) {
        e matches DecodeError::WrongFieldType(f) && f@ == "content"@
    } else if prefix_of(s) == Some(None::<Seq<char>>) {
        e matches DecodeError::WrongFieldType(f) && f@ == "prefix"@
    } else if suffix_of(s) == Some(None::<Seq<char>>) {
        e matches DecodeError::WrongFieldType(f) && f@ == "suffix"@
    } else {
        rotate_of(s) == Some(None::<bool>) && (e matches DecodeError::WrongFieldType(f) && f@
            == "rotate"@)
    }
}

/// Relies on serde_json::from_str::<Value>: it parses exactly the
/// well-formed JSON texts, a verdict on the text alone; the error's
/// rendering reports the parse failure.
#[verifier::external_body]
fn parse_json(s: &str) -> (r: Result<(), String>)
    ensures
        r is Ok <==> json_wf(s@),
{
    match serde_json::from_str::<serde_json::Value>(s) {
        Ok(_) => Ok(()),
        Err(e) => Err(format!("{:?}", e)),
    }
}

/// Relies on serde_json::from_str::<Value>, Value::get and
/// Value::as_str: what the `content` member of a text holds is a
/// function of the text alone, and [`content_of`] names it.
#[verifier::external_body]
fn content_member(s: &str) -> (r: JsonField<String>)
    ensures
        match r {
            JsonField::Absent => content_of(s@) is None,
            JsonField::WrongType => content_of(s@) == Some(None::<Seq<char>>),
            JsonField::Present(t) => content_of(s@) == Some(Some(t@)),
        },
{
    match serde_json::from_str::<serde_json::Value>(s) {
        Ok(v) => match v.get("content") {
            Some(member) => match member.as_str() {
                Some(t) => JsonField::Present(t.to_string()),
                None => JsonField::WrongType,
            },
            None => JsonField::Absent,
        },
        Err(_) => JsonField::Absent,
    }
}

/// Relies on serde_json::from_str::<Value>, Value::get and
/// Value::as_str, as [`content_member`], for the member [`prefix_of`]
/// names.
#[verifier::external_body]
fn prefix_member(s: &str) -> (r: JsonField<String>)
    ensures
        match r {
            JsonField::Absent => prefix_of(s@) is None,
            JsonField::WrongType => prefix_of(s@) == Some(None::<Seq<char>>),
            JsonField::Present(t) => prefix_of(s@) == Some(Some(t@)),
        },
{
    match serde_json::from_str::<serde_json::Value>(s) {
        Ok(v) => match v.get("prefix") {
            Some(member) => match member.as_str() {
                Some(t) => JsonField::Present(t.to_string()),
                None => JsonField::WrongType,
            },
            None => JsonField::Absent,
        },
        Err(_) => JsonField::Absent,
    }
}

/// Relies on serde_json::from_str::<Value>, Value::get and
/// Value::as_str, as [`content_member`], for the member [`suffix_of`]
/// names.
#[verifier::external_body]
fn suffix_member(s: &str) -> (r: JsonField<String>)
    ensures
        match r {
            JsonField::Absent => suffix_of(s@) is None,
            JsonField::WrongType => suffix_of(s@) == Some(None::<Seq<char>>),
            JsonField::Present(t) => suffix_of(s@) == Some(Some(t@)),
        },
{
    match serde_json::from_str::<serde_json::Value>(s) {
        Ok(v) => match v.get("suffix") {
            Some(member) => match member.as_str() {
                Some(t) => JsonField::Present(t.to_string()),
                None => JsonField::WrongType,
            },
            None => JsonField::Absent,
        },
        Err(_) => JsonField::Absent,
    }
}

/// Relies on serde_json::from_str::<Value>, Value::get and
/// Value::as_bool: what the `rotate` member of a text holds is a
/// function of the text alone, and [`rotate_of`] names it.
#[verifier::external_body]
fn rotate_member(s: &str) -> (r: JsonField<bool>)
    ensures
        match r {
            JsonField::Absent => rotate_of(s@) is None,
            JsonField::WrongType => rotate_of(s@) == Some(None::<bool>),
            JsonField::Present(b) => rotate_of(s@) == Some(Some(b)),
        },
{
    match serde_json::from_str::<serde_json::Value>(s) {
        Ok(v) => match v.get("rotate") {
            Some(member) => match member.as_bool() {
                Some(b) => JsonField::Present(b),
                None => JsonField::WrongType,
            },
            None => JsonField::Absent,
        },
        Err(_) => JsonField::Absent,
    }
}

/// Decode one raw text value against the payload schema. The decode
/// succeeds exactly on well-formed JSON whose members fit the schema;
/// the payload's fields are then the named members with their defaults.
/// A failing text earns exactly the rejection [`rejection_of`] states —
/// in particular, the malformed report comes exactly on text that is
/// not well-formed JSON.
pub fn decode_payload(raw: &String) -> (r: Result<Payload, DecodeError>)
    ensures
        r is Ok <==> (json_wf(raw@) && schema_ok(raw@)),
        r matches Ok(p) ==> {
            &&& p.content@ == content_view(raw@)
            &&& p.prefix@ == prefix_view(raw@)
            &&& p.suffix@ == suffix_view(raw@)
            &&& p.rotate == rotate_view(raw@)
        },
        r matches Err(e) ==> rejection_of(raw@, e),
        (r matches Err(e) && e is Malformed) <==> !json_wf(raw@),
{
    match parse_json(raw.as_str()) {
        Err(report) => Err(DecodeError::Malformed(report)),
        Ok(_) => assemble_payload(
            content_member(raw.as_str()),
            prefix_member(raw.as_str()),
            suffix_member(raw.as_str()),
            rotate_member(raw.as_str()),
        ),
    }
}

} // verus!
