//! The structured payload: what one raw text value carries when
//! structured mode is on, and how its fields are filled in from the
//! decoded object.

use vstd::prelude::*;
use vstd::string::StringExecFns;

verus! {

/// One decoded structured value: the text to animate plus its own
/// decorations and rotation switch.
pub struct Payload {
    /// Put before the content, outside the static prefix.
    pub prefix: String,
    /// The text the window animates over.
    pub content: String,
    /// Put after the content, inside the static suffix.
    pub suffix: String,
    /// Whether the cursor may advance for this value.
    pub rotate: bool,
}

/// A function which returns true: the default of `rotate` when the field
/// is absent.
pub fn default_true() -> (r: bool)
    ensures
        r,
{
    true
}

/// Why decoding a structured value failed.
#[derive(Debug)]
pub enum DecodeError {
    /// The value is not well-formed JSON; carries the parser's report.
    Malformed(String),
    /// The value is JSON, but no `content` field is present.
    MissingContent,
    /// The named field is present with the wrong type.
    WrongFieldType(String),
}

impl DecodeError {
    /// A printable description of the failure.
    pub fn describe(&self) -> (r: String)
        ensures
            self matches DecodeError::Malformed(m) ==> r@ == "malformed JSON: "@ + m@,
            self is MissingContent ==> r@ == "missing required field content"@,
            self matches DecodeError::WrongFieldType(f) ==> r@ == "wrong type for field "@ + f@,
    {
        match self {
            DecodeError::Malformed(m) => {
                let mut out = String::from_str("malformed JSON: ");
                out.append(m.as_str());
                out
            },
            DecodeError::MissingContent => String::from_str("missing required field content"),
            DecodeError::WrongFieldType(f) => {
                let mut out = String::from_str("wrong type for field ");
                out.append(f.as_str());
                out
            },
        }
    }
}

/// One field of the structured value, as found in the raw JSON object.
pub enum JsonField<T> {
    /// The object has no such field.
    Absent,
    /// The field is there with the expected type.
    Present(T),
    /// The field is there with some other type.
    WrongType,
}

/// Build the payload from the four fields of the decoded object:
/// `content` is required as a string; `prefix` and `suffix` default to
/// the empty string; `rotate` defaults to true. A field of the wrong
/// type rejects the whole value; the fields are judged in the order
/// `content`, `prefix`, `suffix`, `rotate`.
pub fn assemble_payload(
    content: JsonField<String>,
    prefix: JsonField<String>,
    suffix: JsonField<String>,
    rotate: JsonField<bool>,
) -> (r: Result<Payload, DecodeError>)
    ensures
        r is Ok <==> (content is Present && !(prefix is WrongType) && !(suffix is WrongType) && !(
        rotate is WrongType)),
        r matches Ok(p) ==> {
            &&& content matches JsonField::Present(c) && p.content@ == c@
            &&& p.prefix@ == (match prefix {
                JsonField::Present(s) => s@,
                _ => Seq::<char>::empty(),
            })
            &&& p.suffix@ == (match suffix {
                JsonField::Present(s) => s@,
                _ => Seq::<char>::empty(),
            })
            &&& p.rotate == (match rotate {
                JsonField::Present(b) => b,
                _ => true,
            })
        },
        content is WrongType ==> (r matches Err(DecodeError::WrongFieldType(f)) && f@
            == "content"@),
        content is Absent ==> (r matches Err(e) && e is MissingContent),
        content is Present && prefix is WrongType ==> (r matches Err(DecodeError::WrongFieldType(f))
            && f@ == "prefix"@),
        content is Present && !(prefix is WrongType) && suffix is WrongType ==> (r matches Err(
            DecodeError::WrongFieldType(f),
        ) && f@ == "suffix"@),
        content is Present && !(prefix is WrongType) && !(suffix is WrongType) && rotate
            is WrongType ==> (r matches Err(DecodeError::WrongFieldType(f)) && f@ == "rotate"@),
{
    let c: String = match content {
        JsonField::Present(s) => s,
        JsonField::Absent => {
            return Err(DecodeError::MissingContent);
        },
        JsonField::WrongType => {
            return Err(DecodeError::WrongFieldType(String::from_str("content")));
        },
    };
    let pfx: String = match prefix {
        JsonField::Present(s) => s,
        JsonField::Absent => String::new(),
        JsonField::WrongType => {
            return Err(DecodeError::WrongFieldType(String::from_str("prefix")));
        },
    };
    let sfx: String = match suffix {
        JsonField::Present(s) => s,
        JsonField::Absent => String::new(),
        JsonField::WrongType => {
            return Err(DecodeError::WrongFieldType(String::from_str("suffix")));
        },
    };
    let rot: bool = match rotate {
        JsonField::Present(b) => b,
        JsonField::Absent => default_true(),
        JsonField::WrongType => {
            return Err(DecodeError::WrongFieldType(String::from_str("rotate")));
        },
    };
    Ok(Payload { prefix: pfx, content: c, suffix: sfx, rotate: rot })
}

} // verus!
