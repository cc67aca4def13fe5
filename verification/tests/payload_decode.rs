//! Decoding raw values against the payload schema, with the real JSON
//! parser linked in.

use marquee::decode::decode_payload;
use marquee::payload::assemble_payload;
use marquee::payload::default_true;
use marquee::payload::DecodeError;
use marquee::payload::JsonField;

fn s(t: &str) -> String {
    t.to_string()
}

#[test]
fn default_true_returns_true() {
    assert!(default_true());
}

#[test]
fn assemble_fills_the_defaults() {
    let r = assemble_payload(
        JsonField::Present(s("hey")),
        JsonField::Absent,
        JsonField::Absent,
        JsonField::Absent,
    );
    let p = r.unwrap();
    assert_eq!(p.prefix, "");
    assert_eq!(p.content, "hey");
    assert_eq!(p.suffix, "");
    assert!(p.rotate);
}

#[test]
fn assemble_keeps_present_fields() {
    let r = assemble_payload(
        JsonField::Present(s("c")),
        JsonField::Present(s("p")),
        JsonField::Present(s("x")),
        JsonField::Present(false),
    );
    let p = r.unwrap();
    assert_eq!(p.prefix, "p");
    assert_eq!(p.content, "c");
    assert_eq!(p.suffix, "x");
    assert!(!p.rotate);
}

#[test]
fn assemble_requires_content() {
    let r = assemble_payload(
        JsonField::<String>::Absent,
        JsonField::Present(s("p")),
        JsonField::Absent,
        JsonField::Absent,
    );
    assert!(matches!(r, Err(DecodeError::MissingContent)));
}

#[test]
fn assemble_rejects_wrong_types_by_field() {
    let r = assemble_payload(
        JsonField::<String>::WrongType,
        JsonField::Absent,
        JsonField::Absent,
        JsonField::Absent,
    );
    match r {
        Err(DecodeError::WrongFieldType(f)) => assert_eq!(f, "content"),
        _ => panic!("expected a wrong-type rejection"),
    }
    let r = assemble_payload(
        JsonField::Present(s("c")),
        JsonField::Absent,
        JsonField::WrongType,
        JsonField::WrongType,
    );
    match r {
        Err(DecodeError::WrongFieldType(f)) => assert_eq!(f, "suffix"),
        _ => panic!("expected a wrong-type rejection"),
    }
}

#[test]
fn decode_reads_the_schema() {
    let r = decode_payload(&s("{\"content\":\"hello\",\"rotate\":false}"));
    let p = r.unwrap();
    assert_eq!(p.content, "hello");
    assert_eq!(p.prefix, "");
    assert_eq!(p.suffix, "");
    assert!(!p.rotate);
}

#[test]
fn decode_takes_all_four_fields() {
    let r = decode_payload(&s(
        "{\"prefix\":\"* \",\"content\":\"abc\",\"suffix\":\"!\",\"rotate\":true}",
    ));
    let p = r.unwrap();
    assert_eq!(p.prefix, "* ");
    assert_eq!(p.content, "abc");
    assert_eq!(p.suffix, "!");
    assert!(p.rotate);
}

#[test]
fn decode_rejects_malformed_text() {
    let r = decode_payload(&s("{not json}"));
    assert!(matches!(r, Err(DecodeError::Malformed(_))));
}

#[test]
fn decode_reports_missing_content() {
    let r = decode_payload(&s("{\"prefix\":\"p\"}"));
    assert!(matches!(r, Err(DecodeError::MissingContent)));
    // well-formed JSON that is no object has no content member either
    let r = decode_payload(&s("5"));
    assert!(matches!(r, Err(DecodeError::MissingContent)));
}

#[test]
fn decode_reports_wrong_member_types() {
    let r = decode_payload(&s("{\"content\":5}"));
    match r {
        Err(DecodeError::WrongFieldType(f)) => assert_eq!(f, "content"),
        _ => panic!("expected a wrong-type rejection"),
    }
    let r = decode_payload(&s("{\"content\":\"x\",\"rotate\":\"yes\"}"));
    match r {
        Err(DecodeError::WrongFieldType(f)) => assert_eq!(f, "rotate"),
        _ => panic!("expected a wrong-type rejection"),
    }
}

#[test]
fn decode_ignores_unknown_members() {
    let r = decode_payload(&s("{\"content\":\"x\",\"other\":[1,2,{\"a\":null}]}"));
    let p = r.unwrap();
    assert_eq!(p.content, "x");
    assert!(p.rotate);
}

#[test]
fn describe_names_the_failure() {
    assert_eq!(
        DecodeError::MissingContent.describe(),
        "missing required field content"
    );
    assert_eq!(
        DecodeError::WrongFieldType(s("rotate")).describe(),
        "wrong type for field rotate"
    );
    assert_eq!(
        DecodeError::Malformed(s("boom")).describe(),
        "malformed JSON: boom"
    );
}
