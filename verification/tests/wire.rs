//! The serialization boundary: what is emitted, what is read back, and the
//! round trip.

use caseless_text::AsciiRef;
use caseless_text::AsciiText;
use caseless_text::CaselessRef;
use caseless_text::CaselessText;
use caseless_text::wire::deserialize_ascii;
use caseless_text::wire::deserialize_ascii_borrowed;
use caseless_text::wire::deserialize_caseless;
use caseless_text::wire::deserialize_caseless_borrowed;
use caseless_text::wire::serialize_ascii;
use caseless_text::wire::serialize_caseless;

#[test]
fn test_serialize_ascii_str() {
    let ascii = AsciiText::new(String::from("hello world"));

    assert_eq!(serialize_ascii(&ascii), "hello world");
}

#[test]
fn test_serialize_ascii_string() {
    let ascii = AsciiText::new(String::from("hello world"));

    assert_eq!(serialize_ascii(&ascii), String::from("hello world"));
}

#[test]
fn test_serialize_unicase_str() {
    let uc = CaselessText::new(String::from("hello world"));

    assert_eq!(serialize_caseless(&uc), "hello world");
}

#[test]
fn test_serialize_unicase_string() {
    let uc = CaselessText::new(String::from("hello world"));

    assert_eq!(serialize_caseless(&uc), String::from("hello world"));
}

#[test]
fn test_deserialize_ascii_str() {
    let ascii = AsciiRef::new("hello world");
    let read = deserialize_ascii_borrowed("hello world");

    assert!(read.equals(&ascii));
    assert_eq!(read.unwrap(), "hello world");
}

#[test]
fn test_deserialize_ascii_string() {
    let ascii = AsciiText::new(String::from("hello world"));
    let read = deserialize_ascii(String::from("hello world"));

    assert!(read.equals(&ascii));
    assert_eq!(read.as_str(), "hello world");
}

#[test]
fn test_deserialize_unicase_str() {
    let unicase = CaselessRef::new("hello world");
    let read = deserialize_caseless_borrowed("hello world");

    assert!(read.equals(&unicase));
    assert_eq!(read.unwrap(), "hello world");
}

#[test]
fn test_deserialize_unicase_string() {
    let unicase = CaselessText::new(String::from("hello world"));
    let read = deserialize_caseless(String::from("hello world"));

    assert!(read.equals(&unicase));
    assert_eq!(read.as_str(), "hello world");
}

#[test]
fn serialize_preserves_case_exactly() {
    let uc = CaselessText::new(String::from("Hello World"));
    assert_eq!(serialize_caseless(&uc), "Hello World");

    let ascii = AsciiText::new(String::from("MiXeD CaSe"));
    assert_eq!(serialize_ascii(&ascii), "MiXeD CaSe");
}

#[test]
fn round_trip_is_byte_identical() {
    for s in ["Hello World", "", "İstanbul", "ÐÐÐ", "a\u{0}b", "ßss"] {
        let x = CaselessText::new(String::from(s));
        let wire = serialize_caseless(&x);
        let y = deserialize_caseless(wire);
        assert_eq!(y.as_str(), s);
        assert!(y.equals(&x));
        assert!(x.equals(&y));

        let a = AsciiText::new(String::from(s));
        let wire = serialize_ascii(&a);
        let b = deserialize_ascii(wire);
        assert_eq!(b.as_str(), s);
        assert!(b.equals(&a));
    }
}

#[test]
fn borrowed_deserialization_is_zero_copy() {
    let source = String::from("hello world");
    let read = deserialize_caseless_borrowed(source.as_str());
    assert!(read.is_ascii_variant());
    let view = read.unwrap();
    assert_eq!(view.as_ptr(), source.as_ptr());
    assert_eq!(view.len(), source.len());

    let read = deserialize_ascii_borrowed(source.as_str());
    let view = read.unwrap();
    assert_eq!(view.as_ptr(), source.as_ptr());
    assert_eq!(view, "hello world");
}

#[test]
fn round_trip_through_forced_unicode_variant() {
    let x = CaselessText::new_unicode(String::from("plain ascii"));
    let wire = serialize_caseless(&x);
    let y = deserialize_caseless(wire);
    assert_eq!(y.as_str(), "plain ascii");
    assert!(y.is_ascii_variant());
    assert!(y.equals(&x));
}
