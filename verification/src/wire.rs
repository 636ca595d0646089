//! The computing half of the serialization boundary.
//!
//! Serialization always emits the original, unfolded text as one string
//! primitive; deserialization takes the one string primitive the framework
//! produced and constructs a wrapper through the same classification used by
//! direct construction. The framework itself — reading a wire format,
//! reporting malformed input — stays outside the library; it hands a plain
//! string in and takes a plain string out.

use vstd::prelude::*;
use vstd::utf8::is_ascii_chars;

use crate::ascii::AsciiText;
use crate::borrowed::AsciiRef;
use crate::borrowed::CaselessRef;
use crate::fold::ascii_equiv;
use crate::text::CaselessText;
use crate::text::caseless_equals_spec;
use crate::text::lemma_same_text_equals;

verus! {

/// The string primitive an `AsciiText` serializes to: its original text,
/// exactly as stored, never a folded form.
pub fn serialize_ascii(value: &AsciiText) -> (r: String)
    ensures
        r@ == value@,
{
    String::from_str(value.as_str())
}

/// The string primitive a `CaselessText` serializes to: the original text
/// from whichever variant holds it, bypassing the fold entirely.
pub fn serialize_caseless(value: &CaselessText) -> (r: String)
    ensures
        r@ == value.text(),
{
    String::from_str(value.as_str())
}

/// Constructs an `AsciiText` from the string primitive the framework
/// produced: exactly the direct construction, with no fold and no
/// validation beyond it.
pub fn deserialize_ascii(text: String) -> (r: AsciiText)
    ensures
        r@ == text@,
{
    AsciiText::new(text)
}

/// Constructs a `CaselessText` from the string primitive the framework
/// produced: exactly the direct construction, classification included.
pub fn deserialize_caseless(text: String) -> (r: CaselessText)
    ensures
        r.text() == text@,
        r.ascii_tagged() <==> is_ascii_chars(text@),
        r.wf(),
{
    CaselessText::new(text)
}

/// Constructs an `AsciiRef` over the borrowed view the framework lent:
/// the zero-copy counterpart of the owned construction.
pub fn deserialize_ascii_borrowed<'a>(text: &'a str) -> (r: AsciiRef<'a>)
    ensures
        r@ == text@,
{
    AsciiRef::new(text)
}

/// Constructs a `CaselessRef` over the borrowed view the framework lent:
/// the zero-copy counterpart of the owned construction, classification
/// included.
pub fn deserialize_caseless_borrowed<'a>(text: &'a str) -> (r: CaselessRef<'a>)
    ensures
        r.text() == text@,
        r.ascii_tagged() <==> is_ascii_chars(text@),
        r.wf(),
{
    CaselessRef::new(text)
}

/// The round trip through the wire preserves an `AsciiText` exactly: with
/// `w` the emitted string primitive and `y` the wrapper read back from it,
/// the unfolded text of `y` is byte-identical to the original's, and the
/// two wrappers are case-insensitively equal.
pub proof fn lemma_wire_round_trip_ascii(x: AsciiText, w: Seq<char>, y: AsciiText)
    requires
        w == x@,
        y@ == w,
    ensures
        y@ == x@,
        ascii_equiv(y@, x@),
{
}

/// The round trip through the wire preserves a `CaselessText` exactly: with
/// `w` the emitted string primitive and `y` the wrapper read back from it,
/// the unfolded text of `y` is byte-identical to the original's, and the
/// two wrappers are `equals`, whatever tag each carries.
pub proof fn lemma_wire_round_trip_caseless(x: CaselessText, w: Seq<char>, y: CaselessText)
    requires
        w == x.text(),
        y.text() == w,
    ensures
        y.text() == x.text(),
        caseless_equals_spec(y, x),
{
    lemma_same_text_equals(y.ascii_tagged(), x.ascii_tagged(), x.text());
}

} // verus!
