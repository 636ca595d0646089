//! The borrowed counterparts of the two wrappers.
//!
//! Each wrapper exists in an owned form, over a `String`, and in this
//! borrowed form, over a `&str`, so that a caller reading from a buffer it
//! does not own — a deserializer lending a view into its input, say — can
//! construct a wrapper without copying the text. The equivalence relation,
//! the ordering and the hash are the same as the owned forms'.

use vstd::prelude::*;
use vstd::utf8::is_ascii_chars;

use crate::fold::ascii_equiv;
use crate::fold::ascii_fold_seq;
use crate::fold::unicode_fold;
use crate::fold::unicode_fold_seq;
use crate::hashing::fnv_hash_seq;
use crate::hashing::fnv_str;
use crate::order::TextOrdering;
use crate::order::cmp_chars;
use crate::order::lex_cmp;
use crate::order::lemma_lex_cmp_equal_iff;
use crate::text::caseless_cmp_rel;
use crate::text::caseless_equals_rel;
use crate::text::caseless_hash_rel;
use crate::text::tag_wf;

verus! {

/// The borrowed form of the ASCII-only wrapper: a view into text someone
/// else owns, compared, ordered and hashed by its ASCII fold.
pub struct AsciiRef<'a> {
    text: &'a str,
}

impl<'a> View for AsciiRef<'a> {
    type V = Seq<char>;

    closed spec fn view(&self) -> Seq<char> {
        self.text@
    }
}

impl<'a> AsciiRef<'a> {
    /// Wraps a borrowed string as it stands; nothing is validated, nothing
    /// is copied.
    pub fn new(text: &'a str) -> (r: AsciiRef<'a>)
        ensures
            r@ == text@,
    {
        AsciiRef { text }
    }

    /// Returns the borrowed view itself, unfolded: the same borrow the
    /// wrapper was built over.
    pub fn unwrap(self) -> (r: &'a str)
        ensures
            r@ == self@,
    {
        self.text
    }

    /// A read-only view of the original text.
    pub fn as_str(&self) -> (r: &'a str)
        ensures
            r@ == self@,
    {
        self.text
    }

    /// True exactly when the two ASCII folds are the same sequence.
    pub fn equals(&self, other: &AsciiRef<'_>) -> (r: bool)
        ensures
            r == ascii_equiv(self@, other@),
    {
        let c = cmp_chars(self.text, other.text, true);
        proof {
            lemma_lex_cmp_equal_iff(ascii_fold_seq(self@), ascii_fold_seq(other@));
        }
        c.is_equal()
    }

    /// Lexicographic comparison of the two ASCII folds by code point.
    pub fn compare(&self, other: &AsciiRef<'_>) -> (r: TextOrdering)
        ensures
            r == lex_cmp(ascii_fold_seq(self@), ascii_fold_seq(other@)),
    {
        cmp_chars(self.text, other.text, true)
    }

    /// The hash of the ASCII fold, the same hash the owned form computes.
    pub fn hash(&self) -> (r: u64)
        ensures
            r == fnv_hash_seq(ascii_fold_seq(self@)),
    {
        fnv_str(self.text, true)
    }
}

/// The tagged representation behind `CaselessRef`, the borrowed twin of the
/// owned one: chosen once, at construction, never revisited.
pub(crate) enum EncodingRef<'a> {
    AsciiVariant(AsciiRef<'a>),
    UnicodeVariant(&'a str),
}

/// The borrowed form of the general case-insensitive wrapper: a view into
/// text someone else owns, classified once at construction exactly as the
/// owned form classifies, with the same fold dispatch afterwards.
pub struct CaselessRef<'a> {
    inner: EncodingRef<'a>,
}

impl<'a> CaselessRef<'a> {
    /// The characters of the borrowed text.
    pub closed spec fn text(self) -> Seq<char> {
        match self.inner {
            EncodingRef::AsciiVariant(a) => a@,
            EncodingRef::UnicodeVariant(t) => t@,
        }
    }

    /// True when the value carries the ASCII tag.
    pub closed spec fn ascii_tagged(self) -> bool {
        self.inner is AsciiVariant
    }

    /// Well-formedness: the ASCII tag is only ever carried by ASCII-only
    /// text.
    pub open spec fn wf(self) -> bool {
        tag_wf(self.ascii_tagged(), self.text())
    }

    /// Classifies the borrowed text once and keeps the borrow unchanged
    /// under the matching tag. Never fails, and never copies.
    pub fn new(text: &'a str) -> (r: CaselessRef<'a>)
        ensures
            r.text() == text@,
            r.ascii_tagged() <==> is_ascii_chars(text@),
            r.wf(),
    {
        if text.is_ascii() {
            CaselessRef { inner: EncodingRef::AsciiVariant(AsciiRef::new(text)) }
        } else {
            CaselessRef { inner: EncodingRef::UnicodeVariant(text) }
        }
    }

    /// Keeps the borrow unchanged under the Unicode tag, whatever its
    /// content.
    pub fn new_unicode(text: &'a str) -> (r: CaselessRef<'a>)
        ensures
            r.text() == text@,
            !r.ascii_tagged(),
            r.wf(),
    {
        CaselessRef { inner: EncodingRef::UnicodeVariant(text) }
    }

    /// Returns the borrowed view itself, unfolded, from whichever variant
    /// holds it.
    pub fn unwrap(self) -> (r: &'a str)
        ensures
            r@ == self.text(),
    {
        match self.inner {
            EncodingRef::AsciiVariant(a) => a.unwrap(),
            EncodingRef::UnicodeVariant(t) => t,
        }
    }

    /// A read-only view of the original text.
    pub fn as_str(&self) -> (r: &'a str)
        ensures
            r@ == self.text(),
    {
        match &self.inner {
            EncodingRef::AsciiVariant(a) => a.as_str(),
            EncodingRef::UnicodeVariant(t) => t,
        }
    }

    /// True when the value carries the ASCII tag.
    pub fn is_ascii_variant(&self) -> (r: bool)
        ensures
            r == self.ascii_tagged(),
    {
        matches!(&self.inner, EncodingRef::AsciiVariant(_))
    }

    /// True exactly when the two folded texts are the same sequence, with
    /// the same dispatch as the owned form: the ASCII fold between two
    /// ASCII-tagged values, the full Unicode fold in every other pairing.
    pub fn equals(&self, other: &CaselessRef<'_>) -> (r: bool)
        ensures
            r == caseless_equals_rel(
                self.ascii_tagged(),
                self.text(),
                other.ascii_tagged(),
                other.text(),
            ),
    {
        match (&self.inner, &other.inner) {
            (EncodingRef::AsciiVariant(a), EncodingRef::AsciiVariant(b)) => a.equals(b),
            _ => {
                let fa = unicode_fold(self.as_str());
                let fb = unicode_fold(other.as_str());
                let c = cmp_chars(fa.as_str(), fb.as_str(), false);
                proof {
                    lemma_lex_cmp_equal_iff(
                        unicode_fold_seq(self.text()),
                        unicode_fold_seq(other.text()),
                    );
                }
                c.is_equal()
            },
        }
    }

    /// Lexicographic comparison of the folded texts by code point, with the
    /// same dispatch as `equals`.
    pub fn compare(&self, other: &CaselessRef<'_>) -> (r: TextOrdering)
        ensures
            r == caseless_cmp_rel(
                self.ascii_tagged(),
                self.text(),
                other.ascii_tagged(),
                other.text(),
            ),
    {
        match (&self.inner, &other.inner) {
            (EncodingRef::AsciiVariant(a), EncodingRef::AsciiVariant(b)) => a.compare(b),
            _ => {
                let fa = unicode_fold(self.as_str());
                let fb = unicode_fold(other.as_str());
                cmp_chars(fa.as_str(), fb.as_str(), false)
            },
        }
    }

    /// The hash of the value's own folded text, the same hash the owned
    /// form computes for the same text under the same tag.
    pub fn hash(&self) -> (r: u64)
        ensures
            r == caseless_hash_rel(self.ascii_tagged(), self.text()),
    {
        match &self.inner {
            EncodingRef::AsciiVariant(a) => a.hash(),
            EncodingRef::UnicodeVariant(t) => {
                let f = unicode_fold(t);
                fnv_str(f.as_str(), false)
            },
        }
    }
}

} // verus!
