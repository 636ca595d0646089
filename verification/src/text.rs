//! The general case-insensitive wrapper and its tagged representation.

use vstd::prelude::*;
use vstd::utf8::is_ascii_chars;

use crate::ascii::AsciiText;
use crate::fold::ascii_fold_seq;
use crate::fold::unicode_fold;
use crate::fold::unicode_fold_seq;
use crate::hashing::fnv_hash_seq;
use crate::hashing::fnv_str;
use crate::order::TextOrdering;
use crate::order::cmp_chars;
use crate::order::lex_cmp;
use crate::order::lemma_lex_cmp_equal_iff;
use crate::order::lemma_lex_cmp_flip;
use crate::order::lemma_lex_cmp_transitive;

verus! {

/// The tagged representation behind `CaselessText`: the variant is chosen
/// once, at construction, by scanning the text for non-ASCII content, and
/// never revisited.
pub(crate) enum Encoding {
    AsciiVariant(AsciiText),
    UnicodeVariant(String),
}

impl Encoding {
    /// The characters of the stored text, from whichever variant holds it.
    pub closed spec fn text(self) -> Seq<char> {
        match self {
            Encoding::AsciiVariant(a) => a@,
            Encoding::UnicodeVariant(t) => t@,
        }
    }

    /// True on the ASCII-tagged variant.
    pub closed spec fn is_ascii_variant(self) -> bool {
        self is AsciiVariant
    }
}

/// Scans every character of the text once: all below `0x80` selects the
/// ASCII-tagged variant, anything else the Unicode-tagged one. The text
/// itself is stored unchanged either way.
pub(crate) fn classify(text: String) -> (r: Encoding)
    ensures
        r.is_ascii_variant() <==> is_ascii_chars(text@),
        r.text() == text@,
{
    if text.as_str().is_ascii() {
        Encoding::AsciiVariant(AsciiText::new(text))
    } else {
        Encoding::UnicodeVariant(text)
    }
}

/// The general-purpose case-insensitive wrapper. At construction the text is
/// classified once as ASCII-only or not; every comparison, ordering and hash
/// then dispatches on that tag: the ASCII fold on the fast path, the full
/// Unicode case fold otherwise. The stored text is never changed.
pub struct CaselessText {
    inner: Encoding,
}

impl CaselessText {
    /// The characters of the stored text.
    pub closed spec fn text(self) -> Seq<char> {
        self.inner.text()
    }

    /// True when the value carries the ASCII tag.
    pub closed spec fn ascii_tagged(self) -> bool {
        self.inner.is_ascii_variant()
    }

    /// Well-formedness: the ASCII tag is only ever carried by ASCII-only
    /// text. Construction by classification establishes this; the forced
    /// Unicode constructor cannot break it.
    pub open spec fn wf(self) -> bool {
        tag_wf(self.ascii_tagged(), self.text())
    }

    /// Classifies the text once and stores it unchanged under the matching
    /// tag. Never fails, whatever the content.
    pub fn new(text: String) -> (r: CaselessText)
        ensures
            r.text() == text@,
            r.ascii_tagged() <==> is_ascii_chars(text@),
            r.wf(),
    {
        CaselessText { inner: classify(text) }
    }

    /// Stores the text unchanged under the Unicode tag, whatever its
    /// content: the comparison path that folds by the full Unicode mapping
    /// is then always taken.
    pub fn new_unicode(text: String) -> (r: CaselessText)
        ensures
            r.text() == text@,
            !r.ascii_tagged(),
            r.wf(),
    {
        CaselessText { inner: Encoding::UnicodeVariant(text) }
    }

    /// Returns the original stored text, unfolded, from whichever variant
    /// holds it.
    pub fn unwrap(self) -> (r: String)
        ensures
            r@ == self.text(),
    {
        match self.inner {
            Encoding::AsciiVariant(a) => a.unwrap(),
            Encoding::UnicodeVariant(t) => t,
        }
    }

    /// A read-only view of the original stored text.
    pub fn as_str(&self) -> (r: &str)
        ensures
            r@ == self.text(),
    {
        match &self.inner {
            Encoding::AsciiVariant(a) => a.as_str(),
            Encoding::UnicodeVariant(t) => t.as_str(),
        }
    }

    /// True when the value carries the ASCII tag; the tag was fixed at
    /// construction and never changes.
    pub fn is_ascii_variant(&self) -> (r: bool)
        ensures
            r == self.ascii_tagged(),
    {
        matches!(&self.inner, Encoding::AsciiVariant(_))
    }

    /// True exactly when the two folded texts are the same sequence. Two
    /// ASCII-tagged values are folded by the ASCII rule; in every other
    /// pairing both operands are folded by the full Unicode mapping, even
    /// when one of them is ASCII-tagged.
    pub fn equals(&self, other: &CaselessText) -> (r: bool)
        ensures
            r == caseless_equals_spec(*self, *other),
    {
        match (&self.inner, &other.inner) {
            (Encoding::AsciiVariant(a), Encoding::AsciiVariant(b)) => a.equals(b),
            _ => {
                let fa = unicode_fold(self.as_str());
                let fb = unicode_fold(other.as_str());
                let c = cmp_chars(fa.as_str(), fb.as_str(), false);
                proof {
                    lemma_lex_cmp_equal_iff(
                        unicode_fold_seq(self.text()),
                        unicode_fold_seq(other.text()),
                    );
                }
                c.is_equal()
            },
        }
    }

    /// Lexicographic comparison of the folded texts by code point, with the
    /// same dispatch as `equals`: a total order whose equal rank agrees
    /// exactly with `equals`.
    pub fn compare(&self, other: &CaselessText) -> (r: TextOrdering)
        ensures
            r == caseless_cmp_spec(*self, *other),
    {
        match (&self.inner, &other.inner) {
            (Encoding::AsciiVariant(a), Encoding::AsciiVariant(b)) => a.compare(b),
            _ => {
                let fa = unicode_fold(self.as_str());
                let fb = unicode_fold(other.as_str());
                cmp_chars(fa.as_str(), fb.as_str(), false)
            },
        }
    }

    /// The hash of the value's own folded text: the ASCII fold under the
    /// ASCII tag, the full Unicode fold otherwise.
    pub fn hash(&self) -> (r: u64)
        ensures
            r == caseless_hash_spec(*self),
    {
        match &self.inner {
            Encoding::AsciiVariant(a) => a.hash(),
            Encoding::UnicodeVariant(t) => {
                let f = unicode_fold(t.as_str());
                fnv_str(f.as_str(), false)
            },
        }
    }
}

/// The case-insensitive equivalence relation, over the operands' tags and
/// texts: the folded texts are the same sequence, the fold being the ASCII
/// one when both operands carry the ASCII tag and the full Unicode one
/// otherwise. Both the owned and the borrowed wrapper compare by this
/// relation.
pub open spec fn caseless_equals_rel(
    a_tag: bool,
    a: Seq<char>,
    b_tag: bool,
    b: Seq<char>,
) -> bool {
    if a_tag && b_tag {
        ascii_fold_seq(a) == ascii_fold_seq(b)
    } else {
        unicode_fold_seq(a) == unicode_fold_seq(b)
    }
}

/// The case-insensitive ordering, over the operands' tags and texts: the
/// folded texts compared lexicographically by code point, with the same
/// per-pair fold choice as the equivalence relation.
pub open spec fn caseless_cmp_rel(
    a_tag: bool,
    a: Seq<char>,
    b_tag: bool,
    b: Seq<char>,
) -> TextOrdering {
    if a_tag && b_tag {
        lex_cmp(ascii_fold_seq(a), ascii_fold_seq(b))
    } else {
        lex_cmp(unicode_fold_seq(a), unicode_fold_seq(b))
    }
}

/// The hash of one tagged text: the hash accumulator fed with the value's
/// own folded text.
pub open spec fn caseless_hash_rel(tag: bool, s: Seq<char>) -> u64 {
    if tag {
        fnv_hash_seq(ascii_fold_seq(s))
    } else {
        fnv_hash_seq(unicode_fold_seq(s))
    }
}

/// Well-formedness of one tagged text: the ASCII tag is only ever carried
/// by ASCII-only text.
pub open spec fn tag_wf(tag: bool, s: Seq<char>) -> bool {
    tag ==> is_ascii_chars(s)
}

/// The equivalence relation of `CaselessText`.
pub open spec fn caseless_equals_spec(a: CaselessText, b: CaselessText) -> bool {
    caseless_equals_rel(a.ascii_tagged(), a.text(), b.ascii_tagged(), b.text())
}

/// The ordering of `CaselessText`.
pub open spec fn caseless_cmp_spec(a: CaselessText, b: CaselessText) -> TextOrdering {
    caseless_cmp_rel(a.ascii_tagged(), a.text(), b.ascii_tagged(), b.text())
}

/// The hash of a `CaselessText`.
pub open spec fn caseless_hash_spec(a: CaselessText) -> u64 {
    caseless_hash_rel(a.ascii_tagged(), a.text())
}

/// Comparison and equality agree: two values compare `Equal` exactly when
/// they are `equals`, whatever pair of tags they carry.
pub proof fn lemma_compare_equals_agree(a_tag: bool, a: Seq<char>, b_tag: bool, b: Seq<char>)
    ensures
        caseless_cmp_rel(a_tag, a, b_tag, b) == TextOrdering::Equal <==> caseless_equals_rel(
            a_tag,
            a,
            b_tag,
            b,
        ),
{
    if a_tag && b_tag {
        lemma_lex_cmp_equal_iff(ascii_fold_seq(a), ascii_fold_seq(b));
    } else {
        lemma_lex_cmp_equal_iff(unicode_fold_seq(a), unicode_fold_seq(b));
    }
}

/// Comparison is reflexive: every value compares `Equal` to itself.
pub proof fn lemma_compare_reflexive(tag: bool, s: Seq<char>)
    ensures
        caseless_cmp_rel(tag, s, tag, s) == TextOrdering::Equal,
{
    lemma_compare_equals_agree(tag, s, tag, s);
}

/// Comparison is antisymmetric: exchanging the operands flips the outcome,
/// whatever pair of tags they carry.
pub proof fn lemma_compare_antisymmetric(a_tag: bool, a: Seq<char>, b_tag: bool, b: Seq<char>)
    ensures
        caseless_cmp_rel(b_tag, b, a_tag, a) == caseless_cmp_rel(a_tag, a, b_tag, b).flip(),
{
    if a_tag && b_tag {
        lemma_lex_cmp_flip(ascii_fold_seq(a), ascii_fold_seq(b));
    } else {
        lemma_lex_cmp_flip(unicode_fold_seq(a), unicode_fold_seq(b));
    }
}

/// Comparison is transitive over every triple whose three pairwise
/// comparisons dispatch to the same fold — all three values ASCII-tagged, or
/// at most one of them so, which covers every triple drawn from values of
/// one tag and every triple with at most one ASCII-tagged member.
pub proof fn lemma_compare_transitive(
    a_tag: bool,
    a: Seq<char>,
    b_tag: bool,
    b: Seq<char>,
    c_tag: bool,
    c: Seq<char>,
)
    requires
        (a_tag && b_tag) == (b_tag && c_tag),
        (b_tag && c_tag) == (a_tag && c_tag),
        caseless_cmp_rel(a_tag, a, b_tag, b) == TextOrdering::Less,
        caseless_cmp_rel(b_tag, b, c_tag, c) == TextOrdering::Less,
    ensures
        caseless_cmp_rel(a_tag, a, c_tag, c) == TextOrdering::Less,
{
    if a_tag && b_tag {
        lemma_lex_cmp_transitive(ascii_fold_seq(a), ascii_fold_seq(b), ascii_fold_seq(c));
    } else {
        lemma_lex_cmp_transitive(unicode_fold_seq(a), unicode_fold_seq(b), unicode_fold_seq(c));
    }
}

/// Values that agree on the fold dispatch and are `equals` hash alike. Both
/// ASCII-tagged, the hash is the hash of the shared ASCII fold; both
/// Unicode-tagged, of the shared Unicode fold.
pub proof fn lemma_equals_hash(a_tag: bool, a: Seq<char>, b_tag: bool, b: Seq<char>)
    requires
        a_tag == b_tag,
        caseless_equals_rel(a_tag, a, b_tag, b),
    ensures
        caseless_hash_rel(a_tag, a) == caseless_hash_rel(b_tag, b),
{
}

/// Under the tested agreement of the two folds on ASCII text, `equals`
/// well-formed values hash alike whatever pair of tags they carry: an
/// ASCII-tagged value holds ASCII text, so its own fold and the fold the
/// mixed pairing dispatched to are the same sequence.
pub proof fn lemma_equals_hash_cross_variant(a_tag: bool, a: Seq<char>, b_tag: bool, b: Seq<char>)
    requires
        tag_wf(a_tag, a),
        tag_wf(b_tag, b),
        crate::fold::folds_agree_on(a),
        crate::fold::folds_agree_on(b),
        caseless_equals_rel(a_tag, a, b_tag, b),
    ensures
        caseless_hash_rel(a_tag, a) == caseless_hash_rel(b_tag, b),
{
}

/// Under the tested agreement of the two folds on ASCII text, comparison of
/// well-formed values is transitive whatever triple of tags they carry:
/// every pairwise comparison then orders the same folded sequences that the
/// all-Unicode dispatch would.
pub proof fn lemma_compare_transitive_cross_variant(
    a_tag: bool,
    a: Seq<char>,
    b_tag: bool,
    b: Seq<char>,
    c_tag: bool,
    c: Seq<char>,
)
    requires
        tag_wf(a_tag, a),
        tag_wf(b_tag, b),
        tag_wf(c_tag, c),
        crate::fold::folds_agree_on(a),
        crate::fold::folds_agree_on(b),
        crate::fold::folds_agree_on(c),
        caseless_cmp_rel(a_tag, a, b_tag, b) == TextOrdering::Less,
        caseless_cmp_rel(b_tag, b, c_tag, c) == TextOrdering::Less,
    ensures
        caseless_cmp_rel(a_tag, a, c_tag, c) == TextOrdering::Less,
{
    assert(caseless_cmp_rel(a_tag, a, b_tag, b) == lex_cmp(unicode_fold_seq(a), unicode_fold_seq(b)));
    assert(caseless_cmp_rel(b_tag, b, c_tag, c) == lex_cmp(unicode_fold_seq(b), unicode_fold_seq(c)));
    assert(caseless_cmp_rel(a_tag, a, c_tag, c) == lex_cmp(unicode_fold_seq(a), unicode_fold_seq(c)));
    lemma_lex_cmp_transitive(unicode_fold_seq(a), unicode_fold_seq(b), unicode_fold_seq(c));
}

/// Two values over the same text are `equals`, whatever tag each carries:
/// whichever fold the pair dispatches to is applied to the same sequence on
/// both sides.
pub proof fn lemma_same_text_equals(a_tag: bool, b_tag: bool, s: Seq<char>)
    ensures
        caseless_equals_rel(a_tag, s, b_tag, s),
{
}

} // verus!
