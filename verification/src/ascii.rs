//! The ASCII-only case-insensitive wrapper.

use vstd::prelude::*;

use crate::fold::ascii_equiv;
use crate::fold::ascii_fold_seq;
use crate::fold::swap_case_seq;
use crate::fold::lemma_swap_case_fold_seq;
use crate::hashing::fnv_hash_seq;
use crate::hashing::fnv_str;
use crate::order::TextOrdering;
use crate::order::cmp_chars;
use crate::order::lex_cmp;
use crate::order::lemma_lex_cmp_equal_iff;

verus! {

/// Wraps a string and compares, orders and hashes it by its ASCII fold:
/// every byte `A`-`Z` counts as its lowercase counterpart, every other
/// character counts as itself. The stored text is never changed; the fold
/// exists only while a comparison or a hash runs.
///
/// The wrapper accepts any content, but the fold is the ASCII one: non-ASCII
/// characters take part in comparisons unchanged.
pub struct AsciiText {
    text: String,
}

impl View for AsciiText {
    type V = Seq<char>;

    closed spec fn view(&self) -> Seq<char> {
        self.text@
    }
}

impl AsciiText {
    /// Wraps a string as it stands; nothing is validated and nothing is
    /// changed.
    pub fn new(text: String) -> (r: AsciiText)
        ensures
            r@ == text@,
    {
        AsciiText { text }
    }

    /// Returns the original stored string; the fold is never materialized
    /// into storage.
    pub fn unwrap(self) -> (r: String)
        ensures
            r@ == self@,
    {
        self.text
    }

    /// A read-only view of the original stored text.
    pub fn as_str(&self) -> (r: &str)
        ensures
            r@ == self@,
    {
        self.text.as_str()
    }

    /// True exactly when the two ASCII folds are the same sequence, in
    /// length and content.
    pub fn equals(&self, other: &AsciiText) -> (r: bool)
        ensures
            r == ascii_equiv(self@, other@),
    {
        let c = cmp_chars(self.text.as_str(), other.text.as_str(), true);
        proof {
            lemma_lex_cmp_equal_iff(ascii_fold_seq(self@), ascii_fold_seq(other@));
        }
        c.is_equal()
    }

    /// Lexicographic comparison of the two ASCII folds by code point: a
    /// total order whose equal rank agrees exactly with `equals`.
    pub fn compare(&self, other: &AsciiText) -> (r: TextOrdering)
        ensures
            r == lex_cmp(ascii_fold_seq(self@), ascii_fold_seq(other@)),
    {
        cmp_chars(self.text.as_str(), other.text.as_str(), true)
    }

    /// The hash of the ASCII fold, so that `equals` values hash alike.
    pub fn hash(&self) -> (r: u64)
        ensures
            r == fnv_hash_seq(ascii_fold_seq(self@)),
    {
        fnv_str(self.text.as_str(), true)
    }
}

/// A string and its case-swapped form are equivalent under the ASCII fold:
/// flipping the case of every letter never changes how an `AsciiText`
/// compares, orders or hashes.
pub proof fn lemma_swap_case_equiv(s: Seq<char>)
    ensures
        ascii_equiv(s, swap_case_seq(s)),
{
    lemma_swap_case_fold_seq(s);
}

/// Comparison and equality of `AsciiText` agree: two wrappers compare
/// `Equal` exactly when they are `equals`.
pub proof fn lemma_ascii_compare_equals_agree(a: Seq<char>, b: Seq<char>)
    ensures
        lex_cmp(ascii_fold_seq(a), ascii_fold_seq(b)) == TextOrdering::Equal <==> ascii_equiv(a, b),
{
    lemma_lex_cmp_equal_iff(ascii_fold_seq(a), ascii_fold_seq(b));
}

/// Two wrappers over the same text are `equals`, whatever the case of
/// either: the relation is reflexive over the stored text.
pub proof fn lemma_same_text_ascii_equiv(a: Seq<char>, b: Seq<char>)
    requires
        a == b,
    ensures
        ascii_equiv(a, b),
{
}

/// `equals` values hash alike: the hash is a function of the ASCII fold.
pub proof fn lemma_ascii_equiv_hash(a: Seq<char>, b: Seq<char>)
    requires
        ascii_equiv(a, b),
    ensures
        fnv_hash_seq(ascii_fold_seq(a)) == fnv_hash_seq(ascii_fold_seq(b)),
{
}

} // verus!
