//! Character folding: the ASCII byte fold and the Unicode case fold.

use vstd::prelude::*;

verus! {

/// The ASCII fold of a single character: `A`-`Z` map to `a`-`z`, every other
/// character is unchanged.
pub open spec fn spec_ascii_fold_char(c: char) -> char {
    if 'A' <= c && c <= 'Z' {
        (((c as u32) + 32) as char)
    } else {
        c
    }
}

/// The ASCII fold applied to every character of a sequence.
pub open spec fn ascii_fold_seq(s: Seq<char>) -> Seq<char> {
    s.map_values(|c: char| spec_ascii_fold_char(c))
}

/// Equivalence under the ASCII fold: the two folds are the same sequence,
/// in both length and content.
pub open spec fn ascii_equiv(a: Seq<char>, b: Seq<char>) -> bool {
    ascii_fold_seq(a) == ascii_fold_seq(b)
}

/// Folds one character by the ASCII rule.
pub fn ascii_fold_char(c: char) -> (r: char)
    ensures
        r == spec_ascii_fold_char(c),
{
    let u = c as u32;
    if 65 <= u && u <= 90 {
        proof {
            vstd::utf8::char_u32_cast(c, u);
        }
        ((u + 32) as u8) as char
    } else {
        c
    }
}

/// Flips the case of an ASCII letter: `A`-`Z` and `a`-`z` exchange places,
/// every other character is unchanged.
pub open spec fn spec_swap_case_char(c: char) -> char {
    if 'A' <= c && c <= 'Z' {
        (((c as u32) + 32) as char)
    } else if 'a' <= c && c <= 'z' {
        (((c as u32) - 32) as char)
    } else {
        c
    }
}

/// The case swap applied to every character of a sequence.
pub open spec fn swap_case_seq(s: Seq<char>) -> Seq<char> {
    s.map_values(|c: char| spec_swap_case_char(c))
}

/// Swapping the case of a character never changes its ASCII fold.
pub proof fn lemma_swap_case_fold_char(c: char)
    ensures
        spec_ascii_fold_char(spec_swap_case_char(c)) == spec_ascii_fold_char(c),
{
}

/// Swapping the case of every letter of a string never changes the string's
/// ASCII fold, so a string and its case-swapped form are equivalent under the
/// ASCII fold.
pub proof fn lemma_swap_case_fold_seq(s: Seq<char>)
    ensures
        ascii_fold_seq(swap_case_seq(s)) == ascii_fold_seq(s),
{
    assert forall|i: int| 0 <= i < s.len() implies ascii_fold_seq(swap_case_seq(s))[i]
        == ascii_fold_seq(s)[i] by {
        lemma_swap_case_fold_char(s[i]);
    }
    assert(ascii_fold_seq(swap_case_seq(s)) =~= ascii_fold_seq(s));
}

/// The Unicode default case fold of a sequence of characters, as the standard
/// case-folding mapping gives it. The mapping itself is looked up in an
/// outside table; this name stands for its result.
pub uninterp spec fn unicode_fold_seq(s: Seq<char>) -> Seq<char>;

/// Agreement of the two folds on one text: if the text is ASCII-only, its
/// Unicode case fold is exactly its ASCII fold. The library never assumes
/// this of the outside folding table; the property tests check it, and the
/// cross-variant laws take it as an explicit hypothesis.
pub open spec fn folds_agree_on(s: Seq<char>) -> bool {
    vstd::utf8::is_ascii_chars(s) ==> unicode_fold_seq(s) == ascii_fold_seq(s)
}

/// Relies on `caseless::default_case_fold_str`: the Unicode default case fold
/// of the text, computed from a constant folding table, so the result is a
/// function of the characters alone.
#[verifier::external_body]
pub(crate) fn unicode_fold(s: &str) -> (r: String)
    ensures
        r@ == unicode_fold_seq(s@),
{
    caseless::default_case_fold_str(s)
}

} // verus!
