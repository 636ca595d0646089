//! Three-way lexicographic comparison of character sequences by code point.

use vstd::prelude::*;

use crate::fold::ascii_fold_char;
use crate::fold::ascii_fold_seq;

verus! {

/// The outcome of a three-way comparison.
#[derive(Clone, Copy, Debug, PartialEq, Eq, Structural)]
pub enum TextOrdering {
    Less,
    Equal,
    Greater,
}

impl TextOrdering {
    /// The outcome with both sides exchanged.
    pub open spec fn flip(self) -> TextOrdering {
        match self {
            TextOrdering::Less => TextOrdering::Greater,
            TextOrdering::Equal => TextOrdering::Equal,
            TextOrdering::Greater => TextOrdering::Less,
        }
    }

    /// True exactly when the outcome is `Equal`.
    pub fn is_equal(self) -> (r: bool)
        ensures
            r == (self == TextOrdering::Equal),
    {
        matches!(self, TextOrdering::Equal)
    }
}

/// Lexicographic comparison of two character sequences, character by
/// character in code-point order; a proper prefix is smaller.
pub open spec fn lex_cmp(a: Seq<char>, b: Seq<char>) -> TextOrdering
    decreases a.len(),
{
    if a.len() == 0 && b.len() == 0 {
        TextOrdering::Equal
    } else if a.len() == 0 {
        TextOrdering::Less
    } else if b.len() == 0 {
        TextOrdering::Greater
    } else if (a[0] as u32) < (b[0] as u32) {
        TextOrdering::Less
    } else if (b[0] as u32) < (a[0] as u32) {
        TextOrdering::Greater
    } else {
        lex_cmp(a.drop_first(), b.drop_first())
    }
}

/// Two sequences compare `Equal` exactly when they are the same sequence.
pub proof fn lemma_lex_cmp_equal_iff(a: Seq<char>, b: Seq<char>)
    ensures
        lex_cmp(a, b) == TextOrdering::Equal <==> a == b,
    decreases a.len(),
{
    if a.len() == 0 && b.len() == 0 {
        assert(a =~= b);
    } else if a.len() == 0 || b.len() == 0 {
    } else if (a[0] as u32) == (b[0] as u32) {
        vstd::utf8::char_u32_cast(a[0], a[0] as u32);
        vstd::utf8::char_u32_cast(b[0], b[0] as u32);
        lemma_lex_cmp_equal_iff(a.drop_first(), b.drop_first());
        if lex_cmp(a, b) == TextOrdering::Equal {
            assert forall|i: int| 0 <= i < a.len() implies a[i] == b[i] by {
                if i > 0 {
                    assert(a[i] == a.drop_first()[i - 1]);
                    assert(b[i] == b.drop_first()[i - 1]);
                }
            }
            assert(a =~= b);
        }
        if a == b {
            assert(a.drop_first() =~= b.drop_first());
        }
    }
}

/// Exchanging the two sides flips the outcome.
pub proof fn lemma_lex_cmp_flip(a: Seq<char>, b: Seq<char>)
    ensures
        lex_cmp(b, a) == lex_cmp(a, b).flip(),
    decreases a.len(),
{
    if a.len() != 0 && b.len() != 0 && (a[0] as u32) == (b[0] as u32) {
        lemma_lex_cmp_flip(a.drop_first(), b.drop_first());
    }
}

/// Strict lexicographic order is transitive.
pub proof fn lemma_lex_cmp_transitive(a: Seq<char>, b: Seq<char>, c: Seq<char>)
    requires
        lex_cmp(a, b) == TextOrdering::Less,
        lex_cmp(b, c) == TextOrdering::Less,
    ensures
        lex_cmp(a, c) == TextOrdering::Less,
    decreases a.len(),
{
    if a.len() == 0 {
    } else {
        if (a[0] as u32) == (c[0] as u32) {
            lemma_lex_cmp_transitive(a.drop_first(), b.drop_first(), c.drop_first());
        }
    }
}

/// The comparison outcome at the first difference of two sequences that share
/// a common prefix of length `i`: running out of one sequence decides by
/// length, a differing character decides by code point.
pub proof fn lemma_lex_cmp_common_prefix(a: Seq<char>, b: Seq<char>, i: int)
    requires
        0 <= i <= a.len(),
        i <= b.len(),
        forall|j: int| 0 <= j < i ==> a[j] == b[j],
        i < a.len() || i < b.len(),
        i < a.len() && i < b.len() ==> (a[i] as u32) != (b[i] as u32),
    ensures
        lex_cmp(a, b) == (if i == a.len() {
            TextOrdering::Less
        } else if i == b.len() {
            TextOrdering::Greater
        } else if (a[i] as u32) < (b[i] as u32) {
            TextOrdering::Less
        } else {
            TextOrdering::Greater
        }),
    decreases i,
{
    if i == 0 {
    } else {
        lemma_lex_cmp_common_prefix(a.drop_first(), b.drop_first(), i - 1);
    }
}

/// The key an operand contributes to a comparison: its characters, folded by
/// the ASCII rule when `fold` is set, taken as they stand otherwise.
pub open spec fn folded_key(fold: bool, s: Seq<char>) -> Seq<char> {
    if fold {
        ascii_fold_seq(s)
    } else {
        s
    }
}

/// Compares two strings lexicographically by code point, folding each
/// character by the ASCII rule first when `fold` is set. The fold is applied
/// on the fly: neither input is copied or changed.
pub fn cmp_chars(a: &str, b: &str, fold: bool) -> (r: TextOrdering)
    ensures
        r == lex_cmp(folded_key(fold, a@), folded_key(fold, b@)),
{
    let ghost fa = folded_key(fold, a@);
    let ghost fb = folded_key(fold, b@);
    let a_len = a.unicode_len();
    let b_len = b.unicode_len();
    let n = if a_len < b_len {
        a_len
    } else {
        b_len
    };
    let mut i: usize = 0;
    while i < n
        invariant
            0 <= i <= n,
            n <= a_len,
            n <= b_len,
            a_len == a@.len(),
            b_len == b@.len(),
            a_len <= b_len || b_len <= a_len,
            n == if a_len < b_len { a_len } else { b_len },
            fa == folded_key(fold, a@),
            fb == folded_key(fold, b@),
            fa.len() == a_len,
            fb.len() == b_len,
            forall|j: int| 0 <= j < i ==> fa[j] == fb[j],
        decreases n - i,
    {
        let mut ca = a.get_char(i);
        let mut cb = b.get_char(i);
        if fold {
            ca = ascii_fold_char(ca);
            cb = ascii_fold_char(cb);
        }
        let ua = ca as u32;
        let ub = cb as u32;
        if ua < ub {
            proof {
                lemma_lex_cmp_common_prefix(fa, fb, i as int);
            }
            return TextOrdering::Less;
        }
        if ub < ua {
            proof {
                lemma_lex_cmp_common_prefix(fa, fb, i as int);
            }
            return TextOrdering::Greater;
        }
        proof {
            vstd::utf8::char_u32_cast(ca, ua);
            vstd::utf8::char_u32_cast(cb, ub);
        }
        i = i + 1;
    }
    if a_len < b_len {
        proof {
            lemma_lex_cmp_common_prefix(fa, fb, n as int);
        }
        TextOrdering::Less
    } else if b_len < a_len {
        proof {
            lemma_lex_cmp_common_prefix(fa, fb, n as int);
        }
        TextOrdering::Greater
    } else {
        proof {
            assert(fa =~= fb);
            lemma_lex_cmp_equal_iff(fa, fb);
        }
        TextOrdering::Equal
    }
}

} // verus!
