//! A hash accumulator over folded character sequences.
//!
//! The accumulator is FNV-1a over 64 bits, fed one code point at a time, so
//! the hash is a pure function of the folded sequence: two values whose
//! folded sequences are equal always hash alike.

use vstd::prelude::*;

use crate::fold::ascii_fold_char;
use crate::order::folded_key;

verus! {

/// One FNV-1a accumulator step: mix one code point into the state.
pub open spec fn fnv_step(h: u64, c: char) -> u64 {
    ((((h ^ ((c as u32) as u64)) as int) * 0x100000001b3) % 0x10000000000000000) as u64
}

/// The FNV-1a hash of a character sequence, starting from the offset basis.
pub open spec fn fnv_hash_seq(s: Seq<char>) -> u64
    decreases s.len(),
{
    if s.len() == 0 {
        0xcbf29ce484222325u64
    } else {
        fnv_step(fnv_hash_seq(s.drop_last()), s.last())
    }
}

/// Hashes a string, character by character, folding each character by the
/// ASCII rule first when `fold` is set.
pub fn fnv_str(s: &str, fold: bool) -> (r: u64)
    ensures
        r == fnv_hash_seq(folded_key(fold, s@)),
{
    let ghost key = folded_key(fold, s@);
    let n = s.unicode_len();
    let mut h: u64 = 0xcbf29ce484222325;
    let mut i: usize = 0;
    while i < n
        invariant
            0 <= i <= n,
            n == s@.len(),
            key == folded_key(fold, s@),
            key.len() == n,
            h == fnv_hash_seq(key.subrange(0, i as int)),
        decreases n - i,
    {
        let mut c = s.get_char(i);
        if fold {
            c = ascii_fold_char(c);
        }
        let x: u64 = h ^ ((c as u32) as u64);
        let prod: u128 = (x as u128) * 0x100000001b3u128;
        let next: u64 = (prod % 0x10000000000000000u128) as u64;
        proof {
            assert(c == key[i as int]);
            assert(next == fnv_step(h, key[i as int]));
            assert(key.subrange(0, i + 1).drop_last() =~= key.subrange(0, i as int));
            assert(key.subrange(0, i + 1).last() == key[i as int]);
        }
        h = next;
        i = i + 1;
    }
    proof {
        assert(key.subrange(0, n as int) =~= key);
    }
    h
}

} // verus!
