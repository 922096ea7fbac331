//! The ones'-complement 16-bit checksum used by the IPv4 header.
//!
//! The checksum of a header is computed over its sequence of big-endian
//! 16-bit words with the checksum field treated as zero: all words are
//! summed, the carries above 16 bits are folded back into the low 16 bits
//! until none remain, and the result is complemented.  Re-summing the words
//! with the checksum filled in folds to `0xffff`; that round-trip law is
//! proved here once and for all word sequences.

use vstd::arithmetic::div_mod::{
    lemma_fundamental_div_mod, lemma_mod_multiples_vanish, lemma_small_mod,
};
use vstd::prelude::*;

verus! {

/// The sum of a sequence of 16-bit words, as an unbounded natural number.
pub open spec fn sum_words(ws: Seq<u16>) -> nat
    decreases ws.len(),
{
    if ws.len() == 0 {
        0
    } else {
        sum_words(ws.drop_last()) + ws.last() as nat
    }
}

/// Folds the carries of an ones'-complement accumulator: while the value
/// exceeds 16 bits, the part above the low 16 bits is added back in.
pub open spec fn fold_carries(x: nat) -> nat
    decreases x,
{
    if x > 0xffff {
        fold_carries((x % 0x10000) + (x / 0x10000))
    } else {
        x
    }
}

/// The checksum of a word sequence whose checksum slot holds zero: the
/// ones' complement of the folded sum.
pub open spec fn checksum_of(ws: Seq<u16>) -> u16 {
    (0xffff - fold_carries(sum_words(ws))) as u16
}

/// Folding never leaves the 16-bit range, preserves the residue modulo
/// `0xffff`, and keeps a positive value positive.
pub proof fn lemma_fold_carries_props(x: nat)
    ensures
        fold_carries(x) <= 0xffff,
        fold_carries(x) % 0xffff == x % 0xffff,
        x > 0 ==> fold_carries(x) > 0,
    decreases x,
{
    if x > 0xffff {
        let q = x / 0x10000;
        let r = x % 0x10000;
        let y = r + q;
        lemma_fundamental_div_mod(x as int, 0x10000);
        assert(q >= 1);
        assert(x == 0xffff * q + y);
        lemma_mod_multiples_vanish(q as int, y as int, 0xffff);
        lemma_fold_carries_props(y);
    }
}

/// Replacing one word changes the sum by the difference of the words.
pub proof fn lemma_sum_words_update(ws: Seq<u16>, i: int, v: u16)
    requires
        0 <= i < ws.len(),
    ensures
        sum_words(ws.update(i, v)) + ws[i] == sum_words(ws) + v,
    decreases ws.len(),
{
    if i == ws.len() - 1 {
        assert(ws.update(i, v).drop_last() =~= ws.drop_last());
    } else {
        assert(ws.update(i, v).drop_last() =~= ws.drop_last().update(i, v));
        lemma_sum_words_update(ws.drop_last(), i, v);
    }
}

/// The checksum round-trip law: fill the checksum of a word sequence into
/// its (previously zero) checksum slot, and the folded sum of the whole
/// sequence comes out as `0xffff`.
pub proof fn lemma_checksum_round_trip(ws: Seq<u16>, i: int)
    requires
        0 <= i < ws.len(),
        ws[i] == 0,
    ensures
        fold_carries(sum_words(ws.update(i, checksum_of(ws)))) == 0xffff,
{
    let s = sum_words(ws);
    lemma_fold_carries_props(s);
    let k = fold_carries(s);
    let c = checksum_of(ws);
    assert(c == 0xffff - k);
    lemma_sum_words_update(ws, i, c);
    let s2 = sum_words(ws.update(i, c));
    assert(s2 == s + 0xffff - k);
    lemma_fundamental_div_mod(s as int, 0xffff);
    lemma_fundamental_div_mod(k as int, 0xffff);
    let t = s as int / 0xffff;
    let u = k as int / 0xffff;
    assert(s2 == 0xffff * (t + 1 - u) + 0);
    lemma_mod_multiples_vanish(t + 1 - u, 0, 0xffff);
    assert(s2 % 0xffff == 0);
    lemma_fold_carries_props(s2);
    let f = fold_carries(s2);
    if f < 0xffff {
        lemma_small_mod(f, 0xffff);
    }
}

/// The executable checksum over a vector of 16-bit words.
pub fn checksum_words(ws: &Vec<u16>) -> (r: u16)
    requires
        ws@.len() <= 0x10000,
    ensures
        r == checksum_of(ws@),
{
    let mut acc: u64 = 0;
    let mut i: usize = 0;
    while i < ws.len()
        invariant
            0 <= i <= ws@.len(),
            ws@.len() <= 0x10000,
            acc == sum_words(ws@.subrange(0, i as int)),
            acc <= i * 0xffff,
        decreases ws@.len() - i,
    {
        assert(ws@.subrange(0, i + 1).drop_last() =~= ws@.subrange(0, i as int));
        acc = acc + ws[i] as u64;
        i = i + 1;
    }
    assert(ws@.subrange(0, ws@.len() as int) =~= ws@);
    let ghost s = sum_words(ws@);
    while acc > 0xffff
        invariant
            fold_carries(acc as nat) == fold_carries(s),
        decreases acc,
    {
        acc = acc % 0x10000 + acc / 0x10000;
    }
    proof {
        lemma_fold_carries_props(s);
    }
    0xffff - (acc as u16)
}

} // verus!
