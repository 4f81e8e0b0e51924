//! The Internet checksum (RFC 1071): the one's complement of the
//! one's-complement sum of a buffer's 16-bit big-endian words.

use vstd::prelude::*;
use vstd::arithmetic::div_mod::lemma_fundamental_div_mod;
use vstd::arithmetic::div_mod::lemma_fundamental_div_mod_converse;

verus! {

/// Number of 16-bit words in `s`; an odd last byte counts as a word.
pub open spec fn word_count(s: Seq<u8>) -> nat {
    ((s.len() + 1) / 2) as nat
}

/// The word with index `k` of `s`, big-endian. An odd last byte is the high
/// half of a word whose low half is zero.
pub open spec fn word_at(s: Seq<u8>, k: int) -> nat {
    if 2 * k + 1 < s.len() {
        (s[2 * k] as nat) * 256 + (s[2 * k + 1] as nat)
    } else {
        (s[2 * k] as nat) * 256
    }
}

/// Plain (unbounded) sum of the first `k` words of `s`.
pub open spec fn words_sum(s: Seq<u8>, k: nat) -> nat
    decreases k,
{
    if k == 0 {
        0
    } else {
        words_sum(s, (k - 1) as nat) + word_at(s, k - 1)
    }
}

/// `n` with every carry beyond 16 bits added back in, until none is left:
/// zero stays zero, anything else lands in 1 ..= 0xffff, congruent to `n`
/// modulo 0xffff.
pub open spec fn fold_carries(n: nat) -> nat {
    if n == 0 {
        0
    } else {
        ((n - 1) as nat % 0xffff) + 1
    }
}

/// The one's-complement sum of the words of `s`.
pub open spec fn ones_complement_sum(s: Seq<u8>) -> nat {
    fold_carries(words_sum(s, word_count(s)))
}

/// The Internet checksum of `s`.
pub open spec fn internet_checksum(s: Seq<u8>) -> u16 {
    (0xffff - ones_complement_sum(s)) as u16
}

/// One's-complement addition of a word to an already folded sum.
pub open spec fn add_with_carry(a: nat, w: nat) -> nat {
    if a + w > 0xffff {
        (a + w - 0xffff) as nat
    } else {
        a + w
    }
}

proof fn lemma_fold_carries_bound(n: nat)
    ensures
        fold_carries(n) <= 0xffff,
        fold_carries(n) == 0 <==> n == 0,
{
}

/// Folding the carries of a sum can be done one word at a time.
proof fn lemma_fold_carries_step(n: nat, w: nat)
    requires
        w <= 0xffff,
    ensures
        fold_carries(n + w) == add_with_carry(fold_carries(n), w),
{
    if n == 0 {
        if w > 0 {
            lemma_fundamental_div_mod_converse((w - 1) as int, 0xffff, 0, (w - 1) as int);
        }
    } else {
        let x = (n - 1) as int;
        lemma_fundamental_div_mod(x, 0xffff);
        let q = x / 0xffff;
        let r = x % 0xffff;
        if r + w < 0xffff {
            lemma_fundamental_div_mod_converse(x + w, 0xffff, q, r + w);
        } else {
            lemma_fundamental_div_mod_converse(x + w, 0xffff, q + 1, r + w - 0xffff);
        }
    }
}

/// Computes the Internet checksum of `bytes`: the 16-bit big-endian words
/// (an odd last byte padded with a zero low byte) are added with end-around
/// carry, and the complement of that sum is returned. Any length is accepted,
/// the empty buffer included.
pub fn checksum(bytes: &[u8]) -> (r: u16)
    ensures
        r == internet_checksum(bytes@),
{
    let n: usize = bytes.len();
    let mut sum: u32 = 0;
    let mut i: usize = 0;
    while n - i >= 2
        invariant
            n == bytes@.len(),
            i <= n,
            i % 2 == 0,
            sum <= 0xffff,
            sum == fold_carries(words_sum(bytes@, (i / 2) as nat)),
        decreases n - i,
    {
        let hi: u8 = bytes[i];
        let lo: u8 = bytes[i + 1];
        assert(((hi as u32) << 8) | (lo as u32) == hi * 256 + lo) by (bit_vector);
        let word: u32 = ((hi as u32) << 8) | (lo as u32);
        proof {
            lemma_fold_carries_step(words_sum(bytes@, (i / 2) as nat), word as nat);
        }
        sum = fold_once(sum + word);
        i = i + 2;
    }
    if i < n {
        let hi: u8 = bytes[i];
        assert((hi as u32) << 8 == hi * 256) by (bit_vector);
        let word: u32 = (hi as u32) << 8;
        proof {
            lemma_fold_carries_step(words_sum(bytes@, (i / 2) as nat), word as nat);
        }
        sum = fold_once(sum + word);
        assert(word_count(bytes@) == i / 2 + 1);
    } else {
        assert(word_count(bytes@) == i / 2);
    }
    let folded: u16 = sum as u16;
    assert(!folded == 0xffff - folded) by (bit_vector);
    !folded
}

/// `s` with the 16-bit value `v` stored big-endian at `pos` and `pos + 1`.
pub open spec fn with_word(s: Seq<u8>, pos: int, v: u16) -> Seq<u8> {
    s.update(pos, (v / 256) as u8).update(pos + 1, (v % 256) as u8)
}

/// Computes the Internet checksum of the whole of `data` as it stands and
/// stores it big-endian in bytes 2 and 3, where an ICMP message keeps it.
/// The caller zeroes those two bytes first.
pub fn calculate_checksum(data: &mut [u8])
    requires
        old(data)@.len() >= 4,
    ensures
        final(data)@ == with_word(old(data)@, 2, internet_checksum(old(data)@)),
{
    let c: u16 = checksum(data);
    store_be16(data, 2, c);
}

/// Stores `v` big-endian at `pos` and `pos + 1`.
pub fn store_be16(buf: &mut [u8], pos: usize, v: u16)
    requires
        pos + 1 < old(buf)@.len(),
    ensures
        final(buf)@ == with_word(old(buf)@, pos as int, v),
{
    buf[pos] = (v >> 8) as u8;
    buf[pos + 1] = (v & 0xff) as u8;
    assert((v >> 8) as u8 == (v / 256) as u8 && (v & 0xff) as u8 == (v % 256) as u8) by (bit_vector);
}

/// Storing a word changes the plain word sum by the difference in that word.
proof fn lemma_words_sum_with_word(s: Seq<u8>, pos: int, v: u16, k: nat)
    requires
        0 <= pos,
        pos % 2 == 0,
        pos + 1 < s.len(),
        k <= word_count(s),
    ensures
        words_sum(with_word(s, pos, v), k) == words_sum(s, k) + (if k > pos / 2 {
            v - word_at(s, pos / 2)
        } else {
            0
        }),
    decreases k,
{
    let s2 = with_word(s, pos, v);
    if k > 0 {
        lemma_words_sum_with_word(s, pos, v, (k - 1) as nat);
        let i = k - 1;
        if i == pos / 2 {
            assert(word_at(s2, i) == v);
        } else {
            assert(s2[2 * i] == s[2 * i]);
            if 2 * i + 1 < s.len() {
                assert(s2[2 * i + 1] == s[2 * i + 1]);
            }
            assert(word_at(s2, i) == word_at(s, i));
        }
    }
}

/// Once the checksum of a buffer whose checksum field (at an even offset)
/// was zero is stored in that field, the buffer validates: its
/// one's-complement sum is all ones, so its own checksum is zero.
pub proof fn lemma_checksum_validates(s: Seq<u8>, pos: int)
    requires
        0 <= pos,
        pos % 2 == 0,
        pos + 1 < s.len(),
        s[pos] == 0,
        s[pos + 1] == 0,
    ensures
        ones_complement_sum(with_word(s, pos, internet_checksum(s))) == 0xffff,
        internet_checksum(with_word(s, pos, internet_checksum(s))) == 0,
{
    let c = internet_checksum(s);
    let s2 = with_word(s, pos, c);
    let w = words_sum(s, word_count(s));
    lemma_fold_carries_bound(w);
    assert(word_at(s, pos / 2) == 0);
    lemma_words_sum_with_word(s, pos, c, word_count(s));
    assert(word_count(s2) == word_count(s));
    let w2 = words_sum(s2, word_count(s2));
    assert(w2 == w + 0xffff - fold_carries(w));
    if w == 0 {
        lemma_fundamental_div_mod_converse(0xfffe, 0xffff, 0, 0xfffe);
    } else {
        let x = (w - 1) as int;
        lemma_fundamental_div_mod(x, 0xffff);
        lemma_fundamental_div_mod_converse(w2 - 1, 0xffff, x / 0xffff, 0xfffe);
    }
}

/// The checksum depends on the buffer's contents alone: two buffers that
/// hold the same bytes have the same checksum.
pub proof fn lemma_checksum_deterministic(a: Seq<u8>, b: Seq<u8>)
    requires
        a.len() == b.len(),
        forall|i: int| 0 <= i < a.len() ==> a[i] == b[i],
    ensures
        internet_checksum(a) == internet_checksum(b),
{
    assert(a =~= b);
}

/// Adds the carry beyond 16 bits of `s` back into its low 16 bits.
fn fold_once(s: u32) -> (r: u32)
    requires
        s <= 0x1fffe,
    ensures
        r == (if s > 0xffff { s - 0xffff } else { s as int }),
        r <= 0xffff,
{
    assert((s & 0xffff) + (s >> 16) == (if s > 0xffff { s - 0xffff } else { s as int }))
        by (bit_vector)
        requires
            s <= 0x1fffe,
    ;
    (s & 0xffff) + (s >> 16)
}

} // verus!
