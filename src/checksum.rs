//! Ones'-complement arithmetic of the IPv4 header checksum.

use vstd::prelude::*;

use crate::frame::{be16, put_be16, Window};

verus! {

/// The ones'-complement (end-around carry) reduction of a sum to 16 bits:
/// zero stays zero, any other value becomes the one number in `1..=0xffff`
/// that is congruent to it modulo `0xffff`.
pub open spec fn end_around(x: nat) -> nat {
    if x == 0 {
        0
    } else {
        ((x - 1) as nat % 0xffff + 1) as nat
    }
}

/// One carry fold of the accumulator: bits 16 and up are added back into the
/// low 16 bits.
spec fn fold_step(x: u64) -> u64 {
    if (x >> 16u64) > 0 {
        ((x & 0xffffu64) + (x >> 16u64)) as u64
    } else {
        x
    }
}

/// Upper bound of the accumulator after `i` folds, for any starting value.
spec fn fold_bound(i: int) -> u64 {
    if i <= 0 {
        0xffff_ffff_ffff_ffffu64
    } else if i == 1 {
        0x1_0000_0000_fffeu64
    } else if i == 2 {
        0x1_0000_fffeu64
    } else if i == 3 {
        0x1_fffeu64
    } else {
        0xffffu64
    }
}

/// A fold keeps the end-around value and shrinks the bound step by step.
proof fn lemma_fold_step(x: u64, i: int)
    requires
        0 <= i < 4,
        x <= fold_bound(i),
    ensures
        fold_step(x) <= fold_bound(i + 1),
        (x & 0xffffu64) + (x >> 16u64) <= u64::MAX,
        end_around(fold_step(x) as nat) == end_around(x as nat),
{
    let b = fold_bound(i);
    let c = fold_bound(i + 1);
    assert(x <= b && (b == 0xffff_ffff_ffff_ffffu64 && c == 0x1_0000_0000_fffeu64 || b
        == 0x1_0000_0000_fffeu64 && c == 0x1_0000_fffeu64 || b == 0x1_0000_fffeu64 && c
        == 0x1_fffeu64 || b == 0x1_fffeu64 && c == 0xffffu64) ==> (if (x >> 16u64) > 0 {
        ((x & 0xffffu64) + (x >> 16u64)) as u64
    } else {
        x
    }) <= c) by (bit_vector);
    assert((x & 0xffffu64) + (x >> 16u64) <= 0x1_0000_0000_fffe) by (bit_vector);
    if (x >> 16u64) > 0 {
        assert((x >> 16u64) == x / 0x10000 && (x & 0xffffu64) == x % 0x10000) by (bit_vector);
        let h = x as int / 0x10000;
        let l = x as int % 0x10000;
        vstd::arithmetic::div_mod::lemma_fundamental_div_mod(x as int, 0x10000);
        assert(fold_step(x) as int == h + l);
        assert(x as int - 1 == 0xffff * h + (h + l - 1));
        vstd::arithmetic::div_mod::lemma_mod_multiples_vanish(h, h + l - 1, 0xffff);
    }
}

/// Folds a running ones'-complement sum to 16 bits and complements it: the
/// checksum value to store for a header whose words add up to `csum`.
pub fn csum_fold_helper(csum: u64) -> (r: u16)
    ensures
        r as nat == 0xffff - end_around(csum as nat),
{
    let mut csum = csum;
    let ghost start = csum;
    let mut i: u32 = 0;
    while i < 4
        invariant
            i <= 4,
            csum <= fold_bound(i as int),
            end_around(csum as nat) == end_around(start as nat),
        decreases 4 - i,
    {
        proof {
            lemma_fold_step(csum, i as int);
        }
        if (csum >> 16u64) > 0 {
            csum = (csum & 0xffff) + (csum >> 16u64);
        }
        i = i + 1;
    }
    assert(csum < 0x10000);
    assert(end_around(csum as nat) == csum as nat) by {
        if csum > 0 {
            vstd::arithmetic::div_mod::lemma_small_mod((csum - 1) as nat, 0xffff);
        }
    }
    let low = csum as u16;
    assert(low == csum);
    assert(!low == 0xffff - low) by (bit_vector);
    !low
}

/// Sum of the `n` big-endian 16-bit words stored from `start`.
pub open spec fn word_sum(s: Seq<u8>, start: int, n: nat) -> nat
    decreases n,
{
    if n == 0 {
        0
    } else {
        word_sum(s, start, (n - 1) as nat) + be16(s, start + 2 * (n - 1))
    }
}

/// The checksum that makes a header of `n` words at `start` validate, given
/// that its checksum field currently holds zero.
pub open spec fn checksum_for(s: Seq<u8>, start: int, n: nat) -> u16 {
    (0xffff - end_around(word_sum(s, start, n))) as u16
}

/// A header validates when the end-around sum of all its words, checksum
/// included, is all ones.
pub open spec fn checksum_valid(s: Seq<u8>, start: int, n: nat) -> bool {
    end_around(word_sum(s, start, n)) == 0xffff
}

/// Storing a value in word `j` changes the sum by the difference of the words.
pub proof fn lemma_word_sum_put(s: Seq<u8>, start: int, n: nat, j: nat, v: u16)
    requires
        0 <= start,
        j < n,
        start + 2 * n <= s.len(),
    ensures
        word_sum(put_be16(s, start + 2 * j, v), start, n) == word_sum(s, start, n) - be16(
            s,
            start + 2 * j,
        ) + v,
    decreases n,
{
    let t = put_be16(s, start + 2 * j, v);
    crate::frame::lemma_be16_put(s, start + 2 * j, v);
    if j < n - 1 {
        lemma_word_sum_put(s, start, (n - 1) as nat, j, v);
        let k = start + 2 * (n - 1);
        assert(t[k] == s[k] && t[k + 1] == s[k + 1]);
    } else {
        lemma_word_sum_same(s, t, start, (n - 1) as nat);
    }
}

/// The sum of words reads only the bytes of those words.
proof fn lemma_word_sum_same(s: Seq<u8>, t: Seq<u8>, start: int, n: nat)
    requires
        0 <= start,
        start + 2 * n <= s.len(),
        start + 2 * n <= t.len(),
        forall|i: int| start <= i < start + 2 * n ==> s[i] == t[i],
    ensures
        word_sum(s, start, n) == word_sum(t, start, n),
    decreases n,
{
    if n > 0 {
        lemma_word_sum_same(s, t, start, (n - 1) as nat);
        let k = start + 2 * (n - 1);
        assert(s[k] == t[k] && s[k + 1] == t[k + 1]);
    }
}

/// Adding the complement of the end-around sum gives the all-ones sum.
pub proof fn lemma_complement_validates(sum: nat)
    ensures
        end_around((sum + (0xffff - end_around(sum))) as nat) == 0xffff,
{
    if sum > 0 {
        let q = (sum - 1) / 0xffff;
        vstd::arithmetic::div_mod::lemma_fundamental_div_mod(sum - 1, 0xffff);
        let t = sum + (0xffff - end_around(sum));
        assert(t - 1 == 0xffff * q + 0xfffe);
        vstd::arithmetic::div_mod::lemma_mod_multiples_vanish(q, 0xfffe, 0xffff);
    }
}

/// A header whose checksum field holds zero validates once the checksum
/// computed over it is stored in that field.
pub proof fn lemma_checksum_for_validates(s: Seq<u8>, start: int, n: nat, field: nat)
    requires
        0 <= start,
        field < n,
        start + 2 * n <= s.len(),
        be16(s, start + 2 * field) == 0,
    ensures
        checksum_valid(put_be16(s, start + 2 * field, checksum_for(s, start, n)), start, n),
{
    let sum = word_sum(s, start, n);
    lemma_word_sum_put(s, start, n, field, checksum_for(s, start, n));
    lemma_complement_validates(sum);
}

/// Sum of the 16-bit words of an IPv4 header, in a 64-bit accumulator.
pub fn header_sum(frame: &[u8], hdr: &Window) -> (r: u64)
    requires
        hdr.fits(frame@.len()),
        hdr.len == crate::headers::IPV4_HDR_LEN,
    ensures
        r == word_sum(frame@, hdr.offset as int, 10),
{
    let mut acc: u64 = 0;
    let mut i: usize = 0;
    while i < 10
        invariant
            i <= 10,
            hdr.fits(frame@.len()),
            hdr.len == crate::headers::IPV4_HDR_LEN,
            acc == word_sum(frame@, hdr.offset as int, i as nat),
            acc <= i * 0xffff,
        decreases 10 - i,
    {
        let w = hdr.read_be16(frame, 2 * i);
        acc = acc + w as u64;
        i = i + 1;
    }
    acc
}

} // verus!
