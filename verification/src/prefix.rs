//! Leading bits shared by two byte sequences.

use vstd::prelude::*;

verus! {

/// Bit `j` of a byte, counted from the most significant bit (`j` in `0..8`).
pub open spec fn bit_of(byte: u8, j: u8) -> bool {
    (byte >> (7u8 - j) as u8) & 1u8 == 1u8
}

/// Bit `i` of a byte sequence, counted from the most significant bit of the
/// first byte.
pub open spec fn bit_at(bytes: Seq<u8>, i: int) -> bool {
    bit_of(bytes[i / 8], (i % 8) as u8)
}

/// Number of bits that `l` and `r` can be compared on: eight per byte of the
/// shorter one.
pub open spec fn bit_len(l: Seq<u8>, r: Seq<u8>) -> nat {
    if l.len() <= r.len() {
        8 * l.len()
    } else {
        8 * r.len()
    }
}

/// The number of leading bits on which `l` and `r` agree, counting no further
/// than `n` bits and no further than the sequences reach.
pub open spec fn common_prefix_len(l: Seq<u8>, r: Seq<u8>, n: nat) -> nat
    decreases n,
{
    if n == 0 {
        0
    } else {
        let k = common_prefix_len(l, r, (n - 1) as nat);
        if k == n - 1 && n <= bit_len(l, r) && bit_at(l, n - 1) == bit_at(r, n - 1) {
            n
        } else {
            k
        }
    }
}

/// `k` is the length of the longest common bit prefix of `l` and `r` that is
/// at most `n` bits long.
pub open spec fn is_common_prefix_len(l: Seq<u8>, r: Seq<u8>, n: nat, k: nat) -> bool {
    &&& k <= n
    &&& k <= bit_len(l, r)
    &&& forall|i: int| 0 <= i < k ==> bit_at(l, i) == bit_at(r, i)
    &&& (k < n && k < bit_len(l, r)) ==> bit_at(l, k as int) != bit_at(r, k as int)
}

/// `common_prefix_len` is a common prefix length, and the longest one.
pub proof fn lemma_common_prefix_len(l: Seq<u8>, r: Seq<u8>, n: nat)
    ensures
        is_common_prefix_len(l, r, n, common_prefix_len(l, r, n)),
    decreases n,
{
    if n > 0 {
        lemma_common_prefix_len(l, r, (n - 1) as nat);
    }
}

/// At most one number is the longest common prefix length.
pub proof fn lemma_common_prefix_len_unique(l: Seq<u8>, r: Seq<u8>, n: nat, k: nat)
    requires
        is_common_prefix_len(l, r, n, k),
    ensures
        k == common_prefix_len(l, r, n),
{
    lemma_common_prefix_len(l, r, n);
}

/// Within one byte: if the top `k` bits of `a ^ b` are clear, `a` and `b`
/// agree on bit `j` for every `j < k`.
proof fn lemma_clear_top_bits_agree(a: u8, b: u8, k: u8, j: u8)
    by (bit_vector)
    requires
        1 <= k <= 8,
        j < k,
        (a ^ b) >> (8u8 - k) as u8 == 0,
    ensures
        ((a >> (7u8 - j) as u8) & 1u8 == 1u8) == ((b >> (7u8 - j) as u8) & 1u8 == 1u8),
{
}

/// Within one byte: if the top `k` bits of `a ^ b` are clear and the top
/// `k + 1` bits are not, `a` and `b` differ on bit `k`.
proof fn lemma_first_set_bit_differs(a: u8, b: u8, k: u8)
    by (bit_vector)
    requires
        k < 8,
        k == 0 || (a ^ b) >> (8u8 - k) as u8 == 0,
        (a ^ b) >> (7u8 - k) as u8 != 0,
    ensures
        ((a >> (7u8 - k) as u8) & 1u8 == 1u8) != ((b >> (7u8 - k) as u8) & 1u8 == 1u8),
{
}

/// Two different bytes do not agree on all eight bits.
proof fn lemma_distinct_bytes_differ(a: u8, b: u8)
    by (bit_vector)
    requires
        a != b,
    ensures
        (a ^ b) >> 0u8 != 0,
{
}

/// The number of leading bits on which the bytes `a` and `b` agree, counting
/// no further than `limit` bits, nor than the eight that a byte has.
pub fn common_bits_in_byte(a: u8, b: u8, limit: u8) -> (count: u8)
    ensures
        count <= limit,
        count <= 8,
        forall|j: u8| j < count ==> bit_of(a, j) == bit_of(b, j),
        count < limit && count < 8 ==> bit_of(a, count) != bit_of(b, count),
        a != b ==> count < 8,
{
    let diff: u8 = a ^ b;
    let bound: u8 = if limit < 8 {
        limit
    } else {
        8
    };
    let mut count: u8 = bound;
    while count > 0 && (diff >> (8 - count)) != 0
        invariant
            diff == a ^ b,
            count <= bound <= 8,
            count < bound ==> diff >> (7u8 - count) as u8 != 0,
        decreases count,
    {
        count -= 1;
    }
    proof {
        if count > 0 {
            assert forall|j: u8| j < count implies bit_of(a, j) == bit_of(b, j) by {
                lemma_clear_top_bits_agree(a, b, count, j);
            }
        }
        if count < bound {
            lemma_first_set_bit_differs(a, b, count);
        }
        if a != b && count == 8 {
            lemma_distinct_bytes_differ(a, b);
        }
    }
    count
}

/// Counts the leading bits on which `l` and `r` agree, up to `n` bits and
/// no further than the shorter of the two reaches.
///
/// Whole bytes are compared first; in the first byte that differs, or in the
/// byte that the bound `n` cuts, bits are compared from the most significant
/// one down.
pub fn bit_in_common(l: &[u8], r: &[u8], n: usize) -> (count: usize)
    ensures
        count == common_prefix_len(l@, r@, n as nat),
        is_common_prefix_len(l@, r@, n as nat, count as nat),
{
    let len: usize = if l.len() <= r.len() {
        l.len()
    } else {
        r.len()
    };
    let whole: usize = if n / 8 < len {
        n / 8
    } else {
        len
    };
    let mut byte: usize = 0;
    while byte < whole && l[byte] == r[byte]
        invariant
            byte <= whole <= len,
            len <= l.len(),
            len <= r.len(),
            8 * whole <= n,
            forall|j: int| 0 <= j < byte ==> l@[j] == r@[j],
        decreases whole - byte,
    {
        byte += 1;
    }
    let limit: u8 = if byte < whole {
        8
    } else if byte < len {
        (n % 8) as u8
    } else {
        0
    };
    let bits: u8 = if limit == 0 {
        0
    } else {
        common_bits_in_byte(l[byte], r[byte], limit)
    };
    let count: usize = 8 * byte + bits as usize;
    proof {
        assert forall|i: int| 0 <= i < count implies bit_at(l@, i) == bit_at(r@, i) by {
            if i >= 8 * byte {
                assert(bit_of(l@[byte as int], (i % 8) as u8) == bit_of(
                    r@[byte as int],
                    (i % 8) as u8,
                ));
            }
        }
        lemma_common_prefix_len_unique(l@, r@, n as nat, count as nat);
    }
    count
}

} // verus!
