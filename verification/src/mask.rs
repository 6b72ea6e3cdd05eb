//! Network masks over byte sequences.
//!
//! A prefix length `p` splits the bits of an address into the first `p`
//! (the network part) and the rest (the host part). Everything here is
//! stated byte by byte, and tied to single bits by the lemmas below.

use vstd::prelude::*;
use crate::prefix::{bit_at, bit_of};

verus! {

/// Byte `index` of the mask whose first `prefix` bits are one.
pub open spec fn mask_byte(prefix: nat, index: nat) -> u8 {
    if prefix >= 8 * index + 8 {
        0xffu8
    } else if prefix <= 8 * index {
        0u8
    } else {
        !(0xffu8 >> ((prefix - 8 * index) as u8))
    }
}

/// The mask of `len` bytes whose first `prefix` bits are one and whose other
/// bits are zero.
pub open spec fn netmask_bytes(len: nat, prefix: nat) -> Seq<u8> {
    Seq::new(len, |i: int| mask_byte(prefix, i as nat))
}

/// The complement of `netmask_bytes`.
pub open spec fn hostmask_bytes(len: nat, prefix: nat) -> Seq<u8> {
    Seq::new(len, |i: int| !mask_byte(prefix, i as nat))
}

/// `address` with every bit after the first `prefix` cleared.
pub open spec fn network_bytes(address: Seq<u8>, prefix: nat) -> Seq<u8> {
    Seq::new(address.len(), |i: int| address[i] & mask_byte(prefix, i as nat))
}

/// `address` with every bit after the first `prefix` set.
pub open spec fn broadcast_bytes(address: Seq<u8>, prefix: nat) -> Seq<u8> {
    Seq::new(address.len(), |i: int| address[i] | !mask_byte(prefix, i as nat))
}

/// Every bit of `address` after the first `prefix` is zero.
pub open spec fn host_bits_zero(address: Seq<u8>, prefix: nat) -> bool {
    forall|i: int| prefix <= i < 8 * address.len() ==> !bit_at(address, i)
}

/// `a` and `b` agree on their first `prefix` bits.
pub open spec fn same_network_bits(a: Seq<u8>, b: Seq<u8>, prefix: nat) -> bool {
    forall|i: int| 0 <= i < prefix ==> bit_at(a, i) == bit_at(b, i)
}

proof fn lemma_partial_mask_bit(k: u8, j: u8)
    by (bit_vector)
    requires
        1 <= k < 8,
        j < 8,
    ensures
        (((!(0xffu8 >> k)) >> (7u8 - j) as u8) & 1u8 == 1u8) == (j < k),
{
}

proof fn lemma_full_mask_bit(j: u8)
    by (bit_vector)
    requires
        j < 8,
    ensures
        ((0xffu8 >> (7u8 - j) as u8) & 1u8 == 1u8),
        !((0u8 >> (7u8 - j) as u8) & 1u8 == 1u8),
{
}

proof fn lemma_and_bit(a: u8, m: u8, j: u8)
    by (bit_vector)
    requires
        j < 8,
    ensures
        (((a & m) >> (7u8 - j) as u8) & 1u8 == 1u8) == (((a >> (7u8 - j) as u8) & 1u8 == 1u8) && ((m
            >> (7u8 - j) as u8) & 1u8 == 1u8)),
{
}

proof fn lemma_or_not_bit(a: u8, m: u8, j: u8)
    by (bit_vector)
    requires
        j < 8,
    ensures
        (((a | !m) >> (7u8 - j) as u8) & 1u8 == 1u8) == (((a >> (7u8 - j) as u8) & 1u8 == 1u8) || !((
        m >> (7u8 - j) as u8) & 1u8 == 1u8)),
        (((!m) >> (7u8 - j) as u8) & 1u8 == 1u8) == !((m >> (7u8 - j) as u8) & 1u8 == 1u8),
{
}

proof fn lemma_xor_complement(m: u8)
    by (bit_vector)
    ensures
        m ^ !m == 0xffu8,
        m & !m == 0u8,
{
}

proof fn lemma_byte_of_bits(a: u8, b: u8)
    by (bit_vector)
    requires
        ((a >> 7u8) & 1u8 == 1u8) == ((b >> 7u8) & 1u8 == 1u8),
        ((a >> 6u8) & 1u8 == 1u8) == ((b >> 6u8) & 1u8 == 1u8),
        ((a >> 5u8) & 1u8 == 1u8) == ((b >> 5u8) & 1u8 == 1u8),
        ((a >> 4u8) & 1u8 == 1u8) == ((b >> 4u8) & 1u8 == 1u8),
        ((a >> 3u8) & 1u8 == 1u8) == ((b >> 3u8) & 1u8 == 1u8),
        ((a >> 2u8) & 1u8 == 1u8) == ((b >> 2u8) & 1u8 == 1u8),
        ((a >> 1u8) & 1u8 == 1u8) == ((b >> 1u8) & 1u8 == 1u8),
        ((a >> 0u8) & 1u8 == 1u8) == ((b >> 0u8) & 1u8 == 1u8),
    ensures
        a == b,
{
}

/// Bit `j` of mask byte `index` is one exactly when it lies among the first
/// `prefix` bits.
pub proof fn lemma_mask_byte_bit(prefix: nat, index: nat, j: u8)
    requires
        j < 8,
    ensures
        bit_of(mask_byte(prefix, index), j) == (8 * index + j < prefix),
{
    lemma_full_mask_bit(j);
    if 8 * index < prefix < 8 * index + 8 {
        lemma_partial_mask_bit((prefix - 8 * index) as u8, j);
    }
}

/// The bits of the netmask: one on the first `prefix` bits, zero after.
pub proof fn lemma_netmask_bits(len: nat, prefix: nat)
    ensures
        forall|i: int|
            0 <= i < 8 * len ==> #[trigger] bit_at(netmask_bytes(len, prefix), i) == (i < prefix),
{
    assert forall|i: int| 0 <= i < 8 * len implies #[trigger] bit_at(
        netmask_bytes(len, prefix),
        i,
    ) == (i < prefix) by {
        lemma_mask_byte_bit(prefix, (i / 8) as nat, (i % 8) as u8);
    }
}

/// The bits of the hostmask: zero on the first `prefix` bits, one after.
pub proof fn lemma_hostmask_bits(len: nat, prefix: nat)
    ensures
        forall|i: int|
            0 <= i < 8 * len ==> #[trigger] bit_at(hostmask_bytes(len, prefix), i) == (i >= prefix),
{
    assert forall|i: int| 0 <= i < 8 * len implies #[trigger] bit_at(
        hostmask_bytes(len, prefix),
        i,
    ) == (i >= prefix) by {
        let m = mask_byte(prefix, (i / 8) as nat);
        lemma_mask_byte_bit(prefix, (i / 8) as nat, (i % 8) as u8);
        lemma_or_not_bit(0u8, m, (i % 8) as u8);
    }
}

/// The bits of the network address: those of `address` on the first `prefix`
/// bits, zero after.
pub proof fn lemma_network_bits(address: Seq<u8>, prefix: nat)
    ensures
        forall|i: int|
            0 <= i < 8 * address.len() ==> #[trigger] bit_at(network_bytes(address, prefix), i) == (
            i < prefix && bit_at(address, i)),
{
    assert forall|i: int| 0 <= i < 8 * address.len() implies #[trigger] bit_at(
        network_bytes(address, prefix),
        i,
    ) == (i < prefix && bit_at(address, i)) by {
        let m = mask_byte(prefix, (i / 8) as nat);
        lemma_mask_byte_bit(prefix, (i / 8) as nat, (i % 8) as u8);
        lemma_and_bit(address[i / 8], m, (i % 8) as u8);
    }
}

/// The bits of the broadcast address: those of `address` on the first
/// `prefix` bits, one after.
pub proof fn lemma_broadcast_bits(address: Seq<u8>, prefix: nat)
    ensures
        forall|i: int|
            0 <= i < 8 * address.len() ==> #[trigger] bit_at(broadcast_bytes(address, prefix), i)
                == (i >= prefix || bit_at(address, i)),
{
    assert forall|i: int| 0 <= i < 8 * address.len() implies #[trigger] bit_at(
        broadcast_bytes(address, prefix),
        i,
    ) == (i >= prefix || bit_at(address, i)) by {
        let m = mask_byte(prefix, (i / 8) as nat);
        lemma_mask_byte_bit(prefix, (i / 8) as nat, (i % 8) as u8);
        lemma_or_not_bit(address[i / 8], m, (i % 8) as u8);
    }
}

/// Two byte sequences of one length that agree on every bit are equal.
pub proof fn lemma_bytes_of_bits(a: Seq<u8>, b: Seq<u8>)
    requires
        a.len() == b.len(),
        forall|i: int| 0 <= i < 8 * a.len() ==> bit_at(a, i) == bit_at(b, i),
    ensures
        a == b,
{
    assert forall|k: int| 0 <= k < a.len() implies a[k] == b[k] by {
        assert forall|j: u8| j < 8 implies bit_of(a[k], j) == bit_of(b[k], j) by {
            let i = 8 * k + j;
            assert(bit_at(a, i) == bit_at(b, i));
        }
        assert(bit_of(a[k], 0) == bit_of(b[k], 0));
        assert(bit_of(a[k], 1) == bit_of(b[k], 1));
        assert(bit_of(a[k], 2) == bit_of(b[k], 2));
        assert(bit_of(a[k], 3) == bit_of(b[k], 3));
        assert(bit_of(a[k], 4) == bit_of(b[k], 4));
        assert(bit_of(a[k], 5) == bit_of(b[k], 5));
        assert(bit_of(a[k], 6) == bit_of(b[k], 6));
        assert(bit_of(a[k], 7) == bit_of(b[k], 7));
        lemma_byte_of_bits(a[k], b[k]);
    }
}

/// Netmask and hostmask are complements: together they cover every bit, and
/// they share none.
pub proof fn lemma_masks_complement(len: nat, prefix: nat)
    ensures
        forall|k: int|
            0 <= k < len ==> #[trigger] netmask_bytes(len, prefix)[k] ^ hostmask_bytes(
                len,
                prefix,
            )[k] == 0xffu8,
        forall|k: int|
            0 <= k < len ==> #[trigger] netmask_bytes(len, prefix)[k] & hostmask_bytes(
                len,
                prefix,
            )[k] == 0u8,
{
    assert forall|k: int| 0 <= k < len implies #[trigger] netmask_bytes(len, prefix)[k]
        ^ hostmask_bytes(len, prefix)[k] == 0xffu8 by {
        lemma_xor_complement(mask_byte(prefix, k as nat));
    }
    assert forall|k: int| 0 <= k < len implies #[trigger] netmask_bytes(len, prefix)[k]
        & hostmask_bytes(len, prefix)[k] == 0u8 by {
        lemma_xor_complement(mask_byte(prefix, k as nat));
    }
}

/// Computes byte `index` of the mask of `prefix` leading one bits.
pub fn mask_byte_at(prefix: u8, index: usize) -> (m: u8)
    ensures
        m == mask_byte(prefix as nat, index as nat),
{
    if index >= 32 {
        0
    } else {
        let start: usize = 8 * index;
        let p: usize = prefix as usize;
        if p >= start + 8 {
            0xff
        } else if p <= start {
            0
        } else {
            !(0xffu8 >> ((p - start) as u8))
        }
    }
}

/// The netmask of `len` bytes for `prefix`.
pub fn netmask_of(len: usize, prefix: u8) -> (mask: Vec<u8>)
    ensures
        mask@ == netmask_bytes(len as nat, prefix as nat),
{
    let mut mask: Vec<u8> = Vec::new();
    let mut i: usize = 0;
    while i < len
        invariant
            i <= len,
            mask@.len() == i,
            forall|k: int| 0 <= k < i ==> mask@[k] == mask_byte(prefix as nat, k as nat),
        decreases len - i,
    {
        mask.push(mask_byte_at(prefix, i));
        i += 1;
    }
    mask
}

/// The hostmask of `len` bytes for `prefix`.
pub fn hostmask_of(len: usize, prefix: u8) -> (mask: Vec<u8>)
    ensures
        mask@ == hostmask_bytes(len as nat, prefix as nat),
{
    let mut mask: Vec<u8> = Vec::new();
    let mut i: usize = 0;
    while i < len
        invariant
            i <= len,
            mask@.len() == i,
            forall|k: int| 0 <= k < i ==> mask@[k] == !mask_byte(prefix as nat, k as nat),
        decreases len - i,
    {
        mask.push(!mask_byte_at(prefix, i));
        i += 1;
    }
    mask
}

/// `address` with its host bits cleared.
pub fn network_of(address: &[u8], prefix: u8) -> (masked: Vec<u8>)
    ensures
        masked@ == network_bytes(address@, prefix as nat),
{
    let mut masked: Vec<u8> = Vec::new();
    let mut i: usize = 0;
    while i < address.len()
        invariant
            i <= address.len(),
            masked@.len() == i,
            forall|k: int|
                0 <= k < i ==> masked@[k] == address@[k] & mask_byte(prefix as nat, k as nat),
        decreases address.len() - i,
    {
        masked.push(address[i] & mask_byte_at(prefix, i));
        i += 1;
    }
    masked
}

/// `address` with its host bits set.
pub fn broadcast_of(address: &[u8], prefix: u8) -> (filled: Vec<u8>)
    ensures
        filled@ == broadcast_bytes(address@, prefix as nat),
{
    let mut filled: Vec<u8> = Vec::new();
    let mut i: usize = 0;
    while i < address.len()
        invariant
            i <= address.len(),
            filled@.len() == i,
            forall|k: int|
                0 <= k < i ==> filled@[k] == address@[k] | !mask_byte(prefix as nat, k as nat),
        decreases address.len() - i,
    {
        filled.push(address[i] | !mask_byte_at(prefix, i));
        i += 1;
    }
    filled
}

} // verus!
