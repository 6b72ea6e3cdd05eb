//! What holds of the network functions for every input.

use vstd::prelude::*;
use crate::columns::column_outcome;
use crate::error::NetErrorView;
use crate::inet::{merge_text, set_masklen_text};
use crate::notation::parse_text;
use crate::mask::{
    host_bits_zero, lemma_broadcast_bits, lemma_bytes_of_bits, lemma_hostmask_bits,
    lemma_masks_complement, lemma_netmask_bits, lemma_network_bits, network_bytes,
    same_network_bits,
};
use crate::prefix::{bit_at, lemma_common_prefix_len};
use crate::value::NetworkView;

verus! {

/// Clearing the host bits keeps the first `prefix` bits of the address and
/// leaves every later bit zero.
pub proof fn lemma_network_clears_host_bits(v: NetworkView)
    requires
        v.wf(),
    ensures
        v.network().wf(),
        v.network().prefix_length == v.prefix_length,
        same_network_bits(v.network().address, v.address, v.prefix_length),
        host_bits_zero(v.network().address, v.prefix_length),
{
    lemma_network_bits(v.address, v.prefix_length);
}

/// The broadcast address keeps the first `prefix` bits of the address and
/// has every later bit one.
pub proof fn lemma_broadcast_sets_host_bits(v: NetworkView)
    requires
        v.wf(),
    ensures
        v.broadcast().wf(),
        same_network_bits(v.broadcast().address, v.address, v.prefix_length),
        forall|i: int|
            v.prefix_length <= i < 8 * v.address.len() ==> bit_at(v.broadcast().address, i),
{
    lemma_broadcast_bits(v.address, v.prefix_length);
}

/// The netmask has a one on each of the first `prefix` bits and a zero on
/// every later bit; the hostmask has them the other way round.
pub proof fn lemma_mask_bits(v: NetworkView)
    requires
        v.wf(),
    ensures
        v.netmask().wf(),
        v.hostmask().wf(),
        forall|i: int|
            0 <= i < 8 * v.address.len() ==> #[trigger] bit_at(v.netmask().address, i) == (i
                < v.prefix_length),
        forall|i: int|
            0 <= i < 8 * v.address.len() ==> #[trigger] bit_at(v.hostmask().address, i) == (i
                >= v.prefix_length),
{
    lemma_netmask_bits(v.address.len(), v.prefix_length);
    lemma_hostmask_bits(v.address.len(), v.prefix_length);
}

/// Netmask and hostmask are complements: byte by byte their exclusive or is
/// all ones.
pub proof fn lemma_netmask_xor_hostmask(v: NetworkView)
    requires
        v.wf(),
    ensures
        v.netmask().address.len() == v.hostmask().address.len() == v.address.len(),
        forall|k: int|
            0 <= k < v.address.len() ==> #[trigger] v.netmask().address[k]
                ^ v.hostmask().address[k] == 0xffu8,
{
    lemma_masks_complement(v.address.len(), v.prefix_length);
}

/// Clearing the host bits changes nothing exactly when they are zero
/// already.
pub proof fn lemma_network_fixed_point(address: Seq<u8>, prefix: nat)
    ensures
        network_bytes(address, prefix) == address <==> host_bits_zero(address, prefix),
{
    lemma_network_bits(address, prefix);
    if host_bits_zero(address, prefix) {
        lemma_bytes_of_bits(network_bytes(address, prefix), address);
    }
}

/// Clearing host bits twice is clearing them once, at the shorter prefix.
pub proof fn lemma_network_twice(address: Seq<u8>, outer: nat, inner: nat)
    requires
        inner <= outer,
    ensures
        network_bytes(network_bytes(address, outer), inner) == network_bytes(address, inner),
{
    lemma_network_bits(address, outer);
    lemma_network_bits(address, inner);
    lemma_network_bits(network_bytes(address, outer), inner);
    lemma_bytes_of_bits(
        network_bytes(network_bytes(address, outer), inner),
        network_bytes(address, inner),
    );
}

/// The network of a value whose host bits are zero is the value itself, so
/// its prefix length is the one that the value came with.
pub proof fn lemma_masklen_of_network(v: NetworkView)
    requires
        v.wf(),
        host_bits_zero(v.address, v.prefix_length),
    ensures
        v.network() == v,
        v.network().prefix_length == v.prefix_length,
{
    lemma_network_fixed_point(v.address, v.prefix_length);
}

/// Setting the same prefix length a second time changes nothing, as long as
/// the second call treats its input as the first did.
pub proof fn lemma_set_masklen_idempotent(v: NetworkView, prefix: nat, truncate: bool)
    requires
        v.wf(),
        prefix <= v.family.spec_max_prefix_len(),
    ensures
        v.set_masklen(prefix, truncate).wf(),
        v.set_masklen(prefix, truncate).set_masklen(prefix, truncate) == v.set_masklen(
            prefix,
            truncate,
        ),
{
    lemma_network_twice(v.address, prefix, prefix);
}

/// The result of setting a prefix length always carries that prefix length,
/// and so reads as a network when it is taken up again. Setting the same
/// length on it once more, now with truncation, changes nothing exactly when
/// the first call truncated or the address had no bits after the prefix.
pub proof fn lemma_set_masklen_again_as_network(v: NetworkView, prefix: nat, truncate: bool)
    requires
        v.wf(),
        prefix <= v.family.spec_max_prefix_len(),
    ensures
        v.set_masklen(prefix, truncate).set_masklen(prefix, true) == v.set_masklen(
            prefix,
            truncate,
        ) <==> (truncate || host_bits_zero(v.address, prefix)),
{
    lemma_network_twice(v.address, prefix, prefix);
    lemma_network_fixed_point(v.address, prefix);
}

/// The merged network is no longer than the shorter of the two prefixes,
/// holds both addresses, has no host bits, and no longer prefix would do.
pub proof fn lemma_merge_covers(x: NetworkView, y: NetworkView)
    requires
        x.wf(),
        y.wf(),
        x.family == y.family,
    ensures
        x.merge(y).wf(),
        x.merge(y).prefix_length <= x.prefix_length,
        x.merge(y).prefix_length <= y.prefix_length,
        x.merge(y).contains(x.address),
        x.merge(y).contains(y.address),
        host_bits_zero(x.merge(y).address, x.merge(y).prefix_length),
        forall|k: nat|
            k <= x.min_prefix(y) && same_network_bits(x.address, y.address, k) ==> k <= x.merge(
                y,
            ).prefix_length,
{
    let first = x.network().address;
    let second = y.network().address;
    let bound = x.min_prefix(y);
    let common = x.common_bits(y);
    lemma_common_prefix_len(first, second, bound);
    lemma_network_bits(x.address, x.prefix_length);
    lemma_network_bits(y.address, y.prefix_length);
    lemma_network_bits(x.address, common);
    assert forall|i: int| 0 <= i < common implies bit_at(x.merge(y).address, i) == bit_at(
        y.address,
        i,
    ) by {
        assert(bit_at(first, i) == bit_at(second, i));
    }
}

/// Two texts that read as networks of different families do not merge: the
/// call fails with `FamilyMismatch`.
pub proof fn lemma_merge_family_mismatch(first: Seq<char>, second: Seq<char>)
    requires
        parse_text(first) is Ok,
        parse_text(second) is Ok,
        parse_text(first)->Ok_0.value.family != parse_text(second)->Ok_0.value.family,
    ensures
        merge_text(first, second) == Err::<Seq<char>, NetErrorView>(NetErrorView::FamilyMismatch),
{
}

/// A prefix length over the family's bound, 32 or 128, or under zero, is
/// refused with `InvalidMaskLength` and the offending length, whatever the
/// address.
pub proof fn lemma_set_masklen_out_of_range(text: Seq<char>, prefix: int)
    requires
        parse_text(text) is Ok,
        prefix < 0 || prefix > parse_text(text)->Ok_0.value.family.spec_max_prefix_len(),
    ensures
        set_masklen_text(text, prefix) == Err::<Seq<char>, NetErrorView>(
            NetErrorView::InvalidMaskLength(prefix),
        ),
{
}

/// A column function keeps the number of rows, and a row with a missing
/// argument gives a missing result: it is never the reason for an error.
pub proof fn lemma_missing_rows_stay_missing<V, E>(
    rows: Seq<Option<Result<V, E>>>,
    result: Result<Seq<Option<V>>, E>,
)
    requires
        column_outcome(rows, result),
    ensures
        result matches Ok(out) ==> out.len() == rows.len() && forall|i: int|
            0 <= i < rows.len() && #[trigger] rows[i] is None ==> out[i] is None,
        result is Err <==> exists|k: int|
            0 <= k < rows.len() && #[trigger] rows[k] matches Some(Err(_)),
{
    match result {
        Ok(out) => {
            assert forall|k: int| 0 <= k < rows.len() implies !(#[trigger] rows[k] matches Some(
                Err(_),
            )) by {
                let row = rows[k];
            }
        },
        Err(e) => {},
    }
}

/// The rows decide the outcome of a column function: no two results fit the
/// same rows.
pub proof fn lemma_column_outcome_unique<V, E>(
    rows: Seq<Option<Result<V, E>>>,
    first: Result<Seq<Option<V>>, E>,
    second: Result<Seq<Option<V>>, E>,
)
    requires
        column_outcome(rows, first),
        column_outcome(rows, second),
    ensures
        first == second,
{
    lemma_missing_rows_stay_missing(rows, first);
    lemma_missing_rows_stay_missing(rows, second);
    match (first, second) {
        (Ok(a), Ok(b)) => {
            assert forall|i: int| 0 <= i < a.len() implies a[i] == b[i] by {
                let row = rows[i];
            }
            assert(a =~= b);
        },
        _ => {},
    }
}

} // verus!
