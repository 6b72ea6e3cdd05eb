//! The network value: an address family, the address bytes and a prefix
//! length.

use vstd::prelude::*;
use crate::error::{NetError, NetErrorView};
use crate::laws::{
    lemma_broadcast_sets_host_bits, lemma_mask_bits, lemma_merge_covers,
    lemma_network_clears_host_bits,
};
use crate::mask::{
    broadcast_bytes, broadcast_of, host_bits_zero, hostmask_bytes, hostmask_of, netmask_bytes,
    netmask_of, network_bytes, network_of, same_network_bits,
};
use crate::prefix::{bit_at, bit_in_common, common_prefix_len};

verus! {

/// IPv4 or IPv6.
#[derive(Clone, Copy, Debug, PartialEq, Eq, Structural)]
pub enum Family {
    V4,
    V6,
}

impl Family {
    /// Bytes in an address of this family.
    pub open spec fn spec_byte_len(self) -> nat {
        match self {
            Family::V4 => 4,
            Family::V6 => 16,
        }
    }

    /// Bits in an address of this family: the largest prefix length.
    pub open spec fn spec_max_prefix_len(self) -> nat {
        8 * self.spec_byte_len()
    }

    /// The family's number: 4 or 6.
    pub open spec fn spec_number(self) -> nat {
        match self {
            Family::V4 => 4,
            Family::V6 => 6,
        }
    }

    pub fn byte_len(self) -> (len: usize)
        ensures
            len == self.spec_byte_len(),
    {
        match self {
            Family::V4 => 4,
            Family::V6 => 16,
        }
    }

    pub fn max_prefix_len(self) -> (bits: u8)
        ensures
            bits == self.spec_max_prefix_len(),
    {
        match self {
            Family::V4 => 32,
            Family::V6 => 128,
        }
    }

    pub fn number(self) -> (n: u8)
        ensures
            n == self.spec_number(),
    {
        match self {
            Family::V4 => 4,
            Family::V6 => 6,
        }
    }
}

/// The mathematical value of a `NetworkValue`.
pub struct NetworkView {
    pub family: Family,
    pub address: Seq<u8>,
    pub prefix_length: nat,
}

impl NetworkView {
    /// The address has the family's length and the prefix length does not
    /// exceed the address's bits.
    pub open spec fn wf(self) -> bool {
        &&& self.address.len() == self.family.spec_byte_len()
        &&& self.prefix_length <= 8 * self.address.len()
    }

    /// The same network with its host bits cleared.
    pub open spec fn network(self) -> NetworkView {
        NetworkView { address: network_bytes(self.address, self.prefix_length), ..self }
    }

    /// The last address of the network: host bits set.
    pub open spec fn broadcast(self) -> NetworkView {
        NetworkView { address: broadcast_bytes(self.address, self.prefix_length), ..self }
    }

    /// The network's mask, as a single address.
    pub open spec fn netmask(self) -> NetworkView {
        NetworkView {
            family: self.family,
            address: netmask_bytes(self.address.len(), self.prefix_length),
            prefix_length: 8 * self.address.len(),
        }
    }

    /// The complement of the network's mask, as a single address.
    pub open spec fn hostmask(self) -> NetworkView {
        NetworkView {
            family: self.family,
            address: hostmask_bytes(self.address.len(), self.prefix_length),
            prefix_length: 8 * self.address.len(),
        }
    }

    /// `address` lies in this network: it has the network's leading bits.
    pub open spec fn contains(self, address: Seq<u8>) -> bool {
        same_network_bits(self.address, address, self.prefix_length)
    }

    /// The smaller of the two prefix lengths.
    pub open spec fn min_prefix(self, other: NetworkView) -> nat {
        if self.prefix_length <= other.prefix_length {
            self.prefix_length
        } else {
            other.prefix_length
        }
    }

    /// Leading bits that the two networks' addresses share, counted no
    /// further than the shorter prefix.
    pub open spec fn common_bits(self, other: NetworkView) -> nat {
        common_prefix_len(
            self.network().address,
            other.network().address,
            self.min_prefix(other),
        )
    }

    /// The smallest network that holds both networks: this one's address cut
    /// to the bits that the two share.
    pub open spec fn merge(self, other: NetworkView) -> NetworkView {
        NetworkView {
            family: self.family,
            address: network_bytes(self.address, self.common_bits(other)),
            prefix_length: self.common_bits(other),
        }
    }

    /// The value with prefix length `prefix`. With `truncate` the bits after
    /// the new prefix are cleared; without it the address stays as it is.
    pub open spec fn set_masklen(self, prefix: nat, truncate: bool) -> NetworkView {
        NetworkView {
            family: self.family,
            address: if truncate {
                network_bytes(self.address, prefix)
            } else {
                self.address
            },
            prefix_length: prefix,
        }
    }
}

/// An address with a prefix length.
///
/// A value built by this module is well formed (`wf`): the address has 4
/// bytes for IPv4 and 16 for IPv6, and the prefix length is at most 32 or 128.
#[derive(Clone, Debug, PartialEq, Eq)]
pub struct NetworkValue {
    pub(crate) family: Family,
    pub(crate) address: Vec<u8>,
    pub(crate) prefix_length: u8,
}

impl View for NetworkValue {
    type V = NetworkView;

    closed spec fn view(&self) -> NetworkView {
        NetworkView {
            family: self.family,
            address: self.address@,
            prefix_length: self.prefix_length as nat,
        }
    }
}

impl NetworkValue {
    pub open spec fn wf(&self) -> bool {
        self@.wf()
    }

    /// Builds a value from its parts.
    pub(crate) fn from_parts(family: Family, address: Vec<u8>, prefix_length: u8) -> (value: Self)
        requires
            address@.len() == family.spec_byte_len(),
            prefix_length <= family.spec_max_prefix_len(),
        ensures
            value.wf(),
            value@ == (NetworkView {
                family,
                address: address@,
                prefix_length: prefix_length as nat,
            }),
    {
        NetworkValue { family, address, prefix_length }
    }

    /// An IPv4 network. Fails when `prefix_length` is over 32.
    pub fn v4(octets: [u8; 4], prefix_length: u8) -> (result: Result<Self, NetError>)
        ensures
            prefix_length <= 32 <==> result is Ok,
            result matches Ok(value) ==> value.wf() && value@ == (NetworkView {
                family: Family::V4,
                address: octets@,
                prefix_length: prefix_length as nat,
            }),
            result matches Err(e) ==> e@ == NetErrorView::InvalidMaskLength(prefix_length as int),
    {
        if prefix_length > 32 {
            return Err(NetError::InvalidMaskLength(prefix_length as i64));
        }
        let mut address: Vec<u8> = Vec::new();
        let mut i: usize = 0;
        while i < 4
            invariant
                i <= 4,
                address@.len() == i,
                forall|k: int| 0 <= k < i ==> address@[k] == octets@[k],
            decreases 4 - i,
        {
            address.push(octets[i]);
            i += 1;
        }
        assert(address@ =~= octets@);
        Ok(NetworkValue::from_parts(Family::V4, address, prefix_length))
    }

    /// An IPv6 network. Fails when `prefix_length` is over 128.
    pub fn v6(octets: [u8; 16], prefix_length: u8) -> (result: Result<Self, NetError>)
        ensures
            prefix_length <= 128 <==> result is Ok,
            result matches Ok(value) ==> value.wf() && value@ == (NetworkView {
                family: Family::V6,
                address: octets@,
                prefix_length: prefix_length as nat,
            }),
            result matches Err(e) ==> e@ == NetErrorView::InvalidMaskLength(prefix_length as int),
    {
        if prefix_length > 128 {
            return Err(NetError::InvalidMaskLength(prefix_length as i64));
        }
        let mut address: Vec<u8> = Vec::new();
        let mut i: usize = 0;
        while i < 16
            invariant
                i <= 16,
                address@.len() == i,
                forall|k: int| 0 <= k < i ==> address@[k] == octets@[k],
            decreases 16 - i,
        {
            address.push(octets[i]);
            i += 1;
        }
        assert(address@ =~= octets@);
        Ok(NetworkValue::from_parts(Family::V6, address, prefix_length))
    }

    /// The address family.
    pub fn family(&self) -> (family: Family)
        ensures
            family == self@.family,
    {
        self.family
    }

    /// The address bytes, as they were given: not masked.
    pub fn octets(&self) -> (bytes: &Vec<u8>)
        ensures
            bytes@ == self@.address,
    {
        &self.address
    }

    /// The prefix length: the number of leading bits that name the network.
    pub fn masklen(&self) -> (bits: u8)
        ensures
            bits == self@.prefix_length,
    {
        self.prefix_length
    }

    /// The network with its host bits cleared: the first `prefix_length`
    /// bits are those of the address, every later bit is zero.
    pub fn network(&self) -> (net: NetworkValue)
        requires
            self.wf(),
        ensures
            net.wf(),
            net@ == self@.network(),
            net@.prefix_length == self@.prefix_length,
            same_network_bits(net@.address, self@.address, self@.prefix_length),
            host_bits_zero(net@.address, self@.prefix_length),
    {
        proof {
            lemma_network_clears_host_bits(self@);
        }
        let address = network_of(self.address.as_slice(), self.prefix_length);
        NetworkValue::from_parts(self.family, address, self.prefix_length)
    }

    /// The network's broadcast address: the first `prefix_length` bits are
    /// those of the address, every later bit is one.
    pub fn broadcast(&self) -> (last: NetworkValue)
        requires
            self.wf(),
        ensures
            last.wf(),
            last@ == self@.broadcast(),
            same_network_bits(last@.address, self@.address, self@.prefix_length),
            forall|i: int|
                self@.prefix_length <= i < 8 * self@.address.len() ==> bit_at(last@.address, i),
    {
        proof {
            lemma_broadcast_sets_host_bits(self@);
        }
        let address = broadcast_of(self.address.as_slice(), self.prefix_length);
        NetworkValue::from_parts(self.family, address, self.prefix_length)
    }

    /// The network's mask: an address whose first `prefix_length` bits are
    /// one and whose other bits are zero.
    pub fn netmask(&self) -> (mask: NetworkValue)
        requires
            self.wf(),
        ensures
            mask.wf(),
            mask@ == self@.netmask(),
            forall|i: int|
                0 <= i < 8 * self@.address.len() ==> #[trigger] bit_at(mask@.address, i) == (i
                    < self@.prefix_length),
    {
        proof {
            lemma_mask_bits(self@);
        }
        let address = netmask_of(self.family.byte_len(), self.prefix_length);
        NetworkValue::from_parts(self.family, address, self.family.max_prefix_len())
    }

    /// The complement of the network's mask: an address whose first
    /// `prefix_length` bits are zero and whose other bits are one.
    pub fn hostmask(&self) -> (mask: NetworkValue)
        requires
            self.wf(),
        ensures
            mask.wf(),
            mask@ == self@.hostmask(),
            forall|i: int|
                0 <= i < 8 * self@.address.len() ==> #[trigger] bit_at(mask@.address, i) == (i
                    >= self@.prefix_length),
    {
        proof {
            lemma_mask_bits(self@);
        }
        let address = hostmask_of(self.family.byte_len(), self.prefix_length);
        NetworkValue::from_parts(self.family, address, self.family.max_prefix_len())
    }

    /// Whether the two values are of one family.
    pub fn same_family(&self, other: &NetworkValue) -> (same: bool)
        ensures
            same == (self@.family == other@.family),
    {
        self.family == other.family
    }

    /// The smallest network that holds both `self` and `other`.
    ///
    /// Fails with `FamilyMismatch` exactly when the families differ.
    pub fn merge(&self, other: &NetworkValue) -> (result: Result<NetworkValue, NetError>)
        requires
            self.wf(),
            other.wf(),
        ensures
            result is Ok <==> self@.family == other@.family,
            result matches Ok(merged) ==> merged.wf() && merged@ == self@.merge(other@),
            result matches Ok(merged) ==> merged@.prefix_length <= self@.prefix_length
                && merged@.prefix_length <= other@.prefix_length,
            result matches Ok(merged) ==> merged@.contains(self@.address) && merged@.contains(
                other@.address,
            ),
            result matches Err(e) ==> e@ == NetErrorView::FamilyMismatch,
    {
        if self.family != other.family {
            return Err(NetError::FamilyMismatch);
        }
        proof {
            lemma_merge_covers(self@, other@);
        }
        let min_prefix: u8 = if self.prefix_length <= other.prefix_length {
            self.prefix_length
        } else {
            other.prefix_length
        };
        let first = network_of(self.address.as_slice(), self.prefix_length);
        let second = network_of(other.address.as_slice(), other.prefix_length);
        let common = bit_in_common(first.as_slice(), second.as_slice(), min_prefix as usize);
        let common_bits: u8 = common as u8;
        let address = network_of(self.address.as_slice(), common_bits);
        Ok(NetworkValue::from_parts(self.family, address, common_bits))
    }

    /// The value with a new prefix length.
    ///
    /// Fails with `InvalidMaskLength(prefix)` exactly when `prefix` is
    /// negative or over the family's bound (32 or 128). With `truncate` the
    /// address bits after the new prefix are cleared; without it the address
    /// is kept and only the prefix length changes.
    pub fn set_masklen(&self, prefix: i64, truncate: bool) -> (result: Result<
        NetworkValue,
        NetError,
    >)
        requires
            self.wf(),
        ensures
            result is Ok <==> 0 <= prefix <= self@.family.spec_max_prefix_len(),
            result matches Ok(value) ==> value.wf() && value@ == self@.set_masklen(
                prefix as nat,
                truncate,
            ),
            result matches Err(e) ==> e@ == NetErrorView::InvalidMaskLength(prefix as int),
    {
        if prefix < 0 || prefix > self.family.max_prefix_len() as i64 {
            return Err(NetError::InvalidMaskLength(prefix));
        }
        let bits: u8 = prefix as u8;
        let address = if truncate {
            network_of(self.address.as_slice(), bits)
        } else {
            self.address.clone()
        };
        Ok(NetworkValue::from_parts(self.family, address, bits))
    }
}

} // verus!
