//! The network functions on one text each.
//!
//! Every function reads its argument as `notation::parse` does, computes on
//! the network value, and writes the result as text. None of them has a
//! precondition: a text that cannot be read is an error, never a panic.

use vstd::prelude::*;
use crate::error::{NetError, NetErrorView};
use crate::notation::{
    address_text, network_text, parse, parse_text, render_address, render_network,
};
use crate::value::{NetworkValue, NetworkView};

verus! {

/// The functions that derive one address from a network.
#[derive(Clone, Copy, Debug, PartialEq, Eq, Structural)]
pub enum Accessor {
    /// The last address of the network.
    Broadcast,
    /// The address of the network itself; the same as `Network`.
    Host,
    /// The complement of the network's mask.
    Hostmask,
    /// The network's mask.
    Netmask,
    /// The address with its host bits cleared.
    Network,
}

impl Accessor {
    /// What the accessor makes of a network value.
    pub open spec fn of(self, value: NetworkView) -> NetworkView {
        match self {
            Accessor::Broadcast => value.broadcast(),
            Accessor::Host => value.network(),
            Accessor::Hostmask => value.hostmask(),
            Accessor::Netmask => value.netmask(),
            Accessor::Network => value.network(),
        }
    }

    /// Applies the accessor to a network value.
    pub fn apply(self, value: &NetworkValue) -> (derived: NetworkValue)
        requires
            value.wf(),
        ensures
            derived.wf(),
            derived@ == self.of(value@),
    {
        match self {
            Accessor::Broadcast => value.broadcast(),
            Accessor::Host => value.network(),
            Accessor::Hostmask => value.hostmask(),
            Accessor::Netmask => value.netmask(),
            Accessor::Network => value.network(),
        }
    }
}

/// A result with its texts and errors taken as mathematical values.
pub open spec fn text_outcome(result: Result<String, NetError>) -> Result<Seq<char>, NetErrorView> {
    match result {
        Ok(text) => Ok(text@),
        Err(e) => Err(e@),
    }
}

/// A result with its error taken as a mathematical value.
pub open spec fn plain_outcome<T>(result: Result<T, NetError>) -> Result<T, NetErrorView> {
    match result {
        Ok(value) => Ok(value),
        Err(e) => Err(e@),
    }
}

/// The address that `accessor` derives from the network in `text`, as text.
pub open spec fn accessor_text(accessor: Accessor, text: Seq<char>) -> Result<
    Seq<char>,
    NetErrorView,
> {
    match parse_text(text) {
        Ok(parsed) => Ok(address_text(parsed.value.family, accessor.of(parsed.value).address)),
        Err(e) => Err(e),
    }
}

/// The family number, 4 or 6, of the network in `text`.
pub open spec fn family_text(text: Seq<char>) -> Result<u8, NetErrorView> {
    match parse_text(text) {
        Ok(parsed) => Ok(parsed.value.family.spec_number() as u8),
        Err(e) => Err(e),
    }
}

/// The prefix length of the network in `text`.
pub open spec fn masklen_text(text: Seq<char>) -> Result<u8, NetErrorView> {
    match parse_text(text) {
        Ok(parsed) => Ok(parsed.value.prefix_length as u8),
        Err(e) => Err(e),
    }
}

/// Whether the networks in the two texts are of one family.
pub open spec fn same_family_text(first: Seq<char>, second: Seq<char>) -> Result<
    bool,
    NetErrorView,
> {
    match parse_text(first) {
        Ok(a) => match parse_text(second) {
            Ok(b) => Ok(a.value.family == b.value.family),
            Err(e) => Err(e),
        },
        Err(e) => Err(e),
    }
}

/// The smallest network that holds the networks in the two texts, as
/// `address/prefix`.
pub open spec fn merge_text(first: Seq<char>, second: Seq<char>) -> Result<
    Seq<char>,
    NetErrorView,
> {
    match parse_text(first) {
        Ok(a) => match parse_text(second) {
            Ok(b) => if a.value.family == b.value.family {
                Ok(network_text(a.value.merge(b.value)))
            } else {
                Err(NetErrorView::FamilyMismatch)
            },
            Err(e) => Err(e),
        },
        Err(e) => Err(e),
    }
}

/// The network in `text` with prefix length `prefix`, as `address/prefix`.
/// Where the text gave a prefix length itself, the bits after the new
/// prefix are cleared; where it was a bare address, the address is kept.
pub open spec fn set_masklen_text(text: Seq<char>, prefix: int) -> Result<
    Seq<char>,
    NetErrorView,
> {
    match parse_text(text) {
        Ok(parsed) => if 0 <= prefix <= parsed.value.family.spec_max_prefix_len() {
            Ok(
                network_text(
                    parsed.value.set_masklen(prefix as nat, parsed.is_explicit_cidr),
                ),
            )
        } else {
            Err(NetErrorView::InvalidMaskLength(prefix))
        },
        Err(e) => Err(e),
    }
}

/// Applies `accessor` to the network in `text` and writes the address.
pub fn access(accessor: Accessor, text: &str) -> (result: Result<String, NetError>)
    ensures
        text_outcome(result) == accessor_text(accessor, text@),
{
    match parse(text) {
        Ok(parsed) => {
            let derived = accessor.apply(&parsed.value);
            Ok(render_address(&derived))
        },
        Err(e) => Err(e),
    }
}

/// The broadcast address of the network in `text`.
pub fn broadcast(text: &str) -> (result: Result<String, NetError>)
    ensures
        text_outcome(result) == accessor_text(Accessor::Broadcast, text@),
{
    access(Accessor::Broadcast, text)
}

/// The address of the network in `text`, host bits cleared.
pub fn host(text: &str) -> (result: Result<String, NetError>)
    ensures
        text_outcome(result) == accessor_text(Accessor::Host, text@),
{
    access(Accessor::Host, text)
}

/// The host mask of the network in `text`.
pub fn hostmask(text: &str) -> (result: Result<String, NetError>)
    ensures
        text_outcome(result) == accessor_text(Accessor::Hostmask, text@),
{
    access(Accessor::Hostmask, text)
}

/// The mask of the network in `text`.
pub fn netmask(text: &str) -> (result: Result<String, NetError>)
    ensures
        text_outcome(result) == accessor_text(Accessor::Netmask, text@),
{
    access(Accessor::Netmask, text)
}

/// The network part of the address in `text`.
pub fn network(text: &str) -> (result: Result<String, NetError>)
    ensures
        text_outcome(result) == accessor_text(Accessor::Network, text@),
{
    access(Accessor::Network, text)
}

/// The family of the network in `text`: 4 for IPv4, 6 for IPv6.
pub fn family(text: &str) -> (result: Result<u8, NetError>)
    ensures
        plain_outcome(result) == family_text(text@),
{
    match parse(text) {
        Ok(parsed) => Ok(parsed.value.family().number()),
        Err(e) => Err(e),
    }
}

/// The prefix length of the network in `text`.
pub fn masklen(text: &str) -> (result: Result<u8, NetError>)
    ensures
        plain_outcome(result) == masklen_text(text@),
{
    match parse(text) {
        Ok(parsed) => Ok(parsed.value.masklen()),
        Err(e) => Err(e),
    }
}

/// Whether the two texts hold networks of one family. Different families
/// are an ordinary `false`, not an error.
pub fn inet_same_family(first: &str, second: &str) -> (result: Result<bool, NetError>)
    ensures
        plain_outcome(result) == same_family_text(first@, second@),
{
    match parse(first) {
        Ok(a) => match parse(second) {
            Ok(b) => Ok(a.value.same_family(&b.value)),
            Err(e) => Err(e),
        },
        Err(e) => Err(e),
    }
}

/// The smallest network that holds the networks in both texts.
///
/// Fails with `FamilyMismatch` when both texts can be read and their
/// families differ.
pub fn inet_merge(first: &str, second: &str) -> (result: Result<String, NetError>)
    ensures
        text_outcome(result) == merge_text(first@, second@),
{
    match parse(first) {
        Ok(a) => match parse(second) {
            Ok(b) => match a.value.merge(&b.value) {
                Ok(merged) => Ok(render_network(&merged)),
                Err(e) => Err(e),
            },
            Err(e) => Err(e),
        },
        Err(e) => Err(e),
    }
}

/// The network in `text` with the prefix length `prefix`.
///
/// Fails with `InvalidMaskLength(prefix)` when the text can be read and
/// `prefix` is negative or over the family's bound.
pub fn set_masklen(text: &str, prefix: i64) -> (result: Result<String, NetError>)
    ensures
        text_outcome(result) == set_masklen_text(text@, prefix as int),
{
    match parse(text) {
        Ok(parsed) => match parsed.value.set_masklen(prefix, parsed.is_explicit_cidr) {
            Ok(value) => Ok(render_network(&value)),
            Err(e) => Err(e),
        },
        Err(e) => Err(e),
    }
}

} // verus!
