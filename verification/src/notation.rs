//! Addresses and networks as text.
//!
//! Reading and writing the textual forms is left to `ipnet` and, through
//! it, to the standard library. What they return is stated here where a few
//! lines can state it (the text of an IPv4 address, the `/prefix` of a
//! network) and named where they cannot (what a text reads as, the text of
//! an IPv6 address). Either way it is believed, not proved: the contracts
//! of the six private functions marked `external_body` rest on code that
//! Verus has not read. Everything else in this module is proved from them.

use vstd::prelude::*;
use crate::decimal::decimal_text;
use crate::error::{NetError, NetErrorView, ParseCause};
use crate::value::{Family, NetworkValue, NetworkView};

verus! {

/// The error of `ipnet`'s parsers. It says nothing beyond "not a network".
#[verifier::external_type_specification]
#[verifier::external_body]
pub struct ExAddrParseError(ipnet::AddrParseError);

/// What `ipnet` reads from a text of the form `address/prefix`: the network,
/// or nothing where the text has no such form.
pub uninterp spec fn cidr_text_value(text: Seq<char>) -> Option<NetworkView>;

/// What the standard library reads from the text of a bare address: the
/// address as a host network (full prefix length), or nothing.
pub uninterp spec fn address_text_value(text: Seq<char>) -> Option<NetworkView>;

/// The text of an IPv4 address: its four bytes in decimal, without leading
/// zeros, with a dot between one and the next.
pub open spec fn ipv4_text(octets: Seq<u8>) -> Seq<char> {
    decimal_text(octets[0] as nat) + seq!['.'] + decimal_text(octets[1] as nat) + seq!['.']
        + decimal_text(octets[2] as nat) + seq!['.'] + decimal_text(octets[3] as nat)
}

/// The standard library's text for the sixteen bytes of an IPv6 address.
pub uninterp spec fn ipv6_text(octets: Seq<u8>) -> Seq<char>;

/// The text of an address of either family.
pub open spec fn address_text(family: Family, address: Seq<u8>) -> Seq<char> {
    match family {
        Family::V4 => ipv4_text(address),
        Family::V6 => ipv6_text(address),
    }
}

/// The text of a network: its address, a slash, and the prefix length in
/// decimal.
pub open spec fn network_text(value: NetworkView) -> Seq<char> {
    address_text(value.family, value.address) + seq!['/'] + decimal_text(value.prefix_length)
}

/// Calls `ipnet::IpNet::from_str`, which reads `address/prefix` in either
/// family and accepts a prefix of at most 32 (IPv4) or 128 (IPv6).
///
/// Believed: the result depends on the text alone, and a network that is
/// returned is well formed.
#[verifier::external_body]
pub(crate) fn parse_cidr(text: &str) -> (result: Result<NetworkValue, ipnet::AddrParseError>)
    ensures
        result matches Ok(value) ==> value.wf() && cidr_text_value(text@) == Some(value@),
        result is Err ==> cidr_text_value(text@) is None,
{
    let net: ipnet::IpNet = text.parse()?;
    Ok(
        match net {
            ipnet::IpNet::V4(n) => NetworkValue {
                family: Family::V4,
                address: n.addr().octets().to_vec(),
                prefix_length: n.prefix_len(),
            },
            ipnet::IpNet::V6(n) => NetworkValue {
                family: Family::V6,
                address: n.addr().octets().to_vec(),
                prefix_length: n.prefix_len(),
            },
        },
    )
}

/// Calls the standard library's parser of addresses (`FromStr` for the
/// `IpAddr` that `ipnet::IpNet::new` takes), and `ipnet::IpNet::from`, which
/// makes of an address the network of that one host. The prefix length
/// given to `new` only carries the address and is not read again.
///
/// Believed: the result depends on the text alone, and a network that is
/// returned is well formed and has the full prefix length of its family.
#[verifier::external_body]
pub(crate) fn parse_address(text: &str) -> (result: Option<NetworkValue>)
    ensures
        result matches Some(value) ==> value.wf() && value@.prefix_length
            == value@.family.spec_max_prefix_len() && address_text_value(text@) == Some(value@),
        result is None ==> address_text_value(text@) is None,
{
    let carrier = ipnet::IpNet::new(text.parse().ok()?, 0).ok()?;
    Some(
        match ipnet::IpNet::from(carrier.addr()) {
            ipnet::IpNet::V4(n) => NetworkValue {
                family: Family::V4,
                address: n.addr().octets().to_vec(),
                prefix_length: n.prefix_len(),
            },
            ipnet::IpNet::V6(n) => NetworkValue {
                family: Family::V6,
                address: n.addr().octets().to_vec(),
                prefix_length: n.prefix_len(),
            },
        },
    )
}

/// Calls `Display` of the standard library's IPv4 address, which
/// `ipnet::Ipv4Net::addr` hands out for the four bytes.
///
/// Believed: it writes the four bytes in decimal with dots between them,
/// the notation that the standard library documents for this type.
#[verifier::external_body]
pub(crate) fn render_ipv4(octets: &Vec<u8>) -> (text: String)
    requires
        octets@.len() == 4,
    ensures
        text@ == ipv4_text(octets@),
{
    let bytes: [u8; 4] = octets.as_slice().try_into().unwrap();
    ipnet::Ipv4Net::new(bytes.into(), 32).unwrap().addr().to_string()
}

/// Calls `Display` of the standard library's IPv6 address, which
/// `ipnet::Ipv6Net::addr` hands out for the sixteen bytes.
///
/// Believed: the text depends on the sixteen bytes alone.
#[verifier::external_body]
pub(crate) fn render_ipv6(octets: &Vec<u8>) -> (text: String)
    requires
        octets@.len() == 16,
    ensures
        text@ == ipv6_text(octets@),
{
    let bytes: [u8; 16] = octets.as_slice().try_into().unwrap();
    ipnet::Ipv6Net::new(bytes.into(), 128).unwrap().addr().to_string()
}

/// Calls `Display` of `ipnet::Ipv4Net`, on the network that
/// `ipnet::Ipv4Net::new` makes of the bytes and the prefix length.
///
/// Believed: it writes the address as the standard library does, in dotted
/// decimal, then a slash, then the prefix length in decimal.
#[verifier::external_body]
pub(crate) fn render_ipv4_net(octets: &Vec<u8>, prefix_length: u8) -> (text: String)
    requires
        octets@.len() == 4,
        prefix_length <= 32,
    ensures
        text@ == ipv4_text(octets@) + seq!['/'] + decimal_text(prefix_length as nat),
{
    let bytes: [u8; 4] = octets.as_slice().try_into().unwrap();
    ipnet::Ipv4Net::new(bytes.into(), prefix_length).unwrap().to_string()
}

/// Calls `Display` of `ipnet::Ipv6Net`, on the network that
/// `ipnet::Ipv6Net::new` makes of the bytes and the prefix length.
///
/// Believed: it writes the address as the standard library does, then a
/// slash, then the prefix length in decimal.
#[verifier::external_body]
pub(crate) fn render_ipv6_net(octets: &Vec<u8>, prefix_length: u8) -> (text: String)
    requires
        octets@.len() == 16,
        prefix_length <= 128,
    ensures
        text@ == ipv6_text(octets@) + seq!['/'] + decimal_text(prefix_length as nat),
{
    let bytes: [u8; 16] = octets.as_slice().try_into().unwrap();
    ipnet::Ipv6Net::new(bytes.into(), prefix_length).unwrap().to_string()
}

/// Writes the address of `value`, without its prefix length.
pub fn render_address(value: &NetworkValue) -> (text: String)
    requires
        value.wf(),
    ensures
        text@ == address_text(value@.family, value@.address),
{
    match value.family() {
        Family::V4 => render_ipv4(value.octets()),
        Family::V6 => render_ipv6(value.octets()),
    }
}

/// Writes `value` as `address/prefix`.
pub fn render_network(value: &NetworkValue) -> (text: String)
    requires
        value.wf(),
    ensures
        text@ == network_text(value@),
{
    match value.family() {
        Family::V4 => render_ipv4_net(value.octets(), value.masklen()),
        Family::V6 => render_ipv6_net(value.octets(), value.masklen()),
    }
}

/// A text that was read: the network value, and whether the text gave a
/// prefix length itself.
///
/// A bare address reads as the network of that one host, so the value alone
/// does not tell `10.0.0.1` from `10.0.0.1/32`; the flag does.
#[derive(Clone, Debug, PartialEq, Eq)]
pub struct ParsedInput {
    pub value: NetworkValue,
    pub is_explicit_cidr: bool,
}

/// The mathematical value of a `ParsedInput`.
pub struct ParsedView {
    pub value: NetworkView,
    pub is_explicit_cidr: bool,
}

impl View for ParsedInput {
    type V = ParsedView;

    open spec fn view(&self) -> ParsedView {
        ParsedView { value: self.value@, is_explicit_cidr: self.is_explicit_cidr }
    }
}

/// Which reading a text that cannot be read was meant for: with a slash in
/// it a network, without one an address.
pub open spec fn parse_cause(text: Seq<char>) -> ParseCause {
    if text.contains('/') {
        ParseCause::InvalidNetwork
    } else {
        ParseCause::InvalidAddress
    }
}

/// What a text reads as: first as `address/prefix`; failing that, as a bare
/// address, which stands for its host network; failing both, as nothing.
pub open spec fn parse_text(text: Seq<char>) -> Result<ParsedView, NetErrorView> {
    match cidr_text_value(text) {
        Some(value) => Ok(ParsedView { value, is_explicit_cidr: true }),
        None => match address_text_value(text) {
            Some(value) => Ok(ParsedView { value, is_explicit_cidr: false }),
            None => Err(NetErrorView::ParseError { input: text, cause: parse_cause(text) }),
        },
    }
}

/// Whether `text` holds a slash.
pub fn contains_slash(text: &str) -> (found: bool)
    ensures
        found == text@.contains('/'),
{
    let len: usize = text.unicode_len();
    let mut i: usize = 0;
    while i < len
        invariant
            i <= len,
            len == text@.len(),
            forall|k: int| 0 <= k < i ==> text@[k] != '/',
        decreases len - i,
    {
        if text.get_char(i) == '/' {
            return true;
        }
        i += 1;
    }
    false
}

/// Reads an address or a network from `text`.
///
/// Fails with `ParseError` exactly when `text` is neither an
/// `address/prefix` pair nor a bare address.
pub fn parse(text: &str) -> (result: Result<ParsedInput, NetError>)
    ensures
        result matches Ok(parsed) ==> parsed.value.wf() && parse_text(text@) == Ok::<
            ParsedView,
            NetErrorView,
        >(parsed@),
        result matches Err(e) ==> parse_text(text@) == Err::<ParsedView, NetErrorView>(e@),
        result matches Ok(parsed) ==> (parsed.is_explicit_cidr || parsed.value@.prefix_length
            == parsed.value@.family.spec_max_prefix_len()),
{
    match parse_cidr(text) {
        Ok(value) => Ok(ParsedInput { value, is_explicit_cidr: true }),
        Err(_) => match parse_address(text) {
            Some(value) => Ok(ParsedInput { value, is_explicit_cidr: false }),
            None => {
                let cause = if contains_slash(text) {
                    ParseCause::InvalidNetwork
                } else {
                    ParseCause::InvalidAddress
                };
                Err(NetError::ParseError { input: text.to_owned(), cause })
            },
        },
    }
}

} // verus!
