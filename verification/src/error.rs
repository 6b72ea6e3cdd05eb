//! Failures of the network functions.

use vstd::prelude::*;
use vstd::string::StringExecFns;
use crate::decimal::{signed_decimal_string, signed_decimal_text};

verus! {

/// Which reading of a text was tried last before it was given up.
#[derive(Clone, Copy, Debug, PartialEq, Eq, Structural)]
pub enum ParseCause {
    /// The text holds a `/` and is no `address/prefix` pair.
    InvalidNetwork,
    /// The text holds no `/` and is no address.
    InvalidAddress,
}

/// Why a network function failed. Every failure ends the whole call: none
/// is turned into a missing value.
#[derive(Clone, Debug, PartialEq, Eq)]
pub enum NetError {
    /// The text is neither an address nor an `address/prefix` pair.
    ParseError { input: String, cause: ParseCause },
    /// The mask length lies outside `0..=32` (IPv4) or `0..=128` (IPv6).
    InvalidMaskLength(i64),
    /// The two arguments are of different address families.
    FamilyMismatch,
    /// The argument columns differ in their number of rows.
    ArgumentCountMismatch,
}

/// The mathematical value of a `NetError`.
pub enum NetErrorView {
    ParseError { input: Seq<char>, cause: ParseCause },
    InvalidMaskLength(int),
    FamilyMismatch,
    ArgumentCountMismatch,
}

impl View for NetError {
    type V = NetErrorView;

    open spec fn view(&self) -> NetErrorView {
        match *self {
            NetError::ParseError { input, cause } => NetErrorView::ParseError {
                input: input@,
                cause,
            },
            NetError::InvalidMaskLength(value) => NetErrorView::InvalidMaskLength(value as int),
            NetError::FamilyMismatch => NetErrorView::FamilyMismatch,
            NetError::ArgumentCountMismatch => NetErrorView::ArgumentCountMismatch,
        }
    }
}

impl NetErrorView {
    /// The error in words.
    pub open spec fn message(self) -> Seq<char> {
        match self {
            NetErrorView::ParseError { input, cause } => match cause {
                ParseCause::InvalidNetwork => "Parsing "@ + input
                    + " into CIDR failed with error invalid IP address syntax"@,
                ParseCause::InvalidAddress => "Parsing "@ + input
                    + " into IP address failed with error invalid IP address syntax"@,
            },
            NetErrorView::InvalidMaskLength(value) => "ERROR:  invalid mask length: "@
                + signed_decimal_text(value),
            NetErrorView::FamilyMismatch => "Cannot merge addresses from different families"@,
            NetErrorView::ArgumentCountMismatch =>
                "First and second arguments are not of the same length"@,
        }
    }
}

impl NetError {
    /// The error in words, as it is shown to the caller of a query.
    pub fn message(&self) -> (text: String)
        ensures
            text@ == self@.message(),
    {
        match self {
            NetError::ParseError { input, cause } => {
                let start = String::from_str("Parsing ").concat(input.as_str());
                match cause {
                    ParseCause::InvalidNetwork => start.concat(
                        " into CIDR failed with error invalid IP address syntax",
                    ),
                    ParseCause::InvalidAddress => start.concat(
                        " into IP address failed with error invalid IP address syntax",
                    ),
                }
            },
            NetError::InvalidMaskLength(value) => {
                let digits = signed_decimal_string(*value);
                String::from_str("ERROR:  invalid mask length: ").concat(digits.as_str())
            },
            NetError::FamilyMismatch => String::from_str(
                "Cannot merge addresses from different families",
            ),
            NetError::ArgumentCountMismatch => String::from_str(
                "First and second arguments are not of the same length",
            ),
        }
    }
}

} // verus!
