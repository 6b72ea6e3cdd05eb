//! Functions on network addresses in the style of PostgreSQL's `inet` and
//! `cidr` operators, and on JSON texts in the style of SQLite, written
//! against plain values and proved with Verus.
//!
//! Every executable function carries a contract over a mathematical model.
//! An address is a sequence of bytes whose bits are numbered from the most
//! significant bit of the first byte, and a network is an address together
//! with the number of leading bits that identify it.
//!
//! - `prefix`: the leading bits that two byte sequences share.
//! - `mask`: netmask, hostmask, network and broadcast bytes.
//! - `value`: the network value and what is derived from it.
//! - `notation`: addresses and networks as text.
//! - `inet`: the network functions on one text each.
//! - `columns`: the network functions on whole columns.
//! - `laws`: what holds of them for every input.
//! - `json`: the JSON functions on columns.
//! - `decimal`, `numerals`: numbers as decimal text, and back.
//! - `error`: the failures of the network functions.

use vstd::prelude::*;

pub mod columns;
pub mod decimal;
pub mod error;
pub mod inet;
pub mod json;
pub mod laws;
pub mod mask;
pub mod notation;
pub mod numerals;
pub mod prefix;
pub mod value;

verus! {

/// Sum of two sizes.
pub fn add(left: usize, right: usize) -> (sum: usize)
    requires
        left + right <= usize::MAX,
    ensures
        sum == left + right,
{
    left + right
}

} // verus!
