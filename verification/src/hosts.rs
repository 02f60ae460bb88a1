//! What a channel asks of the address book.  The address book itself is
//! kept elsewhere; a channel only says which host is to be moved where.

use crate::address::Address;
use vstd::prelude::*;

verus! {

/// The lists of the address book.
#[derive(Clone, Copy, Debug, PartialEq, Eq, Structural)]
pub enum HostColor {
    /// Addresses heard of but never tried.
    Grey,
    /// Addresses that answered once.
    White,
    /// Addresses of stable peers.
    Gold,
    /// Addresses excluded for a long time.
    Black,
    /// Addresses that cannot be reached with the transports at hand.
    Dark,
}

/// A request to the address book: move `address` to the list `color` and
/// record when it was last seen.
#[derive(Debug)]
pub struct HostMove {
    pub address: Address,
    pub last_seen: u64,
    pub color: HostColor,
}

} // verus!
