//! Network addresses as plain values.

use vstd::prelude::*;

verus! {

/// An IPv4 or IPv6 address, by its bits.
#[derive(Clone, Copy, PartialEq, Eq, Structural, Debug, Hash)]
pub enum IpAddress {
    V4(u32),
    V6(u128),
}

} // verus!
