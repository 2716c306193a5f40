use vstd::prelude::*;

verus! {

/// A network address, held as the number that its bytes spell in network
/// order: 32 bits for version four, 128 bits for version six.
///
/// Two addresses are equal exactly when they are of the same version and hold
/// the same number, so how an address was written down plays no part.
#[derive(Clone, Copy, Debug, PartialEq, Eq, Structural)]
pub enum IpAddress {
    V4(u32),
    V6(u128),
}

impl IpAddress {
    /// Whether two addresses are the same address.
    pub fn same(self, other: IpAddress) -> (r: bool)
        ensures
            r == (self == other),
    {
        self == other
    }
}

} // verus!
