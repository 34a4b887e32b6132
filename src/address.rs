//! Bridge addresses and the order in which one is chosen.

use vstd::prelude::*;

verus! {

/// A network address of a bridge.
#[derive(Clone, Copy, Debug, PartialEq, Eq, Structural)]
pub enum IpAddress {
    /// Four octets, most significant first.
    V4(u8, u8, u8, u8),
    /// Eight 16-bit segments, most significant first.
    V6(u16, u16, u16, u16, u16, u16, u16, u16),
}

/// Where the bridge of this run is found.
#[derive(Clone, Copy, Debug, PartialEq, Eq, Structural)]
pub enum AddressChoice {
    /// At this address, given or cached.
    Known(IpAddress),
    /// By searching the network.
    Discover,
}

/// The address given on the command line wins, then the cached one; only
/// when there is neither is the network searched.
pub open spec fn address_choice(flag: Option<IpAddress>, cached: Option<IpAddress>) -> AddressChoice {
    match flag {
        Some(ip) => AddressChoice::Known(ip),
        None => match cached {
            Some(ip) => AddressChoice::Known(ip),
            None => AddressChoice::Discover,
        },
    }
}

/// Chooses where to find the bridge, by the order of `address_choice`.
pub fn resolve_address(flag: Option<IpAddress>, cached: Option<IpAddress>) -> (r: AddressChoice)
    ensures
        r == address_choice(flag, cached),
{
    if let Some(ip) = flag {
        return AddressChoice::Known(ip);
    }
    if let Some(ip) = cached {
        return AddressChoice::Known(ip);
    }
    AddressChoice::Discover
}

/// An explicit address always wins over a cached one; a cached one always
/// wins over discovery; discovery is chosen exactly when neither is present.
pub proof fn lemma_address_precedence(flag: Option<IpAddress>, cached: Option<IpAddress>)
    ensures
        flag.is_some() ==> address_choice(flag, cached) == AddressChoice::Known(flag.unwrap()),
        flag.is_none() && cached.is_some() ==> address_choice(flag, cached)
            == AddressChoice::Known(cached.unwrap()),
        (address_choice(flag, cached) == AddressChoice::Discover) <==> (flag.is_none()
            && cached.is_none()),
{
}

} // verus!
