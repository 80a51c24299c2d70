use vstd::prelude::*;

verus! {

/// An IPv4 address, as its 32 bits in network order (`127.0.0.1` is
/// `0x7f00_0001`).
#[derive(Clone, Copy, Debug, PartialEq, Eq, Structural)]
pub struct Ipv4Addr(pub u32);

/// An IPv6 address, as its 128 bits in network order (`::1` is `1`).
#[derive(Clone, Copy, Debug, PartialEq, Eq, Structural)]
pub struct Ipv6Addr(pub u128);

/// An IPv4 or IPv6 address.
#[derive(Clone, Copy, Debug, PartialEq, Eq, Structural)]
pub enum IpAddr {
    V4(Ipv4Addr),
    V6(Ipv6Addr),
}

/// An IP address and a port.
#[derive(Clone, Copy, Debug, PartialEq, Eq, Structural)]
pub struct SocketAddr {
    pub ip: IpAddr,
    pub port: u16,
}

/// The IPv4 wildcard `0.0.0.0`.
pub open spec fn v4_unspecified() -> IpAddr {
    IpAddr::V4(Ipv4Addr(0))
}

/// The IPv6 wildcard `::`.
pub open spec fn v6_unspecified() -> IpAddr {
    IpAddr::V6(Ipv6Addr(0))
}

impl IpAddr {
    /// Whether this is an IPv4 address.
    pub fn is_ipv4(&self) -> (r: bool)
        ensures
            r == (*self is V4),
    {
        match self {
            IpAddr::V4(_) => true,
            IpAddr::V6(_) => false,
        }
    }
}

impl SocketAddr {
    /// An address and a port.
    pub fn new(ip: IpAddr, port: u16) -> (r: SocketAddr)
        ensures
            r == (SocketAddr { ip, port }),
    {
        SocketAddr { ip, port }
    }

    /// Whether the address is an IPv4 one.
    pub fn is_ipv4(&self) -> (r: bool)
        ensures
            r == (self.ip is V4),
    {
        self.ip.is_ipv4()
    }
}

/// How a service picks the addresses that it binds.
#[derive(Clone, Copy, Debug, PartialEq, Eq, Structural)]
pub enum BindMode {
    /// Every address of the service's interface (the default).
    PreferInterface,
    /// The IPv4 and the IPv6 wildcard.
    BindAll,
    /// Exactly this address.
    Specific(IpAddr),
}

impl Default for BindMode {
    /// `PreferInterface`.
    fn default() -> (r: Self)
        ensures
            r == BindMode::PreferInterface,
    {
        BindMode::PreferInterface
    }
}

} // verus!
