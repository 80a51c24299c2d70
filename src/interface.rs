use vstd::prelude::*;

use crate::addr::{Ipv4Addr, Ipv6Addr};
use crate::error::Error;
use crate::text::{is_blank, is_blank_text};

verus! {

/// One address that the system reports for an interface.
#[derive(Clone, Copy, Debug)]
pub enum InterfaceAddress {
    V4(Ipv4Addr),
    V6(Ipv6Addr),
    /// A hardware address.
    Mac([u8; 6]),
}

/// An interface name and one of its addresses.
#[derive(Clone, Debug)]
pub struct AddressRecord {
    pub name: String,
    pub address: InterfaceAddress,
}

/// A local network interface and its addresses.
#[derive(Clone, Debug)]
pub struct NetworkInterface {
    /// System name (such as `eth0` or `lo`).
    pub name: String,
    /// Operating system index.
    pub index: u32,
    /// Assigned IPv4 addresses.
    pub inet: Vec<Ipv4Addr>,
    /// Assigned IPv6 addresses.
    pub inet6: Vec<Ipv6Addr>,
    /// Hardware address.
    pub mac: Option<[u8; 6]>,
}

/// The IPv4 addresses that `records` give for the interface `name`, in order.
pub open spec fn ipv4_of(name: Seq<char>, records: Seq<AddressRecord>) -> Seq<Ipv4Addr>
    decreases records.len(),
{
    if records.len() == 0 {
        seq![]
    } else {
        let prev = ipv4_of(name, records.drop_last());
        let r = records.last();
        if r.name@ == name && r.address is V4 {
            prev.push(r.address->V4_0)
        } else {
            prev
        }
    }
}

/// The IPv6 addresses that `records` give for the interface `name`, in order.
pub open spec fn ipv6_of(name: Seq<char>, records: Seq<AddressRecord>) -> Seq<Ipv6Addr>
    decreases records.len(),
{
    if records.len() == 0 {
        seq![]
    } else {
        let prev = ipv6_of(name, records.drop_last());
        let r = records.last();
        if r.name@ == name && r.address is V6 {
            prev.push(r.address->V6_0)
        } else {
            prev
        }
    }
}

/// The last hardware address that `records` give for the interface `name`.
pub open spec fn mac_of(name: Seq<char>, records: Seq<AddressRecord>) -> Option<[u8; 6]>
    decreases records.len(),
{
    if records.len() == 0 {
        None
    } else {
        let r = records.last();
        if r.name@ == name && r.address is Mac {
            Some(r.address->Mac_0)
        } else {
            mac_of(name, records.drop_last())
        }
    }
}

/// `seed` made a locally administered unicast hardware address: the low
/// two bits of the first byte become `10`, the other bits stay.
pub open spec fn local_mac_of(seed: [u8; 6]) -> Seq<u8> {
    seq![(seed[0] & 0xfe) | 0x02, seed[1], seed[2], seed[3], seed[4], seed[5]]
}

/// Whether `mac` is locally administered and unicast.
pub open spec fn is_local_unicast(mac: [u8; 6]) -> bool {
    mac[0] & 0x03 == 0x02
}

/// What building the interface `name` from `records` gives, where
/// `index` is the outcome of looking up its index and `seed` the bytes of
/// a generated hardware address.
pub open spec fn built_from(
    name: Seq<char>,
    index: Result<u32, std::io::Error>,
    records: Seq<AddressRecord>,
    seed: [u8; 6],
    r: Result<NetworkInterface, Error>,
) -> bool {
    if is_blank_text(name) {
        r matches Err(Error::InvalidInterfaceName(s)) && s@ == name
    } else if ipv4_of(name, records).len() == 0 && ipv6_of(name, records).len() == 0 {
        r matches Err(Error::InterfaceNotFound(s)) && s@ == name
    } else {
        match index {
            Err(e) => r matches Err(Error::Io(e2)) && e2 == e,
            Ok(i) => r matches Ok(iface) && {
                &&& iface.name@ == name
                &&& iface.index == i
                &&& iface.inet@ == ipv4_of(name, records)
                &&& iface.inet6@ == ipv6_of(name, records)
                &&& iface.mac matches Some(m) && match mac_of(name, records) {
                    Some(found) => m == found,
                    None => m@ == local_mac_of(seed),
                }
            },
        }
    }
}

/// `seed` made a locally administered unicast hardware address.
pub fn local_mac(seed: [u8; 6]) -> (r: [u8; 6])
    ensures
        r@ == local_mac_of(seed),
        is_local_unicast(r),
{
    let s0: u8 = seed[0];
    let first: u8 = (s0 & 0xfe) | 0x02;
    assert(first & 0x03 == 0x02) by (bit_vector)
        requires
            first == (s0 & 0xfe) | 0x02,
    ;
    let r = [first, seed[1], seed[2], seed[3], seed[4], seed[5]];
    assert(r@ =~= local_mac_of(seed));
    r
}

/// Relies on `getifaddrs::getifaddrs`: the addresses of the machine's
/// interfaces, one record for each address.
#[verifier::external_body]
fn system_addresses() -> (r: Result<Vec<AddressRecord>, std::io::Error>) {
    let all = getifaddrs::getifaddrs()?;
    Ok(
        all.map(
            |i| AddressRecord {
                name: i.name,
                address: match i.address {
                    getifaddrs::Address::V4(a) => InterfaceAddress::V4(Ipv4Addr(a.address.into())),
                    getifaddrs::Address::V6(a) => InterfaceAddress::V6(Ipv6Addr(a.address.into())),
                    getifaddrs::Address::Mac(m) => InterfaceAddress::Mac(m),
                },
            },
        ).collect(),
    )
}

/// Relies on `getifaddrs::if_nametoindex`: the system's index of the named
/// interface.
#[verifier::external_body]
fn interface_index(name: &str) -> (r: Result<u32, std::io::Error>) {
    getifaddrs::if_nametoindex(name)
}

/// Relies on `rand::fill`: six bytes from the thread's random generator.
#[verifier::external_body]
fn random_seed() -> (r: [u8; 6]) {
    let mut seed = [0u8; 6];
    rand::fill(&mut seed);
    seed
}

impl NetworkInterface {
    /// Whether the interface has an address and a hardware address.
    pub open spec fn wf(&self) -> bool {
        &&& self.inet@.len() > 0 || self.inet6@.len() > 0
        &&& self.mac is Some
    }

    /// A random locally administered unicast hardware address.
    pub fn generate_mac(&self) -> (r: [u8; 6])
        ensures
            is_local_unicast(r),
    {
        local_mac(random_seed())
    }

    /// Builds the interface `name` from the system's address records, its
    /// looked-up `index`, and `seed` for a hardware address where the
    /// records give none.
    pub fn from_records(
        name: &str,
        index: Result<u32, std::io::Error>,
        records: &Vec<AddressRecord>,
        seed: [u8; 6],
    ) -> (r: Result<NetworkInterface, Error>)
        ensures
            built_from(name@, index, records@, seed, r),
            r matches Ok(iface) ==> iface.wf(),
    {
        if is_blank(name) {
            return Err(Error::InvalidInterfaceName(name.to_owned()));
        }
        let own_name = name.to_owned();
        let mut inet: Vec<Ipv4Addr> = Vec::new();
        let mut inet6: Vec<Ipv6Addr> = Vec::new();
        let mut mac: Option<[u8; 6]> = None;
        let n = records.len();
        let mut i: usize = 0;
        while i < n
            invariant
                n == records@.len(),
                i <= n,
                own_name@ == name@,
                inet@ == ipv4_of(name@, records@.subrange(0, i as int)),
                inet6@ == ipv6_of(name@, records@.subrange(0, i as int)),
                mac == mac_of(name@, records@.subrange(0, i as int)),
            decreases n - i,
        {
            let rec = &records[i];
            assert(records@.subrange(0, i + 1).drop_last() =~= records@.subrange(0, i as int));
            if rec.name == own_name {
                match rec.address {
                    InterfaceAddress::V4(a) => inet.push(a),
                    InterfaceAddress::V6(a) => inet6.push(a),
                    InterfaceAddress::Mac(m) => mac = Some(m),
                }
            }
            i = i + 1;
        }
        assert(records@.subrange(0, n as int) =~= records@);
        if inet.len() == 0 && inet6.len() == 0 {
            return Err(Error::InterfaceNotFound(own_name));
        }
        let index = match index {
            Ok(i) => i,
            Err(e) => return Err(Error::Io(e)),
        };
        let mac = match mac {
            Some(m) => m,
            None => local_mac(seed),
        };
        Ok(NetworkInterface { name: own_name, index, inet, inet6, mac: Some(mac) })
    }

    /// Looks up the interface `name` on this system.
    pub fn resolve(name: &str) -> (r: Result<NetworkInterface, Error>)
        ensures
            is_blank_text(name@) <==> (r matches Err(Error::InvalidInterfaceName(s)) && s@
                == name@),
            r matches Ok(iface) ==> iface.wf() && iface.name@ == name@,
    {
        if is_blank(name) {
            return Err(Error::InvalidInterfaceName(name.to_owned()));
        }
        let records = match system_addresses() {
            Ok(records) => records,
            Err(e) => return Err(Error::Io(e)),
        };
        let index = interface_index(name);
        Self::from_records(name, index, &records, random_seed())
    }
}

impl std::str::FromStr for NetworkInterface {
    type Err = Error;

    /// Looks up the interface `name` on this system.
    fn from_str(name: &str) -> Result<Self, Error> {
        Self::resolve(name)
    }
}

/// Building an interface fails with `InvalidInterfaceName` when the name is
/// blank, and otherwise with `InterfaceNotFound` when the records give the
/// name no address, whatever its index lookup gave.
pub proof fn lemma_no_address_not_found(
    name: Seq<char>,
    index: Result<u32, std::io::Error>,
    records: Seq<AddressRecord>,
    seed: [u8; 6],
    r: Result<NetworkInterface, Error>,
)
    requires
        built_from(name, index, records, seed, r),
    ensures
        is_blank_text(name) ==> (r matches Err(Error::InvalidInterfaceName(s)) && s@ == name),
        !is_blank_text(name) && ipv4_of(name, records).len() == 0 && ipv6_of(name, records).len()
            == 0 ==> (r matches Err(Error::InterfaceNotFound(s)) && s@ == name),
{
}

} // verus!
