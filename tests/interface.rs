use std::str::FromStr;

use maestro::{
    resolve_addrs, AddressRecord, BindMode, Error, InterfaceAddress, Ipv4Addr, Ipv6Addr,
    NetworkInterface,
};

const LOCALHOST_V4: Ipv4Addr = Ipv4Addr(0x7f00_0001);
const LOCALHOST_V6: Ipv6Addr = Ipv6Addr(1);

/// Whether the system reports an IP address on `lo`. Where it reports none
/// (a network namespace whose loopback is down), looking `lo` up must fail
/// with `InterfaceNotFound` instead.
fn loopback_has_addresses() -> bool {
    getifaddrs::getifaddrs()
        .map(|mut all| all.any(|i| i.name == "lo" && !i.address.is_mac()))
        .unwrap_or(false)
}

fn record(name: &str, address: InterfaceAddress) -> AddressRecord {
    AddressRecord { name: name.to_string(), address }
}

#[test]
fn test_interface_resolution() {
    // "lo" should always exist on linux
    let iface = NetworkInterface::from_str("lo");
    if !loopback_has_addresses() {
        assert!(matches!(iface, Err(Error::InterfaceNotFound(_))));
        return;
    }
    assert!(iface.is_ok());
}

#[test]
fn test_resolve_addrs() {
    if !loopback_has_addresses() {
        assert!(matches!(NetworkInterface::from_str("lo"), Err(Error::InterfaceNotFound(_))));
        return;
    }
    let iface = NetworkInterface::from_str("lo").unwrap();
    let addrs = resolve_addrs(BindMode::PreferInterface, 8080, &iface);
    assert!(!addrs.is_empty());
}

#[test]
fn empty_name() {
    let result = NetworkInterface::from_str("");
    assert!(matches!(result, Err(Error::InvalidInterfaceName(_))));
}

#[test]
fn existing_interface() {
    if !loopback_has_addresses() {
        assert!(matches!(NetworkInterface::from_str("lo"), Err(Error::InterfaceNotFound(_))));
        return;
    }
    let info = NetworkInterface::from_str("lo").expect("Failed to get interface info");
    assert_eq!(info.name, "lo");
    assert!(
        !info.inet.is_empty() || !info.inet6.is_empty(),
        "Interface should have at least one IP"
    );
    if !info.inet.is_empty() {
        assert!(info.inet.contains(&LOCALHOST_V4), "IPv4 localhost missing");
    }
    if !info.inet6.is_empty() {
        assert!(info.inet6.contains(&LOCALHOST_V6), "IPv6 localhost missing");
    }
}

#[test]
fn non_existing_interface() {
    let result = NetworkInterface::from_str("fake0");
    assert!(matches!(result, Err(Error::InterfaceNotFound(_))));
}

#[test]
fn mac_is_generated_if_none() {
    let mut info = NetworkInterface {
        name: "test0".to_string(),
        index: 0,
        inet: vec![LOCALHOST_V4],
        inet6: vec![LOCALHOST_V6],
        mac: None,
    };
    info.mac = Some(info.generate_mac());
    let mac = info.mac.unwrap();
    assert_eq!(mac.len(), 6);
    assert_eq!(mac[0] & 0b00000011, 0b00000010);
}

#[test]
fn mac_is_preserved_if_present() {
    let existing_mac = [0xAA, 0xBB, 0xCC, 0xDD, 0xEE, 0xFF];
    let info = NetworkInterface {
        name: "test1".to_string(),
        index: 1,
        inet: vec![LOCALHOST_V4],
        inet6: vec![LOCALHOST_V6],
        mac: Some(existing_mac),
    };
    let mac = info.mac.unwrap();
    assert_eq!(mac, existing_mac);
}

#[test]
fn whitespace_name_is_invalid() {
    let result = NetworkInterface::from_str(" \t\n");
    assert!(matches!(result, Err(Error::InvalidInterfaceName(ref s)) if s == " \t\n"));
    let built = NetworkInterface::from_records("\u{3000}", Ok(1), &vec![], [0; 6]);
    assert!(matches!(built, Err(Error::InvalidInterfaceName(_))));
}

#[test]
fn records_of_the_name_are_kept_in_order() {
    let records = vec![
        record("eth0", InterfaceAddress::V4(Ipv4Addr(0x0a00_0001))),
        record("lo", InterfaceAddress::V4(LOCALHOST_V4)),
        record("eth0", InterfaceAddress::V6(Ipv6Addr(0xfe80 << 112))),
        record("eth0", InterfaceAddress::Mac([1, 2, 3, 4, 5, 6])),
        record("eth0", InterfaceAddress::V4(Ipv4Addr(0x0a00_0002))),
        record("eth0", InterfaceAddress::Mac([7, 8, 9, 10, 11, 12])),
    ];
    let iface = NetworkInterface::from_records("eth0", Ok(3), &records, [0; 6]).unwrap();
    assert_eq!(iface.name, "eth0");
    assert_eq!(iface.index, 3);
    assert_eq!(iface.inet, vec![Ipv4Addr(0x0a00_0001), Ipv4Addr(0x0a00_0002)]);
    assert_eq!(iface.inet6, vec![Ipv6Addr(0xfe80 << 112)]);
    assert_eq!(iface.mac, Some([7, 8, 9, 10, 11, 12]));
}

#[test]
fn name_without_addresses_is_not_found() {
    let records = vec![
        record("eth0", InterfaceAddress::V4(Ipv4Addr(0x0a00_0001))),
        record("wlan0", InterfaceAddress::Mac([1, 2, 3, 4, 5, 6])),
    ];
    let built = NetworkInterface::from_records("wlan0", Ok(2), &records, [0; 6]);
    assert!(matches!(built, Err(Error::InterfaceNotFound(ref s)) if s == "wlan0"));
    let failed_index = std::io::Error::new(std::io::ErrorKind::NotFound, "no such device");
    let built = NetworkInterface::from_records("wlan0", Err(failed_index), &records, [0; 6]);
    assert!(matches!(built, Err(Error::InterfaceNotFound(_))));
}

#[test]
fn failed_index_lookup_is_io_error() {
    let records = vec![record("eth0", InterfaceAddress::V4(Ipv4Addr(0x0a00_0001)))];
    let failed_index = std::io::Error::new(std::io::ErrorKind::NotFound, "no such device");
    let built = NetworkInterface::from_records("eth0", Err(failed_index), &records, [0; 6]);
    assert!(matches!(built, Err(Error::Io(ref e)) if e.kind() == std::io::ErrorKind::NotFound));
}

#[test]
fn missing_mac_is_made_local_from_seed() {
    let records = vec![record("eth0", InterfaceAddress::V6(LOCALHOST_V6))];
    let iface =
        NetworkInterface::from_records("eth0", Ok(1), &records, [0xff, 1, 2, 3, 4, 5]).unwrap();
    assert_eq!(iface.mac, Some([0xfe, 1, 2, 3, 4, 5]));
    let iface =
        NetworkInterface::from_records("eth0", Ok(1), &records, [0x00, 9, 9, 9, 9, 9]).unwrap();
    assert_eq!(iface.mac, Some([0x02, 9, 9, 9, 9, 9]));
}

#[test]
fn local_mac_sets_the_low_bits() {
    assert_eq!(maestro::interface::local_mac([0x13, 0, 0, 0, 0, 0x7f]), [0x12, 0, 0, 0, 0, 0x7f]);
    assert_eq!(maestro::interface::local_mac([0x40; 6]), [0x42, 0x40, 0x40, 0x40, 0x40, 0x40]);
}
