use maestro::{
    after_attempt, first_candidate, ScanStep, datagram_plan, datagram_sockets_plan, multicast_joins, require_bound, resolve_addrs,
    stream_plan, AddressRecord, BindMode, Error, InterfaceAddress, IpAddr, Ipv4Addr, Ipv6Addr,
    MulticastJoin, NetworkInterface, SocketAddr, StreamTuning, Transport,
};

fn iface(v4: Vec<u32>, v6: Vec<u128>) -> NetworkInterface {
    NetworkInterface {
        name: "eth0".to_string(),
        index: 4,
        inet: v4.into_iter().map(Ipv4Addr).collect(),
        inet6: v6.into_iter().map(Ipv6Addr).collect(),
        mac: Some([2, 0, 0, 0, 0, 1]),
    }
}

fn v4(bits: u32, port: u16) -> SocketAddr {
    SocketAddr::new(IpAddr::V4(Ipv4Addr(bits)), port)
}

fn v6(bits: u128, port: u16) -> SocketAddr {
    SocketAddr::new(IpAddr::V6(Ipv6Addr(bits)), port)
}

#[test]
fn prefer_interface_lists_v4_then_v6() {
    let i = iface(vec![0x0a00_0001, 0x0a00_0002], vec![1]);
    let addrs = resolve_addrs(BindMode::PreferInterface, 9000, &i);
    assert_eq!(addrs, vec![v4(0x0a00_0001, 9000), v4(0x0a00_0002, 9000), v6(1, 9000)]);
}

#[test]
fn prefer_interface_without_addresses_falls_back_to_wildcard() {
    let i = iface(vec![], vec![]);
    let addrs = resolve_addrs(BindMode::PreferInterface, 53, &i);
    assert_eq!(addrs, vec![v4(0, 53)]);
}

#[test]
fn bind_all_is_both_wildcards() {
    let i = iface(vec![0x0a00_0001], vec![]);
    let addrs = resolve_addrs(BindMode::BindAll, 80, &i);
    assert_eq!(addrs, vec![v4(0, 80), v6(0, 80)]);
}

#[test]
fn specific_is_exactly_one_address() {
    let i = iface(vec![0x0a00_0001], vec![1]);
    let ip = IpAddr::V4(Ipv4Addr(0x7f00_0001));
    let addrs = resolve_addrs(BindMode::Specific(ip), 0, &i);
    assert_eq!(addrs, vec![v4(0x7f00_0001, 0)]);
    assert_eq!(BindMode::default(), BindMode::PreferInterface);
}

#[test]
fn every_mode_resolves_to_something() {
    let modes = [
        BindMode::PreferInterface,
        BindMode::BindAll,
        BindMode::Specific(IpAddr::V6(Ipv6Addr(1))),
    ];
    for i in [iface(vec![], vec![]), iface(vec![1], vec![]), iface(vec![], vec![2])] {
        for m in modes {
            for port in [0u16, 1, 65535] {
                assert!(!resolve_addrs(m, port, &i).is_empty());
            }
        }
    }
}

#[test]
fn stream_setups_follow_candidates() {
    let addrs = vec![v4(0x7f00_0001, 7), v6(1, 7)];
    let tuning = StreamTuning { recv_buffer: Some(4096), send_buffer: None, backlog: 128 };
    let plan = stream_plan(&addrs, tuning);
    assert_eq!(plan.len(), 2);
    assert_eq!(plan[0].address, addrs[0]);
    assert_eq!(plan[0].transport, Transport::Stream);
    assert!(plan[0].reuse_address && plan[0].reuse_port);
    assert!(!plan[0].only_v6);
    assert!(plan[1].only_v6);
    assert!(!plan[0].broadcast && !plan[1].broadcast);
    assert_eq!(plan[1].recv_buffer, Some(4096));
    assert_eq!(plan[1].send_buffer, None);
    assert_eq!(plan[1].backlog, Some(128));
    assert!(plan[1].joins.is_empty());
}

#[test]
fn joins_match_the_socket_family() {
    let i = iface(vec![0x0a00_0005, 0x0a00_0006], vec![]);
    let groups = vec![
        IpAddr::V4(Ipv4Addr(0xe000_00fb)),
        IpAddr::V6(Ipv6Addr(0xff02 << 112 | 0xfb)),
        IpAddr::V4(Ipv4Addr(0xe000_00fc)),
    ];
    let on_v4 = multicast_joins(&groups, IpAddr::V4(Ipv4Addr(0)), &i);
    assert_eq!(
        on_v4,
        vec![
            MulticastJoin::V4 { group: Ipv4Addr(0xe000_00fb), interface: Ipv4Addr(0x0a00_0005) },
            MulticastJoin::V4 { group: Ipv4Addr(0xe000_00fc), interface: Ipv4Addr(0x0a00_0005) },
        ]
    );
    let on_v6 = multicast_joins(&groups, IpAddr::V6(Ipv6Addr(0)), &i);
    assert_eq!(on_v6, vec![MulticastJoin::V6 { group: Ipv6Addr(0xff02 << 112 | 0xfb), index: 4 }]);
    let bare = iface(vec![], vec![1]);
    let on_v4 = multicast_joins(&groups[..1].to_vec(), IpAddr::V4(Ipv4Addr(0)), &bare);
    assert_eq!(
        on_v4,
        vec![MulticastJoin::V4 { group: Ipv4Addr(0xe000_00fb), interface: Ipv4Addr(0) }]
    );
}

#[test]
fn datagram_plan_shards_each_address() {
    let i = iface(vec![0x0a00_0005], vec![1]);
    let addrs = vec![v4(0x0a00_0005, 5353), v6(1, 5353)];
    let groups = vec![IpAddr::V4(Ipv4Addr(0xe000_00fb))];
    let plan = datagram_plan(&addrs, &i, &groups, 3, Some(1 << 20));
    assert_eq!(plan.len(), 6);
    for (j, s) in plan.iter().enumerate() {
        assert_eq!(s.address, addrs[j / 3]);
        assert_eq!(s.transport, Transport::Datagram);
        assert!(s.reuse_address && s.reuse_port);
        assert_eq!(s.recv_buffer, Some(1 << 20));
        assert_eq!(s.backlog, None);
    }
    assert!(plan[0].broadcast && !plan[0].only_v6);
    assert!(!plan[5].broadcast && plan[5].only_v6);
    assert_eq!(plan[0].joins.len(), 1);
    assert!(plan[5].joins.is_empty());
}

#[test]
fn datagram_sockets_plan_uses_at_least_one_socket_per_address() {
    let i = iface(vec![0x0a00_0005], vec![]);
    let addrs = vec![v4(0x0a00_0005, 5353), v4(0, 5353)];
    let (plan, shards) = datagram_sockets_plan(&addrs, &i, &vec![], None).unwrap();
    assert!(shards >= 1);
    assert_eq!(plan.len(), 2 * shards);
    assert_eq!(plan[0].address, addrs[0]);
    assert_eq!(plan[plan.len() - 1].address, addrs[1]);
}

#[test]
fn nothing_bound_is_no_addr_available() {
    assert!(matches!(require_bound(0), Err(Error::NoAddrAvailable)));
    assert!(require_bound(1).is_ok());
    assert!(require_bound(16).is_ok());
}

#[test]
fn loopback_record_resolves_to_loopback_socket() {
    let records = vec![AddressRecord {
        name: "lo".to_string(),
        address: InterfaceAddress::V4(Ipv4Addr(0x7f00_0001)),
    }];
    let lo = NetworkInterface::from_records("lo", Ok(1), &records, [0; 6]).unwrap();
    assert_eq!(resolve_addrs(BindMode::PreferInterface, 8080, &lo), vec![v4(0x7f00_0001, 8080)]);
}

#[test]
fn candidates_are_tried_in_order_until_one_binds() {
    assert_eq!(first_candidate(3).unwrap(), ScanStep::Try(0));
    assert_eq!(after_attempt(3, 0, false).unwrap(), ScanStep::Try(1));
    assert_eq!(after_attempt(3, 1, true).unwrap(), ScanStep::Done(1));
    assert_eq!(after_attempt(3, 1, false).unwrap(), ScanStep::Try(2));
    assert!(matches!(after_attempt(3, 2, false), Err(Error::NoAddrAvailable)));
    assert_eq!(after_attempt(3, 2, true).unwrap(), ScanStep::Done(2));
}

#[test]
fn no_candidate_is_no_addr_available() {
    assert!(matches!(first_candidate(0), Err(Error::NoAddrAvailable)));
}

#[test]
fn every_failure_leads_to_no_addr_available() {
    for total in 1..6usize {
        let mut step = first_candidate(total).unwrap();
        let mut tried = Vec::new();
        loop {
            match step {
                ScanStep::Try(i) => {
                    tried.push(i);
                    match after_attempt(total, i, false) {
                        Ok(next) => step = next,
                        Err(e) => {
                            assert!(matches!(e, Error::NoAddrAvailable));
                            break;
                        }
                    }
                }
                ScanStep::Done(_) => panic!("nothing was bound"),
            }
        }
        assert_eq!(tried, (0..total).collect::<Vec<_>>());
    }
}
