use vstd::prelude::*;

use crate::addr::{v4_unspecified, v6_unspecified, BindMode, IpAddr, Ipv4Addr, Ipv6Addr, SocketAddr};
use crate::error::Error;
use crate::interface::NetworkInterface;

verus! {

/// `addrs` as IPv4 socket addresses on `port`.
pub open spec fn v4_sockets(addrs: Seq<Ipv4Addr>, port: u16) -> Seq<SocketAddr> {
    addrs.map_values(|a: Ipv4Addr| SocketAddr { ip: IpAddr::V4(a), port })
}

/// `addrs` as IPv6 socket addresses on `port`.
pub open spec fn v6_sockets(addrs: Seq<Ipv6Addr>, port: u16) -> Seq<SocketAddr> {
    addrs.map_values(|a: Ipv6Addr| SocketAddr { ip: IpAddr::V6(a), port })
}

/// The candidate addresses, in order, that `mode` gives on `port` for an
/// interface with the addresses `inet` and `inet6`.
pub open spec fn resolved_addrs(
    mode: BindMode,
    port: u16,
    inet: Seq<Ipv4Addr>,
    inet6: Seq<Ipv6Addr>,
) -> Seq<SocketAddr> {
    match mode {
        BindMode::Specific(ip) => seq![SocketAddr { ip, port }],
        BindMode::BindAll => seq![
            SocketAddr { ip: v4_unspecified(), port },
            SocketAddr { ip: v6_unspecified(), port },
        ],
        BindMode::PreferInterface => {
            let all = v4_sockets(inet, port) + v6_sockets(inet6, port);
            if all.len() == 0 {
                seq![SocketAddr { ip: v4_unspecified(), port }]
            } else {
                all
            }
        },
    }
}

/// Expands a bind mode into the addresses to try, in order: the given
/// address; the IPv4 then the IPv6 wildcard; or every IPv4 then every IPv6
/// address of the interface, falling back to the IPv4 wildcard where it has
/// none.
pub fn resolve_addrs(mode: BindMode, port: u16, iface: &NetworkInterface) -> (r: Vec<SocketAddr>)
    ensures
        r@ == resolved_addrs(mode, port, iface.inet@, iface.inet6@),
        r@.len() >= 1,
{
    match mode {
        BindMode::Specific(ip) => {
            let r = vec![SocketAddr { ip, port }];
            assert(r@ =~= seq![SocketAddr { ip, port }]);
            r
        },
        BindMode::BindAll => {
            let r = vec![
                SocketAddr { ip: IpAddr::V4(Ipv4Addr(0)), port },
                SocketAddr { ip: IpAddr::V6(Ipv6Addr(0)), port },
            ];
            assert(r@ =~= resolved_addrs(mode, port, iface.inet@, iface.inet6@));
            r
        },
        BindMode::PreferInterface => {
            let mut addrs: Vec<SocketAddr> = Vec::new();
            let n4 = iface.inet.len();
            let mut i: usize = 0;
            while i < n4
                invariant
                    n4 == iface.inet@.len(),
                    i <= n4,
                    addrs@ == v4_sockets(iface.inet@.subrange(0, i as int), port),
                decreases n4 - i,
            {
                addrs.push(SocketAddr { ip: IpAddr::V4(iface.inet[i]), port });
                assert(v4_sockets(iface.inet@.subrange(0, i + 1), port) =~= v4_sockets(
                    iface.inet@.subrange(0, i as int),
                    port,
                ).push(SocketAddr { ip: IpAddr::V4(iface.inet@[i as int]), port }));
                i = i + 1;
            }
            assert(iface.inet@.subrange(0, n4 as int) =~= iface.inet@);
            let n6 = iface.inet6.len();
            let mut j: usize = 0;
            while j < n6
                invariant
                    n6 == iface.inet6@.len(),
                    j <= n6,
                    addrs@ == v4_sockets(iface.inet@, port) + v6_sockets(
                        iface.inet6@.subrange(0, j as int),
                        port,
                    ),
                decreases n6 - j,
            {
                addrs.push(SocketAddr { ip: IpAddr::V6(iface.inet6[j]), port });
                assert(v6_sockets(iface.inet6@.subrange(0, j + 1), port) =~= v6_sockets(
                    iface.inet6@.subrange(0, j as int),
                    port,
                ).push(SocketAddr { ip: IpAddr::V6(iface.inet6@[j as int]), port }));
                assert(v4_sockets(iface.inet@, port) + v6_sockets(
                    iface.inet6@.subrange(0, j + 1),
                    port,
                ) =~= (v4_sockets(iface.inet@, port) + v6_sockets(
                    iface.inet6@.subrange(0, j as int),
                    port,
                )).push(SocketAddr { ip: IpAddr::V6(iface.inet6@[j as int]), port }));
                j = j + 1;
            }
            assert(iface.inet6@.subrange(0, n6 as int) =~= iface.inet6@);
            if addrs.len() == 0 {
                addrs.push(SocketAddr { ip: IpAddr::V4(Ipv4Addr(0)), port });
                assert(addrs@ =~= seq![SocketAddr { ip: v4_unspecified(), port }]);
            }
            addrs
        },
    }
}

/// Whatever the mode, port and interface, there is at least one address to
/// try.
pub proof fn lemma_resolution_total(
    mode: BindMode,
    port: u16,
    inet: Seq<Ipv4Addr>,
    inet6: Seq<Ipv6Addr>,
)
    ensures
        resolved_addrs(mode, port, inet, inet6).len() >= 1,
{
}

/// The kind of socket.
#[derive(Clone, Copy, Debug, PartialEq, Eq, Structural)]
pub enum Transport {
    /// A listening TCP socket.
    Stream,
    /// A UDP socket.
    Datagram,
}

/// A multicast group that a bound datagram socket joins.
#[derive(Clone, Copy, Debug, PartialEq, Eq, Structural)]
pub enum MulticastJoin {
    /// An IPv4 group, joined through a local IPv4 address.
    V4 { group: Ipv4Addr, interface: Ipv4Addr },
    /// An IPv6 group, joined through an interface index.
    V6 { group: Ipv6Addr, index: u32 },
}

/// Buffer sizes and backlog of listening sockets.
#[derive(Clone, Copy, Debug, PartialEq, Eq, Structural)]
pub struct StreamTuning {
    pub recv_buffer: Option<usize>,
    pub send_buffer: Option<usize>,
    pub backlog: i32,
}

/// How one socket is made: its address, its kind, the options set before
/// it is bound, the backlog it listens with (streams), and the multicast
/// groups it joins once bound (datagrams).
#[derive(Clone, Debug)]
pub struct SocketSetup {
    pub address: SocketAddr,
    pub transport: Transport,
    pub reuse_address: bool,
    /// Set where the platform offers it.
    pub reuse_port: bool,
    pub only_v6: bool,
    pub broadcast: bool,
    pub recv_buffer: Option<usize>,
    pub send_buffer: Option<usize>,
    pub backlog: Option<i32>,
    pub joins: Vec<MulticastJoin>,
}

/// The setup of a listening socket on `address`.
pub open spec fn is_stream_setup(s: SocketSetup, address: SocketAddr, tuning: StreamTuning) -> bool {
    &&& s.address == address
    &&& s.transport == Transport::Stream
    &&& s.reuse_address && s.reuse_port
    &&& s.only_v6 == (address.ip is V6)
    &&& !s.broadcast
    &&& s.recv_buffer == tuning.recv_buffer
    &&& s.send_buffer == tuning.send_buffer
    &&& s.backlog == Some(tuning.backlog)
    &&& s.joins@.len() == 0
}

/// The local address through which IPv4 groups are joined: the first IPv4
/// address of the interface, the wildcard where it has none.
pub open spec fn join_interface(inet: Seq<Ipv4Addr>) -> Ipv4Addr {
    if inet.len() > 0 {
        inet[0]
    } else {
        Ipv4Addr(0)
    }
}

/// The groups among `groups` of the family of `local`, as joins: IPv4
/// groups through the interface's first IPv4 address (the wildcard where it
/// has none), IPv6 groups through its index.
pub open spec fn joins_of(
    groups: Seq<IpAddr>,
    local: IpAddr,
    inet: Seq<Ipv4Addr>,
    index: u32,
) -> Seq<MulticastJoin>
    decreases groups.len(),
{
    if groups.len() == 0 {
        seq![]
    } else {
        let prev = joins_of(groups.drop_last(), local, inet, index);
        match groups.last() {
            IpAddr::V4(g) => if local is V4 {
                prev.push(
                    MulticastJoin::V4 {
                        group: g,
                        interface: join_interface(inet),
                    },
                )
            } else {
                prev
            },
            IpAddr::V6(g) => if local is V6 {
                prev.push(MulticastJoin::V6 { group: g, index })
            } else {
                prev
            },
        }
    }
}

/// The setup of a datagram socket on `address`.
pub open spec fn is_datagram_setup(
    s: SocketSetup,
    address: SocketAddr,
    iface: NetworkInterface,
    groups: Seq<IpAddr>,
    recv_buffer: Option<usize>,
) -> bool {
    &&& s.address == address
    &&& s.transport == Transport::Datagram
    &&& s.reuse_address && s.reuse_port
    &&& s.only_v6 == (address.ip is V6)
    &&& s.broadcast == (address.ip is V4)
    &&& s.recv_buffer == recv_buffer
    &&& s.send_buffer is None
    &&& s.backlog is None
    &&& s.joins@ == joins_of(groups, address.ip, iface.inet@, iface.index)
}

/// `plan` holds `shards` datagram socket setups for each address of
/// `addrs`, in the order of the addresses: entry `j` is on address
/// `j / shards`.
pub open spec fn is_datagram_plan(
    plan: Seq<SocketSetup>,
    addrs: Seq<SocketAddr>,
    iface: NetworkInterface,
    groups: Seq<IpAddr>,
    shards: usize,
    recv_buffer: Option<usize>,
) -> bool {
    &&& plan.len() == addrs.len() * shards
    &&& forall|j: int|
        0 <= j < plan.len() ==> is_datagram_setup(
            #[trigger] plan[j],
            addrs[j / shards as int],
            iface,
            groups,
            recv_buffer,
        )
}

/// The multicast groups that a socket bound on `local` joins.
pub fn multicast_joins(groups: &Vec<IpAddr>, local: IpAddr, iface: &NetworkInterface) -> (r: Vec<
    MulticastJoin,
>)
    ensures
        r@ == joins_of(groups@, local, iface.inet@, iface.index),
{
    let through: Ipv4Addr = if iface.inet.len() > 0 {
        iface.inet[0]
    } else {
        Ipv4Addr(0)
    };
    let mut joins: Vec<MulticastJoin> = Vec::new();
    let n = groups.len();
    let mut i: usize = 0;
    while i < n
        invariant
            n == groups@.len(),
            i <= n,
            through == join_interface(iface.inet@),
            joins@ == joins_of(groups@.subrange(0, i as int), local, iface.inet@, iface.index),
        decreases n - i,
    {
        assert(groups@.subrange(0, i + 1).drop_last() =~= groups@.subrange(0, i as int));
        match groups[i] {
            IpAddr::V4(g) => {
                if local.is_ipv4() {
                    joins.push(MulticastJoin::V4 { group: g, interface: through });
                }
            },
            IpAddr::V6(g) => {
                if !local.is_ipv4() {
                    joins.push(MulticastJoin::V6 { group: g, index: iface.index });
                }
            },
        }
        i = i + 1;
    }
    assert(groups@.subrange(0, n as int) =~= groups@);
    joins
}

/// One listening socket setup for each candidate address, in order.
pub fn stream_plan(addrs: &Vec<SocketAddr>, tuning: StreamTuning) -> (r: Vec<SocketSetup>)
    ensures
        r@.len() == addrs@.len(),
        forall|i: int| 0 <= i < addrs@.len() ==> is_stream_setup(#[trigger] r@[i], addrs@[i], tuning),
{
    let mut plan: Vec<SocketSetup> = Vec::new();
    let n = addrs.len();
    let mut i: usize = 0;
    while i < n
        invariant
            n == addrs@.len(),
            i <= n,
            plan@.len() == i,
            forall|j: int| 0 <= j < i ==> is_stream_setup(#[trigger] plan@[j], addrs@[j], tuning),
        decreases n - i,
    {
        let address = addrs[i];
        plan.push(
            SocketSetup {
                address,
                transport: Transport::Stream,
                reuse_address: true,
                reuse_port: true,
                only_v6: !address.is_ipv4(),
                broadcast: false,
                recv_buffer: tuning.recv_buffer,
                send_buffer: tuning.send_buffer,
                backlog: Some(tuning.backlog),
                joins: Vec::new(),
            },
        );
        i = i + 1;
    }
    plan
}

/// `shards` datagram socket setups for each candidate address, in the
/// order of the addresses.
pub fn datagram_plan(
    addrs: &Vec<SocketAddr>,
    iface: &NetworkInterface,
    groups: &Vec<IpAddr>,
    shards: usize,
    recv_buffer: Option<usize>,
) -> (r: Vec<SocketSetup>)
    requires
        addrs@.len() * shards <= usize::MAX,
    ensures
        is_datagram_plan(r@, addrs@, *iface, groups@, shards, recv_buffer),
{
    let mut plan: Vec<SocketSetup> = Vec::new();
    let n = addrs.len();
    let mut i: usize = 0;
    while i < n
        invariant
            n == addrs@.len(),
            i <= n,
            n * shards <= usize::MAX,
            plan@.len() == i * shards,
            forall|j: int|
                0 <= j < plan@.len() ==> is_datagram_setup(
                    #[trigger] plan@[j],
                    addrs@[j / shards as int],
                    *iface,
                    groups@,
                    recv_buffer,
                ),
        decreases n - i,
    {
        let address = addrs[i];
        let mut k: usize = 0;
        proof {
            assert(i * shards + shards == (i + 1) * shards) by (nonlinear_arith);
            assert((i + 1) * shards <= n * shards) by (nonlinear_arith)
                requires
                    i < n,
            ;
        }
        while k < shards
            invariant
                n == addrs@.len(),
                i < n,
                k <= shards,
                address == addrs@[i as int],
                (i + 1) * shards <= usize::MAX,
                i * shards + shards == (i + 1) * shards,
                plan@.len() == i * shards + k,
                forall|j: int|
                    0 <= j < plan@.len() ==> is_datagram_setup(
                        #[trigger] plan@[j],
                        addrs@[j / shards as int],
                        *iface,
                        groups@,
                        recv_buffer,
                    ),
            decreases shards - k,
        {
            let v4 = address.is_ipv4();
            let joins = multicast_joins(groups, address.ip, iface);
            let ghost j = plan@.len() as int;
            plan.push(
                SocketSetup {
                    address,
                    transport: Transport::Datagram,
                    reuse_address: true,
                    reuse_port: true,
                    only_v6: !v4,
                    broadcast: v4,
                    recv_buffer,
                    send_buffer: None,
                    backlog: None,
                    joins,
                },
            );
            proof {
                assert(j / shards as int == i) by (nonlinear_arith)
                    requires
                        j == i * shards + k,
                        k < shards,
                ;
            }
            k = k + 1;
        }
        i = i + 1;
    }
    plan
}

/// The number of sockets bound for each address of a datagram service.
///
/// Relies on `num_cpus::get`: the number of logical cores available to the
/// process, which its documentation promises is at least one.
#[verifier::external_body]
fn shard_count() -> (r: usize)
    ensures
        r >= 1,
{
    num_cpus::get()
}

/// The datagram socket setups of a service, and the number of sockets for
/// each address: for each candidate address in order, as many sockets as
/// the process has cores, so that the system spreads incoming datagrams
/// over them. `None` only where that many setups would not fit in memory.
pub fn datagram_sockets_plan(
    addrs: &Vec<SocketAddr>,
    iface: &NetworkInterface,
    groups: &Vec<IpAddr>,
    recv_buffer: Option<usize>,
) -> (r: Option<(Vec<SocketSetup>, usize)>)
    ensures
        match r {
            Some((plan, shards)) => shards >= 1 && is_datagram_plan(
                plan@,
                addrs@,
                *iface,
                groups@,
                shards,
                recv_buffer,
            ),
            None => addrs@.len() >= 2,
        },
{
    let shards = shard_count();
    if addrs.len() > usize::MAX / shards {
        proof {
            assert(usize::MAX / shards >= 1) by (nonlinear_arith)
                requires
                    1 <= shards <= usize::MAX,
            ;
        }
        return None;
    }
    proof {
        assert(addrs@.len() * shards <= usize::MAX) by (nonlinear_arith)
            requires
                addrs@.len() <= usize::MAX / shards,
                shards >= 1,
        ;
    }
    let plan = datagram_plan(addrs, iface, groups, shards, recv_buffer);
    Some((plan, shards))
}

/// The outcome of binding a service's sockets: `NoAddrAvailable` where none
/// could be bound.
pub fn require_bound(bound: usize) -> (r: Result<(), Error>)
    ensures
        bound == 0 ==> r matches Err(Error::NoAddrAvailable),
        bound > 0 ==> r is Ok,
{
    if bound == 0 {
        Err(Error::NoAddrAvailable)
    } else {
        Ok(())
    }
}

/// The next step of binding the first available of `total` candidates.
#[derive(Clone, Copy, Debug, PartialEq, Eq, Structural)]
pub enum ScanStep {
    /// Try the candidate at this index.
    Try(usize),
    /// The candidate at this index was bound: use it.
    Done(usize),
}

/// The step after the candidate at `index` of `total` was tried: use it if
/// it was bound, else try the next one; when none is left, no address is
/// available.
pub open spec fn scan_after(total: nat, index: nat, bound: bool) -> Result<ScanStep, Error> {
    if bound {
        Ok(ScanStep::Done(index as usize))
    } else if index + 1 < total {
        Ok(ScanStep::Try((index + 1) as usize))
    } else {
        Err(Error::NoAddrAvailable)
    }
}

/// The first step of binding one of `total` candidates, in order.
pub fn first_candidate(total: usize) -> (r: Result<ScanStep, Error>)
    ensures
        total == 0 ==> r matches Err(Error::NoAddrAvailable),
        total > 0 ==> r == Ok::<ScanStep, Error>(ScanStep::Try(0)),
{
    if total == 0 {
        Err(Error::NoAddrAvailable)
    } else {
        Ok(ScanStep::Try(0))
    }
}

/// The step after the candidate at `index` of `total` was tried, `bound`
/// telling whether binding it succeeded.
pub fn after_attempt(total: usize, index: usize, bound: bool) -> (r: Result<ScanStep, Error>)
    requires
        index < total,
    ensures
        match scan_after(total as nat, index as nat, bound) {
            Ok(step) => r == Ok::<ScanStep, Error>(step),
            Err(_) => r matches Err(Error::NoAddrAvailable),
        },
{
    if bound {
        Ok(ScanStep::Done(index))
    } else if index + 1 < total {
        Ok(ScanStep::Try(index + 1))
    } else {
        Err(Error::NoAddrAvailable)
    }
}

/// The step reached when the first `failed` candidates of `total`, tried
/// from the first one on, all failed to bind.
pub open spec fn scan_after_failures(total: nat, failed: nat) -> Result<ScanStep, Error>
    decreases failed,
{
    if failed == 0 {
        if total == 0 {
            Err(Error::NoAddrAvailable)
        } else {
            Ok(ScanStep::Try(0))
        }
    } else {
        match scan_after_failures(total, (failed - 1) as nat) {
            Ok(ScanStep::Try(i)) => scan_after(total, i as nat, false),
            other => other,
        }
    }
}

/// Candidates are tried in order, each failed one giving way to the next:
/// after `j` failures the candidate at `j` is tried, and `NoAddrAvailable`
/// comes exactly when all of them have failed. A candidate that binds is
/// the one used.
pub proof fn lemma_scan_in_order(total: usize, failed: nat)
    requires
        failed <= total,
    ensures
        failed < total ==> scan_after_failures(total as nat, failed) == Ok::<ScanStep, Error>(
            ScanStep::Try(failed as usize),
        ),
        failed == total ==> scan_after_failures(total as nat, failed) matches Err(
            Error::NoAddrAvailable,
        ),
        failed < total ==> scan_after(total as nat, failed, true) == Ok::<ScanStep, Error>(
            ScanStep::Done(failed as usize),
        ),
    decreases failed,
{
    if failed > 0 {
        lemma_scan_in_order(total, (failed - 1) as nat);
    }
}

} // verus!
