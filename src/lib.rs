//! Hosting and supervision of TCP and UDP network services.
//!
//! The library holds the decisions of the framework: which addresses a
//! service binds, how each socket is set up, how a failed service is
//! restarted, and when a supervisor stops. The sockets themselves, the
//! asynchronous loops and the signal handling are driven around it.
pub mod addr;
pub mod bind;
pub mod error;
pub mod interface;
pub mod policy;
pub mod supervisor;
pub mod task;
pub mod text;
pub mod tuning;

pub use addr::{BindMode, IpAddr, Ipv4Addr, Ipv6Addr, SocketAddr};
pub use bind::{
    after_attempt, datagram_plan, datagram_sockets_plan, first_candidate, multicast_joins,
    require_bound, resolve_addrs, stream_plan, MulticastJoin, ScanStep, SocketSetup,
    StreamTuning, Transport,
};
pub use error::Error;
pub use interface::{AddressRecord, InterfaceAddress, NetworkInterface};
pub use policy::{RestartPolicy, MAX_DELAY_MS};
pub use supervisor::{
    run_step, RunAction, RunEvent, RunPhase, Supervisor, Tcp, Udp, GRACE_PERIOD_MS,
};
pub use task::{SupervisedTask, TaskAction, TaskEvent, TaskState};
pub use text::{is_blank, parse_usize, trim};
pub use tuning::{
    env_or_sys, read_sys_default, tcp_backlog, tcp_recvbuf_size, tcp_sendbuf_size,
    udp_recvbuf_size, DEFAULT_BACKLOG, RMEM_DEFAULT_PATH, SOMAXCONN_PATH, TCP_BACKLOG_VAR,
    TCP_RCVBUF_VAR, TCP_SNDBUF_VAR, UDP_RCVBUF_VAR, WMEM_DEFAULT_PATH,
};
