use vstd::prelude::*;

use crate::text::{parse_usize, trim, trimmed, usize_of};

verus! {

/// Backlog used where neither an override nor a kernel default is found.
pub const DEFAULT_BACKLOG: usize = 128;

/// Environment variable that overrides the listen backlog.
pub const TCP_BACKLOG_VAR: &'static str = "TCP_BACKLOG";

/// Environment variable that overrides the TCP receive buffer size.
pub const TCP_RCVBUF_VAR: &'static str = "TCP_RCVBUF";

/// Environment variable that overrides the TCP send buffer size.
pub const TCP_SNDBUF_VAR: &'static str = "TCP_SNDBUF";

/// Environment variable that overrides the UDP receive buffer size.
pub const UDP_RCVBUF_VAR: &'static str = "UDP_RCVBUF";

/// Kernel tunable that holds the default listen backlog (Linux).
pub const SOMAXCONN_PATH: &'static str = "/proc/sys/net/core/somaxconn";

/// Kernel tunable that holds the default receive buffer size (Linux).
pub const RMEM_DEFAULT_PATH: &'static str = "/proc/sys/net/core/rmem_default";

/// Kernel tunable that holds the default send buffer size (Linux).
pub const WMEM_DEFAULT_PATH: &'static str = "/proc/sys/net/core/wmem_default";

/// The text of an optional string.
pub open spec fn text_of(s: Option<&str>) -> Option<Seq<char>> {
    match s {
        Some(t) => Some(t@),
        None => None,
    }
}

/// The tuning value chosen from the text of an environment override and
/// the text of a kernel tunable: the override where it is a decimal number
/// that fits, else the tunable's number (white space around it ignored),
/// else nothing.
pub open spec fn tuned_value(env: Option<Seq<char>>, sys: Option<Seq<char>>) -> Option<usize> {
    let from_env = match env {
        Some(e) => usize_of(e),
        None => None,
    };
    match from_env {
        Some(v) => Some(v),
        None => match sys {
            Some(t) => usize_of(trimmed(t)),
            None => None,
        },
    }
}

/// `v` as an `i32`, clamped to `i32::MAX`.
pub open spec fn clamp_to_i32(v: usize) -> i32 {
    if v <= i32::MAX {
        v as i32
    } else {
        i32::MAX
    }
}

/// Chooses a tuning value: the environment override `env` first, then the
/// kernel tunable's content `sys`.
pub fn env_or_sys(env: Option<&str>, sys: Option<&str>) -> (r: Option<usize>)
    ensures
        r == tuned_value(text_of(env), text_of(sys)),
{
    let from_env = match env {
        Some(e) => parse_usize(e),
        None => None,
    };
    match from_env {
        Some(v) => Some(v),
        None => match sys {
            Some(t) => read_sys_default(t),
            None => None,
        },
    }
}

/// The number that a kernel tunable holds, white space around it ignored.
pub fn read_sys_default(content: &str) -> (r: Option<usize>)
    ensures
        r == usize_of(trimmed(content@)),
{
    parse_usize(trim(content))
}

/// The listen backlog: the override, else the kernel default, else 128;
/// clamped to `i32::MAX`.
pub fn tcp_backlog(env: Option<&str>, sys: Option<&str>) -> (r: i32)
    ensures
        r == clamp_to_i32(
            match tuned_value(text_of(env), text_of(sys)) {
                Some(v) => v,
                None => DEFAULT_BACKLOG,
            },
        ),
{
    let chosen = match env_or_sys(env, sys) {
        Some(v) => v,
        None => DEFAULT_BACKLOG,
    };
    if chosen <= i32::MAX as usize {
        chosen as i32
    } else {
        i32::MAX
    }
}

/// The TCP receive buffer size to apply, if any.
pub fn tcp_recvbuf_size(env: Option<&str>, sys: Option<&str>) -> (r: Option<usize>)
    ensures
        r == tuned_value(text_of(env), text_of(sys)),
{
    env_or_sys(env, sys)
}

/// The TCP send buffer size to apply, if any.
pub fn tcp_sendbuf_size(env: Option<&str>, sys: Option<&str>) -> (r: Option<usize>)
    ensures
        r == tuned_value(text_of(env), text_of(sys)),
{
    env_or_sys(env, sys)
}

/// The UDP receive buffer size to apply, if any.
pub fn udp_recvbuf_size(env: Option<&str>, sys: Option<&str>) -> (r: Option<usize>)
    ensures
        r == tuned_value(text_of(env), text_of(sys)),
{
    env_or_sys(env, sys)
}

} // verus!
