use vstd::prelude::*;
use crate::addr::SockAddr;

verus! {

/// Direction of a tunnel's traffic: `Out` accepts locally and forwards to the
/// peer, `In` receives from the peer and delivers to a local upstream.
#[derive(Clone, Copy, Debug, PartialEq, Eq, Structural)]
pub enum TunnelMode {
    Out,
    In,
}

#[derive(Clone, Copy, Debug, PartialEq, Eq, Structural)]
pub enum UpstreamType {
    Tcp,
    Udp,
}

/// One forwarding path.
#[derive(Clone, Debug)]
pub struct TunnelConfig {
    pub mode: TunnelMode,
    pub upstream_type: UpstreamType,
    /// The local bind address for `Out`, the upstream target for `In`.
    pub local_server_addr: Option<SockAddr>,
}

/// Client configuration, fixed once the client is built.
#[derive(Clone, Debug)]
pub struct ClientConfig {
    pub password: String,
    pub tunnels: Vec<TunnelConfig>,
    /// `host[:port]` or a literal socket address.
    pub server_addr: String,
    /// Empty: platform trust store or no verification; else a PEM file of roots.
    pub cert_path: String,
    pub cipher: String,
    /// QUIC idle timeout; 0 disables it.
    pub quic_timeout_ms: u64,
    pub wait_before_retry_ms: u64,
    pub tcp_timeout_ms: u64,
    pub udp_timeout_ms: u64,
    pub dot_servers: Vec<String>,
    pub dns_servers: Vec<String>,
    pub workers: usize,
    /// Seconds between connection migrations; 0 disables migration.
    pub hop_interval_seconds: u64,
}

} // verus!
