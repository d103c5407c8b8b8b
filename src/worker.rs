use vstd::prelude::*;
use crate::addr::SockAddr;
use crate::config::{ClientConfig, TunnelConfig, TunnelMode, UpstreamType};
use crate::retry::{RETRY_MAX_DELAY_MS, RetryDecision, RetryPolicy, exponential_delay_ms};
use crate::server_addr::{AddrError, ServerTarget, server_target, spec_host_port};
use crate::tls::{
    CipherId, ConfigError, TlsPlan, TransportParams, spec_cipher_named, spec_server_name,
    spec_verifier, tls_plan, transport_params,
};

verus! {

/// The serve routine that a tunnel runs once logged in.
#[derive(Clone, Copy, Debug, PartialEq, Eq, Structural)]
pub enum ServeRoute {
    /// Local TCP listener on the tunnel's address, streams to the peer.
    OutboundTcp,
    /// Local UDP server on the tunnel's address, datagrams to the peer.
    OutboundUdp,
    /// Streams from the peer, delivered to the upstream TCP service.
    InboundTcp,
    /// Datagrams from the peer, delivered to the upstream UDP service.
    InboundUdp,
}

pub open spec fn spec_route(mode: TunnelMode, upstream: UpstreamType) -> ServeRoute {
    match (mode, upstream) {
        (TunnelMode::Out, UpstreamType::Tcp) => ServeRoute::OutboundTcp,
        (TunnelMode::Out, UpstreamType::Udp) => ServeRoute::OutboundUdp,
        (TunnelMode::In, UpstreamType::Tcp) => ServeRoute::InboundTcp,
        (TunnelMode::In, UpstreamType::Udp) => ServeRoute::InboundUdp,
    }
}

pub fn serve_route(mode: TunnelMode, upstream: UpstreamType) -> (r: ServeRoute)
    ensures
        r == spec_route(mode, upstream),
{
    match (mode, upstream) {
        (TunnelMode::Out, UpstreamType::Tcp) => ServeRoute::OutboundTcp,
        (TunnelMode::Out, UpstreamType::Udp) => ServeRoute::OutboundUdp,
        (TunnelMode::In, UpstreamType::Tcp) => ServeRoute::InboundTcp,
        (TunnelMode::In, UpstreamType::Udp) => ServeRoute::InboundUdp,
    }
}

/// The peer's answer to a login request.
#[derive(Clone, Debug)]
pub enum LoginReply {
    Success,
    Failure(String),
    /// Any other message.
    Other,
}

/// Why a login failed.
#[derive(Clone, Debug)]
pub enum LoginError {
    /// The peer refused, with its reason.
    Rejected(String),
    /// The peer answered with something that is not a login result.
    UnexpectedResponse,
}

/// Accepts a login reply only when it is a success.
pub fn check_login_reply(reply: LoginReply) -> (r: Result<(), LoginError>)
    ensures
        reply matches LoginReply::Success ==> r is Ok,
        reply matches LoginReply::Failure(m) ==> (r matches Err(LoginError::Rejected(e)) && e@
            == m@),
        reply matches LoginReply::Other ==> (r matches Err(LoginError::UnexpectedResponse)),
{
    match reply {
        LoginReply::Success => Ok(()),
        LoginReply::Failure(m) => Err(LoginError::Rejected(m)),
        LoginReply::Other => Err(LoginError::UnexpectedResponse),
    }
}

/// What a connection attempt needs: transport parameters, TLS choices and
/// where the server is.
#[derive(Debug)]
pub struct LoginPlan {
    pub transport: TransportParams,
    pub tls: TlsPlan,
    pub target: ServerTarget,
}

/// Why no login plan could be made. Configuration errors are fatal for the
/// tunnel; an address error is retried like any network failure.
#[derive(Clone, Copy, Debug, PartialEq, Eq, Structural)]
pub enum PlanError {
    Config(ConfigError),
    Addr(AddrError),
}

impl PlanError {
    pub open spec fn spec_is_fatal(self) -> bool {
        self is Config
    }

    #[verifier::when_used_as_spec(spec_is_fatal)]
    pub fn is_fatal(self) -> (r: bool)
        ensures
            r == self.spec_is_fatal(),
    {
        match self {
            PlanError::Config(_) => true,
            PlanError::Addr(_) => false,
        }
    }
}

/// Builds the login plan of a configuration. `literal` is the socket address
/// that `server_addr` denotes when it parses as one.
pub fn prepare_login_plan(config: &ClientConfig, literal: Option<SockAddr>) -> (r: Result<
    LoginPlan,
    PlanError,
>)
    ensures
        spec_cipher_named(config.cipher@) is None ==> r == Err::<LoginPlan, PlanError>(
            PlanError::Config(ConfigError::InvalidCipher),
        ),
        spec_cipher_named(config.cipher@) is Some && literal is None && spec_host_port(
            config.server_addr@,
        ) is None ==> r == Err::<LoginPlan, PlanError>(PlanError::Addr(AddrError::InvalidPort)),
        r is Ok <==> (spec_cipher_named(config.cipher@) is Some && (literal is Some
            || spec_host_port(config.server_addr@) is Some)),
        r matches Ok(p) ==> {
            &&& p.transport == crate::tls::spec_transport_params(config.quic_timeout_ms)
            &&& p.tls.suites@ == seq![
                spec_cipher_named(config.cipher@)->0,
                CipherId::Aes128GcmSha256,
            ]
            &&& p.tls.verifier == spec_verifier(config.cert_path@.len() == 0, literal is Some)
            &&& p.tls.server_name@ == spec_server_name(config.server_addr@, p.tls.verifier)
            &&& (literal matches Some(a) ==> (p.target matches ServerTarget::Literal(b) && a == b))
            &&& (literal is None ==> (p.target matches ServerTarget::Lookup { host, port }
                && spec_host_port(config.server_addr@) == Some((host@, port))))
        },
{
    let transport = transport_params(config.quic_timeout_ms);
    let tls = match tls_plan(
        config.cipher.as_str(),
        config.cert_path.as_str(),
        config.server_addr.as_str(),
        literal.is_some(),
    ) {
        Ok(t) => t,
        Err(e) => return Err(PlanError::Config(e)),
    };
    let target = match server_target(config.server_addr.as_str(), literal) {
        Ok(t) => t,
        Err(e) => return Err(PlanError::Addr(e)),
    };
    Ok(LoginPlan { transport, tls, target })
}

/// Where a tunnel worker stands.
#[derive(Clone, Copy, Debug, PartialEq, Eq, Structural)]
pub enum WorkerPhase {
    /// Establishing and logging in, with retries.
    Connecting,
    /// A serve routine runs on a registered connection.
    Serving,
    /// The worker has quit.
    Done,
}

/// What happened since the worker's last step.
#[derive(Clone, Copy, Debug, PartialEq, Eq, Structural)]
pub enum WorkerEvent {
    /// An attempt to connect and log in failed; `fatal` for configuration errors.
    AttemptFailed { fatal: bool },
    /// An attempt succeeded: the connection is logged in.
    LoggedIn,
    /// The serve routine returned and the connection was deregistered.
    ServeReturned,
}

/// What the worker does next.
#[derive(Clone, Copy, Debug, PartialEq, Eq, Structural)]
pub enum WorkerAction {
    /// Make a connection attempt now.
    Attempt,
    /// Sleep this many milliseconds, then make an attempt.
    Wait(u64),
    /// Register the connection and run this serve routine.
    Serve(ServeRoute),
    /// Stop for good.
    Quit,
}

/// Why a tunnel cannot be served.
#[derive(Clone, Copy, Debug, PartialEq, Eq, Structural)]
pub enum WorkerError {
    /// The tunnel names no local server address.
    MissingLocalAddr,
}

/// The control loop of one tunnel: connect with retries, serve, and reconnect
/// after the serve routine returns, until shutdown.
#[derive(Clone, Copy, Debug, PartialEq, Eq, Structural)]
pub struct TunnelWorker {
    pub index: usize,
    pub route: ServeRoute,
    pub local_server_addr: SockAddr,
    pub retry: RetryPolicy,
    pub phase: WorkerPhase,
}

impl TunnelWorker {
    /// The worker of tunnel `index`, about to make its first attempt.
    pub fn new(index: usize, tunnel: &TunnelConfig) -> (r: Result<TunnelWorker, WorkerError>)
        ensures
            tunnel.local_server_addr is None ==> r == Err::<TunnelWorker, WorkerError>(
                WorkerError::MissingLocalAddr,
            ),
            tunnel.local_server_addr matches Some(a) ==> r == Ok::<TunnelWorker, WorkerError>(
                TunnelWorker {
                    index,
                    route: spec_route(tunnel.mode, tunnel.upstream_type),
                    local_server_addr: a,
                    retry: RetryPolicy { max_retries: usize::MAX, retries: 0 },
                    phase: WorkerPhase::Connecting,
                },
            ),
    {
        match tunnel.local_server_addr {
            Some(a) => Ok(
                TunnelWorker {
                    index,
                    route: serve_route(tunnel.mode, tunnel.upstream_type),
                    local_server_addr: a,
                    retry: RetryPolicy::unlimited(),
                    phase: WorkerPhase::Connecting,
                },
            ),
            None => Err(WorkerError::MissingLocalAddr),
        }
    }

    /// The worker's decision on an event; `quitting` is whether shutdown has
    /// begun.
    ///
    /// - A fatal failure ends the worker. Another failure waits the backoff
    ///   delay and tries again, unless shutdown began (then the worker ends).
    /// - A login ends the worker when shutdown began; else the connection is
    ///   served, and the retry count starts afresh for the next reconnect.
    /// - When serving ends, the worker reconnects unless shutdown began.
    pub fn step(&mut self, event: WorkerEvent, quitting: bool) -> (r: WorkerAction)
        ensures
            final(self).index == old(self).index,
            final(self).route == old(self).route,
            final(self).local_server_addr == old(self).local_server_addr,
            r == WorkerAction::Quit <==> final(self).phase == WorkerPhase::Done,
            r matches WorkerAction::Wait(ms) ==> 1000 <= ms <= RETRY_MAX_DELAY_MS,
            match event {
                WorkerEvent::AttemptFailed { fatal } => if fatal || quitting
                    || old(self).retry.retries >= old(self).retry.max_retries {
                    r == WorkerAction::Quit
                } else {
                    r == WorkerAction::Wait(
                        exponential_delay_ms(RETRY_MAX_DELAY_MS, old(self).retry.retries as nat)
                            as u64,
                    ) && final(self).retry.retries == old(self).retry.retries + 1
                        && final(self).phase == WorkerPhase::Connecting
                },
                WorkerEvent::LoggedIn => if quitting {
                    r == WorkerAction::Quit
                } else {
                    r == WorkerAction::Serve(old(self).route) && final(self).phase
                        == WorkerPhase::Serving && final(self).retry == (RetryPolicy {
                        max_retries: usize::MAX,
                        retries: 0,
                    })
                },
                WorkerEvent::ServeReturned => if quitting {
                    r == WorkerAction::Quit
                } else {
                    r == WorkerAction::Attempt && final(self).phase == WorkerPhase::Connecting
                },
            },
    {
        match event {
            WorkerEvent::AttemptFailed { fatal } => {
                if fatal {
                    self.phase = WorkerPhase::Done;
                    return WorkerAction::Quit;
                }
                match self.retry.on_failure(quitting) {
                    RetryDecision::Wait(ms) => {
                        self.phase = WorkerPhase::Connecting;
                        WorkerAction::Wait(ms)
                    },
                    RetryDecision::GiveUp => {
                        self.phase = WorkerPhase::Done;
                        WorkerAction::Quit
                    },
                }
            },
            WorkerEvent::LoggedIn => {
                if quitting {
                    self.phase = WorkerPhase::Done;
                    WorkerAction::Quit
                } else {
                    self.retry = RetryPolicy::unlimited();
                    self.phase = WorkerPhase::Serving;
                    WorkerAction::Serve(self.route)
                }
            },
            WorkerEvent::ServeReturned => {
                if quitting {
                    self.phase = WorkerPhase::Done;
                    WorkerAction::Quit
                } else {
                    self.phase = WorkerPhase::Connecting;
                    WorkerAction::Attempt
                }
            },
        }
    }
}

} // verus!
