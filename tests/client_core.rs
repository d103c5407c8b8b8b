use rstun::addr::{bind_addr_matching, socket_addr_with_unspecified_ip_port, IpAddress, SockAddr};
use rstun::config::{ClientConfig, TunnelConfig, TunnelMode, UpstreamType};
use rstun::retry::{RetryDecision, RetryPolicy};
use rstun::server_addr::{
    extract_domain_or_ip, first_lookup_step, next_lookup_step, parse_port, server_target,
    split_host_port, AddrError, LookupStep, ServerTarget,
};
use rstun::state::ClientState;
use rstun::table::{Link, MigrationTick, StateTable};
use rstun::telemetry::{log_line, traffic_report, Telemetry, Traffic};
use rstun::text::{chars_of, same_text, string_of};
use rstun::tls::{
    accept_cert_load, offered_suites, parse_cipher, tls_plan, transport_params, CertLoad,
    CertVerifier, CipherId, ConfigError,
};
use rstun::worker::{
    check_login_reply, prepare_login_plan, serve_route, LoginError, LoginReply, PlanError,
    ServeRoute, TunnelWorker, WorkerAction, WorkerError, WorkerEvent, WorkerPhase,
};

type Table = StateTable<u32, u32, u32, u32>;

fn v4(a: u8, b: u8, c: u8, d: u8, port: u16) -> SockAddr {
    SockAddr { ip: IpAddress::V4(u32::from_be_bytes([a, b, c, d])), port }
}

fn traffic(rx: u64, tx: u64, rxd: u64, txd: u64) -> Traffic {
    Traffic { rx_bytes: rx, tx_bytes: tx, rx_dgrams: rxd, tx_dgrams: txd }
}

fn config(server_addr: &str, cert_path: &str, hop: u64) -> ClientConfig {
    ClientConfig {
        password: "secret".to_string(),
        tunnels: vec![TunnelConfig {
            mode: TunnelMode::Out,
            upstream_type: UpstreamType::Tcp,
            local_server_addr: Some(v4(127, 0, 0, 1, 8080)),
        }],
        server_addr: server_addr.to_string(),
        cert_path: cert_path.to_string(),
        cipher: "chacha20-poly1305".to_string(),
        quic_timeout_ms: 30000,
        wait_before_retry_ms: 5000,
        tcp_timeout_ms: 30000,
        udp_timeout_ms: 5000,
        dot_servers: vec![],
        dns_servers: vec![],
        workers: 4,
        hop_interval_seconds: hop,
    }
}

#[test]
fn client_state_names() {
    assert_eq!(ClientState::Idle.name(), "Idle");
    assert_eq!(ClientState::Connecting.name(), "Connecting");
    assert_eq!(ClientState::Connected.name(), "Connected");
    assert_eq!(ClientState::LoggingIn.name(), "LoggingIn");
    assert_eq!(ClientState::Tunneling.name(), "Tunneling");
    assert_eq!(ClientState::Stopping.name(), "Stopping");
    assert_eq!(ClientState::Terminated.name(), "Terminated");
}

#[test]
fn terminated_never_regresses() {
    for to in [
        ClientState::Idle,
        ClientState::Connecting,
        ClientState::Connected,
        ClientState::LoggingIn,
        ClientState::Tunneling,
        ClientState::Stopping,
        ClientState::Terminated,
    ] {
        assert_eq!(ClientState::Terminated.after(to), ClientState::Terminated);
        assert!(ClientState::Stopping.after(to).is_quitting());
    }
    assert_eq!(ClientState::Tunneling.after(ClientState::Connecting), ClientState::Connecting);
    assert_eq!(ClientState::Idle.after(ClientState::Stopping), ClientState::Stopping);
    assert_eq!(ClientState::Stopping.after(ClientState::Terminated), ClientState::Terminated);
}

#[test]
fn server_addr_without_port_uses_default() {
    let (host, port) = split_host_port("peer.example").unwrap();
    assert_eq!(host, "peer.example");
    assert_eq!(port, 3515);
}

#[test]
fn server_addr_with_port_uses_it() {
    let (host, port) = split_host_port("peer.example:4000").unwrap();
    assert_eq!(host, "peer.example");
    assert_eq!(port, 4000);
    let (host, port) = split_host_port("a:b:+0080").unwrap();
    assert_eq!(host, "a:b");
    assert_eq!(port, 80);
    assert_eq!(split_host_port("h:65535").unwrap().1, 65535);
}

#[test]
fn server_addr_with_bad_port_fails() {
    assert_eq!(split_host_port("peer.example:http").unwrap_err(), AddrError::InvalidPort);
    assert_eq!(split_host_port("peer.example:").unwrap_err(), AddrError::InvalidPort);
    assert_eq!(split_host_port("peer.example:65536").unwrap_err(), AddrError::InvalidPort);
    assert_eq!(split_host_port("peer.example:+").unwrap_err(), AddrError::InvalidPort);
    assert_eq!(split_host_port("peer.example:-1").unwrap_err(), AddrError::InvalidPort);
}

#[test]
fn port_parser_reads_a_range() {
    let cs = chars_of("x99999:4433y");
    assert_eq!(parse_port(&cs, 7, 11), Some(4433));
    assert_eq!(parse_port(&cs, 1, 6), None);
    assert_eq!(parse_port(&cs, 7, 12), None);
    assert_eq!(parse_port(&cs, 7, 7), None);
}

#[test]
fn domain_or_ip_is_the_host_part() {
    assert_eq!(extract_domain_or_ip("peer.example:4000"), "peer.example");
    assert_eq!(extract_domain_or_ip("peer.example"), "peer.example");
    assert_eq!(extract_domain_or_ip("10.0.0.1:3515"), "10.0.0.1");
}

#[test]
fn literal_server_addr_is_used_as_is() {
    let a = v4(10, 0, 0, 1, 3515);
    match server_target("10.0.0.1:3515", Some(a)).unwrap() {
        ServerTarget::Literal(b) => assert_eq!(a, b),
        other => panic!("unexpected {:?}", other),
    }
    match server_target("peer.example", None).unwrap() {
        ServerTarget::Lookup { host, port } => {
            assert_eq!(host, "peer.example");
            assert_eq!(port, 3515);
        }
        other => panic!("unexpected {:?}", other),
    }
    assert!(matches!(server_target("peer.example:x", None), Err(AddrError::InvalidPort)));
}

#[test]
fn lookup_ladder_order() {
    assert_eq!(first_lookup_step(2, true), LookupStep::Dot(0));
    assert_eq!(next_lookup_step(LookupStep::Dot(0), 2, true), Some(LookupStep::Dot(1)));
    assert_eq!(next_lookup_step(LookupStep::Dot(1), 2, true), Some(LookupStep::NameServers));
    assert_eq!(next_lookup_step(LookupStep::Dot(1), 2, false), Some(LookupStep::System));
    assert_eq!(next_lookup_step(LookupStep::NameServers, 2, true), Some(LookupStep::System));
    assert_eq!(next_lookup_step(LookupStep::System, 2, true), None);
    assert_eq!(first_lookup_step(0, true), LookupStep::NameServers);
    assert_eq!(first_lookup_step(0, false), LookupStep::System);
}

#[test]
fn unspecified_local_matches_family() {
    let v4_remote = v4(192, 0, 2, 7, 4000);
    let v6_remote = SockAddr { ip: IpAddress::V6(0x2001_0db8_0000_0000_0000_0000_0000_0001), port: 4000 };
    assert_eq!(bind_addr_matching(v4_remote), SockAddr { ip: IpAddress::V4(0), port: 0 });
    assert_eq!(bind_addr_matching(v6_remote), SockAddr { ip: IpAddress::V6(0), port: 0 });
    assert!(!socket_addr_with_unspecified_ip_port(false).is_ipv6());
    assert!(socket_addr_with_unspecified_ip_port(true).is_ipv6());
}

#[test]
fn cipher_names() {
    assert_eq!(parse_cipher("chacha20-poly1305"), Some(CipherId::Chacha20Poly1305Sha256));
    assert_eq!(parse_cipher("aes-256-gcm"), Some(CipherId::Aes256GcmSha384));
    assert_eq!(parse_cipher("aes-128-gcm"), Some(CipherId::Aes128GcmSha256));
    assert_eq!(parse_cipher("aes-128"), None);
    assert_eq!(parse_cipher(""), None);
    assert_eq!(
        offered_suites(CipherId::Aes256GcmSha384),
        vec![CipherId::Aes256GcmSha384, CipherId::Aes128GcmSha256]
    );
}

#[test]
fn verifier_selection() {
    let p = tls_plan("aes-256-gcm", "", "peer.example:4000", false).unwrap();
    assert_eq!(p.verifier, CertVerifier::PlatformTrust);
    assert_eq!(p.server_name, "peer.example");
    let p = tls_plan("aes-256-gcm", "", "10.0.0.1:4000", true).unwrap();
    assert_eq!(p.verifier, CertVerifier::AcceptAny);
    assert_eq!(p.server_name, "localhost");
    let p = tls_plan("aes-256-gcm", "ca.pem", "10.0.0.1:4000", true).unwrap();
    assert_eq!(p.verifier, CertVerifier::PinnedRoots);
    assert_eq!(p.server_name, "10.0.0.1");
    assert_eq!(p.suites, vec![CipherId::Aes256GcmSha384, CipherId::Aes128GcmSha256]);
    assert_eq!(tls_plan("rot13", "", "peer.example", false).unwrap_err(), ConfigError::InvalidCipher);
}

#[test]
fn insecure_verifier_for_two_clients_with_literal_servers() {
    for _ in 0..2 {
        let p = tls_plan("aes-128-gcm", "", "127.0.0.1:3515", true).unwrap();
        assert_eq!(p.verifier, CertVerifier::AcceptAny);
        assert_eq!(p.server_name, "localhost");
    }
}

#[test]
fn cert_file_errors_are_distinct() {
    assert_eq!(accept_cert_load(CertLoad::Unreadable), Err(ConfigError::CertUnreadable));
    assert_eq!(accept_cert_load(CertLoad::Parsed(0)), Err(ConfigError::NoCertificates));
    assert_eq!(accept_cert_load(CertLoad::Parsed(3)), Ok(3));
}

#[test]
fn transport_parameters() {
    let t = transport_params(30000);
    assert_eq!(t.stream_receive_window, 1024 * 1024);
    assert_eq!(t.receive_window, 2 * 1024 * 1024);
    assert_eq!(t.send_window, 2 * 1024 * 1024);
    assert_eq!(t.max_concurrent_bidi_streams, 1024);
    assert_eq!(t.idle_timeout_ms, Some(30000));
    assert_eq!(t.keep_alive_ms, Some(20000));
    let t = transport_params(0);
    assert_eq!(t.idle_timeout_ms, None);
    assert_eq!(t.keep_alive_ms, None);
    assert_eq!(transport_params(1000).keep_alive_ms, Some(666));
    assert_eq!(transport_params(u64::MAX).keep_alive_ms, Some(12297829382473034410));
}

#[test]
fn backoff_delays_double_up_to_ten_seconds() {
    let mut p = RetryPolicy::unlimited();
    let mut delays = vec![];
    for _ in 0..7 {
        match p.on_failure(false) {
            RetryDecision::Wait(ms) => delays.push(ms),
            RetryDecision::GiveUp => panic!("gave up"),
        }
    }
    assert_eq!(delays, vec![1000, 2000, 4000, 8000, 10000, 10000, 10000]);
    assert_eq!(p.retries, 7);
    assert_eq!(p.on_failure(true), RetryDecision::GiveUp);
    assert_eq!(p.retries, 7);
}

#[test]
fn listener_binding_gives_up_after_ten_retries() {
    let mut p = RetryPolicy::for_listener();
    let mut waits = 0;
    while let RetryDecision::Wait(_) = p.on_failure(false) {
        waits += 1;
    }
    assert_eq!(waits, 10);
}

#[test]
fn retry_on_unreachable_backs_off_until_login() {
    let tunnel = config("peer.example:4000", "", 0).tunnels[0].clone();
    let mut w = TunnelWorker::new(0, &tunnel).unwrap();
    let mut waited = vec![];
    for _ in 0..3 {
        match w.step(WorkerEvent::AttemptFailed { fatal: false }, false) {
            WorkerAction::Wait(ms) => waited.push(ms),
            a => panic!("unexpected {:?}", a),
        }
    }
    assert_eq!(waited, vec![1000, 2000, 4000]);
    assert_eq!(w.step(WorkerEvent::LoggedIn, false), WorkerAction::Serve(ServeRoute::OutboundTcp));
    assert_eq!(w.phase, WorkerPhase::Serving);
    assert_eq!(w.retry.retries, 0);
    assert_eq!(w.step(WorkerEvent::ServeReturned, false), WorkerAction::Attempt);
    assert_eq!(w.step(WorkerEvent::ServeReturned, true), WorkerAction::Quit);
    assert_eq!(w.phase, WorkerPhase::Done);
}

#[test]
fn worker_quits_on_fatal_error_or_shutdown() {
    let tunnel = config("peer.example:4000", "", 0).tunnels[0].clone();
    let mut w = TunnelWorker::new(1, &tunnel).unwrap();
    assert_eq!(w.step(WorkerEvent::AttemptFailed { fatal: true }, false), WorkerAction::Quit);
    let mut w = TunnelWorker::new(1, &tunnel).unwrap();
    assert_eq!(w.step(WorkerEvent::AttemptFailed { fatal: false }, true), WorkerAction::Quit);
    let mut w = TunnelWorker::new(1, &tunnel).unwrap();
    assert_eq!(w.step(WorkerEvent::LoggedIn, true), WorkerAction::Quit);
    let missing = TunnelConfig { local_server_addr: None, ..tunnel };
    assert_eq!(TunnelWorker::new(2, &missing).unwrap_err(), WorkerError::MissingLocalAddr);
}

#[test]
fn serve_routes() {
    assert_eq!(serve_route(TunnelMode::Out, UpstreamType::Tcp), ServeRoute::OutboundTcp);
    assert_eq!(serve_route(TunnelMode::Out, UpstreamType::Udp), ServeRoute::OutboundUdp);
    assert_eq!(serve_route(TunnelMode::In, UpstreamType::Tcp), ServeRoute::InboundTcp);
    assert_eq!(serve_route(TunnelMode::In, UpstreamType::Udp), ServeRoute::InboundUdp);
}

#[test]
fn login_replies() {
    assert!(check_login_reply(LoginReply::Success).is_ok());
    match check_login_reply(LoginReply::Failure("bad password".to_string())) {
        Err(LoginError::Rejected(m)) => assert_eq!(m, "bad password"),
        other => panic!("unexpected {:?}", other),
    }
    assert!(matches!(check_login_reply(LoginReply::Other), Err(LoginError::UnexpectedResponse)));
}

#[test]
fn login_plan_errors() {
    let mut c = config("peer.example:4000", "", 0);
    c.cipher = "none".to_string();
    assert!(matches!(
        prepare_login_plan(&c, None),
        Err(PlanError::Config(ConfigError::InvalidCipher))
    ));
    let c = config("peer.example:port", "", 0);
    let e = prepare_login_plan(&c, None).unwrap_err();
    assert_eq!(e, PlanError::Addr(AddrError::InvalidPort));
    assert!(!e.is_fatal());
    assert!(PlanError::Config(ConfigError::NoCertificates).is_fatal());
}

#[test]
fn happy_outbound_tcp() {
    let c = config("peer.example:4000", "ca.pem", 0);
    let plan = prepare_login_plan(&c, None).unwrap();
    assert_eq!(plan.tls.verifier, CertVerifier::PinnedRoots);
    assert_eq!(plan.tls.server_name, "peer.example");
    match &plan.target {
        ServerTarget::Lookup { host, port } => {
            assert_eq!(host, "peer.example");
            assert_eq!(*port, 4000);
        }
        other => panic!("unexpected {:?}", other),
    }
    let mut w = TunnelWorker::new(0, &c.tunnels[0]).unwrap();
    assert_eq!(w.local_server_addr, v4(127, 0, 0, 1, 8080));

    let mut t: Table = StateTable::new();
    t.set_enable_on_info_report(true);
    assert!(matches!(
        t.set_and_post_tunnel_state(ClientState::Connecting),
        Some(Telemetry::State(ClientState::Connecting))
    ));
    assert_eq!(w.step(WorkerEvent::LoggedIn, t.should_quit()), WorkerAction::Serve(ServeRoute::OutboundTcp));
    let start = t.register_link(w.local_server_addr, 11, 21, c.hop_interval_seconds);
    assert!(!start);
    assert!(t.tcp_server(w.local_server_addr).is_none());
    t.add_tcp_server(w.local_server_addr, 31);
    assert_eq!(t.tcp_server(w.local_server_addr), Some(&31));
    let rec = t.set_and_post_tunnel_state(ClientState::Tunneling);
    assert!(matches!(rec, Some(Telemetry::State(ClientState::Tunneling))));
    assert_eq!(t.get_client_state(), ClientState::Tunneling);
    assert_eq!(t.link_count(), 1);
}

#[test]
fn login_registers_one_entry_and_serve_end_removes_it() {
    let mut t: Table = StateTable::new();
    let a = v4(127, 0, 0, 1, 8080);
    let b = v4(127, 0, 0, 1, 8081);
    t.register_link(a, 1, 10, 0);
    t.register_link(b, 2, 20, 0);
    t.register_link(a, 3, 30, 0);
    assert_eq!(t.link_count(), 2);
    let l = t.link_of(a).unwrap();
    assert_eq!((l.conn, l.endpoint), (3, 30));
    let gone = t.deregister_link(a, traffic(5, 6, 7, 8)).unwrap();
    assert_eq!((gone.conn, gone.endpoint), (3, 30));
    assert!(t.link_of(a).is_none());
    assert_eq!(t.link_count(), 1);
    assert_eq!(t.total_traffic(), traffic(5, 6, 7, 8));
    assert!(t.deregister_link(a, traffic(100, 100, 100, 100)).is_none());
    assert_eq!(t.total_traffic(), traffic(5, 6, 7, 8));
}

#[test]
fn one_migration_task_at_most() {
    let mut t: Table = StateTable::new();
    assert!(t.register_link(v4(127, 0, 0, 1, 1), 1, 1, 2));
    assert!(!t.register_link(v4(127, 0, 0, 1, 2), 2, 2, 2));
    assert!(t.migration_running());
}

#[test]
fn no_migration_with_zero_hop_interval() {
    let mut t: Table = StateTable::new();
    assert!(!t.register_link(v4(127, 0, 0, 1, 1), 1, 1, 0));
    assert!(!t.register_link(v4(127, 0, 0, 1, 2), 2, 2, 0));
    assert!(!t.migration_running());
    assert!(matches!(t.migration_tick(&vec![true, true]), MigrationTick::Stop));
}

#[test]
fn migration_hops_rebind_open_connections() {
    let mut t: Table = StateTable::new();
    let a = v4(127, 0, 0, 1, 1);
    let b = v4(127, 0, 0, 1, 2);
    assert!(t.register_link(a, 1, 1, 2));
    t.register_link(b, 2, 2, 2);
    for _ in 0..3 {
        match t.migration_tick(&vec![true, false]) {
            MigrationTick::Rebind(v) => assert_eq!(v, vec![a]),
            MigrationTick::Stop => panic!("stopped"),
        }
    }
    assert_eq!(t.link_count(), 2);
    let work = t.begin_stop(&vec![Traffic::zero(), Traffic::zero()]);
    assert!(work.signal_migration);
    assert!(matches!(t.migration_tick(&vec![]), MigrationTick::Stop));
}

#[test]
fn graceful_shutdown_under_load() {
    let mut t: Table = StateTable::new();
    t.set_enable_on_info_report(true);
    t.register_link(v4(127, 0, 0, 1, 1), 1, 10, 5);
    t.register_link(v4(127, 0, 0, 1, 2), 2, 20, 5);
    t.add_tcp_server(v4(127, 0, 0, 1, 1), 7);
    t.add_udp_server(v4(127, 0, 0, 1, 2), 8);
    t.set_and_post_tunnel_state(ClientState::Tunneling);
    let work = t.begin_stop(&vec![traffic(1, 2, 3, 4), traffic(10, 20, 30, 40)]);
    assert!(matches!(work.record, Some(Telemetry::State(ClientState::Stopping))));
    assert!(work.signal_migration);
    let conns: Vec<u32> = work.links.iter().map(|l| l.value.conn).collect();
    assert_eq!(conns, vec![1, 2]);
    assert_eq!(work.tcp_servers.len(), 1);
    assert_eq!(work.udp_servers.len(), 1);
    assert_eq!(t.get_client_state(), ClientState::Stopping);
    assert!(t.should_quit());
    assert_eq!(t.link_count(), 0);
    assert_eq!(t.total_traffic(), traffic(11, 22, 33, 44));
    assert!(matches!(
        t.set_and_post_tunnel_state(ClientState::Terminated),
        Some(Telemetry::State(ClientState::Terminated))
    ));
    assert_eq!(t.get_client_state(), ClientState::Terminated);
}

#[test]
fn stopping_twice_is_stopping_once() {
    let mut t: Table = StateTable::new();
    t.set_enable_on_info_report(true);
    t.register_link(v4(127, 0, 0, 1, 1), 1, 10, 5);
    let first = t.begin_stop(&vec![traffic(1, 1, 1, 1)]);
    assert_eq!(first.links.len(), 1);
    let second = t.begin_stop(&vec![]);
    assert!(second.record.is_none());
    assert!(!second.signal_migration);
    assert!(second.links.is_empty() && second.tcp_servers.is_empty() && second.udp_servers.is_empty());
    assert_eq!(t.get_client_state(), ClientState::Stopping);
    assert_eq!(t.total_traffic(), traffic(1, 1, 1, 1));
    t.set_and_post_tunnel_state(ClientState::Terminated);
    assert_eq!(t.get_client_state(), ClientState::Terminated);
    assert!(t.set_and_post_tunnel_state(ClientState::Connecting).is_none());
    assert_eq!(t.get_client_state(), ClientState::Terminated);
}

#[test]
fn no_state_record_after_terminated() {
    let mut t: Table = StateTable::new();
    t.set_enable_on_info_report(true);
    let first = t.begin_stop(&vec![]);
    assert!(matches!(first.record, Some(Telemetry::State(ClientState::Stopping))));
    assert!(matches!(
        t.set_and_post_tunnel_state(ClientState::Terminated),
        Some(Telemetry::State(ClientState::Terminated))
    ));
    let second = t.begin_stop(&vec![]);
    assert!(second.record.is_none());
    assert!(t.set_and_post_tunnel_state(ClientState::Terminated).is_none());
    assert_eq!(t.get_client_state(), ClientState::Terminated);
    assert_eq!(ClientState::Terminated.allows(ClientState::Terminated), false);
    assert_eq!(ClientState::Stopping.allows(ClientState::Stopping), false);
    assert_eq!(ClientState::Stopping.allows(ClientState::Terminated), true);
}

#[test]
fn traffic_reports_are_monotone() {
    let mut t: Table = StateTable::new();
    t.set_enable_on_info_report(true);
    let a = v4(127, 0, 0, 1, 1);
    let b = v4(127, 0, 0, 1, 2);
    t.register_link(a, 1, 1, 0);
    t.register_link(b, 2, 2, 0);
    let ticks = [
        vec![traffic(10, 5, 1, 1), traffic(3, 3, 1, 1)],
        vec![traffic(20, 9, 2, 2), traffic(3, 4, 1, 2)],
    ];
    let mut reports = vec![];
    for live in ticks.iter() {
        match t.report_traffic_tick(live) {
            (Some(Telemetry::Traffic(x)), true) => reports.push(x),
            other => panic!("unexpected {:?}", other),
        }
    }
    t.deregister_link(a, traffic(25, 10, 3, 3));
    match t.report_traffic_tick(&vec![traffic(4, 4, 2, 2)]) {
        (Some(Telemetry::Traffic(x)), true) => reports.push(x),
        other => panic!("unexpected {:?}", other),
    }
    assert_eq!(reports[0], traffic(13, 8, 2, 2));
    assert_eq!(reports[1], traffic(23, 13, 3, 4));
    assert_eq!(reports[2], traffic(29, 14, 5, 5));
    for w in reports.windows(2) {
        assert!(w[0].rx_bytes <= w[1].rx_bytes && w[0].tx_bytes <= w[1].tx_bytes);
        assert!(w[0].rx_dgrams <= w[1].rx_dgrams && w[0].tx_dgrams <= w[1].tx_dgrams);
    }
}

#[test]
fn traffic_sums_saturate() {
    let r = traffic_report(traffic(u64::MAX - 1, 0, 0, 0), &vec![traffic(5, 1, 2, 3), traffic(1, 1, 1, 1)]);
    assert_eq!(r, traffic(u64::MAX, 2, 3, 4));
    assert_eq!(Traffic::zero().plus(traffic(1, 2, 3, 4)), traffic(1, 2, 3, 4));
}

#[test]
fn reporter_stops_after_shutdown_and_respects_switch() {
    let mut t: Table = StateTable::new();
    let (rec, keep) = t.report_traffic_tick(&vec![]);
    assert!(rec.is_none() && keep);
    assert!(t.set_and_post_tunnel_state(ClientState::Connecting).is_none());
    assert!(t.post_tunnel_log("hello").is_none());
    t.set_enable_on_info_report(true);
    assert!(t.report_enabled());
    t.begin_stop(&vec![]);
    let (rec, keep) = t.report_traffic_tick(&vec![]);
    assert!(matches!(rec, Some(Telemetry::Traffic(_))));
    assert!(!keep);
}

#[test]
fn log_records_carry_the_message() {
    assert_eq!(log_line("2024-01-01 00:00:00.000", "up"), "2024-01-01 00:00:00.000 up");
    let mut t: Table = StateTable::new();
    t.set_enable_on_info_report(true);
    match t.post_tunnel_log("0:TCP_OUT start serving") {
        Some(Telemetry::Log(line)) => {
            assert!(line.ends_with(" 0:TCP_OUT start serving"));
            assert!(line.len() > " 0:TCP_OUT start serving".len());
        }
        other => panic!("unexpected {:?}", other),
    }
}

#[test]
fn text_helpers() {
    let cs = chars_of("héllo");
    assert_eq!(cs.len(), 5);
    assert_eq!(string_of(&cs, 1, 4), "éll");
    assert!(same_text(&cs, "héllo"));
    assert!(!same_text(&cs, "hello"));
}
