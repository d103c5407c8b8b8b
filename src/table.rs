use vstd::prelude::*;
use crate::addr::SockAddr;
use crate::registry::{
    Keyed, find_key, has_key, key_pos, lemma_put_registers_once, lemma_take_unregisters, put_key,
    spec_put, spec_take, take_key, unique_keys,
};
use crate::state::ClientState;
use crate::telemetry::{
    Telemetry, Traffic, lemma_report_kept_by_fold, lemma_report_kept_by_push, lemma_report_monotone, spec_report, stamped_log_line,
    traffic_report,
};

verus! {

/// A live QUIC connection and the endpoint it runs on.
#[derive(Debug)]
pub struct Link<C, E> {
    pub conn: C,
    pub endpoint: E,
}

/// The shared state of a client: live connections and their endpoints, the
/// local listeners, the lifecycle state, lifetime traffic totals, whether
/// telemetry is emitted, and whether the migration task is running. All of it
/// is keyed by the tunnel's local server address.
///
/// `C`, `E`, `T` and `U` are the handle types of a connection, an endpoint, a
/// TCP listener and a UDP server.
pub struct StateTable<C, E, T, U> {
    links: Vec<Keyed<Link<C, E>>>,
    tcp_servers: Vec<Keyed<T>>,
    udp_servers: Vec<Keyed<U>>,
    client_state: ClientState,
    total_traffic: Traffic,
    on_info_report_enabled: bool,
    migration_running: bool,
}

/// The abstract content of a `StateTable`.
pub struct TableView<C, E, T, U> {
    pub links: Seq<Keyed<Link<C, E>>>,
    pub tcp_servers: Seq<Keyed<T>>,
    pub udp_servers: Seq<Keyed<U>>,
    pub client_state: ClientState,
    pub total_traffic: Traffic,
    pub report_enabled: bool,
    pub migration_running: bool,
}

impl<C, E, T, U> TableView<C, E, T, U> {
    /// No local address holds two connections, two TCP listeners or two UDP servers.
    pub open spec fn wf(self) -> bool {
        unique_keys(self.links) && unique_keys(self.tcp_servers) && unique_keys(self.udp_servers)
    }

    /// A state change as it is recorded.
    pub open spec fn with_state(self, to: ClientState) -> Self {
        TableView { client_state: self.client_state.spec_after(to), ..self }
    }

    /// The telemetry record of a requested state change: emitted when
    /// telemetry is on and the change is taken.
    pub open spec fn state_record(self, to: ClientState) -> Option<Telemetry> {
        if self.report_enabled && self.client_state.allows(to) {
            Some(Telemetry::State(to))
        } else {
            None
        }
    }

    /// Whether registering a connection starts the migration task: only when
    /// hopping is configured and the task is not running already.
    pub open spec fn starts_migration(self, hop_interval_secs: u64) -> bool {
        hop_interval_secs > 0 && !self.migration_running
    }

    /// After a successful login: the connection is registered under `addr`
    /// (replacing an earlier one there), and the migration task is marked running
    /// when this registration starts it.
    pub open spec fn registered(
        self,
        addr: SockAddr,
        link: Link<C, E>,
        hop_interval_secs: u64,
    ) -> Self {
        TableView {
            links: spec_put(self.links, addr, link),
            migration_running: self.migration_running || self.starts_migration(hop_interval_secs),
            ..self
        }
    }

    /// After a serve routine returned: the connection under `addr` leaves the
    /// live set and its final counters join the totals, in one step.
    pub open spec fn deregistered(self, addr: SockAddr, last: Traffic) -> Self {
        TableView {
            links: spec_take(self.links, addr),
            total_traffic: if has_key(self.links, addr) {
                self.total_traffic.spec_plus(last)
            } else {
                self.total_traffic
            },
            ..self
        }
    }

    /// After shutdown began: state `Stopping` (as far as it is allowed), the
    /// migration task signalled, every connection and listener handed out, and
    /// the final counters of the connections folded into the totals.
    pub open spec fn stopped(self, last: Seq<Traffic>) -> Self {
        TableView {
            links: Seq::empty(),
            tcp_servers: Seq::empty(),
            udp_servers: Seq::empty(),
            client_state: self.client_state.spec_after(ClientState::Stopping),
            total_traffic: spec_report(self.total_traffic, last),
            report_enabled: self.report_enabled,
            migration_running: false,
        }
    }
}

/// What shutdown has to act on: the migration task to signal, listeners to
/// shut down and connections to close (application error code 1, empty
/// reason).
pub struct StopWork<C, E, T, U> {
    pub signal_migration: bool,
    pub links: Vec<Keyed<Link<C, E>>>,
    pub tcp_servers: Vec<Keyed<T>>,
    pub udp_servers: Vec<Keyed<U>>,
    pub record: Option<Telemetry>,
}

/// One tick of the migration task.
#[derive(Debug)]
pub enum MigrationTick {
    /// The stop signal fired: the task ends.
    Stop,
    /// Rebind the endpoints registered under these addresses.
    Rebind(Vec<SockAddr>),
}

/// The addresses of the links whose connection is still open, in order.
pub open spec fn open_addrs<V>(links: Seq<Keyed<V>>, open: Seq<bool>) -> Seq<SockAddr>
    decreases links.len(),
{
    if links.len() == 0 || open.len() != links.len() {
        Seq::empty()
    } else if open.last() {
        open_addrs(links.drop_last(), open.drop_last()).push(links.last().addr)
    } else {
        open_addrs(links.drop_last(), open.drop_last())
    }
}

impl<C, E, T, U> View for StateTable<C, E, T, U> {
    type V = TableView<C, E, T, U>;

    closed spec fn view(&self) -> TableView<C, E, T, U> {
        TableView {
            links: self.links@,
            tcp_servers: self.tcp_servers@,
            udp_servers: self.udp_servers@,
            client_state: self.client_state,
            total_traffic: self.total_traffic,
            report_enabled: self.on_info_report_enabled,
            migration_running: self.migration_running,
        }
    }
}

impl<C, E, T, U> StateTable<C, E, T, U> {
    /// An empty table: `Idle`, no totals, telemetry off, no migration task.
    pub fn new() -> (r: Self)
        ensures
            r@ == (TableView::<C, E, T, U> {
                links: Seq::empty(),
                tcp_servers: Seq::empty(),
                udp_servers: Seq::empty(),
                client_state: ClientState::Idle,
                total_traffic: Traffic { rx_bytes: 0, tx_bytes: 0, rx_dgrams: 0, tx_dgrams: 0 },
                report_enabled: false,
                migration_running: false,
            }),
            r@.wf(),
    {
        let r = StateTable {
            links: Vec::new(),
            tcp_servers: Vec::new(),
            udp_servers: Vec::new(),
            client_state: ClientState::Idle,
            total_traffic: Traffic::zero(),
            on_info_report_enabled: false,
            migration_running: false,
        };
        assert(r@.links =~= Seq::empty());
        assert(r@.tcp_servers =~= Seq::empty());
        assert(r@.udp_servers =~= Seq::empty());
        r
    }

    pub fn get_client_state(&self) -> (r: ClientState)
        ensures
            r == self@.client_state,
    {
        self.client_state
    }

    /// Whether workers must stop reconnecting.
    pub fn should_quit(&self) -> (r: bool)
        ensures
            r == self@.client_state.spec_is_quitting(),
    {
        self.client_state.is_quitting()
    }

    pub fn report_enabled(&self) -> (r: bool)
        ensures
            r == self@.report_enabled,
    {
        self.on_info_report_enabled
    }

    /// Turns telemetry on or off.
    pub fn set_enable_on_info_report(&mut self, enable: bool)
        ensures
            final(self)@ == (TableView { report_enabled: enable, ..old(self)@ }),
    {
        self.on_info_report_enabled = enable;
    }

    pub fn migration_running(&self) -> (r: bool)
        ensures
            r == self@.migration_running,
    {
        self.migration_running
    }

    pub fn total_traffic(&self) -> (r: Traffic)
        ensures
            r == self@.total_traffic,
    {
        self.total_traffic
    }

    /// Requests a state change and gives the record to emit for it.
    pub fn set_and_post_tunnel_state(&mut self, to: ClientState) -> (r: Option<Telemetry>)
        ensures
            final(self)@ == old(self)@.with_state(to),
            r == old(self)@.state_record(to),
    {
        let allowed = self.client_state.allows(to);
        self.client_state = self.client_state.after(to);
        if self.on_info_report_enabled && allowed {
            Some(Telemetry::State(to))
        } else {
            None
        }
    }

    /// The record to emit for a log message: the message stamped with the
    /// local time, when telemetry is on.
    pub fn post_tunnel_log(&self, msg: &str) -> (r: Option<Telemetry>)
        ensures
            r is Some <==> self@.report_enabled,
            r matches Some(t) ==> (t matches Telemetry::Log(line) && exists|stamp: Seq<char>|
                line@ == stamp + seq![' '] + msg@),
    {
        if self.on_info_report_enabled {
            Some(Telemetry::Log(stamped_log_line(msg)))
        } else {
            None
        }
    }

    /// Registers the connection of a tunnel that just logged in, and tells
    /// whether the caller must start the migration task. Checking and marking
    /// the task happen in this one step, so at most one task is ever started.
    pub fn register_link(&mut self, addr: SockAddr, conn: C, endpoint: E, hop_interval_secs: u64) -> (r:
        bool)
        requires
            old(self)@.wf(),
        ensures
            final(self)@ == old(self)@.registered(addr, Link { conn, endpoint }, hop_interval_secs),
            r == old(self)@.starts_migration(hop_interval_secs),
            final(self)@.wf(),
    {
        proof {
            lemma_put_registers_once(self.links@, addr, Link { conn, endpoint });
        }
        put_key(&mut self.links, addr, Link { conn, endpoint });
        let start = hop_interval_secs > 0 && !self.migration_running;
        if start {
            self.migration_running = true;
        }
        start
    }

    /// Removes the connection of a tunnel whose serve routine returned and
    /// folds its final counters into the totals, in one step; hands the link
    /// back.
    pub fn deregister_link(&mut self, addr: SockAddr, last: Traffic) -> (r: Option<Link<C, E>>)
        requires
            old(self)@.wf(),
        ensures
            final(self)@ == old(self)@.deregistered(addr, last),
            final(self)@.wf(),
            match key_pos(old(self)@.links, addr) {
                Some(p) => r == Some(old(self)@.links[p].value),
                None => r is None,
            },
    {
        proof {
            lemma_take_unregisters(self.links@, addr);
            crate::registry::lemma_key_pos(self.links@, addr);
        }
        let r = take_key(&mut self.links, addr);
        if r.is_some() {
            self.total_traffic = self.total_traffic.plus(last);
        }
        r
    }

    pub fn link_count(&self) -> (r: usize)
        ensures
            r == self@.links.len(),
    {
        self.links.len()
    }

    pub fn link_at(&self, i: usize) -> (r: &Keyed<Link<C, E>>)
        requires
            i < self@.links.len(),
        ensures
            *r == self@.links[i as int],
    {
        &self.links[i]
    }

    /// The link registered under `addr`.
    pub fn link_of(&self, addr: SockAddr) -> (r: Option<&Link<C, E>>)
        ensures
            match key_pos(self@.links, addr) {
                Some(p) => r == Some(&self@.links[p].value),
                None => r is None,
            },
    {
        match find_key(&self.links, addr) {
            Some(p) => Some(&self.links[p].value),
            None => None,
        }
    }

    /// The traffic report for the live counters `live` (one per link, read
    /// under the same lock): lifetime totals plus live counters.
    pub fn traffic_report(&self, live: &Vec<Traffic>) -> (r: Traffic)
        ensures
            r == spec_report(self@.total_traffic, live@),
    {
        traffic_report(self.total_traffic, live)
    }

    /// One tick of the traffic reporter: the record to emit (when telemetry is
    /// on) and whether the reporter keeps running (until shutdown begins).
    pub fn report_traffic_tick(&self, live: &Vec<Traffic>) -> (r: (Option<Telemetry>, bool))
        ensures
            r.0 is Some <==> self@.report_enabled,
            r.0 matches Some(t) ==> (t matches Telemetry::Traffic(x) && x == spec_report(
                self@.total_traffic,
                live@,
            )),
            r.1 == !self@.client_state.spec_is_quitting(),
    {
        let report = traffic_report(self.total_traffic, live);
        let record = if self.on_info_report_enabled {
            Some(Telemetry::Traffic(report))
        } else {
            None
        };
        (record, !self.client_state.is_quitting())
    }

    /// One tick of the migration task. `open[i]` tells whether the connection
    /// of link `i` has no close reason yet. While the task is not signalled to
    /// stop, the endpoints of the open connections are rebound.
    pub fn migration_tick(&self, open: &Vec<bool>) -> (r: MigrationTick)
        requires
            open@.len() == self@.links.len(),
        ensures
            !self@.migration_running ==> r matches MigrationTick::Stop,
            self@.migration_running ==> (r matches MigrationTick::Rebind(v) && v@ == open_addrs(
                self@.links,
                open@,
            )),
    {
        if !self.migration_running {
            return MigrationTick::Stop;
        }
        let mut out: Vec<SockAddr> = Vec::new();
        let mut i: usize = 0;
        while i < self.links.len()
            invariant
                i <= self.links@.len() == open@.len(),
                out@ == open_addrs(self.links@.subrange(0, i as int), open@.subrange(0, i as int)),
            decreases self.links@.len() - i,
        {
            let ghost l0 = self.links@.subrange(0, i as int);
            let ghost o0 = open@.subrange(0, i as int);
            let ghost l1 = self.links@.subrange(0, i + 1);
            let ghost o1 = open@.subrange(0, i + 1);
            assert(l1.drop_last() =~= l0);
            assert(o1.drop_last() =~= o0);
            if open[i] {
                out.push(self.links[i].addr);
            }
            i = i + 1;
        }
        assert(self.links@.subrange(0, i as int) =~= self.links@);
        assert(open@.subrange(0, i as int) =~= open@);
        MigrationTick::Rebind(out)
    }

    /// The TCP listener bound on `addr`, if one was kept.
    pub fn tcp_server(&self, addr: SockAddr) -> (r: Option<&T>)
        ensures
            match key_pos(self@.tcp_servers, addr) {
                Some(p) => r == Some(&self@.tcp_servers[p].value),
                None => r is None,
            },
    {
        match find_key(&self.tcp_servers, addr) {
            Some(p) => Some(&self.tcp_servers[p].value),
            None => None,
        }
    }

    /// Keeps a TCP listener bound on `addr`, shared across reconnects.
    pub fn add_tcp_server(&mut self, addr: SockAddr, server: T)
        requires
            old(self)@.wf(),
        ensures
            final(self)@ == (TableView {
                tcp_servers: spec_put(old(self)@.tcp_servers, addr, server),
                ..old(self)@
            }),
            final(self)@.wf(),
    {
        proof {
            lemma_put_registers_once(self.tcp_servers@, addr, server);
        }
        put_key(&mut self.tcp_servers, addr, server);
    }

    /// The UDP server bound on `addr`, if one was kept.
    pub fn udp_server(&self, addr: SockAddr) -> (r: Option<&U>)
        ensures
            match key_pos(self@.udp_servers, addr) {
                Some(p) => r == Some(&self@.udp_servers[p].value),
                None => r is None,
            },
    {
        match find_key(&self.udp_servers, addr) {
            Some(p) => Some(&self.udp_servers[p].value),
            None => None,
        }
    }

    /// Keeps a UDP server bound on `addr`, shared across reconnects.
    pub fn add_udp_server(&mut self, addr: SockAddr, server: U)
        requires
            old(self)@.wf(),
        ensures
            final(self)@ == (TableView {
                udp_servers: spec_put(old(self)@.udp_servers, addr, server),
                ..old(self)@
            }),
            final(self)@.wf(),
    {
        proof {
            lemma_put_registers_once(self.udp_servers@, addr, server);
        }
        put_key(&mut self.udp_servers, addr, server);
    }

    /// Begins shutdown: moves to `Stopping`, takes the migration stop signal,
    /// drains every connection and listener into the returned work, and folds
    /// the connections' final counters (`last[i]` for link `i`) into the totals.
    /// A second call finds nothing left to do.
    pub fn begin_stop(&mut self, last: &Vec<Traffic>) -> (r: StopWork<C, E, T, U>)
        requires
            last@.len() == old(self)@.links.len(),
        ensures
            final(self)@ == old(self)@.stopped(last@),
            final(self)@.wf(),
            r.signal_migration == old(self)@.migration_running,
            r.links@ == old(self)@.links,
            r.tcp_servers@ == old(self)@.tcp_servers,
            r.udp_servers@ == old(self)@.udp_servers,
            r.record == old(self)@.state_record(ClientState::Stopping),
    {
        let record = self.set_and_post_tunnel_state(ClientState::Stopping);
        let signal_migration = self.migration_running;
        self.migration_running = false;
        self.total_traffic = traffic_report(self.total_traffic, last);
        let mut links = Vec::new();
        core::mem::swap(&mut links, &mut self.links);
        let mut tcp_servers = Vec::new();
        core::mem::swap(&mut tcp_servers, &mut self.tcp_servers);
        let mut udp_servers = Vec::new();
        core::mem::swap(&mut udp_servers, &mut self.udp_servers);
        assert(self@.links =~= Seq::empty());
        assert(self@.tcp_servers =~= Seq::empty());
        assert(self@.udp_servers =~= Seq::empty());
        StopWork { signal_migration, links, tcp_servers, udp_servers, record }
    }
}

/// After a successful login the tunnel's local address holds exactly one
/// connection, the new one; once its serve routine has returned, it holds none.
pub proof fn login_registers_exactly_once<C, E, T, U>(
    v: TableView<C, E, T, U>,
    addr: SockAddr,
    link: Link<C, E>,
    hop_interval_secs: u64,
    last: Traffic,
)
    requires
        v.wf(),
    ensures
        v.registered(addr, link, hop_interval_secs).wf(),
        has_key(v.registered(addr, link, hop_interval_secs).links, addr),
        forall|i: int|
            0 <= i < v.registered(addr, link, hop_interval_secs).links.len()
                && #[trigger] v.registered(addr, link, hop_interval_secs).links[i].addr == addr
                ==> v.registered(addr, link, hop_interval_secs).links[i] == (Keyed { addr, value: link }),
        !has_key(v.registered(addr, link, hop_interval_secs).deregistered(addr, last).links, addr),
        v.registered(addr, link, hop_interval_secs).deregistered(addr, last).wf(),
{
    lemma_put_registers_once(v.links, addr, link);
    lemma_take_unregisters(spec_put(v.links, addr, link), addr);
}

/// The reported traffic (lifetime totals plus live counters) never shrinks
/// while live counters grow: a report taken before a connection is folded
/// into the totals is at most any report taken after, where `before[i]` and
/// `after[i]` are the counters that live link `i` shows at the two reports.
pub proof fn traffic_report_grows_while_live<C, E, T, U>(
    v: TableView<C, E, T, U>,
    before: Seq<Traffic>,
    after: Seq<Traffic>,
)
    requires
        before.len() == v.links.len(),
        after.len() == v.links.len(),
        forall|i: int| 0 <= i < before.len() ==> (#[trigger] before[i]).spec_le(after[i]),
    ensures
        spec_report(v.total_traffic, before).spec_le(spec_report(v.total_traffic, after)),
{
    lemma_report_monotone(v.total_traffic, before, v.total_traffic, after);
}

/// Removing a connection whose serve routine returned never shrinks the
/// reported traffic: its final counters (at least what it showed in the last
/// report) move into the totals as it leaves the live set, so it is counted
/// once, not twice and not zero times.
pub proof fn traffic_report_kept_on_deregister<C, E, T, U>(
    v: TableView<C, E, T, U>,
    live: Seq<Traffic>,
    addr: SockAddr,
    last: Traffic,
)
    requires
        v.wf(),
        live.len() == v.links.len(),
        key_pos(v.links, addr) matches Some(p) ==> live[p].spec_le(last),
    ensures
        v.deregistered(addr, last).links.len() == (if has_key(v.links, addr) {
            live.len() - 1
        } else {
            live.len() as int
        }),
        key_pos(v.links, addr) matches Some(p) ==> spec_report(v.total_traffic, live).spec_le(
            spec_report(v.deregistered(addr, last).total_traffic, live.remove(p)),
        ),
        key_pos(v.links, addr) is None ==> v.deregistered(addr, last) == v,
{
    crate::registry::lemma_key_pos(v.links, addr);
    match key_pos(v.links, addr) {
        Some(p) => {
            lemma_report_kept_by_fold(v.total_traffic, live, p, last);
        },
        None => {
            assert(v.deregistered(addr, last).links =~= v.links);
        },
    }
}

/// Registering the connection of a tunnel that holds none never shrinks the
/// reported traffic: the live set gains one entry, whatever its counters.
pub proof fn traffic_report_kept_on_register<C, E, T, U>(
    v: TableView<C, E, T, U>,
    live: Seq<Traffic>,
    addr: SockAddr,
    link: Link<C, E>,
    hop_interval_secs: u64,
    fresh: Traffic,
)
    requires
        !has_key(v.links, addr),
    ensures
        v.registered(addr, link, hop_interval_secs).links == v.links.push(
            Keyed { addr, value: link },
        ),
        v.registered(addr, link, hop_interval_secs).total_traffic == v.total_traffic,
        spec_report(v.total_traffic, live).spec_le(
            spec_report(v.registered(addr, link, hop_interval_secs).total_traffic, live.push(fresh)),
        ),
{
    crate::registry::lemma_key_pos(v.links, addr);
    lemma_report_kept_by_push(v.total_traffic, live, fresh);
}

/// Once `Terminated`, no request changes the state or emits a record.
pub proof fn no_record_after_terminated<C, E, T, U>(v: TableView<C, E, T, U>, to: ClientState)
    requires
        v.client_state == ClientState::Terminated,
    ensures
        v.state_record(to) is None,
        v.with_state(to) == v,
{
}

/// Shutdown folds the final counters of every live connection into the
/// totals, so the report right after it equals the last report before it.
pub proof fn traffic_report_kept_on_stop<C, E, T, U>(v: TableView<C, E, T, U>, last: Seq<Traffic>)
    ensures
        v.stopped(last).links.len() == 0,
        spec_report(v.stopped(last).total_traffic, Seq::empty()) == spec_report(
            v.total_traffic,
            last,
        ),
{
    let e = Seq::<Traffic>::empty();
    assert(crate::telemetry::rx_bytes_of(e) =~= Seq::<u64>::empty());
    assert(crate::telemetry::tx_bytes_of(e) =~= Seq::<u64>::empty());
    assert(crate::telemetry::rx_dgrams_of(e) =~= Seq::<u64>::empty());
    assert(crate::telemetry::tx_dgrams_of(e) =~= Seq::<u64>::empty());
    assert(crate::telemetry::sum_of(Seq::<u64>::empty()) == 0);
}

/// At most one migration task: once a registration has started it, no later
/// registration or deregistration starts another until shutdown.
pub proof fn migration_started_at_most_once<C, E, T, U>(
    v: TableView<C, E, T, U>,
    addr: SockAddr,
    link: Link<C, E>,
    hop_interval_secs: u64,
    addr2: SockAddr,
    link2: Link<C, E>,
    hop_interval_secs2: u64,
    last: Traffic,
)
    requires
        v.starts_migration(hop_interval_secs),
    ensures
        !v.registered(addr, link, hop_interval_secs).starts_migration(hop_interval_secs2),
        !v.registered(addr, link, hop_interval_secs).registered(
            addr2,
            link2,
            hop_interval_secs2,
        ).starts_migration(hop_interval_secs2),
        !v.registered(addr, link, hop_interval_secs).deregistered(addr2, last).starts_migration(
            hop_interval_secs2,
        ),
{
}

/// With a hop interval of 0 no registration starts the migration task, so no
/// endpoint is ever rebound.
pub proof fn no_migration_without_hops<C, E, T, U>(
    v: TableView<C, E, T, U>,
    addr: SockAddr,
    link: Link<C, E>,
)
    requires
        !v.migration_running,
    ensures
        !v.starts_migration(0),
        !v.registered(addr, link, 0).migration_running,
{
}

/// Stopping twice is stopping once: the second stop finds nothing to drain,
/// changes nothing and emits no record, and terminating afterwards always
/// reaches `Terminated`, after which a further request emits nothing.
pub proof fn stop_is_idempotent<C, E, T, U>(v: TableView<C, E, T, U>, last: Seq<Traffic>)
    ensures
        v.stopped(last).stopped(Seq::empty()) == v.stopped(last),
        v.stopped(last).state_record(ClientState::Stopping) is None,
        v.stopped(last).with_state(ClientState::Terminated).state_record(ClientState::Terminated)
            is None,
        v.stopped(last).with_state(ClientState::Terminated).client_state == ClientState::Terminated,
        v.stopped(last).stopped(Seq::empty()).with_state(ClientState::Terminated) == v.stopped(
            last,
        ).with_state(ClientState::Terminated),
{
    traffic_report_kept_on_stop(v, last);
    traffic_report_kept_on_stop(v.stopped(last), Seq::empty());
    let w = v.stopped(last);
    let t = w.total_traffic;
    assert(spec_report(t, Seq::empty()) == t);
    assert(w.stopped(Seq::empty()) =~= w);
}

} // verus!
