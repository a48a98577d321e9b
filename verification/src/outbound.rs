//! The client: it resolves its server by name, opens its endpoint when it first
//! needs it, and lets no connection through that did not authenticate.
use vstd::prelude::*;

use crate::config::{ReceiveWindows, ShadowQuicClientCfg};
use crate::endpoint::EndpointSetup;
use crate::error::{ConfigError, SError};
use crate::link::{Link, LinkAnswers, LinkEnd, LinkEvent, LinkNext};
use crate::msgs::{tcp_request, udp_request, ProxyRequest, SQCmd, SQReq};
use crate::quic::{new_tls_config, ClientSettings, TlsSettings};
use crate::session::{Handle, HandleAnswers, Prepare, ReceiverDue};
use crate::stream::{plan, Relay, StreamTask};
use crate::tuning::{client_config, tls_config_from, tuned_transport};

verus! {

/// A client. `C` is a connection and `P` an endpoint, as the caller has them.
pub struct ShadowQuicClient<C, P> {
    /// The connection in use, if there is one.
    pub quic_conn: Option<C>,
    pub quic_config: quinn_jls::ClientConfig,
    /// The endpoint, once it was opened.
    pub quic_end: Option<P>,
    pub dst_addr: String,
    pub server_name: String,
    pub zero_rtt: bool,
    pub over_stream: bool,
    pub protect_path: Option<String>,
}

/// What a client's configuration holds, given that the provider has the
/// cipher suite that QUIC starts with.
pub open spec fn settings_for(
    cfg: ShadowQuicClientCfg,
    windows: ReceiveWindows,
) -> ClientSettings {
    settings_over(crate::quic::default_tls_settings(true), cfg, windows)
}

/// What a client's configuration holds that starts from the TLS parameters
/// of `base`.
pub open spec fn settings_over(
    base: TlsSettings,
    cfg: ShadowQuicClientCfg,
    windows: ReceiveWindows,
) -> ClientSettings {
    ClientSettings {
        tls: crate::tuning::tls_over(base, cfg),
        transport: crate::tuning::tuned_transport_for(cfg, windows),
    }
}

impl<C, P> ShadowQuicClient<C, P> {
    /// The TLS configuration allows early data exactly where the client will try
    /// to send some.
    pub open spec fn wf(self) -> bool {
        crate::quic::client_settings(self.quic_config).tls.early_data == self.zero_rtt
    }

    /// Whether this is a client for `cfg` that has these settings, no connection
    /// and no endpoint yet.
    pub open spec fn is_fresh(self, cfg: ShadowQuicClientCfg, settings: ClientSettings) -> bool {
        &&& self.quic_conn is None
        &&& crate::quic::client_settings(self.quic_config) == settings
        &&& self.quic_end is None
        &&& self.dst_addr == cfg.addr
        &&& self.server_name == cfg.server_name
        &&& self.zero_rtt == cfg.zero_rtt
        &&& self.over_stream == cfg.over_stream
        &&& self.protect_path == cfg.protect_path
    }

    /// The QUIC configuration of a client that starts from the TLS configuration
    /// `base`. It fails exactly where the cryptographic provider of `base` lacks
    /// the cipher suite that QUIC starts with.
    pub fn gen_quic_cfg_from(
        base: rustls_jls::ClientConfig,
        cfg: &ShadowQuicClientCfg,
        windows: &ReceiveWindows,
    ) -> (res: Result<quinn_jls::ClientConfig, ConfigError>)
        requires
            windows.wf(),
        ensures
            match res {
                Ok(config) => {
                    &&& crate::quic::tls_settings(base).initial_suite
                    &&& crate::quic::client_settings(config) == settings_over(
                        crate::quic::tls_settings(base),
                        *cfg,
                        *windows,
                    )
                },
                Err(err) => {
                    &&& !crate::quic::tls_settings(base).initial_suite
                    &&& err == ConfigError::NoInitialCipherSuite
                },
            },
    {
        client_config(tls_config_from(base, cfg), tuned_transport(cfg, windows))
    }

    /// The QUIC configuration of a client. It fails where the cryptographic
    /// provider of the process lacks the cipher suite that QUIC starts with, and
    /// only there: no argument decides on it, and [`Self::gen_quic_cfg_from`]
    /// says what comes of the TLS configuration that the process gives.
    ///
    /// In a process that has installed a provider with no usable cipher suite or
    /// key exchange group, making a TLS configuration panics.
    pub fn gen_quic_cfg(cfg: &ShadowQuicClientCfg, windows: &ReceiveWindows) -> (res: Result<
        quinn_jls::ClientConfig,
        ConfigError,
    >)
        requires
            windows.wf(),
        ensures
            match res {
                Ok(config) => crate::quic::client_settings(config) == settings_for(*cfg, *windows),
                Err(err) => err == ConfigError::NoInitialCipherSuite,
            },
    {
        Self::gen_quic_cfg_from(new_tls_config(), cfg, windows)
    }

    /// A client with no connection and no endpoint that starts from the TLS
    /// configuration `base`. It fails exactly where [`Self::gen_quic_cfg_from`]
    /// does.
    pub fn new_from(
        base: rustls_jls::ClientConfig,
        cfg: ShadowQuicClientCfg,
        windows: &ReceiveWindows,
    ) -> (res: Result<Self, ConfigError>)
        requires
            windows.wf(),
        ensures
            match res {
                Ok(client) => {
                    &&& crate::quic::tls_settings(base).initial_suite
                    &&& client.is_fresh(
                        cfg,
                        settings_over(crate::quic::tls_settings(base), cfg, *windows),
                    )
                    &&& client.wf()
                },
                Err(err) => {
                    &&& !crate::quic::tls_settings(base).initial_suite
                    &&& err == ConfigError::NoInitialCipherSuite
                },
            },
    {
        match Self::gen_quic_cfg_from(base, &cfg, windows) {
            Ok(quic_config) => Ok(
                ShadowQuicClient {
                    quic_conn: None,
                    quic_config,
                    quic_end: None,
                    dst_addr: cfg.addr,
                    server_name: cfg.server_name,
                    zero_rtt: cfg.zero_rtt,
                    over_stream: cfg.over_stream,
                    protect_path: cfg.protect_path,
                },
            ),
            Err(err) => Err(err),
        }
    }

    /// A client with no connection and no endpoint. It fails where
    /// [`Self::gen_quic_cfg`] does, and only there; [`Self::new_from`] says what
    /// comes of the TLS configuration that the process gives.
    ///
    /// In a process that has installed a provider with no usable cipher suite or
    /// key exchange group, making a TLS configuration panics.
    pub fn new(cfg: ShadowQuicClientCfg, windows: &ReceiveWindows) -> (res: Result<
        Self,
        ConfigError,
    >)
        requires
            windows.wf(),
        ensures
            match res {
                Ok(client) => client.is_fresh(cfg, settings_for(cfg, *windows)) && client.wf(),
                Err(err) => err == ConfigError::NoInitialCipherSuite,
            },
    {
        Self::new_from(new_tls_config(), cfg, windows)
    }

    /// A client that starts from the TLS configuration `base` and whose endpoint
    /// is to be brought up on a socket that is there. It fails exactly where
    /// [`Self::gen_quic_cfg_from`] does.
    pub fn new_with_socket_from(
        base: rustls_jls::ClientConfig,
        cfg: ShadowQuicClientCfg,
        windows: &ReceiveWindows,
    ) -> (res: Result<(Self, EndpointSetup), ConfigError>)
        requires
            windows.wf(),
        ensures
            match res {
                Ok((client, setup)) => {
                    &&& crate::quic::tls_settings(base).initial_suite
                    &&& client.is_fresh(
                        cfg,
                        settings_over(crate::quic::tls_settings(base), cfg, *windows),
                    )
                    &&& client.wf()
                    &&& setup == (EndpointSetup {
                        protect: false,
                        step: crate::endpoint::SetupStep::FindRuntime,
                    })
                },
                Err(err) => {
                    &&& !crate::quic::tls_settings(base).initial_suite
                    &&& err == ConfigError::NoInitialCipherSuite
                },
            },
    {
        match Self::new_from(base, cfg, windows) {
            Ok(client) => Ok((client, EndpointSetup::from_socket())),
            Err(err) => Err(err),
        }
    }

    /// A client whose endpoint is to be brought up on a socket that is there:
    /// the setup is to be run, and the endpoint handed to
    /// [`Self::set_endpoint`]. It fails where [`Self::gen_quic_cfg`] does, and
    /// only there; [`Self::new_with_socket_from`] says what comes of the TLS
    /// configuration that the process gives.
    ///
    /// In a process that has installed a provider with no usable cipher suite or
    /// key exchange group, making a TLS configuration panics.
    pub fn new_with_socket(cfg: ShadowQuicClientCfg, windows: &ReceiveWindows) -> (res: Result<
        (Self, EndpointSetup),
        ConfigError,
    >)
        requires
            windows.wf(),
        ensures
            match res {
                Ok((client, setup)) => {
                    &&& client.is_fresh(cfg, settings_for(cfg, *windows))
                    &&& client.wf()
                    &&& setup == (EndpointSetup {
                        protect: false,
                        step: crate::endpoint::SetupStep::FindRuntime,
                    })
                },
                Err(err) => err == ConfigError::NoInitialCipherSuite,
            },
    {
        Self::new_with_socket_from(new_tls_config(), cfg, windows)
    }

    /// The setup of an endpoint of this client on a new socket.
    pub open spec fn setting_up(self, ipv6: bool) -> EndpointSetup {
        EndpointSetup {
            protect: self.protect_path is Some,
            step: crate::endpoint::SetupStep::CreateSocket { ipv6 },
        }
    }

    /// How to bring up an endpoint on a new socket of the given family.
    pub fn init_endpoint(&self, ipv6: bool) -> (res: EndpointSetup)
        ensures
            res == self.setting_up(ipv6),
    {
        EndpointSetup::from_scratch(ipv6, self.protect_path.is_some())
    }

    /// The client after its endpoint was brought up.
    pub open spec fn equipped(self, endpoint: P) -> Self {
        ShadowQuicClient { quic_end: Some(endpoint), ..self }
    }

    /// Keeps the endpoint that was brought up.
    pub fn set_endpoint(&mut self, endpoint: P)
        requires
            old(self).quic_end is None,
        ensures
            *final(self) == old(self).equipped(endpoint),
    {
        self.quic_end = Some(endpoint);
    }

    /// The first thing to do for a new connection of this client.
    pub open spec fn dialing<A>(self) -> Dial<A> {
        Dial::Resolve {
            dst_addr: self.dst_addr,
            server_name: self.server_name,
            zero_rtt: self.zero_rtt,
            endpoint_open: self.quic_end is Some,
        }
    }

    /// What to do for the endpoint of a connection to this address.
    pub open spec fn opening<A>(self, addr: A, ipv6: bool) -> Dial<A> {
        Dial::OpenEndpoint {
            addr,
            ipv6,
            server_name: self.server_name,
            zero_rtt: self.zero_rtt,
        }
    }

    /// How to get a connection.
    pub fn get_conn<A>(&self) -> (res: Dial<A>)
        ensures
            res == self.dialing::<A>(),
    {
        Dial::Resolve {
            dst_addr: self.dst_addr.clone(),
            server_name: self.server_name.clone(),
            zero_rtt: self.zero_rtt,
            endpoint_open: self.quic_end.is_some(),
        }
    }

    /// Whether the connection in use, which is `closed` or not, is kept.
    pub open spec fn keeps_conn(self, closed: bool) -> bool {
        self.quic_conn is Some && !closed
    }

    /// The client after the connection in use was looked at.
    pub open spec fn prepared(self, closed: bool) -> Self {
        if self.keeps_conn(closed) {
            self
        } else {
            ShadowQuicClient { quic_conn: None, ..self }
        }
    }

    /// The client after a new connection was tried for.
    pub open spec fn stored<E>(self, dialed: Result<C, SError<E>>) -> Self {
        match dialed {
            Ok(conn) => ShadowQuicClient { quic_conn: Some(conn), ..self },
            Err(_) => self,
        }
    }

    /// Drops the connection in use where it is `closed`, and tells whether a new
    /// one is needed. Where one is, [`Self::store_conn`] takes what came of
    /// getting it.
    pub fn prepare_conn(&mut self, closed: bool) -> (res: Prepare)
        ensures
            res is Ready <==> old(self).keeps_conn(closed),
            *final(self) == old(self).prepared(closed),
    {
        if closed {
            self.quic_conn = None;
        }
        if self.quic_conn.is_some() {
            Prepare::Ready
        } else {
            Prepare::Dial
        }
    }

    /// Keeps a new connection, or passes on why there is none.
    pub fn store_conn<E>(&mut self, dialed: Result<C, SError<E>>) -> (res: Result<
        ReceiverDue,
        SError<E>,
    >)
        requires
            old(self).quic_conn is None,
        ensures
            *final(self) == old(self).stored(dialed),
            match dialed {
                Ok(_) => res == Ok::<ReceiverDue, SError<E>>(ReceiverDue),
                Err(err) => res == Err::<ReceiverDue, SError<E>>(err),
            },
    {
        match dialed {
            Ok(conn) => {
                self.quic_conn = Some(conn);
                Ok(ReceiverDue)
            },
            Err(err) => Err(err),
        }
    }

    /// The first thing to do for a proxy request to this client.
    pub open spec fn handling<D>(self, request: ProxyRequest<D>) -> Handle<D> {
        Handle::Prepare {
            req: crate::stream::request_for(request, self.over_stream),
            relay: crate::stream::relay_for(request, self.over_stream, true),
            open_first: true,
        }
    }

    /// How to serve a proxy request.
    pub fn handle<D>(&self, request: ProxyRequest<D>) -> (res: Handle<D>)
        ensures
            res == self.handling(request),
    {
        let (req, relay) = plan(request, self.over_stream, true);
        Handle::Prepare { req, relay, open_first: true }
    }
}

/// The first thing to do for a stream to `dst` that is handed out.
pub open spec fn tcp_stream<D>(dst: D) -> StreamTask<D> {
    StreamTask::Open { req: SQReq { cmd: SQCmd::Connect, dst }, relay: Relay::HandOut }
}

/// The first thing to do for an association with `dst` that is handed out.
pub open spec fn udp_stream<D>(dst: D, over_stream: bool) -> StreamTask<D> {
    StreamTask::Open {
        req: SQReq { cmd: crate::msgs::udp_command(over_stream), dst },
        relay: Relay::Spawn { over_stream },
    }
}

/// Opens a stream for a TCP connection to `dst`, which is handed out.
pub fn connect_tcp<D>(dst: D) -> (res: StreamTask<D>)
    ensures
        res == tcp_stream(dst),
{
    StreamTask::Open { req: tcp_request(dst), relay: Relay::HandOut }
}

/// Opens a stream for a UDP association with `dst` at the server; the near ends
/// of two channels are handed out.
pub fn associate_udp<D>(dst: D, over_stream: bool) -> (res: StreamTask<D>)
    ensures
        res == udp_stream(dst, over_stream),
{
    StreamTask::Open { req: udp_request(dst, over_stream), relay: Relay::Spawn { over_stream } }
}

/// An address of the server. `A` is the form in which it is given.
#[derive(PartialEq, Eq, Debug)]
pub struct ServerAddr<A> {
    pub addr: A,
    /// Whether the address is of IPv6.
    pub ipv6: bool,
}

/// The next thing to do for a new connection.
#[derive(PartialEq, Eq, Debug)]
pub enum Dial<A> {
    /// Resolve `dst_addr` to the addresses of the server.
    Resolve { dst_addr: String, server_name: String, zero_rtt: bool, endpoint_open: bool },
    /// Bring up an endpoint for the family, and keep it.
    OpenEndpoint { addr: A, ipv6: bool, server_name: String, zero_rtt: bool },
    /// Bring up the connection.
    Link(Link<A>),
    /// Start a receiver for the UDP packets of the connection.
    SpawnReceiver,
}

/// What came of the last thing that was done.
#[derive(PartialEq, Eq, Debug)]
pub enum DialEvent<A, E> {
    /// The addresses found, in the order in which they were.
    Resolved { addrs: Vec<ServerAddr<A>> },
    EndpointOpen,
    Link(LinkEvent<E>),
    ReceiverRuns,
}

/// Where a new connection stands after an event.
#[derive(PartialEq, Eq, Debug)]
pub enum DialNext<A, E> {
    /// There is more to do.
    More(Dial<A>),
    /// The connection can be used, or there is none.
    Done(Result<(), SError<E>>),
}

/// What a link means for the new connection: one that is refused does not
/// count.
pub open spec fn dial_after_link<A, E>(next: LinkNext<A, E>) -> DialNext<A, E> {
    match next {
        LinkNext::More(link) => DialNext::More(Dial::Link(link)),
        LinkNext::End(LinkEnd::Ready { refused }) => if refused {
            DialNext::Done(Err(SError::JlsAuthFailed))
        } else {
            DialNext::More(Dial::SpawnReceiver)
        },
        LinkNext::End(LinkEnd::Failed(err)) => DialNext::Done(Err(SError::External(err))),
    }
}

impl<A> Dial<A> {
    /// Whether `event` is an answer to what there was to do. A server that has no
    /// address cannot be dialed.
    pub open spec fn answered_by<E>(self, event: DialEvent<A, E>) -> bool {
        match self {
            Dial::Resolve { .. } => event matches DialEvent::Resolved { addrs } && addrs.len() > 0,
            Dial::OpenEndpoint { .. } => event is EndpointOpen,
            Dial::Link(link) => event matches DialEvent::Link(ev) && link.answered_by(ev),
            Dial::SpawnReceiver => event is ReceiverRuns,
        }
    }

    /// Where the connection stands after `event`: the first address found is the
    /// one to use. What is no answer leaves the connection where it was.
    pub open spec fn next<E>(self, event: DialEvent<A, E>) -> DialNext<A, E> {
        match (self, event) {
            (
                Dial::Resolve { server_name, zero_rtt, endpoint_open, .. },
                DialEvent::Resolved { addrs },
            ) => {
                let ServerAddr { addr, ipv6 } = addrs@[0];
                DialNext::More(
                    if endpoint_open {
                        Dial::Link(Link::Connect { addr, server_name, zero_rtt })
                    } else {
                        Dial::OpenEndpoint { addr, ipv6, server_name, zero_rtt }
                    },
                )
            },
            (
                Dial::OpenEndpoint { addr, server_name, zero_rtt, .. },
                DialEvent::EndpointOpen,
            ) => DialNext::More(Dial::Link(Link::Connect { addr, server_name, zero_rtt })),
            (Dial::Link(link), DialEvent::Link(ev)) => dial_after_link(link.next(ev)),
            (Dial::SpawnReceiver, DialEvent::ReceiverRuns) => DialNext::Done(Ok(())),
            (dial, _) => DialNext::More(dial),
        }
    }

    /// How many more things there can be to do.
    pub open spec fn rank(self) -> nat {
        match self {
            Dial::Resolve { .. } => 8,
            Dial::OpenEndpoint { .. } => 7,
            Dial::Link(link) => 1 + link.rank(),
            Dial::SpawnReceiver => 1,
        }
    }

    /// Moves on after `event`.
    pub fn after<E>(self, event: DialEvent<A, E>) -> (res: DialNext<A, E>)
        requires
            self.answered_by(event),
        ensures
            res == self.next(event),
            res matches DialNext::More(dial) ==> dial.rank() < self.rank(),
    {
        match (self, event) {
            (
                Dial::Resolve { server_name, zero_rtt, endpoint_open, .. },
                DialEvent::Resolved { addrs },
            ) => {
                let mut addrs = addrs;
                let ServerAddr { addr, ipv6 } = addrs.remove(0);
                if endpoint_open {
                    DialNext::More(Dial::Link(Link::Connect { addr, server_name, zero_rtt }))
                } else {
                    DialNext::More(Dial::OpenEndpoint { addr, ipv6, server_name, zero_rtt })
                }
            },
            (
                Dial::OpenEndpoint { addr, server_name, zero_rtt, .. },
                DialEvent::EndpointOpen,
            ) => DialNext::More(Dial::Link(Link::Connect { addr, server_name, zero_rtt })),
            (Dial::Link(link), DialEvent::Link(ev)) => match link.after(ev) {
                LinkNext::More(link) => DialNext::More(Dial::Link(link)),
                LinkNext::End(LinkEnd::Ready { refused: true }) => DialNext::Done(
                    Err(SError::JlsAuthFailed),
                ),
                LinkNext::End(LinkEnd::Ready { refused: false }) => DialNext::More(
                    Dial::SpawnReceiver,
                ),
                LinkNext::End(LinkEnd::Failed(err)) => DialNext::Done(Err(SError::External(err))),
            },
            (Dial::SpawnReceiver, DialEvent::ReceiverRuns) => DialNext::Done(Ok(())),
            (dial, _) => DialNext::More(dial),
        }
    }
}

/// How a new connection ends whose link ends with `end`: with the error of the
/// link, or refused where the peer did not authenticate.
pub open spec fn dial_end<E>(end: LinkEnd<E>) -> Result<(), SError<E>> {
    match end {
        LinkEnd::Failed(err) => Err(SError::External(err)),
        LinkEnd::Ready { refused } => if refused {
            Err(SError::JlsAuthFailed)
        } else {
            Ok(())
        },
    }
}

/// All that the outside has to say to one new connection.
pub struct DialAnswers<A, E> {
    /// The addresses of the server.
    pub addrs: Vec<ServerAddr<A>>,
    pub link: LinkAnswers<E>,
}

impl<A, E> DialAnswers<A, E> {
    /// Whether the server has an address.
    pub open spec fn wf(self) -> bool {
        self.addrs.len() > 0
    }

    /// The answer to one thing to do.
    pub open spec fn to(self, dial: Dial<A>) -> DialEvent<A, E> {
        match dial {
            Dial::Resolve { .. } => DialEvent::Resolved { addrs: self.addrs },
            Dial::OpenEndpoint { .. } => DialEvent::EndpointOpen,
            Dial::Link(link) => DialEvent::Link(self.link.to(link)),
            Dial::SpawnReceiver => DialEvent::ReceiverRuns,
        }
    }

    /// The address to use.
    pub open spec fn addr(self) -> A {
        self.addrs@[0].addr
    }

    /// The family of the address to use.
    pub open spec fn ipv6(self) -> bool {
        self.addrs@[0].ipv6
    }

    /// How a new connection ends.
    pub open spec fn outcome(self, zero_rtt: bool) -> Result<(), SError<E>> {
        dial_end(self.link.outcome(zero_rtt))
    }

    /// What `client` does on the way, in order.
    pub open spec fn script<C, P>(self, client: ShadowQuicClient<C, P>) -> Seq<Dial<A>> {
        let resolve = seq![client.dialing::<A>()];
        let endpoint = if client.quic_end is Some {
            seq![]
        } else {
            seq![client.opening(self.addr(), self.ipv6())]
        };
        let link = self.link.script(self.addr(), client.server_name, client.zero_rtt).map_values(
            |link: Link<A>| Dial::Link(link),
        );
        let receiver = if self.outcome(client.zero_rtt) is Ok {
            seq![Dial::SpawnReceiver]
        } else {
            seq![]
        };
        resolve + endpoint + link + receiver
    }
}

/// What is done from `dial` on, in order, and how it ends.
pub open spec fn dial_run<A, E>(dial: Dial<A>, answers: DialAnswers<A, E>) -> (
    Seq<Dial<A>>,
    DialNext<A, E>,
)
    decreases dial.rank(),
{
    match dial.next(answers.to(dial)) {
        DialNext::More(next) => {
            if next.rank() < dial.rank() {
                let (rest, end) = dial_run(next, answers);
                (seq![dial] + rest, end)
            } else {
                (seq![dial], DialNext::More(next))
            }
        },
        end => (seq![dial], end),
    }
}

/// From its link on, a new connection does what the link does, and then starts a
/// receiver where the link leaves it something to receive from.
proof fn dial_wraps_link<A, E>(link: Link<A>, answers: DialAnswers<A, E>)
    ensures
        ({
            let (steps, next) = crate::link::link_run(link, answers.link);
            &&& next matches LinkNext::End(end)
            &&& dial_run(Dial::Link(link), answers) == (
                steps.map_values(|link: Link<A>| Dial::Link(link)) + receiver_after(end),
                DialNext::<A, E>::Done(dial_end(end)),
            )
        }),
    decreases link.rank(),
{
    let (steps, next) = crate::link::link_run(link, answers.link);
    let wrap = |link: Link<A>| Dial::Link(link);
    match link.next(answers.link.to(link)) {
        LinkNext::More(more) => {
            dial_wraps_link(more, answers);
            let (rest, _) = crate::link::link_run(more, answers.link);
            assert(steps == seq![link] + rest);
            assert(steps.map_values(wrap) =~= seq![Dial::Link(link)] + rest.map_values(wrap));
        },
        LinkNext::End(end) => {
            assert(steps.map_values(wrap) =~= seq![Dial::Link(link)]);
            if dial_end(end) is Ok {
                assert(dial_run(Dial::SpawnReceiver, answers) == (
                    seq![Dial::<A>::SpawnReceiver],
                    DialNext::<A, E>::Done(Ok(())),
                ));
            }
        },
    }
    if let LinkNext::End(end) = next {
        assert(dial_run(Dial::Link(link), answers).0 =~= steps.map_values(wrap) + receiver_after(
            end,
        ));
    }
}

/// The receiver that is started after a link that ends with `end`.
spec fn receiver_after<A, E>(end: LinkEnd<E>) -> Seq<Dial<A>> {
    if dial_end(end) is Ok {
        seq![Dial::SpawnReceiver]
    } else {
        seq![]
    }
}

/// A new connection comes about as its script says and ends as its outcome says,
/// whatever the outside answers.
pub proof fn dial_follows_script<C, P, A, E>(
    client: ShadowQuicClient<C, P>,
    answers: DialAnswers<A, E>,
)
    requires
        answers.wf(),
    ensures
        dial_run(client.dialing(), answers) == (
            answers.script(client),
            DialNext::<A, E>::Done(answers.outcome(client.zero_rtt)),
        ),
{
    let start = client.dialing::<A>();
    let open = client.opening(answers.addr(), answers.ipv6());
    let link = Link::Connect {
        addr: answers.addr(),
        server_name: client.server_name,
        zero_rtt: client.zero_rtt,
    };
    crate::link::link_follows_script(
        answers.addr(),
        client.server_name,
        client.zero_rtt,
        answers.link,
    );
    dial_wraps_link(link, answers);
    let (rest, end) = dial_run(Dial::Link(link), answers);
    if client.quic_end is Some {
        assert(dial_run(start, answers) == (seq![start] + rest, end));
    } else {
        assert(dial_run(open, answers) == (seq![open] + rest, end));
        assert(dial_run(start, answers) == (seq![start] + (seq![open] + rest), end));
    }
    assert(dial_run(start, answers).0 =~= answers.script(client));
}

/// Whether connecting starts here.
pub open spec fn connects<A>(dial: Dial<A>) -> bool {
    dial matches Dial::Link(link) && link is Connect
}

/// The configured address is resolved, and exactly one attempt is made to
/// connect: to the first address found, by the configured name. This holds
/// whatever comes of it, so that no other address is tried.
pub proof fn first_address_is_connected_to<C, P, A, E>(
    client: ShadowQuicClient<C, P>,
    answers: DialAnswers<A, E>,
)
    requires
        answers.wf(),
    ensures
        ({
            let (done, _) = dial_run(client.dialing(), answers);
            let at: int = if client.quic_end is Some {
                1
            } else {
                2
            };
            &&& done[0] == (Dial::<A>::Resolve {
                dst_addr: client.dst_addr,
                server_name: client.server_name,
                zero_rtt: client.zero_rtt,
                endpoint_open: client.quic_end is Some,
            })
            &&& at < done.len()
            &&& done[at] == Dial::Link(
                Link::Connect {
                    addr: answers.addrs@[0].addr,
                    server_name: client.server_name,
                    zero_rtt: client.zero_rtt,
                },
            )
            &&& forall|i: int|
                0 <= i < done.len() ==> (connects(#[trigger] done[i]) <==> i == at)
        }),
{
    dial_follows_script(client, answers);
}

/// A connection is handed out only where its peer was not found to be false. A
/// false peer is answered with a closed connection and [`SError::JlsAuthFailed`],
/// which no other cause brings about. UDP packets are received exactly on what
/// is handed out.
pub proof fn refused_peer_is_shut_out<C, P, A, E>(
    client: ShadowQuicClient<C, P>,
    answers: DialAnswers<A, E>,
)
    requires
        answers.wf(),
    ensures
        ({
            let (done, end) = dial_run(client.dialing(), answers);
            let refused = answers.link.outcome(client.zero_rtt) is Ready && crate::link::refuses(
                answers.link.jls,
            );
            &&& end == DialNext::<A, E>::Done(Ok(())) ==> !crate::link::refuses(answers.link.jls)
            &&& end == DialNext::<A, E>::Done(Err(SError::JlsAuthFailed)) <==> refused
            &&& done.contains(Dial::Link(Link::Close)) <==> refused
            &&& done.contains(Dial::SpawnReceiver) <==> end == DialNext::<A, E>::Done(Ok(()))
        }),
{
    dial_follows_script(client, answers);
    let done = answers.script(client);
    let link = answers.link.script(answers.addr(), client.server_name, client.zero_rtt);
    if answers.link.outcome(client.zero_rtt) is Ready && crate::link::refuses(answers.link.jls) {
        assert(link.last() == Link::<A>::Close);
        assert(done.last() == Dial::Link(Link::<A>::Close));
    }
    if answers.outcome(client.zero_rtt) is Ok {
        assert(done.last() == Dial::<A>::SpawnReceiver);
    }
}

/// Where the peer of a new connection is found not to be authentic, the request
/// that needed the connection fails with [`SError::JlsAuthFailed`]; no stream is
/// opened for it and nothing is sent.
pub proof fn no_request_to_refused_peer<C, P, A, D, E>(
    client: ShadowQuicClient<C, P>,
    request: ProxyRequest<D>,
    dial: DialAnswers<A, E>,
    opened: Result<(), E>,
)
    requires
        dial.wf(),
        dial.link.outcome(client.zero_rtt) == (LinkEnd::<E>::Ready { refused: true }),
    ensures
        ({
            let start = Handle::Prepare {
                req: crate::stream::request_for(request, client.over_stream),
                relay: crate::stream::relay_for(request, client.over_stream, true),
                open_first: true,
            };
            let (_, dialed) = dial_run(client.dialing(), dial);
            &&& dialed matches DialNext::Done(prepared)
            &&& crate::session::handle_run(
                start,
                HandleAnswers { prepared, opened },
            ) == (
                seq![start],
                crate::session::HandleNext::<D, E>::Failed(SError::JlsAuthFailed),
            )
        }),
{
    dial_follows_script(client, dial);
    crate::session::handle_follows_script(
        crate::stream::request_for(request, client.over_stream),
        crate::stream::relay_for(request, client.over_stream, true),
        true,
        HandleAnswers { prepared: dial.outcome(client.zero_rtt), opened },
    );
}

/// An endpoint is opened exactly where there is none, once, before connecting,
/// and for the family of the first address of the server, whatever else is
/// configured.
pub proof fn endpoint_is_opened_where_missing<C, P, A, E>(
    client: ShadowQuicClient<C, P>,
    answers: DialAnswers<A, E>,
)
    requires
        answers.wf(),
    ensures
        ({
            let (done, _) = dial_run(client.dialing(), answers);
            &&& forall|i: int|
                0 <= i < done.len() ==> (#[trigger] done[i] is OpenEndpoint <==> i == 1
                    && client.quic_end is None)
            &&& client.quic_end is None ==> done[1] == client.opening(
                answers.addrs@[0].addr,
                answers.addrs@[0].ipv6,
            )
            &&& client.quic_end is None ==> {
                &&& done[1] matches Dial::OpenEndpoint { addr, ipv6, server_name, zero_rtt }
                &&& ipv6 == answers.addrs@[0].ipv6
                &&& addr == answers.addrs@[0].addr
                &&& server_name == client.server_name
                &&& zero_rtt == client.zero_rtt
            }
        }),
{
    dial_follows_script(client, answers);
}

/// A client that has its endpoint keeps it, whatever becomes of its connections,
/// and opens no other.
pub proof fn endpoint_is_opened_once<C, P, A, E>(
    client: ShadowQuicClient<C, P>,
    closed: bool,
    dialed: Result<C, SError<E>>,
    answers: DialAnswers<A, E>,
)
    requires
        client.quic_end is Some,
        answers.wf(),
    ensures
        ({
            let later = client.prepared(closed).stored(dialed);
            let (done, _) = dial_run(later.dialing(), answers);
            &&& later.quic_end == client.quic_end
            &&& forall|i: int| 0 <= i < done.len() ==> #[trigger] done[i] !is OpenEndpoint
        }),
{
    endpoint_is_opened_where_missing(client.prepared(closed).stored(dialed), answers);
}

/// A client tries to use a connection early only where its TLS configuration
/// allows early data.
pub proof fn early_use_is_allowed<C, P, A, E>(
    client: ShadowQuicClient<C, P>,
    answers: DialAnswers<A, E>,
)
    requires
        client.wf(),
        answers.wf(),
    ensures
        dial_run(client.dialing(), answers).0.contains(Dial::Link(Link::IntoZeroRtt))
            ==> crate::quic::client_settings(client.quic_config).tls.early_data,
{
    dial_follows_script(client, answers);
}

/// A connection that was stored is reused until it is closed; then, and after a
/// failure to get one, the next request gets a new one. Nothing but the
/// connection changes on the way.
pub proof fn connection_is_reused_until_closed<C, P, E>(
    client: ShadowQuicClient<C, P>,
    closed: bool,
    conn: C,
    err: SError<E>,
)
    requires
        client.wf(),
    ensures
        ({
            let dialed = client.prepared(true).stored(Ok::<C, SError<E>>(conn));
            let failed = client.prepared(true).stored(Err::<C, SError<E>>(err));
            &&& dialed.keeps_conn(false)
            &&& dialed.prepared(false) == dialed
            &&& !dialed.keeps_conn(true)
            &&& dialed.prepared(true) == client.prepared(true)
            &&& !failed.keeps_conn(closed)
            &&& failed.prepared(closed) == failed
            &&& dialed == (ShadowQuicClient { quic_conn: Some(conn), ..client })
            &&& dialed.wf() && failed.wf()
        }),
{
}

/// A client that was made for a configuration has each setting from there, and
/// none depends on another. So it dials the configured address by the configured
/// name, tries early use exactly where 0-RTT is configured, hands in its socket
/// exactly where a path for that is configured, and lets UDP packets travel on
/// streams exactly where that is configured.
pub proof fn client_does_as_configured<C, P, A, D>(
    client: ShadowQuicClient<C, P>,
    cfg: ShadowQuicClientCfg,
    settings: ClientSettings,
    ipv6: bool,
    dst: D,
    control: bool,
)
    requires
        client.is_fresh(cfg, settings),
    ensures
        client.quic_conn is None && client.quic_end is None,
        crate::quic::client_settings(client.quic_config) == settings,
        client.dst_addr == cfg.addr,
        client.server_name == cfg.server_name,
        client.zero_rtt == cfg.zero_rtt,
        client.over_stream == cfg.over_stream,
        client.protect_path == cfg.protect_path,
        ({
            &&& client.dialing::<A>() matches Dial::Resolve {
                dst_addr,
                server_name,
                zero_rtt,
                endpoint_open,
            }
            &&& dst_addr == cfg.addr
            &&& server_name == cfg.server_name
            &&& zero_rtt == cfg.zero_rtt
            &&& !endpoint_open
        }),
        client.setting_up(ipv6).protect <==> cfg.protect_path is Some,
        client.setting_up(ipv6).step == (crate::endpoint::SetupStep::CreateSocket { ipv6 }),
        ({
            &&& client.handling(ProxyRequest::Udp { dst, control }) matches Handle::Prepare {
                req,
                relay,
                open_first,
            }
            &&& req.dst == dst
            &&& req.cmd == SQCmd::AssociatOverStream <==> cfg.over_stream
            &&& req.cmd == SQCmd::AssociatOverDatagram <==> !cfg.over_stream
            &&& relay == (Relay::Join { over_stream: cfg.over_stream, control })
            &&& open_first
        }),
        ({
            &&& client.handling(ProxyRequest::Tcp { dst }) matches Handle::Prepare {
                req,
                relay,
                open_first,
            }
            &&& req.dst == dst
            &&& req.cmd == SQCmd::Connect
            &&& relay == Relay::Copy
            &&& open_first
        }),
{
}

/// A client with given fields goes by them, whatever became of its connections:
/// this is what it dials, sets up and asks the server for.
pub proof fn client_goes_by_its_fields<C, P, A, D>(
    client: ShadowQuicClient<C, P>,
    ipv6: bool,
    request: ProxyRequest<D>,
)
    ensures
        ({
            &&& client.dialing::<A>() matches Dial::Resolve {
                dst_addr,
                server_name,
                zero_rtt,
                endpoint_open,
            }
            &&& dst_addr == client.dst_addr
            &&& server_name == client.server_name
            &&& zero_rtt == client.zero_rtt
            &&& endpoint_open <==> client.quic_end is Some
        }),
        client.setting_up(ipv6).protect <==> client.protect_path is Some,
        client.setting_up(ipv6).step == (crate::endpoint::SetupStep::CreateSocket { ipv6 }),
        ({
            &&& client.handling(request) matches Handle::Prepare { req, relay, open_first }
            &&& open_first
            &&& match request {
                ProxyRequest::Tcp { dst } => {
                    &&& req.cmd == SQCmd::Connect
                    &&& req.dst == dst
                    &&& relay == Relay::Copy
                },
                ProxyRequest::Udp { dst, control } => {
                    &&& req.cmd == SQCmd::AssociatOverStream <==> client.over_stream
                    &&& req.cmd == SQCmd::AssociatOverDatagram <==> !client.over_stream
                    &&& req.dst == dst
                    &&& relay == (Relay::Join { over_stream: client.over_stream, control })
                },
            }
        }),
{
}

/// The QUIC configuration of a client has the configured JLS user, protocols,
/// early data, sizes, windows, interval and controller, each by its own setting.
/// What TLS trusts is that of the base, or the public web roots where there is
/// none.
pub proof fn configuration_is_as_configured(
    base: TlsSettings,
    cfg: ShadowQuicClientCfg,
    windows: ReceiveWindows,
)
    ensures
        settings_over(base, cfg, windows).tls == crate::tuning::tls_over(base, cfg),
        settings_over(base, cfg, windows).transport == crate::tuning::tuned_transport_for(
            cfg,
            windows,
        ),
        ({
            let ClientSettings { tls, transport } = settings_over(base, cfg, windows);
            &&& tls.jls matches Some(user)
            &&& user.pwd == cfg.jls_pwd@
            &&& user.iv == cfg.jls_iv@
            &&& tls.early_data == cfg.zero_rtt
            &&& tls.alpn.len() == cfg.alpn@.len()
            &&& tls.webpki_roots == base.webpki_roots
            &&& tls.client_auth == base.client_auth
            &&& tls.initial_suite == base.initial_suite
            &&& transport.congestion == cfg.congestion_control
            &&& transport.stream_receive_window == windows.stream
            &&& transport.datagram_receive_buffer == Some(windows.datagram as usize)
            &&& transport.keep_alive_millis is Some <==> cfg.keep_alive_interval > 0
            &&& cfg.initial_mtu >= 1200 ==> transport.initial_mtu == cfg.initial_mtu
            &&& cfg.min_mtu >= 1200 ==> transport.min_mtu == cfg.min_mtu
        }),
        ({
            let ClientSettings { tls, transport } = settings_for(cfg, windows);
            &&& tls.jls matches Some(user)
            &&& user.pwd == cfg.jls_pwd@
            &&& user.iv == cfg.jls_iv@
            &&& tls.early_data == cfg.zero_rtt
            &&& tls.alpn == crate::tuning::alpn_wire(cfg.alpn@)
            &&& tls.webpki_roots && !tls.client_auth && tls.initial_suite
            &&& transport == crate::tuning::tuned_transport_for(cfg, windows)
        }),
{
}

/// A stream that is handed out was opened for a TCP connection, and an
/// association that is handed out for one whose packets travel as wanted; both go
/// to the wanted destination.
pub proof fn handed_out_streams_ask_for_what_is_wanted<D>(dst: D, over_stream: bool)
    ensures
        ({
            &&& tcp_stream(dst) matches StreamTask::Open { req, relay }
            &&& req.cmd == SQCmd::Connect
            &&& req.dst == dst
            &&& relay == Relay::HandOut
        }),
        ({
            &&& udp_stream(dst, over_stream) matches StreamTask::Open { req, relay }
            &&& req.cmd == SQCmd::AssociatOverStream <==> over_stream
            &&& req.cmd == SQCmd::AssociatOverDatagram <==> !over_stream
            &&& req.dst == dst
            &&& relay == (Relay::Spawn { over_stream })
        }),
{
}

/// The connection in use is kept exactly where there is one and it is not closed;
/// a new one takes its place, and a failure leaves none. Getting an endpoint
/// touches no connection, and nothing that was configured ever changes.
pub proof fn only_connection_and_endpoint_change<C, P, E>(
    client: ShadowQuicClient<C, P>,
    closed: bool,
    dialed: Result<C, SError<E>>,
    endpoint: P,
)
    ensures
        client.keeps_conn(closed) <==> client.quic_conn is Some && !closed,
        client.prepared(closed).quic_conn == if closed {
            None
        } else {
            client.quic_conn
        },
        client.stored(dialed).quic_conn == match dialed {
            Ok(conn) => Some(conn),
            Err(_) => client.quic_conn,
        },
        client.prepared(closed).quic_end == client.quic_end,
        client.stored(dialed).quic_end == client.quic_end,
        client.equipped(endpoint).quic_end == Some(endpoint),
        client.equipped(endpoint).quic_conn == client.quic_conn,
        forall|later: ShadowQuicClient<C, P>|
            later == client.prepared(closed) || later == client.stored(dialed) || later
                == client.equipped(endpoint) ==> {
                &&& #[trigger] later.quic_config == client.quic_config
                &&& later.dst_addr == client.dst_addr
                &&& later.server_name == client.server_name
                &&& later.zero_rtt == client.zero_rtt
                &&& later.over_stream == client.over_stream
                &&& later.protect_path == client.protect_path
            },
{
}

/// A dial takes every answer to what there is to do, and hands on what it was
/// given: the first address found, its family, the name and whether early data is
/// wanted. An endpoint is asked for exactly where none is open.
pub proof fn dial_moves_by_its_answers<A, E>(
    dst_addr: String,
    server_name: String,
    zero_rtt: bool,
    endpoint_open: bool,
    addrs: Vec<ServerAddr<A>>,
    addr: A,
    ipv6: bool,
)
    requires
        addrs.len() > 0,
    ensures
        ({
            let resolve = Dial::Resolve { dst_addr, server_name, zero_rtt, endpoint_open };
            let event = DialEvent::<A, E>::Resolved { addrs };
            let first = addrs@[0];
            &&& resolve.answered_by(event)
            &&& !endpoint_open ==> resolve.next(event) == DialNext::<A, E>::More(
                Dial::OpenEndpoint {
                    addr: first.addr,
                    ipv6: first.ipv6,
                    server_name,
                    zero_rtt,
                },
            )
            &&& endpoint_open ==> resolve.next(event) == DialNext::<A, E>::More(
                Dial::Link(Link::Connect { addr: first.addr, server_name, zero_rtt }),
            )
        }),
        ({
            let open = Dial::OpenEndpoint { addr, ipv6, server_name, zero_rtt };
            &&& open.answered_by(DialEvent::<A, E>::EndpointOpen)
            &&& open.next(DialEvent::<A, E>::EndpointOpen) == DialNext::<A, E>::More(
                Dial::Link(Link::Connect { addr, server_name, zero_rtt }),
            )
        }),
        Dial::<A>::SpawnReceiver.answered_by(DialEvent::<A, E>::ReceiverRuns),
        Dial::<A>::SpawnReceiver.next(DialEvent::<A, E>::ReceiverRuns) == DialNext::<A, E>::Done(
            Ok(()),
        ),
{
}

/// While it links, a dial takes what the link takes and goes where the link goes.
/// A link that failed ends the dial with its error, one that was refused with
/// [`SError::JlsAuthFailed`], and exactly any other leads to a receiver.
pub proof fn dial_goes_with_its_link<A, E>(link: Link<A>, event: LinkEvent<E>)
    ensures
        ({
            let dial = Dial::Link(link);
            let next = dial.next(DialEvent::<A, E>::Link(event));
            &&& dial.answered_by(DialEvent::<A, E>::Link(event)) <==> link.answered_by(event)
            &&& match link.next(event) {
                LinkNext::More(more) => next == DialNext::<A, E>::More(Dial::Link(more)),
                LinkNext::End(LinkEnd::Failed(err)) => next == DialNext::<A, E>::Done(
                    Err(SError::External(err)),
                ),
                LinkNext::End(LinkEnd::Ready { refused }) => {
                    &&& refused <==> next == DialNext::<A, E>::Done(Err(SError::JlsAuthFailed))
                    &&& !refused <==> next == DialNext::<A, E>::More(Dial::SpawnReceiver)
                },
            }
        }),
{
}

/// The course of a new connection, by the answers of the outside: the address is
/// resolved, an endpoint opened where there is none, and the first address
/// connected to. Early use is asked for exactly with 0-RTT, and the handshake
/// waited for exactly where the connection is not used early. JLS is read exactly
/// on a connection, which is closed exactly where authentication failed, and
/// received from exactly where it did not.
pub proof fn dial_runs_its_course<C, P, A, E>(
    client: ShadowQuicClient<C, P>,
    answers: DialAnswers<A, E>,
)
    requires
        answers.addrs.len() > 0,
    ensures
        ({
            let (done, end) = dial_run(client.dialing(), answers);
            let at: int = if client.quic_end is Some {
                1
            } else {
                2
            };
            let wait: int = if client.zero_rtt {
                at + 2
            } else {
                at + 1
            };
            let early = client.zero_rtt && answers.link.early;
            let linked = answers.link.connect is Ok && (early || answers.link.peer is Ok);
            &&& done.len() > at
            &&& done[0] == (Dial::<A>::Resolve {
                dst_addr: client.dst_addr,
                server_name: client.server_name,
                zero_rtt: client.zero_rtt,
                endpoint_open: client.quic_end is Some,
            })
            &&& client.quic_end is None ==> done[1] == (Dial::OpenEndpoint {
                addr: answers.addrs@[0].addr,
                ipv6: answers.addrs@[0].ipv6,
                server_name: client.server_name,
                zero_rtt: client.zero_rtt,
            })
            &&& done[at] == Dial::Link(
                Link::Connect {
                    addr: answers.addrs@[0].addr,
                    server_name: client.server_name,
                    zero_rtt: client.zero_rtt,
                },
            )
            &&& done.len() > wait <==> answers.link.connect is Ok
            &&& answers.link.connect is Err ==> done.len() == at + 1
            &&& done.len() > wait && client.zero_rtt ==> done[at + 1] == Dial::Link(
                Link::<A>::IntoZeroRtt,
            )
            &&& done.len() > wait && early ==> done[wait] == Dial::Link(Link::<A>::WatchEarlyData)
            &&& done.len() > wait && !early ==> done[wait] == Dial::Link(Link::<A>::AwaitPeer)
            &&& answers.link.connect is Ok && !linked ==> done.len() == wait + 1
            &&& linked ==> {
                &&& done.len() == wait + 3
                &&& done[wait + 1] == Dial::Link(Link::<A>::ReadJls)
                &&& answers.link.jls == Some(false) <==> done[wait + 2] == Dial::Link(
                    Link::<A>::Close,
                )
                &&& answers.link.jls != Some(false) <==> done[wait + 2]
                    == Dial::<A>::SpawnReceiver
            }
            &&& end == DialNext::<A, E>::Done(Ok(())) <==> linked && answers.link.jls
                != Some(false)
            &&& end == DialNext::<A, E>::Done(Err(SError::JlsAuthFailed)) <==> linked
                && answers.link.jls == Some(false)
            &&& match (answers.link.connect, answers.link.peer) {
                (Err(err), _) => end == DialNext::<A, E>::Done(Err(SError::External(err))),
                (_, Err(err)) => !early ==> end == DialNext::<A, E>::Done(
                    Err(SError::External(err)),
                ),
                _ => true,
            }
        }),
{
    dial_follows_script(client, answers);
}

/// Where the peer of a new connection fails to authenticate by the time it is
/// asked about, no proxy request gets further than to that connection.
pub proof fn false_peer_gets_no_request<C, P, A, D, E>(
    client: ShadowQuicClient<C, P>,
    request: ProxyRequest<D>,
    dial: DialAnswers<A, E>,
    opened: Result<(), E>,
)
    requires
        dial.addrs.len() > 0,
        dial.link.connect is Ok,
        dial.link.peer is Ok || (client.zero_rtt && dial.link.early),
        dial.link.jls == Some(false),
    ensures
        ({
            let (_, dialed) = dial_run(client.dialing(), dial);
            &&& dialed matches DialNext::Done(prepared)
            &&& prepared == Err::<(), SError<E>>(SError::JlsAuthFailed)
            &&& crate::session::handle_run(
                client.handling(request),
                HandleAnswers { prepared, opened },
            ) == (
                seq![client.handling(request)],
                crate::session::HandleNext::<D, E>::Failed(SError::JlsAuthFailed),
            )
        }),
{
    dial_runs_its_course(client, dial);
    no_request_to_refused_peer(client, request, dial, opened);
}

} // verus!
