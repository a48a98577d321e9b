//! A plainer client: its endpoint is opened when it is made, its server is given
//! by address, and few transport parameters are tuned. A connection whose peer
//! did not authenticate is closed but kept, so that the next request finds it
//! closed and replaces it.
use vstd::prelude::*;

use crate::config::ShadowQuicClientCfg;
use crate::endpoint::EndpointSetup;
use crate::error::{ConfigError, SError};
use crate::link::{Link, LinkAnswers, LinkEnd, LinkNext};
use crate::msgs::{ProxyRequest, SQCmd};
use crate::quic::{new_tls_config, ClientSettings, TlsSettings};
use crate::session::{Handle, Prepare, ReceiverDue};
use crate::stream::{plan, Relay};
use crate::tuning::{basic_transport, client_config, tls_config_from};

verus! {

/// A client. `C` is a connection and `P` an endpoint, as the caller has them.
pub struct ShadowQuicClient<C, P> {
    /// The connection in use, if there is one.
    pub quic_conn: Option<C>,
    pub quic_config: quinn_jls::ClientConfig,
    /// The endpoint, once it was opened.
    pub quic_end: Option<P>,
    pub dst_addr: String,
    pub server_name: String,
    pub zero_rtt: bool,
    pub over_stream: bool,
}

/// What a client's configuration holds, given that the provider has the
/// cipher suite that QUIC starts with.
pub open spec fn settings_for(cfg: ShadowQuicClientCfg) -> ClientSettings {
    settings_over(crate::quic::default_tls_settings(true), cfg)
}

/// What a client's configuration holds that starts from the TLS parameters
/// of `base`.
pub open spec fn settings_over(base: TlsSettings, cfg: ShadowQuicClientCfg) -> ClientSettings {
    ClientSettings {
        tls: crate::tuning::tls_over(base, cfg),
        transport: crate::tuning::basic_transport_for(cfg),
    }
}

impl<C, P> ShadowQuicClient<C, P> {
    /// The TLS configuration allows early data exactly where the client will try
    /// to send some.
    pub open spec fn wf(self) -> bool {
        crate::quic::client_settings(self.quic_config).tls.early_data == self.zero_rtt
    }

    /// Whether this is a client for `cfg` that has these settings, no connection
    /// and no endpoint yet.
    pub open spec fn is_fresh(self, cfg: ShadowQuicClientCfg, settings: ClientSettings) -> bool {
        &&& self.quic_conn is None
        &&& crate::quic::client_settings(self.quic_config) == settings
        &&& self.quic_end is None
        &&& self.dst_addr == cfg.addr
        &&& self.server_name == cfg.server_name
        &&& self.zero_rtt == cfg.zero_rtt
        &&& self.over_stream == cfg.over_stream
    }

    /// How the endpoint of a client is brought up: it is opened on a socket of
    /// its own, bound to [`crate::endpoint::bind_addr`] of IPv6 whatever the
    /// server is, and gets the client's configuration as its default.
    pub fn init_endpoint() -> (res: EndpointSetup)
        ensures
            res == (EndpointSetup {
                protect: false,
                step: crate::endpoint::SetupStep::OpenClient { ipv6: true },
            }),
            res.successor() == Some(crate::endpoint::SetupStep::Configure),
    {
        EndpointSetup::on_own_socket(true)
    }

    /// A client with no connection that starts from the TLS configuration `base`,
    /// and how to bring up its endpoint. It fails exactly where the cryptographic
    /// provider of `base` lacks the cipher suite that QUIC starts with.
    pub fn new_from(base: rustls_jls::ClientConfig, cfg: ShadowQuicClientCfg) -> (res: Result<
        (Self, EndpointSetup),
        ConfigError,
    >)
        ensures
            match res {
                Ok((client, setup)) => {
                    &&& crate::quic::tls_settings(base).initial_suite
                    &&& client.is_fresh(cfg, settings_over(crate::quic::tls_settings(base), cfg))
                    &&& client.wf()
                    &&& setup == (EndpointSetup {
                        protect: false,
                        step: crate::endpoint::SetupStep::OpenClient { ipv6: true },
                    })
                },
                Err(err) => {
                    &&& !crate::quic::tls_settings(base).initial_suite
                    &&& err == ConfigError::NoInitialCipherSuite
                },
            },
    {
        match client_config(tls_config_from(base, &cfg), basic_transport(&cfg)) {
            Ok(quic_config) => {
                let client = ShadowQuicClient {
                    quic_conn: None,
                    quic_config,
                    quic_end: None,
                    dst_addr: cfg.addr,
                    server_name: cfg.server_name,
                    zero_rtt: cfg.zero_rtt,
                    over_stream: cfg.over_stream,
                };
                Ok((client, Self::init_endpoint()))
            },
            Err(err) => Err(err),
        }
    }

    /// A client with no connection, and how to bring up its endpoint: the setup
    /// is to be run, and the endpoint handed to [`Self::set_endpoint`]. It fails
    /// where the cryptographic provider of the process lacks the cipher suite
    /// that QUIC starts with, and only there: no argument decides on it, and
    /// [`Self::new_from`] says what comes of the TLS configuration that the
    /// process gives.
    ///
    /// In a process that has installed a provider with no usable cipher suite or
    /// key exchange group, making a TLS configuration panics.
    pub fn new(cfg: ShadowQuicClientCfg) -> (res: Result<(Self, EndpointSetup), ConfigError>)
        ensures
            match res {
                Ok((client, setup)) => {
                    &&& client.is_fresh(cfg, settings_for(cfg))
                    &&& client.wf()
                    &&& setup == (EndpointSetup {
                        protect: false,
                        step: crate::endpoint::SetupStep::OpenClient { ipv6: true },
                    })
                },
                Err(err) => err == ConfigError::NoInitialCipherSuite,
            },
    {
        Self::new_from(new_tls_config(), cfg)
    }

    /// The client after its endpoint was brought up.
    pub open spec fn equipped(self, endpoint: P) -> Self {
        ShadowQuicClient { quic_end: Some(endpoint), ..self }
    }

    /// Keeps the endpoint that was brought up.
    pub fn set_endpoint(&mut self, endpoint: P)
        requires
            old(self).quic_end is None,
        ensures
            *final(self) == old(self).equipped(endpoint),
    {
        self.quic_end = Some(endpoint);
    }

    /// Whether the connection in use, which is `closed` or not, is kept.
    pub open spec fn keeps_conn(self, closed: bool) -> bool {
        self.quic_conn is Some && !closed
    }

    /// The client after the connection in use was looked at.
    pub open spec fn prepared(self, closed: bool) -> Self {
        if self.keeps_conn(closed) {
            self
        } else {
            ShadowQuicClient { quic_conn: None, ..self }
        }
    }

    /// The client after a new connection was tried for.
    pub open spec fn stored<E>(self, linked: Result<(C, bool), E>) -> Self {
        match linked {
            Ok((conn, _)) => ShadowQuicClient { quic_conn: Some(conn), ..self },
            Err(_) => self,
        }
    }

    /// Drops the connection in use where it is `closed`, and tells whether a new
    /// one is needed. Where one is, [`Self::dial`] says how to get it, and
    /// [`Self::store_conn`] takes what came of that.
    pub fn prepare_conn(&mut self, closed: bool) -> (res: Prepare)
        ensures
            res is Ready <==> old(self).keeps_conn(closed),
            *final(self) == old(self).prepared(closed),
    {
        if closed {
            self.quic_conn = None;
        }
        if self.quic_conn.is_some() {
            Prepare::Ready
        } else {
            Prepare::Dial
        }
    }

    /// The first thing to do for a new connection of this client.
    pub open spec fn locating(self) -> Locate {
        Locate {
            dst_addr: self.dst_addr,
            server_name: self.server_name,
            zero_rtt: self.zero_rtt,
        }
    }

    /// How to get a connection to the server.
    pub fn dial(&self) -> (res: Locate)
        ensures
            res == self.locating(),
    {
        Locate {
            dst_addr: self.dst_addr.clone(),
            server_name: self.server_name.clone(),
            zero_rtt: self.zero_rtt,
        }
    }

    /// Keeps a new connection, whether it was refused, as the flag with it tells,
    /// or not; or passes on why there is none.
    pub fn store_conn<E>(&mut self, linked: Result<(C, bool), E>) -> (res: Result<
        ReceiverDue,
        SError<E>,
    >)
        requires
            old(self).quic_conn is None,
        ensures
            *final(self) == old(self).stored(linked),
            match linked {
                Ok(_) => res == Ok::<ReceiverDue, SError<E>>(ReceiverDue),
                Err(err) => res == Err::<ReceiverDue, SError<E>>(SError::External(err)),
            },
    {
        match linked {
            Ok((conn, _)) => {
                self.quic_conn = Some(conn);
                Ok(ReceiverDue)
            },
            Err(err) => Err(SError::External(err)),
        }
    }

    /// The first thing to do for a proxy request to this client.
    pub open spec fn handling<D>(self, request: ProxyRequest<D>) -> Handle<D> {
        Handle::Prepare {
            req: crate::stream::request_for(request, self.over_stream),
            relay: crate::stream::relay_for(request, self.over_stream, false),
            open_first: false,
        }
    }

    /// How to serve a proxy request. Control streams are not minded.
    pub fn handle<D>(&self, request: ProxyRequest<D>) -> (res: Handle<D>)
        ensures
            res == self.handling(request),
    {
        let (req, relay) = plan(request, self.over_stream, false);
        Handle::Prepare { req, relay, open_first: false }
    }
}

/// The first thing to do for a new connection: read `dst_addr` as an address and
/// hand that to [`Locate::found`].
#[derive(PartialEq, Eq, Debug)]
pub struct Locate {
    pub dst_addr: String,
    pub server_name: String,
    pub zero_rtt: bool,
}

impl Locate {
    /// The link to the address that was read.
    pub open spec fn link_to<A>(self, addr: A) -> Link<A> {
        Link::Connect { addr, server_name: self.server_name, zero_rtt: self.zero_rtt }
    }

    /// Goes on with the address that was read.
    pub fn found<A>(self, addr: A) -> (res: Link<A>)
        ensures
            res == self.link_to(addr),
    {
        Link::Connect { addr, server_name: self.server_name, zero_rtt: self.zero_rtt }
    }
}

/// A connection is kept until it is closed, also one that was refused. A refused
/// one was closed when it came, so that the next request replaces it.
pub proof fn refused_connection_is_replaced<C, P, E>(
    client: ShadowQuicClient<C, P>,
    conn: C,
    refused: bool,
    err: E,
)
    requires
        client.wf(),
    ensures
        ({
            let linked = client.prepared(true).stored(Ok::<(C, bool), E>((conn, refused)));
            let failed = client.prepared(true).stored(Err::<(C, bool), E>(err));
            &&& linked == (ShadowQuicClient { quic_conn: Some(conn), ..client })
            &&& linked.keeps_conn(false)
            &&& linked.prepared(false) == linked
            &&& !linked.keeps_conn(true)
            &&& linked.prepared(true) == client.prepared(true)
            &&& !failed.keeps_conn(false)
            &&& linked.wf() && failed.wf()
        }),
{
}

/// A client that was made for a configuration has each setting from there, and
/// none depends on another. So it reads the configured address, connects by the
/// configured name, wants early use exactly where 0-RTT is configured, and lets
/// UDP packets travel on streams exactly where that is configured.
pub proof fn client_does_as_configured<C, P, A, D>(
    client: ShadowQuicClient<C, P>,
    cfg: ShadowQuicClientCfg,
    settings: ClientSettings,
    addr: A,
    dst: D,
    control: bool,
)
    requires
        client.is_fresh(cfg, settings),
    ensures
        client.quic_conn is None && client.quic_end is None,
        crate::quic::client_settings(client.quic_config) == settings,
        client.dst_addr == cfg.addr,
        client.server_name == cfg.server_name,
        client.zero_rtt == cfg.zero_rtt,
        client.over_stream == cfg.over_stream,
        client.locating().dst_addr == cfg.addr,
        ({
            &&& client.locating().link_to(addr) matches Link::Connect {
                addr: to,
                server_name,
                zero_rtt,
            }
            &&& to == addr
            &&& server_name == cfg.server_name
            &&& zero_rtt == cfg.zero_rtt
        }),
        ({
            &&& client.handling(ProxyRequest::Udp { dst, control }) matches Handle::Prepare {
                req,
                relay,
                open_first,
            }
            &&& req.dst == dst
            &&& req.cmd == SQCmd::AssociatOverStream <==> cfg.over_stream
            &&& req.cmd == SQCmd::AssociatOverDatagram <==> !cfg.over_stream
            &&& relay == (Relay::Join { over_stream: cfg.over_stream, control: false })
            &&& !open_first
        }),
        ({
            &&& client.handling(ProxyRequest::Tcp { dst }) matches Handle::Prepare {
                req,
                relay,
                open_first,
            }
            &&& req.dst == dst
            &&& req.cmd == SQCmd::Connect
            &&& relay == Relay::Copy
            &&& !open_first
        }),
{
}

/// A client with given fields goes by them, whatever became of its connections:
/// this is what it connects to and asks the server for.
pub proof fn client_goes_by_its_fields<C, P, A, D>(
    client: ShadowQuicClient<C, P>,
    addr: A,
    request: ProxyRequest<D>,
)
    ensures
        client.locating().dst_addr == client.dst_addr,
        client.locating().server_name == client.server_name,
        client.locating().zero_rtt == client.zero_rtt,
        ({
            &&& client.locating().link_to(addr) matches Link::Connect {
                addr: to,
                server_name,
                zero_rtt,
            }
            &&& to == addr
            &&& server_name == client.server_name
            &&& zero_rtt == client.zero_rtt
        }),
        ({
            &&& client.handling(request) matches Handle::Prepare { req, relay, open_first }
            &&& !open_first
            &&& match request {
                ProxyRequest::Tcp { dst } => {
                    &&& req.cmd == SQCmd::Connect
                    &&& req.dst == dst
                    &&& relay == Relay::Copy
                },
                ProxyRequest::Udp { dst, .. } => {
                    &&& req.cmd == SQCmd::AssociatOverStream <==> client.over_stream
                    &&& req.cmd == SQCmd::AssociatOverDatagram <==> !client.over_stream
                    &&& req.dst == dst
                    &&& relay == (Relay::Join {
                        over_stream: client.over_stream,
                        control: false,
                    })
                },
            }
        }),
{
}

/// The QUIC configuration of a client has the configured JLS user, protocols,
/// early data, size and controller, each by its own setting. What TLS trusts is
/// that of the base, or the public web roots where there is none.
pub proof fn configuration_is_as_configured(base: TlsSettings, cfg: ShadowQuicClientCfg)
    ensures
        settings_over(base, cfg).tls == crate::tuning::tls_over(base, cfg),
        settings_over(base, cfg).transport == crate::tuning::basic_transport_for(cfg),
        ({
            let ClientSettings { tls, transport } = settings_over(base, cfg);
            &&& tls.jls matches Some(user)
            &&& user.pwd == cfg.jls_pwd@
            &&& user.iv == cfg.jls_iv@
            &&& tls.early_data == cfg.zero_rtt
            &&& tls.alpn.len() == cfg.alpn@.len()
            &&& tls.webpki_roots == base.webpki_roots
            &&& tls.client_auth == base.client_auth
            &&& tls.initial_suite == base.initial_suite
            &&& transport.congestion == cfg.congestion_control
            &&& transport.max_bidi_streams == 500
            &&& cfg.initial_mtu >= 1200 ==> transport.initial_mtu == cfg.initial_mtu
        }),
        ({
            let ClientSettings { tls, transport } = settings_for(cfg);
            &&& tls.jls matches Some(user)
            &&& user.pwd == cfg.jls_pwd@
            &&& user.iv == cfg.jls_iv@
            &&& tls.early_data == cfg.zero_rtt
            &&& tls.alpn == crate::tuning::alpn_wire(cfg.alpn@)
            &&& tls.webpki_roots && !tls.client_auth && tls.initial_suite
            &&& transport.congestion == cfg.congestion_control
            &&& transport == crate::tuning::basic_transport_for(cfg)
        }),
{
}

/// The connection in use is kept exactly where there is one and it is not closed;
/// a new one takes its place, refused or not, and a failure leaves none. Getting
/// an endpoint touches no connection, and nothing that was configured ever
/// changes.
pub proof fn only_connection_and_endpoint_change<C, P, E>(
    client: ShadowQuicClient<C, P>,
    closed: bool,
    linked: Result<(C, bool), E>,
    endpoint: P,
)
    ensures
        client.keeps_conn(closed) <==> client.quic_conn is Some && !closed,
        client.prepared(closed).quic_conn == if closed {
            None
        } else {
            client.quic_conn
        },
        client.stored(linked).quic_conn == match linked {
            Ok((conn, _)) => Some(conn),
            Err(_) => client.quic_conn,
        },
        client.prepared(closed).quic_end == client.quic_end,
        client.stored(linked).quic_end == client.quic_end,
        client.equipped(endpoint).quic_end == Some(endpoint),
        client.equipped(endpoint).quic_conn == client.quic_conn,
        forall|later: ShadowQuicClient<C, P>|
            later == client.prepared(closed) || later == client.stored(linked) || later
                == client.equipped(endpoint) ==> {
                &&& #[trigger] later.quic_config == client.quic_config
                &&& later.dst_addr == client.dst_addr
                &&& later.server_name == client.server_name
                &&& later.zero_rtt == client.zero_rtt
                &&& later.over_stream == client.over_stream
            },
{
}

/// A client connects once, to the address that was read and by its own name, and
/// ends up with a connection exactly where there is no error on the way. A peer
/// that failed to authenticate is found refused, and its connection closed.
pub proof fn client_links_once<C, P, A, E>(
    client: ShadowQuicClient<C, P>,
    addr: A,
    answers: LinkAnswers<E>,
)
    ensures
        ({
            let (done, end) = crate::link::link_run(client.locating().link_to(addr), answers);
            let early = client.zero_rtt && answers.early;
            let linked = answers.connect is Ok && (early || answers.peer is Ok);
            &&& done[0] == (Link::Connect {
                addr,
                server_name: client.server_name,
                zero_rtt: client.zero_rtt,
            })
            &&& forall|i: int| 0 <= i < done.len() ==> (#[trigger] done[i] is Connect <==> i == 0)
            &&& done.last() == Link::<A>::Close <==> linked && answers.jls == Some(false)
            &&& linked <==> end == LinkNext::<A, E>::End(
                LinkEnd::Ready { refused: answers.jls == Some(false) },
            )
        }),
{
    crate::link::link_connects_once(addr, client.server_name, client.zero_rtt, answers);
    crate::link::link_runs_its_course(addr, client.server_name, client.zero_rtt, answers);
}

} // verus!
