use shadowquic::basic;
use shadowquic::config::{CongestionControl, ReceiveWindows, ShadowQuicClientCfg};
use shadowquic::endpoint::{EndpointSetup, SetupStep};
use shadowquic::error::SError;
use shadowquic::link::{Link, LinkEvent};
use shadowquic::msgs::{tcp_request, udp_request, ProxyRequest};
use shadowquic::outbound::{Dial, DialEvent, DialNext, ServerAddr, ShadowQuicClient};
use shadowquic::session::{Handle, HandleEvent, HandleNext, Prepare, ReceiverDue};
use shadowquic::stream::{Relay, StreamTask};

type Client = ShadowQuicClient<u32, &'static str>;
type BasicClient = basic::ShadowQuicClient<u32, &'static str>;
type DialResult = Result<(), SError<&'static str>>;

const WINDOWS: ReceiveWindows = ReceiveWindows { stream: 1_000_000, datagram: 1_000_000 };

fn cfg(zero_rtt: bool, protect: bool) -> ShadowQuicClientCfg {
    ShadowQuicClientCfg {
        jls_pwd: "secret".to_string(),
        jls_iv: "user".to_string(),
        addr: "proxy.example:443".to_string(),
        server_name: "www.example".to_string(),
        alpn: vec!["h3".to_string()],
        initial_mtu: 1300,
        min_mtu: 1290,
        keep_alive_interval: 0,
        congestion_control: CongestionControl::Cubic,
        zero_rtt,
        over_stream: true,
        protect_path: if protect { Some("/run/protect".to_string()) } else { None },
    }
}

fn client(zero_rtt: bool) -> Client {
    Client::new(cfg(zero_rtt, false), &WINDOWS).unwrap()
}

fn resolve(zero_rtt: bool, endpoint_open: bool) -> Dial<u32> {
    Dial::Resolve {
        dst_addr: "proxy.example:443".to_string(),
        server_name: "www.example".to_string(),
        zero_rtt,
        endpoint_open,
    }
}

fn connect(zero_rtt: bool) -> Dial<u32> {
    Dial::Link(link_to(66, zero_rtt))
}

fn link_to(addr: u32, zero_rtt: bool) -> Link<u32> {
    Link::Connect { addr, server_name: "www.example".to_string(), zero_rtt }
}

/// The same once more, for the record.
fn copy(dial: &Dial<u32>) -> Dial<u32> {
    match dial {
        Dial::Resolve { dst_addr, server_name, zero_rtt, endpoint_open } => Dial::Resolve {
            dst_addr: dst_addr.clone(),
            server_name: server_name.clone(),
            zero_rtt: *zero_rtt,
            endpoint_open: *endpoint_open,
        },
        Dial::OpenEndpoint { addr, ipv6, server_name, zero_rtt } => Dial::OpenEndpoint {
            addr: *addr,
            ipv6: *ipv6,
            server_name: server_name.clone(),
            zero_rtt: *zero_rtt,
        },
        Dial::Link(Link::Connect { addr, server_name, zero_rtt }) => Dial::Link(Link::Connect {
            addr: *addr,
            server_name: server_name.clone(),
            zero_rtt: *zero_rtt,
        }),
        Dial::Link(Link::IntoZeroRtt) => Dial::Link(Link::IntoZeroRtt),
        Dial::Link(Link::AwaitPeer) => Dial::Link(Link::AwaitPeer),
        Dial::Link(Link::WatchEarlyData) => Dial::Link(Link::WatchEarlyData),
        Dial::Link(Link::ReadJls) => Dial::Link(Link::ReadJls),
        Dial::Link(Link::Close) => Dial::Link(Link::Close),
        Dial::SpawnReceiver => Dial::SpawnReceiver,
    }
}

/// Runs a dial against a server with an address of IPv6 and one of IPv4.
fn run_to(
    mut dial: Dial<u32>,
    connecting: Result<(), &'static str>,
    early: bool,
    jls: Option<bool>,
) -> (Vec<Dial<u32>>, DialResult) {
    let mut done = vec![];
    loop {
        done.push(copy(&dial));
        let event = match &dial {
            Dial::Resolve { .. } => DialEvent::Resolved {
                addrs: vec![
                    ServerAddr { addr: 66, ipv6: true },
                    ServerAddr { addr: 44, ipv6: false },
                ],
            },
            Dial::OpenEndpoint { .. } => DialEvent::EndpointOpen,
            Dial::Link(Link::Connect { .. }) => DialEvent::Link(LinkEvent::Connecting(connecting)),
            Dial::Link(Link::IntoZeroRtt) => DialEvent::Link(LinkEvent::ZeroRtt(early)),
            Dial::Link(Link::AwaitPeer) => DialEvent::Link(LinkEvent::PeerReady(Ok(()))),
            Dial::Link(Link::WatchEarlyData) => DialEvent::Link(LinkEvent::Watching),
            Dial::Link(Link::ReadJls) => DialEvent::Link(LinkEvent::Jls(jls)),
            Dial::Link(Link::Close) => DialEvent::Link(LinkEvent::Closed),
            Dial::SpawnReceiver => DialEvent::ReceiverRuns,
        };
        match dial.after(event) {
            DialNext::More(next) => dial = next,
            DialNext::Done(end) => return (done, end),
        }
    }
}

fn run(dial: Dial<u32>, early: bool, jls: Option<bool>) -> (Vec<Dial<u32>>, DialResult) {
    run_to(dial, Ok(()), early, jls)
}

#[test]
fn new_client_takes_over_its_settings() {
    let fresh = client(true);
    assert_eq!(fresh.quic_conn, None);
    assert_eq!(fresh.quic_end, None);
    assert_eq!(fresh.dst_addr, "proxy.example:443");
    assert_eq!(fresh.server_name, "www.example");
    assert!(fresh.zero_rtt);
    assert!(fresh.over_stream);
    assert_eq!(fresh.protect_path, None);
    assert!(format!("{:?}", fresh.quic_config).contains("min_mtu: 1290,"));
}

#[test]
fn client_on_a_socket_sets_up_from_there() {
    let (mut fresh, setup) = Client::new_with_socket(cfg(false, true), &WINDOWS).unwrap();
    assert_eq!(setup, EndpointSetup::from_socket());
    assert_eq!(fresh.protect_path, Some("/run/protect".to_string()));
    fresh.set_endpoint("end");
    assert_eq!(fresh.quic_end, Some("end"));
    assert_eq!(fresh.get_conn(), resolve(false, true));
}

#[test]
fn endpoint_is_protected_where_configured() {
    let open = client(false);
    assert_eq!(
        open.init_endpoint(true),
        EndpointSetup { protect: false, step: SetupStep::CreateSocket { ipv6: true } }
    );
    let guarded = Client::new(cfg(false, true), &WINDOWS).unwrap();
    assert_eq!(
        guarded.init_endpoint(false),
        EndpointSetup { protect: true, step: SetupStep::CreateSocket { ipv6: false } }
    );
}

#[test]
fn first_dial_opens_the_endpoint() {
    let (done, end) = run(client(false).get_conn(), false, Some(true));
    assert_eq!(
        done,
        vec![
            resolve(false, false),
            Dial::OpenEndpoint {
                addr: 66,
                ipv6: true,
                server_name: "www.example".to_string(),
                zero_rtt: false
            },
            connect(false),
            Dial::Link(Link::AwaitPeer),
            Dial::Link(Link::ReadJls),
            Dial::SpawnReceiver
        ]
    );
    assert_eq!(end, Ok(()));
}

#[test]
fn later_dial_reuses_the_endpoint() {
    let mut again = client(true);
    again.set_endpoint("end");
    assert_eq!(again.prepare_conn(false), Prepare::Dial);
    assert_eq!(again.store_conn::<&str>(Ok(7)), Ok(ReceiverDue));
    assert_eq!(again.prepare_conn(true), Prepare::Dial);
    let (done, end) = run(again.get_conn(), true, None);
    assert_eq!(
        done,
        vec![
            resolve(true, true),
            connect(true),
            Dial::Link(Link::IntoZeroRtt),
            Dial::Link(Link::WatchEarlyData),
            Dial::Link(Link::ReadJls),
            Dial::SpawnReceiver
        ]
    );
    assert_eq!(end, Ok(()));
}

#[test]
fn only_the_first_address_is_tried() {
    let (done, end) = run_to(client(true).get_conn(), Err("no route"), true, Some(true));
    assert_eq!(done.len(), 3);
    assert_eq!(done[0], resolve(true, false));
    assert_eq!(done[2], connect(true));
    assert_eq!(end, Err(SError::External("no route")));
}

#[test]
fn false_peer_is_shut_out() {
    for zero_rtt in [false, true] {
        for early in [false, true] {
            let (done, end) = run(client(zero_rtt).get_conn(), early, Some(false));
            assert_eq!(done.last(), Some(&Dial::Link(Link::Close)));
            assert_eq!(end, Err(SError::JlsAuthFailed));
        }
    }
}

#[test]
fn dial_error_is_passed_on() {
    let event = DialEvent::Link(LinkEvent::Connecting(Err("bad name")));
    assert_eq!(connect(false).after(event), DialNext::Done(Err(SError::External("bad name"))));
}

#[test]
fn connection_is_kept_until_closed() {
    let mut one = client(false);
    assert_eq!(one.prepare_conn(false), Prepare::Dial);
    assert_eq!(one.store_conn::<&str>(Ok(7)), Ok(ReceiverDue));
    assert_eq!(one.prepare_conn(false), Prepare::Ready);
    assert_eq!(one.quic_conn, Some(7));
    assert_eq!(one.prepare_conn(true), Prepare::Dial);
    assert_eq!(one.quic_conn, None);
    let failed: Result<u32, SError<&str>> = Err(SError::JlsAuthFailed);
    assert_eq!(one.store_conn(failed), Err(SError::JlsAuthFailed));
    assert_eq!(one.quic_conn, None);
    assert_eq!(one.prepare_conn(false), Prepare::Dial);
}

#[test]
fn client_opens_streams_itself_and_minds_control() {
    let one = client(false);
    assert_eq!(
        one.handle(ProxyRequest::Tcp { dst: "a:1" }),
        Handle::Prepare { req: tcp_request("a:1"), relay: Relay::Copy, open_first: true }
    );
    assert_eq!(
        one.handle(ProxyRequest::Udp { dst: "b:2", control: true }),
        Handle::Prepare {
            req: udp_request("b:2", true),
            relay: Relay::Join { over_stream: true, control: true },
            open_first: true
        }
    );
}

#[test]
fn request_to_a_false_peer_is_not_sent() {
    let one = client(false);
    let (_, dialed) = run(one.get_conn(), false, Some(false));
    let handle = one.handle(ProxyRequest::Tcp { dst: "a:1" });
    let next = handle.after(HandleEvent::Prepared(dialed));
    assert_eq!(next, HandleNext::Failed(SError::JlsAuthFailed));
}

#[test]
fn basic_client_takes_over_its_settings() {
    let (mut fresh, setup) = BasicClient::new(cfg(true, false)).unwrap();
    assert_eq!(fresh.quic_conn, None);
    assert_eq!(fresh.quic_end, None);
    assert_eq!(
        setup,
        EndpointSetup { protect: false, step: SetupStep::OpenClient { ipv6: true } }
    );
    assert_eq!(setup, BasicClient::init_endpoint());
    fresh.set_endpoint("end");
    assert_eq!(fresh.quic_end, Some("end"));
    assert_eq!(fresh.dst_addr, "proxy.example:443");
    assert_eq!(fresh.server_name, "www.example");
    assert!(fresh.zero_rtt);
    assert!(fresh.over_stream);
    assert!(format!("{:?}", fresh.quic_config).contains("min_mtu: 1200,"));
    let locate = fresh.dial();
    assert_eq!(locate.dst_addr, "proxy.example:443");
    assert_eq!(locate.found(5), link_to(5, true));
}

#[test]
fn basic_client_keeps_a_refused_connection() {
    let (mut one, _) = BasicClient::new(cfg(false, false)).unwrap();
    assert_eq!(one.prepare_conn(false), Prepare::Dial);
    assert_eq!(one.store_conn::<&str>(Err("lost")), Err(SError::External("lost")));
    assert_eq!(one.quic_conn, None);
    assert_eq!(one.store_conn::<&str>(Ok((7, true))), Ok(ReceiverDue));
    assert_eq!(one.quic_conn, Some(7));
    assert_eq!(one.prepare_conn(true), Prepare::Dial);
    assert_eq!(one.quic_conn, None);
}

#[test]
fn basic_client_leaves_streams_to_the_task() {
    let (one, _) = BasicClient::new(cfg(false, false)).unwrap();
    let handle = one.handle(ProxyRequest::Udp { dst: "b:2", control: true });
    let relay = Relay::Join { over_stream: true, control: false };
    let req = udp_request("b:2", true);
    assert_eq!(handle, Handle::Prepare { req, relay, open_first: false });
    let next: HandleNext<_, &str> = handle.after(HandleEvent::Prepared(Ok(())));
    let req = udp_request("b:2", true);
    assert_eq!(next, HandleNext::Spawn(StreamTask::Open { req, relay }));
}
