//! The QUIC and TLS configuration objects of `quinn` and `rustls` (the builds
//! with JLS authentication), as far as a client fills them.
//!
//! The objects are opaque. What one holds is read through a name that maps it to
//! a record of plain values: [`mtu_settings`], [`transport_settings`],
//! [`tls_settings`], [`session_tls_settings`], [`client_settings`]. The records of
//! MTU discovery and of the transport have every parameter of their objects,
//! durations in whole seconds or milliseconds. The record of TLS has the
//! parameters that this crate sets or speaks of; the others are never touched.
//! Nothing in this file is proved: each function is a single step of the outside
//! crates, and its contract says what the step does to the record.
use std::sync::Arc;
use std::time::Duration;

use vstd::prelude::*;

use quinn_jls::congestion::{BbrConfig, CubicConfig, NewRenoConfig};
use quinn_jls::crypto::rustls::{NoInitialCipherSuite, QuicClientConfig};
use quinn_jls::{MtuDiscoveryConfig, TransportConfig};
use rustls_jls::jls::JlsClientConfig;

use crate::config::{CongestionControl, QUIC_INT_BOUND};

verus! {

/// Smallest UDP payload that every QUIC path carries.
pub const SMALLEST_MTU: u16 = 1200;

/// Parameters of path MTU discovery.
pub struct MtuSettings {
    /// Seconds from one completed search to the next.
    pub interval_secs: u64,
    /// Largest UDP payload that is searched for.
    pub upper_bound: u16,
    /// Change of the size below which a search ends.
    pub minimum_change: u16,
    /// Seconds to wait after a black hole was met.
    pub black_hole_cooldown_secs: u64,
    /// Whether a black hole resets the size to the smallest.
    pub black_hole_resets: bool,
}

/// Parameters of the QUIC transport.
pub struct TransportSettings {
    pub max_bidi_streams: u64,
    pub max_uni_streams: u64,
    /// Milliseconds of silence after which a connection ends.
    pub max_idle_millis: Option<u64>,
    /// Bytes that the peer may have in flight on one stream.
    pub stream_receive_window: u64,
    /// Bytes that the peer may have in flight on all streams.
    pub receive_window: u64,
    pub send_window: u64,
    /// Whether streams of one priority take turns.
    pub send_fairness: bool,
    /// Reordering in packets from which on a packet counts as lost.
    pub packet_threshold: u32,
    /// Reordering in time from which on a packet counts as lost, as a factor of
    /// the round trip time: the bits of that number in IEEE 754 single precision.
    pub time_threshold_bits: u32,
    /// Round trip time in milliseconds before one was measured.
    pub initial_rtt_millis: u64,
    pub initial_mtu: u16,
    pub min_mtu: u16,
    pub mtu_discovery: Option<MtuSettings>,
    /// Whether packets are padded to the largest size.
    pub pad_to_mtu: bool,
    /// Whether the peer is told how often to acknowledge.
    pub ack_frequency: bool,
    /// Timeouts in a row that count as persistent congestion.
    pub persistent_congestion_threshold: u32,
    pub keep_alive_millis: Option<u64>,
    /// Bytes of the handshake that are kept while they are out of order.
    pub crypto_buffer_size: usize,
    /// Whether the spin bit may be set.
    pub allow_spin: bool,
    pub datagram_receive_buffer: Option<usize>,
    pub datagram_send_buffer: usize,
    /// The controller in use, with its own defaults.
    pub congestion: CongestionControl,
    /// Whether the system may cut packets to size.
    pub segmentation_offload: bool,
    /// Whether events are written to a qlog stream.
    pub qlog: bool,
}

/// The JLS user a client authenticates as.
pub struct JlsCredentials {
    pub pwd: Seq<char>,
    pub iv: Seq<char>,
}

/// Parameters of the TLS session.
pub struct TlsSettings {
    /// Application protocols offered, as bytes.
    pub alpn: Seq<Seq<u8>>,
    /// Whether data may be sent in the first flight.
    pub early_data: bool,
    /// The user to authenticate as; `None` where JLS is off.
    pub jls: Option<JlsCredentials>,
    /// Whether the trusted roots are those of `webpki_roots::TLS_SERVER_ROOTS`.
    pub webpki_roots: bool,
    /// Whether the client can present a certificate.
    pub client_auth: bool,
    /// Whether the cryptographic provider has the cipher suite that QUIC starts
    /// with, AES-128-GCM with SHA-256, in a form for QUIC.
    pub initial_suite: bool,
}

/// The parts of a client configuration that a client fills.
pub struct ClientSettings {
    pub tls: TlsSettings,
    pub transport: TransportSettings,
}

/// `value`, or the smallest QUIC payload where `value` is less.
pub open spec fn at_least_smallest_mtu(value: u16) -> u16 {
    if value < SMALLEST_MTU {
        SMALLEST_MTU
    } else {
        value
    }
}

/// What MTU discovery does unless told otherwise.
pub open spec fn default_mtu_settings() -> MtuSettings {
    MtuSettings {
        interval_secs: 600,
        upper_bound: 1452,
        minimum_change: 20,
        black_hole_cooldown_secs: 60,
        black_hole_resets: true,
    }
}

/// What the transport does unless told otherwise.
pub open spec fn default_transport_settings() -> TransportSettings {
    TransportSettings {
        max_bidi_streams: 100,
        max_uni_streams: 100,
        max_idle_millis: Some(30_000),
        stream_receive_window: 1_250_000,
        receive_window: 0x3fff_ffff_ffff_ffff,
        send_window: 10_000_000,
        send_fairness: true,
        packet_threshold: 3,
        // 9/8
        time_threshold_bits: 0x3f90_0000,
        initial_rtt_millis: 333,
        initial_mtu: SMALLEST_MTU,
        min_mtu: SMALLEST_MTU,
        mtu_discovery: Some(default_mtu_settings()),
        pad_to_mtu: false,
        ack_frequency: false,
        persistent_congestion_threshold: 3,
        keep_alive_millis: None,
        crypto_buffer_size: 16_384,
        allow_spin: true,
        datagram_receive_buffer: Some(1_250_000),
        datagram_send_buffer: 1_048_576,
        congestion: CongestionControl::Cubic,
        segmentation_offload: true,
        qlog: false,
    }
}

/// What a TLS configuration holds that no client has filled yet, `suite` telling
/// whether the provider has the cipher suite that QUIC starts with: the public
/// web roots, no client certificate, no protocol, no early data and no JLS.
pub open spec fn default_tls_settings(suite: bool) -> TlsSettings {
    TlsSettings {
        alpn: Seq::empty(),
        early_data: false,
        jls: None,
        webpki_roots: true,
        client_auth: false,
        initial_suite: suite,
    }
}

/// `quinn_jls::MtuDiscoveryConfig`.
#[verifier::external_type_specification]
#[verifier::external_body]
pub struct ExMtuDiscoveryConfig(MtuDiscoveryConfig);

/// `quinn_jls::TransportConfig`.
#[verifier::external_type_specification]
#[verifier::external_body]
pub struct ExTransportConfig(TransportConfig);

/// `rustls_jls::ClientConfig`.
#[verifier::external_type_specification]
#[verifier::external_body]
pub struct ExTlsClientConfig(rustls_jls::ClientConfig);

/// `quinn_jls::crypto::rustls::QuicClientConfig`.
#[verifier::external_type_specification]
#[verifier::external_body]
pub struct ExQuicClientConfig(QuicClientConfig);

/// `quinn_jls::crypto::rustls::NoInitialCipherSuite`.
#[verifier::external_type_specification]
#[verifier::external_body]
pub struct ExNoInitialCipherSuite(NoInitialCipherSuite);

/// `quinn_jls::ClientConfig`.
#[verifier::external_type_specification]
#[verifier::external_body]
pub struct ExClientConfig(quinn_jls::ClientConfig);

/// The parameters that an MTU discovery configuration holds.
pub uninterp spec fn mtu_settings(config: MtuDiscoveryConfig) -> MtuSettings;

/// The parameters that a transport configuration holds.
pub uninterp spec fn transport_settings(config: TransportConfig) -> TransportSettings;

/// The parameters that a TLS configuration holds.
pub uninterp spec fn tls_settings(config: rustls_jls::ClientConfig) -> TlsSettings;

/// The parameters of the TLS configuration that a QUIC session uses.
pub uninterp spec fn session_tls_settings(config: QuicClientConfig) -> TlsSettings;

/// The parameters that a client configuration holds.
pub uninterp spec fn client_settings(config: quinn_jls::ClientConfig) -> ClientSettings;

/// `MtuDiscoveryConfig::default`: the values of [`default_mtu_settings`].
#[verifier::external_body]
pub(crate) fn default_mtu_discovery() -> (res: MtuDiscoveryConfig)
    ensures
        mtu_settings(res) == default_mtu_settings(),
{
    MtuDiscoveryConfig::default()
}

/// `MtuDiscoveryConfig::black_hole_cooldown`: sets that duration, given in
/// seconds, and leaves the rest.
#[verifier::external_body]
pub(crate) fn set_black_hole_cooldown(config: &mut MtuDiscoveryConfig, secs: u64)
    ensures
        mtu_settings(*final(config)) == (MtuSettings {
            black_hole_cooldown_secs: secs,
            ..mtu_settings(*old(config))
        }),
{
    config.black_hole_cooldown(Duration::from_secs(secs));
}

/// `MtuDiscoveryConfig::interval`: sets that duration, given in seconds, and
/// leaves the rest.
#[verifier::external_body]
pub(crate) fn set_discovery_interval(config: &mut MtuDiscoveryConfig, secs: u64)
    ensures
        mtu_settings(*final(config)) == (MtuSettings {
            interval_secs: secs,
            ..mtu_settings(*old(config))
        }),
{
    config.interval(Duration::from_secs(secs));
}

/// `TransportConfig::default`: the values of [`default_transport_settings`].
#[verifier::external_body]
pub(crate) fn default_transport() -> (res: TransportConfig)
    ensures
        transport_settings(res) == default_transport_settings(),
{
    TransportConfig::default()
}

/// `TransportConfig::max_concurrent_bidi_streams`: sets that limit and leaves the
/// rest.
#[verifier::external_body]
pub(crate) fn set_max_bidi_streams(config: &mut TransportConfig, limit: u32)
    ensures
        transport_settings(*final(config)) == (TransportSettings {
            max_bidi_streams: limit as u64,
            ..transport_settings(*old(config))
        }),
{
    config.max_concurrent_bidi_streams(limit.into());
}

/// `TransportConfig::max_concurrent_uni_streams`: sets that limit and leaves the
/// rest.
#[verifier::external_body]
pub(crate) fn set_max_uni_streams(config: &mut TransportConfig, limit: u32)
    ensures
        transport_settings(*final(config)) == (TransportSettings {
            max_uni_streams: limit as u64,
            ..transport_settings(*old(config))
        }),
{
    config.max_concurrent_uni_streams(limit.into());
}

/// `TransportConfig::mtu_discovery_config` with `Some`: switches MTU discovery on
/// with these parameters and leaves the rest.
#[verifier::external_body]
pub(crate) fn set_mtu_discovery(config: &mut TransportConfig, discovery: MtuDiscoveryConfig)
    ensures
        transport_settings(*final(config)) == (TransportSettings {
            mtu_discovery: Some(mtu_settings(discovery)),
            ..transport_settings(*old(config))
        }),
{
    config.mtu_discovery_config(Some(discovery));
}

/// `TransportConfig::min_mtu`: sets that size, raised to 1200 where it is less,
/// and leaves the rest.
#[verifier::external_body]
pub(crate) fn set_min_mtu(config: &mut TransportConfig, mtu: u16)
    ensures
        transport_settings(*final(config)) == (TransportSettings {
            min_mtu: at_least_smallest_mtu(mtu),
            ..transport_settings(*old(config))
        }),
{
    config.min_mtu(mtu);
}

/// `TransportConfig::initial_mtu`: sets that size, raised to 1200 where it is
/// less, and leaves the rest.
#[verifier::external_body]
pub(crate) fn set_initial_mtu(config: &mut TransportConfig, mtu: u16)
    ensures
        transport_settings(*final(config)) == (TransportSettings {
            initial_mtu: at_least_smallest_mtu(mtu),
            ..transport_settings(*old(config))
        }),
{
    config.initial_mtu(mtu);
}

/// `TransportConfig::stream_receive_window`: sets that window and leaves the
/// rest. The window is first turned into a QUIC integer, which fails from 2^62
/// on.
#[verifier::external_body]
pub(crate) fn set_stream_receive_window(config: &mut TransportConfig, window: u64)
    requires
        window < QUIC_INT_BOUND,
    ensures
        transport_settings(*final(config)) == (TransportSettings {
            stream_receive_window: window,
            ..transport_settings(*old(config))
        }),
{
    config.stream_receive_window(window.try_into().unwrap());
}

/// `TransportConfig::datagram_receive_buffer_size`: sets that size, or refuses
/// datagrams with `None`, and leaves the rest.
#[verifier::external_body]
pub(crate) fn set_datagram_receive_buffer(config: &mut TransportConfig, size: Option<usize>)
    ensures
        transport_settings(*final(config)) == (TransportSettings {
            datagram_receive_buffer: size,
            ..transport_settings(*old(config))
        }),
{
    config.datagram_receive_buffer_size(size);
}

/// `TransportConfig::keep_alive_interval`: sets that interval, given in
/// milliseconds, or sends no keep-alive packets with `None`, and leaves the rest.
#[verifier::external_body]
pub(crate) fn set_keep_alive(config: &mut TransportConfig, millis: Option<u64>)
    ensures
        transport_settings(*final(config)) == (TransportSettings {
            keep_alive_millis: millis,
            ..transport_settings(*old(config))
        }),
{
    config.keep_alive_interval(millis.map(Duration::from_millis));
}

/// `TransportConfig::congestion_controller_factory` with `CubicConfig::default`:
/// selects Cubic and leaves the rest.
#[verifier::external_body]
pub(crate) fn use_cubic(config: &mut TransportConfig)
    ensures
        transport_settings(*final(config)) == (TransportSettings {
            congestion: CongestionControl::Cubic,
            ..transport_settings(*old(config))
        }),
{
    config.congestion_controller_factory(Arc::new(CubicConfig::default()));
}

/// `TransportConfig::congestion_controller_factory` with
/// `NewRenoConfig::default`: selects NewReno and leaves the rest.
#[verifier::external_body]
pub(crate) fn use_new_reno(config: &mut TransportConfig)
    ensures
        transport_settings(*final(config)) == (TransportSettings {
            congestion: CongestionControl::NewReno,
            ..transport_settings(*old(config))
        }),
{
    config.congestion_controller_factory(Arc::new(NewRenoConfig::default()));
}

/// `TransportConfig::congestion_controller_factory` with `BbrConfig::default`:
/// selects BBR and leaves the rest.
#[verifier::external_body]
pub(crate) fn use_bbr(config: &mut TransportConfig)
    ensures
        transport_settings(*final(config)) == (TransportSettings {
            congestion: CongestionControl::Bbr,
            ..transport_settings(*old(config))
        }),
{
    config.congestion_controller_factory(Arc::new(BbrConfig::default()));
}

/// `rustls_jls::ClientConfig::builder`, `with_root_certificates` with the roots
/// of `webpki_roots::TLS_SERVER_ROOTS`, and `with_no_client_auth`: a TLS
/// configuration that trusts these roots, has no client certificate, offers no
/// application protocol, sends no early data and has JLS off.
///
/// The provider of the cryptography is that of the process. Which cipher suites
/// it has is left open here. The builder panics where the process has none that
/// is usable; `rustls_jls` is built with the provider of `ring` alone, which is
/// then installed.
#[verifier::external_body]
pub(crate) fn new_tls_config() -> (res: rustls_jls::ClientConfig)
    ensures
        tls_settings(res) == default_tls_settings(tls_settings(res).initial_suite),
{
    let roots = webpki_roots::TLS_SERVER_ROOTS.into();
    rustls_jls::ClientConfig::builder()
        .with_root_certificates(rustls_jls::RootCertStore { roots })
        .with_no_client_auth()
}

/// The field `alpn_protocols` of `rustls_jls::ClientConfig`: replaces the
/// protocols offered and leaves the rest.
#[verifier::external_body]
pub(crate) fn set_alpn(config: &mut rustls_jls::ClientConfig, protocols: Vec<Vec<u8>>)
    ensures
        tls_settings(*final(config)) == (TlsSettings {
            alpn: protocols@.map_values(|p: Vec<u8>| p@),
            ..tls_settings(*old(config))
        }),
{
    config.alpn_protocols = protocols;
}

/// The field `enable_early_data` of `rustls_jls::ClientConfig`: replaces it and
/// leaves the rest.
#[verifier::external_body]
pub(crate) fn set_early_data(config: &mut rustls_jls::ClientConfig, enable: bool)
    ensures
        tls_settings(*final(config)) == (TlsSettings {
            early_data: enable,
            ..tls_settings(*old(config))
        }),
{
    config.enable_early_data = enable;
}

/// `JlsClientConfig::new`, stored in the field `jls_config` of
/// `rustls_jls::ClientConfig`: switches JLS on for this user and leaves the rest.
#[verifier::external_body]
pub(crate) fn set_jls_user(config: &mut rustls_jls::ClientConfig, pwd: &str, iv: &str)
    ensures
        tls_settings(*final(config)) == (TlsSettings {
            jls: Some(JlsCredentials { pwd: pwd@, iv: iv@ }),
            ..tls_settings(*old(config))
        }),
{
    config.jls_config = JlsClientConfig::new(pwd, iv);
}

/// `QuicClientConfig::try_from`: keeps the TLS configuration as it is, and fails
/// where its provider lacks the cipher suite that QUIC starts with.
#[verifier::external_body]
pub(crate) fn quic_session_config(tls: rustls_jls::ClientConfig) -> (res: Result<
    QuicClientConfig,
    NoInitialCipherSuite,
>)
    ensures
        res is Ok <==> tls_settings(tls).initial_suite,
        res matches Ok(config) ==> session_tls_settings(config) == tls_settings(tls),
{
    QuicClientConfig::try_from(tls)
}

/// `quinn_jls::ClientConfig::new`: the given session configuration with the
/// default transport.
#[verifier::external_body]
pub(crate) fn new_client_config(session: QuicClientConfig) -> (res: quinn_jls::ClientConfig)
    ensures
        client_settings(res) == (ClientSettings {
            tls: session_tls_settings(session),
            transport: default_transport_settings(),
        }),
{
    quinn_jls::ClientConfig::new(Arc::new(session))
}

/// `quinn_jls::ClientConfig::transport_config`: replaces the transport
/// configuration and leaves the rest.
#[verifier::external_body]
pub(crate) fn set_transport(config: &mut quinn_jls::ClientConfig, transport: TransportConfig)
    ensures
        client_settings(*final(config)) == (ClientSettings {
            transport: transport_settings(transport),
            ..client_settings(*old(config))
        }),
{
    config.transport_config(Arc::new(transport));
}

} // verus!
