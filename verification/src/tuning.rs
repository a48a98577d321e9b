//! Turns the settings of a user into a QUIC client configuration.
use vstd::prelude::*;

use quinn_jls::TransportConfig;

use crate::config::{CongestionControl, ReceiveWindows, ShadowQuicClientCfg};
use crate::error::ConfigError;
use crate::quic::{
    default_mtu_discovery, default_transport, new_client_config, new_tls_config,
    quic_session_config, set_alpn, set_black_hole_cooldown, set_datagram_receive_buffer,
    set_discovery_interval, set_early_data, set_initial_mtu, set_jls_user, set_keep_alive,
    set_max_bidi_streams, set_max_uni_streams, set_min_mtu, set_mtu_discovery,
    set_stream_receive_window, set_transport, use_bbr, use_cubic, use_new_reno,
};
use crate::quic::{JlsCredentials, MtuSettings, TlsSettings, TransportSettings};

verus! {

/// Streams of each kind that the server may have open at once.
pub const MAX_STREAMS: u32 = 500;

/// Seconds that MTU discovery rests after it met a black hole.
pub const BLACK_HOLE_COOLDOWN_SECS: u64 = 120;

/// Seconds from one MTU search to the next.
pub const MTU_SEARCH_INTERVAL_SECS: u64 = 90;

/// Application protocol names as TLS sends them, in UTF-8.
pub open spec fn alpn_wire(names: Seq<String>) -> Seq<Seq<u8>> {
    names.map_values(|name: String| vstd::utf8::encode_utf8(name@))
}

/// The TLS parameters of a client that starts from those of `base`: protocols,
/// early data and JLS user are the client's own, and the rest is kept.
pub open spec fn tls_over(base: TlsSettings, cfg: ShadowQuicClientCfg) -> TlsSettings {
    TlsSettings {
        alpn: alpn_wire(cfg.alpn@),
        early_data: cfg.zero_rtt,
        jls: Some(JlsCredentials { pwd: cfg.jls_pwd@, iv: cfg.jls_iv@ }),
        ..base
    }
}

/// The keep-alive interval in milliseconds; zero in the configuration is none.
pub open spec fn keep_alive_for(cfg: ShadowQuicClientCfg) -> Option<u64> {
    if cfg.keep_alive_interval == 0 {
        None
    } else {
        Some(cfg.keep_alive_interval as u64)
    }
}

/// The transport parameters of a fully tuned client; what is not named here is
/// as by default.
pub open spec fn tuned_transport_for(
    cfg: ShadowQuicClientCfg,
    windows: ReceiveWindows,
) -> TransportSettings {
    TransportSettings {
        max_bidi_streams: MAX_STREAMS as u64,
        max_uni_streams: MAX_STREAMS as u64,
        mtu_discovery: Some(
            MtuSettings {
                interval_secs: MTU_SEARCH_INTERVAL_SECS,
                black_hole_cooldown_secs: BLACK_HOLE_COOLDOWN_SECS,
                ..crate::quic::default_mtu_settings()
            },
        ),
        min_mtu: crate::quic::at_least_smallest_mtu(cfg.min_mtu),
        initial_mtu: crate::quic::at_least_smallest_mtu(cfg.initial_mtu),
        stream_receive_window: windows.stream,
        datagram_receive_buffer: Some(windows.datagram as usize),
        keep_alive_millis: keep_alive_for(cfg),
        congestion: cfg.congestion_control,
        ..crate::quic::default_transport_settings()
    }
}

/// The transport parameters of a client that is tuned in these points only.
pub open spec fn basic_transport_for(cfg: ShadowQuicClientCfg) -> TransportSettings {
    TransportSettings {
        max_bidi_streams: MAX_STREAMS as u64,
        initial_mtu: crate::quic::at_least_smallest_mtu(cfg.initial_mtu),
        congestion: cfg.congestion_control,
        ..crate::quic::default_transport_settings()
    }
}

/// Only the receiving side is widened, for fast downloads: what may wait to be
/// sent stays as it is by default.
pub proof fn only_receiving_is_widened(cfg: ShadowQuicClientCfg, windows: ReceiveWindows)
    ensures
        ({
            let tuned = tuned_transport_for(cfg, windows);
            let default = crate::quic::default_transport_settings();
            &&& tuned.send_window == default.send_window
            &&& tuned.datagram_send_buffer == default.datagram_send_buffer
        }),
{
}

/// The plainer transport departs from the default in the streams that the server
/// may open, the size to start with and the controller alone. Of MTU discovery,
/// the fuller one changes the two times alone.
pub proof fn other_parameters_stay_default(cfg: ShadowQuicClientCfg, windows: ReceiveWindows)
    ensures
        ({
            let default = crate::quic::default_transport_settings();
            default == (TransportSettings {
                max_bidi_streams: default.max_bidi_streams,
                initial_mtu: default.initial_mtu,
                congestion: default.congestion,
                ..basic_transport_for(cfg)
            })
        }),
        ({
            let default = crate::quic::default_mtu_settings();
            &&& tuned_transport_for(cfg, windows).mtu_discovery matches Some(discovery)
            &&& default == (MtuSettings {
                interval_secs: default.interval_secs,
                black_hole_cooldown_secs: default.black_hole_cooldown_secs,
                ..discovery
            })
        }),
{
}

/// Keep-alive packets are sent exactly where an interval is configured, and
/// then at that interval.
pub proof fn keep_alive_is_off_at_zero(cfg: ShadowQuicClientCfg, windows: ReceiveWindows)
    ensures
        ({
            let keep_alive = tuned_transport_for(cfg, windows).keep_alive_millis;
            &&& keep_alive is None <==> cfg.keep_alive_interval == 0
            &&& keep_alive matches Some(millis) ==> millis == cfg.keep_alive_interval
        }),
{
}

/// Whatever sizes are configured, no packet limit goes below what QUIC asks of
/// every path.
pub proof fn mtu_stays_sufficient(cfg: ShadowQuicClientCfg, windows: ReceiveWindows)
    ensures
        tuned_transport_for(cfg, windows).min_mtu >= crate::quic::SMALLEST_MTU,
        tuned_transport_for(cfg, windows).initial_mtu >= crate::quic::SMALLEST_MTU,
        basic_transport_for(cfg).min_mtu >= crate::quic::SMALLEST_MTU,
        basic_transport_for(cfg).initial_mtu >= crate::quic::SMALLEST_MTU,
{
}

/// The names as bytes.
fn alpn_bytes(names: &Vec<String>) -> (res: Vec<Vec<u8>>)
    ensures
        res@.map_values(|p: Vec<u8>| p@) == alpn_wire(names@),
{
    let mut res: Vec<Vec<u8>> = Vec::new();
    for i in 0..names.len()
        invariant
            res.len() == i,
            forall|j: int|
                0 <= j < i ==> #[trigger] res@[j]@ == vstd::utf8::encode_utf8(names@[j]@),
    {
        res.push(names[i].as_str().as_bytes_vec());
    }
    assert(res@.map_values(|p: Vec<u8>| p@) =~= alpn_wire(names@));
    res
}

/// The TLS configuration of a client that starts from `base`.
pub fn tls_config_from(base: rustls_jls::ClientConfig, cfg: &ShadowQuicClientCfg) -> (res:
    rustls_jls::ClientConfig)
    ensures
        crate::quic::tls_settings(res) == tls_over(crate::quic::tls_settings(base), *cfg),
{
    let mut tls = base;
    set_alpn(&mut tls, alpn_bytes(&cfg.alpn));
    set_early_data(&mut tls, cfg.zero_rtt);
    set_jls_user(&mut tls, cfg.jls_pwd.as_str(), cfg.jls_iv.as_str());
    tls
}

/// The TLS configuration of a client. Whether its provider has the cipher suite
/// that QUIC starts with depends on the process. In a process that has installed
/// a provider with no usable cipher suite or key exchange group, making a TLS
/// configuration panics.
pub fn tls_config(cfg: &ShadowQuicClientCfg) -> (res: rustls_jls::ClientConfig)
    ensures
        crate::quic::tls_settings(res) == tls_over(
            crate::quic::default_tls_settings(crate::quic::tls_settings(res).initial_suite),
            *cfg,
        ),
{
    tls_config_from(new_tls_config(), cfg)
}

/// Selects the controller, and leaves the other parameters as they are.
fn set_congestion_control(transport: &mut TransportConfig, control: CongestionControl)
    ensures
        crate::quic::transport_settings(*final(transport)) == (TransportSettings {
            congestion: control,
            ..crate::quic::transport_settings(*old(transport))
        }),
{
    match control {
        CongestionControl::Cubic => use_cubic(transport),
        CongestionControl::NewReno => use_new_reno(transport),
        CongestionControl::Bbr => use_bbr(transport),
    }
}

/// The transport configuration of a fully tuned client.
pub fn tuned_transport(cfg: &ShadowQuicClientCfg, windows: &ReceiveWindows) -> (res:
    TransportConfig)
    requires
        windows.wf(),
    ensures
        crate::quic::transport_settings(res) == tuned_transport_for(*cfg, *windows),
{
    let mut discovery = default_mtu_discovery();
    set_black_hole_cooldown(&mut discovery, BLACK_HOLE_COOLDOWN_SECS);
    set_discovery_interval(&mut discovery, MTU_SEARCH_INTERVAL_SECS);

    let mut transport = default_transport();
    set_max_bidi_streams(&mut transport, MAX_STREAMS);
    set_max_uni_streams(&mut transport, MAX_STREAMS);
    set_mtu_discovery(&mut transport, discovery);
    set_min_mtu(&mut transport, cfg.min_mtu);
    set_initial_mtu(&mut transport, cfg.initial_mtu);
    set_stream_receive_window(&mut transport, windows.stream);
    set_datagram_receive_buffer(&mut transport, Some(windows.datagram as usize));
    let keep_alive: Option<u64> = if cfg.keep_alive_interval > 0 {
        Some(cfg.keep_alive_interval as u64)
    } else {
        None
    };
    set_keep_alive(&mut transport, keep_alive);
    set_congestion_control(&mut transport, cfg.congestion_control);
    transport
}

/// The transport configuration of a client that is tuned in a few points only.
pub fn basic_transport(cfg: &ShadowQuicClientCfg) -> (res: TransportConfig)
    ensures
        crate::quic::transport_settings(res) == basic_transport_for(*cfg),
{
    let mut transport = default_transport();
    set_max_bidi_streams(&mut transport, MAX_STREAMS);
    set_initial_mtu(&mut transport, cfg.initial_mtu);
    set_congestion_control(&mut transport, cfg.congestion_control);
    transport
}

/// Joins the two configurations. This fails exactly where the TLS provider lacks
/// the cipher suite that QUIC starts with.
pub fn client_config(tls: rustls_jls::ClientConfig, transport: TransportConfig) -> (res: Result<
    quinn_jls::ClientConfig,
    ConfigError,
>)
    ensures
        match res {
            Ok(config) => {
                &&& crate::quic::tls_settings(tls).initial_suite
                &&& crate::quic::client_settings(config).tls == crate::quic::tls_settings(tls)
                &&& crate::quic::client_settings(config).transport
                    == crate::quic::transport_settings(transport)
            },
            Err(err) => {
                &&& !crate::quic::tls_settings(tls).initial_suite
                &&& err == ConfigError::NoInitialCipherSuite
            },
        },
{
    match quic_session_config(tls) {
        Ok(session) => {
            let mut config = new_client_config(session);
            set_transport(&mut config, transport);
            Ok(config)
        },
        Err(_) => Err(ConfigError::NoInitialCipherSuite),
    }
}

/// The JLS user is the configured one, the password as the password and the
/// initialisation vector as the vector. Early data goes by the configured 0-RTT,
/// and the protocols offered are the configured names in their order, each in
/// UTF-8. The rest is that of the base. No part depends on another setting.
pub proof fn tls_is_as_configured(base: TlsSettings, cfg: ShadowQuicClientCfg)
    ensures
        ({
            let tls = tls_over(base, cfg);
            &&& tls.jls matches Some(user)
            &&& user.pwd == cfg.jls_pwd@
            &&& user.iv == cfg.jls_iv@
            &&& tls.early_data == cfg.zero_rtt
            &&& tls.alpn.len() == cfg.alpn@.len()
            &&& forall|i: int|
                0 <= i < cfg.alpn@.len() ==> #[trigger] tls.alpn[i] == vstd::utf8::encode_utf8(
                    cfg.alpn@[i]@,
                )
            &&& tls.webpki_roots == base.webpki_roots
            &&& tls.client_auth == base.client_auth
            &&& tls.initial_suite == base.initial_suite
        }),
{
}

/// A client that starts from the TLS configuration of the process trusts the
/// public web roots and presents no certificate.
pub proof fn web_roots_are_trusted(suite: bool, cfg: ShadowQuicClientCfg)
    ensures
        ({
            let tls = tls_over(crate::quic::default_tls_settings(suite), cfg);
            &&& tls.webpki_roots
            &&& !tls.client_auth
            &&& tls.initial_suite == suite
        }),
{
}

/// Each parameter of the fuller transport goes by its own setting, whatever the
/// other settings are: 500 streams of each kind, a search every 90 seconds and
/// 120 seconds of rest, the two sizes as configured but at least 1200, the two
/// windows, the keep-alive interval unless it is zero, and the controller.
pub proof fn tuned_transport_is_as_configured(cfg: ShadowQuicClientCfg, windows: ReceiveWindows)
    ensures
        ({
            let transport = tuned_transport_for(cfg, windows);
            &&& transport.congestion == cfg.congestion_control
            &&& transport.max_bidi_streams == 500
            &&& transport.max_uni_streams == 500
            &&& transport.mtu_discovery matches Some(discovery)
            &&& discovery.interval_secs == 90
            &&& discovery.black_hole_cooldown_secs == 120
            &&& discovery.upper_bound == 1452
            &&& discovery.minimum_change == 20
            &&& discovery.black_hole_resets
            &&& transport.initial_mtu >= cfg.initial_mtu && transport.initial_mtu >= 1200
            &&& transport.initial_mtu == cfg.initial_mtu || transport.initial_mtu == 1200
            &&& transport.min_mtu >= cfg.min_mtu && transport.min_mtu >= 1200
            &&& transport.min_mtu == cfg.min_mtu || transport.min_mtu == 1200
            &&& transport.stream_receive_window == windows.stream
            &&& transport.datagram_receive_buffer == Some(windows.datagram as usize)
            &&& cfg.keep_alive_interval == 0 ==> transport.keep_alive_millis is None
            &&& cfg.keep_alive_interval > 0 ==> (transport.keep_alive_millis matches Some(millis)
                && millis == cfg.keep_alive_interval)
        }),
        ({
            let transport = tuned_transport_for(cfg, windows);
            &&& transport.max_idle_millis == Some(30_000u64)
            &&& transport.receive_window == 0x3fff_ffff_ffff_ffff
            &&& transport.send_window == 10_000_000
            &&& transport.send_fairness
            &&& transport.packet_threshold == 3
            &&& transport.time_threshold_bits == 0x3f90_0000
            &&& transport.initial_rtt_millis == 333
            &&& !transport.pad_to_mtu
            &&& !transport.ack_frequency
            &&& transport.persistent_congestion_threshold == 3
            &&& transport.crypto_buffer_size == 16_384
            &&& transport.allow_spin
            &&& transport.datagram_send_buffer == 1_048_576
            &&& transport.segmentation_offload
            &&& !transport.qlog
        }),
{
}

/// The plainer transport goes by the configured size and controller, whatever
/// the other settings are. It allows 500 streams in both directions, and all else
/// is the same for every client.
pub proof fn basic_transport_is_as_configured(cfg: ShadowQuicClientCfg)
    ensures
        ({
            let transport = basic_transport_for(cfg);
            &&& transport.congestion == cfg.congestion_control
            &&& transport.max_bidi_streams == 500
            &&& transport.initial_mtu >= cfg.initial_mtu && transport.initial_mtu >= 1200
            &&& transport.initial_mtu == cfg.initial_mtu || transport.initial_mtu == 1200
        }),
        ({
            let transport = basic_transport_for(cfg);
            &&& transport.max_uni_streams == 100
            &&& transport.max_idle_millis == Some(30_000u64)
            &&& transport.stream_receive_window == 1_250_000
            &&& transport.receive_window == 0x3fff_ffff_ffff_ffff
            &&& transport.send_window == 10_000_000
            &&& transport.send_fairness
            &&& transport.packet_threshold == 3
            &&& transport.time_threshold_bits == 0x3f90_0000
            &&& transport.initial_rtt_millis == 333
            &&& transport.min_mtu == 1200
            &&& transport.mtu_discovery matches Some(discovery)
            &&& discovery.interval_secs == 600
            &&& discovery.black_hole_cooldown_secs == 60
            &&& discovery.upper_bound == 1452
            &&& discovery.minimum_change == 20
            &&& discovery.black_hole_resets
            &&& !transport.pad_to_mtu
            &&& !transport.ack_frequency
            &&& transport.persistent_congestion_threshold == 3
            &&& transport.keep_alive_millis is None
            &&& transport.crypto_buffer_size == 16_384
            &&& transport.allow_spin
            &&& transport.datagram_receive_buffer == Some(1_250_000usize)
            &&& transport.datagram_send_buffer == 1_048_576
            &&& transport.segmentation_offload
            &&& !transport.qlog
        }),
{
}

} // verus!
