use std::sync::Arc;
use std::time::Instant;

use quinn_jls::congestion::{Bbr, Cubic, NewReno};
use quinn_proto_jls::{Connection, Endpoint, EndpointConfig};
use rustls_jls::CipherSuite;

use shadowquic::config::{CongestionControl, ReceiveWindows, ShadowQuicClientCfg};
use shadowquic::error::{ConfigError, IoFault};
use shadowquic::tuning::{
    basic_transport, client_config, tls_config, tls_config_from, tuned_transport,
};
use shadowquic::{basic, outbound};

type Client = outbound::ShadowQuicClient<u32, &'static str>;
type BasicClient = basic::ShadowQuicClient<u32, &'static str>;

const WINDOWS: ReceiveWindows = ReceiveWindows { stream: 12_000_000, datagram: 4_000_000 };

fn cfg() -> ShadowQuicClientCfg {
    ShadowQuicClientCfg {
        jls_pwd: "secret".to_string(),
        jls_iv: "user".to_string(),
        addr: "proxy.example:443".to_string(),
        server_name: "www.example".to_string(),
        alpn: vec!["h3".to_string(), "\u{fc}ber".to_string()],
        initial_mtu: 1300,
        min_mtu: 1250,
        keep_alive_interval: 15_000,
        congestion_control: CongestionControl::Bbr,
        zero_rtt: true,
        over_stream: false,
        protect_path: None,
    }
}

fn shown(value: &impl std::fmt::Debug) -> String {
    format!("{:?}", value)
}

/// A connection of this configuration that has not sent anything yet.
fn connection(config: quinn_jls::ClientConfig) -> Connection {
    let mut endpoint = Endpoint::new(Arc::new(EndpointConfig::default()), None, true);
    let remote = "127.0.0.1:4433".parse().unwrap();
    endpoint.connect(Instant::now(), config, remote, "www.example").unwrap().1
}

fn controller(config: quinn_jls::ClientConfig) -> CongestionControl {
    let state = connection(config).congestion_state().clone_box().into_any();
    if state.is::<Cubic>() {
        CongestionControl::Cubic
    } else if state.is::<NewReno>() {
        CongestionControl::NewReno
    } else {
        assert!(state.is::<Bbr>());
        CongestionControl::Bbr
    }
}

#[test]
fn tls_carries_protocols_user_and_early_data() {
    let tls = tls_config(&cfg());
    assert_eq!(tls.alpn_protocols, vec![b"h3".to_vec(), vec![0xc3, 0xbc, b'b', b'e', b'r']]);
    assert!(tls.enable_early_data);
    assert!(tls.jls_config.enable);
    assert_eq!(tls.jls_config.user.user_pwd, "secret");
    assert_eq!(tls.jls_config.user.user_iv, "user");
}

#[test]
fn tls_trusts_public_roots_and_has_no_certificate() {
    let tls = tls_config(&cfg());
    let roots = format!("({} roots)", webpki_roots::TLS_SERVER_ROOTS.len());
    assert!(shown(&tls).contains(&roots));
    assert!(!tls.client_auth_cert_resolver.has_certs());
}

#[test]
fn tls_without_zero_rtt_has_no_early_data() {
    let mut plain = cfg();
    plain.zero_rtt = false;
    plain.alpn = vec![];
    let tls = tls_config(&plain);
    assert!(!tls.enable_early_data);
    assert!(tls.alpn_protocols.is_empty());
}

/// What no client changes.
const UNTOUCHED: [&str; 17] = [
    "max_idle_timeout: Some(30000),",
    " receive_window: 4611686018427387903,",
    "send_window: 10000000,",
    "send_fairness: true,",
    "packet_threshold: 3,",
    "time_threshold: 1.125,",
    "initial_rtt: 333ms,",
    "upper_bound: 1452,",
    "minimum_change: 20,",
    "blackhole_reset_mtu: true",
    "pad_to_mtu: false,",
    "ack_frequency_config: None,",
    "persistent_congestion_threshold: 3,",
    "crypto_buffer_size: 16384,",
    "allow_spin: true,",
    "datagram_send_buffer_size: 1048576,",
    "enable_segmentation_offload: true",
];

#[test]
fn other_parameters_keep_their_defaults() {
    assert_eq!(f32::from_bits(0x3f90_0000), 1.125);
    for text in [shown(&tuned_transport(&cfg(), &WINDOWS)), shown(&basic_transport(&cfg()))] {
        for part in UNTOUCHED {
            assert!(text.contains(part), "{} in {}", part, text);
        }
        assert!(!text.contains("qlog_stream: true"));
    }
}

#[test]
fn tuned_transport_has_all_parameters() {
    let text = shown(&tuned_transport(&cfg(), &WINDOWS));
    for part in [
        "max_concurrent_bidi_streams: 500,",
        "max_concurrent_uni_streams: 500,",
        "stream_receive_window: 12000000,",
        "initial_mtu: 1300,",
        "min_mtu: 1250,",
        "interval: 90s,",
        "black_hole_cooldown: 120s,",
        "keep_alive_interval: Some(15s),",
        "datagram_receive_buffer_size: Some(4000000),",
        "send_window: 10000000,",
        "datagram_send_buffer_size: 1048576,",
    ] {
        assert!(text.contains(part), "{} in {}", part, text);
    }
}

#[test]
fn small_mtu_is_raised() {
    let mut small = cfg();
    small.initial_mtu = 576;
    small.min_mtu = 0;
    let text = shown(&tuned_transport(&small, &WINDOWS));
    assert!(text.contains("initial_mtu: 1200,"));
    assert!(text.contains("min_mtu: 1200,"));
}

#[test]
fn zero_keep_alive_sends_none() {
    let mut silent = cfg();
    silent.keep_alive_interval = 0;
    assert!(shown(&tuned_transport(&silent, &WINDOWS)).contains("keep_alive_interval: None,"));
    silent.keep_alive_interval = 1;
    assert!(shown(&tuned_transport(&silent, &WINDOWS)).contains("keep_alive_interval: Some(1ms),"));
}

#[test]
fn basic_transport_keeps_defaults() {
    let text = shown(&basic_transport(&cfg()));
    for part in [
        "max_concurrent_bidi_streams: 500,",
        "max_concurrent_uni_streams: 100,",
        "stream_receive_window: 1250000,",
        "initial_mtu: 1300,",
        "min_mtu: 1200,",
        "interval: 600s,",
        "black_hole_cooldown: 60s,",
        "keep_alive_interval: None,",
        "datagram_receive_buffer_size: Some(1250000),",
        "send_window: 10000000,",
        "datagram_send_buffer_size: 1048576,",
    ] {
        assert!(text.contains(part), "{} in {}", part, text);
    }
}

#[test]
fn controller_is_the_configured_one() {
    for control in [CongestionControl::Cubic, CongestionControl::NewReno, CongestionControl::Bbr] {
        let mut one = cfg();
        one.congestion_control = control;
        assert_eq!(controller(Client::gen_quic_cfg(&one, &WINDOWS).unwrap()), control);
        let client = BasicClient::new(one).unwrap().0;
        assert_eq!(controller(client.quic_config), control);
    }
}

#[test]
fn client_config_uses_both_parts() {
    let config = Client::gen_quic_cfg(&cfg(), &WINDOWS).unwrap();
    assert!(shown(&config).contains("stream_receive_window: 12000000,"));
    let conn = connection(config);
    assert!(conn.crypto_session().is_jls_enabled());
    assert_eq!(conn.crypto_session().is_jls(), None);
    assert_eq!(conn.current_mtu(), 1300);
}

/// A TLS configuration that trusts nobody, of a provider with or without the
/// cipher suite that QUIC starts with.
fn bare_tls(initial_suite: bool) -> rustls_jls::ClientConfig {
    let mut provider = rustls_jls::crypto::ring::default_provider();
    provider.cipher_suites.retain(|suite| {
        initial_suite || suite.suite() != CipherSuite::TLS13_AES_128_GCM_SHA256
    });
    rustls_jls::ClientConfig::builder_with_provider(Arc::new(provider))
        .with_safe_default_protocol_versions()
        .unwrap()
        .with_root_certificates(rustls_jls::RootCertStore::empty())
        .with_no_client_auth()
}

#[test]
fn provider_without_initial_suite_is_refused() {
    let refused = client_config(bare_tls(false), basic_transport(&cfg()));
    assert_eq!(refused.unwrap_err(), ConfigError::NoInitialCipherSuite);
    assert!(client_config(bare_tls(true), basic_transport(&cfg())).is_ok());
    assert!(client_config(tls_config(&cfg()), basic_transport(&cfg())).is_ok());
}

#[test]
fn client_is_made_exactly_where_the_provider_has_the_initial_suite() {
    let refused = Some(ConfigError::NoInitialCipherSuite);
    assert_eq!(Client::gen_quic_cfg_from(bare_tls(false), &cfg(), &WINDOWS).err(), refused);
    assert_eq!(Client::new_from(bare_tls(false), cfg(), &WINDOWS).err(), refused);
    assert_eq!(Client::new_with_socket_from(bare_tls(false), cfg(), &WINDOWS).err(), refused);
    assert_eq!(BasicClient::new_from(bare_tls(false), cfg()).err(), refused);
    assert!(Client::gen_quic_cfg_from(bare_tls(true), &cfg(), &WINDOWS).is_ok());
    assert!(Client::new_from(bare_tls(true), cfg(), &WINDOWS).is_ok());
    assert!(Client::new_with_socket_from(bare_tls(true), cfg(), &WINDOWS).is_ok());
    assert!(BasicClient::new_from(bare_tls(true), cfg()).is_ok());
}

#[test]
fn client_is_made_from_the_tls_of_the_process() {
    assert!(Client::gen_quic_cfg(&cfg(), &WINDOWS).is_ok());
    assert!(Client::new(cfg(), &WINDOWS).is_ok());
    assert!(Client::new_with_socket(cfg(), &WINDOWS).is_ok());
    assert!(BasicClient::new(cfg()).is_ok());
}

#[test]
fn tls_is_filled_and_keeps_the_rest() {
    let tls = tls_config_from(bare_tls(true), &cfg());
    assert_eq!(tls.alpn_protocols, vec![b"h3".to_vec(), vec![0xc3, 0xbc, b'b', b'e', b'r']]);
    assert!(tls.enable_early_data);
    assert_eq!(tls.jls_config.user.user_pwd, "secret");
    assert_eq!(tls.jls_config.user.user_iv, "user");
    assert!(shown(&tls).contains("(0 roots)"));
    assert!(!tls.client_auth_cert_resolver.has_certs());
}

#[test]
fn windows_are_bounded() {
    assert!(WINDOWS.is_wf());
    assert!(ReceiveWindows { stream: (1 << 62) - 1, datagram: u64::MAX }.is_wf());
    assert!(!ReceiveWindows { stream: 1 << 62, datagram: 0 }.is_wf());
    let widest = ReceiveWindows { stream: (1 << 62) - 1, datagram: 1 };
    let text = shown(&tuned_transport(&cfg(), &widest));
    assert!(text.contains("stream_receive_window: 4611686018427387903,"));
}

#[test]
fn faults_have_their_text() {
    assert_eq!(IoFault::NoRuntime.message(), "no async runtime found");
    assert_eq!(IoFault::ProtectTimeout.message(), "protecting socket timeout");
}
