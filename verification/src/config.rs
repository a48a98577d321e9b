//! What a user configures.
use vstd::prelude::*;

verus! {

/// The congestion controllers a client can be told to use.
#[derive(Clone, Copy, PartialEq, Eq, Structural, Debug)]
pub enum CongestionControl {
    Cubic,
    NewReno,
    Bbr,
}

/// Settings of one client.
#[derive(Debug)]
pub struct ShadowQuicClientCfg {
    /// Password of the JLS user.
    pub jls_pwd: String,
    /// Initialisation vector (user name) of the JLS user.
    pub jls_iv: String,
    /// Address of the server.
    pub addr: String,
    /// Name the server is expected to have.
    pub server_name: String,
    /// Application protocols offered, in order of preference.
    pub alpn: Vec<String>,
    /// UDP payload size to start with.
    pub initial_mtu: u16,
    /// UDP payload size the path is taken to carry in any case.
    pub min_mtu: u16,
    /// Milliseconds between keep-alive packets; zero sends none.
    pub keep_alive_interval: u32,
    pub congestion_control: CongestionControl,
    /// Whether to send data before the handshake is complete.
    pub zero_rtt: bool,
    /// Whether UDP packets travel on streams instead of datagrams.
    pub over_stream: bool,
    /// Where a new socket is handed in to be exempted from a VPN, if anywhere.
    pub protect_path: Option<String>,
}

/// How much a peer may have in flight towards this client.
#[derive(Clone, Copy, PartialEq, Eq, Structural, Debug)]
pub struct ReceiveWindows {
    /// Bytes on one stream.
    pub stream: u64,
    /// Bytes in datagrams that were not read yet.
    pub datagram: u64,
}

/// QUIC integers are below this bound.
pub const QUIC_INT_BOUND: u64 = 0x4000_0000_0000_0000;

impl ReceiveWindows {
    /// Whether QUIC can express the windows.
    pub open spec fn wf(self) -> bool {
        self.stream < QUIC_INT_BOUND
    }

    /// Tells whether QUIC can express the windows.
    pub fn is_wf(&self) -> (res: bool)
        ensures
            res == self.wf(),
    {
        self.stream < QUIC_INT_BOUND
    }
}

/// Every stream window that a QUIC integer can hold is accepted, whatever the
/// other window is, and no greater one.
pub proof fn windows_of_62_bits_are_accepted(windows: ReceiveWindows)
    ensures
        windows.wf() <==> windows.stream <= 4_611_686_018_427_387_903,
{
}

} // verus!
