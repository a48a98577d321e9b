//! What can go wrong.
use vstd::prelude::*;

verus! {

/// Why a client configuration could not be made.
#[derive(Clone, Copy, PartialEq, Eq, Structural, Debug)]
pub enum ConfigError {
    /// The cryptographic provider lacks the cipher suite that QUIC starts with.
    NoInitialCipherSuite,
}

/// A fault found while a socket or endpoint was brought up, beside those that
/// the operating system reports.
#[derive(Clone, Copy, PartialEq, Eq, Structural, Debug)]
pub enum IoFault {
    /// There is no async runtime to run an endpoint on.
    NoRuntime,
    /// The socket was not exempted from the VPN in time.
    ProtectTimeout,
}

impl IoFault {
    /// The text of the fault.
    pub fn message(&self) -> (res: &'static str)
        ensures
            *self is NoRuntime ==> res@ == "no async runtime found"@,
            *self is ProtectTimeout ==> res@ == "protecting socket timeout"@,
    {
        match self {
            IoFault::NoRuntime => "no async runtime found",
            IoFault::ProtectTimeout => "protecting socket timeout",
        }
    }
}

/// Why a request of a client failed. `E` is the error of the operating system
/// or of the QUIC implementation, which is passed on as it came.
#[derive(PartialEq, Eq, Debug)]
pub enum SError<E> {
    /// An error from outside.
    External(E),
    /// A fault of its own kind.
    Io(IoFault),
    /// The peer did not authenticate: it is not the server, or password or
    /// initialisation vector are wrong.
    JlsAuthFailed,
    /// The UDP association ended, with the reason.
    UDPSessionClosed(String),
}

} // verus!
