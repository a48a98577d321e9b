//! What a client asks of the server, and what it is asked for itself.
use vstd::prelude::*;

verus! {

/// What a stream is opened for.
#[derive(Clone, Copy, PartialEq, Eq, Structural, Debug)]
pub enum SQCmd {
    /// A TCP connection.
    Connect,
    /// A UDP association whose packets travel in datagrams.
    AssociatOverDatagram,
    /// A UDP association whose packets travel on streams.
    AssociatOverStream,
}

/// The request that stands first on a stream. `D` is the form in which the
/// destination is written.
#[derive(PartialEq, Eq, Debug)]
pub struct SQReq<D> {
    pub cmd: SQCmd,
    pub dst: D,
}

/// What a client is asked for.
#[derive(PartialEq, Eq, Debug)]
pub enum ProxyRequest<D> {
    /// Carry a TCP stream.
    Tcp { dst: D },
    /// Carry UDP packets; `control` tells that a stream comes with the request
    /// whose end is the end of the association.
    Udp { dst: D, control: bool },
}

/// The command of a UDP association.
pub open spec fn udp_command(over_stream: bool) -> SQCmd {
    if over_stream {
        SQCmd::AssociatOverStream
    } else {
        SQCmd::AssociatOverDatagram
    }
}

/// The request for a TCP connection.
pub fn tcp_request<D>(dst: D) -> (res: SQReq<D>)
    ensures
        res == (SQReq { cmd: SQCmd::Connect, dst }),
{
    SQReq { cmd: SQCmd::Connect, dst }
}

/// The request for a UDP association.
pub fn udp_request<D>(dst: D, over_stream: bool) -> (res: SQReq<D>)
    ensures
        res == (SQReq { cmd: udp_command(over_stream), dst }),
{
    let cmd = if over_stream {
        SQCmd::AssociatOverStream
    } else {
        SQCmd::AssociatOverDatagram
    };
    SQReq { cmd, dst }
}

/// The server can tell from the command what is asked for and how packets are
/// to travel.
pub proof fn commands_are_distinct(a: bool, b: bool)
    ensures
        udp_command(a) == udp_command(b) <==> a == b,
        udp_command(a) != SQCmd::Connect,
        udp_command(a) == SQCmd::AssociatOverStream <==> a,
        udp_command(a) == SQCmd::AssociatOverDatagram <==> !a,
{
}

} // verus!
