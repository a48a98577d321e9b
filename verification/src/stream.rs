//! The life of one stream: it is opened, carries one request, and is then used.
use vstd::prelude::*;

use crate::error::SError;
use crate::msgs::{tcp_request, udp_request, ProxyRequest, SQCmd, SQReq};

verus! {

/// Packets that wait in each direction of a UDP association before its sender
/// is held up.
pub const UDP_CHANNEL_CAPACITY: usize = 10;

/// What a stream is used for once its request is sent.
#[derive(Clone, Copy, PartialEq, Eq, Structural, Debug)]
pub enum Relay {
    /// Nothing here: the stream is handed out.
    HandOut,
    /// Bytes are copied both ways between the stream and the TCP session.
    Copy,
    /// Packets are carried both ways until one way fails or all are done, and,
    /// with `control`, until [`control_verdict`] finds the end of the control
    /// stream.
    Join { over_stream: bool, control: bool },
    /// Packets are carried both ways by a task of its own, between the server
    /// and two channels of [`UDP_CHANNEL_CAPACITY`], which are handed out.
    Spawn { over_stream: bool },
}

/// The next thing to do for a stream.
#[derive(PartialEq, Eq, Debug)]
pub enum StreamTask<D> {
    /// Open the stream.
    Open { req: SQReq<D>, relay: Relay },
    /// Send the request.
    Send { req: SQReq<D>, relay: Relay },
    /// Use the stream.
    Use(Relay),
}

/// What came of the last thing that was done.
#[derive(PartialEq, Eq, Debug)]
pub enum StreamEvent<E> {
    Opened(Result<(), E>),
    Sent(Result<(), SError<E>>),
    Used(Result<(), SError<E>>),
}

/// Where a stream stands after an event.
#[derive(PartialEq, Eq, Debug)]
pub enum StreamNext<D, E> {
    /// There is more to do.
    More(StreamTask<D>),
    /// The stream has served, or failed.
    Done(Result<(), SError<E>>),
}

/// The request that a proxy request leads to.
pub open spec fn request_for<D>(request: ProxyRequest<D>, over_stream: bool) -> SQReq<D> {
    match request {
        ProxyRequest::Tcp { dst } => SQReq { cmd: SQCmd::Connect, dst },
        ProxyRequest::Udp { dst, .. } => SQReq {
            cmd: crate::msgs::udp_command(over_stream),
            dst,
        },
    }
}

/// The use that a proxy request makes of its stream, where control streams are
/// minded or not.
pub open spec fn relay_for<D>(
    request: ProxyRequest<D>,
    over_stream: bool,
    mind_control: bool,
) -> Relay {
    match request {
        ProxyRequest::Tcp { .. } => Relay::Copy,
        ProxyRequest::Udp { control, .. } => Relay::Join {
            over_stream,
            control: control && mind_control,
        },
    }
}

/// Finds out what a proxy request leads to.
pub fn plan<D>(request: ProxyRequest<D>, over_stream: bool, mind_control: bool) -> (res: (
    SQReq<D>,
    Relay,
))
    ensures
        res.0 == request_for(request, over_stream),
        res.1 == relay_for(request, over_stream, mind_control),
{
    match request {
        ProxyRequest::Tcp { dst } => (tcp_request(dst), Relay::Copy),
        ProxyRequest::Udp { dst, control } => (
            udp_request(dst, over_stream),
            Relay::Join { over_stream, control: control && mind_control },
        ),
    }
}

/// Tells what a UDP association makes of its control stream: `None` where there
/// is none, else what came of reading a byte from it, an error by its text. The
/// stream carries no data, so that it ends the association either way.
pub fn control_verdict<E>(read: Option<Result<(), String>>) -> (res: Result<(), SError<E>>)
    ensures
        match read {
            None => res == Ok::<(), SError<E>>(()),
            Some(Err(text)) => res == Err::<(), SError<E>>(SError::UDPSessionClosed(text)),
            Some(Ok(_)) => res matches Err(SError::UDPSessionClosed(text)) && text@
                == "unexpected data received from socks control stream"@,
        },
{
    match read {
        None => Ok(()),
        Some(Err(text)) => Err(SError::UDPSessionClosed(text)),
        Some(Ok(_)) => Err(
            SError::UDPSessionClosed(
                "unexpected data received from socks control stream".to_owned(),
            ),
        ),
    }
}

impl<D> StreamTask<D> {
    /// Whether `event` is an answer to what there was to do. Starting a task is
    /// not known to fail.
    pub open spec fn answered_by<E>(self, event: StreamEvent<E>) -> bool {
        match self {
            StreamTask::Open { .. } => event is Opened,
            StreamTask::Send { .. } => event is Sent,
            StreamTask::Use(Relay::Spawn { .. }) => event matches StreamEvent::Used(Ok(_)),
            StreamTask::Use(_) => event is Used,
        }
    }

    /// Where the stream stands after `event`; what is no answer leaves it where
    /// it was.
    pub open spec fn next<E>(self, event: StreamEvent<E>) -> StreamNext<D, E> {
        match (self, event) {
            (
                StreamTask::Open { req, relay },
                StreamEvent::Opened(Ok(_)),
            ) => StreamNext::More(StreamTask::Send { req, relay }),
            (
                StreamTask::Send { relay, .. },
                StreamEvent::Sent(Ok(_)),
            ) if relay !is HandOut => StreamNext::More(StreamTask::Use(relay)),
            (StreamTask::Open { .. }, StreamEvent::Opened(Err(err))) => StreamNext::Done(
                Err(SError::External(err)),
            ),
            (StreamTask::Send { .. }, StreamEvent::Sent(Ok(_))) => StreamNext::Done(Ok(())),
            (StreamTask::Send { .. }, StreamEvent::Sent(Err(err))) => StreamNext::Done(Err(err)),
            (StreamTask::Use(_), StreamEvent::Used(res)) => StreamNext::Done(res),
            (task, _) => StreamNext::More(task),
        }
    }

    /// How many more things there can be to do.
    pub open spec fn rank(self) -> nat {
        match self {
            StreamTask::Open { .. } => 3,
            StreamTask::Send { .. } => 2,
            StreamTask::Use(_) => 1,
        }
    }

    /// Moves on after `event`.
    pub fn after<E>(self, event: StreamEvent<E>) -> (res: StreamNext<D, E>)
        requires
            self.answered_by(event),
        ensures
            res == self.next(event),
            res matches StreamNext::More(task) ==> task.rank() < self.rank(),
    {
        match (self, event) {
            (
                StreamTask::Open { req, relay },
                StreamEvent::Opened(Ok(_)),
            ) => StreamNext::More(StreamTask::Send { req, relay }),
            (StreamTask::Open { .. }, StreamEvent::Opened(Err(err))) => StreamNext::Done(
                Err(SError::External(err)),
            ),
            (
                StreamTask::Send { relay: Relay::HandOut, .. },
                StreamEvent::Sent(Ok(_)),
            ) => StreamNext::Done(Ok(())),
            (
                StreamTask::Send { relay, .. },
                StreamEvent::Sent(Ok(_)),
            ) => StreamNext::More(StreamTask::Use(relay)),
            (StreamTask::Send { .. }, StreamEvent::Sent(Err(err))) => StreamNext::Done(Err(err)),
            (StreamTask::Use(_), StreamEvent::Used(res)) => StreamNext::Done(res),
            (task, _) => StreamNext::More(task),
        }
    }
}

/// All that the outside has to say to one stream.
pub struct StreamAnswers<E> {
    pub opened: Result<(), E>,
    pub sent: Result<(), SError<E>>,
    pub used: Result<(), SError<E>>,
}

impl<E> StreamAnswers<E> {
    /// The answer to one thing to do.
    pub open spec fn to<D>(self, task: StreamTask<D>) -> StreamEvent<E> {
        match task {
            StreamTask::Open { .. } => StreamEvent::Opened(self.opened),
            StreamTask::Send { .. } => StreamEvent::Sent(self.sent),
            StreamTask::Use(_) => StreamEvent::Used(self.used),
        }
    }

    /// How a stream ends that is to be opened: with the first error.
    pub open spec fn outcome(self, relay: Relay) -> Result<(), SError<E>> {
        if let Err(err) = self.opened {
            Err(SError::External(err))
        } else if let Err(err) = self.sent {
            Err(err)
        } else if relay is HandOut {
            Ok(())
        } else {
            self.used
        }
    }

    /// What is done for a stream that is to be opened, in order.
    pub open spec fn script<D>(self, req: SQReq<D>, relay: Relay) -> Seq<StreamTask<D>> {
        let open = StreamTask::Open { req, relay };
        let send = StreamTask::Send { req, relay };
        if self.opened is Err {
            seq![open]
        } else if self.sent is Err || relay is HandOut {
            seq![open, send]
        } else {
            seq![open, send, StreamTask::Use(relay)]
        }
    }
}

/// What is done from `task` on, in order, and how it ends.
pub open spec fn stream_run<D, E>(task: StreamTask<D>, answers: StreamAnswers<E>) -> (
    Seq<StreamTask<D>>,
    StreamNext<D, E>,
)
    decreases task.rank(),
{
    match task.next(answers.to(task)) {
        StreamNext::More(next) => {
            if next.rank() < task.rank() {
                let (rest, end) = stream_run(next, answers);
                (seq![task] + rest, end)
            } else {
                (seq![task], StreamNext::More(next))
            }
        },
        end => (seq![task], end),
    }
}

/// A stream carries its request once, right after it was opened, and is used
/// only after the request was sent; the first error ends it.
pub proof fn stream_follows_script<D, E>(req: SQReq<D>, relay: Relay, answers: StreamAnswers<E>)
    ensures
        stream_run(StreamTask::Open { req, relay }, answers) == (
            answers.script(req, relay),
            StreamNext::<D, E>::Done(answers.outcome(relay)),
        ),
{
    reveal_with_fuel(stream_run, 4);
    assert(stream_run(StreamTask::Open { req, relay }, answers).0 =~= answers.script(req, relay));
}

/// The server is asked for a TCP connection exactly where a TCP stream is to be
/// carried, and for an association over streams exactly where packets are to be
/// carried and travel on streams. The destination is the requested one. Neither
/// depends on anything else.
pub proof fn request_asks_for_what_is_carried<D>(request: ProxyRequest<D>, over_stream: bool)
    ensures
        ({
            let req = request_for(request, over_stream);
            &&& req.cmd == SQCmd::Connect <==> request is Tcp
            &&& req.cmd == SQCmd::AssociatOverStream <==> request is Udp && over_stream
            &&& req.cmd == SQCmd::AssociatOverDatagram <==> request is Udp && !over_stream
            &&& match request {
                ProxyRequest::Tcp { dst } => req.dst == dst,
                ProxyRequest::Udp { dst, .. } => req.dst == dst,
            }
        }),
{
}

/// Bytes are copied exactly for a TCP stream. Packets are carried the way that
/// the server was asked for, and a control stream is watched exactly where there
/// is one and it is minded.
pub proof fn relay_fits_the_request<D>(
    request: ProxyRequest<D>,
    over_stream: bool,
    mind_control: bool,
)
    ensures
        ({
            let relay = relay_for(request, over_stream, mind_control);
            &&& relay == Relay::Copy <==> request is Tcp
            &&& match request {
                ProxyRequest::Tcp { .. } => true,
                ProxyRequest::Udp { control, .. } => {
                    &&& relay matches Relay::Join { over_stream: on_streams, control: watched }
                    &&& on_streams == over_stream
                    &&& on_streams <==> request_for(request, over_stream).cmd
                        == SQCmd::AssociatOverStream
                    &&& watched <==> control && mind_control
                },
            }
        }),
{
}

/// A stream takes every answer to what there is to do, and nothing is lost on
/// the way: what is sent is what it was opened for, and so is its use.
pub proof fn stream_moves_by_its_answers<D, E>(
    req: SQReq<D>,
    relay: Relay,
    opened: Result<(), E>,
    sent: Result<(), SError<E>>,
    used: Result<(), SError<E>>,
)
    ensures
        ({
            let open = StreamTask::Open { req, relay };
            &&& open.answered_by(StreamEvent::Opened(opened))
            &&& match opened {
                Ok(_) => open.next(StreamEvent::<E>::Opened(opened)) == StreamNext::<D, E>::More(
                    StreamTask::Send { req, relay },
                ),
                Err(err) => open.next(StreamEvent::Opened(opened)) == StreamNext::<D, E>::Done(
                    Err(SError::External(err)),
                ),
            }
        }),
        ({
            let send = StreamTask::Send { req, relay };
            &&& send.answered_by(StreamEvent::Sent(sent))
            &&& match sent {
                Ok(_) => {
                    let next = send.next(StreamEvent::Sent(sent));
                    &&& relay == Relay::HandOut <==> next == StreamNext::<D, E>::Done(Ok(()))
                    &&& relay != Relay::HandOut <==> next == StreamNext::<D, E>::More(
                        StreamTask::Use(relay),
                    )
                },
                Err(err) => send.next(StreamEvent::Sent(sent)) == StreamNext::<D, E>::Done(
                    Err(err),
                ),
            }
        }),
        ({
            let usage = StreamTask::<D>::Use(relay);
            &&& relay is Spawn || usage.answered_by(StreamEvent::Used(used))
            &&& used is Ok ==> usage.answered_by(StreamEvent::Used(used))
            &&& usage.next(StreamEvent::Used(used)) == StreamNext::<D, E>::Done(used)
        }),
{
}

/// The course of a stream that is to be opened, by the answers of the outside: it
/// is opened first; the request it was opened for is sent exactly where it opened;
/// it is used, as it was meant to be, exactly where the request was sent and it
/// is not handed out. It ends with the first error there is.
pub proof fn stream_runs_its_course<D, E>(
    req: SQReq<D>,
    relay: Relay,
    answers: StreamAnswers<E>,
)
    ensures
        ({
            let (done, end) = stream_run(StreamTask::Open { req, relay }, answers);
            &&& done.len() >= 1 && done[0] == (StreamTask::Open { req, relay })
            &&& done.len() >= 2 <==> answers.opened is Ok
            &&& done.len() >= 2 ==> done[1] == (StreamTask::Send { req, relay })
            &&& done.len() >= 3 <==> answers.opened is Ok && answers.sent is Ok && relay
                != Relay::HandOut
            &&& done.len() >= 3 ==> done[2] == StreamTask::<D>::Use(relay)
            &&& done.len() <= 3
            &&& end matches StreamNext::Done(res)
            &&& match (answers.opened, answers.sent) {
                (Err(err), _) => res == Err::<(), SError<E>>(SError::External(err)),
                (_, Err(err)) => res == Err::<(), SError<E>>(err),
                _ => if relay == Relay::HandOut {
                    res is Ok
                } else {
                    res == answers.used
                },
            }
        }),
{
    stream_follows_script(req, relay, answers);
}

} // verus!
