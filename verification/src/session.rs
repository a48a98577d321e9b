//! How a client serves one proxy request.
use vstd::prelude::*;

use crate::error::SError;
use crate::msgs::SQReq;
use crate::stream::{Relay, StreamAnswers, StreamTask};

verus! {

/// Whether a request can go ahead.
#[derive(Clone, Copy, PartialEq, Eq, Structural, Debug)]
pub enum Prepare {
    /// There is a connection.
    Ready,
    /// There is none: get one.
    Dial,
}

/// Says that a receiver for the UDP packets of a connection is to be started.
#[must_use]
#[derive(Clone, Copy, PartialEq, Eq, Structural, Debug)]
pub struct ReceiverDue;

/// The next thing to do for a proxy request.
#[derive(PartialEq, Eq, Debug)]
pub enum Handle<D> {
    /// See to it that there is a connection. `open_first` tells whether the
    /// stream is opened before a task takes over.
    Prepare { req: SQReq<D>, relay: Relay, open_first: bool },
    /// Open the stream.
    Open { req: SQReq<D>, relay: Relay },
}

/// What came of the last thing that was done.
#[derive(PartialEq, Eq, Debug)]
pub enum HandleEvent<E> {
    Prepared(Result<(), SError<E>>),
    Opened(Result<(), E>),
}

/// Where a proxy request stands after an event.
#[derive(PartialEq, Eq, Debug)]
pub enum HandleNext<D, E> {
    /// There is more to do.
    More(Handle<D>),
    /// The request is served: a task of its own is to carry on with the stream.
    /// How that ends is for the log only.
    Spawn(StreamTask<D>),
    /// The request failed.
    Failed(SError<E>),
}

impl<D> Handle<D> {
    /// Whether `event` is an answer to what there was to do.
    pub open spec fn answered_by<E>(self, event: HandleEvent<E>) -> bool {
        match self {
            Handle::Prepare { .. } => event is Prepared,
            Handle::Open { .. } => event is Opened,
        }
    }

    /// Where the request stands after `event`; what is no answer leaves it where
    /// it was.
    pub open spec fn next<E>(self, event: HandleEvent<E>) -> HandleNext<D, E> {
        match (self, event) {
            (Handle::Prepare { .. }, HandleEvent::Prepared(Err(err))) => HandleNext::Failed(err),
            (
                Handle::Prepare { req, relay, open_first: true },
                HandleEvent::Prepared(Ok(_)),
            ) => HandleNext::More(Handle::Open { req, relay }),
            (
                Handle::Prepare { req, relay, open_first: false },
                HandleEvent::Prepared(Ok(_)),
            ) => HandleNext::Spawn(StreamTask::Open { req, relay }),
            (Handle::Open { .. }, HandleEvent::Opened(Err(err))) => HandleNext::Failed(
                SError::External(err),
            ),
            (Handle::Open { req, relay }, HandleEvent::Opened(Ok(_))) => HandleNext::Spawn(
                StreamTask::Send { req, relay },
            ),
            (handle, _) => HandleNext::More(handle),
        }
    }

    /// How many more things there can be to do.
    pub open spec fn rank(self) -> nat {
        match self {
            Handle::Prepare { .. } => 2,
            Handle::Open { .. } => 1,
        }
    }

    /// Moves on after `event`.
    pub fn after<E>(self, event: HandleEvent<E>) -> (res: HandleNext<D, E>)
        requires
            self.answered_by(event),
        ensures
            res == self.next(event),
            res matches HandleNext::More(handle) ==> handle.rank() < self.rank(),
    {
        match (self, event) {
            (Handle::Prepare { .. }, HandleEvent::Prepared(Err(err))) => HandleNext::Failed(err),
            (
                Handle::Prepare { req, relay, open_first: true },
                HandleEvent::Prepared(Ok(_)),
            ) => HandleNext::More(Handle::Open { req, relay }),
            (
                Handle::Prepare { req, relay, open_first: false },
                HandleEvent::Prepared(Ok(_)),
            ) => HandleNext::Spawn(StreamTask::Open { req, relay }),
            (Handle::Open { .. }, HandleEvent::Opened(Err(err))) => HandleNext::Failed(
                SError::External(err),
            ),
            (Handle::Open { req, relay }, HandleEvent::Opened(Ok(_))) => HandleNext::Spawn(
                StreamTask::Send { req, relay },
            ),
            (handle, _) => HandleNext::More(handle),
        }
    }
}

/// All that the outside has to say to one proxy request.
pub struct HandleAnswers<E> {
    pub prepared: Result<(), SError<E>>,
    pub opened: Result<(), E>,
}

impl<E> HandleAnswers<E> {
    /// The answer to one thing to do.
    pub open spec fn to<D>(self, handle: Handle<D>) -> HandleEvent<E> {
        match handle {
            Handle::Prepare { .. } => HandleEvent::Prepared(self.prepared),
            Handle::Open { .. } => HandleEvent::Opened(self.opened),
        }
    }

    /// How the request ends: it fails where there is no connection, or where a
    /// stream that is opened first cannot be opened; else its task is left to
    /// send it, or to open the stream and send it.
    pub open spec fn outcome<D>(self, req: SQReq<D>, relay: Relay, open_first: bool) -> HandleNext<
        D,
        E,
    > {
        match (self.prepared, self.opened) {
            (Err(err), _) => HandleNext::Failed(err),
            (_, Err(err)) if open_first => HandleNext::Failed(SError::External(err)),
            _ => HandleNext::Spawn(
                if open_first {
                    StreamTask::Send { req, relay }
                } else {
                    StreamTask::Open { req, relay }
                },
            ),
        }
    }

    /// What is done for the request, in order.
    pub open spec fn script<D>(self, req: SQReq<D>, relay: Relay, open_first: bool) -> Seq<
        Handle<D>,
    > {
        let prepare = Handle::Prepare { req, relay, open_first };
        if self.prepared is Ok && open_first {
            seq![prepare, Handle::Open { req, relay }]
        } else {
            seq![prepare]
        }
    }
}

/// What is done from `handle` on, in order, and how it ends.
pub open spec fn handle_run<D, E>(handle: Handle<D>, answers: HandleAnswers<E>) -> (
    Seq<Handle<D>>,
    HandleNext<D, E>,
)
    decreases handle.rank(),
{
    match handle.next(answers.to(handle)) {
        HandleNext::More(next) => {
            if next.rank() < handle.rank() {
                let (rest, end) = handle_run(next, answers);
                (seq![handle] + rest, end)
            } else {
                (seq![handle], HandleNext::More(next))
            }
        },
        end => (seq![handle], end),
    }
}

/// A stream is opened only on a connection, and a task starts only after that.
pub proof fn handle_follows_script<D, E>(
    req: SQReq<D>,
    relay: Relay,
    open_first: bool,
    answers: HandleAnswers<E>,
)
    ensures
        handle_run(Handle::Prepare { req, relay, open_first }, answers) == (
            answers.script(req, relay, open_first),
            answers.outcome(req, relay, open_first),
        ),
{
    reveal_with_fuel(handle_run, 3);
    assert(handle_run(Handle::Prepare { req, relay, open_first }, answers).0 =~= answers.script(
        req,
        relay,
        open_first,
    ));
}

/// From the client and its task together, a request whose connection is there
/// goes the way of any stream: it is opened, the request is sent, and it is then
/// used, up to the first error, whoever of the two opens it.
pub proof fn task_continues_the_stream<D, E>(
    req: SQReq<D>,
    relay: Relay,
    open_first: bool,
    answers: HandleAnswers<E>,
    stream: StreamAnswers<E>,
)
    requires
        answers.prepared is Ok,
        answers.opened == stream.opened,
    ensures
        ({
            let (_, end) = handle_run(Handle::Prepare { req, relay, open_first }, answers);
            let before = if open_first {
                seq![StreamTask::Open { req, relay }]
            } else {
                seq![]
            };
            match end {
                HandleNext::Spawn(task) => {
                    let (rest, last) = crate::stream::stream_run(task, stream);
                    &&& before + rest == stream.script(req, relay)
                    &&& last == crate::stream::StreamNext::<D, E>::Done(stream.outcome(relay))
                },
                HandleNext::Failed(err) => {
                    &&& before == stream.script(req, relay)
                    &&& stream.outcome(relay) == Err::<(), SError<E>>(err)
                },
                HandleNext::More(_) => false,
            }
        }),
{
    handle_follows_script(req, relay, open_first, answers);
    crate::stream::stream_follows_script(req, relay, stream);
    if open_first && stream.opened is Ok {
        let send = StreamTask::Send { req, relay };
        let (rest, last) = crate::stream::stream_run(send, stream);
        assert(crate::stream::stream_run(StreamTask::Open { req, relay }, stream) == (
            seq![StreamTask::Open { req, relay }] + rest,
            last,
        ));
    } else if !open_first {
        let (rest, _) = crate::stream::stream_run(StreamTask::Open { req, relay }, stream);
        assert(Seq::<StreamTask<D>>::empty() + rest =~= rest);
    }
}

/// A proxy request takes every answer to what there is to do, and nothing is lost
/// on the way: what the task sends and how it uses the stream is what was asked
/// for. It opens the stream itself exactly where the client did not.
pub proof fn handle_moves_by_its_answers<D, E>(
    req: SQReq<D>,
    relay: Relay,
    prepared: Result<(), SError<E>>,
    opened: Result<(), E>,
)
    ensures
        ({
            let first = Handle::Prepare { req, relay, open_first: true };
            let later = Handle::Prepare { req, relay, open_first: false };
            let event = HandleEvent::Prepared(prepared);
            &&& first.answered_by(event) && later.answered_by(event)
            &&& match prepared {
                Ok(_) => {
                    &&& first.next(event) == HandleNext::<D, E>::More(Handle::Open { req, relay })
                    &&& later.next(event) == HandleNext::<D, E>::Spawn(
                        StreamTask::Open { req, relay },
                    )
                },
                Err(err) => {
                    &&& first.next(event) == HandleNext::<D, E>::Failed(err)
                    &&& later.next(event) == HandleNext::<D, E>::Failed(err)
                },
            }
        }),
        ({
            let open = Handle::Open { req, relay };
            let event = HandleEvent::Opened(opened);
            &&& open.answered_by(event)
            &&& match opened {
                Ok(_) => open.next(event) == HandleNext::<D, E>::Spawn(
                    StreamTask::Send { req, relay },
                ),
                Err(err) => open.next(event) == HandleNext::<D, E>::Failed(SError::External(err)),
            }
        }),
{
}

/// The course of a proxy request, by the answers of the outside: a connection is
/// seen to first; the client opens the stream exactly where there is a connection
/// and it is to open it; a task is started exactly where nothing failed, and it
/// has the request and the use that were asked for.
pub proof fn handle_runs_its_course<D, E>(
    req: SQReq<D>,
    relay: Relay,
    open_first: bool,
    answers: HandleAnswers<E>,
)
    ensures
        ({
            let start = Handle::Prepare { req, relay, open_first };
            let (done, end) = handle_run(start, answers);
            let works = answers.prepared is Ok && (open_first ==> answers.opened is Ok);
            &&& done.len() >= 1 && done[0] == start
            &&& done.len() >= 2 <==> answers.prepared is Ok && open_first
            &&& done.len() >= 2 ==> done[1] == (Handle::Open { req, relay })
            &&& done.len() <= 2
            &&& end is Spawn <==> works
            &&& end is Failed <==> !works
            &&& works && open_first ==> end == HandleNext::<D, E>::Spawn(
                StreamTask::Send { req, relay },
            )
            &&& works && !open_first ==> end == HandleNext::<D, E>::Spawn(
                StreamTask::Open { req, relay },
            )
            &&& match (answers.prepared, answers.opened) {
                (Err(err), _) => end == HandleNext::<D, E>::Failed(err),
                (_, Err(err)) => open_first ==> end == HandleNext::<D, E>::Failed(
                    SError::External(err),
                ),
                _ => true,
            }
        }),
{
    handle_follows_script(req, relay, open_first, answers);
}

} // verus!
