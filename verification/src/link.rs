//! From a reachable server to a connection that has been judged.
//!
//! A [`Link`] value is the next thing to do. The caller does it and passes what
//! came of it to [`Link::after`].
use vstd::prelude::*;

verus! {

/// Application error code that a refused connection is closed with. No reason
/// bytes go with it.
pub const CLOSE_CODE: u8 = 0;

/// The next thing to do for a connection. `A` is the form in which an address is
/// given.
#[derive(PartialEq, Eq, Debug)]
pub enum Link<A> {
    /// Start connecting to the server at `addr` by the name `server_name`;
    /// `zero_rtt` tells whether early data is wanted.
    Connect { addr: A, server_name: String, zero_rtt: bool },
    /// Ask whether the connection can be used before its handshake is complete.
    IntoZeroRtt,
    /// Wait for the handshake.
    AwaitPeer,
    /// Start a task that waits for the server's answer to early data and then
    /// asks [`jls_refused`] whether to close the connection.
    WatchEarlyData,
    /// Read what JLS found out about the peer.
    ReadJls,
    /// Close the connection with [`CLOSE_CODE`].
    Close,
}

/// What came of the last thing that was done.
#[derive(PartialEq, Eq, Debug)]
pub enum LinkEvent<E> {
    /// Connecting has started, or could not start.
    Connecting(Result<(), E>),
    /// Whether the connection can be used early.
    ZeroRtt(bool),
    /// The handshake is complete, or failed.
    PeerReady(Result<(), E>),
    /// The task that watches early data runs.
    Watching,
    /// What JLS found out: `None` where it does not know or is off.
    Jls(Option<bool>),
    /// The connection was closed.
    Closed,
}

/// How a link ends.
#[derive(PartialEq, Eq, Debug)]
pub enum LinkEnd<E> {
    /// There is a connection; `refused` tells that the peer did not authenticate
    /// and that the connection has been closed.
    Ready { refused: bool },
    /// There is no connection.
    Failed(E),
}

/// Where a link stands after an event.
#[derive(PartialEq, Eq, Debug)]
pub enum LinkNext<A, E> {
    /// There is more to do.
    More(Link<A>),
    /// There is nothing more to do.
    End(LinkEnd<E>),
}

/// Whether the finding of JLS speaks against the peer. Only a failed
/// authentication does; a finding that is still open does not.
pub open spec fn refuses(jls: Option<bool>) -> bool {
    jls == Some(false)
}

/// Tells whether a connection is to be closed for what JLS found out.
pub fn jls_refused(jls: Option<bool>) -> (res: bool)
    ensures
        res == refuses(jls),
{
    match jls {
        Some(authentic) => !authentic,
        None => false,
    }
}

impl<A> Link<A> {
    /// Whether `event` is an answer to what there was to do.
    pub open spec fn answered_by<E>(self, event: LinkEvent<E>) -> bool {
        match self {
            Link::Connect { .. } => event is Connecting,
            Link::IntoZeroRtt => event is ZeroRtt,
            Link::AwaitPeer => event is PeerReady,
            Link::WatchEarlyData => event is Watching,
            Link::ReadJls => event is Jls,
            Link::Close => event is Closed,
        }
    }

    /// Where the link stands after `event`; what is no answer leaves it where it
    /// was.
    pub open spec fn next<E>(self, event: LinkEvent<E>) -> LinkNext<A, E> {
        match (self, event) {
            (Link::Connect { zero_rtt, .. }, LinkEvent::Connecting(Ok(_))) => LinkNext::More(
                if zero_rtt {
                    Link::IntoZeroRtt
                } else {
                    Link::AwaitPeer
                },
            ),
            (Link::Connect { .. }, LinkEvent::Connecting(Err(err))) => LinkNext::End(
                LinkEnd::Failed(err),
            ),
            (Link::IntoZeroRtt, LinkEvent::ZeroRtt(early)) => LinkNext::More(
                if early {
                    Link::WatchEarlyData
                } else {
                    Link::AwaitPeer
                },
            ),
            (Link::AwaitPeer, LinkEvent::PeerReady(Ok(_))) => LinkNext::More(Link::ReadJls),
            (Link::AwaitPeer, LinkEvent::PeerReady(Err(err))) => LinkNext::End(
                LinkEnd::Failed(err),
            ),
            (Link::WatchEarlyData, LinkEvent::Watching) => LinkNext::More(Link::ReadJls),
            (Link::ReadJls, LinkEvent::Jls(jls)) => if refuses(jls) {
                LinkNext::More(Link::Close)
            } else {
                LinkNext::End(LinkEnd::Ready { refused: false })
            },
            (Link::Close, LinkEvent::Closed) => LinkNext::End(LinkEnd::Ready { refused: true }),
            (link, _) => LinkNext::More(link),
        }
    }

    /// How many more things there can be to do.
    pub open spec fn rank(self) -> nat {
        match self {
            Link::Connect { .. } => 5,
            Link::IntoZeroRtt => 4,
            Link::AwaitPeer => 3,
            Link::WatchEarlyData => 3,
            Link::ReadJls => 2,
            Link::Close => 1,
        }
    }

    /// Moves on after `event`.
    pub fn after<E>(self, event: LinkEvent<E>) -> (res: LinkNext<A, E>)
        requires
            self.answered_by(event),
        ensures
            res == self.next(event),
            res matches LinkNext::More(link) ==> link.rank() < self.rank(),
    {
        match (self, event) {
            (
                Link::Connect { zero_rtt: true, .. },
                LinkEvent::Connecting(Ok(_)),
            ) => LinkNext::More(Link::IntoZeroRtt),
            (
                Link::Connect { zero_rtt: false, .. },
                LinkEvent::Connecting(Ok(_)),
            ) => LinkNext::More(Link::AwaitPeer),
            (Link::Connect { .. }, LinkEvent::Connecting(Err(err))) => LinkNext::End(
                LinkEnd::Failed(err),
            ),
            (Link::IntoZeroRtt, LinkEvent::ZeroRtt(true)) => LinkNext::More(Link::WatchEarlyData),
            (Link::IntoZeroRtt, LinkEvent::ZeroRtt(false)) => LinkNext::More(Link::AwaitPeer),
            (Link::AwaitPeer, LinkEvent::PeerReady(Ok(_))) => LinkNext::More(Link::ReadJls),
            (Link::AwaitPeer, LinkEvent::PeerReady(Err(err))) => LinkNext::End(
                LinkEnd::Failed(err),
            ),
            (Link::WatchEarlyData, LinkEvent::Watching) => LinkNext::More(Link::ReadJls),
            (Link::ReadJls, LinkEvent::Jls(jls)) => if jls_refused(jls) {
                LinkNext::More(Link::Close)
            } else {
                LinkNext::End(LinkEnd::Ready { refused: false })
            },
            (Link::Close, LinkEvent::Closed) => LinkNext::End(LinkEnd::Ready { refused: true }),
            (link, _) => LinkNext::More(link),
        }
    }
}

/// All that the outside has to say to one link.
pub struct LinkAnswers<E> {
    /// Whether connecting starts.
    pub connect: Result<(), E>,
    /// Whether the connection can be used early.
    pub early: bool,
    /// Whether the handshake succeeds.
    pub peer: Result<(), E>,
    /// What JLS finds out.
    pub jls: Option<bool>,
}

impl<E> LinkAnswers<E> {
    /// The answer to one thing to do.
    pub open spec fn to<A>(self, link: Link<A>) -> LinkEvent<E> {
        match link {
            Link::Connect { .. } => LinkEvent::Connecting(self.connect),
            Link::IntoZeroRtt => LinkEvent::ZeroRtt(self.early),
            Link::AwaitPeer => LinkEvent::PeerReady(self.peer),
            Link::WatchEarlyData => LinkEvent::Watching,
            Link::ReadJls => LinkEvent::Jls(self.jls),
            Link::Close => LinkEvent::Closed,
        }
    }

    /// Whether the connection is used before its handshake is complete.
    pub open spec fn goes_early(self, zero_rtt: bool) -> bool {
        zero_rtt && self.early
    }

    /// How a link ends that meets these answers: with the first error in its
    /// way, else with a connection that is refused or not.
    pub open spec fn outcome(self, zero_rtt: bool) -> LinkEnd<E> {
        match (self.connect, self.peer) {
            (Err(err), _) => LinkEnd::Failed(err),
            (_, Err(err)) if !self.goes_early(zero_rtt) => LinkEnd::Failed(err),
            _ => LinkEnd::Ready { refused: refuses(self.jls) },
        }
    }

    /// What is done on the way, in order.
    pub open spec fn script<A>(self, addr: A, server_name: String, zero_rtt: bool) -> Seq<
        Link<A>,
    > {
        let start = seq![Link::Connect { addr, server_name, zero_rtt }];
        let attempt = if zero_rtt {
            seq![Link::IntoZeroRtt]
        } else {
            seq![]
        };
        let wait = if self.goes_early(zero_rtt) {
            seq![Link::WatchEarlyData]
        } else {
            seq![Link::AwaitPeer]
        };
        let verdict = if refuses(self.jls) {
            seq![Link::ReadJls, Link::Close]
        } else {
            seq![Link::ReadJls]
        };
        if self.connect is Err {
            start
        } else if self.outcome(zero_rtt) is Failed {
            start + attempt + wait
        } else {
            start + attempt + wait + verdict
        }
    }
}

/// What is done from `link` on, in order, and how it ends.
pub open spec fn link_run<A, E>(link: Link<A>, answers: LinkAnswers<E>) -> (
    Seq<Link<A>>,
    LinkNext<A, E>,
)
    decreases link.rank(),
{
    match link.next(answers.to(link)) {
        LinkNext::More(next) => {
            if next.rank() < link.rank() {
                let (rest, end) = link_run(next, answers);
                (seq![link] + rest, end)
            } else {
                (seq![link], LinkNext::More(next))
            }
        },
        end => (seq![link], end),
    }
}

/// A link does what its script says and ends as its outcome says, whatever the
/// outside answers.
pub proof fn link_follows_script<A, E>(
    addr: A,
    server_name: String,
    zero_rtt: bool,
    answers: LinkAnswers<E>,
)
    ensures
        link_run(Link::Connect { addr, server_name, zero_rtt }, answers) == (
            answers.script(addr, server_name, zero_rtt),
            LinkNext::<A, E>::End(answers.outcome(zero_rtt)),
        ),
{
    reveal_with_fuel(link_run, 6);
    assert(link_run(Link::Connect { addr, server_name, zero_rtt }, answers).0 =~= answers.script(
        addr,
        server_name,
        zero_rtt,
    ));
}

/// A link connects once, first of all, and to what it was told.
pub proof fn link_connects_once<A, E>(
    addr: A,
    server_name: String,
    zero_rtt: bool,
    answers: LinkAnswers<E>,
)
    ensures
        ({
            let (done, _) = link_run(Link::Connect { addr, server_name, zero_rtt }, answers);
            &&& done[0] == (Link::Connect { addr, server_name, zero_rtt })
            &&& forall|i: int| 0 <= i < done.len() ==> (#[trigger] done[i] is Connect <==> i == 0)
        }),
{
    link_follows_script(addr, server_name, zero_rtt, answers);
}

/// A connection is closed exactly where the peer did not authenticate, and then
/// it is the last thing done.
pub proof fn refused_link_is_closed<A, E>(
    addr: A,
    server_name: String,
    zero_rtt: bool,
    answers: LinkAnswers<E>,
)
    ensures
        ({
            let (done, end) = link_run(Link::Connect { addr, server_name, zero_rtt }, answers);
            &&& done.contains(Link::Close) <==> end == LinkNext::<A, E>::End(
                LinkEnd::Ready { refused: true },
            )
            &&& done.contains(Link::Close) ==> done.last() == Link::<A>::Close
        }),
{
    link_follows_script(addr, server_name, zero_rtt, answers);
    let script = answers.script(addr, server_name, zero_rtt);
    if answers.outcome(zero_rtt) == (LinkEnd::<E>::Ready { refused: true }) {
        assert(script[script.len() - 1] == Link::<A>::Close);
    }
}

/// Early use of a connection is attempted only where 0-RTT is configured.
pub proof fn early_use_needs_zero_rtt<A, E>(
    addr: A,
    server_name: String,
    zero_rtt: bool,
    answers: LinkAnswers<E>,
)
    ensures
        ({
            let (done, _) = link_run(Link::Connect { addr, server_name, zero_rtt }, answers);
            &&& done.contains(Link::IntoZeroRtt) <==> zero_rtt && answers.connect is Ok
            &&& done.contains(Link::WatchEarlyData) ==> zero_rtt
        }),
{
    link_follows_script(addr, server_name, zero_rtt, answers);
    let script = answers.script(addr, server_name, zero_rtt);
    if zero_rtt && answers.connect is Ok {
        assert(script[1] == Link::<A>::IntoZeroRtt);
    }
}

/// Only the finding that a peer failed to authenticate speaks against it.
pub proof fn only_failed_authentication_refuses(jls: Option<bool>)
    ensures
        match jls {
            Some(authentic) => refuses(jls) <==> !authentic,
            None => !refuses(jls),
        },
{
}

/// A link takes every answer to what there is to do. Early use is asked for
/// exactly where it is wanted, the handshake is waited for exactly where the
/// connection is not used early, the finding of JLS is read in any case, and the
/// connection is closed exactly where authentication failed. An error ends the
/// link with that error.
pub proof fn link_moves_by_its_answers<A, E>(
    addr: A,
    server_name: String,
    zero_rtt: bool,
    result: Result<(), E>,
    early: bool,
    jls: Option<bool>,
)
    ensures
        ({
            let connect = Link::Connect { addr, server_name, zero_rtt };
            let event = LinkEvent::Connecting(result);
            &&& connect.answered_by(event)
            &&& match result {
                Ok(_) => {
                    &&& connect.next(event) == LinkNext::<A, E>::More(Link::IntoZeroRtt)
                        <==> zero_rtt
                    &&& connect.next(event) == LinkNext::<A, E>::More(Link::AwaitPeer)
                        <==> !zero_rtt
                },
                Err(err) => connect.next(event) == LinkNext::<A, E>::End(LinkEnd::Failed(err)),
            }
        }),
        ({
            let event = LinkEvent::<E>::ZeroRtt(early);
            &&& Link::<A>::IntoZeroRtt.answered_by(event)
            &&& Link::<A>::IntoZeroRtt.next(event) == LinkNext::<A, E>::More(Link::WatchEarlyData)
                <==> early
            &&& Link::<A>::IntoZeroRtt.next(event) == LinkNext::<A, E>::More(Link::AwaitPeer)
                <==> !early
        }),
        ({
            let event = LinkEvent::PeerReady(result);
            &&& Link::<A>::AwaitPeer.answered_by(event)
            &&& match result {
                Ok(_) => Link::<A>::AwaitPeer.next(event) == LinkNext::<A, E>::More(
                    Link::ReadJls,
                ),
                Err(err) => Link::<A>::AwaitPeer.next(event) == LinkNext::<A, E>::End(
                    LinkEnd::Failed(err),
                ),
            }
        }),
        Link::<A>::WatchEarlyData.answered_by(LinkEvent::<E>::Watching),
        Link::<A>::WatchEarlyData.next(LinkEvent::<E>::Watching) == LinkNext::<A, E>::More(
            Link::ReadJls,
        ),
        ({
            let event = LinkEvent::<E>::Jls(jls);
            &&& Link::<A>::ReadJls.answered_by(event)
            &&& Link::<A>::ReadJls.next(event) == LinkNext::<A, E>::More(Link::Close) <==> jls
                == Some(false)
            &&& Link::<A>::ReadJls.next(event) == LinkNext::<A, E>::End(
                LinkEnd::Ready { refused: false },
            ) <==> jls != Some(false)
        }),
        Link::<A>::Close.answered_by(LinkEvent::<E>::Closed),
        Link::<A>::Close.next(LinkEvent::<E>::Closed) == LinkNext::<A, E>::End(
            LinkEnd::Ready { refused: true },
        ),
{
}

/// The course of a link, by the answers of the outside. The link connects first.
/// Where that starts, it asks for early use exactly with 0-RTT; then it watches
/// early data where it may send some, and waits for the handshake where not; then
/// it reads what JLS found out, unless the handshake failed; and last it closes
/// the connection where authentication failed.
pub proof fn link_runs_its_course<A, E>(
    addr: A,
    server_name: String,
    zero_rtt: bool,
    answers: LinkAnswers<E>,
)
    ensures
        ({
            let start = Link::Connect { addr, server_name, zero_rtt };
            let (done, end) = link_run(start, answers);
            let early = zero_rtt && answers.early;
            let wait: int = if zero_rtt {
                2
            } else {
                1
            };
            &&& done.len() >= 1 && done[0] == start
            &&& done.len() > wait <==> answers.connect is Ok
            &&& done.len() > 1 && zero_rtt ==> done[1] == Link::<A>::IntoZeroRtt
            &&& done.len() > wait && early ==> done[wait] == Link::<A>::WatchEarlyData
            &&& done.len() > wait && !early ==> done[wait] == Link::<A>::AwaitPeer
            &&& done.len() > wait + 1 <==> answers.connect is Ok && (early || answers.peer is Ok)
            &&& done.len() > wait + 1 ==> done[wait + 1] == Link::<A>::ReadJls
            &&& done.len() > wait + 2 <==> answers.connect is Ok && (early || answers.peer is Ok)
                && answers.jls == Some(false)
            &&& done.len() > wait + 2 ==> done[wait + 2] == Link::<A>::Close
            &&& done.len() <= wait + 3
            &&& answers.connect is Err ==> done.len() == 1
            &&& match (answers.connect, answers.peer) {
                (Err(err), _) => end == LinkNext::<A, E>::End(LinkEnd::Failed(err)),
                (_, Err(err)) if !early => end == LinkNext::<A, E>::End(LinkEnd::Failed(err)),
                _ => end == LinkNext::<A, E>::End(
                    LinkEnd::Ready { refused: answers.jls == Some(false) },
                ),
            }
        }),
{
    link_follows_script(addr, server_name, zero_rtt, answers);
}

} // verus!
