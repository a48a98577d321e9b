//! From nothing, or from a socket, to a QUIC endpoint.
use vstd::prelude::*;

use crate::error::{IoFault, SError};

verus! {

/// Seconds that handing in a socket to be exempted from a VPN may take.
pub const PROTECT_TIMEOUT_SECS: u64 = 5;

/// The unspecified address with no port chosen, of the one family or the other.
pub open spec fn any_addr(ipv6: bool) -> Seq<char> {
    if ipv6 {
        "[::]:0"@
    } else {
        "0.0.0.0:0"@
    }
}

/// The address a socket of this family is bound to.
pub fn bind_addr(ipv6: bool) -> (res: &'static str)
    ensures
        res@ == any_addr(ipv6),
        ipv6 ==> res@ == "[::]:0"@,
        !ipv6 ==> res@ == "0.0.0.0:0"@,
{
    if ipv6 {
        "[::]:0"
    } else {
        "0.0.0.0:0"
    }
}

/// One step of bringing up an endpoint.
#[derive(Clone, Copy, PartialEq, Eq, Structural, Debug)]
pub enum SetupStep {
    /// Create a UDP socket of the family.
    CreateSocket { ipv6: bool },
    /// Bind the socket to [`bind_addr`] of the family.
    Bind { ipv6: bool },
    /// Let the IPv6 socket reach IPv4 too.
    ClearOnlyV6,
    /// Hand in the socket to be exempted from a VPN, within
    /// [`PROTECT_TIMEOUT_SECS`].
    Protect,
    /// Find the async runtime.
    FindRuntime,
    /// Build the endpoint from socket and runtime.
    Build,
    /// Open a client endpoint on a socket of its own, bound to [`bind_addr`] of
    /// the family.
    OpenClient { ipv6: bool },
    /// Make the client's configuration the default of the endpoint.
    Configure,
}

/// What came of a step.
#[derive(PartialEq, Eq, Debug)]
pub enum SetupEvent<E> {
    Done,
    Failed(E),
    /// Handing in the socket took too long.
    TimedOut,
    /// There is no async runtime.
    NoRuntime,
}

/// An endpoint that is being brought up: the next step, and what decides on the
/// steps after it.
#[derive(Clone, Copy, PartialEq, Eq, Structural, Debug)]
pub struct EndpointSetup {
    /// Whether the socket is handed in to be exempted from a VPN.
    pub protect: bool,
    /// The next step.
    pub step: SetupStep,
}

/// Where the setup stands after an event.
#[derive(PartialEq, Eq, Debug)]
pub enum SetupNext<E> {
    /// There is more to do.
    More(EndpointSetup),
    /// The endpoint is up.
    Ready,
    /// There is no endpoint.
    Failed(SError<E>),
}

/// The error that an event stands for, if it stands for one.
pub open spec fn setup_error<E>(event: SetupEvent<E>) -> Option<SError<E>> {
    match event {
        SetupEvent::Done => None,
        SetupEvent::Failed(err) => Some(SError::External(err)),
        SetupEvent::TimedOut => Some(SError::Io(IoFault::ProtectTimeout)),
        SetupEvent::NoRuntime => Some(SError::Io(IoFault::NoRuntime)),
    }
}

/// The steps from a socket on.
pub open spec fn steps_from_socket() -> Seq<SetupStep> {
    seq![SetupStep::FindRuntime, SetupStep::Build, SetupStep::Configure]
}

/// The steps that bring up an endpoint which makes its own socket.
pub open spec fn steps_on_own_socket(ipv6: bool) -> Seq<SetupStep> {
    seq![SetupStep::OpenClient { ipv6 }, SetupStep::Configure]
}

/// The steps that bring up an endpoint on a new socket.
pub open spec fn steps_from_scratch(ipv6: bool, protect: bool) -> Seq<SetupStep> {
    let socket = seq![SetupStep::CreateSocket { ipv6 }, SetupStep::Bind { ipv6 }];
    let both_families = if ipv6 {
        seq![SetupStep::ClearOnlyV6]
    } else {
        seq![]
    };
    let exemption = if protect {
        seq![SetupStep::Protect]
    } else {
        seq![]
    };
    socket + both_families + exemption + steps_from_socket()
}

impl EndpointSetup {
    /// Starts on a new socket.
    pub fn from_scratch(ipv6: bool, protect: bool) -> (res: Self)
        ensures
            res == (EndpointSetup { protect, step: SetupStep::CreateSocket { ipv6 } }),
    {
        EndpointSetup { protect, step: SetupStep::CreateSocket { ipv6 } }
    }

    /// Starts on a socket that is there.
    pub fn from_socket() -> (res: Self)
        ensures
            res == (EndpointSetup { protect: false, step: SetupStep::FindRuntime }),
    {
        EndpointSetup { protect: false, step: SetupStep::FindRuntime }
    }

    /// Starts on an endpoint that makes its own socket.
    pub fn on_own_socket(ipv6: bool) -> (res: Self)
        ensures
            res == (EndpointSetup { protect: false, step: SetupStep::OpenClient { ipv6 } }),
    {
        EndpointSetup { protect: false, step: SetupStep::OpenClient { ipv6 } }
    }

    /// Whether the step can have this outcome.
    pub open spec fn answered_by<E>(self, event: SetupEvent<E>) -> bool {
        match event {
            SetupEvent::Done => true,
            SetupEvent::Failed(_) => self.step !is FindRuntime && self.step !is Configure,
            SetupEvent::TimedOut => self.step is Protect,
            SetupEvent::NoRuntime => self.step is FindRuntime,
        }
    }

    /// The step after this one, if there is one.
    pub open spec fn successor(self) -> Option<SetupStep> {
        match self.step {
            SetupStep::CreateSocket { ipv6 } => Some(SetupStep::Bind { ipv6 }),
            SetupStep::Bind { ipv6 } if ipv6 => Some(SetupStep::ClearOnlyV6),
            SetupStep::Bind { .. } | SetupStep::ClearOnlyV6 => if self.protect {
                Some(SetupStep::Protect)
            } else {
                Some(SetupStep::FindRuntime)
            },
            SetupStep::Protect => Some(SetupStep::FindRuntime),
            SetupStep::FindRuntime => Some(SetupStep::Build),
            SetupStep::Build | SetupStep::OpenClient { .. } => Some(SetupStep::Configure),
            SetupStep::Configure => None,
        }
    }

    /// Where the setup stands after `event`: an error ends it, else the
    /// successor is next.
    pub open spec fn next<E>(self, event: SetupEvent<E>) -> SetupNext<E> {
        match (setup_error(event), self.successor()) {
            (Some(err), _) => SetupNext::Failed(err),
            (None, Some(step)) => SetupNext::More(EndpointSetup { step, ..self }),
            (None, None) => SetupNext::Ready,
        }
    }

    /// How many steps there can still be.
    pub open spec fn rank(self) -> nat {
        match self.step {
            SetupStep::CreateSocket { .. } => 7,
            SetupStep::Bind { .. } => 6,
            SetupStep::ClearOnlyV6 => 5,
            SetupStep::Protect => 4,
            SetupStep::FindRuntime => 3,
            SetupStep::Build => 2,
            SetupStep::OpenClient { .. } => 2,
            SetupStep::Configure => 1,
        }
    }

    /// Moves on after `event`.
    pub fn after<E>(self, event: SetupEvent<E>) -> (res: SetupNext<E>)
        requires
            self.answered_by(event),
        ensures
            res == self.next(event),
            res matches SetupNext::More(setup) ==> setup.rank() < self.rank(),
    {
        match event {
            SetupEvent::Done => {},
            SetupEvent::Failed(err) => {
                return SetupNext::Failed(SError::External(err));
            },
            SetupEvent::TimedOut => {
                return SetupNext::Failed(SError::Io(IoFault::ProtectTimeout));
            },
            SetupEvent::NoRuntime => {
                return SetupNext::Failed(SError::Io(IoFault::NoRuntime));
            },
        }
        let on_socket = if self.protect {
            SetupStep::Protect
        } else {
            SetupStep::FindRuntime
        };
        let step = match self.step {
            SetupStep::CreateSocket { ipv6 } => SetupStep::Bind { ipv6 },
            SetupStep::Bind { ipv6: true } => SetupStep::ClearOnlyV6,
            SetupStep::Bind { ipv6: false } => on_socket,
            SetupStep::ClearOnlyV6 => on_socket,
            SetupStep::Protect => SetupStep::FindRuntime,
            SetupStep::FindRuntime => SetupStep::Build,
            SetupStep::Build => SetupStep::Configure,
            SetupStep::OpenClient { .. } => SetupStep::Configure,
            SetupStep::Configure => {
                return SetupNext::Ready;
            },
        };
        SetupNext::More(EndpointSetup { protect: self.protect, step })
    }
}

/// What is done from `setup` on, in order, and how it ends, where each step has
/// the outcome that `outcome` gives it.
pub open spec fn setup_run<E>(
    setup: EndpointSetup,
    outcome: spec_fn(SetupStep) -> SetupEvent<E>,
) -> (Seq<SetupStep>, SetupNext<E>)
    decreases setup.rank(),
{
    match setup.next(outcome(setup.step)) {
        SetupNext::More(next) => {
            if next.rank() < setup.rank() {
                let (rest, end) = setup_run(next, outcome);
                (seq![setup.step] + rest, end)
            } else {
                (seq![setup.step], SetupNext::More(next))
            }
        },
        end => (seq![setup.step], end),
    }
}

/// What it means to walk through `steps` up to the first that fails: `done` are
/// the steps taken, and `end` is the error of the last one, or success where all
/// of them were taken and none failed.
pub open spec fn walks<E>(
    steps: Seq<SetupStep>,
    outcome: spec_fn(SetupStep) -> SetupEvent<E>,
    done: Seq<SetupStep>,
    end: SetupNext<E>,
) -> bool {
    &&& 0 < done.len() <= steps.len()
    &&& done == steps.take(done.len() as int)
    &&& forall|i: int|
        0 <= i < done.len() - 1 ==> setup_error(outcome(#[trigger] steps[i])) is None
    &&& match setup_error(outcome(done.last())) {
        Some(err) => end == SetupNext::Failed(err),
        None => done.len() == steps.len() && end is Ready,
    }
}

/// An endpoint on a new socket is brought up by its steps in their order, and
/// the first step that fails ends it with that step's error.
pub proof fn setup_walks_from_scratch<E>(
    ipv6: bool,
    protect: bool,
    outcome: spec_fn(SetupStep) -> SetupEvent<E>,
)
    ensures
        ({
            let (done, end) = setup_run(
                EndpointSetup { protect, step: SetupStep::CreateSocket { ipv6 } },
                outcome,
            );
            walks(steps_from_scratch(ipv6, protect), outcome, done, end)
        }),
{
    let start = EndpointSetup { protect, step: SetupStep::CreateSocket { ipv6 } };
    let steps = steps_from_scratch(ipv6, protect);
    let (done, end) = setup_run(start, outcome);
    reveal_with_fuel(setup_run, 8);
    assert(done =~= steps.take(done.len() as int));
}

/// An endpoint on a socket that is there is brought up by its steps in their
/// order, and the first step that fails ends it with that step's error.
pub proof fn setup_walks_from_socket<E>(outcome: spec_fn(SetupStep) -> SetupEvent<E>)
    ensures
        ({
            let (done, end) = setup_run(
                EndpointSetup { protect: false, step: SetupStep::FindRuntime },
                outcome,
            );
            walks(steps_from_socket(), outcome, done, end)
        }),
{
    let start = EndpointSetup { protect: false, step: SetupStep::FindRuntime };
    let steps = steps_from_socket();
    let (done, end) = setup_run(start, outcome);
    reveal_with_fuel(setup_run, 4);
    assert(done =~= steps.take(done.len() as int));
}

/// An endpoint that makes its own socket is opened and then gets the client's
/// configuration as its default; a failure to open it ends the setup with that
/// error.
pub proof fn setup_walks_on_own_socket<E>(
    ipv6: bool,
    outcome: spec_fn(SetupStep) -> SetupEvent<E>,
)
    ensures
        ({
            let (done, end) = setup_run(
                EndpointSetup { protect: false, step: SetupStep::OpenClient { ipv6 } },
                outcome,
            );
            walks(steps_on_own_socket(ipv6), outcome, done, end)
        }),
{
    let start = EndpointSetup { protect: false, step: SetupStep::OpenClient { ipv6 } };
    let steps = steps_on_own_socket(ipv6);
    let (done, end) = setup_run(start, outcome);
    reveal_with_fuel(setup_run, 3);
    assert(done =~= steps.take(done.len() as int));
}

/// An endpoint that is up has the client's configuration as its default, however
/// it was brought up: setting that was the last step, and it was done.
pub proof fn ready_endpoint_is_configured<E>(
    setup: EndpointSetup,
    outcome: spec_fn(SetupStep) -> SetupEvent<E>,
)
    requires
        setup_run(setup, outcome).1 is Ready,
    ensures
        setup_run(setup, outcome).0.last() == SetupStep::Configure,
        setup_error(outcome(SetupStep::Configure)) is None,
    decreases setup.rank(),
{
    if let SetupNext::More(next) = setup.next(outcome(setup.step)) {
        ready_endpoint_is_configured(next, outcome);
        let (rest, _) = setup_run(next, outcome);
        assert((seq![setup.step] + rest).last() == rest.last());
    }
}

/// Every step can be done. Every step that asks something of the system can fail,
/// and only handing in the socket can time out.
pub proof fn setup_takes_every_answer<E>(protect: bool, ipv6: bool, err: E)
    ensures
        forall|setup: EndpointSetup| #[trigger] setup.answered_by(SetupEvent::<E>::Done),
        ({
            let at = |step: SetupStep| EndpointSetup { protect, step };
            let failed = SetupEvent::Failed(err);
            &&& at(SetupStep::CreateSocket { ipv6 }).answered_by(failed)
            &&& at(SetupStep::Bind { ipv6 }).answered_by(failed)
            &&& at(SetupStep::ClearOnlyV6).answered_by(failed)
            &&& at(SetupStep::Protect).answered_by(failed)
            &&& at(SetupStep::Build).answered_by(failed)
            &&& at(SetupStep::OpenClient { ipv6 }).answered_by(failed)
            &&& at(SetupStep::Protect).answered_by(SetupEvent::<E>::TimedOut)
            &&& at(SetupStep::FindRuntime).answered_by(SetupEvent::<E>::NoRuntime)
        }),
{
}

/// A step that is done leads to the next: a socket is bound in the family it was
/// made in, one of IPv6 is then opened to IPv4 too, it is handed in exactly where
/// that is wanted, and only then it is used; the configuration is set last. What
/// is wanted stays the same on the way. Any failure ends the setup, and is
/// reported as what it is.
pub proof fn setup_moves_by_its_answers<E>(setup: EndpointSetup, err: E)
    ensures
        ({
            let next = setup.next(SetupEvent::<E>::Done);
            let to = |step: SetupStep|
                SetupNext::<E>::More(EndpointSetup { protect: setup.protect, step });
            let with_socket = if setup.protect {
                SetupStep::Protect
            } else {
                SetupStep::FindRuntime
            };
            match setup.step {
                SetupStep::CreateSocket { ipv6 } => next == to(SetupStep::Bind { ipv6 }),
                SetupStep::Bind { ipv6 } => {
                    &&& ipv6 ==> next == to(SetupStep::ClearOnlyV6)
                    &&& !ipv6 ==> next == to(with_socket)
                },
                SetupStep::ClearOnlyV6 => next == to(with_socket),
                SetupStep::Protect => next == to(SetupStep::FindRuntime),
                SetupStep::FindRuntime => next == to(SetupStep::Build),
                SetupStep::Build => next == to(SetupStep::Configure),
                SetupStep::OpenClient { .. } => next == to(SetupStep::Configure),
                SetupStep::Configure => next is Ready,
            }
        }),
        setup.next(SetupEvent::Failed(err)) == SetupNext::Failed(SError::External(err)),
        setup.next(SetupEvent::<E>::TimedOut) == SetupNext::<E>::Failed(
            SError::Io(IoFault::ProtectTimeout),
        ),
        setup.next(SetupEvent::<E>::NoRuntime) == SetupNext::<E>::Failed(
            SError::Io(IoFault::NoRuntime),
        ),
{
}

/// A setup goes on exactly as long as its steps are done, and ends as its last
/// step does: with the endpoint where that is done, else with what went wrong.
pub proof fn setup_stops_at_the_first_failure<E>(
    setup: EndpointSetup,
    outcome: spec_fn(SetupStep) -> SetupEvent<E>,
)
    ensures
        ({
            let (done, end) = setup_run(setup, outcome);
            &&& done.len() >= 1 && done[0] == setup.step
            &&& forall|i: int| 0 <= i < done.len() - 1 ==> outcome(#[trigger] done[i]) is Done
            &&& match outcome(done.last()) {
                SetupEvent::Done => done.last() == SetupStep::Configure && end is Ready,
                SetupEvent::Failed(err) => end == SetupNext::Failed(SError::External(err)),
                SetupEvent::TimedOut => end == SetupNext::<E>::Failed(
                    SError::Io(IoFault::ProtectTimeout),
                ),
                SetupEvent::NoRuntime => end == SetupNext::<E>::Failed(
                    SError::Io(IoFault::NoRuntime),
                ),
            }
        }),
    decreases setup.rank(),
{
    if let SetupNext::More(next) = setup.next(outcome(setup.step)) {
        setup_stops_at_the_first_failure(next, outcome);
        let (rest, _) = setup_run(next, outcome);
        let (done, _) = setup_run(setup, outcome);
        assert(done == seq![setup.step] + rest);
        assert(done.last() == rest.last());
        assert forall|i: int| 0 <= i < done.len() - 1 implies outcome(#[trigger] done[i]) is Done by {
            if i > 0 {
                assert(done[i] == rest[i - 1]);
            }
        }
    }
}

/// Where nothing fails, an endpoint on a new socket comes up: the socket is made
/// and bound in the family, opened to IPv4 exactly where it is of IPv6, handed in
/// exactly where that is wanted and before it is used, and the endpoint that is
/// built on it is configured.
pub proof fn endpoint_comes_up<E>(
    ipv6: bool,
    protect: bool,
    outcome: spec_fn(SetupStep) -> SetupEvent<E>,
)
    requires
        forall|step: SetupStep| #[trigger] outcome(step) is Done,
    ensures
        ({
            let (done, end) = setup_run(
                EndpointSetup { protect, step: SetupStep::CreateSocket { ipv6 } },
                outcome,
            );
            let n = done.len() as int;
            &&& end is Ready
            &&& n == 5 + (if ipv6 {
                1int
            } else {
                0
            }) + (if protect {
                1int
            } else {
                0
            })
            &&& done[0] == (SetupStep::CreateSocket { ipv6 })
            &&& done[1] == (SetupStep::Bind { ipv6 })
            &&& ipv6 ==> done[2] == SetupStep::ClearOnlyV6
            &&& protect ==> done[n - 4] == SetupStep::Protect
            &&& done[n - 3] == SetupStep::FindRuntime
            &&& done[n - 2] == SetupStep::Build
            &&& done[n - 1] == SetupStep::Configure
        }),
{
    reveal_with_fuel(setup_run, 8);
}

} // verus!
