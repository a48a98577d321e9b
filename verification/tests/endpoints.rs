use shadowquic::endpoint::{
    bind_addr, EndpointSetup, SetupEvent, SetupNext, SetupStep, PROTECT_TIMEOUT_SECS,
};
use shadowquic::error::{IoFault, SError};

/// Runs a setup in which the step `bad` has the outcome `outcome`.
fn run(
    mut setup: EndpointSetup,
    bad: Option<SetupStep>,
    outcome: fn() -> SetupEvent<&'static str>,
) -> (Vec<SetupStep>, SetupNext<&'static str>) {
    let mut done = vec![];
    loop {
        done.push(setup.step);
        let event = if bad == Some(setup.step) { outcome() } else { SetupEvent::Done };
        match setup.after(event) {
            SetupNext::More(next) => setup = next,
            end => return (done, end),
        }
    }
}

fn denied() -> SetupEvent<&'static str> {
    SetupEvent::Failed("denied")
}

fn timed_out() -> SetupEvent<&'static str> {
    SetupEvent::TimedOut
}

fn no_runtime() -> SetupEvent<&'static str> {
    SetupEvent::NoRuntime
}

#[test]
fn ipv6_socket_reaches_ipv4_too() {
    let (done, end) = run(EndpointSetup::from_scratch(true, false), None, denied);
    assert_eq!(
        done,
        vec![
            SetupStep::CreateSocket { ipv6: true },
            SetupStep::Bind { ipv6: true },
            SetupStep::ClearOnlyV6,
            SetupStep::FindRuntime,
            SetupStep::Build,
            SetupStep::Configure
        ]
    );
    assert_eq!(end, SetupNext::Ready);
}

#[test]
fn ipv4_socket_is_left_alone() {
    let (done, end) = run(EndpointSetup::from_scratch(false, false), None, denied);
    assert_eq!(
        done,
        vec![
            SetupStep::CreateSocket { ipv6: false },
            SetupStep::Bind { ipv6: false },
            SetupStep::FindRuntime,
            SetupStep::Build,
            SetupStep::Configure
        ]
    );
    assert_eq!(end, SetupNext::Ready);
}

#[test]
fn protected_socket_is_handed_in_before_use() {
    for ipv6 in [false, true] {
        let (done, end) = run(EndpointSetup::from_scratch(ipv6, true), None, denied);
        let at = done.iter().position(|step| *step == SetupStep::Protect).unwrap();
        assert_eq!(done[at + 1], SetupStep::FindRuntime);
        assert_eq!(at, if ipv6 { 3 } else { 2 });
        assert_eq!(end, SetupNext::Ready);
    }
    assert_eq!(PROTECT_TIMEOUT_SECS, 5);
}

#[test]
fn existing_socket_starts_at_the_runtime() {
    let (done, end) = run(EndpointSetup::from_socket(), None, denied);
    assert_eq!(done, vec![SetupStep::FindRuntime, SetupStep::Build, SetupStep::Configure]);
    assert_eq!(end, SetupNext::Ready);
}

#[test]
fn endpoint_on_its_own_socket_is_configured() {
    let start = EndpointSetup::on_own_socket(true);
    let (done, end) = run(start, None, denied);
    assert_eq!(done, vec![SetupStep::OpenClient { ipv6: true }, SetupStep::Configure]);
    assert_eq!(end, SetupNext::Ready);
    let (done, end) = run(start, Some(SetupStep::OpenClient { ipv6: true }), denied);
    assert_eq!(done.len(), 1);
    assert_eq!(end, SetupNext::Failed(SError::External("denied")));
}

#[test]
fn first_failure_ends_the_setup() {
    let start = EndpointSetup::from_scratch(true, true);
    let (done, end) = run(start, Some(SetupStep::ClearOnlyV6), denied);
    assert_eq!(done.len(), 3);
    assert_eq!(end, SetupNext::Failed(SError::External("denied")));
    let (done, end) = run(start, Some(SetupStep::Protect), timed_out);
    assert_eq!(done.len(), 4);
    assert_eq!(end, SetupNext::Failed(SError::Io(IoFault::ProtectTimeout)));
    let (done, end) = run(start, Some(SetupStep::FindRuntime), no_runtime);
    assert_eq!(done.len(), 5);
    assert_eq!(end, SetupNext::Failed(SError::Io(IoFault::NoRuntime)));
}

#[test]
fn sockets_are_bound_to_any_address() {
    assert_eq!(bind_addr(true), "[::]:0");
    assert_eq!(bind_addr(false), "0.0.0.0:0");
}
