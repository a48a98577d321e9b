use shadowquic::link::{jls_refused, Link, LinkEnd, LinkEvent, LinkNext, CLOSE_CODE};

fn connect(zero_rtt: bool) -> Link<u32> {
    Link::Connect { addr: 7, server_name: "www.example".to_string(), zero_rtt }
}

/// Runs a link against these answers.
fn run(
    zero_rtt: bool,
    connecting: Result<(), &'static str>,
    early: bool,
    peer: Result<(), &'static str>,
    jls: Option<bool>,
) -> (Vec<Link<u32>>, LinkEnd<&'static str>) {
    let mut link = connect(zero_rtt);
    let mut done = vec![];
    loop {
        let (same, event) = match &link {
            Link::Connect { addr, server_name, zero_rtt } => (
                Link::Connect {
                    addr: *addr,
                    server_name: server_name.clone(),
                    zero_rtt: *zero_rtt,
                },
                LinkEvent::Connecting(connecting),
            ),
            Link::IntoZeroRtt => (Link::IntoZeroRtt, LinkEvent::ZeroRtt(early)),
            Link::AwaitPeer => (Link::AwaitPeer, LinkEvent::PeerReady(peer)),
            Link::WatchEarlyData => (Link::WatchEarlyData, LinkEvent::Watching),
            Link::ReadJls => (Link::ReadJls, LinkEvent::Jls(jls)),
            Link::Close => (Link::Close, LinkEvent::Closed),
        };
        done.push(same);
        match link.after(event) {
            LinkNext::More(next) => link = next,
            LinkNext::End(end) => return (done, end),
        }
    }
}

#[test]
fn plain_link_waits_for_the_peer() {
    let (done, end) = run(false, Ok(()), true, Ok(()), Some(true));
    assert_eq!(done, vec![connect(false), Link::AwaitPeer, Link::ReadJls]);
    assert_eq!(end, LinkEnd::Ready { refused: false });
}

#[test]
fn early_link_is_watched_and_does_not_wait() {
    let (done, end) = run(true, Ok(()), true, Err("never asked"), None);
    assert_eq!(
        done,
        vec![
            connect(true),
            Link::IntoZeroRtt,
            Link::WatchEarlyData,
            Link::ReadJls
        ]
    );
    assert_eq!(end, LinkEnd::Ready { refused: false });
}

#[test]
fn link_without_ticket_falls_back() {
    let (done, end) = run(true, Ok(()), false, Ok(()), Some(true));
    assert_eq!(
        done,
        vec![connect(true), Link::IntoZeroRtt, Link::AwaitPeer, Link::ReadJls]
    );
    assert_eq!(end, LinkEnd::Ready { refused: false });
}

#[test]
fn refused_peer_is_closed() {
    let (done, end) = run(false, Ok(()), false, Ok(()), Some(false));
    assert_eq!(done.last(), Some(&Link::Close));
    assert_eq!(end, LinkEnd::Ready { refused: true });
    assert_eq!(CLOSE_CODE, 0);
}

#[test]
fn errors_are_passed_on() {
    let (done, end) = run(true, Err("no route"), true, Ok(()), Some(true));
    assert_eq!(done, vec![connect(true)]);
    assert_eq!(end, LinkEnd::Failed("no route"));
    let (done, end) = run(true, Ok(()), false, Err("timed out"), Some(false));
    assert_eq!(done.len(), 3);
    assert_eq!(end, LinkEnd::Failed("timed out"));
}

#[test]
fn only_a_failed_authentication_refuses() {
    assert!(jls_refused(Some(false)));
    assert!(!jls_refused(Some(true)));
    assert!(!jls_refused(None));
}
