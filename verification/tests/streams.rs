use shadowquic::error::SError;
use shadowquic::msgs::{tcp_request, udp_request, ProxyRequest, SQCmd, SQReq};
use shadowquic::outbound::{associate_udp, connect_tcp};
use shadowquic::session::{Handle, HandleEvent, HandleNext};
use shadowquic::stream::{
    control_verdict, plan, Relay, StreamEvent, StreamNext, StreamTask, UDP_CHANNEL_CAPACITY,
};

type Next = StreamNext<&'static str, &'static str>;

#[test]
fn commands_tell_what_is_asked_for() {
    assert_eq!(tcp_request("a:1"), SQReq { cmd: SQCmd::Connect, dst: "a:1" });
    assert_eq!(
        udp_request("a:1", true),
        SQReq { cmd: SQCmd::AssociatOverStream, dst: "a:1" }
    );
    assert_eq!(
        udp_request("a:1", false),
        SQReq { cmd: SQCmd::AssociatOverDatagram, dst: "a:1" }
    );
}

#[test]
fn plans_follow_the_request() {
    let (req, relay) = plan(ProxyRequest::Tcp { dst: "a:1" }, true, true);
    assert_eq!(req.cmd, SQCmd::Connect);
    assert_eq!(relay, Relay::Copy);
    for over_stream in [false, true] {
        for control in [false, true] {
            for mind in [false, true] {
                let request = ProxyRequest::Udp { dst: "b:2", control };
                let (req, relay) = plan(request, over_stream, mind);
                assert_eq!(req, udp_request("b:2", over_stream));
                assert_eq!(relay, Relay::Join { over_stream, control: control && mind });
            }
        }
    }
}

#[test]
fn tcp_stream_is_handed_out_after_its_request() {
    let open = connect_tcp("a:1");
    assert_eq!(open, StreamTask::Open { req: tcp_request("a:1"), relay: Relay::HandOut });
    let send: Next = open.after(StreamEvent::Opened(Ok(())));
    let req = tcp_request("a:1");
    assert_eq!(send, StreamNext::More(StreamTask::Send { req, relay: Relay::HandOut }));
    let send = StreamTask::Send { req: tcp_request("a:1"), relay: Relay::HandOut };
    let end: Next = send.after(StreamEvent::Sent(Ok(())));
    assert_eq!(end, StreamNext::Done(Ok(())));
}

#[test]
fn udp_association_spawns_its_relay() {
    let open = associate_udp("b:2", true);
    let relay = Relay::Spawn { over_stream: true };
    assert_eq!(open, StreamTask::Open { req: udp_request("b:2", true), relay });
    let send = StreamTask::Send { req: udp_request("b:2", true), relay };
    let run: Next = send.after(StreamEvent::Sent(Ok(())));
    assert_eq!(run, StreamNext::More(StreamTask::Use(relay)));
    let end: Next = StreamTask::Use(relay).after(StreamEvent::Used(Ok(())));
    assert_eq!(end, StreamNext::Done(Ok(())));
    assert_eq!(UDP_CHANNEL_CAPACITY, 10);
}

#[test]
fn stream_errors_end_the_task() {
    let end: Next = connect_tcp("a:1").after(StreamEvent::Opened(Err("lost")));
    assert_eq!(end, StreamNext::Done(Err(SError::External("lost"))));
    let send = StreamTask::Send { req: tcp_request("a:1"), relay: Relay::Copy };
    let end: Next = send.after(StreamEvent::Sent(Err(SError::External("stopped"))));
    assert_eq!(end, StreamNext::Done(Err(SError::External("stopped"))));
    let closed = || SError::UDPSessionClosed("gone".to_string());
    let relay = Relay::Join { over_stream: false, control: true };
    let end: Next = StreamTask::Use(relay).after(StreamEvent::Used(Err(closed())));
    assert_eq!(end, StreamNext::Done(Err(closed())));
}

#[test]
fn control_stream_ends_the_association() {
    assert_eq!(control_verdict::<u8>(None), Ok(()));
    assert_eq!(
        control_verdict::<u8>(Some(Err("early eof".to_string()))),
        Err(SError::UDPSessionClosed("early eof".to_string()))
    );
    assert_eq!(
        control_verdict::<u8>(Some(Ok(()))),
        Err(SError::UDPSessionClosed(
            "unexpected data received from socks control stream".to_string()
        ))
    );
}

#[test]
fn stream_is_opened_before_the_task_takes_over() {
    let req = || tcp_request("a:1");
    let relay = Relay::Copy;
    let prepare = Handle::Prepare { req: req(), relay, open_first: true };
    let open: HandleNext<_, &str> = prepare.after(HandleEvent::Prepared(Ok(())));
    assert_eq!(open, HandleNext::More(Handle::Open { req: req(), relay }));
    let open = Handle::Open { req: req(), relay };
    let spawn: HandleNext<_, &str> = open.after(HandleEvent::Opened(Ok(())));
    assert_eq!(spawn, HandleNext::Spawn(StreamTask::Send { req: req(), relay }));
}

#[test]
fn request_without_connection_or_stream_fails() {
    let prepare = Handle::Prepare { req: tcp_request(1), relay: Relay::Copy, open_first: true };
    let end: HandleNext<_, &str> = prepare.after(HandleEvent::Prepared(Err(SError::JlsAuthFailed)));
    assert_eq!(end, HandleNext::Failed(SError::JlsAuthFailed));
    let open = Handle::Open { req: tcp_request(1), relay: Relay::Copy };
    let end: HandleNext<_, &str> = open.after(HandleEvent::Opened(Err("lost")));
    assert_eq!(end, HandleNext::Failed(SError::External("lost")));
}

#[test]
fn either_side_may_open_the_stream() {
    for open_first in [false, true] {
        let mut opens = 0;
        let mut handle = Handle::Prepare { req: tcp_request(1), relay: Relay::Copy, open_first };
        let mut task = loop {
            let event = match &handle {
                Handle::Prepare { .. } => HandleEvent::<&str>::Prepared(Ok(())),
                Handle::Open { .. } => {
                    opens += 1;
                    HandleEvent::Opened(Ok(()))
                }
            };
            match handle.after(event) {
                HandleNext::More(next) => handle = next,
                HandleNext::Spawn(task) => break task,
                HandleNext::Failed(_) => panic!("nothing failed"),
            }
        };
        let mut sends = vec![];
        loop {
            let event = match &task {
                StreamTask::Open { .. } => {
                    opens += 1;
                    StreamEvent::<&str>::Opened(Ok(()))
                }
                StreamTask::Send { req, .. } => {
                    sends.push((req.cmd, req.dst));
                    StreamEvent::Sent(Ok(()))
                }
                StreamTask::Use(_) => StreamEvent::Used(Ok(())),
            };
            match task.after(event) {
                StreamNext::More(next) => task = next,
                StreamNext::Done(end) => {
                    assert_eq!(end, Ok(()));
                    break;
                }
            }
        }
        assert_eq!(opens, 1);
        assert_eq!(sends, vec![(SQCmd::Connect, 1)]);
    }
}
