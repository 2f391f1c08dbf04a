use dns_over_https::{
    run_status, Action, ArgVerbosity, Args, DispatchError, Dispatcher, Event, IpAddress, Phase,
    Request, RunOutcome, ShutdownSlot, SocketAddress, StartError,
};

fn client() -> SocketAddress {
    SocketAddress::v4([10, 0, 0, 7], 40000)
}

fn listening(upstreams: usize) -> Dispatcher {
    let mut d = Dispatcher::new(SocketAddress::v4([127, 0, 0, 1], 53), upstreams);
    assert_eq!(d.step(Event::Bound), Action::AwaitRequest);
    assert_eq!(d.phase(), Phase::Listening);
    d
}

#[test]
fn verbosity_codes_round_trip() {
    let all = [
        ArgVerbosity::Off,
        ArgVerbosity::Error,
        ArgVerbosity::Warn,
        ArgVerbosity::Info,
        ArgVerbosity::Debug,
        ArgVerbosity::Trace,
    ];
    for (i, v) in all.iter().enumerate() {
        assert_eq!(v.code(), i as i32);
        assert_eq!(ArgVerbosity::try_from_code(i as i32), Some(*v));
    }
    assert_eq!(ArgVerbosity::try_from_code(6), None);
    assert_eq!(ArgVerbosity::try_from_code(-1), None);
}

#[test]
fn verbosity_names_and_default() {
    assert_eq!(ArgVerbosity::Off.name(), "off");
    assert_eq!(ArgVerbosity::Warn.name(), "warn");
    assert_eq!(ArgVerbosity::Trace.name(), "trace");
    assert_eq!(ArgVerbosity::default(), ArgVerbosity::Info);
    assert!(ArgVerbosity::Error < ArgVerbosity::Debug);
}

#[test]
fn first_answer_after_failures_is_replied_once() {
    let mut d = listening(4);
    let body = vec![0x12, 0x34, 1, 0, 0, 1];
    let a = d.step(Event::Received(Request::new(body.clone(), client())));
    assert_eq!(a, Action::Forward { upstream: 0, query: body.clone() });
    assert_eq!(d.step(Event::UpstreamFailed), Action::Forward { upstream: 1, query: body.clone() });
    assert_eq!(d.step(Event::UpstreamFailed), Action::Forward { upstream: 2, query: body.clone() });
    let answer = vec![0x12, 0x34, 0x81, 0x80, 9, 9];
    assert_eq!(
        d.step(Event::UpstreamAnswered(answer.clone())),
        Action::Reply { to: client(), payload: answer }
    );
    assert_eq!(d.phase(), Phase::Replying);
    assert!(!d.accepts(&Event::UpstreamFailed));
    assert_eq!(d.step(Event::ReplySent), Action::AwaitRequest);
    assert_eq!(d.phase(), Phase::Listening);
}

#[test]
fn all_upstreams_failing_drops_the_request() {
    let mut d = listening(3);
    let body = vec![1, 2, 3];
    let mut replies = 0;
    let mut a = d.step(Event::Received(Request::new(body, client())));
    while let Action::Forward { .. } = a {
        a = d.step(Event::UpstreamFailed);
        if let Action::Reply { .. } = a {
            replies += 1;
        }
    }
    assert_eq!(replies, 0);
    assert_eq!(a, Action::AwaitRequest);
    assert_eq!(d.phase(), Phase::Listening);
}

#[test]
fn no_upstreams_drops_the_request() {
    let mut d = listening(0);
    let a = d.step(Event::Received(Request::new(vec![5], client())));
    assert_eq!(a, Action::AwaitRequest);
}

#[test]
fn echoing_upstream_returns_exact_bytes() {
    let mut d = listening(2);
    let body: Vec<u8> = (0..=255u8).chain(0..=255u8).collect();
    let query = match d.step(Event::Received(Request::new(body.clone(), client()))) {
        Action::Forward { upstream: 0, query } => query,
        other => panic!("unexpected action {:?}", other),
    };
    assert_eq!(query, body);
    match d.step(Event::UpstreamAnswered(query)) {
        Action::Reply { to, payload } => {
            assert_eq!(to, client());
            assert_eq!(payload, body);
        }
        other => panic!("unexpected action {:?}", other),
    }
}

#[test]
fn receive_error_keeps_listening() {
    let mut d = listening(1);
    assert_eq!(d.step(Event::ReceiveFailed), Action::AwaitRequest);
    assert_eq!(d.phase(), Phase::Listening);
    assert!(d.accepts(&Event::ShutdownFired));
}

#[test]
fn shutdown_at_loop_top_stops() {
    let mut d = listening(1);
    assert_eq!(d.step(Event::ShutdownFired), Action::Exit(Ok(())));
    assert_eq!(d.phase(), Phase::Stopped);
    assert!(!d.accepts(&Event::Bound));
}

#[test]
fn bind_failure_ends_the_listener() {
    let mut d = Dispatcher::new(SocketAddress::v4([192, 0, 2, 1], 53), 1);
    assert!(d.accepts(&Event::BindFailed));
    assert_eq!(d.step(Event::BindFailed), Action::Exit(Err(DispatchError::Bind)));
    assert_eq!(d.phase(), Phase::Stopped);
}

#[test]
fn reply_failure_ends_the_listener() {
    let mut d = listening(1);
    d.step(Event::Received(Request::new(vec![1], client())));
    d.step(Event::UpstreamAnswered(vec![2]));
    assert_eq!(d.step(Event::ReplyFailed), Action::Exit(Err(DispatchError::Reply)));
    assert_eq!(d.phase(), Phase::Stopped);
}

#[test]
fn one_listener_per_bind_address() {
    let binds = vec![
        SocketAddress::v4([127, 0, 0, 1], 53),
        SocketAddress::v6([0, 0, 0, 0, 0, 0, 0, 0, 0, 0, 0, 0, 0, 0, 0, 1], 53),
        SocketAddress::v4([127, 0, 0, 1], 5353),
    ];
    let mut slot = ShutdownSlot::new();
    let inst = slot.start(&binds, 2).unwrap();
    assert_eq!(inst.listeners.len(), 3);
    for (l, b) in inst.listeners.iter().zip(binds.iter()) {
        assert_eq!(l.bind_address(), *b);
        assert_eq!(l.phase(), Phase::Idle);
    }
    let mut ls = inst.listeners;
    assert_eq!(ls[0].step(Event::BindFailed), Action::Exit(Err(DispatchError::Bind)));
    assert_eq!(ls[1].step(Event::Bound), Action::AwaitRequest);
    assert_eq!(
        ls[1].step(Event::Received(Request::new(vec![7], client()))),
        Action::Forward { upstream: 0, query: vec![7] }
    );
    assert_eq!(ls[2].phase(), Phase::Idle);
    assert!(slot.stop().is_some());
}

#[test]
fn stop_is_idempotent() {
    let mut slot = ShutdownSlot::new();
    assert!(slot.stop().is_none());
    assert!(!slot.is_running());
    let inst = slot.start(&vec![client()], 1).unwrap();
    assert!(!inst.shutdown.is_cancelled());
    let fired = slot.stop().unwrap();
    assert!(*fired.token() == inst.shutdown);
    assert!(inst.shutdown.is_cancelled());
    assert!(slot.stop().is_none());
    assert!(!slot.is_running());
    assert!(slot.start(&vec![client()], 1).is_ok());
}

#[test]
fn second_start_is_refused() {
    let mut slot = ShutdownSlot::new();
    let first = slot.start(&vec![client()], 1).unwrap();
    assert!(matches!(slot.start(&vec![client()], 1), Err(StartError::AlreadyRunning)));
    assert!(slot.is_running());
    assert!(!first.shutdown.is_cancelled());
    assert!(slot.stop().is_some());
    assert!(first.shutdown.is_cancelled());
}

#[test]
fn embedding_defaults() {
    let args = Args::for_embedding(None, None, None, ArgVerbosity::Debug);
    assert_eq!(
        args.bind,
        vec![
            SocketAddress { ip: IpAddress::V4([127, 0, 0, 1]), port: 53 },
            SocketAddress { ip: IpAddress::V6([0, 0, 0, 0, 0, 0, 0, 0, 0, 0, 0, 0, 0, 0, 0, 1]), port: 53 },
        ]
    );
    assert_eq!(args.upstream_urls, vec!["https://1.1.1.1/dns-query".to_string()]);
    assert_eq!(args.verbosity, ArgVerbosity::Debug);
    assert_eq!(args.max_datagram, 4096);
}

#[test]
fn embedding_given_values() {
    let b = SocketAddress::v4([0, 0, 0, 0], 5300);
    let args = Args::for_embedding(None, Some(b), Some("https://dns.example/q".to_string()), ArgVerbosity::Off);
    assert_eq!(args.bind, vec![b]);
    assert_eq!(args.upstream_urls, vec!["https://dns.example/q".to_string()]);
    assert_eq!(args.verbosity, ArgVerbosity::Off);
}

#[test]
fn builders_append_in_order() {
    let mut args = Args::default();
    args.bind(client()).bind(SocketAddress::v4([1, 1, 1, 1], 53)).upstream_url("u1".to_string());
    args.upstream_url("u2".to_string()).verbosity(ArgVerbosity::Trace);
    assert_eq!(args.bind, vec![client(), SocketAddress::v4([1, 1, 1, 1], 53)]);
    assert_eq!(args.upstream_urls, vec!["u1".to_string(), "u2".to_string()]);
    assert_eq!(args.verbosity, ArgVerbosity::Trace);
    assert_eq!(args.max_datagram, 4096);
    args.max_datagram(1232);
    assert_eq!(args.max_datagram, 1232);
    assert_eq!(args.bind.len(), 2);
}

#[test]
fn run_status_codes() {
    assert_eq!(run_status(RunOutcome::Completed), 0);
    assert_eq!(run_status(RunOutcome::RuntimeUnavailable), -3);
    assert_eq!(run_status(RunOutcome::LoopFailed), -4);
}
