use std::io::ErrorKind;
use std::time::Duration;

use gstrtmpx::client::enhanced_rtmp_capabilities;
use gstrtmpx::client::Capability;
use gstrtmpx::client::ClientOpening;
use gstrtmpx::client::OpeningAction;
use gstrtmpx::client::OpeningEvent;
use gstrtmpx::endpoint::resolve_client_endpoint;
use gstrtmpx::handshake::HandshakeAction;
use gstrtmpx::handshake::HandshakeEvent;
use gstrtmpx::handshake::HandshakeLoop;
use gstrtmpx::handshake::HandshakeProgress;
use gstrtmpx::link::accept_tls_server;
use gstrtmpx::link::read_session_chunk;
use gstrtmpx::link::tcp_connect;
use gstrtmpx::link::ConnectOutcome;
use gstrtmpx::link::IoFault;
use gstrtmpx::link::PacketWriter;
use gstrtmpx::link::ReadOutcome;
use gstrtmpx::link::TlsAcceptFault;
use gstrtmpx::link::WriteOutcome;
use gstrtmpx::link::WriteStep;
use gstrtmpx::script::Call;
use gstrtmpx::script::OnWrite;
use gstrtmpx::script::Op;
use gstrtmpx::script::Outcome;
use gstrtmpx::script::Progress;
use gstrtmpx::script::Script;
use gstrtmpx::script::ScriptRun;
use gstrtmpx::script::Conclusion;
use gstrtmpx::session::write_client_results;
use gstrtmpx::session::write_packet_bytes;
use gstrtmpx::session::write_session_results;
use gstrtmpx::session::ClientSessionEvent;
use gstrtmpx::session::ClientSessionResult;
use gstrtmpx::session::ServerSessionEvent;
use gstrtmpx::session::ServerSessionResult;
use gstrtmpx::worker::is_client_io_error;
use gstrtmpx::worker::nanoseconds_timeout;
use gstrtmpx::worker::PublishIds;
use gstrtmpx::worker::SessionFailure;
use gstrtmpx::worker::WorkerOutput;

fn fault(kind: ErrorKind) -> IoFault {
    IoFault { kind, text: "boom".to_string() }
}

#[test]
fn zero_disables_a_timeout() {
    assert_eq!(nanoseconds_timeout(0), None);
    assert_eq!(nanoseconds_timeout(1), Some(Duration::from_nanos(1)));
    assert_eq!(nanoseconds_timeout(10_000_000_000), Some(Duration::from_secs(10)));
}

#[test]
fn vanished_peers_are_told_from_other_errors() {
    for kind in [
        ErrorKind::ConnectionAborted,
        ErrorKind::ConnectionReset,
        ErrorKind::UnexpectedEof,
        ErrorKind::BrokenPipe,
        ErrorKind::TimedOut,
    ] {
        assert!(is_client_io_error(kind));
    }
    for kind in [
        ErrorKind::NotFound,
        ErrorKind::PermissionDenied,
        ErrorKind::ConnectionRefused,
        ErrorKind::InvalidData,
        ErrorKind::Interrupted,
        ErrorKind::Other,
    ] {
        assert!(!is_client_io_error(kind));
    }
}

#[test]
fn failures_know_whether_the_peer_vanished() {
    let gone = SessionFailure::disconnect("gone".to_string());
    assert_eq!((gone.message.as_str(), gone.client_disconnect), ("gone", true));
    let broken = SessionFailure::error("broken".to_string());
    assert_eq!((broken.message.as_str(), broken.client_disconnect), ("broken", false));
}

#[test]
fn publish_ids_are_handed_out_once() {
    let mut ids = PublishIds::first();
    assert_eq!((ids.next, ids.current), (1, 0));
    assert_eq!(ids.start(), 1);
    assert_eq!(ids.start(), 2);
    assert_eq!((ids.next, ids.current), (3, 2));
    let mut later = ids.following();
    assert_eq!((later.next, later.current), (3, 0));
    assert_eq!(later.start(), 3);
    let mut last = PublishIds { next: u64::MAX, current: 0 };
    assert_eq!(last.start(), u64::MAX);
    assert_eq!(last.next, 0);
}

#[test]
fn session_reads_mean_the_same_everywhere() {
    assert_eq!(read_session_chunk(ReadOutcome::Received(vec![1, 2])).unwrap(), vec![1, 2]);
    assert_eq!(read_session_chunk(ReadOutcome::Received(vec![])).unwrap(), Vec::<u8>::new());
    let stopped = read_session_chunk(ReadOutcome::Cancelled).unwrap_err();
    assert_eq!(stopped.message, "worker is shutting down");
    assert!(!stopped.client_disconnect);
    let slow = read_session_chunk(ReadOutcome::TimedOut { nanoseconds: 1_500_000_000 }).unwrap_err();
    assert_eq!(slow.message, "timed out after 1.5s waiting for RTMP input");
    assert!(slow.client_disconnect);
    let gone = read_session_chunk(ReadOutcome::Failed(fault(ErrorKind::BrokenPipe))).unwrap_err();
    assert_eq!(gone.message, "RTMP connection lost: boom");
    assert!(gone.client_disconnect);
    let broken = read_session_chunk(ReadOutcome::Failed(fault(ErrorKind::Other))).unwrap_err();
    assert_eq!(broken.message, "failed to read RTMP input: boom");
    assert!(!broken.client_disconnect);
}

#[test]
fn connect_failures_count_as_vanished_server() {
    assert!(tcp_connect(ConnectOutcome::Connected).is_ok());
    let slow = tcp_connect(ConnectOutcome::TimedOut { nanoseconds: 10_000_000_000 }).unwrap_err();
    assert_eq!(slow.message, "timed out after 10s connecting to RTMP server");
    assert!(slow.client_disconnect);
    let refused = tcp_connect(ConnectOutcome::Refused("refused".to_string())).unwrap_err();
    assert_eq!(refused.message, "failed to connect to RTMP server: refused");
    assert!(refused.client_disconnect);
    let odd = tcp_connect(ConnectOutcome::NoDelayFailed("no".to_string())).unwrap_err();
    assert_eq!(odd.message, "Failed to configure TCP_NODELAY: no");
    assert!(!odd.client_disconnect);
}

#[test]
fn tls_accept_failures_are_put_in_words() {
    assert_eq!(
        accept_tls_server(&TlsAcceptFault::TimedOut { nanoseconds: 250_000_000 }),
        "timed out after 250ms waiting for the TLS handshake"
    );
    assert_eq!(
        accept_tls_server(&TlsAcceptFault::Failed("eof".to_string())),
        "TLS handshake failed: eof"
    );
}

/// Writes everything and lists what reached the socket; `None` is a flush.
fn write_all(writer: PacketWriter) -> Vec<Option<Vec<u8>>> {
    let mut written = Vec::new();
    let mut step = writer.next(WriteOutcome::Done);
    loop {
        step = match step {
            WriteStep::Write { packet, writer } => {
                written.push(Some(packet));
                writer.next(WriteOutcome::Done)
            }
            WriteStep::Flush { writer } => {
                written.push(None);
                writer.next(WriteOutcome::Done)
            }
            WriteStep::Over(result) => {
                assert!(result.is_ok());
                return written;
            }
        };
    }
}

#[test]
fn only_outbound_packets_are_written() {
    let results = vec![
        ClientSessionResult::RaisedEvent(ClientSessionEvent::Other),
        ClientSessionResult::OutboundResponse(vec![1]),
        ClientSessionResult::UnhandleableMessageReceived,
        ClientSessionResult::OutboundResponse(vec![2, 3]),
    ];
    assert_eq!(
        write_all(write_client_results(results)),
        vec![Some(vec![1]), Some(vec![2, 3]), None]
    );
    let results = vec![
        ServerSessionResult::OutboundResponse(vec![4]),
        ServerSessionResult::RaisedEvent(ServerSessionEvent::Other),
    ];
    assert_eq!(write_all(write_session_results(results)), vec![Some(vec![4]), None]);
    assert_eq!(write_all(write_packet_bytes(vec![5])), vec![Some(vec![5]), None]);
    assert!(write_all(write_client_results(vec![])).is_empty());
}

#[test]
fn write_failures_name_the_traffic() {
    let fail = |writer: PacketWriter, outcome: WriteOutcome| match writer.next(WriteOutcome::Done) {
        WriteStep::Write { writer, .. } => match writer.next(outcome) {
            WriteStep::Over(Err(failure)) => (failure.message, failure.client_disconnect),
            step => panic!("{step:?}"),
        },
        step => panic!("{step:?}"),
    };
    let request = || write_client_results(vec![ClientSessionResult::OutboundResponse(vec![1])]);
    let response = || write_session_results(vec![ServerSessionResult::OutboundResponse(vec![1])]);
    let media = || write_packet_bytes(vec![1]);
    let slow = || WriteOutcome::TimedOut { nanoseconds: 1_000_000_000 };
    let gone = || WriteOutcome::Failed(fault(ErrorKind::ConnectionReset));
    let odd = || WriteOutcome::Failed(fault(ErrorKind::Other));
    let said = |text: &str, disconnect: bool| (text.to_string(), disconnect);
    assert_eq!(fail(request(), slow()), said("timed out after 1s writing RTMP request", true));
    assert_eq!(fail(request(), gone()), said("RTMP connection lost while writing: boom", true));
    assert_eq!(fail(request(), odd()), said("failed to write RTMP request: boom", false));
    assert_eq!(fail(response(), slow()), said("timed out after 1s writing RTMP response", true));
    assert_eq!(fail(response(), gone()), said("RTMP connection lost while writing: boom", true));
    assert_eq!(fail(response(), odd()), said("failed to write RTMP response: boom", false));
    assert_eq!(fail(media(), slow()), said("timed out after 1s writing RTMP media", true));
    assert_eq!(fail(media(), gone()), said("RTMP player went away while writing: boom", true));
    assert_eq!(fail(media(), odd()), said("failed to write RTMP media: boom", false));
}

#[test]
fn failed_flush_fails_the_write() {
    let writer = write_packet_bytes(vec![1]);
    let writer = match writer.next(WriteOutcome::Done) {
        WriteStep::Write { writer, .. } => writer,
        step => panic!("{step:?}"),
    };
    let writer = match writer.next(WriteOutcome::Done) {
        WriteStep::Flush { writer } => writer,
        step => panic!("{step:?}"),
    };
    match writer.next(WriteOutcome::Failed(fault(ErrorKind::BrokenPipe))) {
        WriteStep::Over(Err(failure)) => assert!(failure.client_disconnect),
        step => panic!("{step:?}"),
    }
}

fn script_of(ops: Vec<Op>, conclusion: Conclusion) -> Script {
    let mut script = Script::ending(conclusion);
    for op in ops {
        script.push(op);
    }
    script
}

#[test]
fn scripts_make_their_calls_in_order() {
    let script = script_of(
        vec![
            Op::send(WorkerOutput::Eos),
            Op::anyway(Call::Cancel),
            Op::write(vec![7]),
        ],
        Conclusion::Finished,
    );
    let mut made = Vec::new();
    let mut progress = ScriptRun::new(script).next(Outcome::Done);
    loop {
        progress = match progress {
            Progress::Perform { call, run } => {
                made.push(format!("{call:?}"));
                run.next(Outcome::Done)
            }
            Progress::Over(conclusion) => {
                assert!(matches!(conclusion, Conclusion::Finished));
                break;
            }
        };
    }
    assert_eq!(made, vec!["Send(Eos)", "Cancel", "Write([7])"]);
}

#[test]
fn script_failures_follow_their_policy() {
    let end = |op: Op, outcome: Outcome| {
        match ScriptRun::new(script_of(vec![op], Conclusion::Continue)).next(Outcome::Done) {
            Progress::Perform { run, .. } => match run.next(outcome) {
                Progress::Over(Conclusion::Failed(failure)) => {
                    Some((failure.message, failure.client_disconnect))
                }
                Progress::Over(_) => None,
                progress => panic!("{progress:?}"),
            },
            progress => panic!("{progress:?}"),
        }
    };
    let lost = || Outcome::WriteFailed(SessionFailure::disconnect("lost".to_string()));
    let said = |text: &str, disconnect: bool| Some((text.to_string(), disconnect));
    assert_eq!(
        end(Op::send(WorkerOutput::Wake), Outcome::Closed),
        said("listener is shutting down", false)
    );
    assert_eq!(end(Op::anyway(Call::Offer(WorkerOutput::Wake)), Outcome::Closed), None);
    assert_eq!(end(Op::anyway(Call::ShutDown), lost()), None);
    assert_eq!(end(Op::write(vec![1]), lost()), said("lost", true));
    let ask = |on_write: OnWrite| {
        Op::ask(Call::AcceptPublish { request_id: 1 }, "failed to accept", on_write)
    };
    assert_eq!(
        end(ask(OnWrite::Fail), Outcome::Refused("no".to_string())),
        said("failed to accept: no", false)
    );
    assert_eq!(end(ask(OnWrite::Fail), lost()), said("lost", true));
    assert_eq!(end(ask(OnWrite::FailAsError), lost()), said("lost", false));
    assert_eq!(end(ask(OnWrite::Ignore), lost()), None);
}

fn returned(action: HandshakeAction) -> Result<Vec<u8>, (String, bool)> {
    match action {
        HandshakeAction::Return(result) => {
            result.map_err(|failure| (failure.message, failure.client_disconnect))
        }
        action => panic!("{action:?}"),
    }
}

#[test]
fn server_handshake_answers_and_returns_what_follows() {
    let mut handshake = HandshakeLoop::server_handshake();
    assert!(matches!(
        handshake.handshake_loop(HandshakeEvent::Connected),
        HandshakeAction::Read
    ));
    match handshake.handshake_loop(HandshakeEvent::Read(ReadOutcome::Received(vec![3]))) {
        HandshakeAction::Process(bytes) => assert_eq!(bytes, vec![3]),
        action => panic!("{action:?}"),
    }
    let progress = HandshakeProgress::InProgress { response: vec![] };
    assert!(matches!(
        handshake.handshake_loop(HandshakeEvent::Processed(progress)),
        HandshakeAction::Read
    ));
    let progress = HandshakeProgress::InProgress { response: vec![9] };
    match handshake.handshake_loop(HandshakeEvent::Processed(progress)) {
        HandshakeAction::Write(bytes) => assert_eq!(bytes, vec![9]),
        action => panic!("{action:?}"),
    }
    assert!(matches!(handshake.handshake_loop(HandshakeEvent::Wrote), HandshakeAction::Read));
    let progress = HandshakeProgress::Completed { response: vec![8], remaining: vec![0x42] };
    assert!(matches!(
        handshake.handshake_loop(HandshakeEvent::Processed(progress)),
        HandshakeAction::Write(_)
    ));
    assert_eq!(returned(handshake.handshake_loop(HandshakeEvent::Wrote)), Ok(vec![0x42]));
}

#[test]
fn client_handshake_opens_the_conversation() {
    let mut handshake = HandshakeLoop::client_handshake();
    assert!(matches!(
        handshake.handshake_loop(HandshakeEvent::Connected),
        HandshakeAction::Generate
    ));
    match handshake.handshake_loop(HandshakeEvent::Generated(vec![1, 2])) {
        HandshakeAction::Write(bytes) => assert_eq!(bytes, vec![1, 2]),
        action => panic!("{action:?}"),
    }
    assert!(matches!(handshake.handshake_loop(HandshakeEvent::Wrote), HandshakeAction::Read));
    let progress = HandshakeProgress::Completed { response: vec![], remaining: vec![] };
    assert_eq!(
        returned(handshake.handshake_loop(HandshakeEvent::Processed(progress))),
        Ok(vec![])
    );
}

#[test]
fn handshake_failures_name_the_peer() {
    let server = |event| returned(HandshakeLoop::server_handshake().handshake_loop(event));
    let client = |event| returned(HandshakeLoop::client_handshake().handshake_loop(event));
    let said = |text: &str, disconnect: bool| Err((text.to_string(), disconnect));
    // A peer that connects and vanishes before it sends anything.
    assert_eq!(
        server(HandshakeEvent::Read(ReadOutcome::Received(vec![]))),
        said("publisher closed the connection during handshake", true)
    );
    assert_eq!(
        client(HandshakeEvent::Read(ReadOutcome::Failed(fault(ErrorKind::ConnectionReset)))),
        said("RTMP server closed the connection during handshake: boom", true)
    );
    assert_eq!(
        server(HandshakeEvent::Read(ReadOutcome::Failed(fault(ErrorKind::Other)))),
        said("failed to read RTMP handshake: boom", false)
    );
    assert_eq!(
        server(HandshakeEvent::Read(ReadOutcome::TimedOut { nanoseconds: 10_000_000_000 })),
        said("timed out after 10s waiting for RTMP handshake input", true)
    );
    assert_eq!(
        server(HandshakeEvent::Read(ReadOutcome::Cancelled)),
        said("listener is shutting down", false)
    );
    assert_eq!(
        server(HandshakeEvent::WriteFailed(fault(ErrorKind::BrokenPipe))),
        said("publisher closed the connection during handshake: boom", true)
    );
    assert_eq!(
        client(HandshakeEvent::WriteFailed(fault(ErrorKind::Other))),
        said("failed to write RTMP handshake: boom", false)
    );
    assert_eq!(
        server(HandshakeEvent::FlushFailed(fault(ErrorKind::BrokenPipe))),
        said("failed to write RTMP handshake: boom", false)
    );
    assert_eq!(
        server(HandshakeEvent::ProcessRefused("bad".to_string())),
        said("publisher handshake failed: bad", false)
    );
    assert_eq!(
        client(HandshakeEvent::ProcessRefused("bad".to_string())),
        said("RTMP handshake failed: bad", false)
    );
    assert_eq!(
        client(HandshakeEvent::GenerateRefused("bad".to_string())),
        said("failed to start RTMP handshake: bad", false)
    );
}

#[test]
fn client_opens_its_connection_step_by_step() {
    let endpoint =
        resolve_client_endpoint(Some("rtmps://host:99/live/key".into()), None, "x").unwrap();
    let mut opening = ClientOpening::new(endpoint, 5);
    match opening.step(OpeningEvent::Begin) {
        OpeningAction::Connect { host, port, limit } => {
            assert_eq!((host.as_str(), port, limit), ("host", 99, Some(Duration::from_nanos(5))));
        }
        action => panic!("{action:?}"),
    }
    match opening.step(OpeningEvent::ConnectOver(ConnectOutcome::Connected)) {
        OpeningAction::Secure { host } => assert_eq!(host, "host"),
        action => panic!("{action:?}"),
    }
    assert!(matches!(opening.step(OpeningEvent::Secured), OpeningAction::Handshake));
    match opening.step(OpeningEvent::HandshakeOver(Ok(vec![1, 2]))) {
        OpeningAction::CreateSession(config) => {
            assert_eq!(config.window_ack_size, 2_500_000);
            assert_eq!(config.chunk_size, 4096);
            assert_eq!(config.tc_url, "rtmps://host:99/live");
        }
        action => panic!("{action:?}"),
    }
    match opening.step(OpeningEvent::SessionReady) {
        OpeningAction::Run(script) => {
            assert_eq!(script.ops.len(), 1);
            assert!(matches!(
                &script.ops[0].call,
                Call::RequestConnection { app } if app == "live"
            ));
        }
        action => panic!("{action:?}"),
    }
    match opening.step(OpeningEvent::ScriptOver(Conclusion::Continue)) {
        OpeningAction::Return(Ok(carry)) => assert_eq!(carry, vec![1, 2]),
        action => panic!("{action:?}"),
    }
}

#[test]
fn plain_client_skips_tls_and_reports_failures() {
    let endpoint = resolve_client_endpoint(Some("rtmp://host/live/key".into()), None, "x").unwrap();
    let mut opening = ClientOpening::new(endpoint, 0);
    assert!(matches!(
        opening.step(OpeningEvent::Begin),
        OpeningAction::Connect { limit: None, .. }
    ));
    assert!(matches!(
        opening.step(OpeningEvent::ConnectOver(ConnectOutcome::Connected)),
        OpeningAction::Handshake
    ));
    match opening.step(OpeningEvent::SessionRefused("no".to_string())) {
        OpeningAction::Return(Err(failure)) => {
            assert_eq!(failure.message, "failed to create RTMP session: no");
        }
        action => panic!("{action:?}"),
    }
    match opening.step(OpeningEvent::ConnectOver(ConnectOutcome::Refused("no".to_string()))) {
        OpeningAction::Return(Err(failure)) => assert!(failure.client_disconnect),
        action => panic!("{action:?}"),
    }
}

#[test]
fn capabilities_are_advertised() {
    let properties = enhanced_rtmp_capabilities();
    let names: Vec<&str> = properties.iter().map(|(name, _)| name.as_str()).collect();
    assert_eq!(names, vec!["fourCcList", "videoFourCcInfoMap", "audioFourCcInfoMap", "capsEx"]);
    assert!(matches!(&properties[0].1, Capability::List(list) if list == &vec!["*".to_string()]));
    assert!(matches!(
        &properties[1].1,
        Capability::Numbers(map) if map == &vec![("*".to_string(), 4)]
    ));
    assert!(matches!(
        &properties[2].1,
        Capability::Numbers(map) if map == &vec![("*".to_string(), 4)]
    ));
    assert!(matches!(&properties[3].1, Capability::Number(14)));
}
