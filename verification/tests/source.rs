use std::time::Duration;

use gstrtmpx::flv::frame_flv_tag;
use gstrtmpx::flv::FlvDemux;
use gstrtmpx::flv::FLV_HEADER;
use gstrtmpx::handshake::HandshakeAction;
use gstrtmpx::handshake::HandshakeEvent;
use gstrtmpx::handshake::HandshakeLoop;
use gstrtmpx::link::ReadOutcome;
use gstrtmpx::link::TlsAcceptFault;
use gstrtmpx::property::PropertyValue;
use gstrtmpx::script::Call;
use gstrtmpx::script::Outcome;
use gstrtmpx::script::Progress;
use gstrtmpx::script::Script;
use gstrtmpx::script::ScriptRun;
use gstrtmpx::script::Conclusion;
use gstrtmpx::session::ClientSessionEvent;
use gstrtmpx::session::ClientSessionResult;
use gstrtmpx::session::ServerSessionEvent;
use gstrtmpx::session::ServerSessionResult;
use gstrtmpx::sink_publish::PublishAction;
use gstrtmpx::sink_publish::PublishEvent;
use gstrtmpx::sink_publish::PublishingConnection;
use gstrtmpx::source::property_named;
use gstrtmpx::source::CreateEvent;
use gstrtmpx::source::Emission;
use gstrtmpx::source::Flow;
use gstrtmpx::source::Settings;
use gstrtmpx::source::SourceMode;
use gstrtmpx::source::SourceProperty;
use gstrtmpx::source::StreamState;
use gstrtmpx::source_listen::ListenWorker;
use gstrtmpx::source_listen::PublishSession;
use gstrtmpx::source_listen::PublisherConnection;
use gstrtmpx::source_listen::ServeAction;
use gstrtmpx::source_listen::ServeEvent;
use gstrtmpx::source_listen::WorkerAction;
use gstrtmpx::source_listen::WorkerEvent;
use gstrtmpx::source_play::PlayEvent;
use gstrtmpx::source_play::PlaySession;
use gstrtmpx::source_play::PlayWorker;
use gstrtmpx::source_play::PlayWorkerAction;
use gstrtmpx::source_play::PlayWorkerEvent;
use gstrtmpx::start::resolve_endpoint;
use gstrtmpx::start::start_client;
use gstrtmpx::start::ClientStartEvent;
use gstrtmpx::start::Element;
use gstrtmpx::start::ErrorKind;
use gstrtmpx::start::ListenSettings;
use gstrtmpx::start::ListenStart;
use gstrtmpx::start::StartAction;
use gstrtmpx::start::StartEvent;
use gstrtmpx::worker::PublishIds;
use gstrtmpx::worker::SessionFailure;
use gstrtmpx::worker::WorkerOutput;

fn frame_tag(tag_type: u8, timestamp: u32, payload: &[u8]) -> Vec<u8> {
    frame_flv_tag(tag_type, timestamp, payload).unwrap()
}

/// Makes every call of a script and says how it ends.
fn run(script: Script, calls: &mut Vec<Call>) -> Conclusion {
    let mut progress = ScriptRun::new(script).next(Outcome::Done);
    loop {
        progress = match progress {
            Progress::Perform { call, run } => {
                calls.push(call);
                run.next(Outcome::Done)
            }
            Progress::Over(conclusion) => return conclusion,
        };
    }
}

fn outputs(calls: Vec<Call>) -> Vec<WorkerOutput> {
    calls
        .into_iter()
        .filter_map(|call| match call {
            Call::Send(output) | Call::Offer(output) => Some(output),
            _ => None,
        })
        .collect()
}

/// A publisher's connection to a listening source.
struct Publisher {
    connection: PublisherConnection,
    calls: Vec<Call>,
    rejected: bool,
    ended: Option<Result<bool, (String, bool)>>,
}

impl Publisher {
    fn connect(key: &str, keep_listening: bool, ids: PublishIds) -> Publisher {
        let session = PublishSession::new(
            Some("live".to_string()),
            Some(key.to_string()),
            keep_listening,
            ids,
        );
        let mut publisher = Publisher {
            connection: PublisherConnection::new(session),
            calls: Vec::new(),
            rejected: false,
            ended: None,
        };
        publisher.event(ServeEvent::HandshakeOver(Ok(vec![])));
        publisher.raise(ServerSessionEvent::ConnectionRequested {
            request_id: 1,
            app_name: "live".to_string(),
        });
        publisher
    }

    fn event(&mut self, event: ServeEvent) {
        let mut action = self.connection.serve_publisher(event);
        loop {
            let event = match action {
                ServeAction::CreateSession => ServeEvent::SessionReady,
                ServeAction::Feed(_) => ServeEvent::Fed,
                ServeAction::NextResult => ServeEvent::NoMoreResults,
                ServeAction::Run(script) => {
                    let conclusion = run(script, &mut self.calls);
                    self.rejected = self.rejected
                        || self.calls.iter().any(|call| matches!(call, Call::MarkRejected));
                    ServeEvent::ScriptOver(conclusion)
                }
                ServeAction::Read => return,
                ServeAction::Return(result) => {
                    self.ended = Some(
                        result.map_err(|failure| (failure.message, failure.client_disconnect)),
                    );
                    return;
                }
            };
            action = self.connection.serve_publisher(event);
        }
    }

    fn raise(&mut self, event: ServerSessionEvent) {
        self.event(ServeEvent::Result(ServerSessionResult::RaisedEvent(event)));
    }

    fn publish(&mut self, key: &str) {
        self.raise(ServerSessionEvent::PublishStreamRequested {
            request_id: 2,
            app_name: "live".to_string(),
            stream_key: key.to_string(),
            stream_id: 1,
        });
    }
}

/// A small FLV stream: one script tag plus interleaved video and audio tags
/// with distinct timestamps and payloads.
fn canned_stream() -> (Vec<u8>, Vec<(u8, u32, Vec<u8>)>) {
    let mut body = FLV_HEADER.to_vec();
    let mut expected = Vec::new();
    let script_payload: Vec<u8> = (0..16).collect();
    body.extend_from_slice(&frame_tag(18, 0, &script_payload));
    expected.push((18u8, 0u32, script_payload));
    for i in 0..10u8 {
        let timestamp = (i as u32 + 1) * 40;
        let video_payload = vec![0x10 + i; 32 + i as usize];
        body.extend_from_slice(&frame_tag(9, timestamp, &video_payload));
        expected.push((9u8, timestamp, video_payload));
        let audio_payload = vec![0xA0 + i; 16];
        body.extend_from_slice(&frame_tag(8, timestamp + 20, &audio_payload));
        expected.push((8u8, timestamp + 20, audio_payload));
    }
    (body, expected)
}

/// Splits bytes so that tags straddle chunk boundaries.
fn awkward_chunks(body: &[u8]) -> Vec<Vec<u8>> {
    let mut chunks = Vec::new();
    let mut pos = 0;
    for size in [5usize, 7, 100, 1000] {
        if pos >= body.len() {
            break;
        }
        let end = (pos + size).min(body.len());
        chunks.push(body[pos..end].to_vec());
        pos = end;
    }
    if pos < body.len() {
        chunks.push(body[pos..].to_vec());
    }
    chunks
}

/// What a publishing sink sends for some chunks, as the other end reports it.
fn published(chunks: Vec<Vec<u8>>) -> Vec<ServerSessionEvent> {
    let mut sink = PublishingConnection::new("key".to_string());
    let mut events = Vec::new();
    for chunk in chunks {
        let script = match sink.publish_until_done(PublishEvent::Data(chunk)) {
            PublishAction::Run(script) => script,
            action => panic!("{action:?}"),
        };
        for op in script.ops {
            if let Call::Publish(tag) = op.call {
                let timestamp = tag.timestamp;
                events.push(match tag.tag_type {
                    8 => ServerSessionEvent::AudioDataReceived { timestamp, data: tag.payload },
                    9 => ServerSessionEvent::VideoDataReceived { timestamp, data: tag.payload },
                    _ => ServerSessionEvent::StreamDataReceived { timestamp, payload: tag.payload },
                });
            }
        }
    }
    events
}

fn parse_tags(bytes: &[u8]) -> Vec<(u8, u32, Vec<u8>)> {
    assert_eq!(&bytes[..13], &FLV_HEADER[..], "src output must start with the FLV header");
    let mut demux = FlvDemux::default();
    let tags = demux.push(bytes);
    assert_eq!(demux.buffered_len(), 0, "trailing garbage after last FLV tag");
    tags.into_iter().map(|tag| (tag.tag_type, tag.timestamp, tag.payload)).collect()
}

#[test]
fn listen_roundtrip_preserves_flv_tags_and_eos() {
    let (body, expected) = canned_stream();
    let mut publisher = Publisher::connect("key", false, PublishIds::first());
    publisher.publish("key");
    for event in published(awkward_chunks(&body)) {
        publisher.raise(event);
    }
    publisher.raise(ServerSessionEvent::PublishStreamFinished { stream_key: "key".to_string() });
    assert_eq!(publisher.ended, Some(Ok(true)));
    let mut worker = ListenWorker::new(false, false, 20_000_000_000, 0);
    let served = WorkerEvent::Served {
        result: Ok(true),
        rejected: publisher.rejected,
        ids: publisher.connection.ids(),
    };
    let mut calls = publisher.calls;
    match worker.run_worker(served) {
        WorkerAction::Run(script) => {
            assert!(matches!(run(script, &mut calls), Conclusion::Finished));
        }
        action => panic!("{action:?}"),
    }

    let mut stream = StreamState::fresh();
    let mut out = Vec::new();
    let mut saw_eos = false;
    let mut started = Vec::new();
    let mut removed = Vec::new();
    for output in outputs(calls) {
        let reply = stream.create(CreateEvent::Output(output));
        for emission in reply.emissions {
            match emission {
                Emission::Event(event) if event.name == "rtmpx-publish-start" => {
                    assert!(out.is_empty(), "the start precedes the first buffer");
                    started.push(event.connection_id);
                }
                Emission::Event(event) => {
                    assert_eq!(event.name, "rtmpx-publish-end");
                    assert_eq!(event.reason.as_deref(), Some("unpublished"));
                }
                Emission::ConnectionRemoved { connection_id, .. } => removed.push(connection_id),
                emission => panic!("{emission:?}"),
            }
        }
        match reply.flow {
            Some(Flow::Buffer(bytes)) => out.extend_from_slice(&bytes),
            Some(Flow::Eos) => saw_eos = true,
            None => {}
            flow => panic!("{flow:?}"),
        }
    }
    assert_eq!(parse_tags(&out), expected);
    assert_eq!(started, vec![1]);
    assert_eq!(removed, vec![1]);
    assert!(saw_eos, "src must emit EOS after the publisher disconnects");
}

#[test]
fn listen_ignores_unknown_stream_key() {
    let (body, expected) = canned_stream();
    let mut worker = ListenWorker::new(true, false, 20_000_000_000, 0);
    let mut denied = Publisher::connect("key", true, worker.ids);
    denied.publish("wrong");
    assert!(denied.calls.iter().any(|call| matches!(
        call,
        Call::Reject { request_id: 2, code, description }
            if code == "NetStream.Publish.Denied"
                && description == "publish denied: application or stream key mismatch"
    )));
    assert!(denied.rejected);
    assert_eq!(denied.ended, Some(Err(("publisher rejected".to_string(), false))));
    let ids = denied.connection.ids();
    let mut calls = denied.calls;
    let result = Err(SessionFailure::error("publisher rejected".to_string()));
    match worker.run_worker(WorkerEvent::Served { result, rejected: true, ids }) {
        WorkerAction::Run(script) => {
            assert!(matches!(run(script, &mut calls), Conclusion::Continue));
        }
        action => panic!("{action:?}"),
    }
    assert!(outputs(calls).is_empty(), "no media must arrive for a rejected stream key");
    assert!(matches!(
        worker.run_worker(WorkerEvent::ScriptOver(Conclusion::Continue)),
        WorkerAction::Accept { limit: Some(limit) } if limit == Duration::from_nanos(20_000_000_000)
    ));

    // The listener must still serve the configured key afterwards.
    let mut publisher = Publisher::connect("key", true, worker.ids);
    publisher.publish("key");
    for event in published(awkward_chunks(&body)) {
        publisher.raise(event);
    }
    let mut out = Vec::new();
    for output in outputs(publisher.calls) {
        if let WorkerOutput::Data(bytes) = output {
            out.extend_from_slice(&bytes);
        }
    }
    assert_eq!(parse_tags(&out), expected);
}

#[test]
fn handshake_returns_disconnect_when_client_goes_away_first() {
    let mut handshake = HandshakeLoop::server_handshake();
    handshake.handshake_loop(HandshakeEvent::Connected);
    let gone = HandshakeEvent::Read(ReadOutcome::Received(vec![]));
    match handshake.handshake_loop(gone) {
        HandshakeAction::Return(Err(failure)) => assert!(
            failure.client_disconnect,
            "vanished client must count as a disconnect: {}",
            failure.message
        ),
        action => panic!("{action:?}"),
    }
}

#[test]
fn denied_publisher_fails_a_listener_that_does_not_keep_listening() {
    let mut denied = Publisher::connect("key", false, PublishIds::first());
    denied.publish("wrong");
    assert!(!denied.rejected);
    assert_eq!(
        denied.ended,
        Some(Err((
            "RTMP publisher did not match the configured application and stream key".to_string(),
            false
        )))
    );
}

#[test]
fn players_are_turned_away_from_a_source() {
    let play = || ServerSessionEvent::PlayStreamRequested {
        request_id: 9,
        app_name: "live".to_string(),
        stream_key: "key".to_string(),
        stream_id: 1,
    };
    let mut visitor = Publisher::connect("key", true, PublishIds::first());
    visitor.raise(play());
    assert!(visitor.rejected);
    assert_eq!(visitor.ended, Some(Err(("RTMP play request rejected".to_string(), true))));
    assert!(visitor.calls.iter().any(|call| matches!(
        call,
        Call::Reject { request_id: 9, code, .. } if code == "NetStream.Play.Failed"
    )));
    let mut visitor = Publisher::connect("key", false, PublishIds::first());
    visitor.raise(play());
    assert!(!visitor.rejected);
    assert_eq!(
        visitor.ended,
        Some(Err(("RTMP play requests are not supported".to_string(), false)))
    );
}

#[test]
fn publisher_connection_ends_as_its_socket_does() {
    let read = |outcome: ReadOutcome, cancelled: bool, graceful: u64| ServeEvent::Read {
        outcome,
        cancelled,
        graceful,
    };
    let mut publisher = Publisher::connect("key", false, PublishIds::first());
    publisher.event(read(ReadOutcome::Received(vec![]), false, 0));
    assert_eq!(publisher.ended, Some(Ok(false)));
    let mut publisher = Publisher::connect("key", false, PublishIds::first());
    publisher.event(read(ReadOutcome::Cancelled, true, 0));
    assert_eq!(publisher.ended, Some(Err(("worker is shutting down".to_string(), false))));
    assert!(!publisher.calls.iter().any(|call| matches!(call, Call::ShutDown)));
    let mut publisher = Publisher::connect("key", false, PublishIds::first());
    publisher.event(read(ReadOutcome::Cancelled, true, 500));
    assert_eq!(publisher.ended, Some(Err(("worker is shutting down".to_string(), false))));
    assert!(matches!(
        publisher.calls[publisher.calls.len() - 2..],
        [Call::ShutDown, Call::AwaitClose { nanoseconds: 500 }]
    ));
    let mut publisher = Publisher::connect("key", false, PublishIds::first());
    publisher.event(ServeEvent::FeedRefused("bad".to_string()));
    assert_eq!(
        publisher.ended,
        Some(Err(("publisher sent unreadable RTMP: bad".to_string(), false)))
    );
    let mut publisher = Publisher::connect("key", false, PublishIds::first());
    publisher.event(ServeEvent::SessionRefused("bad".to_string()));
    assert_eq!(
        publisher.ended,
        Some(Err(("failed to create RTMP session: bad".to_string(), false)))
    );
}

#[test]
fn bytes_behind_the_handshake_are_fed_first() {
    let session = PublishSession::new(None, None, false, PublishIds::first());
    let mut connection = PublisherConnection::new(session);
    connection.serve_publisher(ServeEvent::HandshakeOver(Ok(vec![1, 2])));
    match connection.serve_publisher(ServeEvent::SessionReady) {
        ServeAction::Feed(bytes) => assert_eq!(bytes, vec![1, 2]),
        action => panic!("{action:?}"),
    }
    assert!(matches!(
        connection.serve_publisher(ServeEvent::SessionReady),
        ServeAction::Read
    ));
}

#[test]
fn oversized_message_ends_the_worker() {
    let mut publisher = Publisher::connect("key", true, PublishIds::first());
    publisher.publish("key");
    publisher.raise(ServerSessionEvent::VideoDataReceived {
        timestamp: 0,
        data: vec![0; 0x0100_0000],
    });
    let text = "RTMP media message exceeds the FLV 24-bit tag-size limit";
    assert_eq!(publisher.ended, Some(Err((text.to_string(), false))));
    let last = publisher.calls.len();
    assert!(matches!(
        &publisher.calls[last - 2],
        Call::Offer(WorkerOutput::Error(message)) if message == text
    ));
    assert!(matches!(publisher.calls[last - 1], Call::Cancel));
}

fn worker_outputs(
    keep_listening: bool,
    result: Result<bool, SessionFailure>,
    current: u64,
) -> (Vec<String>, bool) {
    let mut worker = ListenWorker::new(keep_listening, false, 0, 0);
    let ids = PublishIds { next: current + 1, current };
    match worker.run_worker(WorkerEvent::Served { result, rejected: false, ids }) {
        WorkerAction::Run(script) => {
            let mut calls = Vec::new();
            let goes_on = matches!(run(script, &mut calls), Conclusion::Continue);
            assert_eq!(worker.ids, PublishIds { next: current + 1, current: 0 });
            (outputs(calls).iter().map(|output| format!("{output:?}")).collect(), goes_on)
        }
        action => panic!("{action:?}"),
    }
}

#[test]
fn publisher_endings_are_announced() {
    let ended = |reason: &str| format!("PublishEnded {{ connection_id: 4, reason: {reason:?} }}");
    let warning =
        "Warning(\"RTMP publisher disconnected without unpublishing\")".to_string();
    let eos = "Eos".to_string();
    let gone = || Err(SessionFailure::disconnect("gone".to_string()));
    let broken = || Err(SessionFailure::error("broken".to_string()));
    assert_eq!(worker_outputs(true, Ok(true), 4), (vec![ended("unpublished")], true));
    assert_eq!(
        worker_outputs(false, Ok(true), 4),
        (vec![ended("unpublished"), eos.clone()], false)
    );
    assert_eq!(
        worker_outputs(true, Ok(false), 4),
        (vec![ended("disconnect"), warning.clone()], true)
    );
    assert_eq!(worker_outputs(false, Ok(false), 0), (vec![warning, eos], false));
    assert_eq!(worker_outputs(true, gone(), 4), (vec![ended("disconnect")], true));
    assert_eq!(
        worker_outputs(false, gone(), 4),
        (vec![ended("disconnect"), "Error(\"RTMP session failed: gone\")".to_string()], false)
    );
    assert_eq!(
        worker_outputs(true, broken(), 4),
        (vec![ended("error"), "Error(\"RTMP session failed: broken\")".to_string()], false)
    );
}

#[test]
fn worker_stops_when_nobody_listens() {
    let mut worker = ListenWorker::new(true, false, 0, 0);
    let ids = PublishIds { next: 2, current: 1 };
    let script = match worker.run_worker(WorkerEvent::Served {
        result: Ok(true),
        rejected: false,
        ids,
    }) {
        WorkerAction::Run(script) => script,
        action => panic!("{action:?}"),
    };
    let conclusion = match ScriptRun::new(script).next(Outcome::Done) {
        Progress::Perform { run, .. } => match run.next(Outcome::Closed) {
            Progress::Over(conclusion) => conclusion,
            progress => panic!("{progress:?}"),
        },
        progress => panic!("{progress:?}"),
    };
    assert!(matches!(
        worker.run_worker(WorkerEvent::ScriptOver(conclusion)),
        WorkerAction::Stop
    ));
}

#[test]
fn worker_starts_and_accepts() {
    let mut worker = ListenWorker::new(false, true, 5, 6);
    let mut last_words = |event: WorkerEvent| match worker.run_worker(event) {
        WorkerAction::Run(script) => {
            let mut calls = Vec::new();
            let goes_on = matches!(run(script, &mut calls), Conclusion::Continue);
            (format!("{:?}", outputs(calls)), goes_on)
        }
        action => panic!("{action:?}"),
    };
    assert_eq!(
        last_words(WorkerEvent::AcceptTimedOut),
        (
            "[Error(\"Failed to accept RTMP publisher: Timed out waiting 5ns for an RTMP \
             publisher\")]"
                .to_string(),
            false
        )
    );
    assert_eq!(
        last_words(WorkerEvent::AcceptFailed("no".to_string())),
        ("[Error(\"Failed to accept RTMP publisher: no\")]".to_string(), false)
    );
    assert_eq!(
        last_words(WorkerEvent::ConfigureFailed("no".to_string())),
        ("[Error(\"Failed to configure TCP_NODELAY: no\")]".to_string(), false)
    );
    assert_eq!(
        last_words(WorkerEvent::SecureFailed {
            peer: "1.2.3.4:5".to_string(),
            fault: TlsAcceptFault::Failed("eof".to_string()),
        }),
        (
            "[Warning(\"RTMPS publisher 1.2.3.4:5: TLS handshake failed: eof\")]".to_string(),
            true
        )
    );
    let mut step = |event: WorkerEvent| worker.run_worker(event);
    assert!(matches!(
        step(WorkerEvent::RuntimeFailed("no".to_string())),
        WorkerAction::ReportFailure(text) if text == "Failed to create Tokio runtime: no"
    ));
    assert!(matches!(
        step(WorkerEvent::ListenerFailed("no".to_string())),
        WorkerAction::ReportFailure(text)
            if text == "Failed to initialize Tokio RTMP listener: no"
    ));
    assert!(matches!(step(WorkerEvent::Ready), WorkerAction::ReportReady));
    assert!(matches!(step(WorkerEvent::Reported { heard: false }), WorkerAction::Stop));
    assert!(matches!(
        step(WorkerEvent::Reported { heard: true }),
        WorkerAction::Accept { limit: Some(limit) } if limit == Duration::from_nanos(5)
    ));
    assert!(matches!(step(WorkerEvent::Accepted), WorkerAction::Configure));
    assert!(matches!(step(WorkerEvent::Configured), WorkerAction::Secure { limit: Some(limit) } if limit == Duration::from_nanos(6)));
    assert!(matches!(step(WorkerEvent::Secured), WorkerAction::Serve { .. }));
    assert!(matches!(step(WorkerEvent::Cancelled), WorkerAction::Stop));
}

fn played(session: &mut PlaySession, event: ClientSessionEvent) -> (Vec<Call>, Conclusion) {
    let result = ClientSessionResult::RaisedEvent(event);
    match session.connect_and_play(PlayEvent::Result(result)) {
        ServeAction::Run(script) => {
            let mut calls = Vec::new();
            let conclusion = run(script, &mut calls);
            (calls, conclusion)
        }
        action => panic!("{action:?}"),
    }
}

#[test]
fn playback_is_requested_behind_the_batch() {
    let mut session = PlaySession::new("key".to_string(), PublishIds::first());
    let (calls, conclusion) = played(&mut session, ClientSessionEvent::ConnectionRequestAccepted);
    assert!(calls.is_empty());
    assert!(matches!(conclusion, Conclusion::Continue));
    let chunk_size = ClientSessionResult::OutboundResponse(vec![1]);
    assert!(matches!(
        session.connect_and_play(PlayEvent::Result(chunk_size)),
        ServeAction::Run(script) if matches!(script.ops[0].call, Call::Write(_))
    ));
    match session.connect_and_play(PlayEvent::NoMoreResults) {
        ServeAction::Run(script) => assert!(matches!(
            &script.ops[0].call,
            Call::RequestPlayback { stream_key } if stream_key == "key"
        )),
        action => panic!("{action:?}"),
    }
    assert!(matches!(
        session.connect_and_play(PlayEvent::NoMoreResults),
        ServeAction::Read
    ));
}

#[test]
fn playback_becomes_an_flv_stream() {
    let mut session = PlaySession::new("key".to_string(), PublishIds { next: 6, current: 0 });
    let mut calls = Vec::new();
    for event in [
        ClientSessionEvent::PlaybackRequestAccepted,
        ClientSessionEvent::StreamDataReceived { timestamp: 0, payload: vec![1] },
        ClientSessionEvent::StreamMetadataReceived { timestamp: 1, payload: vec![2] },
        ClientSessionEvent::VideoDataReceived { timestamp: 2, data: vec![3] },
        ClientSessionEvent::AudioDataReceived { timestamp: 3, data: vec![4] },
        ClientSessionEvent::StatusReceived { code: "NetStream.Play.Reset".to_string() },
    ] {
        let (more, conclusion) = played(&mut session, event);
        assert!(matches!(conclusion, Conclusion::Continue));
        calls.extend(more);
    }
    assert_eq!(session.ids(), PublishIds { next: 7, current: 6 });
    let mut outputs = outputs(calls).into_iter();
    assert!(matches!(outputs.next(), Some(WorkerOutput::PublishStarted { connection_id: 6 })));
    let mut out = Vec::new();
    for output in outputs {
        match output {
            WorkerOutput::Data(bytes) => out.extend_from_slice(&bytes),
            output => panic!("{output:?}"),
        }
    }
    assert_eq!(
        parse_tags(&out),
        vec![(18, 0, vec![1]), (18, 1, vec![2]), (9, 2, vec![3]), (8, 3, vec![4])]
    );
}

#[test]
fn server_ends_playback_by_status() {
    for code in ["NetStream.Play.Stop", "NetStream.Play.UnpublishNotify", "NetStream.Play.Complete"] {
        let mut session = PlaySession::new("key".to_string(), PublishIds::first());
        let status = ClientSessionEvent::StatusReceived { code: code.to_string() };
        assert!(matches!(played(&mut session, status).1, Conclusion::Finished));
    }
    let mut session = PlaySession::new("key".to_string(), PublishIds::first());
    let rejected =
        ClientSessionEvent::ConnectionRequestRejected { description: "no".to_string() };
    match played(&mut session, rejected).1 {
        Conclusion::Failed(failure) => {
            assert_eq!(failure.message, "RTMP server rejected connection: no");
        }
        other => panic!("{other:?}"),
    }
    assert!(matches!(
        session.connect_and_play(PlayEvent::ScriptOver(Conclusion::Finished)),
        ServeAction::Return(Ok(true))
    ));
    let closed = PlayEvent::Read {
        outcome: ReadOutcome::Received(vec![]),
        cancelled: false,
        graceful: false,
    };
    assert!(matches!(session.connect_and_play(closed), ServeAction::Return(Ok(false))));
    let stopped = PlayEvent::Read {
        outcome: ReadOutcome::Cancelled,
        cancelled: true,
        graceful: true,
    };
    assert!(matches!(
        session.connect_and_play(stopped),
        ServeAction::Run(script) if matches!(script.ops[0].call, Call::ShutDown)
    ));
}

#[test]
fn play_worker_reconnects_only_when_told_to() {
    let mut worker = PlayWorker::new(true);
    assert!(matches!(
        worker.run_play_worker(PlayWorkerEvent::Reported { heard: true }),
        PlayWorkerAction::Play { ids: PublishIds { next: 1, current: 0 } }
    ));
    let ids = PublishIds { next: 2, current: 1 };
    let script = match worker.run_play_worker(PlayWorkerEvent::Played { result: Ok(false), ids }) {
        PlayWorkerAction::Run(script) => script,
        action => panic!("{action:?}"),
    };
    let mut calls = Vec::new();
    let conclusion = run(script, &mut calls);
    assert_eq!(
        format!("{:?}", outputs(calls)),
        "[PublishEnded { connection_id: 1, reason: \"disconnect\" }, \
         Warning(\"RTMP server closed the connection\")]"
    );
    assert!(matches!(
        worker.run_play_worker(PlayWorkerEvent::ScriptOver(conclusion)),
        PlayWorkerAction::Wait
    ));
    assert!(matches!(
        worker.run_play_worker(PlayWorkerEvent::Waited { undisturbed: true }),
        PlayWorkerAction::Play { ids: PublishIds { next: 2, current: 0 } }
    ));
    assert!(matches!(
        worker.run_play_worker(PlayWorkerEvent::Waited { undisturbed: false }),
        PlayWorkerAction::Stop
    ));
    let mut once = PlayWorker::new(false);
    let broken = Err(SessionFailure::disconnect("lost".to_string()));
    let script = match once.run_play_worker(PlayWorkerEvent::Played {
        result: broken,
        ids: PublishIds::first(),
    }) {
        PlayWorkerAction::Run(script) => script,
        action => panic!("{action:?}"),
    };
    let mut calls = Vec::new();
    let conclusion = run(script, &mut calls);
    assert_eq!(
        format!("{:?}", outputs(calls)),
        "[Error(\"RTMP play session failed: lost\")]"
    );
    assert!(matches!(
        once.run_play_worker(PlayWorkerEvent::ScriptOver(conclusion)),
        PlayWorkerAction::Stop
    ));
}

#[test]
fn each_publisher_starts_a_new_stream() {
    let mut stream = StreamState::fresh();
    let started = |connection_id| CreateEvent::Output(WorkerOutput::PublishStarted { connection_id });
    let data = |byte: u8| CreateEvent::Output(WorkerOutput::Data(vec![byte]));
    stream.create(started(1));
    let first = stream.create(data(1));
    assert_eq!(first.emissions.len(), 1);
    let ended = CreateEvent::Output(WorkerOutput::PublishEnded {
        connection_id: 1,
        reason: "unpublished".to_string(),
    });
    let end = stream.create(ended);
    assert!(end.flow.is_none());
    assert!(matches!(
        &end.emissions[0],
        Emission::Event(event)
            if event.name == "rtmpx-publish-end" && event.connection_id == 1
                && event.reason.as_deref() == Some("unpublished")
    ));
    assert!(matches!(
        &end.emissions[1],
        Emission::ConnectionRemoved { connection_id: 1, reason } if reason == "unpublished"
    ));
    stream.create(started(2));
    let second = stream.create(data(2));
    assert!(matches!(second.emissions[0], Emission::NewStream));
    assert!(matches!(
        &second.emissions[1],
        Emission::Event(event)
            if event.name == "rtmpx-publish-start" && event.connection_id == 2
    ));
    assert!(stream.create(data(3)).emissions.is_empty());
}

#[test]
fn waiting_for_data_ends_as_it_should() {
    let mut stream = StreamState::fresh();
    assert!(matches!(stream.create(CreateEvent::Flushing).flow, Some(Flow::Flushing)));
    assert!(stream.create(CreateEvent::Idle).flow.is_none());
    assert!(stream.create(CreateEvent::Output(WorkerOutput::Wake)).flow.is_none());
    assert!(matches!(
        stream.create(CreateEvent::Closed { flushing: false }).flow,
        Some(Flow::Eos)
    ));
    assert!(matches!(
        stream.create(CreateEvent::Closed { flushing: true }).flow,
        Some(Flow::Flushing)
    ));
    assert!(matches!(
        stream.create(CreateEvent::Output(WorkerOutput::Eos)).flow,
        Some(Flow::Eos)
    ));
    let warned = stream.create(CreateEvent::Output(WorkerOutput::Warning("w".to_string())));
    assert!(matches!(&warned.emissions[0], Emission::Warning(text) if text == "w"));
    assert!(warned.flow.is_none());
    let broken = stream.create(CreateEvent::Output(WorkerOutput::Error("e".to_string())));
    assert!(matches!(&broken.emissions[0], Emission::Error(text) if text == "e"));
    assert!(matches!(broken.flow, Some(Flow::Error)));
}

#[test]
fn start_is_announced_after_a_flush() {
    let mut stream = StreamState::fresh();
    stream.create(CreateEvent::Output(WorkerOutput::PublishStarted { connection_id: 5 }));
    assert!(matches!(stream.create(CreateEvent::Flushing).flow, Some(Flow::Flushing)));
    stream.create(CreateEvent::Idle);
    stream.create(CreateEvent::Output(WorkerOutput::Wake));
    let first = stream.create(CreateEvent::Output(WorkerOutput::Data(vec![1])));
    assert_eq!(first.emissions.len(), 1);
    assert!(matches!(
        &first.emissions[0],
        Emission::Event(event)
            if event.name == "rtmpx-publish-start" && event.connection_id == 5
    ));
    assert!(stream.create(CreateEvent::Output(WorkerOutput::Data(vec![2]))).emissions.is_empty());
}

#[test]
fn source_settings_have_their_defaults() {
    let settings = Settings::default();
    assert_eq!(settings.mode, "play");
    assert_eq!(settings.uri, None);
    assert!(settings.tcp_nodelay);
    assert_eq!(settings.connect_timeout, 10_000_000_000);
    assert_eq!(settings.accept_timeout, 0);
    assert_eq!(settings.handshake_timeout, 10_000_000_000);
    assert_eq!(settings.read_timeout, 0);
    assert_eq!(settings.write_timeout, 10_000_000_000);
    assert_eq!(settings.graceful_shutdown_timeout, 0);
    assert!(!settings.keep_listening);
    assert!(!settings.reconnect);
    assert_eq!(settings.tc_url, None);
    assert_eq!(settings.start().unwrap(), SourceMode::Play);
}

#[test]
fn source_properties_read_back() {
    let mut settings = Settings::default();
    let names = [
        "mode",
        "uri",
        "tcp-nodelay",
        "connect-timeout",
        "accept-timeout",
        "handshake-timeout",
        "read-timeout",
        "write-timeout",
        "graceful-shutdown-timeout",
        "keep-listening",
        "reconnect",
        "tc-url",
        "tls-cert",
        "tls-key",
        "tls-ca-cert",
    ];
    for name in names {
        let property = property_named(name).unwrap();
        match settings.property(property) {
            PropertyValue::Text(_) => {
                let value = PropertyValue::Text(Some("x".to_string()));
                assert!(settings.set_property(property, value));
                assert!(matches!(
                    settings.property(property),
                    PropertyValue::Text(Some(text)) if text == "x"
                ));
                assert!(!settings.set_property(property, PropertyValue::Number(1)));
            }
            PropertyValue::Flag(flag) => {
                assert!(settings.set_property(property, PropertyValue::Flag(!flag)));
                assert!(matches!(
                    settings.property(property),
                    PropertyValue::Flag(now) if now != flag
                ));
                assert!(!settings.set_property(property, PropertyValue::Text(None)));
            }
            PropertyValue::Number(_) => {
                assert!(settings.set_property(property, PropertyValue::Number(77)));
                assert!(matches!(settings.property(property), PropertyValue::Number(77)));
                assert!(!settings.set_property(property, PropertyValue::Flag(true)));
            }
        }
    }
    assert_eq!(property_named("wait-for-connection"), None);
    assert!(settings.set_property(SourceProperty::Mode, PropertyValue::Text(None)));
    assert_eq!(settings.mode, "play");
    settings.mode = "LiStEn".to_string();
    assert_eq!(settings.start().unwrap(), SourceMode::Listen);
    settings.mode = "watch".to_string();
    let error = settings.start().unwrap_err();
    assert_eq!(error.kind, ErrorKind::Settings);
    assert_eq!(error.message, "Invalid rtmpxsrc mode 'watch': expected listen or play");
}

fn listen_start(element: Element, uri: &str, cert: Option<&str>, key: Option<&str>) -> ListenStart {
    ListenStart::new(
        element,
        ListenSettings {
            uri: Some(uri.to_string()),
            tls_cert: cert.map(|path| path.to_string()),
            tls_key: key.map(|path| path.to_string()),
            tls_ca_cert: None,
        },
    )
}

fn start_error(action: StartAction) -> (ErrorKind, String, bool) {
    match action {
        StartAction::Fail { error, stop_worker } => (error.kind, error.message, stop_worker),
        action => panic!("{action:?}"),
    }
}

#[test]
fn source_listener_starts_step_by_step() {
    let mut start = listen_start(Element::Source, "rtmp://127.0.0.1:0/live/key", None, None);
    assert!(matches!(
        start.start_listen(StartEvent::Begin),
        StartAction::ParseHost(host) if host == "127.0.0.1"
    ));
    assert!(matches!(start.start_listen(StartEvent::HostParsed), StartAction::Bind { port: 0 }));
    assert!(matches!(start.start_listen(StartEvent::Bound), StartAction::SetNonblocking));
    assert!(matches!(start.start_listen(StartEvent::Nonblocking), StartAction::Locate));
    match start.start_listen(StartEvent::Located { port: 4321 }) {
        StartAction::Spawn { app_filter, key_filter } => {
            assert_eq!(app_filter.as_deref(), Some("live"));
            assert_eq!(key_filter.as_deref(), Some("key"));
        }
        action => panic!("{action:?}"),
    }
    assert!(matches!(start.start_listen(StartEvent::Spawned), StartAction::AwaitReport));
    assert!(matches!(start.start_listen(StartEvent::Reported), StartAction::Store));
    assert!(matches!(
        start.start_listen(StartEvent::Stored),
        StartAction::Done { uri: Some(uri) } if uri == "rtmp://127.0.0.1:4321/live/key"
    ));
}

#[test]
fn sink_listener_remembers_its_worker_before_it_waits() {
    let mut start = listen_start(Element::Sink, "rtmps://[::]:99", Some("c"), Some("k"));
    match start.start_listen(StartEvent::Begin) {
        StartAction::SetUpTls(files) => {
            assert_eq!((files.cert.as_str(), files.key.as_str()), ("c", "k"));
        }
        action => panic!("{action:?}"),
    }
    assert!(matches!(
        start.start_listen(StartEvent::TlsReady),
        StartAction::ParseHost(host) if host == "::"
    ));
    assert!(matches!(start.start_listen(StartEvent::HostParsed), StartAction::Bind { port: 99 }));
    start.start_listen(StartEvent::Located { port: 99 });
    assert!(matches!(start.start_listen(StartEvent::Spawned), StartAction::Store));
    assert!(matches!(start.start_listen(StartEvent::Stored), StartAction::AwaitReport));
    assert!(matches!(
        start.start_listen(StartEvent::Reported),
        StartAction::Done { uri: None }
    ));
}

#[test]
fn start_failures_have_their_kind() {
    let said = |kind: ErrorKind, text: &str, stop: bool| (kind, text.to_string(), stop);
    let mut start = listen_start(Element::Source, "rtmp://nowhere:1/", None, None);
    start.start_listen(StartEvent::Begin);
    let mut fails = |event: StartEvent| start_error(start.start_listen(event));
    let no = || "no".to_string();
    assert_eq!(
        fails(StartEvent::HostInvalid(no())),
        said(ErrorKind::Settings, "Invalid listen host 'nowhere': no (use an IP literal)", false)
    );
    assert_eq!(
        fails(StartEvent::TlsFailed(no())),
        said(ErrorKind::Settings, "no", false)
    );
    assert_eq!(
        fails(StartEvent::BindFailed { address: "1.2.3.4:5".to_string(), reason: no() }),
        said(ErrorKind::OpenRead, "Failed to bind RTMP listener on 1.2.3.4:5: no", false)
    );
    assert_eq!(
        fails(StartEvent::NonblockingFailed(no())),
        said(
            ErrorKind::Settings,
            "Failed to configure RTMP listener as nonblocking: no",
            false
        )
    );
    assert_eq!(
        fails(StartEvent::LocateFailed(no())),
        said(ErrorKind::OpenRead, "Failed to query RTMP listener address: no", false)
    );
    assert_eq!(
        fails(StartEvent::SpawnFailed(no())),
        said(ErrorKind::OpenRead, "Failed to spawn RTMP listener worker: no", false)
    );
    assert_eq!(
        fails(StartEvent::ReportedFailure(no())),
        said(ErrorKind::OpenRead, "no", true)
    );
    assert_eq!(
        fails(StartEvent::NoReport(no())),
        said(ErrorKind::OpenRead, "RTMP listener worker failed to start: no", true)
    );
    assert_eq!(
        fails(StartEvent::AlreadyRunning),
        said(ErrorKind::StateChange, "rtmpxsrc worker is already running", true)
    );
    let mut sink = listen_start(Element::Sink, "rtmp://1.2.3.4:1/", None, None);
    assert_eq!(
        start_error(sink.start_listen(StartEvent::LocateFailed(no()))).0,
        ErrorKind::OpenWrite
    );
    let mut bare = listen_start(Element::Sink, "", None, None);
    assert_eq!(
        start_error(bare.start_listen(StartEvent::Begin)),
        said(
            ErrorKind::Settings,
            "rtmpxsink listen mode needs uri, e.g. rtmp://host:1935/app/key",
            false
        )
    );
    let mut keyless = listen_start(Element::Source, "rtmps://1.2.3.4:1/", Some("c"), None);
    assert_eq!(
        start_error(keyless.start_listen(StartEvent::Begin)),
        said(
            ErrorKind::Settings,
            "rtmpxsrc listen mode uses an rtmps:// uri and needs tls-key (PEM private key)",
            false
        )
    );
}

#[test]
fn clients_start_in_their_own_order() {
    assert!(matches!(
        start_client(Element::Source, ClientStartEvent::Spawned),
        StartAction::AwaitReport
    ));
    assert!(matches!(
        start_client(Element::Source, ClientStartEvent::Reported),
        StartAction::Store
    ));
    assert!(matches!(
        start_client(Element::Source, ClientStartEvent::Stored),
        StartAction::Done { uri: None }
    ));
    assert!(matches!(
        start_client(Element::Sink, ClientStartEvent::Spawned),
        StartAction::Store
    ));
    assert!(matches!(
        start_client(Element::Sink, ClientStartEvent::Stored),
        StartAction::AwaitReport
    ));
    let said = |kind: ErrorKind, text: &str, stop: bool| (kind, text.to_string(), stop);
    let no = || "no".to_string();
    assert_eq!(
        start_error(start_client(Element::Source, ClientStartEvent::SpawnFailed(no()))),
        said(ErrorKind::OpenRead, "Failed to spawn RTMP play worker: no", false)
    );
    assert_eq!(
        start_error(start_client(Element::Sink, ClientStartEvent::SpawnFailed(no()))),
        said(ErrorKind::Failed, "failed to spawn RTMP publish worker: no", false)
    );
    assert_eq!(
        start_error(start_client(Element::Source, ClientStartEvent::NoReport(no()))),
        said(ErrorKind::OpenRead, "RTMP play worker failed to start: no", true)
    );
    assert_eq!(
        start_error(start_client(Element::Sink, ClientStartEvent::NoReport(no()))),
        said(
            ErrorKind::OpenWrite,
            "timed out waiting for RTMP publish to be accepted",
            true
        )
    );
    assert_eq!(
        start_error(start_client(Element::Sink, ClientStartEvent::ReportedFailure(no()))),
        said(ErrorKind::OpenWrite, "no", true)
    );
    let error = resolve_endpoint(Element::Source, None, None).unwrap_err();
    assert_eq!(error.kind, ErrorKind::Settings);
    assert_eq!(
        error.message,
        "rtmpxsrc play mode needs uri, e.g. rtmp://host:1935/app/key"
    );
    let endpoint =
        resolve_endpoint(Element::Sink, Some("rtmp://h/a/k".to_string()), None).unwrap();
    assert_eq!(endpoint.tc_url, "rtmp://h:1935/a");
}
